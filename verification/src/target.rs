//! Request targets, and the path and query in them.
//!
//! A request names what it asks for in one of four forms: by path and query
//! (`/users?id=7`), by a whole URI (`http://example.com/users?id=7`), by an
//! authority alone (`example.com:443`), or by an asterisk. Only the path and
//! query say what is asked of a server, whichever server it is, so only they
//! follow a request to another upstream.

use vstd::prelude::*;
use vstd::slice::slice_subrange;

verus! {

/// An ASCII letter.
pub open spec fn is_letter(b: u8) -> bool {
    0x41 <= b <= 0x5a || 0x61 <= b <= 0x7a
}

/// A byte that may stand in the scheme of a URI: a letter, a digit, `+`, `-`
/// or `.`.
pub open spec fn is_scheme_byte(b: u8) -> bool {
    is_letter(b) || 0x30 <= b <= 0x39 || b == 0x2b || b == 0x2d || b == 0x2e
}

/// A byte that ends the authority of a URI: `/`, `?` or `#`.
pub open spec fn ends_authority(b: u8) -> bool {
    b == 0x2f || b == 0x3f || b == 0x23
}

/// The test "this byte may stand in a scheme".
pub open spec fn in_scheme() -> spec_fn(u8) -> bool {
    |b: u8| is_scheme_byte(b)
}

/// The test "this byte does not end an authority".
pub open spec fn in_authority() -> spec_fn(u8) -> bool {
    |b: u8| !ends_authority(b)
}

/// How many bytes at the front of `bytes` pass `wanted`, up to the first that
/// does not.
pub open spec fn leading(bytes: Seq<u8>, wanted: spec_fn(u8) -> bool) -> int
    decreases bytes.len(),
{
    if bytes.len() == 0 || !wanted(bytes[0]) {
        0
    } else {
        1 + leading(bytes.drop_first(), wanted)
    }
}

/// The length of the scheme of `target`: its leading scheme bytes.
pub open spec fn scheme_len(target: Seq<u8>) -> int {
    leading(target, in_scheme())
}

/// Whether `target` is a whole URI: a scheme that begins with a letter, then
/// `://`.
pub open spec fn is_absolute_form(target: Seq<u8>) -> bool {
    let n = scheme_len(target);
    &&& n > 0
    &&& is_letter(target[0])
    &&& n + 3 <= target.len()
    &&& target[n] == 0x3a
    &&& target[n + 1] == 0x2f
    &&& target[n + 2] == 0x2f
}

/// Where the path and query of `target` begin.
///
/// A target that begins with `/` is path and query throughout. In a whole URI
/// they begin where the authority ends: at the first `/`, `?` or `#` after
/// `://`, or at the end where none follows. A target of any other form has no
/// path and no query.
pub open spec fn path_start(target: Seq<u8>) -> int {
    if target.len() > 0 && target[0] == 0x2f {
        0
    } else if is_absolute_form(target) {
        let authority_at = scheme_len(target) + 3;
        authority_at + leading(target.skip(authority_at), in_authority())
    } else {
        target.len() as int
    }
}

/// The path and query of `target`: what stands from `path_start` on.
pub open spec fn path_and_query(target: Seq<u8>) -> Seq<u8> {
    target.skip(path_start(target))
}

/// What `leading` gives: a length within the bytes, before which every byte
/// passes, and at which the byte, if there is one, does not.
pub proof fn lemma_leading(bytes: Seq<u8>, wanted: spec_fn(u8) -> bool)
    ensures
        0 <= leading(bytes, wanted) <= bytes.len(),
        forall|j: int| 0 <= j < leading(bytes, wanted) ==> wanted(#[trigger] bytes[j]),
        leading(bytes, wanted) < bytes.len() ==> !wanted(bytes[leading(bytes, wanted)]),
    decreases bytes.len(),
{
    if bytes.len() > 0 && wanted(bytes[0]) {
        let rest = bytes.drop_first();
        lemma_leading(rest, wanted);
        let n = leading(bytes, wanted);
        assert forall|j: int| 0 <= j < n implies wanted(#[trigger] bytes[j]) by {
            if j > 0 {
                assert(rest[j - 1] == bytes[j]);
            }
        }
        if n < bytes.len() {
            assert(rest[n - 1] == bytes[n]);
        }
    }
}

/// A length before which every byte passes, and at which the byte, if there
/// is one, does not, is the number of leading bytes that pass.
pub proof fn lemma_leading_is(bytes: Seq<u8>, wanted: spec_fn(u8) -> bool, n: int)
    requires
        0 <= n <= bytes.len(),
        forall|j: int| 0 <= j < n ==> wanted(#[trigger] bytes[j]),
        n < bytes.len() ==> !wanted(bytes[n]),
    ensures
        leading(bytes, wanted) == n,
{
    lemma_leading(bytes, wanted);
    let found = leading(bytes, wanted);
    if found < n {
        assert(wanted(bytes[found]));
    }
}

/// A target that begins with `/` is its own path and query.
pub proof fn lemma_origin_form(target: Seq<u8>)
    requires
        target.len() > 0,
        target[0] == 0x2f,
    ensures
        path_and_query(target) == target,
{
    assert(target.skip(0) =~= target);
}

/// The path and query of a whole URI are what follows its authority: for a
/// scheme, an authority without `/`, `?` and `#`, and a rest that is empty or
/// begins with one of these, they are that rest.
pub proof fn lemma_absolute_form(scheme: Seq<u8>, authority: Seq<u8>, rest: Seq<u8>)
    requires
        scheme.len() > 0,
        is_letter(scheme[0]),
        forall|i: int| 0 <= i < scheme.len() ==> is_scheme_byte(#[trigger] scheme[i]),
        forall|i: int| 0 <= i < authority.len() ==> !ends_authority(#[trigger] authority[i]),
        rest.len() > 0 ==> ends_authority(rest[0]),
    ensures
        is_absolute_form(scheme + seq![0x3au8, 0x2fu8, 0x2fu8] + authority + rest),
        path_and_query(scheme + seq![0x3au8, 0x2fu8, 0x2fu8] + authority + rest) == rest,
{
    let target = scheme + seq![0x3au8, 0x2fu8, 0x2fu8] + authority + rest;
    let n = scheme.len() as int;
    assert forall|j: int| 0 <= j < n implies in_scheme()(#[trigger] target[j]) by {
        assert(target[j] == scheme[j]);
    }
    assert(target[n] == 0x3au8);
    assert(target[n + 1] == 0x2fu8);
    assert(target[n + 2] == 0x2fu8);
    lemma_leading_is(target, in_scheme(), n);
    assert(target[0] == scheme[0]);
    let tail = target.skip(n + 3);
    assert(tail =~= authority + rest);
    assert forall|j: int| 0 <= j < authority.len() implies in_authority()(#[trigger] tail[j]) by {
        assert(tail[j] == authority[j]);
    }
    if rest.len() > 0 {
        assert(tail[authority.len() as int] == rest[0]);
    }
    lemma_leading_is(tail, in_authority(), authority.len() as int);
    assert(target.skip(n + 3 + authority.len()) =~= rest);
}

/// The length of the scheme of `target`.
fn scheme_length(target: &[u8]) -> (n: usize)
    ensures
        n == scheme_len(target@),
        n <= target@.len(),
{
    let mut i: usize = 0;
    while i < target.len()
        invariant
            0 <= i <= target@.len(),
            forall|j: int| 0 <= j < i ==> is_scheme_byte(#[trigger] target@[j]),
        decreases target@.len() - i,
    {
        let b: u8 = target[i];
        let letter = (0x41 <= b && b <= 0x5a) || (0x61 <= b && b <= 0x7a);
        let other = (0x30 <= b && b <= 0x39) || b == 0x2b || b == 0x2d || b == 0x2e;
        if !(letter || other) {
            proof {
                lemma_leading_is(target@, in_scheme(), i as int);
            }
            return i;
        }
        i = i + 1;
    }
    proof {
        lemma_leading_is(target@, in_scheme(), i as int);
    }
    i
}

/// Where the authority that begins at `from` ends.
fn authority_end(target: &[u8], from: usize) -> (end: usize)
    requires
        from <= target@.len(),
    ensures
        end == from + leading(target@.skip(from as int), in_authority()),
        from <= end <= target@.len(),
{
    let ghost tail = target@.skip(from as int);
    let mut i: usize = from;
    while i < target.len()
        invariant
            from <= i <= target@.len(),
            tail == target@.skip(from as int),
            forall|j: int| 0 <= j < i - from ==> !ends_authority(#[trigger] tail[j]),
        decreases target@.len() - i,
    {
        let b: u8 = target[i];
        assert(tail[i - from] == b);
        if b == 0x2f || b == 0x3f || b == 0x23 {
            proof {
                lemma_leading_is(tail, in_authority(), i - from);
            }
            return i;
        }
        i = i + 1;
    }
    proof {
        lemma_leading_is(tail, in_authority(), i - from);
    }
    i
}

/// Where the path and query of `target` begin.
pub fn path_start_of(target: &[u8]) -> (at: usize)
    ensures
        at == path_start(target@),
        at <= target@.len(),
{
    let len = target.len();
    if len > 0 && target[0] == 0x2f {
        return 0;
    }
    let n = scheme_length(target);
    if n == 0 || len - n < 3 {
        return len;
    }
    let first: u8 = target[0];
    let starts_with_letter = (0x41 <= first && first <= 0x5a) || (0x61 <= first && first <= 0x7a);
    if starts_with_letter && target[n] == 0x3a && target[n + 1] == 0x2f && target[n + 2] == 0x2f {
        authority_end(target, n + 3)
    } else {
        len
    }
}

/// The path and query of `target`.
pub fn path_and_query_of(target: &[u8]) -> (found: &[u8])
    ensures
        found@ == path_and_query(target@),
{
    let at = path_start_of(target);
    slice_subrange(target, at, target.len())
}

} // verus!
