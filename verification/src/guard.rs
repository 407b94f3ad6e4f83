//! The idempotency guard: decides, for one request, whether it is to be
//! replicated, and marks it so that it is replicated once only.
//!
//! The mark is a header of the request itself. Nothing is shared between
//! requests, so two requests are judged independently of each other.

use vstd::prelude::*;
use vstd::slice::slice_to_vec;
use vstd::string::*;
use crate::error::HeaderMutationError;
use crate::header::{
    canonical_name, field_check, has_name, is_canonical_name, is_valid_name, is_valid_value,
    FieldView, HeaderSet,
};

verus! {

/// What the guard found and did.
#[derive(Clone, Copy, Debug, PartialEq, Eq, Structural)]
pub enum GuardVerdict {
    /// The request carried no mark. It carries one now and is to be replicated.
    Dispatch,
    /// The request carried the mark already. Nothing was changed.
    AlreadyMarked,
    /// The mark could not be written. Nothing was changed and the request is
    /// not replicated.
    Skipped(HeaderMutationError),
}

impl GuardVerdict {
    /// Whether the request is to be replicated.
    pub open spec fn is_dispatch(self) -> bool {
        self is Dispatch
    }

    /// Whether the request is to be replicated.
    #[verifier::when_used_as_spec(is_dispatch)]
    pub fn dispatch(self) -> (go: bool)
        ensures
            go == self.is_dispatch(),
    {
        match self {
            GuardVerdict::Dispatch => true,
            _ => false,
        }
    }
}

/// The verdict on a request with the headers `headers`, under the mark
/// `marker` (a name and a value as configured, not yet checked).
///
/// The name alone decides whether the mark is present; its value is not read.
pub open spec fn guard_verdict(marker: FieldView, headers: Seq<FieldView>) -> GuardVerdict {
    if !is_valid_name(marker.0) {
        GuardVerdict::Skipped(HeaderMutationError::InvalidName)
    } else if has_name(headers, canonical_name(marker.0)) {
        GuardVerdict::AlreadyMarked
    } else if !is_valid_value(marker.1) {
        GuardVerdict::Skipped(HeaderMutationError::InvalidValue)
    } else {
        GuardVerdict::Dispatch
    }
}

/// The headers of a request after the guard has judged it: the mark is added
/// at the end where the verdict is `Dispatch`, and nothing changes otherwise.
pub open spec fn guarded_headers(marker: FieldView, headers: Seq<FieldView>) -> Seq<FieldView> {
    if guard_verdict(marker, headers) is Dispatch {
        headers.push((canonical_name(marker.0), marker.1))
    } else {
        headers
    }
}

/// The mark that is used when nothing else is configured:
/// `x-dual-write-executed: true`.
pub open spec fn standard_marker() -> FieldView {
    ("x-dual-write-executed".spec_bytes(), "true".spec_bytes())
}

/// The standard mark is legal, and its name is canonical as it stands.
pub proof fn lemma_standard_marker_legal()
    ensures
        is_canonical_name(standard_marker().0),
        is_valid_value(standard_marker().1),
{
    reveal_strlit("x-dual-write-executed");
    reveal_strlit("true");
    assert(is_ascii("x-dual-write-executed"));
    assert(is_ascii("true"));
    is_ascii_spec_bytes("x-dual-write-executed");
    is_ascii_spec_bytes("true");
    assert(canonical_name(standard_marker().0) =~= standard_marker().0);
}

/// The guard with its mark.
#[derive(Debug)]
pub struct IdempotencyGuard {
    name: Vec<u8>,
    value: Vec<u8>,
}

impl View for IdempotencyGuard {
    type V = FieldView;

    closed spec fn view(&self) -> FieldView {
        (self.name@, self.value@)
    }
}

impl IdempotencyGuard {
    /// A guard that marks requests with the header `name: value`.
    pub fn new(name: &[u8], value: &[u8]) -> (guard: IdempotencyGuard)
        ensures
            guard@ == (name@, value@),
    {
        IdempotencyGuard { name: slice_to_vec(name), value: slice_to_vec(value) }
    }

    /// A guard with the standard mark, which is legal.
    pub fn standard() -> (guard: IdempotencyGuard)
        ensures
            guard@ == standard_marker(),
            field_check(guard@.0, guard@.1) is Ok,
    {
        proof {
            lemma_standard_marker_legal();
        }
        IdempotencyGuard::new("x-dual-write-executed".as_bytes(), "true".as_bytes())
    }

    /// The name of the mark, as configured.
    pub fn name(&self) -> (name: &[u8])
        ensures
            name@ == self@.0,
    {
        self.name.as_slice()
    }

    /// The value of the mark, as configured.
    pub fn value(&self) -> (value: &[u8])
        ensures
            value@ == self@.1,
    {
        self.value.as_slice()
    }

    /// Judges the request whose headers are `headers`, and marks it if it is
    /// to be replicated.
    pub fn evaluate(&self, headers: &mut HeaderSet) -> (verdict: GuardVerdict)
        ensures
            verdict == guard_verdict(self@, old(headers)@),
            final(headers)@ == guarded_headers(self@, old(headers)@),
            old(headers).well_formed() ==> final(headers).well_formed(),
    {
        if headers.contains(self.name.as_slice()) {
            GuardVerdict::AlreadyMarked
        } else {
            match headers.append(self.name.as_slice(), self.value.as_slice()) {
                Ok(()) => GuardVerdict::Dispatch,
                Err(e) => GuardVerdict::Skipped(e),
            }
        }
    }
}

} // verus!
