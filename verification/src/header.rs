//! Header fields and ordered header sets.
//!
//! A header set is a sequence of name/value pairs. Order is kept and a name may
//! occur more than once. Names are stored in their canonical (lower-case) form,
//! so that a lookup does not depend on how the sender spelled the name.

use vstd::prelude::*;
use vstd::slice::slice_to_vec;
use crate::error::HeaderMutationError;

verus! {

/// One header as plain bytes: `(name, value)`.
pub type FieldView = (Seq<u8>, Seq<u8>);

/// A byte that may stand in a header name: a letter, a digit, or one of
/// ``! # $ % & ' * + - . ^ _ ` | ~``.
pub open spec fn is_name_byte(b: u8) -> bool {
    ||| 0x30 <= b <= 0x39
    ||| 0x41 <= b <= 0x5a
    ||| 0x61 <= b <= 0x7a
    ||| b == 0x21
    ||| 0x23 <= b <= 0x27
    ||| b == 0x2a
    ||| b == 0x2b
    ||| b == 0x2d
    ||| b == 0x2e
    ||| b == 0x5e
    ||| b == 0x5f
    ||| b == 0x60
    ||| b == 0x7c
    ||| b == 0x7e
}

/// The lower-case form of an ASCII letter; every other byte stands for itself.
pub open spec fn lower_byte(b: u8) -> u8 {
    if 0x41 <= b <= 0x5a {
        (b + 0x20) as u8
    } else {
        b
    }
}

/// Longest header name, in bytes.
pub const MAX_NAME_LEN: usize = 65535;

/// A legal header name: between 1 and `MAX_NAME_LEN` name bytes.
pub open spec fn is_valid_name(name: Seq<u8>) -> bool {
    &&& 0 < name.len() <= MAX_NAME_LEN
    &&& forall|i: int| 0 <= i < name.len() ==> is_name_byte(#[trigger] name[i])
}

/// The form under which a name is stored and compared: each letter in lower case.
pub open spec fn canonical_name(name: Seq<u8>) -> Seq<u8> {
    Seq::new(name.len(), |i: int| lower_byte(name[i]))
}

/// A legal header name that is already in canonical form.
pub open spec fn is_canonical_name(name: Seq<u8>) -> bool {
    is_valid_name(name) && canonical_name(name) == name
}

/// A byte that may stand in a header value: a tab, or anything from the space
/// upwards except DEL.
pub open spec fn is_value_byte(b: u8) -> bool {
    (b >= 0x20 && b != 0x7f) || b == 0x09
}

/// A legal header value: value bytes only. The empty value is legal.
pub open spec fn is_valid_value(value: Seq<u8>) -> bool {
    forall|i: int| 0 <= i < value.len() ==> is_value_byte(#[trigger] value[i])
}

/// Whether a header `name: value` may be written: `Ok`, or the reason why not.
/// The name is judged first.
pub open spec fn field_check(name: Seq<u8>, value: Seq<u8>) -> Result<(), HeaderMutationError> {
    if !is_valid_name(name) {
        Err(HeaderMutationError::InvalidName)
    } else if !is_valid_value(value) {
        Err(HeaderMutationError::InvalidValue)
    } else {
        Ok(())
    }
}

/// Canonical names are fixed points: making one canonical again changes nothing,
/// and the canonical form of a legal name is itself legal.
pub proof fn lemma_canonical_name(name: Seq<u8>)
    requires
        is_valid_name(name),
    ensures
        is_canonical_name(canonical_name(name)),
{
    let c = canonical_name(name);
    assert forall|i: int| 0 <= i < c.len() implies is_name_byte(#[trigger] c[i]) by {
        assert(is_name_byte(name[i]));
    }
    assert(canonical_name(c) =~= c);
}

/// Parses a header name with `http::HeaderName::from_bytes`.
///
/// Trusted: the parse succeeds exactly on names of 1 to 65535 bytes that hold
/// name bytes only, and the parsed name reads back as the input with every
/// ASCII letter in lower case.
#[verifier::external_body]
fn parse_header_name(name: &[u8]) -> (parsed: Option<Vec<u8>>)
    ensures
        parsed is Some <==> is_valid_name(name@),
        parsed matches Some(n) ==> n@ == canonical_name(name@),
{
    match http::HeaderName::from_bytes(name) {
        Ok(n) => Some(n.as_str().as_bytes().to_vec()),
        Err(_) => None,
    }
}

/// Asks `http::HeaderValue::from_bytes` whether it accepts a value.
///
/// Trusted: it accepts exactly the values in which every byte is a tab or is
/// at least 32 and not 127.
#[verifier::external_body]
fn header_value_accepted(value: &[u8]) -> (accepted: bool)
    ensures
        accepted == is_valid_value(value@),
{
    http::HeaderValue::from_bytes(value).is_ok()
}

/// Whether two byte strings are equal.
pub fn bytes_equal(a: &[u8], b: &[u8]) -> (same: bool)
    ensures
        same == (a@ == b@),
{
    if a.len() != b.len() {
        return false;
    }
    let mut i: usize = 0;
    while i < a.len()
        invariant
            a@.len() == b@.len(),
            0 <= i <= a@.len(),
            forall|j: int| 0 <= j < i ==> a@[j] == b@[j],
        decreases a@.len() - i,
    {
        if a[i] != b[i] {
            return false;
        }
        i = i + 1;
    }
    assert(a@ =~= b@);
    true
}

/// A single header: a canonical name and a value.
#[derive(Debug)]
pub struct HeaderField {
    name: Vec<u8>,
    value: Vec<u8>,
}

impl View for HeaderField {
    type V = FieldView;

    closed spec fn view(&self) -> FieldView {
        (self.name@, self.value@)
    }
}

impl HeaderField {
    /// The name is canonical and the value is legal.
    pub open spec fn well_formed(&self) -> bool {
        is_canonical_name(self@.0) && is_valid_value(self@.1)
    }

    /// Builds a field from raw bytes. The name is made canonical.
    ///
    /// Fails with `InvalidName` on an illegal name, else with `InvalidValue`
    /// on an illegal value.
    pub fn parse(name: &[u8], value: &[u8]) -> (parsed: Result<HeaderField, HeaderMutationError>)
        ensures
            match field_check(name@, value@) {
                Ok(_) => parsed is Ok && parsed->Ok_0@ == (canonical_name(name@), value@)
                    && parsed->Ok_0.well_formed(),
                Err(e) => parsed == Err::<HeaderField, _>(e),
            },
    {
        match parse_header_name(name) {
            None => Err(HeaderMutationError::InvalidName),
            Some(canonical) => {
                if header_value_accepted(value) {
                    proof {
                        lemma_canonical_name(name@);
                    }
                    Ok(HeaderField { name: canonical, value: slice_to_vec(value) })
                } else {
                    Err(HeaderMutationError::InvalidValue)
                }
            },
        }
    }

    /// The canonical name.
    pub fn name(&self) -> (name: &[u8])
        ensures
            name@ == self@.0,
    {
        self.name.as_slice()
    }

    /// The value.
    pub fn value(&self) -> (value: &[u8])
        ensures
            value@ == self@.1,
    {
        self.value.as_slice()
    }

    /// A field with the same name and value.
    pub fn duplicate(&self) -> (copy: HeaderField)
        ensures
            copy@ == self@,
    {
        HeaderField { name: slice_to_vec(self.name.as_slice()), value: slice_to_vec(self.value.as_slice()) }
    }
}

/// Whether some field of `fields` carries the name `name`.
pub open spec fn has_name(fields: Seq<FieldView>, name: Seq<u8>) -> bool {
    exists|i: int| 0 <= i < fields.len() && (#[trigger] fields[i]).0 == name
}

/// The test "this field is not named `name`".
pub open spec fn named_otherwise(name: Seq<u8>) -> spec_fn(FieldView) -> bool {
    |f: FieldView| f.0 != name
}

/// The test "this field is named `name`".
pub open spec fn named(name: Seq<u8>) -> spec_fn(FieldView) -> bool {
    |f: FieldView| f.0 == name
}

/// The fields of `fields` that do not carry the name `name`, in their order.
pub open spec fn without_name(fields: Seq<FieldView>, name: Seq<u8>) -> Seq<FieldView> {
    fields.filter(named_otherwise(name))
}

/// The position of the first field named `name`, or the number of fields
/// where no field carries the name.
pub open spec fn first_position(fields: Seq<FieldView>, name: Seq<u8>) -> int
    decreases fields.len(),
{
    if fields.len() == 0 || fields[0].0 == name {
        0
    } else {
        1 + first_position(fields.drop_first(), name)
    }
}

/// `fields` after the header `name` has been set to `value`.
///
/// Where the name is present, its first field stays where it is and takes the
/// new value, and every later field of that name is dropped. Where it is
/// absent, the new field is added at the end. Fields of other names keep
/// their places.
pub open spec fn with_field(fields: Seq<FieldView>, name: Seq<u8>, value: Seq<u8>) -> Seq<
    FieldView,
> {
    let at = first_position(fields, name);
    if at < fields.len() {
        fields.take(at).push((name, value)) + without_name(fields.skip(at + 1), name)
    } else {
        fields.push((name, value))
    }
}

/// How many fields of `fields` carry the name `name`.
pub open spec fn count_name(fields: Seq<FieldView>, name: Seq<u8>) -> nat {
    fields.filter(named(name)).len()
}

/// The value of the first field named `name`, if there is one.
pub open spec fn first_value(fields: Seq<FieldView>, name: Seq<u8>) -> Option<Seq<u8>> {
    let at = first_position(fields, name);
    if at < fields.len() {
        Some(fields[at].1)
    } else {
        None
    }
}

/// What `first_position` gives: a position within the fields or just past
/// them, before which no field carries the name, and at which one does. The
/// name is present exactly where that position is within the fields.
pub proof fn lemma_first_position(fields: Seq<FieldView>, name: Seq<u8>)
    ensures
        0 <= first_position(fields, name) <= fields.len(),
        forall|j: int| 0 <= j < first_position(fields, name) ==> (#[trigger] fields[j]).0 != name,
        first_position(fields, name) < fields.len() ==> fields[first_position(fields, name)].0
            == name,
        has_name(fields, name) <==> first_position(fields, name) < fields.len(),
    decreases fields.len(),
{
    if fields.len() > 0 && fields[0].0 != name {
        let rest = fields.drop_first();
        lemma_first_position(rest, name);
        let at = first_position(fields, name);
        assert forall|j: int| 0 <= j < at implies (#[trigger] fields[j]).0 != name by {
            if j > 0 {
                assert(rest[j - 1] == fields[j]);
            }
        }
        if at < fields.len() {
            assert(rest[at - 1] == fields[at]);
        }
        if has_name(fields, name) {
            let k = choose|k: int| 0 <= k < fields.len() && (#[trigger] fields[k]).0 == name;
            assert(rest[k - 1] == fields[k]);
        }
    }
}

/// A position before which no field carries the name, and at which one does
/// or which lies just past the fields, is the first position of the name.
pub proof fn lemma_first_position_is(fields: Seq<FieldView>, name: Seq<u8>, at: int)
    requires
        0 <= at <= fields.len(),
        forall|j: int| 0 <= j < at ==> (#[trigger] fields[j]).0 != name,
        at < fields.len() ==> fields[at].0 == name,
    ensures
        first_position(fields, name) == at,
{
    lemma_first_position(fields, name);
    let first = first_position(fields, name);
    if first < at {
        assert(fields[first].0 != name);
    }
}

/// Every field has a canonical name and a legal value.
pub open spec fn all_well_formed(fields: Seq<FieldView>) -> bool {
    forall|i: int|
        0 <= i < fields.len() ==> is_canonical_name((#[trigger] fields[i]).0) && is_valid_value(
            fields[i].1,
        )
}

/// An ordered collection of header fields. A name may occur more than once.
#[derive(Debug)]
pub struct HeaderSet {
    fields: Vec<HeaderField>,
}

impl View for HeaderSet {
    type V = Seq<FieldView>;

    closed spec fn view(&self) -> Seq<FieldView> {
        self.fields@.map_values(|f: HeaderField| f@)
    }
}

impl HeaderSet {
    /// Every field has a canonical name and a legal value. Sets are built
    /// well formed and every operation keeps them so.
    pub open spec fn well_formed(&self) -> bool {
        all_well_formed(self@)
    }

    /// The empty set.
    pub fn new() -> (set: HeaderSet)
        ensures
            set@ == Seq::<FieldView>::empty(),
            set.well_formed(),
    {
        let set = HeaderSet { fields: Vec::new() };
        assert(set@ =~= Seq::<FieldView>::empty());
        set
    }

    /// Number of fields, duplicates counted.
    pub fn len(&self) -> (n: usize)
        ensures
            n == self@.len(),
    {
        self.fields.len()
    }

    /// The field at position `index`, if there is one.
    pub fn field(&self, index: usize) -> (found: Option<&HeaderField>)
        ensures
            index < self@.len() ==> found is Some && found->Some_0@ == self@[index as int],
            index >= self@.len() ==> found is None,
    {
        if index < self.fields.len() {
            Some(&self.fields[index])
        } else {
            None
        }
    }

    /// The position of the first field whose name is `canonical`, or the
    /// number of fields where there is none.
    fn position(&self, canonical: &[u8]) -> (at: usize)
        ensures
            at == first_position(self@, canonical@),
            at <= self@.len(),
    {
        let mut i: usize = 0;
        while i < self.fields.len()
            invariant
                0 <= i <= self.fields@.len(),
                forall|j: int| 0 <= j < i ==> (#[trigger] self@[j]).0 != canonical@,
            decreases self.fields@.len() - i,
        {
            if bytes_equal(self.fields[i].name.as_slice(), canonical) {
                proof {
                    lemma_first_position_is(self@, canonical@, i as int);
                }
                return i;
            }
            i = i + 1;
        }
        proof {
            lemma_first_position_is(self@, canonical@, i as int);
        }
        i
    }

    /// Whether a field named `name` is present, whatever its value and however
    /// the name is spelled. An illegal name is never present.
    pub fn contains(&self, name: &[u8]) -> (present: bool)
        ensures
            present == (is_valid_name(name@) && has_name(self@, canonical_name(name@))),
    {
        match parse_header_name(name) {
            None => false,
            Some(canonical) => {
                proof {
                    lemma_first_position(self@, canonical@);
                }
                self.position(canonical.as_slice()) < self.fields.len()
            },
        }
    }

    /// The value of the first field named `name`.
    pub fn get(&self, name: &[u8]) -> (found: Option<&[u8]>)
        ensures
            !is_valid_name(name@) ==> found is None,
            is_valid_name(name@) ==> match first_value(self@, canonical_name(name@)) {
                Some(v) => found is Some && found->Some_0@ == v,
                None => found is None,
            },
    {
        match parse_header_name(name) {
            None => None,
            Some(canonical) => {
                let at = self.position(canonical.as_slice());
                if at < self.fields.len() {
                    Some(self.fields[at].value.as_slice())
                } else {
                    None
                }
            },
        }
    }

    /// Adds a field at the end and keeps every field already there.
    ///
    /// Fails, and changes nothing, if the name or the value is illegal.
    pub fn append(&mut self, name: &[u8], value: &[u8]) -> (done: Result<(), HeaderMutationError>)
        ensures
            done == field_check(name@, value@),
            done is Ok ==> final(self)@ == old(self)@.push((canonical_name(name@), value@)),
            done is Err ==> final(self)@ == old(self)@,
            old(self).well_formed() ==> final(self).well_formed(),
    {
        match HeaderField::parse(name, value) {
            Ok(field) => {
                self.fields.push(field);
                assert(self@ =~= old(self)@.push((canonical_name(name@), value@)));
                Ok(())
            },
            Err(e) => Err(e),
        }
    }

    /// Sets the header `name` to `value`.
    ///
    /// Where the header is present, its first field takes the new value in
    /// place and every later field of that name is dropped. Where it is
    /// absent, the field is added at the end. Setting the same header to the
    /// same value again changes nothing more.
    ///
    /// Fails, and changes nothing, if the name or the value is illegal.
    pub fn insert(&mut self, name: &[u8], value: &[u8]) -> (done: Result<(), HeaderMutationError>)
        ensures
            done == field_check(name@, value@),
            done is Ok ==> final(self)@ == with_field(old(self)@, canonical_name(name@), value@),
            done is Err ==> final(self)@ == old(self)@,
            old(self).well_formed() ==> final(self).well_formed(),
    {
        match HeaderField::parse(name, value) {
            Ok(field) => {
                let ghost target = canonical_name(name@);
                let ghost keep = named_otherwise(target);
                let wanted: Vec<u8> = slice_to_vec(field.name.as_slice());
                let at = self.position(wanted.as_slice());
                let count = self.fields.len();
                if at >= count {
                    self.fields.push(field);
                    assert(self@ =~= with_field(old(self)@, target, value@));
                } else {
                    let mut kept: Vec<HeaderField> = Vec::new();
                    let mut i: usize = 0;
                    while i < at
                        invariant
                            0 <= i <= at < self.fields@.len(),
                            *self == *old(self),
                            kept@.len() == i,
                            forall|j: int| 0 <= j < i ==> (#[trigger] kept@[j])@ == self@[j],
                        decreases at - i,
                    {
                        kept.push(self.fields[i].duplicate());
                        i = i + 1;
                    }
                    kept.push(field);
                    let ghost head = self@.take(at as int).push((target, value@));
                    assert(kept@.map_values(|f: HeaderField| f@) =~= head);
                    i = at + 1;
                    assert(self@.subrange(at + 1, i as int) =~= Seq::<FieldView>::empty());
                    assert(head + Seq::<FieldView>::empty() =~= head);
                    while i < count
                        invariant
                            at < i <= count == self.fields@.len(),
                            *self == *old(self),
                            keep == named_otherwise(target),
                            wanted@ == target,
                            head == self@.take(at as int).push((target, value@)),
                            kept@.map_values(|f: HeaderField| f@) == head + self@.subrange(
                                at + 1,
                                i as int,
                            ).filter(keep),
                        decreases count - i,
                    {
                        let ghost before = self@.subrange(at + 1, i as int);
                        let ghost after = self@.subrange(at + 1, i + 1);
                        assert(after =~= before.push(self@[i as int]));
                        proof {
                            before.lemma_filter_push(self@[i as int], keep);
                        }
                        if !bytes_equal(self.fields[i].name.as_slice(), wanted.as_slice()) {
                            let ghost so_far = kept@.map_values(|f: HeaderField| f@);
                            kept.push(self.fields[i].duplicate());
                            assert(kept@.map_values(|f: HeaderField| f@) =~= so_far.push(
                                self@[i as int],
                            ));
                            assert(so_far.push(self@[i as int]) =~= head + before.filter(
                                keep,
                            ).push(self@[i as int]));
                        }
                        i = i + 1;
                    }
                    assert(self@.subrange(at + 1, i as int) =~= self@.skip(at + 1));
                    self.fields = kept;
                    assert(self@ =~= with_field(old(self)@, target, value@));
                }
                proof {
                    if old(self).well_formed() {
                        lemma_with_field_well_formed(old(self)@, target, value@);
                    }
                }
                Ok(())
            },
            Err(e) => Err(e),
        }
    }

    /// A set with the same fields in the same order.
    pub fn duplicate(&self) -> (copy: HeaderSet)
        ensures
            copy@ == self@,
    {
        let mut fields: Vec<HeaderField> = Vec::new();
        let mut i: usize = 0;
        while i < self.fields.len()
            invariant
                0 <= i <= self.fields@.len(),
                fields@.len() == i,
                forall|j: int| 0 <= j < i ==> (#[trigger] fields@[j])@ == self.fields@[j]@,
            decreases self.fields@.len() - i,
        {
            fields.push(self.fields[i].duplicate());
            i = i + 1;
        }
        let copy = HeaderSet { fields };
        assert(copy@ =~= self@);
        copy
    }
}

/// Dropping the fields of one name leaves a part of the set: every field that
/// remains was there before.
pub proof fn lemma_without_name_members(fields: Seq<FieldView>, name: Seq<u8>)
    ensures
        forall|i: int|
            0 <= i < without_name(fields, name).len() ==> fields.contains(
                #[trigger] without_name(fields, name)[i],
            ) && without_name(fields, name)[i].0 != name,
{
    let keep = named_otherwise(name);
    let rest = without_name(fields, name);
    assert forall|i: int| 0 <= i < rest.len() implies fields.contains(#[trigger] rest[i])
        && rest[i].0 != name by {
        fields.lemma_filter_pred(keep, i);
        assert(rest.contains(rest[i]));
        fields.lemma_filter_contains_rev(keep, rest[i]);
    }
}

/// Setting a legal header in a well-formed set gives a well-formed set.
pub proof fn lemma_with_field_well_formed(fields: Seq<FieldView>, name: Seq<u8>, value: Seq<u8>)
    requires
        all_well_formed(fields),
        is_canonical_name(name),
        is_valid_value(value),
    ensures
        all_well_formed(with_field(fields, name, value)),
{
    lemma_first_position(fields, name);
    let at = first_position(fields, name);
    let after = with_field(fields, name, value);
    if at < fields.len() {
        let tail = fields.skip(at + 1);
        let rest = without_name(tail, name);
        lemma_without_name_members(tail, name);
        assert forall|i: int| 0 <= i < after.len() implies is_canonical_name(
            (#[trigger] after[i]).0,
        ) && is_valid_value(after[i].1) by {
            if i < at {
                assert(after[i] == fields[i]);
            } else if i > at {
                let kept = rest[i - at - 1];
                assert(after[i] == kept);
                assert(tail.contains(kept));
                let k = choose|k: int| 0 <= k < tail.len() && tail[k] == kept;
                assert(tail[k] == fields[at + 1 + k]);
            }
        }
    } else {
        assert forall|i: int| 0 <= i < after.len() implies is_canonical_name(
            (#[trigger] after[i]).0,
        ) && is_valid_value(after[i].1) by {
            if i < fields.len() {
                assert(after[i] == fields[i]);
            }
        }
    }
}

/// A set in which no field carries the name `name` loses nothing when the
/// fields of that name are dropped.
pub proof fn lemma_without_absent_name(fields: Seq<FieldView>, name: Seq<u8>)
    requires
        !has_name(fields, name),
    ensures
        without_name(fields, name) == fields,
    decreases fields.len(),
{
    reveal(Seq::filter);
    if fields.len() > 0 {
        let front = fields.drop_last();
        assert forall|i: int| 0 <= i < front.len() implies (#[trigger] front[i]).0 != name by {
            assert(front[i] == fields[i]);
        }
        lemma_without_absent_name(front, name);
        assert(fields.last() == fields[fields.len() - 1]);
        assert(front.push(fields.last()) =~= fields);
    }
}

/// After the fields of one name are dropped, no field carries that name.
pub proof fn lemma_without_name_absent(fields: Seq<FieldView>, name: Seq<u8>)
    ensures
        !has_name(without_name(fields, name), name),
{
    lemma_without_name_members(fields, name);
}

/// A header that has been set is present once, with the value set, and
/// stands where the name first stood, or last where the name was absent.
pub proof fn lemma_with_field_present(fields: Seq<FieldView>, name: Seq<u8>, value: Seq<u8>)
    ensures
        has_name(with_field(fields, name, value), name),
        count_name(with_field(fields, name, value), name) == 1,
        first_position(with_field(fields, name, value), name) == first_position(fields, name),
        first_value(with_field(fields, name, value), name) == Some(value),
{
    lemma_first_position(fields, name);
    let at = first_position(fields, name);
    let after = with_field(fields, name, value);
    let front = fields.take(at);
    assert forall|j: int| 0 <= j < front.len() implies (#[trigger] front[j]).0 != name by {
        assert(front[j] == fields[j]);
    }
    lemma_count_absent(front, name);
    front.lemma_filter_push((name, value), named(name));
    let head = front.push((name, value));
    if at < fields.len() {
        let rest = without_name(fields.skip(at + 1), name);
        lemma_without_name_absent(fields.skip(at + 1), name);
        lemma_count_absent(rest, name);
        Seq::filter_distributes_over_add(head, rest, named(name));
        assert(after[at] == (name, value));
        assert forall|j: int| 0 <= j < at implies (#[trigger] after[j]).0 != name by {
            assert(after[j] == fields[j]);
        }
    } else {
        assert(front =~= fields);
        assert(after[at] == (name, value));
        assert forall|j: int| 0 <= j < at implies (#[trigger] after[j]).0 != name by {
            assert(after[j] == fields[j]);
        }
    }
    lemma_first_position_is(after, name, at);
}

/// A set in which no field carries the name `name` counts none of that name.
pub proof fn lemma_count_absent(fields: Seq<FieldView>, name: Seq<u8>)
    requires
        !has_name(fields, name),
    ensures
        count_name(fields, name) == 0,
    decreases fields.len(),
{
    reveal(Seq::filter);
    if fields.len() > 0 {
        let front = fields.drop_last();
        assert forall|i: int| 0 <= i < front.len() implies (#[trigger] front[i]).0 != name by {
            assert(front[i] == fields[i]);
        }
        lemma_count_absent(front, name);
        assert(fields.last() == fields[fields.len() - 1]);
    }
}

/// A set that counts none of the name `name` has no field of that name.
pub proof fn lemma_count_none_absent(fields: Seq<FieldView>, name: Seq<u8>)
    requires
        count_name(fields, name) == 0,
    ensures
        !has_name(fields, name),
{
    if has_name(fields, name) {
        let k = choose|k: int| 0 <= k < fields.len() && (#[trigger] fields[k]).0 == name;
        fields.lemma_filter_contains(named(name), k);
        assert(fields.filter(named(name)).contains(fields[k]));
    }
}

/// Setting a header that is present once, with the value that it has, changes
/// nothing.
pub proof fn lemma_with_field_unchanged(fields: Seq<FieldView>, name: Seq<u8>, value: Seq<u8>)
    requires
        count_name(fields, name) == 1,
        first_value(fields, name) == Some(value),
    ensures
        with_field(fields, name, value) == fields,
{
    lemma_first_position(fields, name);
    let at = first_position(fields, name);
    let front = fields.take(at);
    let tail = fields.skip(at + 1);
    let head = front.push(fields[at]);
    assert(fields =~= head + tail);
    assert forall|j: int| 0 <= j < front.len() implies (#[trigger] front[j]).0 != name by {
        assert(front[j] == fields[j]);
    }
    lemma_count_absent(front, name);
    front.lemma_filter_push(fields[at], named(name));
    Seq::filter_distributes_over_add(head, tail, named(name));
    lemma_count_none_absent(tail, name);
    lemma_without_absent_name(tail, name);
    assert(fields[at] == (name, value));
    assert(with_field(fields, name, value) =~= fields);
}

/// Setting a header twice to the same value is the same as setting it once.
pub proof fn lemma_with_field_idempotent(fields: Seq<FieldView>, name: Seq<u8>, value: Seq<u8>)
    ensures
        with_field(with_field(fields, name, value), name, value) == with_field(fields, name, value),
{
    lemma_with_field_present(fields, name, value);
    lemma_with_field_unchanged(with_field(fields, name, value), name, value);
}

/// Setting a header leaves the fields of every other name as they were, in
/// their order.
pub proof fn lemma_with_field_keeps_others(
    fields: Seq<FieldView>,
    name: Seq<u8>,
    value: Seq<u8>,
    other: Seq<u8>,
)
    requires
        other != name,
    ensures
        with_field(fields, name, value).filter(named(other)) == fields.filter(named(other)),
{
    lemma_first_position(fields, name);
    let at = first_position(fields, name);
    if at < fields.len() {
        let front = fields.take(at);
        let tail = fields.skip(at + 1);
        let rest = without_name(tail, name);
        assert(fields =~= front.push(fields[at]) + tail);
        front.lemma_filter_push(fields[at], named(other));
        front.lemma_filter_push((name, value), named(other));
        Seq::filter_distributes_over_add(front.push(fields[at]), tail, named(other));
        Seq::filter_distributes_over_add(front.push((name, value)), rest, named(other));
        lemma_without_keeps_others(tail, name, other);
    } else {
        fields.lemma_filter_push((name, value), named(other));
    }
}

/// Dropping the fields of one name leaves the fields of every other name as
/// they were, in their order.
pub proof fn lemma_without_keeps_others(fields: Seq<FieldView>, name: Seq<u8>, other: Seq<u8>)
    requires
        other != name,
    ensures
        without_name(fields, name).filter(named(other)) == fields.filter(named(other)),
    decreases fields.len(),
{
    reveal(Seq::filter);
    if fields.len() > 0 {
        let front = fields.drop_last();
        let last = fields.last();
        lemma_without_keeps_others(front, name, other);
        if last.0 != name {
            without_name(front, name).lemma_filter_push(last, named(other));
        }
    }
}

} // verus!
