//! The header decorator: one diagnostic header on the request that goes to the
//! primary upstream, one on the response that goes back to the client.
//!
//! Both are pure annotations. Each is set whatever the request holds, setting
//! it twice is the same as setting it once, and a header that cannot be set is
//! left out: the request or the response goes on without it. Leaving a header
//! out is no failure of the request, so the decorator reports it and returns
//! no error.

use vstd::prelude::*;
use vstd::slice::slice_to_vec;
use vstd::string::*;
use crate::error::HeaderMutationError;
use crate::header::{
    canonical_name, field_check, is_canonical_name, is_valid_value, with_field, FieldView,
    HeaderSet,
};

verus! {

/// What became of an annotation.
#[derive(Clone, Copy, Debug, PartialEq, Eq, Structural)]
pub enum Annotation {
    /// The header was set.
    Applied,
    /// The header could not be written and was left out. Nothing was changed.
    LeftOut(HeaderMutationError),
}

/// What becomes of the annotation `tag` (a name and a value as configured):
/// it is applied where the header is legal and left out where it is not.
pub open spec fn annotation_of(tag: FieldView) -> Annotation {
    match field_check(tag.0, tag.1) {
        Ok(_) => Annotation::Applied,
        Err(e) => Annotation::LeftOut(e),
    }
}

/// `headers` after an attempt to set the header `tag`: the header is set where
/// it is legal, and nothing changes where it is not.
pub open spec fn annotated(tag: FieldView, headers: Seq<FieldView>) -> Seq<FieldView> {
    if field_check(tag.0, tag.1) is Ok {
        with_field(headers, canonical_name(tag.0), tag.1)
    } else {
        headers
    }
}

/// The header set on requests when nothing else is configured:
/// `user-content: dual-write`.
pub open spec fn standard_request_tag() -> FieldView {
    ("user-content".spec_bytes(), "dual-write".spec_bytes())
}

/// The header set on responses when nothing else is configured:
/// `user-content: response by kevin`.
pub open spec fn standard_response_tag() -> FieldView {
    ("user-content".spec_bytes(), "response by kevin".spec_bytes())
}

/// Both standard headers are legal, and their names are canonical as they stand.
pub proof fn lemma_standard_tags_legal()
    ensures
        is_canonical_name(standard_request_tag().0),
        is_valid_value(standard_request_tag().1),
        is_canonical_name(standard_response_tag().0),
        is_valid_value(standard_response_tag().1),
{
    reveal_strlit("user-content");
    reveal_strlit("dual-write");
    reveal_strlit("response by kevin");
    assert(is_ascii("user-content"));
    assert(is_ascii("dual-write"));
    assert(is_ascii("response by kevin"));
    is_ascii_spec_bytes("user-content");
    is_ascii_spec_bytes("dual-write");
    is_ascii_spec_bytes("response by kevin");
    assert(canonical_name(standard_request_tag().0) =~= standard_request_tag().0);
}

/// The decorator with its two headers.
#[derive(Debug)]
pub struct HeaderDecorator {
    request_name: Vec<u8>,
    request_value: Vec<u8>,
    response_name: Vec<u8>,
    response_value: Vec<u8>,
}

/// What a `HeaderDecorator` holds, as plain values.
pub struct DecoratorView {
    pub request_tag: FieldView,
    pub response_tag: FieldView,
}

impl View for HeaderDecorator {
    type V = DecoratorView;

    closed spec fn view(&self) -> DecoratorView {
        DecoratorView {
            request_tag: (self.request_name@, self.request_value@),
            response_tag: (self.response_name@, self.response_value@),
        }
    }
}

impl HeaderDecorator {
    /// A decorator that sets `request_name: request_value` on requests and
    /// `response_name: response_value` on responses.
    pub fn new(
        request_name: &[u8],
        request_value: &[u8],
        response_name: &[u8],
        response_value: &[u8],
    ) -> (decorator: HeaderDecorator)
        ensures
            decorator@.request_tag == (request_name@, request_value@),
            decorator@.response_tag == (response_name@, response_value@),
    {
        HeaderDecorator {
            request_name: slice_to_vec(request_name),
            request_value: slice_to_vec(request_value),
            response_name: slice_to_vec(response_name),
            response_value: slice_to_vec(response_value),
        }
    }

    /// A decorator with the standard headers, which are legal.
    pub fn standard() -> (decorator: HeaderDecorator)
        ensures
            decorator@.request_tag == standard_request_tag(),
            decorator@.response_tag == standard_response_tag(),
            field_check(decorator@.request_tag.0, decorator@.request_tag.1) is Ok,
            field_check(decorator@.response_tag.0, decorator@.response_tag.1) is Ok,
    {
        proof {
            lemma_standard_tags_legal();
        }
        HeaderDecorator::new(
            "user-content".as_bytes(),
            "dual-write".as_bytes(),
            "user-content".as_bytes(),
            "response by kevin".as_bytes(),
        )
    }

    /// The name of the request header, as configured.
    pub fn request_name(&self) -> (name: &[u8])
        ensures
            name@ == self@.request_tag.0,
    {
        self.request_name.as_slice()
    }

    /// The value of the request header, as configured.
    pub fn request_value(&self) -> (value: &[u8])
        ensures
            value@ == self@.request_tag.1,
    {
        self.request_value.as_slice()
    }

    /// The name of the response header, as configured.
    pub fn response_name(&self) -> (name: &[u8])
        ensures
            name@ == self@.response_tag.0,
    {
        self.response_name.as_slice()
    }

    /// The value of the response header, as configured.
    pub fn response_value(&self) -> (value: &[u8])
        ensures
            value@ == self@.response_tag.1,
    {
        self.response_value.as_slice()
    }

    /// Sets the request header on the headers that go to the primary
    /// upstream, in place where it is there already. A header that cannot be
    /// written is left out and the headers stay as they were.
    pub fn annotate_request(&self, headers: &mut HeaderSet) -> (done: Annotation)
        ensures
            done == annotation_of(self@.request_tag),
            final(headers)@ == annotated(self@.request_tag, old(headers)@),
            old(headers).well_formed() ==> final(headers).well_formed(),
    {
        match headers.insert(self.request_name.as_slice(), self.request_value.as_slice()) {
            Ok(_) => Annotation::Applied,
            Err(e) => Annotation::LeftOut(e),
        }
    }

    /// Sets the response header on the headers that go back to the client, in
    /// place where it is there already. A header that cannot be written is
    /// left out and the headers stay as they were.
    pub fn annotate_response(&self, headers: &mut HeaderSet) -> (done: Annotation)
        ensures
            done == annotation_of(self@.response_tag),
            final(headers)@ == annotated(self@.response_tag, old(headers)@),
            old(headers).well_formed() ==> final(headers).well_formed(),
    {
        match headers.insert(self.response_name.as_slice(), self.response_value.as_slice()) {
            Ok(_) => Annotation::Applied,
            Err(e) => Annotation::LeftOut(e),
        }
    }
}

} // verus!
