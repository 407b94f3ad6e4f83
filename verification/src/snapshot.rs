//! Requests as the filter sees them, and the snapshot that is taken of one.
//!
//! A snapshot is a complete copy of a request: method, headers and body as
//! they are, and the path and query of its target under the address of the
//! shadow upstream. It is taken once, handed to whoever delivers it to the
//! shadow upstream, and never changed.

use vstd::prelude::*;
use vstd::slice::slice_to_vec;
use crate::error::BodyReadError;
use crate::header::{FieldView, HeaderSet};
use crate::peer::{absolute_uri, PeerDescriptor, PeerView};
use crate::target::{path_and_query, path_and_query_of};

verus! {

/// The head of an inbound request: its method, its target as received, in
/// whatever form the client wrote it, and its headers.
#[derive(Debug)]
pub struct RequestHead {
    pub method: Vec<u8>,
    pub target: Vec<u8>,
    pub headers: HeaderSet,
}

/// What a `RequestHead` holds, as plain values.
pub struct RequestView {
    pub method: Seq<u8>,
    pub target: Seq<u8>,
    pub headers: Seq<FieldView>,
}

impl View for RequestHead {
    type V = RequestView;

    open spec fn view(&self) -> RequestView {
        RequestView { method: self.method@, target: self.target@, headers: self.headers@ }
    }
}

impl RequestHead {
    /// A request head from its parts.
    pub fn new(method: &[u8], target: &[u8], headers: HeaderSet) -> (head: RequestHead)
        ensures
            head@ == (RequestView { method: method@, target: target@, headers: headers@ }),
            head.headers == headers,
    {
        RequestHead { method: slice_to_vec(method), target: slice_to_vec(target), headers }
    }
}

/// What a `RequestSnapshot` holds, as plain values.
pub struct SnapshotView {
    pub method: Seq<u8>,
    pub uri: Seq<u8>,
    pub headers: Seq<FieldView>,
    pub body: Seq<u8>,
}

/// The bytes that a body read yields: the body where one was read, and
/// nothing where the request has no body or the read failed.
pub open spec fn body_bytes(body: Result<Option<Vec<u8>>, BodyReadError>) -> Seq<u8> {
    match body {
        Ok(Some(bytes)) => bytes@,
        Ok(None) => Seq::empty(),
        Err(_) => Seq::empty(),
    }
}

/// The snapshot of `request` for delivery to `shadow`, with the body `body`:
/// the method, the headers and the body as they are, and as URI the path and
/// query of the request's target on the shadow upstream. Whatever host the
/// target names stays behind.
pub open spec fn snapshot_of(shadow: PeerView, request: RequestView, body: Seq<u8>) -> SnapshotView {
    SnapshotView {
        method: request.method,
        uri: absolute_uri(shadow, path_and_query(request.target)),
        headers: request.headers,
        body,
    }
}

/// A complete copy of one request, addressed to the shadow upstream.
#[derive(Debug)]
pub struct RequestSnapshot {
    method: Vec<u8>,
    uri: Vec<u8>,
    headers: HeaderSet,
    body: Vec<u8>,
}

impl View for RequestSnapshot {
    type V = SnapshotView;

    closed spec fn view(&self) -> SnapshotView {
        SnapshotView {
            method: self.method@,
            uri: self.uri@,
            headers: self.headers@,
            body: self.body@,
        }
    }
}

impl RequestSnapshot {
    /// Takes the snapshot of `request` for delivery to `shadow`.
    ///
    /// `body` is what reading the inbound body gave. A request without a body
    /// and a failed read both give a snapshot with an empty body.
    pub fn capture(
        shadow: &PeerDescriptor,
        request: &RequestHead,
        body: Result<Option<Vec<u8>>, BodyReadError>,
    ) -> (snapshot: RequestSnapshot)
        ensures
            snapshot@ == snapshot_of(shadow@, request@, body_bytes(body)),
    {
        let bytes: Vec<u8> = match body {
            Ok(Some(bytes)) => bytes,
            Ok(None) => Vec::new(),
            Err(_) => Vec::new(),
        };
        RequestSnapshot {
            method: slice_to_vec(request.method.as_slice()),
            uri: shadow.uri_for(path_and_query_of(request.target.as_slice())),
            headers: request.headers.duplicate(),
            body: bytes,
        }
    }

    /// The method of the request.
    pub fn method(&self) -> (method: &[u8])
        ensures
            method@ == self@.method,
    {
        self.method.as_slice()
    }

    /// The absolute URI on the shadow upstream.
    pub fn uri(&self) -> (uri: &[u8])
        ensures
            uri@ == self@.uri,
    {
        self.uri.as_slice()
    }

    /// The headers of the request, in their order.
    pub fn headers(&self) -> (headers: &HeaderSet)
        ensures
            headers@ == self@.headers,
    {
        &self.headers
    }

    /// The body of the request.
    pub fn body(&self) -> (body: &[u8])
        ensures
            body@ == self@.body,
    {
        self.body.as_slice()
    }
}

} // verus!
