//! The filter itself: the hooks that a host proxy calls for each request, and
//! the record of how far a request has come.
//!
//! The host calls the hooks in the order of a request's life: it asks for the
//! primary peer, lets the filter see the request before it is forwarded, reads
//! the body where the filter asks for a snapshot, forwards the request, and
//! lets the filter see the response. What a hook decides depends on the
//! configuration and on the request alone. The record is kept beside it and
//! moves only along the path below; a snapshot is given out only where the
//! record shows that the guard has just asked for one.
//!
//! ```text
//! Received -> PeerSelected -> GuardEvaluated -> (SnapshotCaptured ->)
//!     PrimaryDispatched -> ResponseDecorated -> Completed
//! ```

use vstd::prelude::*;
use crate::decorate::{
    annotated, annotation_of, standard_request_tag, standard_response_tag, Annotation,
    DecoratorView, HeaderDecorator,
};
use crate::error::{BodyReadError, PeerConfigurationError};
use crate::guard::{
    guard_verdict, guarded_headers, standard_marker, GuardVerdict, IdempotencyGuard,
};
use crate::header::{field_check, FieldView, HeaderSet};
use crate::peer::{
    standard_primary, standard_shadow, PeerDescriptor, PeerResolver, ResolverView,
};
use crate::snapshot::{body_bytes, snapshot_of, RequestHead, RequestSnapshot, RequestView};

verus! {

/// How far a request has come.
#[derive(Clone, Copy, Debug, PartialEq, Eq, Structural)]
pub enum FilterState {
    Received,
    PeerSelected,
    GuardEvaluated { dispatch: bool },
    SnapshotCaptured,
    PrimaryDispatched,
    ResponseDecorated,
    Completed,
}

/// What has just happened to a request.
#[derive(Clone, Copy, Debug, PartialEq, Eq, Structural)]
pub enum FilterEvent {
    /// The primary peer was chosen.
    PeerChosen,
    /// No primary peer is configured; the request is refused.
    PeerMissing,
    /// The guard has judged the request.
    Guarded { dispatch: bool },
    /// The snapshot was taken.
    SnapshotTaken,
    /// The request was handed on to the primary upstream.
    PrimarySent,
    /// The response of the primary upstream was decorated.
    ResponseStamped,
    /// The response was returned to the client.
    Finished,
}

impl FilterState {
    /// The state that `event` leads to from this state, or `None` where the
    /// event has no place in this state.
    ///
    /// A snapshot is taken only after the guard has asked for one, and where
    /// it has asked for one the request is not handed on before.
    pub open spec fn next(self, event: FilterEvent) -> Option<FilterState> {
        match (self, event) {
            (FilterState::Received, FilterEvent::PeerChosen) => Some(FilterState::PeerSelected),
            (FilterState::Received, FilterEvent::PeerMissing) => Some(FilterState::Completed),
            (FilterState::PeerSelected, FilterEvent::Guarded { dispatch }) => Some(
                FilterState::GuardEvaluated { dispatch },
            ),
            (FilterState::GuardEvaluated { dispatch: true }, FilterEvent::SnapshotTaken) => Some(
                FilterState::SnapshotCaptured,
            ),
            (FilterState::GuardEvaluated { dispatch: false }, FilterEvent::PrimarySent) => Some(
                FilterState::PrimaryDispatched,
            ),
            (FilterState::SnapshotCaptured, FilterEvent::PrimarySent) => Some(
                FilterState::PrimaryDispatched,
            ),
            (FilterState::PrimaryDispatched, FilterEvent::ResponseStamped) => Some(
                FilterState::ResponseDecorated,
            ),
            (FilterState::ResponseDecorated, FilterEvent::Finished) => Some(FilterState::Completed),
            _ => None,
        }
    }

    /// The record after `event`: the next state where the event has a place,
    /// this state where it has none.
    pub open spec fn after(self, event: FilterEvent) -> FilterState {
        match self.next(event) {
            Some(state) => state,
            None => self,
        }
    }

    /// The position of a state on the path of a request, from 0 for `Received`
    /// to 6 for `Completed`.
    pub open spec fn rank(self) -> nat {
        match self {
            FilterState::Received => 0,
            FilterState::PeerSelected => 1,
            FilterState::GuardEvaluated { .. } => 2,
            FilterState::SnapshotCaptured => 3,
            FilterState::PrimaryDispatched => 4,
            FilterState::ResponseDecorated => 5,
            FilterState::Completed => 6,
        }
    }

    /// The state that `event` leads to from this state, if it has a place here.
    pub fn advance(self, event: FilterEvent) -> (next: Option<FilterState>)
        ensures
            next == self.next(event),
    {
        match (self, event) {
            (FilterState::Received, FilterEvent::PeerChosen) => Some(FilterState::PeerSelected),
            (FilterState::Received, FilterEvent::PeerMissing) => Some(FilterState::Completed),
            (FilterState::PeerSelected, FilterEvent::Guarded { dispatch }) => Some(
                FilterState::GuardEvaluated { dispatch },
            ),
            (FilterState::GuardEvaluated { dispatch: true }, FilterEvent::SnapshotTaken) => Some(
                FilterState::SnapshotCaptured,
            ),
            (FilterState::GuardEvaluated { dispatch: false }, FilterEvent::PrimarySent) => Some(
                FilterState::PrimaryDispatched,
            ),
            (FilterState::SnapshotCaptured, FilterEvent::PrimarySent) => Some(
                FilterState::PrimaryDispatched,
            ),
            (FilterState::PrimaryDispatched, FilterEvent::ResponseStamped) => Some(
                FilterState::ResponseDecorated,
            ),
            (FilterState::ResponseDecorated, FilterEvent::Finished) => Some(FilterState::Completed),
            _ => None,
        }
    }

    /// Moves the record along `event` where the event has a place, and leaves
    /// it where it has none.
    pub fn record(&mut self, event: FilterEvent)
        ensures
            *final(self) == old(self).after(event),
    {
        match self.advance(event) {
            Some(state) => {
                *self = state;
            },
            None => {},
        }
    }
}

/// What the hook before forwarding did to one request.
#[derive(Clone, Copy, Debug, PartialEq, Eq, Structural)]
pub struct RequestFilterReport {
    /// Whether the diagnostic header was set on the upstream request.
    pub annotation: Annotation,
    /// What the guard found and did.
    pub verdict: GuardVerdict,
}

/// What the hook after the response did to one response.
#[derive(Clone, Copy, Debug, PartialEq, Eq, Structural)]
pub struct ResponseFilterReport {
    /// Whether the diagnostic header was set on the response.
    pub annotation: Annotation,
}

/// The dual-write filter: the two peers, the guard and the decorator.
#[derive(Debug)]
pub struct DualWriteProxy {
    resolver: PeerResolver,
    guard: IdempotencyGuard,
    decorator: HeaderDecorator,
}

/// What a `DualWriteProxy` holds, as plain values.
pub struct ProxyView {
    pub peers: ResolverView,
    pub marker: FieldView,
    pub tags: DecoratorView,
}

impl View for DualWriteProxy {
    type V = ProxyView;

    closed spec fn view(&self) -> ProxyView {
        ProxyView { peers: self.resolver@, marker: self.guard@, tags: self.decorator@ }
    }
}

/// What `capture_snapshot` gives for a request whose record stands at `state`:
/// the snapshot where the guard has just asked for one, nothing otherwise.
pub open spec fn snapshot_due(state: FilterState) -> bool {
    state == (FilterState::GuardEvaluated { dispatch: true })
}

impl DualWriteProxy {
    /// A filter from its parts.
    pub fn new(resolver: PeerResolver, guard: IdempotencyGuard, decorator: HeaderDecorator) -> (proxy:
        DualWriteProxy)
        ensures
            proxy@ == (ProxyView { peers: resolver@, marker: guard@, tags: decorator@ }),
    {
        DualWriteProxy { resolver, guard, decorator }
    }

    /// The filter with the standard peers, mark and headers. Its mark and its
    /// headers are legal, so that none of its steps is ever skipped.
    pub fn standard() -> (proxy: DualWriteProxy)
        ensures
            proxy@.peers.primary == Some(standard_primary()),
            proxy@.peers.shadow == standard_shadow(),
            proxy@.marker == standard_marker(),
            proxy@.tags.request_tag == standard_request_tag(),
            proxy@.tags.response_tag == standard_response_tag(),
            field_check(proxy@.marker.0, proxy@.marker.1) is Ok,
            field_check(proxy@.tags.request_tag.0, proxy@.tags.request_tag.1) is Ok,
            field_check(proxy@.tags.response_tag.0, proxy@.tags.response_tag.1) is Ok,
    {
        DualWriteProxy {
            resolver: PeerResolver::standard(),
            guard: IdempotencyGuard::standard(),
            decorator: HeaderDecorator::standard(),
        }
    }

    /// The shadow upstream.
    pub fn shadow_peer(&self) -> (peer: &PeerDescriptor)
        ensures
            peer@ == self@.peers.shadow,
    {
        self.resolver.shadow()
    }

    /// The guard of this filter.
    pub fn guard(&self) -> (guard: &IdempotencyGuard)
        ensures
            guard@ == self@.marker,
    {
        &self.guard
    }

    /// The decorator of this filter.
    pub fn decorator(&self) -> (decorator: &HeaderDecorator)
        ensures
            decorator@ == self@.tags,
    {
        &self.decorator
    }

    /// The record of a request that has just arrived.
    pub fn new_ctx(&self) -> (ctx: FilterState)
        ensures
            ctx == FilterState::Received,
    {
        FilterState::Received
    }

    /// Chooses the primary upstream for a request.
    ///
    /// The answer depends on the configuration alone. Without a primary peer
    /// the request cannot be served: the error is fatal for it.
    pub fn upstream_peer(&self, ctx: &mut FilterState) -> (chosen: Result<
        PeerDescriptor,
        PeerConfigurationError,
    >)
        ensures
            match self@.peers.primary {
                Some(peer) => chosen is Ok && chosen->Ok_0@ == peer && *final(ctx) == old(ctx).after(
                    FilterEvent::PeerChosen,
                ),
                None => chosen == Err::<PeerDescriptor, _>(PeerConfigurationError::MissingPrimary)
                    && *final(ctx) == old(ctx).after(FilterEvent::PeerMissing),
            },
    {
        match self.resolver.primary() {
            Ok(peer) => {
                ctx.record(FilterEvent::PeerChosen);
                Ok(peer.duplicate())
            },
            Err(e) => {
                ctx.record(FilterEvent::PeerMissing);
                Err(e)
            },
        }
    }

    /// Sees a request before it is forwarded to the primary upstream.
    ///
    /// Sets the diagnostic header on `upstream_request`, the headers that go
    /// to the primary upstream, and lets the guard judge `session`, the
    /// inbound request. Neither step can fail the request: a header that
    /// cannot be written is left out and reported.
    ///
    /// Where the verdict is `Dispatch`, the host reads the body and calls
    /// `capture_snapshot`.
    pub fn upstream_request_filter(
        &self,
        session: &mut RequestHead,
        upstream_request: &mut HeaderSet,
        ctx: &mut FilterState,
    ) -> (report: RequestFilterReport)
        ensures
            report.annotation == annotation_of(self@.tags.request_tag),
            report.verdict == guard_verdict(self@.marker, old(session)@.headers),
            final(upstream_request)@ == annotated(self@.tags.request_tag, old(upstream_request)@),
            final(session)@ == (RequestView {
                headers: guarded_headers(self@.marker, old(session)@.headers),
                ..old(session)@
            }),
            *final(ctx) == old(ctx).after(
                FilterEvent::Guarded { dispatch: report.verdict.is_dispatch() },
            ),
            old(upstream_request).well_formed() ==> final(upstream_request).well_formed(),
            old(session).headers.well_formed() ==> final(session).headers.well_formed(),
    {
        let annotation = self.decorator.annotate_request(upstream_request);
        let verdict = self.guard.evaluate(&mut session.headers);
        ctx.record(FilterEvent::Guarded { dispatch: verdict.dispatch() });
        RequestFilterReport { annotation, verdict }
    }

    /// Takes the snapshot of `session` for the shadow upstream.
    ///
    /// `body` is what reading the inbound body gave. A snapshot is given only
    /// where the record shows that the guard has just asked for one; it is
    /// then given whatever the body read gave.
    pub fn capture_snapshot(
        &self,
        session: &RequestHead,
        body: Result<Option<Vec<u8>>, BodyReadError>,
        ctx: &mut FilterState,
    ) -> (snapshot: Option<RequestSnapshot>)
        ensures
            snapshot_due(*old(ctx)) ==> snapshot is Some && snapshot->Some_0@ == snapshot_of(
                self@.peers.shadow,
                session@,
                body_bytes(body),
            ),
            !snapshot_due(*old(ctx)) ==> snapshot is None,
            *final(ctx) == old(ctx).after(FilterEvent::SnapshotTaken),
    {
        match *ctx {
            FilterState::GuardEvaluated { dispatch: true } => {
                ctx.record(FilterEvent::SnapshotTaken);
                Some(RequestSnapshot::capture(self.resolver.shadow(), session, body))
            },
            _ => None,
        }
    }

    /// Notes that the request has been handed on to the primary upstream.
    pub fn primary_dispatched(&self, ctx: &mut FilterState)
        ensures
            *final(ctx) == old(ctx).after(FilterEvent::PrimarySent),
    {
        ctx.record(FilterEvent::PrimarySent);
    }

    /// Sees the response of the primary upstream before it goes to the client.
    ///
    /// Sets the diagnostic header on `upstream_response`, in place where the
    /// response carries it already. The hook cannot fail the response: a
    /// header that cannot be written is left out, the response goes on as it
    /// is, and the report says why.
    pub fn upstream_response_filter(
        &self,
        upstream_response: &mut HeaderSet,
        ctx: &mut FilterState,
    ) -> (report: ResponseFilterReport)
        ensures
            report.annotation == annotation_of(self@.tags.response_tag),
            final(upstream_response)@ == annotated(
                self@.tags.response_tag,
                old(upstream_response)@,
            ),
            *final(ctx) == old(ctx).after(FilterEvent::ResponseStamped),
            old(upstream_response).well_formed() ==> final(upstream_response).well_formed(),
    {
        let annotation = self.decorator.annotate_response(upstream_response);
        ctx.record(FilterEvent::ResponseStamped);
        ResponseFilterReport { annotation }
    }

    /// Notes that the response has been returned to the client.
    pub fn finish(&self, ctx: &mut FilterState)
        ensures
            *final(ctx) == old(ctx).after(FilterEvent::Finished),
    {
        ctx.record(FilterEvent::Finished);
    }
}

} // verus!
