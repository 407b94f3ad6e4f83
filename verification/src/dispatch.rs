//! The shadow dispatcher: what is sent to the shadow upstream, how often, and
//! what becomes of the answer.
//!
//! A dispatcher owns one snapshot. It hands out the request to send exactly
//! once, takes the outcome of that one attempt, and turns it into a report.
//! The report is all that is left of the attempt: it goes to the log and
//! nowhere else. There is no second attempt, whatever the outcome.

use vstd::prelude::*;
use vstd::slice::slice_to_vec;
use crate::error::ShadowTransportError;
use crate::header::{FieldView, HeaderSet};
use crate::peer::{PeerDescriptor, PeerView};
use crate::snapshot::{RequestSnapshot, SnapshotView};

verus! {

/// The request that the outbound client is to send.
#[derive(Debug)]
pub struct OutboundRequest {
    pub method: Vec<u8>,
    pub uri: Vec<u8>,
    pub headers: HeaderSet,
    pub body: Vec<u8>,
    /// The client must not route the call through any proxy that the
    /// environment configures: the call would come back to this filter.
    pub bypass_ambient_proxy: bool,
    pub use_tls: bool,
}

/// What an `OutboundRequest` holds, as plain values.
pub struct OutboundView {
    pub method: Seq<u8>,
    pub uri: Seq<u8>,
    pub headers: Seq<FieldView>,
    pub body: Seq<u8>,
    pub bypass_ambient_proxy: bool,
    pub use_tls: bool,
}

impl View for OutboundRequest {
    type V = OutboundView;

    open spec fn view(&self) -> OutboundView {
        OutboundView {
            method: self.method@,
            uri: self.uri@,
            headers: self.headers@,
            body: self.body@,
            bypass_ambient_proxy: self.bypass_ambient_proxy,
            use_tls: self.use_tls,
        }
    }
}

/// The request that carries `snapshot` to the shadow upstream: everything as
/// captured, past any ambient proxy.
pub open spec fn outbound_of(snapshot: SnapshotView, use_tls: bool) -> OutboundView {
    OutboundView {
        method: snapshot.method,
        uri: snapshot.uri,
        headers: snapshot.headers,
        body: snapshot.body,
        bypass_ambient_proxy: true,
        use_tls,
    }
}

/// How the one attempt ended.
#[derive(Debug)]
pub enum ShadowOutcome {
    /// The shadow upstream answered. Its body was read, or reading it failed.
    Response { status: u16, headers: HeaderSet, body: Result<Vec<u8>, ShadowTransportError> },
    /// No answer came.
    Failure(ShadowTransportError),
}

/// What is logged of an attempt.
#[derive(Clone, Copy, Debug, PartialEq, Eq, Structural)]
pub enum ShadowReport {
    /// The shadow upstream answered with a status from 200 to 299.
    Delivered { status: u16, body_read: bool },
    /// The shadow upstream answered with another status. For information only.
    NonSuccessStatus { status: u16, body_read: bool },
    /// No answer came.
    TransportFailure { error: ShadowTransportError },
}

/// Whether `status` is a success status, 200 to 299.
pub open spec fn is_success_status(status: u16) -> bool {
    200 <= status <= 299
}

/// The report on `outcome`.
pub open spec fn report_of(outcome: ShadowOutcome) -> ShadowReport {
    match outcome {
        ShadowOutcome::Response { status, headers, body } => if is_success_status(status) {
            ShadowReport::Delivered { status, body_read: body is Ok }
        } else {
            ShadowReport::NonSuccessStatus { status, body_read: body is Ok }
        },
        ShadowOutcome::Failure(error) => ShadowReport::TransportFailure { error },
    }
}

/// Where a dispatcher stands.
#[derive(Clone, Copy, Debug, PartialEq, Eq, Structural)]
pub enum DispatchPhase {
    /// The request has not been handed out yet.
    Ready,
    /// The request has been handed out and its outcome is awaited.
    InFlight,
    /// The outcome is in. Nothing more happens.
    Finished,
}

/// What a `ShadowDispatcher` holds, as plain values.
pub struct DispatcherView {
    pub snapshot: SnapshotView,
    pub use_tls: bool,
    pub phase: DispatchPhase,
}

/// The dispatcher after it was asked for the request to send, and the request
/// it gave: the request of its snapshot if it was `Ready`, none otherwise.
pub open spec fn begun(dispatcher: DispatcherView) -> (DispatcherView, Option<OutboundView>) {
    if dispatcher.phase is Ready {
        (
            DispatcherView { phase: DispatchPhase::InFlight, ..dispatcher },
            Some(outbound_of(dispatcher.snapshot, dispatcher.use_tls)),
        )
    } else {
        (dispatcher, None)
    }
}

/// The dispatcher after it was told `outcome`, and the report it gave: the
/// report on the outcome if a request was `InFlight`, none otherwise.
pub open spec fn concluded(dispatcher: DispatcherView, outcome: ShadowOutcome) -> (
    DispatcherView,
    Option<ShadowReport>,
) {
    if dispatcher.phase is InFlight {
        (DispatcherView { phase: DispatchPhase::Finished, ..dispatcher }, Some(report_of(outcome)))
    } else {
        (dispatcher, None)
    }
}

/// Delivers one snapshot to the shadow upstream, once.
#[derive(Debug)]
pub struct ShadowDispatcher {
    snapshot: RequestSnapshot,
    use_tls: bool,
    phase: DispatchPhase,
}

impl View for ShadowDispatcher {
    type V = DispatcherView;

    closed spec fn view(&self) -> DispatcherView {
        DispatcherView { snapshot: self.snapshot@, use_tls: self.use_tls, phase: self.phase }
    }
}

impl ShadowDispatcher {
    /// Takes over `snapshot` for delivery to `shadow`.
    pub fn accept(snapshot: RequestSnapshot, shadow: &PeerDescriptor) -> (dispatcher:
        ShadowDispatcher)
        ensures
            dispatcher@ == (DispatcherView {
                snapshot: snapshot@,
                use_tls: shadow@.use_tls,
                phase: DispatchPhase::Ready,
            }),
    {
        ShadowDispatcher { snapshot, use_tls: shadow.use_tls, phase: DispatchPhase::Ready }
    }

    /// Where the dispatcher stands.
    pub fn phase(&self) -> (phase: DispatchPhase)
        ensures
            phase == self@.phase,
    {
        self.phase
    }

    /// Hands out the request to send. It is handed out once: every later call
    /// gives `None` and changes nothing.
    pub fn begin(&mut self) -> (request: Option<OutboundRequest>)
        ensures
            final(self)@ == begun(old(self)@).0,
            match begun(old(self)@).1 {
                Some(outbound) => request is Some && request->Some_0@ == outbound,
                None => request is None,
            },
    {
        match self.phase {
            DispatchPhase::Ready => {
                self.phase = DispatchPhase::InFlight;
                Some(
                    OutboundRequest {
                        method: slice_to_vec(self.snapshot.method()),
                        uri: slice_to_vec(self.snapshot.uri()),
                        headers: self.snapshot.headers().duplicate(),
                        body: slice_to_vec(self.snapshot.body()),
                        bypass_ambient_proxy: true,
                        use_tls: self.use_tls,
                    },
                )
            },
            _ => None,
        }
    }

    /// Takes the outcome of the attempt and gives the report for the log.
    /// Without an attempt in flight it gives `None` and changes nothing.
    pub fn conclude(&mut self, outcome: &ShadowOutcome) -> (report: Option<ShadowReport>)
        ensures
            final(self)@ == concluded(old(self)@, *outcome).0,
            report == concluded(old(self)@, *outcome).1,
    {
        match self.phase {
            DispatchPhase::InFlight => {
                self.phase = DispatchPhase::Finished;
                Some(report_on(outcome))
            },
            _ => None,
        }
    }
}

/// The report on `outcome`.
pub fn report_on(outcome: &ShadowOutcome) -> (report: ShadowReport)
    ensures
        report == report_of(*outcome),
{
    match outcome {
        ShadowOutcome::Response { status, headers, body } => {
            let body_read = body.is_ok();
            if 200 <= *status && *status <= 299 {
                ShadowReport::Delivered { status: *status, body_read }
            } else {
                ShadowReport::NonSuccessStatus { status: *status, body_read }
            }
        },
        ShadowOutcome::Failure(error) => ShadowReport::TransportFailure { error: *error },
    }
}

} // verus!
