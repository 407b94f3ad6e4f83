//! One whole request, from arrival to the response, with every part that the
//! host contributes given as a value.
//!
//! `run_exchange` calls the hooks of the filter in the order in which a host
//! calls them. A host with a live connection cannot use it, since it learns
//! the response and the fate of the shadow call only later; it is for hosts
//! that replay recorded traffic and for checking the filter without a host.
//! `exchange` says what it leaves behind.

use vstd::prelude::*;
use crate::decorate::annotated;
use crate::dispatch::{
    outbound_of, report_of, OutboundRequest, OutboundView, ShadowDispatcher, ShadowOutcome,
    ShadowReport,
};
use crate::error::BodyReadError;
use crate::filter::{DualWriteProxy, FilterState, ProxyView};
use crate::guard::{guard_verdict, guarded_headers};
use crate::header::{FieldView, HeaderSet};
use crate::snapshot::{body_bytes, snapshot_of, RequestHead, RequestView};

verus! {

/// What one request leaves behind.
pub struct Exchange {
    /// The request was refused for want of a primary peer.
    pub refused: bool,
    /// The headers of the inbound request afterwards.
    pub session_headers: Seq<FieldView>,
    /// The headers that went to the primary upstream.
    pub forwarded_headers: Seq<FieldView>,
    /// The requests that went to the shadow upstream, in their order.
    pub shadow_calls: Seq<OutboundView>,
    /// What was logged of the shadow call.
    pub shadow_report: Option<ShadowReport>,
    /// The headers that went back to the client.
    pub client_headers: Seq<FieldView>,
    /// Where the record of the request stands at the end.
    pub state: FilterState,
}

/// What the request `session` leaves behind when it passes the filter `proxy`.
///
/// `upstream` are the headers prepared for the primary upstream, `body` is the
/// inbound body as read, `response` are the headers of the primary upstream's
/// response, and `outcome` is how the shadow call ends if one is made.
pub open spec fn exchange(
    proxy: ProxyView,
    session: RequestView,
    upstream: Seq<FieldView>,
    body: Seq<u8>,
    response: Seq<FieldView>,
    outcome: ShadowOutcome,
) -> Exchange {
    if proxy.peers.primary is None {
        Exchange {
            refused: true,
            session_headers: session.headers,
            forwarded_headers: upstream,
            shadow_calls: Seq::empty(),
            shadow_report: None,
            client_headers: response,
            state: FilterState::Completed,
        }
    } else {
        let dispatch = guard_verdict(proxy.marker, session.headers) is Dispatch;
        let marked = RequestView {
            headers: guarded_headers(proxy.marker, session.headers),
            ..session
        };
        Exchange {
            refused: false,
            session_headers: marked.headers,
            forwarded_headers: annotated(proxy.tags.request_tag, upstream),
            shadow_calls: if dispatch {
                seq![
                    outbound_of(
                        snapshot_of(proxy.peers.shadow, marked, body),
                        proxy.peers.shadow.use_tls,
                    ),
                ]
            } else {
                Seq::empty()
            },
            shadow_report: if dispatch {
                Some(report_of(outcome))
            } else {
                None
            },
            client_headers: annotated(proxy.tags.response_tag, response),
            state: FilterState::Completed,
        }
    }
}

/// What `run_exchange` returns beside the headers that it changes in place.
#[derive(Debug)]
pub struct ExchangeRecord {
    /// The request was refused for want of a primary peer.
    pub refused: bool,
    /// The requests that went to the shadow upstream, in their order.
    pub shadow_calls: Vec<OutboundRequest>,
    /// What was logged of the shadow call.
    pub shadow_report: Option<ShadowReport>,
    /// Where the record of the request stands at the end.
    pub state: FilterState,
}

/// The requests of `calls` as plain values.
pub open spec fn calls_view(calls: Seq<OutboundRequest>) -> Seq<OutboundView> {
    calls.map_values(|call: OutboundRequest| call@)
}

/// Passes one request through the filter, hook by hook.
///
/// A refused request is left untouched. Otherwise `session` and
/// `upstream_request` come back as they were forwarded and
/// `upstream_response` as it was returned to the client.
pub fn run_exchange(
    proxy: &DualWriteProxy,
    session: &mut RequestHead,
    upstream_request: &mut HeaderSet,
    body: Result<Option<Vec<u8>>, BodyReadError>,
    upstream_response: &mut HeaderSet,
    outcome: &ShadowOutcome,
) -> (record: ExchangeRecord)
    ensures
        ({
            let left = exchange(
                proxy@,
                old(session)@,
                old(upstream_request)@,
                body_bytes(body),
                old(upstream_response)@,
                *outcome,
            );
            &&& record.refused == left.refused
            &&& final(session)@ == (RequestView { headers: left.session_headers, ..old(session)@ })
            &&& final(upstream_request)@ == left.forwarded_headers
            &&& calls_view(record.shadow_calls@) == left.shadow_calls
            &&& record.shadow_report == left.shadow_report
            &&& final(upstream_response)@ == left.client_headers
            &&& record.state == left.state
        }),
{
    let mut ctx = proxy.new_ctx();
    let mut shadow_calls: Vec<OutboundRequest> = Vec::new();
    let mut shadow_report: Option<ShadowReport> = None;
    assert(calls_view(shadow_calls@) =~= Seq::<OutboundView>::empty());
    match proxy.upstream_peer(&mut ctx) {
        Err(_) => {
            return ExchangeRecord { refused: true, shadow_calls, shadow_report, state: ctx };
        },
        Ok(_) => {},
    }
    let filtered = proxy.upstream_request_filter(session, upstream_request, &mut ctx);
    if filtered.verdict.dispatch() {
        match proxy.capture_snapshot(session, body, &mut ctx) {
            Some(snapshot) => {
                let mut dispatcher = ShadowDispatcher::accept(snapshot, proxy.shadow_peer());
                match dispatcher.begin() {
                    Some(call) => {
                        shadow_calls.push(call);
                        assert(calls_view(shadow_calls@) =~= seq![call@]);
                    },
                    None => {},
                }
                shadow_report = dispatcher.conclude(outcome);
            },
            None => {},
        }
    }
    proxy.primary_dispatched(&mut ctx);
    let _ = proxy.upstream_response_filter(upstream_response, &mut ctx);
    proxy.finish(&mut ctx);
    ExchangeRecord { refused: false, shadow_calls, shadow_report, state: ctx }
}

} // verus!
