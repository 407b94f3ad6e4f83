//! What holds of the filter for every request and every configuration.

use vstd::prelude::*;
use crate::decorate::{annotated, annotation_of};
use crate::dispatch::{begun, concluded, DispatcherView, OutboundView, ShadowOutcome};
use crate::exchange::exchange;
use crate::filter::{FilterEvent, FilterState, ProxyView};
use crate::guard::{guard_verdict, guarded_headers};
use crate::header::{
    canonical_name, count_name, field_check, first_position, first_value, has_name,
    lemma_count_absent, lemma_with_field_idempotent, lemma_with_field_keeps_others,
    lemma_with_field_present, lemma_with_field_unchanged, named, FieldView,
};
use crate::peer::{absolute_uri, PeerView};
use crate::snapshot::{snapshot_of, RequestView};
use crate::target::{
    ends_authority, is_letter, is_scheme_byte, lemma_absolute_form, lemma_origin_form,
    path_and_query,
};

verus! {

/// Isolation. Whatever becomes of the shadow call, the client and the primary
/// upstream see the same: two exchanges that differ in the outcome of the
/// shadow call alone differ in nothing but what is logged of it.
pub proof fn law_isolation(
    proxy: ProxyView,
    session: RequestView,
    upstream: Seq<FieldView>,
    body: Seq<u8>,
    response: Seq<FieldView>,
    one: ShadowOutcome,
    other: ShadowOutcome,
)
    ensures
        ({
            let a = exchange(proxy, session, upstream, body, response, one);
            let b = exchange(proxy, session, upstream, body, response, other);
            &&& a.client_headers == b.client_headers
            &&& a.forwarded_headers == b.forwarded_headers
            &&& a.session_headers == b.session_headers
            &&& a.shadow_calls == b.shadow_calls
            &&& a.refused == b.refused
            &&& a.state == b.state
        }),
{
}

/// At most once. No request is sent to the shadow upstream more than once.
/// Under a filter that has a primary peer and a legal mark, a request that
/// carries no mark is sent exactly once, and a request that carries the mark
/// is not sent.
pub proof fn law_at_most_once(
    proxy: ProxyView,
    session: RequestView,
    upstream: Seq<FieldView>,
    body: Seq<u8>,
    response: Seq<FieldView>,
    outcome: ShadowOutcome,
)
    ensures
        ({
            let calls = exchange(proxy, session, upstream, body, response, outcome).shadow_calls;
            let configured = proxy.peers.primary is Some && field_check(
                proxy.marker.0,
                proxy.marker.1,
            ) is Ok;
            let marked = has_name(session.headers, canonical_name(proxy.marker.0));
            &&& calls.len() <= 1
            &&& configured && !marked ==> calls.len() == 1
            &&& configured && marked ==> calls.len() == 0
        }),
{
}

/// Marked before sent. A request goes to the shadow upstream only with the
/// mark on it, and the inbound request carries the mark from then on.
pub proof fn law_marked_before_sent(
    proxy: ProxyView,
    session: RequestView,
    upstream: Seq<FieldView>,
    body: Seq<u8>,
    response: Seq<FieldView>,
    outcome: ShadowOutcome,
)
    ensures
        ({
            let left = exchange(proxy, session, upstream, body, response, outcome);
            let name = canonical_name(proxy.marker.0);
            forall|i: int|
                0 <= i < left.shadow_calls.len() ==> has_name(
                    (#[trigger] left.shadow_calls[i]).headers,
                    name,
                ) && has_name(left.session_headers, name)
        }),
{
    let left = exchange(proxy, session, upstream, body, response, outcome);
    if left.shadow_calls.len() > 0 {
        let marked = left.session_headers;
        assert(marked[marked.len() - 1].0 == canonical_name(proxy.marker.0));
    }
}

/// Whether `call` carries the request `request` with the body `body`: the
/// same method, the same headers in the same order, the same body byte for
/// byte, sent past any ambient proxy.
pub open spec fn carries(call: OutboundView, request: RequestView, body: Seq<u8>) -> bool {
    &&& call.method == request.method
    &&& call.headers == request.headers
    &&& call.body == body
    &&& call.bypass_ambient_proxy
}

/// Fidelity. What is sent to the shadow upstream is the request as it came:
/// the same method, the same body byte for byte, and the headers of the
/// inbound request as the guard left them.
pub proof fn law_fidelity(
    proxy: ProxyView,
    session: RequestView,
    upstream: Seq<FieldView>,
    body: Seq<u8>,
    response: Seq<FieldView>,
    outcome: ShadowOutcome,
)
    ensures
        ({
            let left = exchange(proxy, session, upstream, body, response, outcome);
            let marked = RequestView { headers: left.session_headers, ..session };
            forall|i: int|
                0 <= i < left.shadow_calls.len() ==> carries(
                    #[trigger] left.shadow_calls[i],
                    marked,
                    body,
                )
        }),
{
}

/// Only the path and query follow. The URI of every shadow call is the
/// address of the shadow upstream and then the path and query of the
/// request's target.
pub proof fn law_path_follows(
    proxy: ProxyView,
    session: RequestView,
    upstream: Seq<FieldView>,
    body: Seq<u8>,
    response: Seq<FieldView>,
    outcome: ShadowOutcome,
)
    ensures
        ({
            let left = exchange(proxy, session, upstream, body, response, outcome);
            forall|i: int|
                0 <= i < left.shadow_calls.len() ==> (#[trigger] left.shadow_calls[i]).uri
                    == absolute_uri(proxy.peers.shadow, path_and_query(session.target))
        }),
{
}

/// A target that is a path and query is carried to the shadow upstream as it
/// is, byte for byte.
pub proof fn law_origin_target_unchanged(shadow: PeerView, request: RequestView, body: Seq<u8>)
    requires
        request.target.len() > 0,
        request.target[0] == 0x2f,
    ensures
        snapshot_of(shadow, request, body).uri == absolute_uri(shadow, request.target),
{
    lemma_origin_form(request.target);
}

/// The host that a target names stays behind. Of a target that is a whole
/// URI, with a scheme, an authority and a rest that is empty or begins with
/// `/`, `?` or `#`, only the rest goes to the shadow upstream.
pub proof fn law_foreign_host_stays_behind(
    shadow: PeerView,
    request: RequestView,
    body: Seq<u8>,
    scheme: Seq<u8>,
    authority: Seq<u8>,
    rest: Seq<u8>,
)
    requires
        scheme.len() > 0,
        is_letter(scheme[0]),
        forall|i: int| 0 <= i < scheme.len() ==> is_scheme_byte(#[trigger] scheme[i]),
        forall|i: int| 0 <= i < authority.len() ==> !ends_authority(#[trigger] authority[i]),
        rest.len() > 0 ==> ends_authority(rest[0]),
        request.target == scheme + seq![0x3au8, 0x2fu8, 0x2fu8] + authority + rest,
    ensures
        snapshot_of(shadow, request, body).uri == absolute_uri(shadow, rest),
{
    lemma_absolute_form(scheme, authority, rest);
}

/// The guard never asks twice. Once it has judged a request, judging the same
/// request again asks for no replication and changes nothing.
pub proof fn law_guard_reentry(marker: FieldView, headers: Seq<FieldView>)
    ensures
        !(guard_verdict(marker, guarded_headers(marker, headers)) is Dispatch),
        guarded_headers(marker, guarded_headers(marker, headers)) == guarded_headers(
            marker,
            headers,
        ),
{
    if guard_verdict(marker, headers) is Dispatch {
        let marked = guarded_headers(marker, headers);
        assert(marked[marked.len() - 1].0 == canonical_name(marker.0));
    }
}

/// Idempotent re-entry. A request that passes the filter a second time, as
/// the first pass left it, is not sent to the shadow upstream again: both
/// passes together send it at most once.
pub proof fn law_reentry(
    proxy: ProxyView,
    session: RequestView,
    upstream: Seq<FieldView>,
    body: Seq<u8>,
    response: Seq<FieldView>,
    first_outcome: ShadowOutcome,
    second_outcome: ShadowOutcome,
)
    ensures
        ({
            let first = exchange(proxy, session, upstream, body, response, first_outcome);
            let again = RequestView { headers: first.session_headers, ..session };
            let second = exchange(
                proxy,
                again,
                first.forwarded_headers,
                body,
                first.client_headers,
                second_outcome,
            );
            &&& first.shadow_calls.len() + second.shadow_calls.len() <= 1
            &&& second.shadow_calls.len() == 0 || first.shadow_calls.len() == 0
            &&& second.session_headers == first.session_headers
        }),
{
    law_guard_reentry(proxy.marker, session.headers);
}

/// One mark at most. A request that carried the mark at most once carries it
/// at most once after the guard has judged it.
pub proof fn law_single_mark(marker: FieldView, headers: Seq<FieldView>)
    requires
        count_name(headers, canonical_name(marker.0)) <= 1,
    ensures
        count_name(guarded_headers(marker, headers), canonical_name(marker.0)) <= 1,
{
    if guard_verdict(marker, headers) is Dispatch {
        let name = canonical_name(marker.0);
        lemma_count_absent(headers, name);
        headers.lemma_filter_push((name, marker.1), named(name));
    }
}

/// One attempt. A dispatcher hands out its request once. After that it hands
/// out nothing, whatever the outcome it is told: there is no retry.
pub proof fn law_single_attempt(dispatcher: DispatcherView, outcome: ShadowOutcome)
    ensures
        !(dispatcher.phase is Ready) ==> begun(dispatcher).1 is None,
        !(begun(dispatcher).0.phase is Ready),
        !(dispatcher.phase is Ready) ==> !(concluded(dispatcher, outcome).0.phase is Ready),
        begun(begun(dispatcher).0).1 is None,
        begun(concluded(begun(dispatcher).0, outcome).0).1 is None,
{
}

/// The decorator is idempotent: annotating twice is the same as annotating once.
pub proof fn law_annotation_idempotent(tag: FieldView, headers: Seq<FieldView>)
    ensures
        annotated(tag, annotated(tag, headers)) == annotated(tag, headers),
{
    lemma_with_field_idempotent(headers, canonical_name(tag.0), tag.1);
}

/// A legal annotation is there afterwards: the header occurs once, carries
/// the configured value, and stands where it first stood, or last where it
/// was absent.
pub proof fn law_annotation_present(tag: FieldView, headers: Seq<FieldView>)
    requires
        field_check(tag.0, tag.1) is Ok,
    ensures
        has_name(annotated(tag, headers), canonical_name(tag.0)),
        count_name(annotated(tag, headers), canonical_name(tag.0)) == 1,
        first_value(annotated(tag, headers), canonical_name(tag.0)) == Some(tag.1),
        first_position(annotated(tag, headers), canonical_name(tag.0)) == first_position(
            headers,
            canonical_name(tag.0),
        ),
{
    lemma_with_field_present(headers, canonical_name(tag.0), tag.1);
}

/// Headers that carry the annotation already, once and with the configured
/// value, are left exactly as they are.
pub proof fn law_annotation_unchanged(tag: FieldView, headers: Seq<FieldView>)
    requires
        count_name(headers, canonical_name(tag.0)) == 1,
        first_value(headers, canonical_name(tag.0)) == Some(tag.1),
    ensures
        annotated(tag, headers) == headers,
{
    if field_check(tag.0, tag.1) is Ok {
        lemma_with_field_unchanged(headers, canonical_name(tag.0), tag.1);
    }
}

/// An annotation that cannot be written changes nothing.
pub proof fn law_annotation_left_out(tag: FieldView, headers: Seq<FieldView>)
    requires
        field_check(tag.0, tag.1) is Err,
    ensures
        annotation_of(tag) is LeftOut,
        annotated(tag, headers) == headers,
{
}

/// The decorator touches its own header only: every field of another name
/// stays, in its order.
pub proof fn law_annotation_keeps_others(tag: FieldView, headers: Seq<FieldView>, name: Seq<u8>)
    requires
        name != canonical_name(tag.0),
    ensures
        annotated(tag, headers).filter(named(name)) == headers.filter(named(name)),
{
    if field_check(tag.0, tag.1) is Ok {
        lemma_with_field_keeps_others(headers, canonical_name(tag.0), tag.1, name);
    }
}

/// A request only moves forward: every step that the record takes leads to a
/// state further along the path.
pub proof fn law_progress(state: FilterState, event: FilterEvent)
    ensures
        state.next(event) matches Some(next) ==> state.rank() < next.rank(),
        state.rank() <= state.after(event).rank(),
{
}

/// A snapshot is taken only where the guard has asked for one.
pub proof fn law_snapshot_after_dispatch(state: FilterState, event: FilterEvent)
    ensures
        state.next(event) == Some(FilterState::SnapshotCaptured) <==> state == (
            FilterState::GuardEvaluated { dispatch: true }
        ) && event == FilterEvent::SnapshotTaken,
{
}

/// A completed request takes no further step.
pub proof fn law_completed_is_final(event: FilterEvent)
    ensures
        FilterState::Completed.next(event) is None,
{
}

} // verus!
