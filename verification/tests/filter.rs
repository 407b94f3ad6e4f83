use simple_proxy::decorate::{Annotation, HeaderDecorator};
use simple_proxy::error::{BodyReadError, HeaderMutationError, PeerConfigurationError};
use simple_proxy::filter::{
    FilterEvent, FilterState, RequestFilterReport, ResponseFilterReport,
};
use simple_proxy::guard::{GuardVerdict, IdempotencyGuard};
use simple_proxy::header::HeaderSet;
use simple_proxy::peer::{PeerDescriptor, PeerResolver};
use simple_proxy::snapshot::RequestHead;
use simple_proxy::DualWriteProxy;

const STATES: [FilterState; 8] = [
    FilterState::Received,
    FilterState::PeerSelected,
    FilterState::GuardEvaluated { dispatch: true },
    FilterState::GuardEvaluated { dispatch: false },
    FilterState::SnapshotCaptured,
    FilterState::PrimaryDispatched,
    FilterState::ResponseDecorated,
    FilterState::Completed,
];

const EVENTS: [FilterEvent; 8] = [
    FilterEvent::PeerChosen,
    FilterEvent::PeerMissing,
    FilterEvent::Guarded { dispatch: true },
    FilterEvent::Guarded { dispatch: false },
    FilterEvent::SnapshotTaken,
    FilterEvent::PrimarySent,
    FilterEvent::ResponseStamped,
    FilterEvent::Finished,
];

fn rank(state: FilterState) -> u8 {
    match state {
        FilterState::Received => 0,
        FilterState::PeerSelected => 1,
        FilterState::GuardEvaluated { .. } => 2,
        FilterState::SnapshotCaptured => 3,
        FilterState::PrimaryDispatched => 4,
        FilterState::ResponseDecorated => 5,
        FilterState::Completed => 6,
    }
}

fn all_fields(set: &HeaderSet) -> Vec<(Vec<u8>, Vec<u8>)> {
    let mut out = Vec::new();
    let mut i = 0;
    while let Some(field) = set.field(i) {
        out.push((field.name().to_vec(), field.value().to_vec()));
        i += 1;
    }
    out
}

fn one(name: &str, value: &str) -> (Vec<u8>, Vec<u8>) {
    (name.as_bytes().to_vec(), value.as_bytes().to_vec())
}

fn get_users() -> RequestHead {
    let mut headers = HeaderSet::new();
    headers.append(b"host", b"localhost:8080").unwrap();
    headers.append(b"accept", b"*/*").unwrap();
    RequestHead::new(b"GET", b"/users", headers)
}

fn without_primary() -> DualWriteProxy {
    DualWriteProxy::new(
        PeerResolver::new(None, PeerDescriptor::new(b"127.0.0.1", 3001, b"http", false)),
        IdempotencyGuard::standard(),
        HeaderDecorator::standard(),
    )
}

#[test]
fn the_path_of_a_replicated_request() {
    let mut state = FilterState::Received;
    for (event, expected) in [
        (FilterEvent::PeerChosen, FilterState::PeerSelected),
        (FilterEvent::Guarded { dispatch: true }, FilterState::GuardEvaluated { dispatch: true }),
        (FilterEvent::SnapshotTaken, FilterState::SnapshotCaptured),
        (FilterEvent::PrimarySent, FilterState::PrimaryDispatched),
        (FilterEvent::ResponseStamped, FilterState::ResponseDecorated),
        (FilterEvent::Finished, FilterState::Completed),
    ] {
        assert_eq!(state.advance(event), Some(expected));
        state.record(event);
        assert_eq!(state, expected);
    }
}

#[test]
fn the_path_of_a_request_that_is_not_replicated() {
    let mut state = FilterState::Received;
    for (event, expected) in [
        (FilterEvent::PeerChosen, FilterState::PeerSelected),
        (FilterEvent::Guarded { dispatch: false }, FilterState::GuardEvaluated { dispatch: false }),
        (FilterEvent::PrimarySent, FilterState::PrimaryDispatched),
        (FilterEvent::ResponseStamped, FilterState::ResponseDecorated),
        (FilterEvent::Finished, FilterState::Completed),
    ] {
        assert_eq!(state.advance(event), Some(expected));
        state.record(event);
        assert_eq!(state, expected);
    }
}

#[test]
fn a_refused_request_is_completed_at_once() {
    assert_eq!(
        FilterState::Received.advance(FilterEvent::PeerMissing),
        Some(FilterState::Completed)
    );
}

#[test]
fn exactly_nine_steps_exist() {
    let mut steps = 0;
    for state in STATES {
        for event in EVENTS {
            if state.advance(event).is_some() {
                steps += 1;
            }
        }
    }
    assert_eq!(steps, 9);
}

#[test]
fn every_step_moves_forward() {
    for state in STATES {
        for event in EVENTS {
            if let Some(next) = state.advance(event) {
                assert!(rank(next) > rank(state), "{:?} on {:?}", state, event);
            }
            let mut recorded = state;
            recorded.record(event);
            assert_eq!(recorded, state.advance(event).unwrap_or(state));
        }
    }
}

#[test]
fn a_snapshot_needs_a_dispatch_verdict() {
    for state in STATES {
        for event in EVENTS {
            let reached = state.advance(event) == Some(FilterState::SnapshotCaptured);
            let due = state == FilterState::GuardEvaluated { dispatch: true }
                && event == FilterEvent::SnapshotTaken;
            assert_eq!(reached, due, "{:?} on {:?}", state, event);
        }
    }
}

#[test]
fn a_replicated_request_is_not_forwarded_before_the_snapshot() {
    assert_eq!(FilterState::GuardEvaluated { dispatch: true }.advance(FilterEvent::PrimarySent), None);
}

#[test]
fn a_completed_request_takes_no_step() {
    for event in EVENTS {
        assert_eq!(FilterState::Completed.advance(event), None);
    }
}

#[test]
fn new_ctx_is_received() {
    assert_eq!(DualWriteProxy::standard().new_ctx(), FilterState::Received);
}

#[test]
fn standard_filter_has_a_primary_peer() {
    let proxy = DualWriteProxy::standard();
    let mut ctx = proxy.new_ctx();
    let peer = proxy.upstream_peer(&mut ctx).unwrap();
    assert_eq!(peer.host, b"127.0.0.1".to_vec());
    assert_eq!(peer.port, 3000);
    assert_eq!(peer.scheme, b"http".to_vec());
    assert!(!peer.use_tls);
    assert_eq!(ctx, FilterState::PeerSelected);
}

#[test]
fn standard_filter_has_a_shadow_peer() {
    let proxy = DualWriteProxy::standard();
    let shadow = proxy.shadow_peer();
    assert_eq!(shadow.host, b"127.0.0.1".to_vec());
    assert_eq!(shadow.port, 3001);
}

#[test]
fn missing_primary_is_fatal_for_the_request() {
    let proxy = without_primary();
    let mut ctx = proxy.new_ctx();
    assert_eq!(proxy.upstream_peer(&mut ctx).unwrap_err(), PeerConfigurationError::MissingPrimary);
    assert_eq!(ctx, FilterState::Completed);
}

#[test]
fn upstream_peer_answers_again_on_a_retry() {
    let proxy = DualWriteProxy::standard();
    let mut ctx = FilterState::PrimaryDispatched;
    let peer = proxy.upstream_peer(&mut ctx).unwrap();
    assert_eq!(peer.port, 3000);
    assert_eq!(ctx, FilterState::PrimaryDispatched);
}

#[test]
fn request_filter_annotates_and_marks() {
    let proxy = DualWriteProxy::standard();
    let mut ctx = proxy.new_ctx();
    proxy.upstream_peer(&mut ctx).unwrap();
    let mut session = get_users();
    let mut upstream = session.headers.duplicate();
    let report = proxy.upstream_request_filter(&mut session, &mut upstream, &mut ctx);
    assert_eq!(
        report,
        RequestFilterReport { annotation: Annotation::Applied, verdict: GuardVerdict::Dispatch }
    );
    assert_eq!(ctx, FilterState::GuardEvaluated { dispatch: true });
    assert_eq!(
        all_fields(&upstream),
        vec![one("host", "localhost:8080"), one("accept", "*/*"), one("user-content", "dual-write")]
    );
    assert_eq!(
        all_fields(&session.headers),
        vec![
            one("host", "localhost:8080"),
            one("accept", "*/*"),
            one("x-dual-write-executed", "true"),
        ]
    );
    assert_eq!(session.method, b"GET".to_vec());
    assert_eq!(session.target, b"/users".to_vec());
}

#[test]
fn request_filter_on_a_marked_request() {
    let proxy = DualWriteProxy::standard();
    let mut ctx = proxy.new_ctx();
    proxy.upstream_peer(&mut ctx).unwrap();
    let mut session = get_users();
    session.headers.append(b"x-dual-write-executed", b"true").unwrap();
    let before = all_fields(&session.headers);
    let mut upstream = HeaderSet::new();
    let report = proxy.upstream_request_filter(&mut session, &mut upstream, &mut ctx);
    assert_eq!(report.verdict, GuardVerdict::AlreadyMarked);
    assert_eq!(report.annotation, Annotation::Applied);
    assert_eq!(ctx, FilterState::GuardEvaluated { dispatch: false });
    assert_eq!(all_fields(&session.headers), before);
    assert_eq!(all_fields(&upstream), vec![one("user-content", "dual-write")]);
}

#[test]
fn request_filter_survives_a_bad_annotation() {
    let proxy = DualWriteProxy::new(
        PeerResolver::standard(),
        IdempotencyGuard::standard(),
        HeaderDecorator::new(b"user content", b"dual-write", b"user-content", b"tag"),
    );
    let mut ctx = FilterState::PeerSelected;
    let mut session = get_users();
    let mut upstream = session.headers.duplicate();
    let report = proxy.upstream_request_filter(&mut session, &mut upstream, &mut ctx);
    assert_eq!(report.annotation, Annotation::LeftOut(HeaderMutationError::InvalidName));
    assert_eq!(report.verdict, GuardVerdict::Dispatch);
    assert_eq!(all_fields(&upstream), vec![one("host", "localhost:8080"), one("accept", "*/*")]);
    assert_eq!(ctx, FilterState::GuardEvaluated { dispatch: true });
}

#[test]
fn request_filter_survives_a_bad_mark() {
    let proxy = DualWriteProxy::new(
        PeerResolver::standard(),
        IdempotencyGuard::new(b"x-dual-write-executed", b"tr\nue"),
        HeaderDecorator::standard(),
    );
    let mut ctx = FilterState::PeerSelected;
    let mut session = get_users();
    let mut upstream = session.headers.duplicate();
    let report = proxy.upstream_request_filter(&mut session, &mut upstream, &mut ctx);
    assert_eq!(report.annotation, Annotation::Applied);
    assert_eq!(report.verdict, GuardVerdict::Skipped(HeaderMutationError::InvalidValue));
    assert_eq!(all_fields(&session.headers), vec![one("host", "localhost:8080"), one("accept", "*/*")]);
    assert_eq!(ctx, FilterState::GuardEvaluated { dispatch: false });
    let snapshot = proxy.capture_snapshot(&session, Ok(None), &mut ctx);
    assert!(snapshot.is_none());
}

#[test]
fn snapshot_is_given_once_after_a_dispatch_verdict() {
    let proxy = DualWriteProxy::standard();
    let mut ctx = proxy.new_ctx();
    proxy.upstream_peer(&mut ctx).unwrap();
    let mut session = get_users();
    let mut upstream = session.headers.duplicate();
    proxy.upstream_request_filter(&mut session, &mut upstream, &mut ctx);
    let snapshot = proxy.capture_snapshot(&session, Ok(Some(b"abc".to_vec())), &mut ctx).unwrap();
    assert_eq!(ctx, FilterState::SnapshotCaptured);
    assert_eq!(snapshot.method(), b"GET");
    assert_eq!(snapshot.uri(), b"http://127.0.0.1:3001/users");
    assert_eq!(snapshot.body(), b"abc");
    assert_eq!(all_fields(snapshot.headers()), all_fields(&session.headers));
    assert!(proxy.capture_snapshot(&session, Ok(Some(b"abc".to_vec())), &mut ctx).is_none());
    assert_eq!(ctx, FilterState::SnapshotCaptured);
}

#[test]
fn snapshot_is_given_after_a_failed_body_read() {
    let proxy = DualWriteProxy::standard();
    let mut ctx = FilterState::GuardEvaluated { dispatch: true };
    let session = get_users();
    let snapshot =
        proxy.capture_snapshot(&session, Err(BodyReadError::Unreadable), &mut ctx).unwrap();
    assert_eq!(snapshot.body(), b"");
    assert_eq!(ctx, FilterState::SnapshotCaptured);
}

#[test]
fn snapshot_is_refused_in_every_other_state() {
    let proxy = DualWriteProxy::standard();
    let session = get_users();
    for state in STATES {
        if state == (FilterState::GuardEvaluated { dispatch: true }) {
            continue;
        }
        let mut ctx = state;
        assert!(proxy.capture_snapshot(&session, Ok(None), &mut ctx).is_none(), "{:?}", state);
        assert_eq!(ctx, state);
    }
}

#[test]
fn response_filter_annotates() {
    let proxy = DualWriteProxy::standard();
    let mut ctx = FilterState::PrimaryDispatched;
    let mut response = HeaderSet::new();
    response.append(b"content-type", b"application/json").unwrap();
    assert_eq!(
        proxy.upstream_response_filter(&mut response, &mut ctx),
        ResponseFilterReport { annotation: Annotation::Applied }
    );
    assert_eq!(
        all_fields(&response),
        vec![one("content-type", "application/json"), one("user-content", "response by kevin")]
    );
    assert_eq!(ctx, FilterState::ResponseDecorated);
    proxy.finish(&mut ctx);
    assert_eq!(ctx, FilterState::Completed);
}

#[test]
fn response_filter_survives_a_bad_annotation() {
    let proxy = DualWriteProxy::new(
        PeerResolver::standard(),
        IdempotencyGuard::standard(),
        HeaderDecorator::new(b"user-content", b"dual-write", b"user-content", b"bad\x01tag"),
    );
    let mut ctx = FilterState::PrimaryDispatched;
    let mut response = HeaderSet::new();
    response.append(b"content-type", b"text/plain").unwrap();
    assert_eq!(
        proxy.upstream_response_filter(&mut response, &mut ctx),
        ResponseFilterReport {
            annotation: Annotation::LeftOut(HeaderMutationError::InvalidValue)
        }
    );
    assert_eq!(all_fields(&response), vec![one("content-type", "text/plain")]);
    assert_eq!(ctx, FilterState::ResponseDecorated);
}

#[test]
fn response_filter_survives_a_bad_header_name() {
    let proxy = DualWriteProxy::new(
        PeerResolver::standard(),
        IdempotencyGuard::standard(),
        HeaderDecorator::new(b"user-content", b"dual-write", b"user content", b"tag"),
    );
    let mut ctx = FilterState::PrimaryDispatched;
    let mut response = HeaderSet::new();
    response.append(b"content-type", b"text/plain").unwrap();
    response.append(b"user-content", b"from upstream").unwrap();
    let before = all_fields(&response);
    let report = proxy.upstream_response_filter(&mut response, &mut ctx);
    assert_eq!(report.annotation, Annotation::LeftOut(HeaderMutationError::InvalidName));
    assert_eq!(all_fields(&response), before);
    assert_eq!(ctx, FilterState::ResponseDecorated);
}

#[test]
fn response_filter_leaves_a_decorated_response_alone() {
    let proxy = DualWriteProxy::standard();
    let mut ctx = FilterState::PrimaryDispatched;
    let mut response = HeaderSet::new();
    response.append(b"user-content", b"response by kevin").unwrap();
    response.append(b"content-type", b"application/json").unwrap();
    let before = all_fields(&response);
    let report = proxy.upstream_response_filter(&mut response, &mut ctx);
    assert_eq!(report.annotation, Annotation::Applied);
    assert_eq!(all_fields(&response), before);
    let mut again = FilterState::PrimaryDispatched;
    proxy.upstream_response_filter(&mut response, &mut again);
    assert_eq!(all_fields(&response), before);
}

#[test]
fn response_filter_replaces_a_foreign_value_in_place() {
    let proxy = DualWriteProxy::standard();
    let mut ctx = FilterState::PrimaryDispatched;
    let mut response = HeaderSet::new();
    response.append(b"content-type", b"application/json").unwrap();
    response.append(b"User-Content", b"from upstream").unwrap();
    response.append(b"content-length", b"17").unwrap();
    response.append(b"user-content", b"and again").unwrap();
    proxy.upstream_response_filter(&mut response, &mut ctx);
    assert_eq!(
        all_fields(&response),
        vec![
            one("content-type", "application/json"),
            one("user-content", "response by kevin"),
            one("content-length", "17"),
        ]
    );
}

#[test]
fn request_filter_leaves_an_annotated_request_alone() {
    let proxy = DualWriteProxy::standard();
    let mut ctx = FilterState::PeerSelected;
    let mut session = get_users();
    let mut upstream = HeaderSet::new();
    upstream.append(b"user-content", b"dual-write").unwrap();
    upstream.append(b"host", b"localhost:8080").unwrap();
    let before = all_fields(&upstream);
    let report = proxy.upstream_request_filter(&mut session, &mut upstream, &mut ctx);
    assert_eq!(report.annotation, Annotation::Applied);
    assert_eq!(all_fields(&upstream), before);
}

#[test]
fn primary_dispatched_moves_the_record() {
    let proxy = DualWriteProxy::standard();
    let mut ctx = FilterState::GuardEvaluated { dispatch: false };
    proxy.primary_dispatched(&mut ctx);
    assert_eq!(ctx, FilterState::PrimaryDispatched);
    let mut ctx = FilterState::SnapshotCaptured;
    proxy.primary_dispatched(&mut ctx);
    assert_eq!(ctx, FilterState::PrimaryDispatched);
    let mut ctx = FilterState::GuardEvaluated { dispatch: true };
    proxy.primary_dispatched(&mut ctx);
    assert_eq!(ctx, FilterState::GuardEvaluated { dispatch: true });
}
