use simple_proxy::dispatch::ShadowOutcome;
use simple_proxy::exchange::run_exchange;
use simple_proxy::filter::FilterState;
use simple_proxy::header::HeaderSet;
use simple_proxy::peer::PeerDescriptor;
use simple_proxy::snapshot::{RequestHead, RequestSnapshot};
use simple_proxy::target::{path_and_query_of, path_start_of};
use simple_proxy::DualWriteProxy;

fn shadow_uri(target: &[u8]) -> Vec<u8> {
    let shadow = PeerDescriptor::new(b"127.0.0.1", 3001, b"http", false);
    let request = RequestHead::new(b"GET", target, HeaderSet::new());
    RequestSnapshot::capture(&shadow, &request, Ok(None)).uri().to_vec()
}

#[test]
fn origin_form_is_path_and_query_throughout() {
    for target in [&b"/"[..], b"/users", b"/users?id=7", b"/a/../b/./c//d?q=1#frag", b"//double"] {
        assert_eq!(path_start_of(target), 0);
        assert_eq!(path_and_query_of(target), target);
    }
}

#[test]
fn origin_form_with_a_uri_in_its_query_is_left_whole() {
    let target = b"/redirect?to=http://example.com/users";
    assert_eq!(path_start_of(target), 0);
    assert_eq!(path_and_query_of(target), &target[..]);
}

#[test]
fn absolute_form_gives_what_follows_the_authority() {
    assert_eq!(path_start_of(b"http://example.com/users?id=7"), 18);
    assert_eq!(path_and_query_of(b"http://example.com/users?id=7"), b"/users?id=7");
    assert_eq!(path_and_query_of(b"https://example.com:8443/a/b"), b"/a/b");
    assert_eq!(path_and_query_of(b"HTTP://EXAMPLE.COM/Users"), b"/Users");
    assert_eq!(path_and_query_of(b"http://user:pw@example.com/x"), b"/x");
    assert_eq!(path_and_query_of(b"http://[::1]:3000/x?y=z"), b"/x?y=z");
    assert_eq!(path_and_query_of(b"svn+ssh://host.example/repo"), b"/repo");
}

#[test]
fn absolute_form_without_a_path_keeps_its_query() {
    assert_eq!(path_and_query_of(b"http://example.com?id=7"), b"?id=7");
    assert_eq!(path_and_query_of(b"http://example.com#top"), b"#top");
}

#[test]
fn absolute_form_without_path_and_query_gives_nothing() {
    assert_eq!(path_and_query_of(b"http://example.com"), b"");
    assert_eq!(path_start_of(b"http://example.com"), 18);
    assert_eq!(path_and_query_of(b"http://"), b"");
}

#[test]
fn other_forms_have_no_path_and_no_query() {
    for target in [
        &b""[..],
        b"*",
        b"example.com:443",
        b"example.com",
        b"users?id=7",
        b"http:/example.com/x",
        b"http:example.com/x",
        b"://example.com/x",
        b"1http://example.com/x",
        b"+http://example.com/x",
        b"ht tp://example.com/x",
        b"http:/",
        b"http:",
        b"http",
    ] {
        assert_eq!(path_start_of(target), target.len(), "{:?}", target);
        assert_eq!(path_and_query_of(target), b"", "{:?}", target);
    }
}

#[test]
fn path_and_query_agree_with_the_http_crate_on_whole_uris() {
    for target in [
        "http://example.com/users?id=7",
        "https://example.com:8443/a/b",
        "http://example.com/",
        "http://127.0.0.1:3000/x/y/z?k=v&k2=v2",
        "/users?id=7",
        "/",
        "/a%20b?c=%2F",
    ] {
        let uri: http::Uri = target.parse().unwrap();
        let expected = uri.path_and_query().unwrap().as_str();
        assert_eq!(path_and_query_of(target.as_bytes()), expected.as_bytes(), "{}", target);
    }
}

#[test]
fn snapshot_of_an_origin_form_target() {
    assert_eq!(shadow_uri(b"/users?id=7"), b"http://127.0.0.1:3001/users?id=7".to_vec());
}

#[test]
fn snapshot_of_an_absolute_form_target_leaves_the_named_host_behind() {
    assert_eq!(
        shadow_uri(b"http://example.com/users?id=7"),
        b"http://127.0.0.1:3001/users?id=7".to_vec()
    );
    assert_eq!(shadow_uri(b"https://example.com:8443/users"), b"http://127.0.0.1:3001/users".to_vec());
    assert_eq!(shadow_uri(b"http://example.com"), b"http://127.0.0.1:3001".to_vec());
    assert_eq!(shadow_uri(b"http://example.com?id=7"), b"http://127.0.0.1:3001?id=7".to_vec());
}

#[test]
fn snapshot_of_a_target_without_path() {
    assert_eq!(shadow_uri(b"*"), b"http://127.0.0.1:3001".to_vec());
    assert_eq!(shadow_uri(b"example.com:443"), b"http://127.0.0.1:3001".to_vec());
}

#[test]
fn mirrored_uri_mirrors_to_the_same_path() {
    let first = shadow_uri(b"/users?id=7");
    assert_eq!(shadow_uri(&first), first);
}

#[test]
fn get_with_an_absolute_form_target_is_mirrored_by_path_and_query() {
    let proxy = DualWriteProxy::standard();
    let mut headers = HeaderSet::new();
    headers.append(b"host", b"example.com").unwrap();
    let mut session = RequestHead::new(b"GET", b"http://example.com/users?id=7", headers);
    let mut upstream = session.headers.duplicate();
    let mut response = HeaderSet::new();
    let outcome =
        ShadowOutcome::Response { status: 200, headers: HeaderSet::new(), body: Ok(Vec::new()) };
    let record =
        run_exchange(&proxy, &mut session, &mut upstream, Ok(None), &mut response, &outcome);
    assert!(!record.refused);
    assert_eq!(record.state, FilterState::Completed);
    assert_eq!(record.shadow_calls.len(), 1);
    let call = &record.shadow_calls[0];
    assert_eq!(call.uri, b"http://127.0.0.1:3001/users?id=7".to_vec());
    assert_eq!(call.uri.len(), 32);
    assert_eq!(call.method, b"GET".to_vec());
    assert_eq!(call.body, Vec::<u8>::new());
    assert_eq!(call.headers.get(b"host"), Some(&b"example.com"[..]));
    assert_eq!(call.headers.get(b"x-dual-write-executed"), Some(&b"true"[..]));
    assert_eq!(session.target, b"http://example.com/users?id=7".to_vec());
}

#[test]
fn hooks_mirror_an_absolute_form_target_by_path_and_query() {
    let proxy = DualWriteProxy::standard();
    let mut ctx = proxy.new_ctx();
    proxy.upstream_peer(&mut ctx).unwrap();
    let mut headers = HeaderSet::new();
    headers.append(b"host", b"example.com").unwrap();
    let mut session = RequestHead::new(b"GET", b"http://example.com/users?id=7", headers);
    let mut upstream = session.headers.duplicate();
    let report = proxy.upstream_request_filter(&mut session, &mut upstream, &mut ctx);
    assert!(report.verdict.dispatch());
    let snapshot = proxy.capture_snapshot(&session, Ok(None), &mut ctx).unwrap();
    assert_eq!(snapshot.uri(), b"http://127.0.0.1:3001/users?id=7");
}
