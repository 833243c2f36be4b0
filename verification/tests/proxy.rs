use tokenproxy::relay::{
    assembly_failure_reply, filter_request_headers, header_is_host, not_found_reply, plan_request,
    reply_for_outcome, Header, ReplyBody, ResponseHead, UpstreamOutcome,
};
use tokenproxy::router::{resolve_request, str_has_prefix};

fn header(name: &str, value: &str) -> Header {
    Header { name: name.to_string(), value: value.as_bytes().to_vec() }
}

#[test]
fn unauthorized_path_is_rejected() {
    assert_eq!(resolve_request("secret", "/other", None), None);
    assert_eq!(resolve_request("secret", "secre", None), None);
    assert_eq!(resolve_request("secret", "Secretx", None), None);
    assert_eq!(resolve_request("secret", "xsecret", None), None);
    assert_eq!(resolve_request("secret", "/other", Some("a=1")), None);
}

#[test]
fn unauthorized_plan_is_rejected_for_any_method() {
    for method in ["GET", "POST", "DELETE"] {
        let plan = plan_request(
            "secret",
            method.to_string(),
            "wrong",
            Some("a=1"),
            vec![header("accept", "*/*")],
        );
        assert!(plan.is_none());
    }
}

#[test]
fn empty_token_rejects_everything() {
    assert_eq!(resolve_request("", "", None), None);
    assert_eq!(resolve_request("", "anything", None), None);
    assert_eq!(resolve_request("", "https://example.com", None), None);
}

#[test]
fn exact_token_resolves_to_empty_host() {
    assert_eq!(resolve_request("secret", "secret", None), Some("https://".to_string()));
}

#[test]
fn implicit_scheme_added() {
    assert_eq!(
        resolve_request("secret", "secretexample.com/foo", None),
        Some("https://example.com/foo".to_string())
    );
}

#[test]
fn explicit_http_scheme_preserved() {
    assert_eq!(
        resolve_request("secret", "secrethttp://example.com/foo", None),
        Some("http://example.com/foo".to_string())
    );
}

#[test]
fn collapsed_marker_normalized() {
    assert_eq!(
        resolve_request("secret", "secrethttp:/example.com", None),
        Some("http://example.com".to_string())
    );
    assert_eq!(
        resolve_request("secret", "secrethttps:/example.com", None),
        Some("https://example.com".to_string())
    );
}

#[test]
fn marker_without_slash_is_no_marker() {
    assert_eq!(
        resolve_request("secret", "secrethttp:example.com", None),
        Some("https://http:example.com".to_string())
    );
}

#[test]
fn marker_past_the_front_is_untouched() {
    assert_eq!(
        resolve_request("secret", "secretfoo/http://bar", None),
        Some("https://foo/http://bar".to_string())
    );
}

#[test]
fn leading_slashes_trimmed() {
    assert_eq!(
        resolve_request("secret", "secret/example.com", None),
        Some("https://example.com".to_string())
    );
    assert_eq!(
        resolve_request("secret", "secret///example.com", None),
        Some("https://example.com".to_string())
    );
}

#[test]
fn query_appended_verbatim() {
    assert_eq!(
        resolve_request("secret", "secretexample.com/foo", Some("a=1&b=2")),
        Some("https://example.com/foo?a=1&b=2".to_string())
    );
    // Not re-encoded: whatever the query holds is carried through.
    assert_eq!(
        resolve_request("secret", "secretexample.com", Some("q=a%20b&x=%2F")),
        Some("https://example.com?q=a%20b&x=%2F".to_string())
    );
}

#[test]
fn prefix_check_is_plain_comparison() {
    assert!(str_has_prefix("secretx", "secret"));
    assert!(str_has_prefix("secret", "secret"));
    assert!(!str_has_prefix("secre", "secret"));
    assert!(!str_has_prefix("Secret", "secret"));
    assert!(str_has_prefix("anything", ""));
}

#[test]
fn host_name_recognized_in_any_case() {
    assert!(header_is_host("host"));
    assert!(header_is_host("Host"));
    assert!(header_is_host("HOST"));
    assert!(!header_is_host("hos"));
    assert!(!header_is_host("hostt"));
    assert!(!header_is_host("x-host"));
}

#[test]
fn host_header_never_forwarded() {
    let filtered = filter_request_headers(vec![
        header("host", "proxy.local"),
        header("accept", "*/*"),
        header("Host", "again"),
        header("x-host", "kept"),
    ]);
    assert_eq!(filtered.len(), 2);
    assert_eq!(filtered[0].name, "accept");
    assert_eq!(filtered[0].value, b"*/*".to_vec());
    assert_eq!(filtered[1].name, "x-host");
    assert_eq!(filtered[1].value, b"kept".to_vec());
}

#[test]
fn plan_carries_method_target_and_filtered_headers() {
    let plan = plan_request(
        "t",
        "PUT".to_string(),
        "texample.com/a",
        Some("q=2"),
        vec![header("host", "proxy.local"), header("accept", "*/*")],
    )
    .unwrap();
    assert_eq!(plan.method, "PUT");
    assert_eq!(plan.target, "https://example.com/a?q=2");
    assert_eq!(plan.headers.len(), 1);
    assert_eq!(plan.headers[0].name, "accept");
}

#[test]
fn upstream_response_relayed_verbatim() {
    let reply = reply_for_outcome(UpstreamOutcome::Reached(ResponseHead {
        status: 503,
        headers: vec![header("x-test", "1")],
    }));
    assert_eq!(reply.status, 503);
    assert_eq!(reply.headers.len(), 1);
    assert_eq!(reply.headers[0].name, "x-test");
    assert_eq!(reply.headers[0].value, b"1".to_vec());
    // The body of the reply is the upstream body, piped through verbatim.
    assert!(matches!(reply.body, ReplyBody::UpstreamStream));
}

#[test]
fn transport_failure_becomes_bad_gateway() {
    let reply = reply_for_outcome(UpstreamOutcome::TransportFailed);
    assert_eq!(reply.status, 502);
    assert_eq!(reply.headers.len(), 0);
    match reply.body {
        ReplyBody::Diagnostic(m) => assert_eq!(m, "Proxy request failed"),
        ReplyBody::UpstreamStream => panic!("a transport failure has a diagnostic body"),
    }
}

#[test]
fn not_found_reply_text() {
    let reply = not_found_reply();
    assert_eq!(reply.status, 404);
    assert_eq!(reply.headers.len(), 0);
    match reply.body {
        ReplyBody::Diagnostic(m) => assert_eq!(m, "nothing to see here"),
        ReplyBody::UpstreamStream => panic!("a rejection has a diagnostic body"),
    }
}

#[test]
fn assembly_failure_is_internal_error() {
    let reply = assembly_failure_reply();
    assert_eq!(reply.status, 500);
    match reply.body {
        ReplyBody::Diagnostic(m) => assert_eq!(m, "Failed to construct response"),
        ReplyBody::UpstreamStream => panic!("an assembly failure has a diagnostic body"),
    }
}

#[test]
fn same_request_resolves_identically() {
    let first = resolve_request("secret", "secretexample.com/foo", Some("a=1"));
    let second = resolve_request("secret", "secretexample.com/foo", Some("a=1"));
    assert_eq!(first, second);
    assert!(first.is_some());
}
