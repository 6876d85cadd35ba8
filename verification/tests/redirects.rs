//! Tests for the response side of the pipeline: the Location rewrite, the
//! derived proxy origin, status pass-through, and the proxy's own error
//! responses.

use pathproxy::headers::Header;
use pathproxy::request::{prepare_upstream, PrepareOutcome};
use pathproxy::response::{
    get_request_origin, process_location_header, proxy_error_response, translate_response,
    upstream_failure_response,
};
use pathproxy::urls::{extract_target, TargetUrl};

fn hdr(name: &str, value: &[u8]) -> Header {
    Header { name: name.to_string(), value: value.to_vec() }
}

fn target(path: &str) -> TargetUrl {
    extract_target(path).expect("target parses")
}

fn location_values(headers: &[Header]) -> Vec<Vec<u8>> {
    headers
        .iter()
        .filter(|h| h.name.eq_ignore_ascii_case("location"))
        .map(|h| h.value.clone())
        .collect()
}

#[test]
fn absolute_location_is_wrapped_under_proxy_origin() {
    let req_headers = vec![hdr("host", b"proxy.test:1234")];
    let resp_headers = vec![hdr("location", b"https://example.com/next")];
    let r = translate_response(
        302,
        &resp_headers,
        vec![],
        &req_headers,
        None,
        &target("/https://example.com/"),
    );
    assert_eq!(r.status, 302);
    assert_eq!(
        location_values(&r.headers),
        vec![b"http://proxy.test:1234/https://example.com/next".to_vec()]
    );
}

#[test]
fn root_relative_location_gets_both_origins() {
    let req_headers = vec![hdr("host", b"proxy.test:1234")];
    let resp_headers = vec![hdr("location", b"/next")];
    let r = translate_response(
        302,
        &resp_headers,
        vec![],
        &req_headers,
        None,
        &target("/https://example.com:8443/foo"),
    );
    assert_eq!(
        location_values(&r.headers),
        vec![b"http://proxy.test:1234https://example.com:8443/next".to_vec()]
    );
}

#[test]
fn origin_header_wins_over_host() {
    let headers = vec![hdr("origin", b"https://seen.example"), hdr("host", b"h.test")];
    assert_eq!(get_request_origin(&headers, Some("https")), "https://seen.example");
}

#[test]
fn origin_falls_back_to_scheme_and_host() {
    let headers = vec![hdr("host", b"h.test:9")];
    assert_eq!(get_request_origin(&headers, Some("https")), "https://h.test:9");
    assert_eq!(get_request_origin(&headers, None), "http://h.test:9");
}

#[test]
fn origin_defaults_when_host_is_missing_or_invalid() {
    assert_eq!(get_request_origin(&vec![], None), "http://localhost:1234");
    let bad = vec![hdr("host", b"h\xffost")];
    assert_eq!(get_request_origin(&bad, None), "http://localhost:1234");
}

#[test]
fn relative_location_is_left_alone() {
    let req_headers = vec![hdr("host", b"proxy.test:1234")];
    let resp_headers = vec![hdr("location", b"next/page")];
    let r = translate_response(
        302,
        &resp_headers,
        vec![],
        &req_headers,
        None,
        &target("/https://example.com/"),
    );
    assert_eq!(location_values(&r.headers), vec![b"next/page".to_vec()]);
}

#[test]
fn unparseable_absolute_location_is_left_alone() {
    let req_headers = vec![hdr("host", b"proxy.test:1234")];
    let resp_headers = vec![hdr("location", b"http://")];
    let r = translate_response(
        301,
        &resp_headers,
        vec![],
        &req_headers,
        None,
        &target("/https://example.com/"),
    );
    assert_eq!(location_values(&r.headers), vec![b"http://".to_vec()]);
}

#[test]
fn non_utf8_location_is_forwarded_unchanged() {
    let req_headers = vec![hdr("host", b"proxy.test:1234")];
    let resp_headers = vec![hdr("location", b"/nxt\xff")];
    let r = translate_response(
        302,
        &resp_headers,
        vec![],
        &req_headers,
        None,
        &target("/https://example.com/"),
    );
    assert_eq!(location_values(&r.headers), vec![b"/nxt\xff".to_vec()]);
}

#[test]
fn only_first_location_survives_a_rewrite() {
    let req_headers = vec![hdr("host", b"proxy.test:1234")];
    let resp_headers = vec![
        hdr("x-a", b"1"),
        hdr("location", b"https://example.com/next"),
        hdr("x-b", b"2"),
        hdr("location", b"https://example.com/other"),
    ];
    let r = translate_response(
        302,
        &resp_headers,
        vec![],
        &req_headers,
        None,
        &target("/https://example.com/"),
    );
    let names: Vec<&str> = r.headers.iter().map(|h| h.name.as_str()).collect();
    assert_eq!(names, vec!["x-a", "location", "x-b"]);
    assert_eq!(
        location_values(&r.headers),
        vec![b"http://proxy.test:1234/https://example.com/next".to_vec()]
    );
}

#[test]
fn location_name_matching_ignores_case() {
    let req_headers = vec![hdr("host", b"proxy.test:1234")];
    let resp_headers = vec![hdr("Location", b"https://example.com/next")];
    let r = translate_response(
        302,
        &resp_headers,
        vec![],
        &req_headers,
        None,
        &target("/https://example.com/"),
    );
    assert_eq!(r.headers[0].name, "Location");
    assert_eq!(
        location_values(&r.headers),
        vec![b"http://proxy.test:1234/https://example.com/next".to_vec()]
    );
}

#[test]
fn status_and_body_pass_through() {
    let req_headers = vec![hdr("host", b"proxy.test:1234")];
    let body: Vec<u8> = (0u16..300).map(|i| (i % 251) as u8).collect();
    for status in [200u16, 204, 302, 404, 500, 503] {
        let r = translate_response(
            status,
            &vec![hdr("content-type", b"application/octet-stream")],
            body.clone(),
            &req_headers,
            None,
            &target("/https://example.com/"),
        );
        assert_eq!(r.status, status);
        assert_eq!(r.body, body);
        assert_eq!(r.headers.len(), 1);
        assert_eq!(r.headers[0].value, b"application/octet-stream".to_vec());
    }
}

#[test]
fn rewritten_location_routes_back_to_the_same_target() {
    let req_headers = vec![hdr("host", b"proxy.test:1234")];
    let original = "https://example.com/next?p=2";
    let rewritten = process_location_header(
        original,
        &req_headers,
        None,
        &target("/https://example.com/"),
    )
    .expect("absolute locations are rewritten");
    let origin = "http://proxy.test:1234";
    assert!(rewritten.starts_with(origin));
    let fed_back_path = &rewritten[origin.len()..];
    let again = match prepare_upstream("GET".to_string(), fed_back_path, &vec![], vec![]) {
        PrepareOutcome::Forward(u) => u,
        PrepareOutcome::BadTarget => panic!("rewritten location must stay routable"),
    };
    let direct = target("/https://example.com/next?p=2");
    assert_eq!(again.target.serialized, direct.serialized);
    assert_eq!(again.target.host, direct.host);
    assert_eq!(again.target.scheme, direct.scheme);
}

#[test]
fn upstream_failure_is_502_with_message() {
    let r = upstream_failure_response("connection refused");
    assert_eq!(r.status, 502);
    assert!(r.headers.is_empty());
    assert_eq!(r.body, b"Request failed: connection refused".to_vec());
}

#[test]
fn pipeline_failure_is_500_with_message() {
    let r = proxy_error_response("boom");
    assert_eq!(r.status, 500);
    assert!(r.headers.is_empty());
    assert_eq!(r.body, b"Proxy error: boom".to_vec());
}
