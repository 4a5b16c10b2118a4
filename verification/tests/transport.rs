use http_transport::convert::{prepare_request, response_from_raw, RawResponse};
use http_transport::error::Error;
use http_transport::headers::{header_line, parse_header_line, render_lines, request_is_wf};
use http_transport::types::{HttpRequest, Method, ProtocolVersion};

fn get_request(uri: &[u8], headers: Vec<(Vec<u8>, Vec<u8>)>) -> HttpRequest {
    HttpRequest { method: Method::Get, uri: uri.to_vec(), headers, body: Vec::new() }
}

fn post_request(uri: &[u8], headers: Vec<(Vec<u8>, Vec<u8>)>, body: &[u8]) -> HttpRequest {
    HttpRequest { method: Method::Post, uri: uri.to_vec(), headers, body: body.to_vec() }
}

#[test]
fn header_line_round_trip_concrete() {
    let name = b"content-type".to_vec();
    let value = b"text/plain; charset=utf-8".to_vec();
    let line = header_line(&name, &value);
    assert_eq!(line, b"content-type: text/plain; charset=utf-8".to_vec());
    let parsed = parse_header_line(&line).expect("a serialized header must parse");
    assert_eq!(parsed.0, name);
    assert_eq!(parsed.1, value);
}

#[test]
fn header_line_round_trip_keeps_value_bytes() {
    // a value may itself hold colons and spaces; the split is at the first colon
    let name = b"x-probe".to_vec();
    let value = b"a: b: c".to_vec();
    let line = header_line(&name, &value);
    let parsed = parse_header_line(&line).expect("a serialized header must parse");
    assert_eq!(parsed.0, name);
    assert_eq!(parsed.1, value);
}

#[test]
fn parse_header_line_rejects_malformed() {
    assert!(parse_header_line(&b"no separator".to_vec()).is_none());
    assert!(parse_header_line(&b"name:value".to_vec()).is_none());
    assert!(parse_header_line(&b"name:".to_vec()).is_none());
}

#[test]
fn render_lines_serializes_each_header() {
    let headers = vec![
        (b"host".to_vec(), b"example.org".to_vec()),
        (b"accept".to_vec(), b"*/*".to_vec()),
    ];
    let lines = render_lines(&headers);
    assert_eq!(lines.len(), 2);
    assert_eq!(lines[0], b"host: example.org".to_vec());
    assert_eq!(lines[1], b"accept: */*".to_vec());
}

#[test]
fn prepare_post_declares_exact_length() {
    let body = b"hello";
    let req = post_request(b"http://example.org/x", vec![(b"x-a".to_vec(), b"1".to_vec())], body);
    let call = prepare_request(req).expect("text headers must be accepted");
    assert_eq!(call.content_length, 5);
    assert_eq!(call.body, body.to_vec());
    assert_eq!(call.uri, b"http://example.org/x".to_vec());
    assert_eq!(call.headers, vec![(b"x-a".to_vec(), b"1".to_vec())]);
    assert!(matches!(call.method, Method::Post));
}

#[test]
fn prepare_never_enables_redirects() {
    let get = get_request(b"http://example.org/", Vec::new());
    let call = prepare_request(get).expect("a plain GET must be accepted");
    assert!(!call.follow_redirects);
    assert_eq!(call.content_length, 0);
    let post = post_request(b"http://example.org/", Vec::new(), b"payload");
    let call = prepare_request(post).expect("a plain POST must be accepted");
    assert!(!call.follow_redirects);
}

#[test]
fn prepare_rejects_first_undecodable_value() {
    let headers = vec![
        (b"x-ok".to_vec(), b"fine".to_vec()),
        (b"x-bad".to_vec(), vec![0xff, 0x01]),
        (b"x-worse".to_vec(), vec![0x80]),
    ];
    let req = get_request(b"http://example.org/", headers);
    match prepare_request(req) {
        Err(Error::Encoding { name, value }) => {
            assert_eq!(name, b"x-bad".to_vec());
            assert_eq!(value, vec![0xff, 0x01]);
        },
        _ => panic!("a non-text header value must be rejected"),
    }
}

#[test]
fn prepare_accepts_tab_and_visible_ascii() {
    let headers = vec![(b"x-a".to_vec(), b"a\tb ~".to_vec())];
    let req = get_request(b"http://example.org/", headers);
    assert!(prepare_request(req).is_ok());
}

#[test]
fn prepare_rejects_newline_in_value() {
    let headers = vec![(b"x-a".to_vec(), b"a\nb".to_vec())];
    let req = get_request(b"http://example.org/", headers);
    assert!(matches!(prepare_request(req), Err(Error::Encoding { .. })));
}

#[test]
fn status_and_body_copied_verbatim() {
    let raw = RawResponse {
        status: 404,
        version: b"HTTP/1.1".to_vec(),
        headers: vec![(b"content-type".to_vec(), b"text/plain".to_vec())],
        body: b"not found".to_vec(),
    };
    let resp = response_from_raw(raw).expect("status 404 is structurally valid");
    assert_eq!(resp.status, 404);
    assert_eq!(resp.version, ProtocolVersion::Http11);
    assert_eq!(resp.headers, vec![(b"content-type".to_vec(), b"text/plain".to_vec())]);
    assert_eq!(resp.body, b"not found".to_vec());
}

#[test]
fn redirect_response_fields_survive_conversion() {
    let raw = RawResponse {
        status: 302,
        version: b"HTTP/1.1".to_vec(),
        headers: vec![(b"location".to_vec(), b"http://example.org/next".to_vec())],
        body: b"moved".to_vec(),
    };
    let resp = response_from_raw(raw).expect("a 3xx response is returned as served");
    assert_eq!(resp.status, 302);
    assert_eq!(resp.headers[0].1, b"http://example.org/next".to_vec());
    assert_eq!(resp.body, b"moved".to_vec());
}

#[test]
fn out_of_range_status_is_a_protocol_error() {
    let raw = RawResponse { status: 99, version: Vec::new(), headers: Vec::new(), body: Vec::new() };
    assert!(matches!(response_from_raw(raw), Err(Error::Protocol(99))));
    let raw = RawResponse { status: 1000, version: Vec::new(), headers: Vec::new(), body: Vec::new() };
    assert!(matches!(response_from_raw(raw), Err(Error::Protocol(1000))));
    let raw = RawResponse { status: 100, version: Vec::new(), headers: Vec::new(), body: Vec::new() };
    assert!(response_from_raw(raw).is_ok());
    let raw = RawResponse { status: 999, version: Vec::new(), headers: Vec::new(), body: Vec::new() };
    assert!(response_from_raw(raw).is_ok());
}

#[test]
fn version_texts_parse_to_their_versions() {
    let cases: Vec<(&[u8], ProtocolVersion)> = vec![
        (b"HTTP/0.9", ProtocolVersion::Http09),
        (b"HTTP/1.0", ProtocolVersion::Http10),
        (b"HTTP/1.1", ProtocolVersion::Http11),
        (b"HTTP/2.0", ProtocolVersion::Http2),
        (b"HTTP/3.0", ProtocolVersion::Http3),
    ];
    for (text, version) in cases {
        let raw = RawResponse {
            status: 200,
            version: text.to_vec(),
            headers: Vec::new(),
            body: Vec::new(),
        };
        let resp = response_from_raw(raw).unwrap();
        assert_eq!(resp.version, version);
    }
}

#[test]
fn unknown_version_text_falls_back_to_http11() {
    for text in [&b"SPDY/3.0"[..], &b"HTTP/1.1x"[..], &b""[..], &b"HTTP/9.9"[..]] {
        let raw = RawResponse {
            status: 200,
            version: text.to_vec(),
            headers: Vec::new(),
            body: Vec::new(),
        };
        assert_eq!(response_from_raw(raw).unwrap().version, ProtocolVersion::Http11);
    }
}

#[test]
fn conversion_is_deterministic_on_equal_reports() {
    let make = || RawResponse {
        status: 206,
        version: b"HTTP/2.0".to_vec(),
        headers: vec![(b"etag".to_vec(), b"\"abc\"".to_vec())],
        body: b"partial".to_vec(),
    };
    let a = response_from_raw(make()).unwrap();
    let b = response_from_raw(make()).unwrap();
    assert_eq!(a.status, b.status);
    assert_eq!(a.version, b.version);
    assert_eq!(a.headers, b.headers);
    assert_eq!(a.body, b.body);
}

#[test]
fn request_well_formedness_is_checked() {
    assert!(request_is_wf(&get_request(b"http://example.org/", Vec::new())));
    // a GET that carries a body violates the precondition
    let mut get = get_request(b"http://example.org/", Vec::new());
    get.body = b"x".to_vec();
    assert!(!request_is_wf(&get));
    // an empty URI violates it
    assert!(!request_is_wf(&get_request(b"", Vec::new())));
    // a header name with a space is no token
    let req = get_request(b"http://example.org/", vec![(b"bad name".to_vec(), b"v".to_vec())]);
    assert!(!request_is_wf(&req));
    // a non-text value does not make the request ill-formed; it is rejected later
    let req = get_request(b"http://example.org/", vec![(b"x-a".to_vec(), vec![0xff])]);
    assert!(request_is_wf(&req));
}

#[test]
fn error_kinds_are_labelled() {
    assert_eq!(Error::Transport(String::new()).kind(), "transport");
    assert_eq!(Error::Protocol(99).kind(), "protocol");
    assert_eq!(Error::Encoding { name: Vec::new(), value: Vec::new() }.kind(), "encoding");
}
