use http_transport::error::Error;
use http_transport::types::{HttpRequest, Method};

fn bad_header_request() -> HttpRequest {
    HttpRequest {
        method: Method::Get,
        // port 1 on loopback: nothing must ever connect, and nothing listens
        uri: b"http://127.0.0.1:1/".to_vec(),
        headers: vec![(b"x-raw".to_vec(), vec![0xc3, 0x28, 0xff])],
        body: Vec::new(),
    }
}

fn plain_request() -> HttpRequest {
    HttpRequest {
        method: Method::Get,
        uri: b"http://127.0.0.1:1/".to_vec(),
        headers: vec![(b"x-probe".to_vec(), b"1".to_vec())],
        body: Vec::new(),
    }
}

#[test]
fn ureq_rejects_undecodable_header_before_any_exchange() {
    // the target cannot be connected to, so reaching the network would fail
    // with a transport error; the encoding error shows the call never left
    match http_transport::ureq::http_client(bad_header_request()) {
        Err(Error::Encoding { name, value }) => {
            assert_eq!(name, b"x-raw".to_vec());
            assert_eq!(value, vec![0xc3, 0x28, 0xff]);
        },
        _ => panic!("expected an encoding error"),
    }
}

#[test]
fn reqwest_rejects_undecodable_header_before_any_exchange() {
    match http_transport::reqwest::http_client(bad_header_request()) {
        Err(Error::Encoding { name, .. }) => assert_eq!(name, b"x-raw".to_vec()),
        _ => panic!("expected an encoding error"),
    }
}

#[test]
fn curl_rejects_undecodable_header_before_any_exchange() {
    match http_transport::curl::http_client(bad_header_request()) {
        Err(Error::Encoding { name, .. }) => assert_eq!(name, b"x-raw".to_vec()),
        _ => panic!("expected an encoding error"),
    }
}

#[test]
fn ureq_reports_a_refused_connection_as_transport_error() {
    match http_transport::ureq::http_client(plain_request()) {
        Err(Error::Transport(_)) => {},
        _ => panic!("expected a transport error"),
    }
}

#[test]
fn reqwest_reports_a_refused_connection_as_transport_error() {
    match http_transport::reqwest::http_client(plain_request()) {
        Err(Error::Transport(_)) => {},
        _ => panic!("expected a transport error"),
    }
}

#[test]
fn curl_reports_a_refused_connection_as_transport_error() {
    match http_transport::curl::http_client(plain_request()) {
        Err(Error::Transport(_)) => {},
        _ => panic!("expected a transport error"),
    }
}

#[test]
fn post_to_refused_connection_is_a_transport_error() {
    let req = HttpRequest {
        method: Method::Post,
        uri: b"http://127.0.0.1:1/".to_vec(),
        headers: vec![(b"content-type".to_vec(), b"text/plain".to_vec())],
        body: b"payload".to_vec(),
    };
    match http_transport::ureq::http_client(req) {
        Err(Error::Transport(_)) => {},
        _ => panic!("expected a transport error"),
    }
    let req = HttpRequest {
        method: Method::Post,
        uri: b"http://127.0.0.1:1/".to_vec(),
        headers: Vec::new(),
        body: b"payload".to_vec(),
    };
    match http_transport::curl::http_client(req) {
        Err(Error::Transport(_)) => {},
        _ => panic!("expected a transport error"),
    }
}
