//! The curl backend adapter.
//!
//! curl surfaces only the status code and the content type of a response,
//! so the converted response carries at most that one header, and its
//! protocol version is fixed to HTTP/1.1 — a documented approximation, not
//! a guarantee, since curl does not report the negotiated version here.

use vstd::prelude::*;

use crate::convert::{
    prepare_request, response_from_raw, send_contract, version_of, BackendCall, RawResponse,
};
pub use crate::error::Error;
use crate::headers::{header_line_spec, render_lines};
use crate::types::{HttpRequest, HttpResponse, Method, ProtocolVersion};

verus! {

#[verifier::external_type_specification]
#[verifier::external_body]
pub struct ExEasy(curl::easy::Easy);

/// Relies on `curl::easy::Easy` configuration: sets the URL and the
/// serialized header lines, which must be exactly the call's headers in
/// wire form. libcurl follows redirects only when `CURLOPT_FOLLOWLOCATION`
/// is enabled, which a fresh `Easy` handle leaves disabled, so the response
/// is returned as served.
#[verifier::external_body]
fn easy_with_url_and_headers(call: &BackendCall, lines: &Vec<Vec<u8>>) -> (r: Result<
    curl::easy::Easy,
    String,
>)
    requires
        call.wf(),
        lines@.len() == call.headers@.len(),
        forall|i: int|
            0 <= i < lines@.len() ==> (#[trigger] lines@[i])@ == header_line_spec(
                call.headers@[i].0@,
                call.headers@[i].1@,
            ),
{
    let mut e = curl::easy::Easy::new();
    e.url(std::str::from_utf8(&call.uri).unwrap()).map_err(|x| x.to_string())?;
    let mut list = curl::easy::List::new();
    for l in lines.iter() {
        list.append(std::str::from_utf8(l).unwrap()).map_err(|x| x.to_string())?;
    }
    e.http_headers(list).map_err(|x| x.to_string())?;
    Ok(e)
}

/// Relies on `curl::easy::Easy::post` and `post_fields_copy`: switches the
/// handle to POST and hands it the body, whose length libcurl declares
/// before the transfer begins.
#[verifier::external_body]
fn easy_enable_post(e: &mut curl::easy::Easy, body: &Vec<u8>) -> (r: Result<(), String>) {
    e.post(true).map_err(|x| x.to_string())?;
    e.post_fields_copy(body).map_err(|x| x.to_string())
}

/// Relies on `curl::easy::Transfer::perform` for one blocking HTTP
/// exchange, collecting the whole response body. Nothing is promised of the
/// outcome: it depends on the network.
#[verifier::external_body]
fn easy_perform(e: &mut curl::easy::Easy) -> (r: Result<Vec<u8>, String>) {
    let mut data = Vec::new();
    {
        let mut t = e.transfer();
        t.write_function(|d| {
            data.extend_from_slice(d);
            Ok(d.len())
        }).map_err(|x| x.to_string())?;
        t.perform().map_err(|x| x.to_string())?;
    }
    Ok(data)
}

/// Relies on `curl::easy::Easy::response_code` and `content_type`: what
/// curl surfaces of the response after a transfer.
#[verifier::external_body]
fn easy_report(e: &mut curl::easy::Easy) -> (r: Result<(u16, Option<Vec<u8>>), String>) {
    let status = e.response_code().map_err(|x| x.to_string())? as u16;
    let ct = e.content_type().map_err(|x| x.to_string())?.map(|s| s.as_bytes().to_vec());
    Ok((status, ct))
}

/// The version text every curl response is labelled with.
pub open spec fn http11_text_spec() -> Seq<u8> {
    seq![72u8, 84, 84, 80, 47, 49, 46, 49]
}

fn http11_text() -> (r: Vec<u8>)
    ensures
        r@ == http11_text_spec(),
{
    let mut r: Vec<u8> = Vec::new();
    r.push(72);
    r.push(84);
    r.push(84);
    r.push(80);
    r.push(47);
    r.push(49);
    r.push(46);
    r.push(49);
    assert(r@ =~= http11_text_spec());
    r
}

/// The name under which curl's reported content type is surfaced.
pub open spec fn content_type_name_spec() -> Seq<u8> {
    seq![99u8, 111, 110, 116, 101, 110, 116, 45, 116, 121, 112, 101]
}

fn content_type_name() -> (r: Vec<u8>)
    ensures
        r@ == content_type_name_spec(),
{
    let mut r: Vec<u8> = Vec::new();
    r.push(99);
    r.push(111);
    r.push(110);
    r.push(116);
    r.push(101);
    r.push(110);
    r.push(116);
    r.push(45);
    r.push(116);
    r.push(121);
    r.push(112);
    r.push(101);
    assert(r@ =~= content_type_name_spec());
    r
}

/// Synchronous HTTP client over curl: validates the request, executes it
/// without redirect-following, and converts what curl surfaces — the status
/// code, at most one content-type header, and the body, under the fixed
/// HTTP/1.1 version label.
pub fn http_client(request: HttpRequest) -> (r: Result<HttpResponse, Error>)
    requires
        request.wf(),
    ensures
        send_contract(request, r),
        r matches Ok(resp) ==> resp.version == ProtocolVersion::Http11 && resp.headers@.len() <= 1,
{
    let call = match prepare_request(request) {
        Err(e) => {
            return Err(e);
        },
        Ok(c) => c,
    };
    let lines = render_lines(&call.headers);
    let mut easy = match easy_with_url_and_headers(&call, &lines) {
        Err(t) => {
            return Err(Error::Transport(t));
        },
        Ok(e) => e,
    };
    if matches!(call.method, Method::Post) {
        if let Err(t) = easy_enable_post(&mut easy, &call.body) {
            return Err(Error::Transport(t));
        }
    }
    let body = match easy_perform(&mut easy) {
        Err(t) => {
            return Err(Error::Transport(t));
        },
        Ok(d) => d,
    };
    match easy_report(&mut easy) {
        Err(t) => Err(Error::Transport(t)),
        Ok((status, ct)) => {
            let mut headers: Vec<(Vec<u8>, Vec<u8>)> = Vec::new();
            if let Some(v) = ct {
                headers.push((content_type_name(), v));
            }
            let version = http11_text();
            proof {
                assert(version_of(version@) == ProtocolVersion::Http11);
            }
            let raw = RawResponse { status, version, headers, body };
            response_from_raw(raw)
        },
    }
}

} // verus!
