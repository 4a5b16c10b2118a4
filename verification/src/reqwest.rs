//! The reqwest backend adapter (blocking form).

use vstd::prelude::*;

use crate::backend::{header_pairs, http_request_of, version_bytes_of};
use crate::convert::{prepare_request, response_from_raw, send_contract, RawResponse};
pub use crate::error::Error;
use crate::types::{HttpRequest, HttpResponse};

verus! {

#[verifier::external_type_specification]
#[verifier::external_body]
pub struct ExClient(reqwest::blocking::Client);

/// Relies on `reqwest::blocking::Client::builder` with the redirect policy
/// `reqwest::redirect::Policy::none()`, which reqwest documents as not
/// following any redirect, so a 3xx response is returned as served.
#[verifier::external_body]
fn reqwest_client() -> (r: Result<reqwest::blocking::Client, String>) {
    reqwest::blocking::Client::builder().redirect(reqwest::redirect::Policy::none()).build()
        .map_err(|e| e.to_string())
}

/// Relies on `reqwest::blocking::Client::execute` for one blocking HTTP
/// exchange, and on the blocking request's `TryFrom<http::Request<Vec<u8>>>`
/// conversion. The body length is declared through the sized request body.
/// Nothing is promised of the outcome: it depends on the network.
#[verifier::external_body]
fn reqwest_run(c: &reqwest::blocking::Client, req: http::Request<Vec<u8>>) -> (r: Result<
    (u16, http::Version, http::HeaderMap, Vec<u8>),
    String,
>) {
    let q = reqwest::blocking::Request::try_from(req).map_err(|e| e.to_string())?;
    let resp = c.execute(q).map_err(|e| e.to_string())?;
    let (s, ver, hs) = (resp.status().as_u16(), resp.version(), resp.headers().clone());
    let data = resp.bytes().map_err(|e| e.to_string())?.to_vec();
    Ok((s, ver, hs, data))
}

/// Synchronous HTTP client over reqwest: validates the request, executes it
/// with redirect-following disabled, and converts whatever came back.
pub fn http_client(request: HttpRequest) -> (r: Result<HttpResponse, Error>)
    requires
        request.wf(),
    ensures
        send_contract(request, r),
{
    let call = match prepare_request(request) {
        Err(e) => {
            return Err(e);
        },
        Ok(c) => c,
    };
    let client = match reqwest_client() {
        Err(t) => {
            return Err(Error::Transport(t));
        },
        Ok(c) => c,
    };
    let token = call.method_token();
    let req = match http_request_of(&call, token) {
        Err(t) => {
            return Err(Error::Transport(t));
        },
        Ok(q) => q,
    };
    match reqwest_run(&client, req) {
        Err(t) => Err(Error::Transport(t)),
        Ok((status, version, headers, body)) => {
            let raw = RawResponse {
                status,
                version: version_bytes_of(version),
                headers: header_pairs(&headers),
                body,
            };
            response_from_raw(raw)
        },
    }
}

} // verus!
