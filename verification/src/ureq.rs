//! The ureq backend adapter.

use vstd::prelude::*;

use crate::backend::{header_pairs, http_request_of, version_bytes_of};
use crate::convert::{prepare_request, response_from_raw, send_contract, RawResponse};
pub use crate::error::Error;
use crate::types::{HttpRequest, HttpResponse};

verus! {

#[verifier::external_type_specification]
#[verifier::external_body]
pub struct ExAgent(ureq::Agent);

/// Relies on ureq's agent configuration: `max_redirects(0)`, which ureq
/// documents as "no redirects are followed and the response is always
/// returned", and `http_status_as_error(false)`, so every status code comes
/// back as a response.
#[verifier::external_body]
fn ureq_agent() -> (r: ureq::Agent) {
    ureq::Agent::from(
        ureq::Agent::config_builder().max_redirects(0).http_status_as_error(false).build(),
    )
}

/// Relies on `ureq::Agent::run` for one blocking HTTP exchange and on
/// `ureq::Body::read_to_vec` for the whole body; `read_to_vec` caps the
/// body (10 MB by default) and fails beyond the cap, which surfaces as a
/// transport error. The request body length is declared through the sized
/// request body. Nothing is promised of the outcome: it depends on the
/// network.
#[verifier::external_body]
fn ureq_run(a: &ureq::Agent, req: http::Request<Vec<u8>>) -> (r: Result<
    (u16, http::Version, http::HeaderMap, Vec<u8>),
    String,
>) {
    let (p, mut b) = a.run(req).map_err(|e| e.to_string())?.into_parts();
    let data = b.read_to_vec().map_err(|e| e.to_string())?;
    Ok((p.status.as_u16(), p.version, p.headers, data))
}

/// Synchronous HTTP client over ureq: validates the request, executes it
/// with redirect-following disabled, and converts whatever came back.
pub fn http_client(request: HttpRequest) -> (r: Result<HttpResponse, Error>)
    requires
        request.wf(),
    ensures
        send_contract(request, r),
{
    let call = match prepare_request(request) {
        Err(e) => {
            return Err(e);
        },
        Ok(c) => c,
    };
    let agent = ureq_agent();
    let token = call.method_token();
    let req = match http_request_of(&call, token) {
        Err(t) => {
            return Err(Error::Transport(t));
        },
        Ok(q) => q,
    };
    match ureq_run(&agent, req) {
        Err(t) => Err(Error::Transport(t)),
        Ok((status, version, headers, body)) => {
            let raw = RawResponse {
                status,
                version: version_bytes_of(version),
                headers: header_pairs(&headers),
                body,
            };
            response_from_raw(raw)
        },
    }
}

} // verus!
