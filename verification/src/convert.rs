//! The normalization contract between the neutral model and a backend.
//!
//! `prepare_request` turns a neutral request into the exact call every
//! backend executes: it validates header values before any network
//! activity, carries the declared body length for POST, and never enables
//! redirect-following. `response_from_raw` turns whatever a backend
//! reported back into a neutral response, copying every field verbatim.

use vstd::prelude::*;

use crate::error::Error;
use crate::headers::{clone_bytes, first_bad_value, first_undecodable};
use crate::types::{
    all_names_ok, all_values_text, hdrs, status_in_range, text_safe, HttpRequest, HttpResponse,
    Method, ProtocolVersion,
};

verus! {

/// One fully validated exchange, as every backend receives it.
pub struct BackendCall {
    pub method: Method,
    pub uri: Vec<u8>,
    pub headers: Vec<(Vec<u8>, Vec<u8>)>,
    pub body: Vec<u8>,
    /// The body length declared to the backend before transfer begins.
    pub content_length: usize,
    /// Always false: redirects are never followed, on any backend.
    pub follow_redirects: bool,
}

impl BackendCall {
    /// What `prepare_request` guarantees of every call it emits.
    pub open spec fn wf(&self) -> bool {
        &&& self.uri@.len() > 0
        &&& text_safe(self.uri@)
        &&& all_names_ok(self.headers@)
        &&& all_values_text(self.headers@)
        &&& (self.method is Get ==> self.body@.len() == 0)
        &&& self.content_length == self.body@.len()
        &&& !self.follow_redirects
    }

    /// The request-line token of this call's method.
    pub fn method_token(&self) -> (r: &'static str)
        ensures
            self.method is Get ==> r@ == "GET"@,
            self.method is Post ==> r@ == "POST"@,
    {
        match self.method {
            Method::Get => "GET",
            Method::Post => "POST",
        }
    }
}

/// Builds the backend call for a request, or rejects it before any network
/// activity: the result is a call exactly when every header value is
/// renderable as text, and otherwise the error names the first header that
/// is not, with its raw value bytes.
pub fn prepare_request(request: HttpRequest) -> (r: Result<BackendCall, Error>)
    requires
        request.wf(),
    ensures
        match r {
            Ok(c) => {
                &&& all_values_text(request.headers@)
                &&& c.wf()
                &&& c.method == request.method
                &&& c.uri@ == request.uri@
                &&& hdrs(c.headers@) == hdrs(request.headers@)
                &&& c.body@ == request.body@
                &&& c.content_length == request.body@.len()
                &&& !c.follow_redirects
            },
            Err(e) => {
                &&& !all_values_text(request.headers@)
                &&& e matches Error::Encoding { name, value } && exists|i: int|
                    #[trigger] first_undecodable(request.headers@, i)
                        && name@ == request.headers@[i].0@ && value@ == request.headers@[i].1@
            },
        },
{
    let HttpRequest { method, uri, headers, body } = request;
    match first_bad_value(&headers) {
        Some(i) => {
            let name = clone_bytes(&headers[i].0);
            let value = clone_bytes(&headers[i].1);
            proof {
                assert(first_undecodable(request.headers@, i as int));
            }
            Err(Error::Encoding { name, value })
        },
        None => {
            let content_length = body.len();
            Ok(
                BackendCall {
                    method,
                    uri,
                    headers,
                    body,
                    content_length,
                    follow_redirects: false,
                },
            )
        },
    }
}

/// Method restriction: a well-formed GET carries no body — supplying one is
/// a precondition violation, so no backend call for a GET ever transmits
/// body bytes and its declared length is zero — and every validated call
/// declares a body length equal to its actual body's length, so a POST with
/// a body of length L declares and hands the backend exactly L bytes.
pub proof fn lemma_method_restriction(request: HttpRequest, c: BackendCall)
    requires
        request.wf(),
        c.wf(),
    ensures
        request.method is Get ==> request.body@.len() == 0,
        c.method is Get ==> c.body@.len() == 0 && c.content_length == 0,
        c.content_length == c.body@.len(),
{
}

/// Everything a backend reports of a response, as plain values: the status
/// code, the protocol version text (for example `HTTP/1.1`), the headers it
/// surfaced, and the whole body.
pub struct RawResponse {
    pub status: u16,
    pub version: Vec<u8>,
    pub headers: Vec<(Vec<u8>, Vec<u8>)>,
    pub body: Vec<u8>,
}

/// The report seen mathematically, so two reports can be compared.
pub open spec fn raw_view(r: RawResponse) -> (u16, Seq<u8>, Seq<(Seq<u8>, Seq<u8>)>, Seq<u8>) {
    (r.status, r.version@, hdrs(r.headers@), r.body@)
}

/// A neutral response seen mathematically.
pub open spec fn response_view(r: HttpResponse) -> (
    u16,
    ProtocolVersion,
    Seq<(Seq<u8>, Seq<u8>)>,
    Seq<u8>,
) {
    (r.status, r.version, hdrs(r.headers@), r.body@)
}

/// `s` spells `HTTP/<major>.<minor>` with the given digit bytes.
pub open spec fn spells_version(s: Seq<u8>, major: u8, minor: u8) -> bool {
    // the byte values of "HTTP/", the digits, and "."
    s.len() == 8 && s[0] == 72 && s[1] == 84 && s[2] == 84 && s[3] == 80 && s[4] == 47 && s[5]
        == major && s[6] == 46 && s[7] == minor
}

/// The protocol version a reported version text denotes. A text no backend
/// of this crate emits falls back to HTTP/1.1, a documented approximation
/// for backends that cannot report the negotiated version.
pub open spec fn version_of(s: Seq<u8>) -> ProtocolVersion {
    if spells_version(s, 48, 57) {
        ProtocolVersion::Http09
    } else if spells_version(s, 49, 48) {
        ProtocolVersion::Http10
    } else if spells_version(s, 49, 49) {
        ProtocolVersion::Http11
    } else if spells_version(s, 50, 48) {
        ProtocolVersion::Http2
    } else if spells_version(s, 51, 48) {
        ProtocolVersion::Http3
    } else {
        ProtocolVersion::Http11
    }
}

/// Reads a version text such as `HTTP/1.1` into the version it denotes.
pub fn version_from_bytes(v: &Vec<u8>) -> (r: ProtocolVersion)
    ensures
        r == version_of(v@),
{
    if v.len() == 8 && v[0] == 72 && v[1] == 84 && v[2] == 84 && v[3] == 80 && v[4] == 47 && v[6]
        == 46 {
        let major = v[5];
        let minor = v[7];
        if major == 48 && minor == 57 {
            ProtocolVersion::Http09
        } else if major == 49 && minor == 48 {
            ProtocolVersion::Http10
        } else if major == 49 && minor == 49 {
            ProtocolVersion::Http11
        } else if major == 50 && minor == 48 {
            ProtocolVersion::Http2
        } else if major == 51 && minor == 48 {
            ProtocolVersion::Http3
        } else {
            ProtocolVersion::Http11
        }
    } else {
        ProtocolVersion::Http11
    }
}

/// What converting a backend report yields: a response carrying the status,
/// version, headers and body verbatim when the status is structurally
/// valid, and a protocol error naming the status otherwise.
pub open spec fn convert_raw(raw: RawResponse) -> Result<HttpResponse, Error> {
    if status_in_range(raw.status) {
        Ok(
            (HttpResponse {
                status: raw.status,
                version: version_of(raw.version@),
                headers: raw.headers,
                body: raw.body,
            }),
        )
    } else {
        Err(Error::Protocol(raw.status))
    }
}

/// Converts a backend report into the neutral response, exactly as
/// `convert_raw` describes.
pub fn response_from_raw(raw: RawResponse) -> (r: Result<HttpResponse, Error>)
    ensures
        r == convert_raw(raw),
{
    if raw.status < 100 || raw.status > 999 {
        return Err(Error::Protocol(raw.status));
    }
    let RawResponse { status, version, headers, body } = raw;
    let v = version_from_bytes(&version);
    Ok(HttpResponse { status, version: v, headers, body })
}

/// Converting a backend report is deterministic: two reports that carry the
/// same status, version text, headers and body convert to responses with
/// the same status, version, headers and body, or fail with the same error.
pub proof fn lemma_convert_deterministic(a: RawResponse, b: RawResponse)
    requires
        raw_view(a) == raw_view(b),
    ensures
        match (convert_raw(a), convert_raw(b)) {
            (Ok(x), Ok(y)) => response_view(x) == response_view(y),
            (Err(e), Err(f)) => e == f,
            _ => false,
        },
{
    assert(a.status == b.status);
    assert(a.version@ == b.version@);
    assert(hdrs(a.headers@) == hdrs(b.headers@));
    assert(a.body@ == b.body@);
}

/// What every backend adapter's `send` promises: an encoding error exactly
/// when some header value is not renderable as text (then naming the first
/// such header, before any network activity), and otherwise either a
/// structurally valid response or a transport or protocol failure.
pub open spec fn send_contract(request: HttpRequest, r: Result<HttpResponse, Error>) -> bool {
    &&& ((r matches Err(Error::Encoding { .. })) <==> !all_values_text(request.headers@))
    &&& match r {
        Ok(resp) => resp.wf(),
        Err(e) => match e {
            Error::Transport(_) => all_values_text(request.headers@),
            Error::Protocol(s) => all_values_text(request.headers@) && !status_in_range(s),
            Error::Encoding { name, value } => exists|i: int|
                #[trigger] first_undecodable(request.headers@, i) && name@
                    == request.headers@[i].0@ && value@ == request.headers@[i].1@,
        },
    }
}

} // verus!
