//! The backend-neutral request and response model.
//!
//! Every field is a plain value: methods and protocol versions are enums,
//! header names and values are byte vectors (values are opaque bytes and
//! need not be text), bodies are byte vectors materialized in full.

use vstd::prelude::*;

verus! {

/// The only request methods this transport supports.
#[derive(Clone, Copy, PartialEq, Eq, Structural, Debug)]
pub enum Method {
    Get,
    Post,
}

/// HTTP protocol versions a backend can report.
#[derive(Clone, Copy, PartialEq, Eq, Structural, Debug)]
pub enum ProtocolVersion {
    Http09,
    Http10,
    Http11,
    Http2,
    Http3,
}

/// A backend-neutral HTTP request: method, absolute target URI, an ordered
/// list of header name/value pairs, and a body.
pub struct HttpRequest {
    pub method: Method,
    pub uri: Vec<u8>,
    pub headers: Vec<(Vec<u8>, Vec<u8>)>,
    pub body: Vec<u8>,
}

/// A backend-neutral HTTP response: status code, protocol version, the
/// headers the backend surfaced, and the whole body as one byte sequence.
pub struct HttpResponse {
    pub status: u16,
    pub version: ProtocolVersion,
    pub headers: Vec<(Vec<u8>, Vec<u8>)>,
    pub body: Vec<u8>,
}

/// A byte a header value may hold and still be renderable as text on the
/// wire: horizontal tab or visible ASCII (space through tilde).
pub open spec fn is_text_byte(b: u8) -> bool {
    b == 9 || (32 <= b && b <= 126)
}

/// A header value that can be serialized as text.
pub open spec fn text_safe(v: Seq<u8>) -> bool {
    forall|i: int| 0 <= i < v.len() ==> is_text_byte(#[trigger] v[i])
}

/// A byte allowed in a header field name (an RFC 7230 token character).
pub open spec fn is_token_byte(b: u8) -> bool {
    ||| b == 33
    ||| (35 <= b && b <= 39)
    ||| b == 42
    ||| b == 43
    ||| b == 45
    ||| b == 46
    ||| (48 <= b && b <= 57)
    ||| (65 <= b && b <= 90)
    ||| (94 <= b && b <= 122)
    ||| b == 124
    ||| b == 126
}

/// A well-formed header field name: a nonempty token.
pub open spec fn header_name_ok(n: Seq<u8>) -> bool {
    n.len() > 0 && forall|i: int| 0 <= i < n.len() ==> is_token_byte(#[trigger] n[i])
}

/// The header list seen as a sequence of (name bytes, value bytes) pairs.
pub open spec fn hdrs(h: Seq<(Vec<u8>, Vec<u8>)>) -> Seq<(Seq<u8>, Seq<u8>)> {
    h.map(|i: int, p: (Vec<u8>, Vec<u8>)| (p.0@, p.1@))
}

/// Every header value in the list is renderable as text.
pub open spec fn all_values_text(h: Seq<(Vec<u8>, Vec<u8>)>) -> bool {
    forall|i: int| 0 <= i < h.len() ==> text_safe(#[trigger] h[i].1@)
}

/// Every header name in the list is a nonempty token.
pub open spec fn all_names_ok(h: Seq<(Vec<u8>, Vec<u8>)>) -> bool {
    forall|i: int| 0 <= i < h.len() ==> header_name_ok(#[trigger] h[i].0@)
}

impl HttpRequest {
    /// What a caller must guarantee before handing a request to a backend:
    /// the URI is nonempty text, header names are tokens, and a GET carries
    /// no body (supplying one is a caller error, not a recoverable failure).
    pub open spec fn wf(&self) -> bool {
        &&& self.uri@.len() > 0
        &&& text_safe(self.uri@)
        &&& all_names_ok(self.headers@)
        &&& (self.method is Get ==> self.body@.len() == 0)
    }
}

/// The smallest and largest status codes a structurally valid response
/// can carry.
pub open spec fn status_in_range(s: u16) -> bool {
    100 <= s && s <= 999
}

impl HttpResponse {
    /// A structurally valid response: its status code is in range.
    pub open spec fn wf(&self) -> bool {
        status_in_range(self.status)
    }
}

} // verus!
