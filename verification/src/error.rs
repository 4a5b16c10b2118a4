//! The uniform error taxonomy shared by every backend adapter.
//!
//! Every failure is terminal for the call that produced it: there is no
//! retry and no partial result. Each variant keeps enough context to
//! diagnose the failing stage.

use vstd::prelude::*;

verus! {

/// What can go wrong during one HTTP exchange, normalized across backends.
#[derive(Debug)]
pub enum Error {
    /// The backend's own client or transport failed (connect, DNS, TLS,
    /// transfer); carries the backend's message text.
    Transport(String),
    /// The backend reported data that cannot form a structurally valid
    /// response: a status code outside the valid range, which is carried.
    Protocol(u16),
    /// A request header value cannot be rendered as text for transmission;
    /// carries the offending header's name and raw value bytes.
    Encoding { name: Vec<u8>, value: Vec<u8> },
}

impl Error {
    /// The kind of this error as a short label, for callers that only
    /// branch on the taxonomy.
    pub fn kind(&self) -> (r: &'static str)
        ensures
            (self is Transport ==> r@ == "transport"@)
            && (self is Protocol ==> r@ == "protocol"@)
            && (self is Encoding ==> r@ == "encoding"@),
    {
        match self {
            Error::Transport(_) => "transport",
            Error::Protocol(_) => "protocol",
            Error::Encoding { .. } => "encoding",
        }
    }
}

} // verus!
