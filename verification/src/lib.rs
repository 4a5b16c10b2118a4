//! Interchangeable HTTP transport backends behind one request/response
//! abstraction.
//!
//! The crate models HTTP requests and responses as plain values, states the
//! normalization contract every backend must satisfy (header text validation
//! before any network activity, a declared body length for POST, redirects
//! never followed, response fields copied verbatim), and implements that
//! contract once per backend library.

pub mod backend;
pub mod convert;
pub mod curl;
pub mod error;
pub mod headers;
pub mod reqwest;
pub mod types;
pub mod ureq;
