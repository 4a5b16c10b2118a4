//! Declarations of the http crate's response-side types, and the trusted
//! conversions from them to plain values, shared by the backend adapters.

use vstd::prelude::*;

use crate::convert::{spells_version, BackendCall};
use crate::types::all_names_ok;

verus! {

#[verifier::external_type_specification]
#[verifier::external_body]
pub struct ExVersion(http::Version);

#[verifier::external_type_specification]
#[verifier::external_body]
#[verifier::reject_recursive_types(T)]
pub struct ExRequest<T>(http::Request<T>);

#[verifier::external_type_specification]
#[verifier::external_body]
pub struct ExHeaderValue(http::HeaderValue);

#[verifier::external_type_specification]
#[verifier::external_body]
#[verifier::reject_recursive_types(T)]
pub struct ExHeaderMap<T>(http::HeaderMap<T>);

/// A byte the http crate admits in a header value: horizontal tab, or any
/// byte from space upward except delete.
pub open spec fn is_wire_value_byte(b: u8) -> bool {
    b == 9 || (32 <= b && b != 127)
}

/// Every byte of `v` is one the http crate admits in a header value.
pub open spec fn wire_value_ok(v: Seq<u8>) -> bool {
    forall|j: int| 0 <= j < v.len() ==> is_wire_value_byte(#[trigger] v[j])
}

/// Every value in the list stays within the http crate's header-value bytes.
pub open spec fn all_values_wire_safe(h: Seq<(Vec<u8>, Vec<u8>)>) -> bool {
    forall|i: int| 0 <= i < h.len() ==> wire_value_ok(#[trigger] h[i].1@)
}

/// Relies on `http::Version`'s `Debug` implementation, which renders each
/// of the five versions as its `HTTP/<major>.<minor>` text.
#[verifier::external_body]
pub fn version_bytes_of(v: http::Version) -> (r: Vec<u8>)
    ensures
        spells_version(r@, 48, 57) || spells_version(r@, 49, 48) || spells_version(r@, 49, 49)
            || spells_version(r@, 50, 48) || spells_version(r@, 51, 48),
{
    format!("{:?}", v).into_bytes()
}

/// Relies on `http::HeaderMap` iteration: yields each header of the map as
/// its name bytes and raw value bytes, in the map's order. Every stored
/// name is a nonempty lowercased token and every stored value holds only
/// bytes the http crate admits, so the same holds of the result.
#[verifier::external_body]
pub fn header_pairs(h: &http::HeaderMap) -> (r: Vec<(Vec<u8>, Vec<u8>)>)
    ensures
        all_names_ok(r@),
        all_values_wire_safe(r@),
{
    h.iter().map(|(n, v)| (n.as_str().as_bytes().to_vec(), v.as_bytes().to_vec())).collect()
}

/// Relies on `http::Request::builder`: assembles the backend-native request
/// carrying the given method token and the call's URI, headers and body. A
/// URI or header the http crate cannot represent fails with its message
/// text.
#[verifier::external_body]
pub fn http_request_of(call: &BackendCall, method: &str) -> (r: Result<
    http::Request<Vec<u8>>,
    String,
>)
    requires
        call.wf(),
        call.method is Get ==> method@ == "GET"@,
        call.method is Post ==> method@ == "POST"@,
{
    let mut rb = http::Request::builder().method(method).uri(
        std::str::from_utf8(&call.uri).unwrap(),
    );
    for (n, v) in call.headers.iter() {
        rb = rb.header(n.as_slice(), v.as_slice());
    }
    rb.body(call.body.clone()).map_err(|e| e.to_string())
}

} // verus!
