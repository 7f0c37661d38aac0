//! What the host tells this crate about a request and about its response.

use vstd::prelude::*;

verus! {

/// A snapshot of an incoming request. Header values are the raw bytes the
/// client sent; a header the request does not carry is `None`.
#[derive(Debug, PartialEq, Eq)]
pub struct RequestHead {
    /// The protocol version, as the host renders it.
    pub version: String,
    /// The request method.
    pub method: String,
    /// The path component of the request target.
    pub path: String,
    /// The raw query, without its question mark; empty where there is none.
    pub query: String,
    /// The `Host` header.
    pub host: Option<Vec<u8>>,
    /// The `Referer` header.
    pub referer: Option<Vec<u8>>,
    /// The `User-Agent` header.
    pub user_agent: Option<Vec<u8>>,
    /// The `correlation-id` header.
    pub correlation_id: Option<Vec<u8>>,
    /// The peer's address, where the connection makes it known.
    pub remote_addr: Option<String>,
}

/// What the handler chain produced for a request.
#[derive(Debug, PartialEq, Eq)]
pub struct ResponseHead {
    /// The status code.
    pub status: u16,
    /// The error the response carries, rendered as text, if it carries one.
    pub error: Option<String>,
}

/// The status of a generic server fault.
pub const INTERNAL_SERVER_ERROR: u16 = 500;

} // verus!
