//! The parts of a request that the services read, and the response they give.
use vstd::prelude::*;
use crate::body::AsyncReadBody;

verus! {

/// The request methods the services tell apart.
#[derive(Clone, Copy, Debug, PartialEq, Eq, Structural)]
pub enum Method {
    Get,
    Head,
    Other,
}

/// What a service reads of a request: its method, the parts of its URI and
/// the conditional headers.
#[derive(Clone, Debug)]
pub struct RequestHead {
    pub method: Method,
    /// The URI's scheme, such as `http`, when the URI is absolute.
    pub scheme: Option<String>,
    /// The URI's authority, such as `example.com:8080`, when the URI is absolute.
    pub authority: Option<String>,
    /// The URI's path, still percent-encoded.
    pub path: String,
    /// The URI's query, without the `?`.
    pub query: Option<String>,
    /// Whether the request carries an `If-None-Match` header.
    pub if_none_match: bool,
    /// The text of the `If-Modified-Since` header, when there is one.
    pub if_modified_since: Option<String>,
}

/// A response: its status, the headers the services set, and its body (none
/// for an empty one).
#[derive(Debug)]
pub struct Response {
    pub status: u16,
    pub content_type: Option<String>,
    pub last_modified: Option<String>,
    pub location: Option<String>,
    pub body: Option<AsyncReadBody>,
}

} // verus!
