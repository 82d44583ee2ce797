//! Plain-value models of the HTTP messages that flow through a chain.
//!
//! The engine never interprets these values: it resends whatever request
//! the policy left behind and hands every outcome to the policy as-is.

use vstd::prelude::*;

verus! {

/// An in-flight HTTP request. The engine owns one for the duration of a
/// chain; a policy may rewrite any part of it between attempts, and the
/// engine resends exactly the value it is given.
#[derive(Clone, Debug, PartialEq, Eq)]
pub struct Request {
    /// Request method, e.g. "GET".
    pub method: String,
    /// Target URL.
    pub url: String,
    /// Header name/value pairs, in order.
    pub headers: Vec<(String, String)>,
    /// Request body, if any.
    pub body: Option<Vec<u8>>,
}

/// An HTTP response as returned by the transport (or synthesized by a
/// policy when it terminates a chain).
#[derive(Clone, Debug, PartialEq, Eq)]
pub struct Response {
    /// Status code, e.g. 200 or 500.
    pub status: u16,
    /// Header name/value pairs, in order.
    pub headers: Vec<(String, String)>,
    /// Response body.
    pub body: Vec<u8>,
}

impl Response {
    /// Whether the status code lies in the server-error class (5xx).
    pub fn is_server_error(&self) -> (r: bool)
        ensures
            r == (500 <= self.status < 600),
    {
        500 <= self.status && self.status < 600
    }
}

/// An error terminating a chain. The engine originates only
/// `ChainLengthExceeded`; the other kinds are surfaced unchanged from the
/// transport or from the policy.
#[derive(Clone, Debug, PartialEq, Eq)]
pub enum Error {
    /// A transport-level failure of a send attempt (e.g. a connection
    /// error), opaque to the engine.
    Transport(String),
    /// A failure originated by a policy or another middleware layer.
    Middleware(String),
    /// The safety valve: the attempt counter reached the policy's maximum
    /// chain length before the policy reached a terminal decision.
    ChainLengthExceeded,
}

} // verus!
