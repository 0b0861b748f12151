//! What comes back from one HTTP exchange, as plain values.
//!
//! The library does not send anything itself. Whoever sends a request hands
//! back `Err` with a description where the request could not be sent, and
//! otherwise the status with the body, or with a description of why the body
//! could not be read.

use vstd::prelude::*;

verus! {

/// The answer to one request.
#[derive(Debug, PartialEq, Eq)]
pub struct HttpReply<B> {
    /// The status code.
    pub status: u16,
    /// The status as it is shown in messages, such as `404 Not Found`.
    pub status_text: String,
    /// The body, or why it could not be read.
    pub body: Result<B, String>,
}

/// Whether a status code reports success.
pub open spec fn success(status: u16) -> bool {
    200 <= status < 300
}

/// Whether a status code reports success.
pub fn is_success(status: u16) -> (r: bool)
    ensures
        r == success(status),
{
    200 <= status && status < 300
}

} // verus!
