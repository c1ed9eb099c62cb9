//! How failures are shown to the client.

use vstd::prelude::*;

verus! {

/// The request cannot be understood or breaks a rule of the protocol.
pub const BAD_REQUEST: u16 = 400;

/// The request carries no credential that gives access.
pub const UNAUTHORIZED: u16 = 401;

/// The credential is not of the form that the operation asks for, or is not valid.
pub const FORBIDDEN: u16 = 403;

/// Nothing is there under the name asked for.
pub const NOT_FOUND: u16 = 404;

/// What was sent is there already.
pub const CONFLICT: u16 = 409;

/// The body is larger than the server accepts.
pub const PAYLOAD_TOO_LARGE: u16 = 413;

/// The server failed; the client is not told how.
pub const INTERNAL_SERVER_ERROR: u16 = 500;

/// A failure as the client sees it: a status code and a short text.
#[derive(Debug)]
pub struct HttpError {
    pub status: u16,
    pub message: String,
}

impl HttpError {
    /// The failure with the given status and text.
    pub fn new(status: u16, message: &str) -> (e: HttpError)
        ensures
            e.status == status,
            e.message@ == message@,
    {
        HttpError { status, message: String::from_str(message) }
    }
}

/// Whether `e` has the given status and text.
pub open spec fn shows(e: HttpError, status: u16, message: &str) -> bool {
    e.status == status && e.message@ == message@
}

} // verus!
