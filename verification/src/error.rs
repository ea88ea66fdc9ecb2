use vstd::prelude::*;

verus! {

/// Why a request failed.
#[derive(Debug, Clone, Copy, PartialEq, Eq, Structural)]
pub enum Error {
    NotFoundError,
    CanNotLockState,
    DBSelectError,
    DBInsertError,
}

/// The HTTP status of every failed request: internal server error.
pub const ERROR_HTTP_STATUS: u16 = 500;

/// The `status` field of the body of a failed request.
pub const ERROR_STATUS: &'static str = "error";

/// The `status` field of the body of a stored order.
pub const SUCCESS_STATUS: &'static str = "success";

/// What a failed request is answered: the HTTP status, and the body
/// `{"status": status, "error_code": error_code}`.
#[derive(Debug, Clone, Copy, PartialEq, Eq)]
pub struct ErrorReply {
    pub http_status: u16,
    pub status: &'static str,
    pub error_code: u16,
}

impl Error {
    /// The answer to a request that failed with this error: whatever the
    /// error, HTTP 500 with status `"error"` and error code 500.
    pub fn reply(&self) -> (r: ErrorReply)
        ensures
            r.http_status == 500,
            r.status == ERROR_STATUS,
            r.error_code == 500,
    {
        ErrorReply { http_status: ERROR_HTTP_STATUS, status: ERROR_STATUS, error_code: ERROR_HTTP_STATUS }
    }
}

} // verus!
