//! The error type of the whole query service API.

use crate::query_error::StatusCode;
use crate::status;
use vstd::prelude::*;

verus! {

/// Errors returned by any module of the query service API.
#[derive(Clone, Debug, PartialEq, Eq)]
pub enum Error {
    Status { source: status::Error },
    Custom { message: String, status: StatusCode },
}

/// The status code with which an API error is reported.
pub open spec fn error_status(e: Error) -> u16 {
    match e {
        Error::Status { source } => status::status_error_status(source),
        Error::Custom { status, .. } => status.code,
    }
}

impl Error {
    /// An internal server error carrying `message`.
    pub fn internal(message: &str) -> (e: Error)
        ensures
            e matches Error::Custom { message: m, status } && m@ == message@ && status.code == 500,
    {
        Error::Custom { message: message.to_string(), status: StatusCode::internal_server_error() }
    }

    /// The error for a request that failed outside of any module's own handling.
    pub fn catch_all(status: StatusCode, message: String) -> (e: Error)
        ensures
            e matches Error::Custom { message: m, status: s } && m@ == message@ && s == status,
    {
        Error::Custom { status, message }
    }

    /// The HTTP status with which this error is reported.
    pub fn status(&self) -> (s: StatusCode)
        ensures
            s.code == error_status(*self),
    {
        match self {
            Error::Status { source } => source.status(),
            Error::Custom { status, .. } => *status,
        }
    }
}

} // verus!
