use vstd::prelude::*;

verus! {

/// An HTTP status code, as reported by the API modules.
#[derive(Clone, Copy, Debug, PartialEq, Eq, Structural)]
pub struct StatusCode {
    pub code: u16,
}

impl StatusCode {
    /// `400 Bad Request`.
    pub fn bad_request() -> (s: StatusCode)
        ensures
            s.code == 400,
    {
        StatusCode { code: 400 }
    }

    /// `404 Not Found`.
    pub fn not_found() -> (s: StatusCode)
        ensures
            s.code == 404,
    {
        StatusCode { code: 404 }
    }

    /// `500 Internal Server Error`.
    pub fn internal_server_error() -> (s: StatusCode)
        ensures
            s.code == 500,
    {
        StatusCode { code: 500 }
    }
}

/// Errors returned by queries against a data source.
#[derive(Clone, Debug, PartialEq, Eq)]
pub enum QueryError {
    /// The requested resource does not exist or is not known to this query service.
    NotFound,
    /// The requested resource exists but is not currently available.
    ///
    /// In most cases a missing resource can be recovered from DA.
    Missing,
    /// There was an error while trying to fetch the requested resource.
    Error { message: String },
}

pub type QueryResult<T> = Result<T, QueryError>;

/// The status code with which a query error is reported: both kinds of absence are
/// `404`, any other failure is `500`.
pub open spec fn query_error_status(e: QueryError) -> u16 {
    match e {
        QueryError::NotFound => 404,
        QueryError::Missing => 404,
        QueryError::Error { .. } => 500,
    }
}

impl QueryError {
    /// The HTTP status with which this error is reported.
    pub fn status(&self) -> (s: StatusCode)
        ensures
            s.code == query_error_status(*self),
    {
        match self {
            QueryError::NotFound => StatusCode::not_found(),
            QueryError::Missing => StatusCode::not_found(),
            QueryError::Error { .. } => StatusCode::internal_server_error(),
        }
    }
}

} // verus!
