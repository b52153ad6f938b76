//! Verified core of a query service for a HotShot ledger: data-source bookkeeping, SQL query
//! construction, fetch scheduling for missing data, and the status and error surfaces of the
//! REST API.

pub mod availability;
pub mod data_source;
pub mod error;
pub mod fetcher;
pub mod query_error;
pub mod status;

pub use error::Error;
pub use query_error::{QueryError, QueryResult, StatusCode};
