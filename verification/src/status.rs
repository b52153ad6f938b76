//! Queries for evolving and node-specific data: the error surface of the status API.

pub mod data_source;

pub use data_source::{
    block_height_from_gauge, consensus_metrics, mempool_info, metrics_err, total_views,
    ConsensusMetrics, MempoolQueryData, MetricsDataSource, MetricsError, PrometheusMetrics,
};

use crate::query_error::{query_error_status, QueryError, StatusCode};
use vstd::prelude::*;

verus! {

/// An error in decoding the parameters of a request.
#[derive(Clone, Debug, PartialEq, Eq)]
pub struct RequestError {
    pub message: String,
}

/// The encoded public key of a consensus node, as used to identify proposers.
#[derive(Clone, Debug, PartialEq, Eq)]
pub struct EncodedPublicKey(pub Vec<u8>);

/// Errors returned by the status API.
#[derive(Clone, Debug, PartialEq, Eq)]
pub enum Error {
    Request { source: RequestError },
    QueryProposals { source: QueryError, proposer: EncodedPublicKey },
    Internal { reason: String },
}

/// The status code with which a status API error is reported.
pub open spec fn status_error_status(e: Error) -> u16 {
    match e {
        Error::Request { .. } => 400,
        Error::QueryProposals { source, .. } => query_error_status(source),
        Error::Internal { .. } => 500,
    }
}

impl Error {
    /// The HTTP status with which this error is reported.
    pub fn status(&self) -> (s: StatusCode)
        ensures
            s.code == status_error_status(*self),
    {
        match self {
            Error::Request { .. } => StatusCode::bad_request(),
            Error::QueryProposals { source, .. } => source.status(),
            Error::Internal { .. } => StatusCode::internal_server_error(),
        }
    }
}

/// An internal error whose reason is `msg`.
pub fn internal(msg: &str) -> (e: Error)
    ensures
        e matches Error::Internal { reason } && reason@ == msg@,
{
    Error::Internal { reason: msg.to_string() }
}

} // verus!
