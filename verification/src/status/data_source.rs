//! Status data derived from the consensus metrics that HotShot maintains.

use crate::query_error::{QueryError, QueryResult};
use vstd::prelude::*;

verus! {

/// An error looking up a metric: the metric or its namespace does not exist.
#[derive(Clone, Debug, PartialEq, Eq)]
pub struct MetricsError {
    /// The rendered description of the failed lookup.
    pub message: String,
}

/// The outcome of looking up each gauge of the `consensus` metrics namespace that the status
/// API reads.
#[derive(Debug)]
pub struct ConsensusMetrics {
    pub last_synced_block_height: Result<usize, MetricsError>,
    pub outstanding_transactions: Result<usize, MetricsError>,
    pub outstanding_transactions_memory_size: Result<usize, MetricsError>,
    pub current_view: Result<usize, MetricsError>,
}

/// The metrics registry of a node, as read by the status API: the outcome of looking up the
/// `consensus` namespace.
#[derive(Debug)]
pub struct PrometheusMetrics {
    pub consensus: Result<ConsensusMetrics, MetricsError>,
}

/// Information about the transactions waiting to be included in a block.
#[derive(Clone, Copy, Debug, PartialEq, Eq, Structural)]
pub struct MempoolQueryData {
    pub transaction_count: u64,
    pub memory_footprint: u64,
}

/// `q` is the query error that reports the metrics failure `e`.
pub open spec fn reports_metrics_error(q: QueryError, e: MetricsError) -> bool {
    q matches QueryError::Error { message } && message@ == e.message@
}

/// `r` is the outcome of reading the gauge lookup `g`.
pub open spec fn reads_gauge(g: Result<usize, MetricsError>, r: QueryResult<usize>) -> bool {
    match g {
        Ok(v) => r == Ok::<usize, QueryError>(v),
        Err(e) => r matches Err(q) && reports_metrics_error(q, e),
    }
}

/// Report a metrics failure as a query error.
pub fn metrics_err(err: MetricsError) -> (q: QueryError)
    ensures
        reports_metrics_error(q, err),
{
    QueryError::Error { message: err.message }
}

fn copy_metrics_err(err: &MetricsError) -> (q: QueryError)
    ensures
        reports_metrics_error(q, *err),
{
    QueryError::Error { message: err.message.clone() }
}

fn read_gauge(g: &Result<usize, MetricsError>) -> (r: QueryResult<usize>)
    ensures
        reads_gauge(*g, r),
{
    match g {
        Ok(v) => Ok(*v),
        Err(e) => Err(copy_metrics_err(e)),
    }
}

/// The `consensus` namespace of `metrics`.
pub fn consensus_metrics(metrics: &PrometheusMetrics) -> (r: QueryResult<&ConsensusMetrics>)
    ensures
        match metrics.consensus {
            Ok(c) => r matches Ok(rc) && *rc == c,
            Err(e) => r matches Err(q) && reports_metrics_error(q, e),
        },
{
    match &metrics.consensus {
        Ok(c) => Ok(c),
        Err(e) => Err(copy_metrics_err(e)),
    }
}

/// The block height, given the last synced block height that consensus reports.
///
/// The block height is always at least one, since the genesis block exists by default; before
/// the first decide event consensus reports a synced height of 0.
pub fn block_height_from_gauge(last_synced_height: usize) -> (h: usize)
    ensures
        h >= 1,
        last_synced_height == 0 ==> h == 1,
        last_synced_height != 0 ==> h == last_synced_height,
{
    if last_synced_height == 0 {
        1
    } else {
        last_synced_height
    }
}

/// The block height that `metrics` reports.
pub open spec fn spec_block_height(metrics: PrometheusMetrics, r: QueryResult<usize>) -> bool {
    match metrics.consensus {
        Err(e) => r matches Err(q) && reports_metrics_error(q, e),
        Ok(c) => match c.last_synced_block_height {
            Err(e) => r matches Err(q) && reports_metrics_error(q, e),
            Ok(v) => r == Ok::<usize, QueryError>(if v == 0 { 1 } else { v }),
        },
    }
}

/// The block height reports the synced-height gauge as it reads, except that a synced height of
/// 0, before the first decide, is reported as 1; where either lookup fails, the block height is
/// an error.
pub proof fn lemma_block_height_reads_gauge(metrics: PrometheusMetrics, r: QueryResult<usize>, v: usize)
    requires
        spec_block_height(metrics, r),
    ensures
        metrics.consensus is Err ==> r is Err,
        metrics.consensus matches Ok(c) && c.last_synced_block_height is Err ==> r is Err,
        (metrics.consensus matches Ok(c) && c.last_synced_block_height == Ok::<usize, MetricsError>(v) ==> (r matches Ok(h) && h >= 1 && (v != 0 ==> h == v) && (v == 0 ==> h == 1))),
{
}

/// The mempool summary that `metrics` reports.
pub open spec fn spec_mempool_info(metrics: PrometheusMetrics, r: QueryResult<MempoolQueryData>) -> bool {
    match metrics.consensus {
        Err(e) => r matches Err(q) && reports_metrics_error(q, e),
        Ok(c) => match (c.outstanding_transactions, c.outstanding_transactions_memory_size) {
            (Err(e), _) => r matches Err(q) && reports_metrics_error(q, e),
            (Ok(_), Err(e)) => r matches Err(q) && reports_metrics_error(q, e),
            (Ok(n), Ok(m)) => r == Ok::<MempoolQueryData, QueryError>(
                MempoolQueryData { transaction_count: n as u64, memory_footprint: m as u64 },
            ),
        },
    }
}

/// The mempool summary reports the two gauges as they read: where both are readable, the
/// transaction count is the value of the outstanding-transactions gauge and the memory
/// footprint is the value of the memory-size gauge, whatever the count; where either lookup
/// fails, the summary is an error.
pub proof fn lemma_mempool_info_reads_gauges(
    metrics: PrometheusMetrics,
    r: QueryResult<MempoolQueryData>,
    n: usize,
    m: usize,
)
    requires
        spec_mempool_info(metrics, r),
    ensures
        metrics.consensus is Err ==> r is Err,
        metrics.consensus matches Ok(c) && c.outstanding_transactions is Err ==> r is Err,
        metrics.consensus matches Ok(c) && c.outstanding_transactions_memory_size is Err ==> r is Err,
        (metrics.consensus matches Ok(c) && c.outstanding_transactions == Ok::<usize, MetricsError>(n) && c.outstanding_transactions_memory_size == Ok::<usize, MetricsError>(m) ==> (r matches Ok(d) && d.transaction_count == n as u64 && d.memory_footprint == m as u64)),
{
}

/// The number of transactions waiting in the mempool and their total size.
pub fn mempool_info(metrics: &PrometheusMetrics) -> (r: QueryResult<MempoolQueryData>)
    ensures
        spec_mempool_info(*metrics, r),
{
    let consensus = match consensus_metrics(metrics) {
        Ok(c) => c,
        Err(e) => return Err(e),
    };
    let transaction_count = match read_gauge(&consensus.outstanding_transactions) {
        Ok(n) => n as u64,
        Err(e) => return Err(e),
    };
    let memory_footprint = match read_gauge(&consensus.outstanding_transactions_memory_size) {
        Ok(m) => m as u64,
        Err(e) => return Err(e),
    };
    Ok(MempoolQueryData { transaction_count, memory_footprint })
}

/// The number of views consensus has run, the denominator of the success rate.
pub fn total_views(metrics: &PrometheusMetrics) -> (r: QueryResult<usize>)
    ensures
        match metrics.consensus {
            Err(e) => r matches Err(q) && reports_metrics_error(q, e),
            Ok(c) => reads_gauge(c.current_view, r),
        },
{
    match consensus_metrics(metrics) {
        Ok(c) => read_gauge(&c.current_view),
        Err(e) => Err(e),
    }
}

/// A minimal data source for the status API, with no persistent storage: all of its state is
/// the metrics that HotShot updates.
#[derive(Debug)]
pub struct MetricsDataSource {
    pub metrics: PrometheusMetrics,
}

impl MetricsDataSource {
    /// The current block height, which is never 0.
    pub fn block_height(&self) -> (r: QueryResult<usize>)
        ensures
            spec_block_height(self.metrics, r),
            r matches Ok(h) ==> h >= 1,
    {
        let consensus = match consensus_metrics(&self.metrics) {
            Ok(c) => c,
            Err(e) => return Err(e),
        };
        match read_gauge(&consensus.last_synced_block_height) {
            Ok(v) => Ok(block_height_from_gauge(v)),
            Err(e) => Err(e),
        }
    }

    /// The metrics of this data source.
    pub fn metrics(&self) -> (m: &PrometheusMetrics)
        ensures
            *m == self.metrics,
    {
        &self.metrics
    }
}

} // verus!
