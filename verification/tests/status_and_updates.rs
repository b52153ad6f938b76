use hotshot_query_service::availability::{Commitment, ErrorContext, MissingBlockContext};
use hotshot_query_service::data_source::update::{block_action, decide_pairs, BlockAction};
use hotshot_query_service::data_source::versioned_channel::VersionedChannel;
use hotshot_query_service::status::{
    self, block_height_from_gauge, consensus_metrics, mempool_info, metrics_err, total_views,
    ConsensusMetrics, EncodedPublicKey, MempoolQueryData, MetricsDataSource, MetricsError,
    PrometheusMetrics, RequestError,
};
use hotshot_query_service::{Error, QueryError, StatusCode};

fn missing(name: &str) -> MetricsError {
    MetricsError { message: format!("no metric named {name}") }
}

fn metrics(last_synced: usize, txns: usize, bytes: usize, view: usize) -> PrometheusMetrics {
    PrometheusMetrics {
        consensus: Ok(ConsensusMetrics {
            last_synced_block_height: Ok(last_synced),
            outstanding_transactions: Ok(txns),
            outstanding_transactions_memory_size: Ok(bytes),
            current_view: Ok(view),
        }),
    }
}

#[test]
fn block_height_is_at_least_one() {
    assert_eq!(block_height_from_gauge(0), 1);
    assert_eq!(block_height_from_gauge(5), 5);
    let ds = MetricsDataSource { metrics: metrics(0, 0, 0, 0) };
    assert_eq!(ds.block_height(), Ok(1));
    let ds = MetricsDataSource { metrics: metrics(12, 0, 0, 0) };
    assert_eq!(ds.block_height(), Ok(12));
    assert!(ds.metrics().consensus.is_ok());
}

#[test]
fn metric_failures_become_query_errors() {
    assert_eq!(
        metrics_err(missing("x")),
        QueryError::Error { message: "no metric named x".into() }
    );
    let ds = MetricsDataSource {
        metrics: PrometheusMetrics { consensus: Err(missing("consensus")) },
    };
    assert_eq!(
        ds.block_height(),
        Err(QueryError::Error { message: "no metric named consensus".into() })
    );
    assert!(consensus_metrics(&ds.metrics).is_err());
    let mut m = metrics(3, 1, 2, 4);
    if let Ok(c) = &mut m.consensus {
        c.outstanding_transactions_memory_size = Err(missing("outstanding_transactions_memory_size"));
        c.last_synced_block_height = Err(missing("last_synced_block_height"));
    }
    assert_eq!(
        mempool_info(&m),
        Err(QueryError::Error { message: "no metric named outstanding_transactions_memory_size".into() })
    );
    assert_eq!(
        MetricsDataSource { metrics: m }.block_height(),
        Err(QueryError::Error { message: "no metric named last_synced_block_height".into() })
    );
}

#[test]
fn mempool_and_views() {
    let m = metrics(2, 1, 57, 9);
    assert_eq!(mempool_info(&m), Ok(MempoolQueryData { transaction_count: 1, memory_footprint: 57 }));
    assert_eq!(total_views(&m), Ok(9));
    let m = metrics(2, 0, 0, 0);
    assert_eq!(mempool_info(&m), Ok(MempoolQueryData { transaction_count: 0, memory_footprint: 0 }));
    assert_eq!(total_views(&m), Ok(0));
}

#[test]
fn error_status_codes() {
    assert_eq!(QueryError::NotFound.status(), StatusCode { code: 404 });
    assert_eq!(QueryError::Missing.status(), StatusCode { code: 404 });
    assert_eq!(QueryError::Error { message: "m".into() }.status(), StatusCode { code: 500 });
    let req = status::Error::Request { source: RequestError { message: "bad".into() } };
    assert_eq!(req.status().code, 400);
    let q = status::Error::QueryProposals {
        source: QueryError::NotFound,
        proposer: EncodedPublicKey(vec![1, 2]),
    };
    assert_eq!(q.status().code, 404);
    assert_eq!(status::internal("boom"), status::Error::Internal { reason: "boom".into() });
    assert_eq!(status::internal("boom").status().code, 500);
    let e = Error::internal("oops");
    assert_eq!(e, Error::Custom { message: "oops".into(), status: StatusCode { code: 500 } });
    assert_eq!(e.status().code, 500);
    let e = Error::catch_all(StatusCode { code: 418 }, "teapot".into());
    assert_eq!(e.status().code, 418);
    assert_eq!(Error::Status { source: req }.status().code, 400);
}

#[test]
fn decided_leaves_pair_with_their_certificates_oldest_first() {
    // Each leaf carries the certificate of its parent, the next leaf in the chain.
    let pairs = decide_pairs(vec![("c", "qb"), ("b", "qa"), ("a", "q_before_a")], "qc");
    assert_eq!(pairs, vec![("a", "qa"), ("b", "qb"), ("c", "qc")]);
    assert_eq!(decide_pairs(vec![("x", "q_before_x")], "qx"), vec![("x", "qx")]);
    assert!(decide_pairs::<&str, &str>(vec![], "qc").is_empty());
}

#[test]
fn unavailable_payloads_are_reported() {
    let ctx = MissingBlockContext { hash: Commitment([1; 32]), height: 4, timestamp: 7 };
    assert_eq!(block_action(Some("block"), ctx), BlockAction::Insert("block"));
    match block_action::<&str>(None, ctx) {
        BlockAction::ReportMissing(event) => {
            assert_eq!(event.error, QueryError::Missing);
            assert_eq!(event.context, Some(ErrorContext::MissingBlock(ctx)));
        }
        BlockAction::Insert(_) => panic!("payload was not available"),
    }
}

#[test]
fn versioned_channel_delivers_only_committed_messages() {
    let mut c = VersionedChannel::init();
    c.send(1);
    c.send(2);
    assert_eq!(c.pending_len(), 2);
    assert_eq!(c.commit(), vec![1, 2]);
    assert_eq!(c.commit(), Vec::<i32>::new());
    c.send(3);
    c.revert();
    assert_eq!(c.pending_len(), 0);
    c.send(4);
    assert_eq!(c.commit(), vec![4]);
}
