use hotshot_query_service::availability::{
    Commitment, ErrorContext, ErrorEvent, MissingBlockContext, ResourceId,
};
use hotshot_query_service::data_source::sql::fetching::{
    block_fetch_after_leaf, block_fetch_step, block_lookup_query, block_range_query,
    bounds_to_where_clause, is_awaited, leaf_lookup_query, leaf_range_query, BlockFetchStep,
    HeaderLookup, QueryParam, RangeBound,
    ResourceStream, StreamStep, BLOCK_COLUMNS, LEAF_COLUMNS,
};
use hotshot_query_service::data_source::sql::parse::{block_query_data, payload_columns};
use hotshot_query_service::QueryError;

fn clause(start: RangeBound, end: RangeBound) -> (String, Vec<i64>) {
    bounds_to_where_clause(start, end, "height")
}

#[test]
fn where_clause_inclusive_inclusive() {
    assert_eq!(
        clause(RangeBound::Included(1), RangeBound::Included(2)),
        (" WHERE height >= $1 AND height <= $2".to_string(), vec![1, 2])
    );
}

#[test]
fn where_clause_inclusive_exclusive() {
    assert_eq!(
        clause(RangeBound::Included(1), RangeBound::Excluded(3)),
        (" WHERE height >= $1 AND height < $2".to_string(), vec![1, 3])
    );
}

#[test]
fn where_clause_inclusive_unbounded() {
    assert_eq!(
        clause(RangeBound::Included(1), RangeBound::Unbounded),
        (" WHERE height >= $1".to_string(), vec![1])
    );
}

#[test]
fn where_clause_unbounded_inclusive() {
    assert_eq!(
        clause(RangeBound::Unbounded, RangeBound::Included(2)),
        (" WHERE height <= $1".to_string(), vec![2])
    );
}

#[test]
fn where_clause_unbounded_exclusive() {
    assert_eq!(
        clause(RangeBound::Unbounded, RangeBound::Excluded(3)),
        (" WHERE height < $1".to_string(), vec![3])
    );
}

#[test]
fn where_clause_unbounded_unbounded() {
    assert_eq!(clause(RangeBound::Unbounded, RangeBound::Unbounded), (String::new(), vec![]));
}

#[test]
fn where_clause_exclusive_bounds() {
    assert_eq!(
        clause(RangeBound::Excluded(0), RangeBound::Included(2)),
        (" WHERE height > $1 AND height <= $2".to_string(), vec![0, 2])
    );
    assert_eq!(
        clause(RangeBound::Excluded(0), RangeBound::Excluded(3)),
        (" WHERE height > $1 AND height < $2".to_string(), vec![0, 3])
    );
    assert_eq!(
        clause(RangeBound::Excluded(0), RangeBound::Unbounded),
        (" WHERE height > $1".to_string(), vec![0])
    );
}

#[test]
fn where_clause_other_column_and_large_bound() {
    let (text, params) =
        bounds_to_where_clause(RangeBound::Included(usize::MAX), RangeBound::Unbounded, "h.height");
    assert_eq!(text, " WHERE h.height >= $1");
    assert_eq!(params, vec![usize::MAX as i64]);
}

#[test]
fn leaf_queries() {
    let q = leaf_lookup_query(ResourceId::Number(7));
    assert_eq!(q.text, format!("SELECT {LEAF_COLUMNS} FROM leaf WHERE height = $1"));
    assert_eq!(q.param, QueryParam::Height(7));
    let h = Commitment([3; 32]);
    let q = leaf_lookup_query(ResourceId::Hash(h));
    assert_eq!(q.text, "SELECT leaf, qc FROM leaf WHERE hash = $1");
    assert_eq!(q.param, QueryParam::Hash(h));
    let q = leaf_range_query(RangeBound::Included(1), RangeBound::Excluded(3));
    assert_eq!(
        q.text,
        "SELECT leaf, qc FROM leaf WHERE height >= $1 AND height < $2 ORDER BY height ASC"
    );
    assert_eq!(q.params, vec![1, 3]);
    let q = leaf_range_query(RangeBound::Unbounded, RangeBound::Unbounded);
    assert_eq!(q.text, "SELECT leaf, qc FROM leaf ORDER BY height ASC");
    assert!(q.params.is_empty());
}

#[test]
fn block_queries() {
    let q = block_lookup_query(ResourceId::Number(4));
    let where_clause = "h.height = $1";
    assert_eq!(
        q.text,
        format!(
            "SELECT {BLOCK_COLUMNS}
              FROM header AS h
              JOIN payload AS p ON h.height = p.height
              WHERE {where_clause}
              ORDER BY h.height ASC
              LIMIT 1"
        )
    );
    assert_eq!(q.param, QueryParam::Height(4));
    let q = block_lookup_query(ResourceId::Hash(Commitment([9; 32])));
    assert!(q.text.contains("WHERE h.hash = $1"));
    let q = block_range_query(RangeBound::Included(2), RangeBound::Unbounded);
    let where_clause = " WHERE h.height >= $1";
    assert_eq!(
        q.text,
        format!(
            "SELECT {BLOCK_COLUMNS}
              FROM header AS h
              JOIN payload AS p ON h.height = p.height
              {where_clause}
              ORDER BY h.height ASC"
        )
    );
    assert_eq!(q.params, vec![2]);
}

#[test]
fn stream_steps() {
    let mut s = ResourceStream::new(5);
    assert_eq!(s.on_available(Some(Ok("a"))), StreamStep::Yield("a"));
    assert_eq!(s.height(), 6);
    assert_eq!(s.on_available::<&str>(Some(Err(QueryError::Missing))), StreamStep::Fetch { height: 6 });
    assert_eq!(s.height(), 6);
    s.on_retrieved();
    assert_eq!(s.height(), 7);
    assert_eq!(s.on_available::<&str>(Some(Err(QueryError::NotFound))), StreamStep::Retry { height: 7 });
    assert_eq!(
        s.on_available::<&str>(Some(Err(QueryError::Error { message: "db".into() }))),
        StreamStep::Retry { height: 7 }
    );
    assert_eq!(s.on_available::<&str>(None), StreamStep::Wait { height: 7, refresh_from: 8 });
    assert_eq!(s.height(), 7);
}

#[test]
fn header_lookup_steps() {
    let ctx = MissingBlockContext { hash: Commitment([1; 32]), height: 5, timestamp: 77 };
    let report = ErrorEvent {
        error: QueryError::Missing,
        context: Some(ErrorContext::MissingBlock(ctx)),
    };
    assert_eq!(
        block_fetch_step(5, HeaderLookup::Found(ctx)),
        BlockFetchStep::ReportAndWait { report: report.clone(), height: 5 }
    );
    assert_eq!(block_fetch_step(5, HeaderLookup::Absent), BlockFetchStep::FetchLeaf { height: 5 });
    assert_eq!(block_fetch_step(5, HeaderLookup::Malformed), BlockFetchStep::Retry);
    assert_eq!(block_fetch_step(5, HeaderLookup::Failed), BlockFetchStep::Retry);
    assert_eq!(
        block_fetch_after_leaf(5, ctx),
        BlockFetchStep::ReportAndWait { report, height: 5 }
    );
    assert!(is_awaited(3, 3));
    assert!(!is_awaited(2, 3));
}

#[test]
fn block_rows() {
    assert_eq!(payload_columns(Some(3), Some(vec![1, 2, 3])), Ok((3, vec![1, 2, 3])));
    assert_eq!(payload_columns(None, Some(vec![1])), Err(QueryError::Missing));
    assert_eq!(payload_columns(Some(1), None), Err(QueryError::Missing));
    assert_eq!(payload_columns(None, None), Err(QueryError::Missing));
    let b = block_query_data("payload", 7, Commitment([2; 32]), 12, -5);
    assert_eq!(b.block, "payload");
    assert_eq!(b.size, 7);
    assert_eq!(b.hash, Commitment([2; 32]));
    assert_eq!(b.height, 12);
    assert_eq!(b.timestamp, -5);
}

#[test]
fn where_clause_selects_range_heights() {
    // Evaluate the clause the way a database would, on a concrete range: every height in
    // 0..10 passes it exactly when it lies in 2..=5.
    let (text, params) = bounds_to_where_clause(RangeBound::Included(2), RangeBound::Included(5), "height");
    assert_eq!(text, " WHERE height >= $1 AND height <= $2");
    for n in 0i64..10 {
        let passes = n >= params[0] && n <= params[1];
        assert_eq!(passes, (2..=5).contains(&n));
    }
}
