use hotshot_query_service::availability::{
    Commitment, ErrorContext, ErrorEvent, MissingBlockContext, MissingLeafContext,
};
use hotshot_query_service::data_source::fetcher::{BlockRequest, FetchRequest, LeafRequest};
use hotshot_query_service::fetcher::any::{any_fetch_next, any_fetch_start, AnyFetchStep};
use hotshot_query_service::fetcher::query_service::fetched_block;
use hotshot_query_service::fetcher::testing::FetchGate;
use hotshot_query_service::fetcher::{
    job_for, task_step, FetchJob, Fetcher, PendingFetches, TaskAction, TaskPhase,
};
use hotshot_query_service::QueryError;

fn block_ctx(byte: u8) -> MissingBlockContext {
    MissingBlockContext { hash: Commitment([byte; 32]), height: byte as u64, timestamp: 100 }
}

#[test]
fn request_keys() {
    assert_eq!(MissingLeafContext { height: 9 }.key(), 9);
    assert_eq!(block_ctx(4).key(), Commitment([4; 32]));
    let leaf: LeafRequest = LeafRequest { height: 2 };
    assert_eq!(leaf.key(), 2);
    let block: BlockRequest = block_ctx(5);
    assert_eq!(block.key(), Commitment([5; 32]));
}

#[test]
fn commitments_compare_bytewise() {
    let mut a = [7u8; 32];
    assert!(Commitment(a).same(&Commitment([7; 32])));
    a[31] = 8;
    assert!(!Commitment(a).same(&Commitment([7; 32])));
}

#[test]
fn duplicate_requests_are_not_fetched_twice() {
    let mut leaves: Fetcher<MissingLeafContext> = Fetcher::new();
    let req = MissingLeafContext { height: 3 };
    assert!(leaves.fetch(&req));
    assert!(!leaves.fetch(&req));
    assert!(leaves.fetch(&MissingLeafContext { height: 4 }));
    leaves.complete(&req);
    assert!(leaves.fetch(&req));

    let mut blocks: Fetcher<MissingBlockContext> = Fetcher::new();
    assert!(blocks.fetch(&block_ctx(1)));
    assert!(!blocks.fetch(&block_ctx(1)));
    assert!(blocks.fetch(&block_ctx(2)));
    blocks.complete(&block_ctx(2));
    assert!(!blocks.fetch(&block_ctx(1)));
    assert!(blocks.fetch(&block_ctx(2)));
}

#[test]
fn pending_set_membership() {
    let mut p: PendingFetches<usize> = PendingFetches::new();
    assert!(!p.contains(&1));
    assert!(p.begin(1));
    assert!(p.begin(2));
    assert!(p.contains(&1));
    p.finish(1);
    assert!(!p.contains(&1));
    assert!(p.contains(&2));
    p.finish(1);
    assert!(p.contains(&2));
}

#[test]
fn events_route_to_jobs() {
    let ctx = block_ctx(3);
    assert_eq!(job_for(Some(ErrorContext::MissingBlock(ctx))), Some(FetchJob::Block(ctx)));
    let leaf = MissingLeafContext { height: 8 };
    assert_eq!(job_for(Some(ErrorContext::MissingLeaf(leaf))), Some(FetchJob::Leaf(leaf)));
    assert_eq!(job_for(None), None);
    let event = ErrorEvent::missing_leaf(8);
    assert_eq!(event.error, QueryError::Missing);
    assert_eq!(job_for(event.context), Some(FetchJob::Leaf(leaf)));
    let event = ErrorEvent::missing_block(ctx);
    assert_eq!(event.context, Some(ErrorContext::MissingBlock(ctx)));
}

#[test]
fn fetch_task_retries_until_committed() {
    assert_eq!(task_step(TaskPhase::Fetching, false), (TaskPhase::Fetching, TaskAction::Fetch));
    assert_eq!(task_step(TaskPhase::Fetching, true), (TaskPhase::Inserting, TaskAction::Insert));
    assert_eq!(
        task_step(TaskPhase::Inserting, false),
        (TaskPhase::Inserting, TaskAction::RevertThenInsert)
    );
    assert_eq!(task_step(TaskPhase::Inserting, true), (TaskPhase::Committing, TaskAction::Commit));
    assert_eq!(
        task_step(TaskPhase::Committing, false),
        (TaskPhase::Inserting, TaskAction::RevertThenInsert)
    );
    assert_eq!(task_step(TaskPhase::Committing, true), (TaskPhase::Done, TaskAction::Complete));
}

fn is_try(step: &AnyFetchStep<u32>, i: usize) -> bool {
    matches!(step, AnyFetchStep::Try(j) if *j == i)
}

#[test]
fn any_fetch_tries_in_order() {
    assert!(matches!(any_fetch_start::<u32>(0), AnyFetchStep::Done(Err(QueryError::NotFound))));
    assert!(is_try(&any_fetch_start::<u32>(3), 0));
    let err = || Err(QueryError::Error { message: "down".into() });
    assert!(is_try(&any_fetch_next::<u32>(0, 3, err()), 1));
    assert!(matches!(any_fetch_next(1, 3, Ok(42u32)), AnyFetchStep::Done(Ok(42))));
    assert!(matches!(
        any_fetch_next::<u32>(2, 3, Err(QueryError::Missing)),
        AnyFetchStep::Done(Err(QueryError::NotFound))
    ));
}

#[test]
fn fetched_blocks_are_checked_against_request() {
    let req = block_ctx(6);
    let ok = fetched_block(&req, "block", Commitment([6; 32]), 11, "six", "six").unwrap();
    assert_eq!(ok.block, "block");
    assert_eq!(ok.size, 11);
    assert_eq!(ok.hash, req.hash);
    assert_eq!(ok.height, 6);
    assert_eq!(ok.timestamp, 100);
    assert_eq!(
        fetched_block(&req, "other", Commitment([5; 32]), 11, "COMMIT~five", "COMMIT~six"),
        Err(QueryError::Error {
            message: "retrieved block commitment COMMIT~five does not match expected hash COMMIT~six"
                .to_string()
        })
    );
}

#[test]
fn gate_holds_requests_until_unblocked() {
    let mut g = FetchGate::new();
    assert!(!g.must_wait());
    assert!(!g.unblock());
    g.block();
    g.block();
    assert!(g.must_wait());
    assert!(g.unblock());
    assert!(!g.must_wait());
}

#[test]
fn held_requests_are_released_by_the_next_unblock() {
    // Block, start a request (it waits), block again and start another (both still wait);
    // the next unblock releases them, a later one releases nothing.
    let mut g = FetchGate::new();
    assert!(!g.must_wait());
    g.block();
    assert!(g.must_wait());
    g.block();
    assert!(g.must_wait());
    assert!(g.unblock());
    assert!(!g.must_wait());
    assert!(!g.unblock());
}
