//! Fetching of missing data from external data availability providers.
//!
//! A data source reports each resource it finds missing as an error event. The fetcher task
//! turns each such event into a request, makes sure that at most one fetch of the same
//! resource is in flight at a time, retries each fetch until it succeeds, and only completes
//! a request once the data source has accepted and committed the fetched object.

pub mod any;
pub mod query_service;
pub mod testing;

use crate::availability::{
    BlockHash, Commitment, ErrorContext, MissingBlockContext, MissingLeafContext,
};
use vstd::prelude::*;

verus! {

/// A key that identifies a requested resource, and that can be compared exactly.
pub trait RequestKey: Copy + Sized {
    /// Whether `self` and `other` identify the same resource.
    fn same_key(&self, other: &Self) -> (r: bool)
        ensures
            r == (*self == *other),
    ;
}

impl RequestKey for usize {
    fn same_key(&self, other: &Self) -> (r: bool) {
        *self == *other
    }
}

impl RequestKey for Commitment {
    fn same_key(&self, other: &Self) -> (r: bool) {
        self.same(other)
    }
}

/// A request to fetch a resource from an external data availability provider.
///
/// The request holds all the context needed to retrieve the resource, and a unique key for
/// it, which helps to avoid making duplicate requests for the same object at the same time.
pub trait FetchRequest {
    type Key: RequestKey;

    /// The key of this request.
    spec fn spec_key(&self) -> Self::Key;

    /// The key of this request.
    fn key(&self) -> (k: Self::Key)
        ensures
            k == self.spec_key(),
    ;
}

impl FetchRequest for MissingLeafContext {
    type Key = usize;

    /// Missing leaves are identified by their height.
    open spec fn spec_key(&self) -> usize {
        self.height
    }

    fn key(&self) -> (k: usize) {
        self.height
    }
}

impl FetchRequest for MissingBlockContext {
    type Key = BlockHash;

    /// Missing blocks are identified by their hash.
    open spec fn spec_key(&self) -> BlockHash {
        self.hash
    }

    fn key(&self) -> (k: BlockHash) {
        self.hash
    }
}

/// Missing leaves are told apart by height: two leaf requests share a key exactly when they are
/// for the same height, so, with the requests `in_flight` being fetched, a request for a leaf
/// starts a fetch exactly when none of them is for the same height.
pub proof fn lemma_leaf_requests_keyed_by_height(
    a: MissingLeafContext,
    b: MissingLeafContext,
    in_flight: Seq<MissingLeafContext>,
)
    ensures
        (a.spec_key() == b.spec_key()) == (a.height == b.height),
        fetch_event_step(in_flight.map_values(|r: MissingLeafContext| r.spec_key()).to_set(), FetchEvent::Request(b.spec_key())).1 == !(exists|i: int| 0 <= i < in_flight.len() && #[trigger] in_flight[i].height == b.height),
{
    let keys = in_flight.map_values(|r: MissingLeafContext| r.spec_key());
    if keys.to_set().contains(b.spec_key()) {
        let i = choose|i: int| 0 <= i < keys.len() && keys[i] == b.spec_key();
        assert(in_flight[i].height == b.height);
    }
    if exists|i: int| 0 <= i < in_flight.len() && #[trigger] in_flight[i].height == b.height {
        let i = choose|i: int| 0 <= i < in_flight.len() && #[trigger] in_flight[i].height == b.height;
        assert(keys[i] == b.spec_key());
        assert(keys.contains(b.spec_key()));
    }
}

/// Missing blocks are told apart by hash: two block requests share a key exactly when they are
/// for the same hash, so, with the requests `in_flight` being fetched, a request for a block
/// starts a fetch exactly when none of them is for the same hash.
pub proof fn lemma_block_requests_keyed_by_hash(
    a: MissingBlockContext,
    b: MissingBlockContext,
    in_flight: Seq<MissingBlockContext>,
)
    ensures
        (a.spec_key() == b.spec_key()) == (a.hash == b.hash),
        fetch_event_step(in_flight.map_values(|r: MissingBlockContext| r.spec_key()).to_set(), FetchEvent::Request(b.spec_key())).1 == !(exists|i: int| 0 <= i < in_flight.len() && #[trigger] in_flight[i].hash == b.hash),
{
    let keys = in_flight.map_values(|r: MissingBlockContext| r.spec_key());
    if keys.to_set().contains(b.spec_key()) {
        let i = choose|i: int| 0 <= i < keys.len() && keys[i] == b.spec_key();
        assert(in_flight[i].hash == b.hash);
    }
    if exists|i: int| 0 <= i < in_flight.len() && #[trigger] in_flight[i].hash == b.hash {
        let i = choose|i: int| 0 <= i < in_flight.len() && #[trigger] in_flight[i].hash == b.hash;
        assert(keys[i] == b.spec_key());
        assert(keys.contains(b.spec_key()));
    }
}

/// The keys of the fetches in flight: each key at most once.
#[derive(Debug)]
pub struct PendingFetches<K: RequestKey> {
    keys: Vec<K>,
}

impl<K: RequestKey> View for PendingFetches<K> {
    type V = Set<K>;

    /// The set of keys in flight.
    closed spec fn view(&self) -> Set<K> {
        self.keys@.to_set()
    }
}

impl<K: RequestKey> PendingFetches<K> {
    #[verifier::type_invariant]
    spec fn no_duplicates(&self) -> bool {
        self.keys@.no_duplicates()
    }

    /// No fetch in flight.
    pub fn new() -> (p: PendingFetches<K>)
        ensures
            p@ == Set::<K>::empty(),
    {
        let p = PendingFetches { keys: Vec::new() };
        proof {
            vstd::seq_lib::seq_to_set_is_finite(p.keys@);
            assert(p.keys@.to_set() =~= Set::<K>::empty());
        }
        p
    }

    fn index_of(&self, key: &K) -> (r: Option<usize>)
        ensures
            r matches Some(i) ==> i < self.keys@.len() && self.keys@[i as int] == *key,
            r is None ==> !self.keys@.contains(*key),
    {
        let mut i: usize = 0;
        while i < self.keys.len()
            invariant
                i <= self.keys@.len(),
                forall|j: int| 0 <= j < i ==> self.keys@[j] != *key,
            decreases self.keys@.len() - i,
        {
            if self.keys[i].same_key(key) {
                return Some(i);
            }
            i = i + 1;
        }
        None
    }

    /// Whether a fetch of `key` is in flight.
    pub fn contains(&self, key: &K) -> (r: bool)
        ensures
            r == self@.contains(*key),
    {
        match self.index_of(key) {
            Some(_) => true,
            None => false,
        }
    }

    /// Claim the fetch of `key`: returns whether no fetch of it was in flight, in which case
    /// the caller is the one responsible for fetching it. Either way `key` is in flight after.
    pub fn begin(&mut self, key: K) -> (needs_fetch: bool)
        ensures
            needs_fetch == !old(self)@.contains(key),
            final(self)@ == old(self)@.insert(key),
    {
        proof {
            use_type_invariant(&*self);
        }
        let found = self.index_of(&key);
        match found {
            Some(_) => {
                proof {
                    assert(self.keys@.to_set().insert(key) =~= self.keys@.to_set());
                }
                false
            },
            None => {
                let ghost before = self.keys@;
                let mut keys: Vec<K> = Vec::new();
                std::mem::swap(&mut keys, &mut self.keys);
                keys.push(key);
                proof {
                    assert(keys@ =~= before.push(key));
                    assert forall|x: K| #[trigger] keys@.contains(x) == (before.contains(x) || x
                        == key) by {
                        if before.contains(x) {
                            let j = choose|j: int| 0 <= j < before.len() && before[j] == x;
                            assert(keys@[j] == x);
                        }
                        if x == key {
                            assert(keys@[before.len() as int] == x);
                        }
                    }
                    assert(keys@.to_set() =~= before.to_set().insert(key));
                    assert forall|i: int, j: int|
                        0 <= i < j < keys@.len() implies keys@[i] != keys@[j] by {
                        if j == before.len() {
                            assert(before.contains(before[i]));
                        }
                    }
                }
                self.keys = keys;
                true
            },
        }
    }

    /// The fetch of `key` completed: it is no longer in flight.
    pub fn finish(&mut self, key: K)
        ensures
            final(self)@ == old(self)@.remove(key),
    {
        proof {
            use_type_invariant(&*self);
        }
        let found = self.index_of(&key);
        match found {
            Some(i) => {
                let ghost before = self.keys@;
                let mut keys: Vec<K> = Vec::new();
                std::mem::swap(&mut keys, &mut self.keys);
                keys.remove(i);
                proof {
                    assert(keys@ =~= before.remove(i as int));
                    assert forall|x: K| #[trigger] keys@.to_set().contains(x)
                        == before.to_set().remove(key).contains(x) by {
                        if keys@.contains(x) {
                            let j = choose|j: int| 0 <= j < keys@.len() && keys@[j] == x;
                            if j < i {
                                assert(before[j] == x);
                            } else {
                                assert(before[j + 1] == x);
                            }
                            assert(before.contains(x));
                        }
                        if before.contains(x) && x != key {
                            let j = choose|j: int| 0 <= j < before.len() && before[j] == x;
                            assert(j != i);
                            if j < i {
                                assert(keys@[j] == x);
                            } else {
                                assert(keys@[j - 1] == x);
                            }
                        }
                    }
                    assert(keys@.to_set() =~= before.to_set().remove(key));
                    assert forall|a: int, b: int|
                        0 <= a < b < keys@.len() implies keys@[a] != keys@[b] by {
                        let a0 = if a < i { a } else { a + 1 };
                        let b0 = if b < i { b } else { b + 1 };
                        assert(keys@[a] == before[a0]);
                        assert(keys@[b] == before[b0]);
                    }
                }
                self.keys = keys;
            },
            None => {
                proof {
                    assert(self.keys@.to_set().remove(key) =~= self.keys@.to_set());
                }
            },
        }
    }
}

/// An event in the bookkeeping of fetches: a request for a resource, or the completion of its
/// fetch.
#[derive(Clone, Copy, Debug, PartialEq, Eq)]
pub enum FetchEvent<K> {
    Request(K),
    Complete(K),
}

/// The keys in flight after an event, and whether the event starts a fetch.
pub open spec fn fetch_event_step<K>(in_flight: Set<K>, e: FetchEvent<K>) -> (Set<K>, bool) {
    match e {
        FetchEvent::Request(k) => (in_flight.insert(k), !in_flight.contains(k)),
        FetchEvent::Complete(k) => (in_flight.remove(k), false),
    }
}

/// For each of `events` in turn, whether it starts a fetch.
pub open spec fn fetches_started<K>(in_flight: Set<K>, events: Seq<FetchEvent<K>>) -> Seq<bool>
    decreases events.len(),
{
    if events.len() == 0 {
        Seq::empty()
    } else {
        let (next, started) = fetch_event_step(in_flight, events[0]);
        seq![started] + fetches_started(next, events.drop_first())
    }
}

/// No duplicate requests at the same time: while a resource is being fetched, and until its
/// fetch completes, no further request for it starts another fetch.
pub proof fn lemma_no_duplicate_fetches<K>(in_flight: Set<K>, key: K, events: Seq<FetchEvent<K>>)
    requires
        in_flight.contains(key),
        forall|i: int| 0 <= i < events.len() ==> events[i] != FetchEvent::Complete(key),
    ensures
        fetches_started(in_flight, events).len() == events.len(),
        forall|i: int|
            0 <= i < events.len() && events[i] == FetchEvent::Request(key)
                ==> !#[trigger] fetches_started(in_flight, events)[i],
    decreases events.len(),
{
    if events.len() > 0 {
        let rest = events.drop_first();
        let (next, started) = fetch_event_step(in_flight, events[0]);
        assert(next.contains(key));
        assert forall|i: int| 0 <= i < rest.len() implies rest[i] != FetchEvent::Complete(key) by {
            assert(rest[i] == events[i + 1]);
        }
        lemma_no_duplicate_fetches(next, key, rest);
        let all = fetches_started(in_flight, events);
        assert forall|i: int|
            0 <= i < events.len() && events[i] == FetchEvent::Request(key) implies !#[trigger] all[i] by {
            if i > 0 {
                assert(rest[i - 1] == events[i]);
                assert(all[i] == fetches_started(next, rest)[i - 1]);
            }
        }
    }
}

/// The bookkeeping of the fetcher task for one kind of request: which resources are being
/// fetched.
#[derive(Debug)]
pub struct Fetcher<R: FetchRequest> {
    pending: PendingFetches<R::Key>,
}

impl<R: FetchRequest> View for Fetcher<R> {
    type V = Set<R::Key>;

    /// The keys of the requests being fetched.
    closed spec fn view(&self) -> Set<R::Key> {
        self.pending@
    }
}

impl<R: FetchRequest> Fetcher<R> {
    /// A fetcher with nothing in flight.
    pub fn new() -> (f: Fetcher<R>)
        ensures
            f@ == Set::<R::Key>::empty(),
    {
        Fetcher { pending: PendingFetches::new() }
    }

    /// Handle a request: returns whether a fetch must be started for it, which is the case
    /// exactly when no fetch of the same resource is already in flight.
    pub fn fetch(&mut self, req: &R) -> (needs_fetch: bool)
        ensures
            needs_fetch == !old(self)@.contains(req.spec_key()),
            final(self)@ == old(self)@.insert(req.spec_key()),
            (final(self)@, needs_fetch) == fetch_event_step(
                old(self)@,
                FetchEvent::Request(req.spec_key()),
            ),
    {
        let key = req.key();
        self.pending.begin(key)
    }

    /// The fetched object for `req` was stored and committed: the request is complete.
    pub fn complete(&mut self, req: &R)
        ensures
            final(self)@ == old(self)@.remove(req.spec_key()),
            final(self)@ == fetch_event_step(
                old(self)@,
                FetchEvent::Complete(req.spec_key()),
            ).0,
    {
        let key = req.key();
        self.pending.finish(key)
    }
}

/// A resource to fetch in answer to an error event.
#[derive(Clone, Copy, Debug, PartialEq, Eq)]
pub enum FetchJob {
    Block(MissingBlockContext),
    Leaf(MissingLeafContext),
}

/// The fetch that answers an error event with the given context: events about missing blocks
/// and leaves are answered by fetching them, events without context are not answered.
pub fn job_for(context: Option<ErrorContext>) -> (job: Option<FetchJob>)
    ensures
        match context {
            Some(ErrorContext::MissingBlock(ctx)) => job == Some(FetchJob::Block(ctx)),
            Some(ErrorContext::MissingLeaf(ctx)) => job == Some(FetchJob::Leaf(ctx)),
            None => job is None,
        },
{
    match context {
        Some(ErrorContext::MissingBlock(ctx)) => Some(FetchJob::Block(ctx)),
        Some(ErrorContext::MissingLeaf(ctx)) => Some(FetchJob::Leaf(ctx)),
        None => None,
    }
}

/// The phase of a fetch task.
#[derive(Clone, Copy, Debug, PartialEq, Eq, Structural)]
pub enum TaskPhase {
    /// Retrieving the object from the provider.
    Fetching,
    /// Inserting the retrieved object into the data source.
    Inserting,
    /// Committing the insertion.
    Committing,
    /// The data source holds the object: the request is complete.
    Done,
}

/// What a fetch task does next.
#[derive(Clone, Copy, Debug, PartialEq, Eq, Structural)]
pub enum TaskAction {
    /// Ask the provider for the object (again).
    Fetch,
    /// Insert the retrieved object into the data source.
    Insert,
    /// Commit the data source.
    Commit,
    /// Revert the partial changes to the data source, then insert the object again.
    RevertThenInsert,
    /// Mark the request complete.
    Complete,
}

/// The phase and action that follow the outcome of the current phase's operation.
pub open spec fn task_transition(phase: TaskPhase, succeeded: bool) -> (TaskPhase, TaskAction) {
    match phase {
        TaskPhase::Fetching => if succeeded {
            (TaskPhase::Inserting, TaskAction::Insert)
        } else {
            (TaskPhase::Fetching, TaskAction::Fetch)
        },
        TaskPhase::Inserting => if succeeded {
            (TaskPhase::Committing, TaskAction::Commit)
        } else {
            (TaskPhase::Inserting, TaskAction::RevertThenInsert)
        },
        TaskPhase::Committing => if succeeded {
            (TaskPhase::Done, TaskAction::Complete)
        } else {
            (TaskPhase::Inserting, TaskAction::RevertThenInsert)
        },
        TaskPhase::Done => (TaskPhase::Done, TaskAction::Complete),
    }
}

/// Decide the next step of a fetch task from whether the operation of its current phase
/// succeeded.
///
/// A failed fetch is retried; a failed insertion or commit is reverted and the object inserted
/// again. The request completes only after a successful commit: until the data source has
/// accepted the object, a task waiting on it would never be unblocked.
pub fn task_step(phase: TaskPhase, succeeded: bool) -> (r: (TaskPhase, TaskAction))
    requires
        phase != TaskPhase::Done,
    ensures
        r == task_transition(phase, succeeded),
        r.1 == TaskAction::Complete <==> (phase == TaskPhase::Committing && succeeded),
        r.0 == TaskPhase::Done <==> r.1 == TaskAction::Complete,
        !succeeded && phase == TaskPhase::Fetching ==> r == (TaskPhase::Fetching, TaskAction::Fetch),
        !succeeded && phase != TaskPhase::Fetching ==> r == (TaskPhase::Inserting, TaskAction::RevertThenInsert),
        succeeded && phase == TaskPhase::Fetching ==> r == (TaskPhase::Inserting, TaskAction::Insert),
        succeeded && phase == TaskPhase::Inserting ==> r == (TaskPhase::Committing, TaskAction::Commit),
{
    match phase {
        TaskPhase::Fetching => if succeeded {
            (TaskPhase::Inserting, TaskAction::Insert)
        } else {
            (TaskPhase::Fetching, TaskAction::Fetch)
        },
        TaskPhase::Inserting => if succeeded {
            (TaskPhase::Committing, TaskAction::Commit)
        } else {
            (TaskPhase::Inserting, TaskAction::RevertThenInsert)
        },
        TaskPhase::Committing => if succeeded {
            (TaskPhase::Done, TaskAction::Complete)
        } else {
            (TaskPhase::Inserting, TaskAction::RevertThenInsert)
        },
        TaskPhase::Done => (TaskPhase::Done, TaskAction::Complete),
    }
}

} // verus!
