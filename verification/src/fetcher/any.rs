//! Combining several data availability providers: try each in order until one succeeds.

use crate::query_error::{QueryError, QueryResult};
use vstd::prelude::*;

verus! {

/// What a combined fetch does next.
#[derive(Debug)]
pub enum AnyFetchStep<T> {
    /// Ask the provider with this index.
    Try(usize),
    /// The combined fetch is over, with this result.
    Done(QueryResult<T>),
}

/// The first step of a combined fetch over `count` providers.
pub open spec fn any_fetch_first<T>(count: usize) -> AnyFetchStep<T> {
    if count == 0 {
        AnyFetchStep::Done(Err(QueryError::NotFound))
    } else {
        AnyFetchStep::Try(0)
    }
}

/// The step after provider `index` of `count` answered `result`.
pub open spec fn any_fetch_after<T>(index: usize, count: usize, result: QueryResult<T>) -> AnyFetchStep<
    T,
> {
    match result {
        Ok(obj) => AnyFetchStep::Done(Ok(obj)),
        Err(_) => if index + 1 < count {
            AnyFetchStep::Try((index + 1) as usize)
        } else {
            AnyFetchStep::Done(Err(QueryError::NotFound))
        },
    }
}

/// Start a combined fetch over `count` providers: ask the first, if there is one.
pub fn any_fetch_start<T>(count: usize) -> (step: AnyFetchStep<T>)
    ensures
        step == any_fetch_first::<T>(count),
{
    if count == 0 {
        AnyFetchStep::Done(Err(QueryError::NotFound))
    } else {
        AnyFetchStep::Try(0)
    }
}

/// Continue a combined fetch after provider `index` of `count` answered `result`.
///
/// The first object retrieved is the result; a failure moves on to the next provider, in
/// order. When every provider has failed, the specific errors have already been reported one
/// by one, and the combined fetch fails with [`QueryError::NotFound`].
pub fn any_fetch_next<T>(index: usize, count: usize, result: QueryResult<T>) -> (step: AnyFetchStep<T>)
    requires
        index < count,
    ensures
        step == any_fetch_after(index, count, result),
{
    match result {
        Ok(obj) => AnyFetchStep::Done(Ok(obj)),
        Err(_) => if index + 1 < count {
            AnyFetchStep::Try(index + 1)
        } else {
            AnyFetchStep::Done(Err(QueryError::NotFound))
        },
    }
}

/// The result of a combined fetch whose providers from `index` on would answer `results`,
/// driving it with [`any_fetch_after`].
pub open spec fn drive_from<T>(results: Seq<QueryResult<T>>, index: usize) -> QueryResult<T>
    decreases results.len() - index,
{
    if index >= results.len() {
        Err(QueryError::NotFound)
    } else {
        match any_fetch_after(index, results.len() as usize, results[index as int]) {
            AnyFetchStep::Done(r) => r,
            AnyFetchStep::Try(next) => if next > index {
                drive_from(results, next)
            } else {
                Err(QueryError::NotFound)
            },
        }
    }
}

/// The result of a combined fetch whose providers would answer `results`, in order.
pub open spec fn drive<T>(results: Seq<QueryResult<T>>) -> QueryResult<T> {
    match any_fetch_first::<T>(results.len() as usize) {
        AnyFetchStep::Done(r) => r,
        AnyFetchStep::Try(i) => drive_from(results, i),
    }
}

/// A combined fetch succeeds if any of its providers has the object, and then its result is
/// the object from the first provider, in order, that returned one; otherwise it fails with
/// [`QueryError::NotFound`].
pub proof fn lemma_any_fetch_first_success<T>(results: Seq<QueryResult<T>>)
    requires
        results.len() <= usize::MAX,
    ensures
        (exists|i: int| 0 <= i < results.len() && #[trigger] results[i] is Ok) ==> {
            let first = choose|i: int|
                0 <= i < results.len() && results[i] is Ok && (forall|j: int|
                    0 <= j < i ==> !(#[trigger] results[j] is Ok));
            drive(results) == results[first]
        },
        (forall|i: int| 0 <= i < results.len() ==> !(#[trigger] results[i] is Ok)) ==> drive(results)
            == Err::<T, QueryError>(QueryError::NotFound),
{
    if results.len() > 0 {
        lemma_drive_from(results, 0);
    }
    if exists|i: int| 0 <= i < results.len() && #[trigger] results[i] is Ok {
        let w = choose|i: int| 0 <= i < results.len() && #[trigger] results[i] is Ok;
        lemma_first_ok_exists(results, w);
    }
}

proof fn lemma_first_ok_exists<T>(results: Seq<QueryResult<T>>, w: int)
    requires
        0 <= w < results.len(),
        results[w] is Ok,
    ensures
        exists|i: int|
            0 <= i < results.len() && results[i] is Ok && (forall|j: int|
                0 <= j < i ==> !(#[trigger] results[j] is Ok)),
    decreases w,
{
    if exists|j: int| 0 <= j < w && #[trigger] results[j] is Ok {
        let j = choose|j: int| 0 <= j < w && #[trigger] results[j] is Ok;
        lemma_first_ok_exists(results, j);
    } else {
        assert(forall|j: int| 0 <= j < w ==> !(#[trigger] results[j] is Ok));
    }
}

proof fn lemma_drive_from<T>(results: Seq<QueryResult<T>>, index: usize)
    requires
        results.len() <= usize::MAX,
        index < results.len(),
    ensures
        forall|i: int|
            index <= i < results.len() && results[i] is Ok && (forall|j: int|
                index <= j < i ==> !(#[trigger] results[j] is Ok)) ==> drive_from(results, index)
                == results[i],
        (forall|i: int| index <= i < results.len() ==> !(#[trigger] results[i] is Ok))
            ==> drive_from(results, index) == Err::<T, QueryError>(QueryError::NotFound),
    decreases results.len() - index,
{
    if index + 1 < results.len() {
        lemma_drive_from(results, (index + 1) as usize);
    }
}

} // verus!
