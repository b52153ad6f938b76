//! Fetching from another instance of this query service: checking what it returns.

use crate::availability::{BlockQueryData, Commitment, MissingBlockContext};
use crate::query_error::{QueryError, QueryResult};
use vstd::prelude::*;

verus! {

/// The message that reports a retrieved block whose commitment, rendered `found`, is not the
/// requested hash, rendered `expected`.
pub open spec fn mismatch_message(found: Seq<char>, expected: Seq<char>) -> Seq<char> {
    "retrieved block commitment "@ + found + " does not match expected hash "@ + expected
}

/// The query data for a block retrieved from another query service, given the commitment
/// computed from the retrieved block, its size, and the text forms of that commitment and of
/// the requested hash.
///
/// Only the block itself is taken from the other service: the metadata comes from the
/// request, which originated in this node. A block that does not commit to the requested hash
/// is rejected with an error naming both commitments.
pub fn fetched_block<B>(
    req: &MissingBlockContext,
    block: B,
    commitment: Commitment,
    size: u64,
    commitment_text: &str,
    hash_text: &str,
) -> (r: QueryResult<BlockQueryData<B>>)
    ensures
        commitment != req.hash ==> (r matches Err(QueryError::Error { message })
            && message@ == mismatch_message(commitment_text@, hash_text@)),
        commitment == req.hash ==> r == Ok::<BlockQueryData<B>, QueryError>(
            BlockQueryData {
                block,
                size,
                hash: req.hash,
                height: req.height,
                timestamp: req.timestamp,
            },
        ),
{
    if !commitment.same(&req.hash) {
        let mut message = "retrieved block commitment ".to_string();
        message.append(commitment_text);
        message.append(" does not match expected hash ");
        message.append(hash_text);
        return Err(QueryError::Error { message });
    }
    Ok(BlockQueryData { block, size, hash: req.hash, height: req.height, timestamp: req.timestamp })
}

} // verus!
