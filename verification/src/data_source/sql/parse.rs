//! Interpretation of the columns of a block row.

use crate::availability::{BlockHash, BlockQueryData};
use crate::query_error::{QueryError, QueryResult};
use vstd::prelude::*;

verus! {

/// The payload columns of a block row: its size and its encoded data.
///
/// A header is stored before its payload, so either column may still be null; then the block
/// is [`QueryError::Missing`].
pub fn payload_columns(size: Option<i32>, data: Option<Vec<u8>>) -> (r: QueryResult<(u64, Vec<u8>)>)
    ensures
        match (size, data) {
            (Some(s), Some(d)) => r matches Ok((rs, rd)) && rs == s as u64 && rd@ == d@,
            _ => r == Err::<(u64, Vec<u8>), QueryError>(QueryError::Missing),
        },
{
    match (size, data) {
        (Some(s), Some(d)) => Ok((s as u64, d)),
        _ => Err(QueryError::Missing),
    }
}

/// The query data of a block, from its decoded payload and the metadata of its row.
pub fn block_query_data<B>(block: B, size: u64, hash: BlockHash, height: i64, timestamp: i128) -> (r:
    BlockQueryData<B>)
    ensures
        r.block == block,
        r.size == size,
        r.hash == hash,
        r.height == height as u64,
        r.timestamp == timestamp,
{
    BlockQueryData { block, size, hash, height: height as u64, timestamp }
}

} // verus!
