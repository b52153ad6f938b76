//! Identifiers of ledger resources and the error events that report missing ones.

use crate::query_error::QueryError;
use vstd::prelude::*;

verus! {

/// A cryptographic commitment to a consensus object: 32 bytes.
#[derive(Clone, Copy, Debug, PartialEq, Eq, PartialOrd, Ord, Hash)]
pub struct Commitment(pub [u8; 32]);

pub type BlockHash = Commitment;

pub type LeafHash = Commitment;

impl Commitment {
    /// Whether `self` and `other` are the same commitment.
    pub fn same(&self, other: &Commitment) -> (r: bool)
        ensures
            r == (*self == *other),
    {
        let mut i: usize = 0;
        while i < 32
            invariant
                0 <= i <= 32,
                forall|j: int| 0 <= j < i ==> self.0[j] == other.0[j],
            decreases 32 - i,
        {
            if self.0[i] != other.0[i] {
                return false;
            }
            i = i + 1;
        }
        proof {
            assert(self.0@ =~= other.0@);
            vstd::array::axiom_array_ext_equal(self.0, other.0);
        }
        true
    }
}

/// A reference to a resource: by its position in the chain or by its hash.
#[derive(Clone, Copy, Debug, PartialEq, Eq, PartialOrd, Ord, Hash)]
pub enum ResourceId {
    Number(usize),
    Hash(Commitment),
}

pub type BlockId = ResourceId;

pub type LeafId = ResourceId;

/// Context for a missing block: enough to retrieve the block and to rebuild its query data.
///
/// Missing blocks are always requested by their hash, so that the hash of the retrieved block
/// can be compared with the requested one.
#[derive(Clone, Copy, Debug, PartialEq, Eq)]
pub struct MissingBlockContext {
    pub hash: BlockHash,
    pub height: u64,
    pub timestamp: i128,
}

/// Context for a missing leaf: missing leaves are requested by height.
#[derive(Clone, Copy, Debug, PartialEq, Eq, Structural)]
pub struct MissingLeafContext {
    pub height: usize,
}

/// Information about what was happening when an [`ErrorEvent`] was triggered.
#[derive(Clone, Copy, Debug, PartialEq, Eq)]
pub enum ErrorContext {
    /// A block was looked up that is not available in storage.
    MissingBlock(MissingBlockContext),
    /// A leaf was looked up that is not available in storage.
    MissingLeaf(MissingLeafContext),
}

/// A notification of an error that the data source could not handle on its own, with any
/// context that may help to resolve it.
#[derive(Clone, Debug, PartialEq, Eq)]
pub struct ErrorEvent {
    pub error: QueryError,
    pub context: Option<ErrorContext>,
}

impl ErrorEvent {
    /// The event that requests the leaf at `height`.
    pub fn missing_leaf(height: usize) -> (e: ErrorEvent)
        ensures
            e.error == QueryError::Missing,
            e.context == Some(ErrorContext::MissingLeaf(MissingLeafContext { height })),
    {
        ErrorEvent {
            error: QueryError::Missing,
            context: Some(ErrorContext::MissingLeaf(MissingLeafContext { height })),
        }
    }

    /// The event that requests the block described by `ctx`.
    pub fn missing_block(ctx: MissingBlockContext) -> (e: ErrorEvent)
        ensures
            e.error == QueryError::Missing,
            e.context == Some(ErrorContext::MissingBlock(ctx)),
    {
        ErrorEvent { error: QueryError::Missing, context: Some(ErrorContext::MissingBlock(ctx)) }
    }
}

} // verus!
