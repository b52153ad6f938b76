//! The records that the availability API serves for each position in the chain.

use crate::availability::data_source::BlockHash;
use vstd::prelude::*;

verus! {

/// A decided leaf together with the quorum certificate that justifies it.
#[derive(Clone, Debug, PartialEq, Eq)]
pub struct LeafQueryData<L, Q> {
    pub leaf: L,
    pub qc: Q,
}

/// A block payload together with the metadata of its header.
#[derive(Clone, Debug, PartialEq, Eq)]
pub struct BlockQueryData<B> {
    pub block: B,
    pub size: u64,
    pub hash: BlockHash,
    pub height: u64,
    pub timestamp: i128,
}

} // verus!
