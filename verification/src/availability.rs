//! Queries for HotShot chain state: the data that the availability API serves.

pub mod data_source;
pub mod query_data;

pub use data_source::{
    BlockHash, BlockId, Commitment, ErrorContext, ErrorEvent, LeafHash, LeafId,
    MissingBlockContext, MissingLeafContext, ResourceId,
};
pub use query_data::{BlockQueryData, LeafQueryData};
