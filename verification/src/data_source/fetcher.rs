//! Fetching from external data availability providers, as the SQL data source uses it.
//!
//! A missing block is requested by its hash, so that the hash of the retrieved block can be
//! compared with the requested one; it also carries the height and timestamp of its header, so
//! that the query data can be rebuilt from the block alone. A missing leaf is requested by its
//! height.

pub use crate::availability::{MissingBlockContext as BlockRequest, MissingLeafContext as LeafRequest};
pub use crate::fetcher::{FetchRequest, RequestKey};
