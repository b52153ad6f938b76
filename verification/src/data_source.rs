//! Persistent storage and sources of data consumed by the APIs.

pub mod fetcher;
pub mod sql;
pub mod update;
pub mod versioned_channel;
