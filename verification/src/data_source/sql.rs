//! The SQL-backed data source: query construction, row interpretation and streaming.

pub mod fetching;
pub mod parse;
