//! The fax client for callers that block on each operation.

pub mod client;
