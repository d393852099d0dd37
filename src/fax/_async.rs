//! The fax client for callers that run their own async runtime.

pub mod client;
