//! The SMS service: jobs, filters and the client.

pub mod client;
pub mod models;
