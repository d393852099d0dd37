//! The Webexpress service: uploading distribution lists.

pub mod client;
pub mod job;
