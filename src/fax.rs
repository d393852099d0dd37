//! The fax service: documents, jobs, reports and the client.

pub mod _async;
pub mod client;
pub mod document;
pub mod job;
pub mod job_error;
pub mod responses;
pub mod sync;
