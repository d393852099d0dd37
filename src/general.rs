//! Region directory, credentials, reports and the candidate walk.

pub mod creds;
pub mod failover;
pub mod report;
pub mod uri;
