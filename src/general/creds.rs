//! Credentials, as used by the fax clients.

pub use crate::common::creds::Credentials;
