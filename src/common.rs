//! Pieces shared by every service client.

pub mod creds;
pub mod decimal;
pub mod encoding;
pub mod uri;
