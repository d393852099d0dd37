//! The fax client; its operations are driven to completion one at a time.

pub use crate::fax::client::{ClientSDK, ClientSDKBuilder};
