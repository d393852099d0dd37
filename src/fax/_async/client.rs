//! The fax client; its operations are driven from an async task.

pub use crate::fax::client::{ClientSDK, ClientSDKBuilder};
