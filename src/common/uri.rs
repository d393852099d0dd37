//! Regions and their servers, shared with the fax client.

pub use crate::general::uri::{determine_region_uri, Region, RegionUri};
