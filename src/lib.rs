//! Client library for the Retarus fax, SMS and Webexpress REST services.
//!
//! The library holds what a client decides: which servers serve a region,
//! how credentials become an authorization token, which URI each operation
//! uses, how a reply is classified and when the walk over the candidate
//! servers stops. Performing the HTTP calls is left to the caller, who feeds
//! each reply back into a [`general::failover::CandidateWalk`].

pub mod common;
pub mod general;
pub mod fax;
pub mod sms;
pub mod webexpress;
