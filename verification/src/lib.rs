//! Verified core of a GitOps webhook bridge.
//!
//! The library authenticates hosting-provider webhook deliveries
//! (user-agent and HMAC-SHA256 body signature checks), parses and
//! routes events, validates git references and repository paths, and
//! decides whether a working copy must be cloned fresh or updated in
//! place.  The decisions are proved against the contracts in each
//! module; the surrounding process (HTTP serving, subprocess
//! execution, environment loading) stays outside the library and
//! feeds it plain values.

pub mod config;
pub mod crypto;
pub mod error;
pub mod git;
pub mod github;
pub mod server_info;
pub mod service;
pub mod text;
