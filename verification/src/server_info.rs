//! The liveness payload of the info endpoint.

use vstd::prelude::*;
use vstd::string::*;

verus! {

/// The service's name, as shown in the liveness payload and in the
/// user agent of API calls.
pub const APP_NAME: &'static str = "hookrunner";

/// The service's version, as shown in the liveness payload.
pub const APP_VERSION: &'static str = "0.1.0";

/// What the info endpoint answers: a greeting and the version.
#[derive(Debug, Clone)]
pub struct ServerInfo {
    pub message: String,
    pub version: String,
}

impl ServerInfo {
    /// The standard payload.
    pub fn new() -> (r: Self)
        ensures
            r.message@ == APP_NAME@ + ", ready for action!"@,
            r.version@ == APP_VERSION@,
    {
        Self::default()
    }
}

impl Default for ServerInfo {
    /// The standard payload.
    fn default() -> (r: Self)
        ensures
            r.message@ == APP_NAME@ + ", ready for action!"@,
            r.version@ == APP_VERSION@,
    {
        let mut message = String::from_str(APP_NAME);
        message.append(", ready for action!");
        Self { message, version: String::from_str(APP_VERSION) }
    }
}

} // verus!
