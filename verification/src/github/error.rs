//! Operational errors of the hosting-API client.

use vstd::prelude::*;
use vstd::string::*;

verus! {

/// Failures of a webhook-subscription call: the transport failed
/// while registering, listing or unregistering; the provider
/// answered with an error status; or its answer did not match the
/// expected schema.  Each variant carries the underlying cause's
/// text.
#[derive(Debug, Clone, PartialEq, Eq)]
pub enum GitHubError {
    CouldNotRegisterWebhook(String),
    CouldNotListWebhooks(String),
    CouldNotUnregisterWebhook(String),
    BadStatusCode(String),
    MalformedResponse(String),
}

/// The character sequence `message` renders for a given error: the
/// failed operation, then the underlying cause.
pub open spec fn spec_github_error_message(e: &GitHubError) -> Seq<char> {
    match e {
        GitHubError::CouldNotRegisterWebhook(c) => "error while registering webhook: "@ + c@,
        GitHubError::CouldNotListWebhooks(c) => "error while listing webhooks: "@ + c@,
        GitHubError::CouldNotUnregisterWebhook(c) => "error while unregistering webhook: "@ + c@,
        GitHubError::BadStatusCode(c) => "error code received from GitHub: "@ + c@,
        GitHubError::MalformedResponse(c) => "error while parsing GitHub response: "@ + c@,
    }
}

impl GitHubError {
    /// Human-readable description for the operator.
    pub fn message(&self) -> (r: String)
        ensures
            r@ == spec_github_error_message(self),
    {
        match self {
            GitHubError::CouldNotRegisterWebhook(c) => String::from_str(
                "error while registering webhook: ",
            ).concat(c.as_str()),
            GitHubError::CouldNotListWebhooks(c) => String::from_str(
                "error while listing webhooks: ",
            ).concat(c.as_str()),
            GitHubError::CouldNotUnregisterWebhook(c) => String::from_str(
                "error while unregistering webhook: ",
            ).concat(c.as_str()),
            GitHubError::BadStatusCode(c) => String::from_str(
                "error code received from GitHub: ",
            ).concat(c.as_str()),
            GitHubError::MalformedResponse(c) => String::from_str(
                "error while parsing GitHub response: ",
            ).concat(c.as_str()),
        }
    }
}

} // verus!
