//! The bundle of capabilities handed to request handlers.

use vstd::prelude::*;

use crate::git::error::GitError;
use crate::git::service::{GitCall, GitService};

verus! {

/// Holds the version-control capability that handlers work through.
#[derive(Debug, Clone)]
pub struct ServiceHandler<G: GitService> {
    pub git_service: G,
}

impl<G: GitService> ServiceHandler<G> {
    /// The ghost call log of the held capability.
    pub open spec fn calls(&self) -> Seq<(GitCall, Option<GitError>)> {
        self.git_service.calls()
    }

    /// Wraps an existing capability.
    pub fn new(git_service: G) -> (r: Self)
        ensures
            r.calls() == git_service.calls(),
    {
        Self { git_service }
    }

    /// Read access to the capability.
    pub fn git(&self) -> (r: &G)
        ensures
            r.calls() == self.calls(),
    {
        &self.git_service
    }
}

} // verus!
