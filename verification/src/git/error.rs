//! Operational errors of the version-control side.

use vstd::prelude::*;
use vstd::string::*;

verus! {

/// Failures of version-control work: a missing tool, a failed
/// invocation, or a value that does not name a usable reference,
/// backend or repository.
#[derive(Debug, Clone, PartialEq, Eq)]
pub enum GitError {
    MissingGitBinary,
    GitExecutionError(String),
    IoError(String),
    UnsupportedRefType(String),
    UnsupportedGitBackend(String),
    MalformedRepositoryPath(String),
}

/// The character sequence `message` renders for a given error.
pub open spec fn spec_git_error_message(e: &GitError) -> Seq<char> {
    match e {
        GitError::MissingGitBinary => "Missing Git binary. Make sure Git is installed on your system and is globally accessible (present in PATH)."@,
        GitError::GitExecutionError(s) => "Error while executing git: "@ + s@,
        GitError::IoError(s) => "I/O error: "@ + s@,
        GitError::UnsupportedRefType(s) => "Unsupported Git reference type: "@ + s@,
        GitError::UnsupportedGitBackend(s) => "Unsupported Git backend: "@ + s@,
        GitError::MalformedRepositoryPath(s) => "Malformed repository path: "@ + s@,
    }
}

impl GitError {
    /// An equal copy, for recording an error beside returning it.
    pub fn duplicate(&self) -> (r: GitError)
        ensures
            r == *self,
    {
        match self {
            GitError::MissingGitBinary => GitError::MissingGitBinary,
            GitError::GitExecutionError(s) => GitError::GitExecutionError(s.clone()),
            GitError::IoError(s) => GitError::IoError(s.clone()),
            GitError::UnsupportedRefType(s) => GitError::UnsupportedRefType(s.clone()),
            GitError::UnsupportedGitBackend(s) => GitError::UnsupportedGitBackend(s.clone()),
            GitError::MalformedRepositoryPath(s) => GitError::MalformedRepositoryPath(s.clone()),
        }
    }

    /// Human-readable description, used when an error is surfaced in
    /// a response or on the command line.
    pub fn message(&self) -> (r: String)
        ensures
            r@ == spec_git_error_message(self),
    {
        match self {
            GitError::MissingGitBinary => String::from_str(
                "Missing Git binary. Make sure Git is installed on your system and is globally accessible (present in PATH).",
            ),
            GitError::GitExecutionError(s) => String::from_str("Error while executing git: ").concat(s.as_str()),
            GitError::IoError(s) => String::from_str("I/O error: ").concat(s.as_str()),
            GitError::UnsupportedRefType(s) => String::from_str("Unsupported Git reference type: ").concat(s.as_str()),
            GitError::UnsupportedGitBackend(s) => String::from_str("Unsupported Git backend: ").concat(s.as_str()),
            GitError::MalformedRepositoryPath(s) => String::from_str("Malformed repository path: ").concat(s.as_str()),
        }
    }
}

} // verus!
