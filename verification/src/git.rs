//! Git-side model: backends, references, repository paths, the
//! version-control capability interface, and the clone-or-update
//! orchestration.

pub mod backend;
pub mod error;
pub mod recording;
pub mod ref_type;
pub mod repo_cloner;
pub mod repository_path;
pub mod service;

pub use self::backend::GitBackend;
pub use self::error::GitError;
pub use self::recording::RecordingGitService;
pub use self::ref_type::RefType;
pub use self::repo_cloner::RepoCloner;
pub use self::repository_path::RepositoryPath;
pub use self::service::{GitCall, GitCallRecord, GitService};
