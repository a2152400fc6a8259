//! The version-control capability interface.
//!
//! Implementations run the actual tool (or stand in for it in
//! tests); the trait's contracts only promise the ghost call log:
//! every invocation appends its own record together with its
//! outcome.  Orchestration code can therefore be proved to issue
//! exactly the intended commands in the intended order, to stop at
//! the first failure, and to return that failure unchanged.

use vstd::prelude::*;
use vstd::string::*;

use crate::git::error::GitError;
use crate::text::spec_views;

verus! {

/// One invocation of the version-control tool, as recorded in the
/// ghost call log of a [`GitService`].
pub enum GitCall {
    CloneRepository { working_dir: Seq<char>, reference: Seq<char>, url: Seq<char>, folder_name: Seq<char> },
    Fetch { working_dir: Seq<char> },
    Checkout { working_dir: Seq<char>, reference: Seq<char> },
    Pull { working_dir: Seq<char> },
}

/// One recorded invocation, as plain values.
#[derive(Debug, Clone, PartialEq, Eq)]
pub enum GitCallRecord {
    CloneRepository { working_dir: String, reference: String, url: String, folder_name: String },
    Fetch { working_dir: String },
    Checkout { working_dir: String, reference: String },
    Pull { working_dir: String },
}

impl GitCallRecord {
    /// The ghost call this record stands for.
    pub open spec fn spec_call(&self) -> GitCall {
        match self {
            GitCallRecord::CloneRepository { working_dir, reference, url, folder_name } => {
                GitCall::CloneRepository {
                    working_dir: working_dir@,
                    reference: reference@,
                    url: url@,
                    folder_name: folder_name@,
                }
            },
            GitCallRecord::Fetch { working_dir } => GitCall::Fetch { working_dir: working_dir@ },
            GitCallRecord::Checkout { working_dir, reference } => GitCall::Checkout {
                working_dir: working_dir@,
                reference: reference@,
            },
            GitCallRecord::Pull { working_dir } => GitCall::Pull { working_dir: working_dir@ },
        }
    }

    /// The working directory and tool arguments this record runs as:
    /// `clone -b <ref> <url> <folder>` in the parent directory,
    /// `fetch`, `checkout <ref>` and `pull` in the working copy.
    /// An executor need only spawn the tool with exactly these.
    pub fn command_args(&self) -> (r: (String, Vec<String>))
        ensures
            match self {
                GitCallRecord::CloneRepository { working_dir, reference, url, folder_name } => {
                    &&& r.0@ == working_dir@
                    &&& spec_views(r.1@) == seq![
                        "clone"@,
                        "-b"@,
                        reference@,
                        url@,
                        folder_name@,
                    ]
                },
                GitCallRecord::Fetch { working_dir } => r.0@ == working_dir@ && spec_views(r.1@)
                    == seq!["fetch"@],
                GitCallRecord::Checkout { working_dir, reference } => r.0@ == working_dir@
                    && spec_views(r.1@) == seq!["checkout"@, reference@],
                GitCallRecord::Pull { working_dir } => r.0@ == working_dir@ && spec_views(r.1@)
                    == seq!["pull"@],
            },
    {
        let mut args: Vec<String> = Vec::new();
        match self {
            GitCallRecord::CloneRepository { working_dir, reference, url, folder_name } => {
                args.push(String::from_str("clone"));
                args.push(String::from_str("-b"));
                args.push(reference.clone());
                args.push(url.clone());
                args.push(folder_name.clone());
                proof {
                    assert(spec_views(args@) =~= seq![
                        "clone"@,
                        "-b"@,
                        reference@,
                        url@,
                        folder_name@,
                    ]);
                }
                (working_dir.clone(), args)
            },
            GitCallRecord::Fetch { working_dir } => {
                args.push(String::from_str("fetch"));
                proof {
                    assert(spec_views(args@) =~= seq!["fetch"@]);
                }
                (working_dir.clone(), args)
            },
            GitCallRecord::Checkout { working_dir, reference } => {
                args.push(String::from_str("checkout"));
                args.push(reference.clone());
                proof {
                    assert(spec_views(args@) =~= seq!["checkout"@, reference@]);
                }
                (working_dir.clone(), args)
            },
            GitCallRecord::Pull { working_dir } => {
                args.push(String::from_str("pull"));
                proof {
                    assert(spec_views(args@) =~= seq!["pull"@]);
                }
                (working_dir.clone(), args)
            },
        }
    }
}

/// The ghost calls a plan of recorded steps stands for.
pub open spec fn spec_plan_calls(plan: Seq<GitCallRecord>) -> Seq<GitCall> {
    plan.map_values(|r: GitCallRecord| r.spec_call())
}

/// The outcome an operation's result records: nothing on success,
/// the error on failure.
pub open spec fn spec_outcome_of(r: Result<String, GitError>) -> Option<GitError> {
    match r {
        Ok(_) => None,
        Err(e) => Some(e),
    }
}

/// The log extension of a run follows `planned`: at least the first
/// planned call was made, the calls made are the planned ones in
/// order, and every call before the last one succeeded — so the run
/// stopped at its first failure, if any.
pub open spec fn spec_steps_follow_plan(
    extension: Seq<(GitCall, Option<GitError>)>,
    planned: Seq<GitCall>,
) -> bool {
    &&& 1 <= extension.len() <= planned.len()
    &&& (forall|i: int| 0 <= i < extension.len() ==> #[trigger] extension[i].0 == planned[i])
    &&& (forall|i: int| 0 <= i < extension.len() - 1 ==> #[trigger] extension[i].1 is None)
}

/// Every planned call was made and the last one (like all before
/// it) succeeded.
pub open spec fn spec_steps_succeeded(
    extension: Seq<(GitCall, Option<GitError>)>,
    planned: Seq<GitCall>,
) -> bool {
    extension.len() == planned.len() && extension.last().1 is None
}

/// Capability interface over a version-control tool.
///
/// Each operation runs in a working directory and yields the tool's
/// captured output on success or an operational error.  No success
/// is promised: whether an invocation succeeds is the tool's
/// business.  What is promised is the call log: every operation
/// appends exactly its own record, paired with the outcome it
/// returns.
pub trait GitService: Sized {
    /// Ghost log of the invocations made so far, oldest first, each
    /// with its outcome.
    spec fn calls(&self) -> Seq<(GitCall, Option<GitError>)>;

    /// Clone `url` into a directory named `folder_name` under
    /// `working_dir`, checking out `reference` directly.
    fn clone_repository(
        &mut self,
        working_dir: &str,
        reference: &str,
        url: &str,
        folder_name: &str,
    ) -> (r: Result<String, GitError>)
        ensures
            final(self).calls() == old(self).calls().push(
                (
                    GitCall::CloneRepository {
                        working_dir: working_dir@,
                        reference: reference@,
                        url: url@,
                        folder_name: folder_name@,
                    },
                    spec_outcome_of(r),
                ),
            ),
    ;

    /// Refresh remote references in `working_dir`.
    fn fetch(&mut self, working_dir: &str) -> (r: Result<String, GitError>)
        ensures
            final(self).calls() == old(self).calls().push(
                (GitCall::Fetch { working_dir: working_dir@ }, spec_outcome_of(r)),
            ),
    ;

    /// Switch the working tree in `working_dir` to `reference`.
    fn checkout(&mut self, working_dir: &str, reference: &str) -> (r: Result<String, GitError>)
        ensures
            final(self).calls() == old(self).calls().push(
                (
                    GitCall::Checkout { working_dir: working_dir@, reference: reference@ },
                    spec_outcome_of(r),
                ),
            ),
    ;

    /// Fast-forward the working tree in `working_dir`.
    fn pull(&mut self, working_dir: &str) -> (r: Result<String, GitError>)
        ensures
            final(self).calls() == old(self).calls().push(
                (GitCall::Pull { working_dir: working_dir@ }, spec_outcome_of(r)),
            ),
    ;
}

} // verus!
