//! An in-memory version-control capability.
//!
//! It runs no tool: it records every invocation with its outcome
//! and returns canned results, with failures injectable per
//! operation.  It exists so the orchestration can be exercised
//! without touching disk or spawning processes, and it is the
//! library's own witness that the [`GitService`] contracts are
//! implementable.

use vstd::prelude::*;
use vstd::string::*;

use crate::git::error::GitError;
use crate::git::service::{spec_outcome_of, GitCall, GitCallRecord, GitService};

verus! {

/// The in-memory capability: a log of invocations, each with its
/// outcome, and, per operation, whether it should fail.
#[derive(Debug, Clone)]
pub struct RecordingGitService {
    pub log: Vec<(GitCallRecord, Option<GitError>)>,
    pub fail_clone: bool,
    pub fail_fetch: bool,
    pub fail_checkout: bool,
    pub fail_pull: bool,
}

impl RecordingGitService {
    /// A fresh recorder whose operations all succeed.
    pub fn new() -> (r: Self)
        ensures
            r.log@.len() == 0,
            !r.fail_clone && !r.fail_fetch && !r.fail_checkout && !r.fail_pull,
    {
        Self {
            log: Vec::new(),
            fail_clone: false,
            fail_fetch: false,
            fail_checkout: false,
            fail_pull: false,
        }
    }
}

/// The canned result of one recorded operation: the error when the
/// operation is set to fail, otherwise the usual captured output.
fn canned_result(fail: bool, message: &str) -> (r: (Result<String, GitError>, Option<GitError>))
    ensures
        spec_outcome_of(r.0) == r.1,
        fail <==> (r.1 matches Some(e) && e matches GitError::GitExecutionError(m) && m@
            == message@),
{
    if fail {
        let err = GitError::GitExecutionError(String::from_str(message));
        (Err(err.duplicate()), Some(err))
    } else {
        (Ok(String::from_str("OK")), None)
    }
}

impl GitService for RecordingGitService {
    /// The recorded invocations, oldest first, each with its
    /// outcome.
    open spec fn calls(&self) -> Seq<(GitCall, Option<GitError>)> {
        self.log@.map_values(|p: (GitCallRecord, Option<GitError>)| (p.0.spec_call(), p.1))
    }

    fn clone_repository(
        &mut self,
        working_dir: &str,
        reference: &str,
        url: &str,
        folder_name: &str,
    ) -> (r: Result<String, GitError>) {
        let (result, outcome) = canned_result(self.fail_clone, "clone failed");
        self.log.push((
            GitCallRecord::CloneRepository {
                working_dir: working_dir.to_owned(),
                reference: reference.to_owned(),
                url: url.to_owned(),
                folder_name: folder_name.to_owned(),
            },
            outcome,
        ));
        proof {
            assert(self.calls() =~= old(self).calls().push(
                (self.log@.last().0.spec_call(), self.log@.last().1),
            ));
        }
        result
    }

    fn fetch(&mut self, working_dir: &str) -> (r: Result<String, GitError>) {
        let (result, outcome) = canned_result(self.fail_fetch, "fetch failed");
        self.log.push((GitCallRecord::Fetch { working_dir: working_dir.to_owned() }, outcome));
        proof {
            assert(self.calls() =~= old(self).calls().push(
                (self.log@.last().0.spec_call(), self.log@.last().1),
            ));
        }
        result
    }

    fn checkout(&mut self, working_dir: &str, reference: &str) -> (r: Result<String, GitError>) {
        let (result, outcome) = canned_result(self.fail_checkout, "checkout failed");
        self.log.push((
            GitCallRecord::Checkout {
                working_dir: working_dir.to_owned(),
                reference: reference.to_owned(),
            },
            outcome,
        ));
        proof {
            assert(self.calls() =~= old(self).calls().push(
                (self.log@.last().0.spec_call(), self.log@.last().1),
            ));
        }
        result
    }

    fn pull(&mut self, working_dir: &str) -> (r: Result<String, GitError>) {
        let (result, outcome) = canned_result(self.fail_pull, "pull failed");
        self.log.push((GitCallRecord::Pull { working_dir: working_dir.to_owned() }, outcome));
        proof {
            assert(self.calls() =~= old(self).calls().push(
                (self.log@.last().0.spec_call(), self.log@.last().1),
            ));
        }
        result
    }
}

} // verus!
