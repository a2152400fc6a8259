//! The clone-or-update decision around a working copy.
//!
//! Whether the target directory exists on disk *is* the state of the
//! synchronization state machine; the caller observes it and passes
//! the observation in.  An absent directory triggers exactly one
//! clone; a present one triggers fetch, checkout and pull, in that
//! order, stopping at the first failure.

use vstd::prelude::*;
use vstd::string::*;

use crate::git::backend::GitBackend;
use crate::git::error::GitError;
use crate::git::ref_type::RefType;
use crate::git::repository_path::RepositoryPath;
use crate::git::service::{
    spec_outcome_of, spec_plan_calls, spec_steps_follow_plan, spec_steps_succeeded, GitCall,
    GitCallRecord, GitService,
};
use crate::config::{spec_mapping_lookup, spec_pair_views, Config};
use crate::service::ServiceHandler;

verus! {

/// Everything before the last `/` of a directory path, or empty when
/// the path is a bare name.
pub open spec fn spec_parent_dir(s: Seq<char>) -> Seq<char> {
    match s.index_of_last('/') {
        Some(i) => s.take(i),
        None => Seq::empty(),
    }
}

/// Everything after the last `/` of a directory path, or the whole
/// path when it is a bare name.
pub open spec fn spec_leaf_dir(s: Seq<char>) -> Seq<char> {
    match s.index_of_last('/') {
        Some(i) => s.skip(i + 1),
        None => s,
    }
}

/// The clone-URL of a repository at a backend.
pub open spec fn spec_remote_url(backend: &GitBackend, repo_path: &RepositoryPath) -> Seq<char> {
    backend.spec_root_url() + "/"@ + repo_path.spec_full_name()
}

/// The single recorded call of the absent-directory transition.
pub open spec fn spec_clone_call(
    backend: &GitBackend,
    repo_path: &RepositoryPath,
    reference: &RefType,
    working_dir: Seq<char>,
) -> GitCall {
    GitCall::CloneRepository {
        working_dir: spec_parent_dir(working_dir),
        reference: reference.spec_name(),
        url: spec_remote_url(backend, repo_path),
        folder_name: spec_leaf_dir(working_dir),
    }
}

/// The three recorded calls of the present-directory transition, in
/// order.
pub open spec fn spec_update_calls(working_dir: Seq<char>, reference: Seq<char>) -> Seq<GitCall> {
    seq![
        GitCall::Fetch { working_dir: working_dir },
        GitCall::Checkout { working_dir: working_dir, reference: reference },
        GitCall::Pull { working_dir: working_dir },
    ]
}

/// Splits a directory path at its last `/` into parent and leaf.
fn split_target_dir(dir: &str) -> (r: (String, String))
    ensures
        r.0@ == spec_parent_dir(dir@),
        r.1@ == spec_leaf_dir(dir@),
{
    let n = dir.unicode_len();
    let mut i: usize = 0;
    let mut slash: usize = 0;
    let mut found = false;
    while i < n
        invariant
            i <= n,
            n == dir@.len(),
            !found ==> forall|j: int| 0 <= j < i ==> dir@[j] != '/',
            found ==> {
                &&& slash < i
                &&& dir@[slash as int] == '/'
                &&& forall|j: int| slash < j < i ==> dir@[j] != '/'
            },
        decreases n - i,
    {
        if dir.get_char(i) == '/' {
            found = true;
            slash = i;
        }
        i += 1;
    }
    proof {
        dir@.index_of_last_ensures('/');
    }
    if !found {
        proof {
            assert(dir@.index_of_last('/') is None) by {
                match dir@.index_of_last('/') {
                    Some(k) => {
                        assert(dir@[k] != '/');
                    },
                    None => {},
                }
            }
        }
        (String::new(), String::from_str(dir))
    } else {
        proof {
            assert(dir@.index_of_last('/') == Some(slash as int)) by {
                match dir@.index_of_last('/') {
                    Some(k) => {
                        if k < slash as int {
                            assert(dir@[slash as int] != '/');
                        } else if k > slash as int {
                            assert(dir@[k] != '/');
                        }
                    },
                    None => {
                        assert(!dir@.contains('/'));
                        assert(dir@[slash as int] == '/');
                    },
                }
            }
        }
        let parent = dir.substring_char(0, slash);
        let leaf = dir.substring_char(slash + 1, n);
        (String::from_str(parent), String::from_str(leaf))
    }
}

/// The directory a repository's working copy lives in: the mapped
/// path when the mapping table has one for the full name, otherwise
/// the leaf `folder` under the configured working directory (or
/// under `fallback_dir` when none is configured).
pub open spec fn spec_target_dir(
    config: &Config,
    full_name: Seq<char>,
    folder: Seq<char>,
    fallback_dir: Seq<char>,
) -> Seq<char> {
    match spec_mapping_lookup(spec_pair_views(config.repo_mapping@), full_name) {
        Some(mapped) => mapped,
        None => (match config.working_dir {
            Some(w) => w@,
            None => fallback_dir,
        }) + "/"@ + folder,
    }
}

/// Drives a working copy to match a reference.
pub struct RepoCloner;

impl RepoCloner {
    /// Resolves the directory a repository's working copy lives in.
    ///
    /// `fallback_dir` is the caller's current directory, used when no
    /// working directory is configured.
    pub fn get_repository_target_dir(
        config: &Config,
        repo_full_name: &str,
        folder_name: &str,
        fallback_dir: &str,
    ) -> (r: String)
        ensures
            r@ == spec_target_dir(config, repo_full_name@, folder_name@, fallback_dir@),
    {
        match config.repo_mapping_lookup(repo_full_name) {
            Some(mapped) => mapped.clone(),
            None => {
                let mut dir = match config.working_dir() {
                    Some(w) => w.clone(),
                    None => String::from_str(fallback_dir),
                };
                dir.append("/");
                dir.append(folder_name);
                dir
            },
        }
    }

    /// Synchronizes a repository's working copy at the directory the
    /// configuration resolves for it: exactly
    /// [`Self::create_or_update_in_directory`] at the directory
    /// [`Self::get_repository_target_dir`] returns for the
    /// repository and the same `fallback_dir` — the same calls, the
    /// same result.
    ///
    /// `target_dir_exists` is the caller's observation of that
    /// directory's presence on disk.
    pub fn create_or_update_using_config<G: GitService>(
        config: &Config,
        services: &mut ServiceHandler<G>,
        backend: &GitBackend,
        repo_path: &RepositoryPath,
        reference: &RefType,
        fallback_dir: &str,
        target_dir_exists: bool,
    ) -> (r: Result<(), GitError>)
        ensures
            old(services).calls().is_prefix_of(final(services).calls()),
            ({
                let dir = spec_target_dir(
                    config,
                    repo_path.spec_full_name(),
                    repo_path.name@,
                    fallback_dir@,
                );
                let planned = if target_dir_exists {
                    spec_update_calls(dir, reference.spec_name())
                } else {
                    seq![spec_clone_call(backend, repo_path, reference, dir)]
                };
                let ext = final(services).calls().skip(old(services).calls().len() as int);
                &&& spec_steps_follow_plan(ext, planned)
                &&& (r is Ok <==> spec_steps_succeeded(ext, planned))
                &&& (r matches Err(e) ==> ext.last().1 == Some(e))
            }),
    {
        let full_name = repo_path.full_name();
        let target_dir = Self::get_repository_target_dir(
            config,
            full_name.as_str(),
            repo_path.name().as_str(),
            fallback_dir,
        );
        Self::create_or_update_in_directory(
            services,
            backend,
            repo_path,
            reference,
            target_dir.as_str(),
            target_dir_exists,
        )
    }
    /// Builds, as plain values, the tool invocations that
    /// synchronizing the working copy at `working_dir` requires: the
    /// single clone when the directory is absent, or fetch, checkout
    /// and pull, in order, when it is present.  An unverified
    /// executor can run such a plan step by step, stopping at the
    /// first failure, without re-deciding anything.
    pub fn plan_in_directory(
        backend: &GitBackend,
        repo_path: &RepositoryPath,
        reference: &RefType,
        working_dir: &str,
        working_dir_exists: bool,
    ) -> (r: Vec<GitCallRecord>)
        ensures
            !working_dir_exists ==> spec_plan_calls(r@) == seq![
                spec_clone_call(backend, repo_path, reference, working_dir@),
            ],
            working_dir_exists ==> spec_plan_calls(r@) == spec_update_calls(
                working_dir@,
                reference.spec_name(),
            ),
    {
        let root_url = backend.root_url();
        let repo_full_name = repo_path.full_name();
        let ref_name = reference.name();
        let mut repo_url = String::from_str(root_url);
        repo_url.append("/");
        repo_url.append(repo_full_name.as_str());

        let mut plan: Vec<GitCallRecord> = Vec::new();
        if !working_dir_exists {
            let (parent, leaf) = split_target_dir(working_dir);
            plan.push(GitCallRecord::CloneRepository {
                working_dir: parent,
                reference: ref_name.clone(),
                url: repo_url,
                folder_name: leaf,
            });
            proof {
                assert(spec_plan_calls(plan@) =~= seq![
                    spec_clone_call(backend, repo_path, reference, working_dir@),
                ]);
            }
        } else {
            plan.push(GitCallRecord::Fetch { working_dir: working_dir.to_owned() });
            plan.push(GitCallRecord::Checkout {
                working_dir: working_dir.to_owned(),
                reference: ref_name.clone(),
            });
            plan.push(GitCallRecord::Pull { working_dir: working_dir.to_owned() });
            proof {
                assert(spec_plan_calls(plan@) =~= spec_update_calls(
                    working_dir@,
                    reference.spec_name(),
                ));
            }
        }
        plan
    }

    /// Synchronizes the working copy at `working_dir` to `reference`.
    ///
    /// `working_dir_exists` is the caller's observation of the
    /// directory's presence on disk.  Absent: exactly one clone is
    /// invoked, with the reference checked out during the clone, and
    /// its outcome is returned unchanged.  Present: fetch, checkout
    /// and pull run in that order; the first failure aborts the rest
    /// and is returned unchanged; success is returned exactly when
    /// every step succeeded.
    pub fn create_or_update_in_directory<G: GitService>(
        services: &mut ServiceHandler<G>,
        backend: &GitBackend,
        repo_path: &RepositoryPath,
        reference: &RefType,
        working_dir: &str,
        working_dir_exists: bool,
    ) -> (r: Result<(), GitError>)
        ensures
            old(services).calls().is_prefix_of(final(services).calls()),
            ({
                let planned = if working_dir_exists {
                    spec_update_calls(working_dir@, reference.spec_name())
                } else {
                    seq![spec_clone_call(backend, repo_path, reference, working_dir@)]
                };
                let ext = final(services).calls().skip(old(services).calls().len() as int);
                &&& spec_steps_follow_plan(ext, planned)
                &&& (r is Ok <==> spec_steps_succeeded(ext, planned))
                &&& (r matches Err(e) ==> ext.last().1 == Some(e))
            }),
    {
        let root_url = backend.root_url();
        let repo_full_name = repo_path.full_name();
        let ref_name = reference.name();
        let mut repo_url = String::from_str(root_url);
        repo_url.append("/");
        repo_url.append(repo_full_name.as_str());

        if !working_dir_exists {
            let (parent, leaf) = split_target_dir(working_dir);
            let clone_result = services.git_service.clone_repository(
                parent.as_str(),
                ref_name.as_str(),
                repo_url.as_str(),
                leaf.as_str(),
            );
            proof {
                let orig = old(services).calls();
                assert(orig =~= services.calls().take(orig.len() as int));
                assert(services.calls().skip(orig.len() as int) =~= seq![
                    (
                        spec_clone_call(backend, repo_path, reference, working_dir@),
                        spec_outcome_of(clone_result),
                    ),
                ]);
            }
            match clone_result {
                Ok(_) => Ok(()),
                Err(e) => Err(e),
            }
        } else {
            let ghost planned = spec_update_calls(working_dir@, reference.spec_name());
            let ghost orig = old(services).calls();
            let fetch_result = services.git_service.fetch(working_dir);
            if let Err(e) = fetch_result {
                proof {
                    assert(orig =~= services.calls().take(orig.len() as int));
                    assert(services.calls().skip(orig.len() as int) =~= seq![
                        (planned[0], Some(e)),
                    ]);
                }
                return Err(e);
            }
            let checkout_result = services.git_service.checkout(working_dir, ref_name.as_str());
            if let Err(e) = checkout_result {
                proof {
                    assert(orig =~= services.calls().take(orig.len() as int));
                    assert(services.calls().skip(orig.len() as int) =~= seq![
                        (planned[0], None),
                        (planned[1], Some(e)),
                    ]);
                }
                return Err(e);
            }
            let pull_result = services.git_service.pull(working_dir);
            proof {
                assert(orig =~= services.calls().take(orig.len() as int));
                assert(services.calls().skip(orig.len() as int) =~= seq![
                    (planned[0], None),
                    (planned[1], None),
                    (planned[2], spec_outcome_of(pull_result)),
                ]);
            }
            match pull_result {
                Ok(_) => Ok(()),
                Err(e) => Err(e),
            }
        }
    }
}

} // verus!
