//! Event routing and the push handler.
//!
//! The event-type header selects a handler; a push event is
//! validated and then drives the clone-or-update orchestration.
//! Echoing payloads back, like decoding them, belongs to the
//! surrounding server.

use vstd::prelude::*;
use vstd::string::*;

use crate::config::Config;
use crate::error::ErrorCode;
use crate::git::backend::GitBackend;
use crate::git::ref_type::{spec_ref_parses, RefType};
use crate::git::repo_cloner::{spec_target_dir, spec_update_calls, RepoCloner};
use crate::git::repository_path::{
    lemma_repo_path_reassembles, spec_repo_name_of, spec_valid_repo_path, RepositoryPath,
};
use crate::git::error::spec_git_error_message;
use crate::git::service::{
    spec_plan_calls, spec_steps_follow_plan, spec_steps_succeeded, GitCallRecord, GitService,
};
use crate::github::models::PushEvent;
use crate::service::ServiceHandler;
use crate::text::str_eq;

verus! {

/// The event-type header of a delivery, as the server observed it.
#[derive(Debug, Clone)]
pub enum EventHeader {
    Missing,
    Unreadable,
    Value(String),
}

/// The deliveries this service handles.
#[derive(Debug, Clone, Copy, PartialEq, Eq, Structural)]
pub enum EventKind {
    Ping,
    Push,
}

/// Routes a delivery by its event-type header: a missing header, an
/// undecodable one, and an unsupported event name are each rejected
/// with their own error; `ping` and `push` are handled.
pub fn route_event(header: &EventHeader) -> (r: Result<EventKind, ErrorCode>)
    ensures
        match header {
            EventHeader::Missing => r matches Err(e) && e is MissingEventHeader,
            EventHeader::Unreadable => r matches Err(e) && e is MalformedEventHeader,
            EventHeader::Value(v) => {
                if v@ == "ping"@ {
                    r == Ok::<EventKind, ErrorCode>(EventKind::Ping)
                } else if v@ == "push"@ {
                    r == Ok::<EventKind, ErrorCode>(EventKind::Push)
                } else {
                    r matches Err(e) && e matches ErrorCode::UnsupportedEventHeader(u) && u@
                        == v@
                }
            },
        },
{
    match header {
        EventHeader::Missing => Err(ErrorCode::MissingEventHeader),
        EventHeader::Unreadable => Err(ErrorCode::MalformedEventHeader),
        EventHeader::Value(v) => {
            if str_eq(v.as_str(), "ping") {
                Ok(EventKind::Ping)
            } else if str_eq(v.as_str(), "push") {
                Ok(EventKind::Push)
            } else {
                Err(ErrorCode::UnsupportedEventHeader(v.clone()))
            }
        },
    }
}

/// The bare reference name a parsable wire reference denotes.
pub open spec fn spec_push_ref_name(s: Seq<char>) -> Seq<char>
    recommends
        spec_ref_parses(s),
{
    if "refs/tags/"@.is_prefix_of(s) {
        s.skip("refs/tags/"@.len() as int)
    } else {
        s.skip("refs/branches/"@.len() as int)
    }
}

/// Validates a push event and resolves the directory its working
/// copy lives in: a rejected reference or repository full name gives
/// the same field error the push handler gives; otherwise the
/// configuration's target directory for the event's repository.
pub fn push_event_target_dir(config: &Config, push_event: &PushEvent, fallback_dir: &str) -> (r:
    Result<String, ErrorCode>)
    ensures
        !spec_ref_parses(push_event.reference@) ==> (r matches Err(e)
            && e matches ErrorCode::MalformedEventBodyField(f, m) && f@ == "ref"@
            && m@ == "Unsupported Git reference type: "@ + push_event.reference@),
        spec_ref_parses(push_event.reference@) && !spec_valid_repo_path(
            push_event.repository.full_name@,
        ) ==> (r matches Err(e) && e matches ErrorCode::MalformedEventBodyField(f, m)
            && f@ == "repository.full_name"@
            && m@ == "Malformed repository path: "@ + push_event.repository.full_name@),
        spec_ref_parses(push_event.reference@) && spec_valid_repo_path(
            push_event.repository.full_name@,
        ) ==> (r matches Ok(d) && d@ == spec_target_dir(
            config,
            push_event.repository.full_name@,
            spec_repo_name_of(push_event.repository.full_name@),
            fallback_dir@,
        )),
{
    if let Err(e) = RefType::parse(push_event.reference.as_str()) {
        return Err(ErrorCode::MalformedEventBodyField(String::from_str("ref"), e.message()));
    }
    let repository_path = match RepositoryPath::new(push_event.repository.full_name.as_str()) {
        Ok(p) => p,
        Err(e) => {
            return Err(ErrorCode::MalformedEventBodyField(
                String::from_str("repository.full_name"),
                e.message(),
            ));
        },
    };
    proof {
        lemma_repo_path_reassembles(&repository_path, push_event.repository.full_name@);
    }
    let full_name = repository_path.full_name();
    Ok(RepoCloner::get_repository_target_dir(
        config,
        full_name.as_str(),
        repository_path.name().as_str(),
        fallback_dir,
    ))
}

/// Validates a push event and builds the plan of tool invocations
/// that synchronizing it requires, for an unverified executor to run
/// in order, stopping at the first failure.  Rejections are those of
/// the push handler; the plan is the one the clone-or-update
/// decision makes for the resolved target directory, against the
/// GitHub backend.
pub fn push_event_plan(
    config: &Config,
    push_event: &PushEvent,
    fallback_dir: &str,
    target_dir_exists: bool,
) -> (r: Result<Vec<GitCallRecord>, ErrorCode>)
    ensures
        !spec_ref_parses(push_event.reference@) ==> (r matches Err(e)
            && e matches ErrorCode::MalformedEventBodyField(f, m) && f@ == "ref"@
            && m@ == "Unsupported Git reference type: "@ + push_event.reference@),
        spec_ref_parses(push_event.reference@) && !spec_valid_repo_path(
            push_event.repository.full_name@,
        ) ==> (r matches Err(e) && e matches ErrorCode::MalformedEventBodyField(f, m)
            && f@ == "repository.full_name"@
            && m@ == "Malformed repository path: "@ + push_event.repository.full_name@),
        spec_ref_parses(push_event.reference@) && spec_valid_repo_path(
            push_event.repository.full_name@,
        ) ==> ({
            let refname = spec_push_ref_name(push_event.reference@);
            let dir = spec_target_dir(
                config,
                push_event.repository.full_name@,
                spec_repo_name_of(push_event.repository.full_name@),
                fallback_dir@,
            );
            &&& r matches Ok(plan)
            &&& (!target_dir_exists ==> spec_plan_calls(plan@) == seq![
                crate::git::service::GitCall::CloneRepository {
                    working_dir: crate::git::repo_cloner::spec_parent_dir(dir),
                    reference: refname,
                    url: "https://github.com"@ + "/"@ + push_event.repository.full_name@,
                    folder_name: crate::git::repo_cloner::spec_leaf_dir(dir),
                },
            ])
            &&& (target_dir_exists ==> spec_plan_calls(plan@) == spec_update_calls(dir, refname))
        }),
{
    let branch = match RefType::parse(push_event.reference.as_str()) {
        Ok(b) => b,
        Err(e) => {
            return Err(ErrorCode::MalformedEventBodyField(String::from_str("ref"), e.message()));
        },
    };
    let repository_path = match RepositoryPath::new(push_event.repository.full_name.as_str()) {
        Ok(p) => p,
        Err(e) => {
            return Err(ErrorCode::MalformedEventBodyField(
                String::from_str("repository.full_name"),
                e.message(),
            ));
        },
    };
    proof {
        lemma_repo_path_reassembles(&repository_path, push_event.repository.full_name@);
        assert(branch.spec_name() == spec_push_ref_name(push_event.reference@));
    }
    let full_name = repository_path.full_name();
    let target_dir = RepoCloner::get_repository_target_dir(
        config,
        full_name.as_str(),
        repository_path.name().as_str(),
        fallback_dir,
    );
    Ok(RepoCloner::plan_in_directory(
        &GitBackend::GitHub,
        &repository_path,
        &branch,
        target_dir.as_str(),
        target_dir_exists,
    ))
}

/// Handles a push event: validates the pushed reference and the
/// repository's full name, then synchronizes the working copy at the
/// directory the configuration resolves, against the GitHub backend.
///
/// `fallback_dir` and `target_dir_exists` are the server's
/// observations of the process working directory and of the target
/// directory's presence; the target directory is the one
/// [`RepoCloner::get_repository_target_dir`] resolves for the
/// event's repository and the same `fallback_dir`.
pub fn handle_push_event<G: GitService>(
    config: &Config,
    services: &mut ServiceHandler<G>,
    push_event: &PushEvent,
    fallback_dir: &str,
    target_dir_exists: bool,
) -> (r: Result<(), ErrorCode>)
    ensures
        !spec_ref_parses(push_event.reference@) ==> {
            &&& r matches Err(e) && e matches ErrorCode::MalformedEventBodyField(f, m)
                && f@ == "ref"@
                && m@ == "Unsupported Git reference type: "@ + push_event.reference@
            &&& final(services).calls() == old(services).calls()
        },
        spec_ref_parses(push_event.reference@) && !spec_valid_repo_path(
            push_event.repository.full_name@,
        ) ==> {
            &&& r matches Err(e) && e matches ErrorCode::MalformedEventBodyField(f, m)
                && f@ == "repository.full_name"@
                && m@ == "Malformed repository path: "@ + push_event.repository.full_name@
            &&& final(services).calls() == old(services).calls()
        },
        spec_ref_parses(push_event.reference@) && spec_valid_repo_path(
            push_event.repository.full_name@,
        ) ==> {
            let refname = spec_push_ref_name(push_event.reference@);
            let dir = spec_target_dir(
                config,
                push_event.repository.full_name@,
                spec_repo_name_of(push_event.repository.full_name@),
                fallback_dir@,
            );
            let planned = if target_dir_exists {
                spec_update_calls(dir, refname)
            } else {
                seq![
                    crate::git::service::GitCall::CloneRepository {
                        working_dir: crate::git::repo_cloner::spec_parent_dir(dir),
                        reference: refname,
                        url: "https://github.com"@ + "/"@ + push_event.repository.full_name@,
                        folder_name: crate::git::repo_cloner::spec_leaf_dir(dir),
                    },
                ]
            };
            let ext = final(services).calls().skip(old(services).calls().len() as int);
            &&& old(services).calls().is_prefix_of(final(services).calls())
            &&& spec_steps_follow_plan(ext, planned)
            &&& (r is Ok <==> spec_steps_succeeded(ext, planned))
            &&& (r matches Err(e) ==> (e matches ErrorCode::UnhandledError(m)
                && ext.last().1 matches Some(cause)
                && m@ == spec_git_error_message(&cause)))
        },
{
    let branch = match RefType::parse(push_event.reference.as_str()) {
        Ok(b) => b,
        Err(e) => {
            return Err(ErrorCode::MalformedEventBodyField(
                String::from_str("ref"),
                e.message(),
            ));
        },
    };
    let repository_path = match RepositoryPath::new(push_event.repository.full_name.as_str()) {
        Ok(p) => p,
        Err(e) => {
            return Err(ErrorCode::MalformedEventBodyField(
                String::from_str("repository.full_name"),
                e.message(),
            ));
        },
    };
    proof {
        lemma_repo_path_reassembles(&repository_path, push_event.repository.full_name@);
        assert(branch.spec_name() == spec_push_ref_name(push_event.reference@));
    }
    match RepoCloner::create_or_update_using_config(
        config,
        services,
        &GitBackend::GitHub,
        &repository_path,
        &branch,
        fallback_dir,
        target_dir_exists,
    ) {
        Ok(_) => Ok(()),
        Err(e) => Err(ErrorCode::UnhandledError(e.message())),
    }
}

} // verus!
