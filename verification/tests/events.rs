//! Event routing, the push handler, and the synchronization steps,
//! exercised against the in-memory recording capability.

use hookrunner::config::Config;
use hookrunner::error::ErrorCode;
use hookrunner::git::backend::GitBackend;
use hookrunner::git::error::GitError;
use hookrunner::git::recording::RecordingGitService;
use hookrunner::git::service::GitCallRecord;
use hookrunner::git::ref_type::RefType;
use hookrunner::git::repo_cloner::RepoCloner;
use hookrunner::git::repository_path::RepositoryPath;
use hookrunner::github::events::{handle_push_event, route_event, EventHeader, EventKind};
use hookrunner::github::models::{Commit, CommitUser, PushEvent, Repository};
use hookrunner::service::ServiceHandler;

fn record(
    working_dir: &str,
    reference: &str,
    url: &str,
    folder_name: &str,
) -> GitCallRecord {
    GitCallRecord::CloneRepository {
        working_dir: String::from(working_dir),
        reference: String::from(reference),
        url: String::from(url),
        folder_name: String::from(folder_name),
    }
}

fn sample_push_event(reference: &str, full_name: &str, name: &str) -> PushEvent {
    PushEvent {
        reference: String::from(reference),
        base_ref: String::from(reference),
        head_commit: Commit {
            message: String::from("sample"),
            timestamp: String::from("sample"),
        },
        repository: Repository {
            full_name: String::from(full_name),
            name: String::from(name),
        },
        pusher: CommitUser {
            name: String::from("hello"),
            email: String::from("hello@local.test"),
        },
    }
}

#[test]
fn route_by_event_header() {
    assert!(matches!(
        route_event(&EventHeader::Missing),
        Err(ErrorCode::MissingEventHeader)
    ));
    assert!(matches!(
        route_event(&EventHeader::Unreadable),
        Err(ErrorCode::MalformedEventHeader)
    ));
    assert_eq!(
        route_event(&EventHeader::Value(String::from("ping"))).unwrap(),
        EventKind::Ping
    );
    assert_eq!(
        route_event(&EventHeader::Value(String::from("push"))).unwrap(),
        EventKind::Push
    );
    let e = route_event(&EventHeader::Value(String::from("unknown"))).unwrap_err();
    assert!(matches!(&e, ErrorCode::UnsupportedEventHeader(v) if v == "unknown"));
    assert_eq!(e.details().internal_code(), 5);
    assert_eq!(e.details().message, "Unsupported event header: 'unknown'");
}

#[test]
fn error_details_render_fixed_codes_and_messages() {
    let body = ErrorCode::MalformedEventBody(String::from(
        "EOF while parsing a value at line 1 column 0",
    ));
    let d = body.details();
    assert_eq!(d.status_code, 400);
    assert_eq!(d.internal_code, 6);
    assert_eq!(
        d.message,
        "Malformed event body: 'EOF while parsing a value at line 1 column 0'"
    );

    let field = ErrorCode::MalformedEventBodyField(
        String::from("ref"),
        String::from("Unsupported Git reference type: sample"),
    );
    let d = field.details();
    assert_eq!(d.internal_code, 7);
    assert_eq!(
        d.message,
        "Malformed event body field 'ref': 'Unsupported Git reference type: sample'"
    );

    let unhandled = ErrorCode::UnhandledError(String::from("boom"));
    let d = unhandled.details();
    assert_eq!(d.status_code, 500);
    assert_eq!(d.internal_code, 99);
    assert_eq!(d.message, "Unhandled error: 'boom'");

    assert_eq!(ErrorCode::MissingEventHeader.details().internal_code, 1);
    assert_eq!(
        ErrorCode::MissingEventHeader.details().message,
        "Missing X-GitHub-Event header"
    );
    assert_eq!(ErrorCode::MalformedEventHeader.details().internal_code, 4);
}

fn calls_of(services: &ServiceHandler<RecordingGitService>) -> Vec<GitCallRecord> {
    services.git().log.iter().map(|p| p.0.clone()).collect()
}

#[test]
fn test_handle_push_event_wrong_ref() {
    let config = Config::empty();
    let mut services = ServiceHandler::new(RecordingGitService::new());
    let event = sample_push_event("wrong", "hello/world", "world");
    let err = handle_push_event(&config, &mut services, &event, "/work", false).unwrap_err();
    assert!(matches!(err, ErrorCode::MalformedEventBodyField(_, _)));
    assert!(services.git().log.is_empty());
}

#[test]
fn push_event_with_malformed_repository_path() {
    let config = Config::empty();
    let mut services = ServiceHandler::new(RecordingGitService::new());
    let event = sample_push_event("refs/branches/sample", "sample", "sample");
    let err = handle_push_event(&config, &mut services, &event, "/work", false).unwrap_err();
    match err {
        ErrorCode::MalformedEventBodyField(field, cause) => {
            assert_eq!(field, "repository.full_name");
            assert_eq!(cause, "Malformed repository path: sample");
        }
        other => panic!("unexpected error {:?}", other),
    }
    assert!(services.git().log.is_empty());
}

#[test]
fn push_event_clones_when_directory_is_absent() {
    let config = Config::empty();
    let mut services = ServiceHandler::new(RecordingGitService::new());
    let event = sample_push_event("refs/branches/sample", "Srynetix/things", "things");
    handle_push_event(&config, &mut services, &event, "/work", false).unwrap();
    assert_eq!(
        calls_of(&services),
        vec![record(
            "/work",
            "sample",
            "https://github.com/Srynetix/things",
            "things"
        )]
    );
}

#[test]
fn push_event_updates_when_directory_is_present() {
    let config = Config::empty();
    let mut services = ServiceHandler::new(RecordingGitService::new());
    let event = sample_push_event("refs/branches/sample", "Srynetix/things", "things");
    handle_push_event(&config, &mut services, &event, "/work", true).unwrap();
    assert_eq!(
        calls_of(&services),
        vec![
            GitCallRecord::Fetch { working_dir: String::from("/work/things") },
            GitCallRecord::Checkout {
                working_dir: String::from("/work/things"),
                reference: String::from("sample"),
            },
            GitCallRecord::Pull { working_dir: String::from("/work/things") },
        ]
    );
    assert!(services.git().log.iter().all(|p| p.1.is_none()));
}

#[test]
fn failed_step_aborts_the_rest() {
    let config = Config::empty();
    let mut fake = RecordingGitService::new();
    fake.fail_checkout = true;
    let mut services = ServiceHandler::new(fake);
    let event = sample_push_event("refs/branches/sample", "Srynetix/things", "things");
    let err = handle_push_event(&config, &mut services, &event, "/work", true).unwrap_err();
    match err {
        ErrorCode::UnhandledError(m) => {
            assert_eq!(m, "Error while executing git: checkout failed")
        }
        other => panic!("unexpected error {:?}", other),
    }
    let log = &services.git().log;
    assert_eq!(log.len(), 2);
    assert!(matches!(log[0], (GitCallRecord::Fetch { .. }, None)));
    assert!(matches!(
        &log[1],
        (GitCallRecord::Checkout { .. }, Some(GitError::GitExecutionError(m))) if m == "checkout failed"
    ));
}

#[test]
fn synchronize_clone_uses_parent_and_leaf_of_target_dir() {
    let mut services = ServiceHandler::new(RecordingGitService::new());
    let backend = GitBackend::GitHub;
    let repo = RepositoryPath::new("acme/widgets").unwrap();
    let reference = RefType::parse("refs/branches/main").unwrap();
    RepoCloner::create_or_update_in_directory(
        &mut services,
        &backend,
        &repo,
        &reference,
        "/srv/repos/widgets",
        false,
    )
    .unwrap();
    assert_eq!(
        calls_of(&services),
        vec![record(
            "/srv/repos",
            "main",
            "https://github.com/acme/widgets",
            "widgets"
        )]
    );
}

#[test]
fn synchronize_stops_after_failed_fetch() {
    let mut fake = RecordingGitService::new();
    fake.fail_fetch = true;
    let mut services = ServiceHandler::new(fake);
    let backend = GitBackend::GitHub;
    let repo = RepositoryPath::new("acme/widgets").unwrap();
    let reference = RefType::parse("refs/tags/v1").unwrap();
    let err = RepoCloner::create_or_update_in_directory(
        &mut services,
        &backend,
        &repo,
        &reference,
        "/srv/repos/widgets",
        true,
    )
    .unwrap_err();
    // The first failure is returned unchanged and aborts the rest.
    assert_eq!(err, GitError::GitExecutionError(String::from("fetch failed")));
    assert_eq!(
        calls_of(&services),
        vec![GitCallRecord::Fetch { working_dir: String::from("/srv/repos/widgets") }]
    );
}

#[test]
fn push_event_scenario_records_main_clone() {
    // A `push` delivery for refs/branches/main on acme/widgets,
    // against a fresh environment with no widgets directory.
    let kind = route_event(&EventHeader::Value(String::from("push"))).unwrap();
    assert_eq!(kind, EventKind::Push);
    let config = Config::empty();
    let mut services = ServiceHandler::new(RecordingGitService::new());
    let event = sample_push_event("refs/branches/main", "acme/widgets", "widgets");
    handle_push_event(&config, &mut services, &event, "/work", false).unwrap();
    assert_eq!(
        calls_of(&services),
        vec![record(
            "/work",
            "main",
            "https://github.com/acme/widgets",
            "widgets"
        )]
    );
}

#[test]
fn failed_clone_propagates_its_error() {
    let mut fake = RecordingGitService::new();
    fake.fail_clone = true;
    let mut services = ServiceHandler::new(fake);
    let backend = GitBackend::GitHub;
    let repo = RepositoryPath::new("acme/widgets").unwrap();
    let reference = RefType::parse("refs/branches/main").unwrap();
    let err = RepoCloner::create_or_update_in_directory(
        &mut services,
        &backend,
        &repo,
        &reference,
        "/srv/repos/widgets",
        false,
    )
    .unwrap_err();
    assert_eq!(err, GitError::GitExecutionError(String::from("clone failed")));
    assert_eq!(services.git().log.len(), 1);
}

#[test]
fn failed_pull_propagates_after_fetch_and_checkout() {
    let config = Config::empty();
    let mut fake = RecordingGitService::new();
    fake.fail_pull = true;
    let mut services = ServiceHandler::new(fake);
    let event = sample_push_event("refs/branches/sample", "Srynetix/things", "things");
    let err = handle_push_event(&config, &mut services, &event, "/work", true).unwrap_err();
    match err {
        ErrorCode::UnhandledError(m) => assert_eq!(m, "Error while executing git: pull failed"),
        other => panic!("unexpected error {:?}", other),
    }
    assert_eq!(services.git().log.len(), 3);
}
