//! Synchronization plans and their command lines.

use hookrunner::config::Config;
use hookrunner::error::ErrorCode;
use hookrunner::git::backend::GitBackend;
use hookrunner::git::ref_type::RefType;
use hookrunner::git::repo_cloner::RepoCloner;
use hookrunner::git::repository_path::RepositoryPath;
use hookrunner::git::service::GitCallRecord;
use hookrunner::github::events::{push_event_plan, push_event_target_dir};
use hookrunner::github::models::{Commit, CommitUser, PushEvent, Repository};

fn sample_push_event(reference: &str, full_name: &str, name: &str) -> PushEvent {
    PushEvent {
        reference: String::from(reference),
        base_ref: String::from(reference),
        head_commit: Commit {
            message: String::from("sample"),
            timestamp: String::from("sample"),
        },
        repository: Repository {
            full_name: String::from(full_name),
            name: String::from(name),
        },
        pusher: CommitUser {
            name: String::from("hello"),
            email: String::from("hello@local.test"),
        },
    }
}

#[test]
fn plan_for_absent_directory_is_one_clone() {
    let backend = GitBackend::GitHub;
    let repo = RepositoryPath::new("acme/widgets").unwrap();
    let reference = RefType::parse("refs/branches/main").unwrap();
    let plan =
        RepoCloner::plan_in_directory(&backend, &repo, &reference, "/srv/repos/widgets", false);
    assert_eq!(
        plan,
        vec![GitCallRecord::CloneRepository {
            working_dir: String::from("/srv/repos"),
            reference: String::from("main"),
            url: String::from("https://github.com/acme/widgets"),
            folder_name: String::from("widgets"),
        }]
    );
}

#[test]
fn plan_for_present_directory_is_fetch_checkout_pull() {
    let backend = GitBackend::GitHub;
    let repo = RepositoryPath::new("acme/widgets").unwrap();
    let reference = RefType::parse("refs/tags/v1").unwrap();
    let plan =
        RepoCloner::plan_in_directory(&backend, &repo, &reference, "/srv/repos/widgets", true);
    assert_eq!(
        plan,
        vec![
            GitCallRecord::Fetch { working_dir: String::from("/srv/repos/widgets") },
            GitCallRecord::Checkout {
                working_dir: String::from("/srv/repos/widgets"),
                reference: String::from("v1"),
            },
            GitCallRecord::Pull { working_dir: String::from("/srv/repos/widgets") },
        ]
    );
}

#[test]
fn command_args_render_the_git_invocations() {
    let clone = GitCallRecord::CloneRepository {
        working_dir: String::from("/srv/repos"),
        reference: String::from("main"),
        url: String::from("https://github.com/acme/widgets"),
        folder_name: String::from("widgets"),
    };
    assert_eq!(
        clone.command_args(),
        (
            String::from("/srv/repos"),
            vec![
                String::from("clone"),
                String::from("-b"),
                String::from("main"),
                String::from("https://github.com/acme/widgets"),
                String::from("widgets"),
            ],
        )
    );
    let fetch = GitCallRecord::Fetch { working_dir: String::from("/w") };
    assert_eq!(fetch.command_args(), (String::from("/w"), vec![String::from("fetch")]));
    let checkout = GitCallRecord::Checkout {
        working_dir: String::from("/w"),
        reference: String::from("v1"),
    };
    assert_eq!(
        checkout.command_args(),
        (String::from("/w"), vec![String::from("checkout"), String::from("v1")])
    );
    let pull = GitCallRecord::Pull { working_dir: String::from("/w") };
    assert_eq!(pull.command_args(), (String::from("/w"), vec![String::from("pull")]));
}

#[test]
fn push_event_target_dir_resolves_like_the_config() {
    let mut config = Config::empty();
    let event = sample_push_event("refs/branches/main", "acme/widgets", "widgets");
    assert_eq!(
        push_event_target_dir(&config, &event, "/cwd").unwrap(),
        "/cwd/widgets"
    );
    config.set_repo_mapping("acme/widgets=/srv/mapped");
    assert_eq!(
        push_event_target_dir(&config, &event, "/cwd").unwrap(),
        "/srv/mapped"
    );
}

#[test]
fn push_event_target_dir_rejects_like_the_handler() {
    let config = Config::empty();
    let bad_ref = sample_push_event("wrong", "acme/widgets", "widgets");
    assert!(matches!(
        push_event_target_dir(&config, &bad_ref, "/cwd"),
        Err(ErrorCode::MalformedEventBodyField(_, _))
    ));
    let bad_path = sample_push_event("refs/branches/main", "sample", "sample");
    assert!(matches!(
        push_event_target_dir(&config, &bad_path, "/cwd"),
        Err(ErrorCode::MalformedEventBodyField(_, _))
    ));
}

#[test]
fn push_event_plan_builds_the_clone_or_update_steps() {
    let config = Config::empty();
    let event = sample_push_event("refs/branches/main", "acme/widgets", "widgets");
    let plan = push_event_plan(&config, &event, "/cwd", false).unwrap();
    assert_eq!(
        plan,
        vec![GitCallRecord::CloneRepository {
            working_dir: String::from("/cwd"),
            reference: String::from("main"),
            url: String::from("https://github.com/acme/widgets"),
            folder_name: String::from("widgets"),
        }]
    );
    let plan = push_event_plan(&config, &event, "/cwd", true).unwrap();
    assert_eq!(plan.len(), 3);
    assert!(matches!(&plan[0], GitCallRecord::Fetch { working_dir } if working_dir == "/cwd/widgets"));
}
