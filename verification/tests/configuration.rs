//! Configuration values, the mapping table, and target-directory
//! resolution.

use hookrunner::config::{parse_repo_mapping, repo_mapping_conf_well_formed, Config, ConfigError};
use hookrunner::git::repo_cloner::RepoCloner;
use hookrunner::server_info::ServerInfo;

#[test]
fn empty_config_has_defaults() {
    let c = Config::empty();
    assert_eq!(c.github_api_url(), "http://localhost");
    assert!(c.webhook_secret().is_none());
    assert!(c.working_dir().is_none());
    assert!(c.telemetry_url().is_none());
    assert!(c.repo_mapping().is_empty());
}

#[test]
fn setters_replace_values() {
    let mut c = Config::empty();
    c.set_github_api_url(String::from("https://api.example.test"));
    c.set_webhook_secret("secret");
    c.set_working_dir("/work");
    c.set_telemetry_url(String::from("http://jaeger:6831"));
    assert_eq!(c.github_api_url(), "https://api.example.test");
    assert_eq!(c.webhook_secret().unwrap(), "secret");
    assert_eq!(c.working_dir().unwrap(), "/work");
    assert_eq!(c.telemetry_url().unwrap(), "http://jaeger:6831");
}

#[test]
fn mapping_string_parses_in_order() {
    let conf = "org/repo-name=./local/folder,org2/repo-name2=./target/folder";
    assert!(repo_mapping_conf_well_formed(conf));
    let entries = parse_repo_mapping(conf);
    assert_eq!(
        entries,
        vec![
            (String::from("org/repo-name"), String::from("./local/folder")),
            (String::from("org2/repo-name2"), String::from("./target/folder")),
        ]
    );
}

#[test]
fn mapping_value_keeps_only_first_equals_segment() {
    let entries = parse_repo_mapping("a/b=c=d");
    assert_eq!(entries, vec![(String::from("a/b"), String::from("c"))]);
}

#[test]
fn mapping_without_equals_is_ill_formed() {
    assert!(!repo_mapping_conf_well_formed("a/b=c,broken"));
    assert!(!repo_mapping_conf_well_formed(""));
}

#[test]
fn mapping_lookup_prefers_later_entries() {
    let mut c = Config::empty();
    c.set_repo_mapping("a/b=./first,a/b=./second,x/y=./other");
    assert_eq!(c.repo_mapping_lookup("a/b").unwrap(), "./second");
    assert_eq!(c.repo_mapping_lookup("x/y").unwrap(), "./other");
    assert!(c.repo_mapping_lookup("missing/repo").is_none());
}

#[test]
fn target_dir_prefers_the_mapping() {
    let mut c = Config::empty();
    c.set_repo_mapping("acme/widgets=/srv/mapped");
    assert_eq!(
        RepoCloner::get_repository_target_dir(&c, "acme/widgets", "widgets", "/cwd"),
        "/srv/mapped"
    );
}

#[test]
fn target_dir_falls_back_to_working_dir_then_cwd() {
    let mut c = Config::empty();
    assert_eq!(
        RepoCloner::get_repository_target_dir(&c, "acme/widgets", "widgets", "/cwd"),
        "/cwd/widgets"
    );
    c.set_working_dir("/work");
    assert_eq!(
        RepoCloner::get_repository_target_dir(&c, "acme/widgets", "widgets", "/cwd"),
        "/work/widgets"
    );
}

#[test]
fn validation_needs_the_working_dir_to_exist() {
    let mut c = Config::empty();
    assert!(c.validate_configuration(false).is_ok());
    c.set_working_dir("/work");
    assert!(c.validate_configuration(true).is_ok());
    let e = c.validate_configuration(false).unwrap_err();
    assert!(matches!(&e, ConfigError::MissingWorkingDirectory(p) if p == "/work"));
    assert_eq!(
        e.message(),
        "Missing working directory: '/work'. Make sure it exists on disk."
    );
}

#[test]
fn server_info_payload() {
    let info = ServerInfo::new();
    assert_eq!(info.message, "hookrunner, ready for action!");
    assert_eq!(info.version, "0.1.0");
}
