//! Reference, repository-path and backend parsing.

use hookrunner::git::backend::GitBackend;
use hookrunner::git::error::GitError;
use hookrunner::git::ref_type::RefType;
use hookrunner::git::repository_path::RepositoryPath;

#[test]
fn parse_tag_reference_strips_prefix() {
    let r = RefType::parse("refs/tags/v1.2").unwrap();
    assert!(matches!(&r, RefType::Tag(t) if t == "v1.2"));
    assert_eq!(r.name(), "v1.2");
}

#[test]
fn parse_branch_reference_strips_prefix() {
    let r = RefType::parse("refs/branches/main").unwrap();
    assert!(matches!(&r, RefType::Branch(b) if b == "main"));
    assert_eq!(r.name(), "main");
}

#[test]
fn parse_reference_with_empty_name() {
    let r = RefType::parse("refs/tags/").unwrap();
    assert_eq!(r.name(), "");
}

#[test]
fn parse_reference_rejects_other_prefixes() {
    for s in ["wrong", "", "refs/heads/main", "refs/tag/v1", "sample"] {
        let e = RefType::parse(s).unwrap_err();
        assert!(matches!(&e, GitError::UnsupportedRefType(v) if v == s));
    }
}

#[test]
fn reference_error_message() {
    let e = RefType::parse("sample").unwrap_err();
    assert_eq!(e.message(), "Unsupported Git reference type: sample");
}

#[test]
fn repository_path_accepts_two_segments() {
    let p = RepositoryPath::new("acme/widgets").unwrap();
    assert_eq!(p.owner(), "acme");
    assert_eq!(p.name(), "widgets");
    assert_eq!(p.full_name(), "acme/widgets");
}

#[test]
fn repository_path_rejects_wrong_shapes() {
    for s in ["sample", "", "a/b/c", "/", "a/", "/b", "a//b"] {
        let e = RepositoryPath::new(s).unwrap_err();
        assert!(matches!(&e, GitError::MalformedRepositoryPath(v) if v == s));
    }
}

#[test]
fn repository_path_error_message() {
    let e = RepositoryPath::new("sample").unwrap_err();
    assert_eq!(e.message(), "Malformed repository path: sample");
}

#[test]
fn backend_root_urls() {
    assert_eq!(GitBackend::GitHub.root_url(), "https://github.com");
    assert_eq!(GitBackend::GitLab.root_url(), "https://gitlab.com");
    assert_eq!(
        GitBackend::Custom(String::from("https://example.test")).root_url(),
        "https://example.test"
    );
}

#[test]
fn backend_parse_is_case_insensitive() {
    assert!(matches!(GitBackend::parse("github"), Ok(GitBackend::GitHub)));
    assert!(matches!(GitBackend::parse("GitHub"), Ok(GitBackend::GitHub)));
    assert!(matches!(GitBackend::parse("GITLAB"), Ok(GitBackend::GitLab)));
    assert!(
        matches!(GitBackend::parse("custom:https://example.test"), Ok(GitBackend::Custom(u)) if u == "https://example.test")
    );
    assert!(matches!(
        GitBackend::parse("bitbucket"),
        Err(GitError::UnsupportedGitBackend(_))
    ));
}
