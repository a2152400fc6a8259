//! The signature guard's decisions.

use hookrunner::error::ErrorCode;
use hookrunner::github::middleware::{VerifyGitHubSignatureLayer, VerifyGitHubSignatureMiddleware};

const KEY: &str = "Jefe";
const BODY: &[u8] = b"what do ya want for nothing?";
const SIGNED: &str = "sha256=5bdcc146bf60754e6a042426089575c75a003f089d2739839dec58b964ec3843";

fn guard(secret: Option<&str>) -> VerifyGitHubSignatureMiddleware<()> {
    VerifyGitHubSignatureLayer::new(secret.map(String::from)).layer(())
}

fn agent() -> Option<String> {
    Some(String::from("GitHub-Hookshot/value"))
}

#[test]
fn non_post_requests_pass_through() {
    let g = guard(Some(KEY));
    assert!(g.check_request(false, None, None, BODY).is_ok());
}

#[test]
fn missing_user_agent_is_rejected() {
    let g = guard(None);
    let e = g.check_request(true, None, None, BODY).unwrap_err();
    assert!(matches!(e, ErrorCode::InvalidUserAgent));
    assert_eq!(e.details().internal_code(), 3);
    assert_eq!(e.details().status_code(), 400);
}

#[test]
fn wrong_user_agent_is_rejected_despite_valid_signature() {
    let g = guard(Some(KEY));
    let ua = Some(String::from("curl/8.0"));
    let sig = Some(String::from(SIGNED));
    let e = g
        .check_request(true, ua.as_ref(), sig.as_ref(), BODY)
        .unwrap_err();
    assert!(matches!(e, ErrorCode::InvalidUserAgent));
}

#[test]
fn no_secret_accepts_any_signature_state() {
    let g = guard(None);
    let ua = agent();
    assert!(g.check_request(true, ua.as_ref(), None, BODY).is_ok());
    let junk = Some(String::from("sha256=zzzz"));
    assert!(g.check_request(true, ua.as_ref(), junk.as_ref(), BODY).is_ok());
}

#[test]
fn secret_requires_a_signature_header() {
    let g = guard(Some(KEY));
    let ua = agent();
    let e = g.check_request(true, ua.as_ref(), None, BODY).unwrap_err();
    assert!(matches!(e, ErrorCode::InvalidSignature));
    assert_eq!(e.details().internal_code(), 2);
}

#[test]
fn valid_signature_is_accepted() {
    let g = guard(Some(KEY));
    let ua = agent();
    let sig = Some(String::from(SIGNED));
    assert!(g.check_request(true, ua.as_ref(), sig.as_ref(), BODY).is_ok());
}

#[test]
fn flipped_signature_byte_is_rejected() {
    let g = guard(Some(KEY));
    let ua = agent();
    let mut s = String::from(SIGNED);
    // flip the first hex digit of the digest: 5 -> 6
    s.replace_range(7..8, "6");
    let sig = Some(s);
    let e = g
        .check_request(true, ua.as_ref(), sig.as_ref(), BODY)
        .unwrap_err();
    assert!(matches!(e, ErrorCode::InvalidSignature));
}

#[test]
fn signature_without_prefix_is_rejected() {
    let g = guard(Some(KEY));
    let ua = agent();
    let sig = Some(String::from(
        "5bdcc146bf60754e6a042426089575c75a003f089d2739839dec58b964ec3843",
    ));
    let e = g
        .check_request(true, ua.as_ref(), sig.as_ref(), BODY)
        .unwrap_err();
    assert!(matches!(e, ErrorCode::InvalidSignature));
}

#[test]
fn tampered_body_is_rejected() {
    let g = guard(Some(KEY));
    let ua = agent();
    let sig = Some(String::from(SIGNED));
    let e = g
        .check_request(true, ua.as_ref(), sig.as_ref(), b"what do ya want for nothing?!")
        .unwrap_err();
    assert!(matches!(e, ErrorCode::InvalidSignature));
}
