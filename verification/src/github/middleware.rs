//! The signature guard in front of the webhook endpoint.
//!
//! Every POST must present the provider's user agent; when a shared
//! secret is configured, it must also carry a valid hex-encoded
//! HMAC-SHA256 signature of the raw body.  The decision over the
//! buffered request data is made here; reading the body off the wire
//! and answering belong to the surrounding server.

use vstd::prelude::*;
use vstd::string::*;
use vstd::utf8::encode_utf8;

use crate::crypto::{is_valid_signature, spec_hmac_sha256, spec_hex_decode, spec_signature_valid};
use crate::error::ErrorCode;
use crate::text::str_starts_with;

verus! {

/// Whether a `User-Agent` header identifies the provider's webhook
/// sender.
pub open spec fn spec_user_agent_ok(user_agent: Option<Seq<char>>) -> bool {
    match user_agent {
        Some(v) => "GitHub-Hookshot/"@.is_prefix_of(v),
        None => false,
    }
}

/// The hex digest carried by a signature header: the part after
/// `sha256=`, or empty when that prefix is missing.
pub open spec fn spec_signature_value(header: Seq<char>) -> Seq<char> {
    if "sha256="@.is_prefix_of(header) {
        header.skip("sha256="@.len() as int)
    } else {
        Seq::empty()
    }
}

/// Whether a delivery passes the signature check under `secret`.
pub open spec fn spec_signature_ok(
    signature_header: Option<Seq<char>>,
    secret: Seq<char>,
    body: Seq<u8>,
) -> bool {
    match signature_header {
        Some(h) => spec_signature_valid(
            encode_utf8(spec_signature_value(h)),
            body,
            encode_utf8(secret),
        ),
        None => false,
    }
}

/// What the guard does with a request.
#[derive(Debug, Clone, Copy, PartialEq, Eq, Structural)]
pub enum GuardOutcome {
    Forward,
    RejectUserAgent,
    RejectSignature,
}

/// The guard's decision: non-POST requests pass through; a POST must
/// carry the provider's user agent, and, when a secret is
/// configured, a valid body signature.
pub open spec fn spec_guard_outcome(
    is_post: bool,
    user_agent: Option<Seq<char>>,
    signature_header: Option<Seq<char>>,
    secret: Option<Seq<char>>,
    body: Seq<u8>,
) -> GuardOutcome {
    if !is_post {
        GuardOutcome::Forward
    } else if !spec_user_agent_ok(user_agent) {
        GuardOutcome::RejectUserAgent
    } else {
        match secret {
            Some(k) => if spec_signature_ok(signature_header, k, body) {
                GuardOutcome::Forward
            } else {
                GuardOutcome::RejectSignature
            },
            None => GuardOutcome::Forward,
        }
    }
}

/// The view of an optional borrowed header value.
pub open spec fn spec_opt_ref_view(o: Option<&String>) -> Option<Seq<char>> {
    match o {
        Some(s) => Some(s@),
        None => None,
    }
}

/// The view of an optional owned value.
pub open spec fn spec_opt_view(o: Option<String>) -> Option<Seq<char>> {
    match o {
        Some(s) => Some(s@),
        None => None,
    }
}

/// Configuration of the guard: the optional shared secret.
#[derive(Debug, Clone)]
pub struct VerifyGitHubSignatureLayer {
    pub secret: Option<String>,
}

impl VerifyGitHubSignatureLayer {
    /// Remembers the shared secret, if one is configured.
    pub fn new(secret: Option<String>) -> (r: Self)
        ensures
            r.secret == secret,
    {
        Self { secret }
    }

    /// Wraps an inner service with a guard carrying this secret.
    pub fn layer<S>(&self, inner: S) -> (r: VerifyGitHubSignatureMiddleware<S>)
        ensures
            spec_opt_view(r.secret) == spec_opt_view(self.secret),
    {
        let secret = match &self.secret {
            Some(s) => Some(s.clone()),
            None => None,
        };
        VerifyGitHubSignatureMiddleware::new(secret, inner)
    }
}

/// The guard around an inner service.  The decision over a buffered
/// request lives in [`Self::check_request`]; the surrounding server
/// forwards the identical body bytes when it answers `Ok`.
#[derive(Debug, Clone)]
pub struct VerifyGitHubSignatureMiddleware<S> {
    pub secret: Option<String>,
    pub inner: S,
}

impl<S> VerifyGitHubSignatureMiddleware<S> {
    /// Builds the guard from the optional secret and the service it
    /// protects.
    pub fn new(secret: Option<String>, inner: S) -> (r: Self)
        ensures
            r.secret == secret,
    {
        Self { secret, inner }
    }

    /// Decides a request.
    ///
    /// `user_agent` is the decoded `User-Agent` header (absent when
    /// missing or undecodable); `signature_header` is the raw
    /// signature header value (absent only when the header is
    /// missing; an undecodable value arrives as an empty string, and
    /// is rejected like any value without a valid digest); `body` is
    /// the full buffered request body.
    pub fn check_request(
        &self,
        is_post: bool,
        user_agent: Option<&String>,
        signature_header: Option<&String>,
        body: &[u8],
    ) -> (r: Result<(), ErrorCode>)
        ensures
            ({
                let outcome = spec_guard_outcome(
                    is_post,
                    spec_opt_ref_view(user_agent),
                    spec_opt_ref_view(signature_header),
                    spec_opt_view(self.secret),
                    body@,
                );
                &&& (r is Ok <==> outcome is Forward)
                &&& ((r matches Err(e) && e is InvalidUserAgent) <==> outcome is RejectUserAgent)
                &&& ((r matches Err(e) && e is InvalidSignature) <==> outcome is RejectSignature)
            }),
    {
        if !is_post {
            return Ok(());
        }
        let ua_ok = match user_agent {
            Some(ua) => str_starts_with(ua.as_str(), "GitHub-Hookshot/"),
            None => false,
        };
        if !ua_ok {
            return Err(ErrorCode::InvalidUserAgent);
        }
        match &self.secret {
            None => Ok(()),
            Some(secret) => match signature_header {
                None => Err(ErrorCode::InvalidSignature),
                Some(header) => {
                    let signature = if str_starts_with(header.as_str(), "sha256=") {
                        let n = "sha256=".unicode_len();
                        header.as_str().substring_char(n, header.as_str().unicode_len())
                    } else {
                        proof {
                            reveal_strlit("");
                            assert(""@ =~= Seq::<char>::empty());
                        }
                        ""
                    };
                    if is_valid_signature(signature, body, secret.as_str()) {
                        Ok(())
                    } else {
                        Err(ErrorCode::InvalidSignature)
                    }
                },
            },
        }
    }
}

/// Law: a POST whose user agent is not the provider's is rejected
/// for its user agent, whatever the signature header, secret and
/// body hold.
pub proof fn lemma_user_agent_guard(
    user_agent: Option<Seq<char>>,
    signature_header: Option<Seq<char>>,
    secret: Option<Seq<char>>,
    body: Seq<u8>,
)
    requires
        !spec_user_agent_ok(user_agent),
    ensures
        spec_guard_outcome(true, user_agent, signature_header, secret, body)
            is RejectUserAgent,
{
}

/// Law: for a POST with an acceptable user agent and a configured
/// secret, a signature header whose digest hex-decodes to the
/// HMAC-SHA256 of the body under the secret is accepted; one whose
/// digest does not decode to that value is rejected for its
/// signature; a missing signature header is rejected for its
/// signature.  With no secret configured, every signature state is
/// accepted.
pub proof fn lemma_signature_guard(
    user_agent: Option<Seq<char>>,
    signature_header: Option<Seq<char>>,
    secret: Seq<char>,
    body: Seq<u8>,
)
    requires
        spec_user_agent_ok(user_agent),
    ensures
        (signature_header matches Some(h) && spec_hex_decode(encode_utf8(spec_signature_value(h)))
            == Some(spec_hmac_sha256(encode_utf8(secret), body))) ==> spec_guard_outcome(
            true,
            user_agent,
            signature_header,
            Some(secret),
            body,
        ) is Forward,
        (signature_header matches Some(h) && spec_hex_decode(encode_utf8(spec_signature_value(h)))
            != Some(spec_hmac_sha256(encode_utf8(secret), body))) ==> spec_guard_outcome(
            true,
            user_agent,
            signature_header,
            Some(secret),
            body,
        ) is RejectSignature,
        signature_header is None ==> spec_guard_outcome(
            true,
            user_agent,
            signature_header,
            Some(secret),
            body,
        ) is RejectSignature,
        spec_guard_outcome(true, user_agent, signature_header, None, body) is Forward,
{
}

} // verus!
