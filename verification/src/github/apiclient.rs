//! Decisions of the webhook-subscription client.
//!
//! The HTTP calls against the hosting API are made by the
//! surrounding process; what is decided here, over the hook list
//! those calls return, is whether registering must create anything
//! and whether unregistering has anything to delete.  Both
//! operations are idempotent by these decisions.

use vstd::prelude::*;
use vstd::string::*;

use crate::text::str_eq;

verus! {

/// An authenticated client of the hosting API: remembers the
/// caller's token, which every API call presents.
#[derive(Debug, Clone)]
pub struct Client {
    token: String,
}

impl Client {
    /// The token presented on every call.
    pub closed spec fn spec_token(&self) -> Seq<char> {
        self.token@
    }

    /// Remembers the API token.
    pub fn new(token: String) -> (r: Self)
        ensures
            r.spec_token() == token@,
    {
        Self { token }
    }

    /// The token presented on every call.
    pub fn token(&self) -> (r: &String)
        ensures
            r@ == self.spec_token(),
    {
        &self.token
    }
}

/// Where a remote webhook delivers.
#[derive(Debug, Clone)]
pub struct WebhookConfig {
    pub url: String,
}

/// A webhook subscription the provider holds: its id and target URL.
#[derive(Debug, Clone)]
pub struct Webhook {
    pub id: u32,
    pub config: WebhookConfig,
}

/// The normalized serialization of a URL string, or nothing when the
/// string does not parse as a URL.  A function of the string alone;
/// nothing further is assumed of its value.
pub uninterp spec fn spec_url_normal(s: Seq<char>) -> Option<Seq<char>>;

/// Relies on `url::Url::parse` and `Url::as_str`: parsing depends on
/// the input string alone, and equality of `url::Url` values is
/// equality of their normalized serializations, which `as_str`
/// returns.
#[verifier::external_body]
fn normalize_url(s: &str) -> (r: Option<String>)
    ensures
        match r {
            Some(n) => spec_url_normal(s@) == Some(n@),
            None => spec_url_normal(s@) is None,
        },
{
    match url::Url::parse(s) {
        Ok(u) => Some(u.as_str().to_owned()),
        Err(_) => None,
    }
}

/// Whether a hook registered at `hook_url` targets `url`: both parse
/// as URLs and normalize to the same serialization.
pub open spec fn spec_hook_targets(hook_url: Seq<char>, url: Seq<char>) -> bool {
    match (spec_url_normal(hook_url), spec_url_normal(url)) {
        (Some(a), Some(b)) => a == b,
        _ => false,
    }
}

/// The id of the first hook targeting `url`, if any.
pub open spec fn spec_find_hook(hooks: Seq<Webhook>, url: Seq<char>) -> Option<u32>
    decreases hooks.len(),
{
    if hooks.len() == 0 {
        None
    } else if spec_hook_targets(hooks[0].config.url@, url) {
        Some(hooks[0].id)
    } else {
        spec_find_hook(hooks.drop_first(), url)
    }
}

/// Finds the first registered hook that targets `url`.
pub fn find_webhook_id(hooks: &Vec<Webhook>, url: &str) -> (r: Option<u32>)
    ensures
        match r {
            Some(id) => spec_find_hook(hooks@, url@) == Some(id),
            None => spec_find_hook(hooks@, url@) is None,
        },
{
    let target = normalize_url(url);
    let n = hooks.len();
    let mut i: usize = 0;
    proof {
        assert(hooks@.skip(0) =~= hooks@);
    }
    while i < n
        invariant
            i <= n,
            n == hooks@.len(),
            spec_find_hook(hooks@, url@) == spec_find_hook(hooks@.skip(i as int), url@),
            match target {
                Some(t) => spec_url_normal(url@) == Some(t@),
                None => spec_url_normal(url@) is None,
            },
        decreases n - i,
    {
        proof {
            assert(hooks@.skip(i as int)[0] == hooks@[i as int]);
            assert(hooks@.skip(i as int).drop_first() =~= hooks@.skip(i + 1));
        }
        let hook_normal = normalize_url(hooks[i].config.url.as_str());
        let matches_target = match (&hook_normal, &target) {
            (Some(h), Some(t)) => str_eq(h.as_str(), t.as_str()),
            _ => false,
        };
        if matches_target {
            return Some(hooks[i].id);
        }
        i += 1;
    }
    None
}

/// What a registration attempt must do, given the hooks already
/// registered.
#[derive(Debug, Clone, Copy, PartialEq, Eq, Structural)]
pub enum RegisterAction {
    AlreadyRegistered(u32),
    CreateNew,
}

/// What an unregistration attempt must do, given the hooks already
/// registered.
#[derive(Debug, Clone, Copy, PartialEq, Eq, Structural)]
pub enum UnregisterAction {
    Delete(u32),
    NotRegistered,
}

/// Decides a registration: when a hook already targets `url`, its id
/// is reused and nothing is created; otherwise one hook is to be
/// created.
pub fn plan_register(hooks: &Vec<Webhook>, url: &str) -> (r: RegisterAction)
    ensures
        match spec_find_hook(hooks@, url@) {
            Some(id) => r == RegisterAction::AlreadyRegistered(id),
            None => r == RegisterAction::CreateNew,
        },
{
    match find_webhook_id(hooks, url) {
        Some(id) => RegisterAction::AlreadyRegistered(id),
        None => RegisterAction::CreateNew,
    }
}

/// Decides an unregistration: when a hook targets `url` it is to be
/// deleted by id; with no matching hook there is nothing to do, and
/// the operation still succeeds.
pub fn plan_unregister(hooks: &Vec<Webhook>, url: &str) -> (r: UnregisterAction)
    ensures
        match spec_find_hook(hooks@, url@) {
            Some(id) => r == UnregisterAction::Delete(id),
            None => r == UnregisterAction::NotRegistered,
        },
{
    match find_webhook_id(hooks, url) {
        Some(id) => UnregisterAction::Delete(id),
        None => UnregisterAction::NotRegistered,
    }
}

/// Law: registering is idempotent.  When no hook targets `url` and
/// the registration creates one that does, a second registration
/// against the registry holding that hook finds it and reuses its
/// id, so no second hook is created.
pub proof fn lemma_register_idempotent(hooks: Seq<Webhook>, created: Webhook, url: Seq<char>)
    requires
        spec_find_hook(hooks, url) is None,
        spec_hook_targets(created.config.url@, url),
    ensures
        spec_find_hook(hooks.push(created), url) == Some(created.id),
    decreases hooks.len(),
{
    let extended = hooks.push(created);
    if hooks.len() == 0 {
        assert(extended[0] == created);
    } else {
        assert(extended[0] == hooks[0]);
        assert(extended.drop_first() =~= hooks.drop_first().push(created));
        lemma_register_idempotent(hooks.drop_first(), created, url);
    }
}

} // verus!
