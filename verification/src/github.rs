//! The hosting-provider side: event payloads, the signature guard,
//! event routing, and the webhook-subscription client.

pub mod apiclient;
pub mod error;
pub mod events;
pub mod middleware;
pub mod models;

pub use self::apiclient::{Client, Webhook, WebhookConfig};
pub use self::error::GitHubError;
pub use self::models::{Commit, CommitUser, PingEvent, PushEvent, Repository};
