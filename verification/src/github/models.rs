//! The event payloads the hosting provider delivers.
//!
//! Values of these types are built from already-decoded JSON; the
//! decoding itself happens outside the library.

use vstd::prelude::*;

verus! {

/// The repository an event concerns.
#[derive(Debug, Clone)]
pub struct Repository {
    pub full_name: String,
    pub name: String,
}

/// The connectivity-check event.
#[derive(Debug, Clone)]
pub struct PingEvent {
    pub zen: String,
    pub repository: Repository,
}

/// The head commit of a push.
#[derive(Debug, Clone)]
pub struct Commit {
    pub message: String,
    pub timestamp: String,
}

/// The account behind a push.
#[derive(Debug, Clone)]
pub struct CommitUser {
    pub name: String,
    pub email: String,
}

/// A push notification: the reference pushed to and where.
#[derive(Debug, Clone)]
pub struct PushEvent {
    pub reference: String,
    pub base_ref: String,
    pub head_commit: Commit,
    pub repository: Repository,
    pub pusher: CommitUser,
}

} // verus!
