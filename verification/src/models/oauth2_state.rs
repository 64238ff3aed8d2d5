//! The state strings of pending authorizations.

use vstd::prelude::*;
use crate::models::group::Group;
use crate::time::Timestamp;

verus! {

/// How long a state stays valid, in seconds.
pub const STATE_LIFETIME: i64 = 300;

/// How often the storing of a new state is tried again.
pub const RETRIES: u32 = 3;

/// A stored state.
#[derive(Debug)]
pub struct Oauth2State {
    pub id: i32,
    pub state: String,
    pub group_id: i32,
    pub expires_at: Timestamp,
}

/// A state that is about to be stored.
#[derive(Debug)]
pub struct CreateOauth2State {
    pub group_id: i32,
    pub state: String,
    pub expires_at: Timestamp,
}

impl Oauth2State {
    /// The state of a group's authorization that starts at `now`: it
    /// expires five minutes later.
    pub fn generate(group: &Group, state: String, now: Timestamp) -> (out: CreateOauth2State)
        requires
            now.seconds + STATE_LIFETIME <= i64::MAX,
        ensures
            out.group_id == group.id,
            out.state == state,
            out.expires_at == now.later(STATE_LIFETIME as int),
    {
        let expires_at = now.plus_seconds(STATE_LIFETIME);
        CreateOauth2State { group_id: group.id, state, expires_at }
    }
}

impl Oauth2State {
    /// Whether the storing of a new state is given up after so many
    /// failures: after more than three.
    pub fn gives_up(failures: u32) -> (out: bool)
        ensures
            out == (failures > RETRIES),
    {
        failures > RETRIES
    }

    /// Whether the state has expired at `now`.
    pub fn is_expired(&self, now: Timestamp) -> (out: bool)
        ensures
            out == self.expires_at.before(now),
    {
        self.expires_at.is_before(now)
    }
}

} // verus!
