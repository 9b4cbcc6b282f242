//! A stored reaction rule, as the repository hands it back.

use vstd::prelude::*;

verus! {

/// A persisted rule. Times are whole seconds since the Unix epoch.
///
/// A stored rule with neither a user nor a pattern applies to every message
/// of its guild: stored rows are taken as they are. The builders never make
/// such a rule (`TargetBuilder::build` refuses it with `MissingUserAndRegex`),
/// so it can only come from rows written by other means.
pub struct Action {
    pub id: i64,
    pub guild_id: u64,
    pub user_id: Option<u64>,
    pub regex: Option<String>,
    pub reactions: Vec<String>,
    pub expiration: Option<u64>,
}

/// The rule is in scope for a message of `user` in `guild` at time `now`:
/// same guild, any user or that user, and not past its expiration (a rule
/// that expires exactly at `now` still applies).
pub open spec fn applies(a: Action, guild: u64, user: u64, now: u64) -> bool {
    &&& a.guild_id == guild
    &&& (a.user_id is None || a.user_id == Some(user))
    &&& (a.expiration is None || now <= a.expiration->0)
}

/// The rule's expiration lies strictly before `now`.
pub open spec fn expired(a: Action, now: u64) -> bool {
    a.expiration matches Some(e) && e < now
}

impl Action {
    /// Whether this rule applies to a message of `user` in `guild` at `now`.
    pub fn is_active(&self, guild: u64, user: u64, now: u64) -> (r: bool)
        ensures
            r == applies(*self, guild, user, now),
    {
        let user_ok = match self.user_id {
            None => true,
            Some(u) => u == user,
        };
        let time_ok = match self.expiration {
            None => true,
            Some(e) => now <= e,
        };
        self.guild_id == guild && user_ok && time_ok
    }

    /// Whether this rule is due for removal at `now`.
    pub fn is_expired(&self, now: u64) -> (r: bool)
        ensures
            r == expired(*self, now),
    {
        match self.expiration {
            None => false,
            Some(e) => e < now,
        }
    }
}

/// A rule that expires at `t` is still applied to a message at `t`, and is
/// not removed then; one second later it no longer applies and is removed.
pub proof fn lemma_expiration_boundary(a: Action, user: u64, t: u64)
    requires
        a.expiration == Some(t),
        a.user_id is None || a.user_id == Some(user),
        t < u64::MAX,
    ensures
        applies(a, a.guild_id, user, t),
        !expired(a, t),
        !applies(a, a.guild_id, user, (t + 1) as u64),
        expired(a, (t + 1) as u64),
{
}

} // verus!
