//! Command cooldowns. The persistence layer stores when a cooldown expires;
//! this module decides what that timestamp means for a given clock reading,
//! which the caller supplies in milliseconds.

use vstd::prelude::*;

verus! {

/// The commands that are rate limited.
#[derive(Debug, Clone, Copy, PartialEq, Eq, Structural)]
pub enum CooldownType {
    Rest,
}

impl Default for CooldownType {
    fn default() -> (r: Self)
        ensures
            r == CooldownType::Rest,
    {
        CooldownType::Rest
    }
}

/// A stored cooldown: whose it is, what for, and when it expires (a Unix
/// timestamp in milliseconds).
#[derive(Debug, Clone)]
pub struct CooldownData {
    pub user_id: String,
    pub cooldown_type: CooldownType,
    pub expires_at: i64,
}

impl CooldownData {
    /// How many milliseconds remain at the clock reading `now`; negative
    /// once expired.
    pub fn remaining_milis(&self, now: i64) -> (r: i64)
        requires
            i64::MIN <= self.expires_at - now <= i64::MAX,
        ensures
            r == self.expires_at - now,
    {
        self.expires_at - now
    }

    /// Whether the cooldown has expired at the clock reading `now`.
    pub fn expired(&self, now: i64) -> (r: bool)
        ensures
            r == (self.expires_at <= now),
    {
        self.expires_at <= now
    }
}

} // verus!
