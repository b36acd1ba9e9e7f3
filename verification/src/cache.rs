//! How long cached items live: time-to-live and time-to-idle policies.
use vstd::prelude::*;
use core::time::Duration;

verus! {

/// The expiration policy of a cached item.
#[derive(Debug, Clone, Copy)]
pub enum CacheExpiry {
    /// Time to live: the item expires that long after it was set.
    TTL(Duration),
    /// Time to idle: the item expires that long after it was last accessed.
    TTI(Duration),
}

/// The policy's duration, if there is a policy.
pub open spec fn policy_duration(e: Option<CacheExpiry>) -> Option<Duration> {
    match e {
        Some(CacheExpiry::TTL(d)) => Some(d),
        Some(CacheExpiry::TTI(d)) => Some(d),
        None => None,
    }
}

/// How long a newly created item lives: its policy's duration (none without a policy).
pub fn expire_after_create(expiry: &Option<CacheExpiry>) -> (r: Option<Duration>)
    ensures
        r == policy_duration(*expiry),
{
    match expiry {
        Some(CacheExpiry::TTL(d)) => Some(*d),
        Some(CacheExpiry::TTI(d)) => Some(*d),
        None => None,
    }
}

/// How long an item lives after a read: a time-to-live item keeps the time
/// it had left; a time-to-idle item starts its duration again.
pub fn expire_after_read(expiry: &Option<CacheExpiry>, duration_until_expiry: Option<Duration>) -> (r: Option<Duration>)
    ensures
        r == match *expiry {
            Some(CacheExpiry::TTL(_)) => duration_until_expiry,
            Some(CacheExpiry::TTI(d)) => Some(d),
            None => None,
        },
{
    match expiry {
        Some(CacheExpiry::TTL(_)) => duration_until_expiry,
        Some(CacheExpiry::TTI(d)) => Some(*d),
        None => None,
    }
}

/// How long an updated item lives: its policy's duration, from now.
pub fn expire_after_update(expiry: &Option<CacheExpiry>) -> (r: Option<Duration>)
    ensures
        r == policy_duration(*expiry),
{
    expire_after_create(expiry)
}

} // verus!
