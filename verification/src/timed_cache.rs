//! A single cached value that stays fresh for five minutes.
//!
//! Times are nanoseconds on a monotonic clock chosen by the caller; a value
//! stored at `t` is served for lookups made before `t` plus five minutes.

use vstd::prelude::*;

verus! {

/// How long a cached lookup stays fresh, in nanoseconds (five minutes).
pub const CACHE_TTL_NANOS: u128 = 300_000_000_000;

/// Whether a lookup made `elapsed_nanos` ago is still fresh.
pub fn is_cache_fresh(elapsed_nanos: u128) -> (r: bool)
    ensures
        r == (elapsed_nanos < CACHE_TTL_NANOS),
{
    elapsed_nanos < CACHE_TTL_NANOS
}

/// Time from `stored_at` to `now`; zero when `now` is not later.
pub open spec fn elapsed_between(stored_at: u128, now: u128) -> int {
    if now >= stored_at {
        now - stored_at
    } else {
        0
    }
}

/// The value an entry stored as `(time, value)` serves at `now`: the value
/// while it is fresh, nothing once it has expired or when there is no entry.
pub open spec fn fresh_value<T>(entry: Option<(u128, T)>, now: u128) -> Option<T> {
    match entry {
        Some((stored_at, value)) => if elapsed_between(stored_at, now) < CACHE_TTL_NANOS {
            Some(value)
        } else {
            None
        },
        None => None,
    }
}

/// One cached value together with the time it was stored.
pub struct TimedCache<T> {
    entry: Option<(u128, T)>,
}

impl<T> TimedCache<T> {
    /// The stored time and value, if any.
    pub closed spec fn entry(&self) -> Option<(u128, T)> {
        self.entry
    }

    /// A cache holding nothing.
    pub fn new() -> (r: Self)
        ensures
            r.entry() is None,
    {
        TimedCache { entry: None }
    }

    /// The cached value, if it is still fresh at `now`.
    pub fn lookup(&self, now: u128) -> (r: Option<&T>)
        ensures
            match fresh_value(self.entry(), now) {
                Some(v) => (r matches Some(x) && *x == v),
                None => r is None,
            },
    {
        match &self.entry {
            Some((stored_at, value)) => {
                let elapsed: u128 = if now >= *stored_at {
                    now - *stored_at
                } else {
                    0
                };
                if is_cache_fresh(elapsed) {
                    Some(value)
                } else {
                    None
                }
            },
            None => None,
        }
    }

    /// Stores `value` as fetched at `now`, replacing what was cached.
    pub fn store(&mut self, now: u128, value: T)
        ensures
            final(self).entry() == Some((now, value)),
    {
        self.entry = Some((now, value));
    }
}

/// A value stored at `stored_at` is served for every lookup within the
/// following five minutes, and for none after that.
pub proof fn law_stored_value_is_reused_while_fresh<T>(stored_at: u128, value: T, now: u128)
    ensures
        now >= stored_at && now - stored_at < CACHE_TTL_NANOS ==> fresh_value(Some((stored_at, value)), now)
            == Some(value),
        now >= stored_at && now - stored_at >= CACHE_TTL_NANOS ==> fresh_value(Some((stored_at, value)), now)
            is None,
{
}

} // verus!
