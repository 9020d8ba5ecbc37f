//! Remembering a recent "already up to date" answer. Only that answer is
//! cached: a newer release is never hidden by the cache, and manual checks
//! bypass it.
use vstd::prelude::*;

verus! {

/// How long an "already up to date" answer is trusted: six hours.
pub const CHECK_INTERVAL_SECONDS: u64 = 6 * 60 * 60;

/// A check made at `checked_at` still counts at `timestamp` (a clock that
/// went backwards counts as no time passed).
pub fn is_recent(checked_at: u64, timestamp: u64) -> (recent: bool)
    ensures
        recent == (timestamp - checked_at < CHECK_INTERVAL_SECONDS),
{
    let elapsed = if timestamp >= checked_at {
        timestamp - checked_at
    } else {
        0
    };
    elapsed < CHECK_INTERVAL_SECONDS
}

/// Whether the cache, holding the time of the last "already up to date"
/// answer or nothing readable, lets the startup check be skipped at `now`.
/// An unreadable cache never does.
pub fn checked_recently_at(cached_at: Option<u64>, now: u64) -> (skip: bool)
    ensures
        skip == (cached_at matches Some(t) && now - t < CHECK_INTERVAL_SECONDS),
{
    match cached_at {
        Some(t) => is_recent(t, now),
        None => false,
    }
}

} // verus!
