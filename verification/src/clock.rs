//! Instants and durations, in whole seconds.
//!
//! An instant is a count of seconds since the Unix epoch, held in an `i64`.
//! The library works with the instants that `chrono::DateTime<Utc>` can
//! represent and with durations that `chrono::TimeDelta::seconds` accepts, so
//! that sums of an instant and a duration always fit in an `i64`.

use vstd::prelude::*;

verus! {

/// First second of January 1, 262144 BCE.
pub const MIN_TIMESTAMP: i64 = -8_334_601_228_800;

/// Last second of December 31, 262142 CE.
pub const MAX_TIMESTAMP: i64 = 8_210_266_876_799;

/// Longest duration an auction may be configured with.
pub const MAX_DURATION_SECONDS: i64 = 9_223_372_036_854_775;

/// Whether `t` is an instant the library works with.
pub open spec fn valid_timestamp(t: i64) -> bool {
    MIN_TIMESTAMP <= t <= MAX_TIMESTAMP
}

/// Whether `d` is a duration an auction may be configured with.
pub open spec fn valid_duration(d: i64) -> bool {
    0 <= d <= MAX_DURATION_SECONDS
}

/// Run-time test for [`valid_timestamp`].
pub fn is_valid_timestamp(t: i64) -> (ok: bool)
    ensures
        ok == valid_timestamp(t),
{
    MIN_TIMESTAMP <= t && t <= MAX_TIMESTAMP
}

/// Run-time test for [`valid_duration`].
pub fn is_valid_duration(d: i64) -> (ok: bool)
    ensures
        ok == valid_duration(d),
{
    0 <= d && d <= MAX_DURATION_SECONDS
}

/// Current time as a Unix timestamp, from `chrono::Utc::now().timestamp()`.
///
/// Trusted: `Utc::now` refuses a system clock set before the epoch and builds
/// its result with `DateTime::from_timestamp`, which rejects anything past
/// December 31, 262142; the value handed out therefore lies between zero and
/// [`MAX_TIMESTAMP`]. Nothing else is claimed: two calls may return any two
/// instants in that range, in either order.
#[verifier::external_body]
pub(crate) fn unix_now() -> (now: i64)
    ensures
        0 <= now <= MAX_TIMESTAMP,
{
    chrono::Utc::now().timestamp()
}

} // verus!
