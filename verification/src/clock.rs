//! The wall clock, read as whole seconds since the Unix epoch.

use vstd::prelude::*;

verus! {

/// Largest magnitude of a clock reading: 2^48 seconds.
pub const CLOCK_LIMIT: i64 = 0x1_0000_0000_0000;

/// Whether `t` is a value that the clock can report.
pub open spec fn is_clock_reading(t: i64) -> bool {
    -CLOCK_LIMIT <= t <= CLOCK_LIMIT
}

/// The current time in seconds since the Unix epoch.
///
/// Trusted: calls `time::OffsetDateTime::now_utc` and converts the instant with
/// `unix_timestamp`. The reading depends on the machine's clock, so only its range is
/// claimed: `unix_timestamp` multiplies a 32-bit day number by 86 400 and adds less than
/// two days of seconds, which stays below 2^48 in magnitude.
#[verifier::external_body]
pub(crate) fn now_unix() -> (t: i64)
    ensures
        is_clock_reading(t),
{
    time::OffsetDateTime::now_utc().unix_timestamp()
}

} // verus!
