//! The wall clock, in Unix seconds.

use vstd::prelude::*;

verus! {

/// Relies on chrono::Utc::now and DateTime::timestamp: the current Unix time
/// in seconds. Utc::now panics on a system clock set before the epoch
/// rather than return such an instant, so the value is never negative;
/// nothing else is promised of it.
#[verifier::external_body]
fn utc_timestamp() -> (r: i64)
    ensures
        r >= 0,
{
    chrono::Utc::now().timestamp()
}

/// The current Unix time in seconds.
pub fn unix_now() -> (r: u64)
    ensures
        r <= i64::MAX,
{
    utc_timestamp() as u64
}

} // verus!
