//! Linear backoff between download retry attempts.

use vstd::prelude::*;

verus! {

/// Delay in milliseconds before the retry that follows the given attempt:
/// `attempt * 2000`, raised to at least one millisecond.
pub open spec fn spec_backoff_delay(attempt: int) -> int {
    if attempt * 2000 >= 1 {
        attempt * 2000
    } else {
        1
    }
}

/// Computes the backoff delay in milliseconds for a 1-based attempt number.
/// The caller suspends for this long before the next attempt.
pub fn backoff_delay(attempt: u64) -> (r: u64)
    requires
        attempt <= u64::MAX / 2000,
    ensures
        r == spec_backoff_delay(attempt as int),
{
    let d: u64 = attempt * 2000;
    if d >= 1 {
        d
    } else {
        1
    }
}

/// The delay is monotonically non-decreasing in the attempt number, the
/// first attempt waits exactly two seconds, and for every attempt from the
/// first on the delay is exactly `attempt * 2000` milliseconds.
pub proof fn lemma_backoff_delay_monotone(a: int, b: int)
    requires
        1 <= a <= b,
    ensures
        spec_backoff_delay(a) <= spec_backoff_delay(b),
        spec_backoff_delay(1) == 2000,
        spec_backoff_delay(a) == a * 2000,
{
}

} // verus!
