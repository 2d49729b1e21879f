//! Time as the library counts it: milliseconds since the Unix epoch for the
//! caches, whole seconds for token expiry.

use vstd::prelude::*;

verus! {

/// Whether a number can be held in an `i64`.
pub open spec fn fits(x: int) -> bool {
    i64::MIN <= x <= i64::MAX
}

/// The whole seconds that have passed at `now` milliseconds, rounded down,
/// also before the epoch.
pub open spec fn seconds(now: int) -> int {
    now / 1000
}

/// The whole seconds that have passed at `now` milliseconds, rounded down.
pub fn seconds_of(now: i64) -> (s: i64)
    ensures
        s == seconds(now as int),
{
    if now >= 0 {
        now / 1000
    } else {
        let past: i64 = -(now + 1);
        -(past / 1000) - 1
    }
}

/// Whether a number can be held in an `i64`.
pub fn is_in_range(x: i128) -> (yes: bool)
    ensures
        yes == fits(x as int),
{
    i64::MIN as i128 <= x && x <= i64::MAX as i128
}

/// The sum of two numbers where an `i64` can hold it.
pub fn sum_if_fits(a: i64, b: i64) -> (sum: Option<i64>)
    ensures
        sum == if fits(a + b) {
            Some((a + b) as i64)
        } else {
            None
        },
{
    a.checked_add(b)
}

/// The machine's clock, in milliseconds since the Unix epoch, as chrono's
/// `Utc::now().timestamp_millis()` reads it. Nothing is claimed of the
/// value: two readings may differ in either direction. chrono panics where
/// the clock stands before 1970 or beyond the years that it can count.
#[verifier::external_body]
pub(crate) fn clock_millis() -> i64 {
    chrono::Utc::now().timestamp_millis()
}

} // verus!
