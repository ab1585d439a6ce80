use vstd::prelude::*;

use std::time::Duration;

verus! {

/// The whole number of milliseconds that `Duration::as_millis` reports for `d`.
pub uninterp spec fn duration_millis(d: Duration) -> u128;

/// Calls `Duration::as_millis`: the total number of whole milliseconds in `d`.
#[verifier::external_body]
fn as_millis(d: &Duration) -> (r: u128)
    ensures
        r == duration_millis(*d),
{
    d.as_millis()
}

/// The duration that `Duration::from_millis` builds from `ms`.
pub uninterp spec fn duration_of_millis(ms: u64) -> Duration;

/// Calls `Duration::from_millis`: a duration of exactly `ms` milliseconds,
/// so `as_millis` gives `ms` back.
#[verifier::external_body]
pub(crate) fn from_millis(ms: u64) -> (d: Duration)
    ensures
        d == duration_of_millis(ms),
        duration_millis(d) == ms as u128,
{
    Duration::from_millis(ms)
}

/// The timeout in milliseconds that native calls take: the whole
/// milliseconds of `d`, saturated at `i64::MAX`.
pub open spec fn spec_timeout_ms(millis: u128) -> i64 {
    if millis <= i64::MAX as u128 {
        millis as i64
    } else {
        i64::MAX
    }
}

/// The conversion is exact for every timeout that fits in an `i64` of
/// milliseconds, never negative, and preserves the order of timeouts.
pub proof fn lemma_timeout_ms(a: u128, b: u128)
    ensures
        a <= i64::MAX ==> spec_timeout_ms(a) == a,
        a > i64::MAX ==> spec_timeout_ms(a) == i64::MAX,
        spec_timeout_ms(a) >= 0,
        a <= b ==> spec_timeout_ms(a) <= spec_timeout_ms(b),
{
}

/// Converts a timeout to the milliseconds handed to native calls, saturating
/// at `i64::MAX`.
pub fn timeout_ms(timeout: Duration) -> (r: i64)
    ensures
        r == spec_timeout_ms(duration_millis(timeout)),
{
    let ms = as_millis(&timeout);
    if ms <= 0x7fff_ffff_ffff_ffff {
        ms as i64
    } else {
        i64::MAX
    }
}

} // verus!
