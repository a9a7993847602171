use vstd::prelude::*;

verus! {

/// `seconds / 60`, rounded to the nearest whole minute with ties rounding
/// up. Meaningful for non-negative `seconds`.
pub open spec fn round_minutes(seconds: int) -> int {
    (seconds + 30) / 60
}

/// `seconds / 3600` hours, scaled by 100 and rounded to the nearest whole
/// number with ties rounding up: hours to two decimal places, kept as an
/// integer count of hundredths. Meaningful for non-negative `seconds`.
pub open spec fn round_hundredths_of_hour(seconds: int) -> int {
    (seconds * 100 + 1800) / 3600
}

/// The minutes reported for a stopped session: the elapsed whole seconds,
/// rounded to the nearest minute, ties up. Raw seconds are never reported.
pub fn minutes_of_seconds(seconds: u64) -> (r: u64)
    ensures
        r as int == round_minutes(seconds as int),
{
    let q = seconds / 60;
    let rem = seconds % 60;
    if rem >= 30 {
        q + 1
    } else {
        q
    }
}

/// Hundredths of an hour for a summed count of seconds, rounded to the
/// nearest hundredth, ties up. The bound on `seconds` is what makes the
/// result fit a machine word; it admits two full `u64` second counts.
pub fn hundredths_of_seconds(seconds: u128) -> (r: u64)
    requires
        seconds as int <= 2 * (u64::MAX as int),
    ensures
        r as int == round_hundredths_of_hour(seconds as int),
{
    ((seconds * 100 + 1800) / 3600) as u64
}

} // verus!
