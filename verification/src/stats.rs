use vstd::prelude::*;
use crate::level::{B1_PLUS_GOAL_HUNDREDTHS, B2_GOAL_HUNDREDTHS};
use crate::rounding::{hundredths_of_seconds, round_hundredths_of_hour};

verus! {

/// The figures reported by the stats query: hours per level and combined,
/// each as a whole count of hundredths of an hour, plus the fixed goals.
#[derive(Clone, Copy, Debug, PartialEq, Eq, Structural)]
pub struct Stats {
    pub b1_plus_hundredths: u64,
    pub b2_hundredths: u64,
    pub total_hundredths: u64,
    pub b1_plus_goal_hundredths: u64,
    pub b2_goal_hundredths: u64,
}

/// Derives the reported stats from the per-level summed seconds of closed
/// sessions. The combined total is rounded once, from the raw sum of
/// seconds — never from the already-rounded per-level figures. The goal
/// figures are process-wide constants, independent of any session data.
pub fn stats_from_sums(b1_plus_seconds: u64, b2_seconds: u64) -> (r: Stats)
    ensures
        r.b1_plus_hundredths as int == round_hundredths_of_hour(b1_plus_seconds as int),
        r.b2_hundredths as int == round_hundredths_of_hour(b2_seconds as int),
        r.total_hundredths as int == round_hundredths_of_hour(
            b1_plus_seconds as int + b2_seconds as int,
        ),
        r.b1_plus_goal_hundredths == B1_PLUS_GOAL_HUNDREDTHS,
        r.b2_goal_hundredths == B2_GOAL_HUNDREDTHS,
{
    let b1h = hundredths_of_seconds(b1_plus_seconds as u128);
    let b2h = hundredths_of_seconds(b2_seconds as u128);
    let total = hundredths_of_seconds(b1_plus_seconds as u128 + b2_seconds as u128);
    Stats {
        b1_plus_hundredths: b1h,
        b2_hundredths: b2h,
        total_hundredths: total,
        b1_plus_goal_hundredths: B1_PLUS_GOAL_HUNDREDTHS,
        b2_goal_hundredths: B2_GOAL_HUNDREDTHS,
    }
}

} // verus!
