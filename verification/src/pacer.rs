//! Frame pacing: how long the driver loop must sleep after a completed frame
//! so that frames leave at the target wall-clock rate.
//!
//! Drift is absorbed per frame, never accumulated: the caller resets its
//! reference timestamp after every completed frame, whether or not a sleep
//! occurred, so a slow frame is never "made up" by shortening the next one.

use vstd::prelude::*;

verus! {

/// The remainder of the target frame duration once `elapsed` microseconds have
/// passed: zero when the frame already took at least the target.
pub open spec fn sleep_micros_spec(elapsed: u64, target: u64) -> u64 {
    if elapsed < target {
        (target - elapsed) as u64
    } else {
        0
    }
}

/// How long to sleep after a completed frame, in microseconds.
pub fn sleep_micros(elapsed: u64, target: u64) -> (pause: u64)
    ensures
        pause == sleep_micros_spec(elapsed, target),
        elapsed < target ==> pause == target - elapsed,
        elapsed >= target ==> pause == 0,
{
    if elapsed < target {
        target - elapsed
    } else {
        0
    }
}

} // verus!
