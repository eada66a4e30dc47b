//! The audio backpressure controller: a two-state hysteresis that keeps the
//! downstream audio queue's occupancy near a fixed floor.
//!
//! Evaluated once per completed video frame. The one bit of state is whether
//! the machine currently synthesizes samples; crossing the floor from below
//! starts production, crossing it from above stops it, and sitting exactly on
//! the floor changes nothing. Samples already generated for the elapsed step
//! are flushed unconditionally by the caller; the flag only governs synthesis
//! on later steps.

use vstd::prelude::*;

verus! {

/// Target occupancy floor in sample-frames: four tenths of a second of audio
/// at 44,100 Hz.
pub const AUDIO_QUEUE_FLOOR: u32 = 4 * 4410;

/// The producing flag after one hysteresis evaluation at the given occupancy.
pub open spec fn producing_after_spec(producing: bool, occupancy: u32) -> bool {
    if !producing && occupancy < AUDIO_QUEUE_FLOOR {
        true
    } else if producing && occupancy > AUDIO_QUEUE_FLOOR {
        false
    } else {
        producing
    }
}

/// One hysteresis evaluation: whether the machine should synthesize samples
/// after observing the queue occupancy once.
pub fn producing_after(producing: bool, occupancy: u32) -> (now_producing: bool)
    ensures
        now_producing == producing_after_spec(producing, occupancy),
        !producing && occupancy < AUDIO_QUEUE_FLOOR ==> now_producing,
        producing && occupancy > AUDIO_QUEUE_FLOOR ==> !now_producing,
        occupancy == AUDIO_QUEUE_FLOOR ==> now_producing == producing,
{
    if !producing && occupancy < AUDIO_QUEUE_FLOOR {
        true
    } else if producing && occupancy > AUDIO_QUEUE_FLOOR {
        false
    } else {
        producing
    }
}

/// The producing flag after evaluating the controller on every occupancy
/// sample of `trace` in order, starting from `start`.
pub open spec fn flag_after(start: bool, trace: Seq<u32>) -> bool
    decreases trace.len(),
{
    if trace.len() == 0 {
        start
    } else {
        producing_after_spec(flag_after(start, trace.drop_last()), trace.last())
    }
}

/// How many of the evaluations along `trace` changed the producing flag.
pub open spec fn toggle_count(start: bool, trace: Seq<u32>) -> nat
    decreases trace.len(),
{
    if trace.len() == 0 {
        0
    } else {
        toggle_count(start, trace.drop_last()) + if flag_after(start, trace)
            != flag_after(start, trace.drop_last()) {
            1nat
        } else {
            0nat
        }
    }
}

/// The flag and toggle shape along every prefix of a trace that sits below
/// the floor, then above it, then below it again, starting while producing:
/// production runs through the first low phase, stops at the first high
/// sample, and restarts at the first sample of the second low phase.
proof fn lemma_hysteresis_prefix(trace: Seq<u32>, i: int, j: int, n: int)
    requires
        1 <= i < j < trace.len(),
        forall|k: int| 0 <= k < i ==> trace[k] < AUDIO_QUEUE_FLOOR,
        forall|k: int| i <= k < j ==> trace[k] > AUDIO_QUEUE_FLOOR,
        forall|k: int| j <= k < trace.len() ==> trace[k] < AUDIO_QUEUE_FLOOR,
        0 <= n <= trace.len(),
    ensures
        flag_after(true, trace.take(n)) == (n <= i || n > j),
        toggle_count(true, trace.take(n)) == if n <= i {
            0int
        } else if n <= j {
            1int
        } else {
            2int
        },
    decreases n,
{
    if n == 0 {
        assert(trace.take(0).len() == 0);
    } else {
        lemma_hysteresis_prefix(trace, i, j, n - 1);
        assert(trace.take(n).drop_last() =~= trace.take(n - 1));
        assert(trace.take(n).last() == trace[n - 1]);
    }
}

/// Hysteresis never oscillates inside a single crossing: on a trace whose
/// occupancy crosses the floor exactly once upward (at `i`) and then exactly
/// once downward (at `j`), starting while producing, the producing flag
/// toggles exactly twice — off at the upward crossing, on again at the
/// downward one — and holds steady everywhere else.
pub proof fn lemma_hysteresis_single_crossing(trace: Seq<u32>, i: int, j: int)
    requires
        1 <= i < j < trace.len(),
        forall|k: int| 0 <= k < i ==> trace[k] < AUDIO_QUEUE_FLOOR,
        forall|k: int| i <= k < j ==> trace[k] > AUDIO_QUEUE_FLOOR,
        forall|k: int| j <= k < trace.len() ==> trace[k] < AUDIO_QUEUE_FLOOR,
    ensures
        toggle_count(true, trace) == 2,
        forall|n: int|
            0 <= n <= trace.len() ==> flag_after(true, #[trigger] trace.take(n)) == (n <= i || n
                > j),
{
    assert forall|n: int| 0 <= n <= trace.len() implies flag_after(true, #[trigger] trace.take(n))
        == (n <= i || n > j) by {
        lemma_hysteresis_prefix(trace, i, j, n);
    }
    lemma_hysteresis_prefix(trace, i, j, trace.len() as int);
    assert(trace.take(trace.len() as int) =~= trace);
}

} // verus!
