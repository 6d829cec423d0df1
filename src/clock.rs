//! Fixed-step accumulator that turns wall-clock frame durations into whole
//! simulation ticks. Time is counted in integer microseconds.

use vstd::prelude::*;
use vstd::arithmetic::div_mod::lemma_div_is_ordered_by_denominator;

verus! {

/// Microseconds in one second.
pub const MICROS_PER_SEC: u64 = 1_000_000;

/// Shortest tick the stepper accepts, in microseconds.
pub const MIN_STEP_US: u64 = 100;

/// Server physics rate when nothing else is configured.
pub const DEFAULT_TICK_HZ: u32 = 30;

/// Snapshot broadcast rate when nothing else is configured.
pub const DEFAULT_SNAPSHOT_HZ: u32 = 20;

/// Length of one tick at `hz` ticks per second, floored at the minimum step;
/// a rate of zero counts as one tick per second.
pub open spec fn step_len_us(hz: u32) -> u64 {
    let q = MICROS_PER_SEC / if hz == 0 { 1 } else { hz as u64 };
    if q < MIN_STEP_US { MIN_STEP_US } else { q }
}

/// Time not yet consumed by whole ticks, and the tick length.
#[derive(Debug, Clone, Copy, PartialEq, Eq, Structural)]
pub struct FixedStep {
    pub acc_us: u64,
    pub dt_us: u64,
}

impl FixedStep {
    /// The tick length is at least the minimum step.
    pub open spec fn wf(self) -> bool {
        self.dt_us >= MIN_STEP_US
    }

    /// An empty accumulator ticking at `hz` per second.
    pub fn from_tick_hz(hz: u32) -> (r: FixedStep)
        ensures
            r.wf(),
            r.acc_us == 0,
            r.dt_us == step_len_us(hz),
    {
        let div: u64 = if hz == 0 { 1 } else { hz as u64 };
        let q = MICROS_PER_SEC / div;
        let dt = if q < MIN_STEP_US { MIN_STEP_US } else { q };
        FixedStep { acc_us: 0, dt_us: dt }
    }

    /// Changes the tick rate to `hz`; time already accumulated is kept.
    pub fn set_rate(&mut self, hz: u32)
        ensures
            final(self).wf(),
            final(self).acc_us == old(self).acc_us,
            final(self).dt_us == step_len_us(hz),
    {
        let fresh = FixedStep::from_tick_hz(hz);
        self.dt_us = fresh.dt_us;
    }

    /// Adds one frame's duration and consumes every whole tick it completes,
    /// returning how many. While paused the leftover is dropped instead, so
    /// that resuming does not burst through a backlog of ticks. A frame of zero
    /// length changes nothing.
    pub fn advance(&mut self, frame_us: u64, paused: bool) -> (steps: u64)
        requires
            old(self).wf(),
        ensures
            final(self).wf(),
            final(self).dt_us == old(self).dt_us,
            frame_us > 0 && !paused ==> final(self).acc_us < final(self).dt_us,
            frame_us == 0 ==> steps == 0 && *final(self) == *old(self),
            frame_us > 0 && paused ==> steps == 0 && final(self).acc_us == 0,
            frame_us > 0 && !paused ==> {
                &&& steps == (old(self).acc_us + frame_us) / (old(self).dt_us as int)
                &&& final(self).acc_us == (old(self).acc_us + frame_us) % (old(self).dt_us as int)
            },
    {
        if frame_us == 0 {
            return 0;
        }
        if paused {
            self.acc_us = 0;
            return 0;
        }
        let total: u128 = self.acc_us as u128 + frame_us as u128;
        let dt: u128 = self.dt_us as u128;
        let q: u128 = total / dt;
        let rem: u128 = total % dt;
        proof {
            lemma_div_is_ordered_by_denominator(total as int, 2, dt as int);
            assert(total / 2 <= u64::MAX) by (nonlinear_arith)
                requires total <= 2 * (u64::MAX as int);
        }
        self.acc_us = rem as u64;
        q as u64
    }
}

} // verus!
