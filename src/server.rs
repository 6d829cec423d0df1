//! The server's authoritative loop: pause handling, the fixed-step tick
//! clock, the snapshot timer and each player's scheduled control input.

use vstd::prelude::*;
use crate::clock::{FixedStep, step_len_us, DEFAULT_TICK_HZ, DEFAULT_SNAPSHOT_HZ};
use crate::protocol::{PauseRequest, PauseState};
use crate::schedule::{InputSchedule, due_len};

verus! {

/// Work owed for one frame of wall-clock time.
#[derive(Debug, Clone, Copy, PartialEq, Eq, Structural)]
pub struct FrameWork {
    /// Physics ticks to run, one after another.
    pub ticks: u64,
    /// Whether a snapshot is due for broadcast.
    pub snapshot: bool,
}

/// Clocks and flags of the authoritative simulation.
#[derive(Debug, Clone, Copy, PartialEq, Eq, Structural)]
pub struct ServerLoop {
    pub step: FixedStep,
    pub snapshot_timer: FixedStep,
    pub paused: bool,
    /// Ticks run so far.
    pub tick: u64,
    /// Simulated time in microseconds: the tick length summed over all ticks.
    pub sim_us: u64,
}

impl ServerLoop {
    pub open spec fn wf(self) -> bool {
        self.step.wf() && self.snapshot_timer.wf()
    }

    /// Server time in milliseconds, as stamped on snapshots and compared
    /// against input time stamps.
    pub open spec fn spec_server_ms(self) -> u64 {
        (self.sim_us / 1000) as u64
    }

    /// A loop ticking at `tick_hz` and broadcasting at `snapshot_hz`.
    pub fn new(tick_hz: u32, snapshot_hz: u32) -> (r: ServerLoop)
        ensures
            r.wf(),
            !r.paused,
            r.tick == 0,
            r.sim_us == 0,
            r.step.acc_us == 0 && r.step.dt_us == step_len_us(tick_hz),
            r.snapshot_timer.acc_us == 0 && r.snapshot_timer.dt_us == step_len_us(snapshot_hz),
    {
        ServerLoop {
            step: FixedStep::from_tick_hz(tick_hz),
            snapshot_timer: FixedStep::from_tick_hz(snapshot_hz),
            paused: false,
            tick: 0,
            sim_us: 0,
        }
    }

    /// A loop at the default tick and snapshot rates.
    pub fn with_defaults() -> (r: ServerLoop)
        ensures
            r.wf(),
            !r.paused,
            r.tick == 0,
            r.sim_us == 0,
            r.step.dt_us == step_len_us(DEFAULT_TICK_HZ),
            r.snapshot_timer.dt_us == step_len_us(DEFAULT_SNAPSHOT_HZ),
    {
        ServerLoop::new(DEFAULT_TICK_HZ, DEFAULT_SNAPSHOT_HZ)
    }

    /// Server time in milliseconds.
    pub fn server_ms(&self) -> (r: u64)
        ensures
            r == self.spec_server_ms(),
    {
        self.sim_us / 1000
    }

    /// Applies a pause request and returns the state to broadcast.
    pub fn on_pause_request(&mut self, req: PauseRequest) -> (r: PauseState)
        ensures
            *final(self) == (ServerLoop { paused: req.paused, ..*old(self) }),
            r.paused == req.paused,
    {
        self.paused = req.paused;
        PauseState { paused: req.paused }
    }

    /// Accounts one frame of `frame_us`: the ticks it completes (none while
    /// paused, when leftover time is discarded) and whether the snapshot
    /// timer fired. Snapshots keep their own rate, paused or not.
    pub fn on_frame(&mut self, frame_us: u64) -> (r: FrameWork)
        requires
            old(self).wf(),
        ensures
            final(self).wf(),
            final(self).paused == old(self).paused,
            final(self).tick == old(self).tick,
            final(self).sim_us == old(self).sim_us,
            final(self).step.dt_us == old(self).step.dt_us,
            final(self).snapshot_timer.dt_us == old(self).snapshot_timer.dt_us,
            old(self).paused ==> r.ticks == 0,
            frame_us > 0 && old(self).paused ==> final(self).step.acc_us == 0,
            frame_us > 0 && !old(self).paused ==> r.ticks == (old(self).step.acc_us + frame_us)
                / (old(self).step.dt_us as int),
            frame_us > 0 && !old(self).paused ==> final(self).step.acc_us == (old(self).step.acc_us
                + frame_us) % (old(self).step.dt_us as int),
            frame_us == 0 ==> r.ticks == 0 && final(self).step == old(self).step && final(self).snapshot_timer
                == old(self).snapshot_timer,
            frame_us > 0 ==> final(self).snapshot_timer.acc_us == (old(self).snapshot_timer.acc_us
                + frame_us) % (old(self).snapshot_timer.dt_us as int),
            r.snapshot == (frame_us > 0 && old(self).snapshot_timer.acc_us + frame_us
                >= old(self).snapshot_timer.dt_us),
    {
        let ticks = self.step.advance(frame_us, self.paused);
        let fired = self.snapshot_timer.advance(frame_us, false);
        proof {
            let a = old(self).snapshot_timer.acc_us as int;
            let d = old(self).snapshot_timer.dt_us as int;
            let f = frame_us as int;
            if f > 0 {
                if a + f >= d {
                    assert((a + f) / d >= 1) by (nonlinear_arith)
                        requires a + f >= d, d > 0;
                } else {
                    assert((a + f) / d == 0) by (nonlinear_arith)
                        requires 0 <= a + f < d, d > 0;
                }
            }
        }
        FrameWork { ticks, snapshot: fired > 0 }
    }

    /// Starts one physics tick and returns the server time, in ms, at which
    /// it stands: inputs stamped at or before it are due.
    pub fn begin_tick(&mut self) -> (now_ms: u64)
        requires
            old(self).wf(),
        ensures
            final(self).wf(),
            final(self).tick == if old(self).tick == u64::MAX { u64::MAX } else {
                (old(self).tick + 1) as u64
            },
            final(self).sim_us == if old(self).sim_us + old(self).step.dt_us > u64::MAX {
                u64::MAX
            } else {
                (old(self).sim_us + old(self).step.dt_us) as u64
            },
            final(self).step == old(self).step,
            final(self).snapshot_timer == old(self).snapshot_timer,
            final(self).paused == old(self).paused,
            now_ms == final(self).spec_server_ms(),
    {
        self.tick = self.tick.saturating_add(1);
        self.sim_us = self.sim_us.saturating_add(self.step.dt_us);
        self.sim_us / 1000
    }
}

/// One player's control input: the input in force and those scheduled.
pub struct PlayerControl<I> {
    pub active: I,
    pub pending: InputSchedule<I>,
}

impl<I> PlayerControl<I> {
    pub open spec fn wf(&self) -> bool {
        self.pending.wf()
    }

    /// A player at rest under `idle`, with nothing scheduled.
    pub fn new(idle: I) -> (r: PlayerControl<I>)
        ensures
            r.wf(),
            r.active == idle,
            r.pending@.len() == 0,
    {
        PlayerControl { active: idle, pending: InputSchedule::new() }
    }

    /// Schedules a time-stamped input.
    pub fn on_event(&mut self, t_ms: u64, input: I)
        requires
            old(self).wf(),
        ensures
            final(self).wf(),
            final(self).active == old(self).active,
            final(self).pending@ == old(self).pending@.insert(
                due_len(old(self).pending@, t_ms) as int,
                (t_ms, input),
            ),
    {
        self.pending.push(t_ms, input);
    }

    /// An untimed input takes effect at once.
    pub fn on_untimed(&mut self, input: I)
        ensures
            final(self).active == input,
            final(self).pending@ == old(self).pending@,
            final(self).wf() == old(self).wf(),
    {
        self.active = input;
    }

    /// Pops every input due at server time `now_ms`, in order; the last one
    /// popped becomes the input in force.
    pub fn apply_due(&mut self, now_ms: u64)
        requires
            old(self).wf(),
        ensures
            final(self).wf(),
            final(self).pending@ == old(self).pending@.skip(
                due_len(old(self).pending@, now_ms) as int,
            ),
            due_len(old(self).pending@, now_ms) == 0 ==> final(self).active == old(self).active,
            due_len(old(self).pending@, now_ms) > 0 ==> final(self).active == old(
                self,
            ).pending@[due_len(old(self).pending@, now_ms) - 1].1,
            forall|i: int|
                0 <= i < final(self).pending@.len() ==> final(self).pending@[i].0 > now_ms,
    {
        match self.pending.take_due(now_ms) {
            Some(input) => {
                self.active = input;
            },
            None => {},
        }
    }
}

} // verus!
