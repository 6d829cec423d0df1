//! The client's reconciliation state machine: how a locally predicted
//! submarine reacts to the divergence between its own state and the server's.
//!
//! Errors are measured in micro-units: micrometres for position, microradians
//! for orientation and micrometres per second for velocity. Time is counted in
//! microseconds. The target carried by a correction is opaque to these rules.

use vstd::prelude::*;

verus! {

/// Position divergence beyond which the prediction is overwritten (10 m).
pub const SNAP_POS_UM: u64 = 10_000_000;

/// Orientation divergence beyond which the prediction is overwritten (1 rad).
pub const SNAP_ANG_URAD: u64 = 1_000_000;

/// Blend length given to a fresh correction (0.25 s).
pub const CORRECTION_DURATION_US: u64 = 250_000;

/// Elapsed blend time a retargeted correction is wound back to (0.2 s).
pub const RETARGET_ELAPSED_CAP_US: u64 = 200_000;

/// Filter time constant while the player steers (35 ms).
pub const FILTER_TAU_STEERING_US: u64 = 35_000;

/// Filter time constant otherwise (100 ms).
pub const FILTER_TAU_IDLE_US: u64 = 100_000;

/// Divergence along the three measured quantities.
#[derive(Debug, Clone, Copy, PartialEq, Eq, Structural)]
pub struct Divergence {
    pub pos_um: u64,
    pub ang_urad: u64,
    pub vel_umps: u64,
}

/// A bound on each of the three quantities.
#[derive(Debug, Clone, Copy, PartialEq, Eq, Structural)]
pub struct Band {
    pub pos_um: u64,
    pub ang_urad: u64,
    pub vel_umps: u64,
}

/// Errors below this band are not worth a correction.
pub open spec fn tiny_band(steering: bool) -> Band {
    if steering {
        Band { pos_um: 80_000, ang_urad: 50_000, vel_umps: 80_000 }
    } else {
        Band { pos_um: 40_000, ang_urad: 30_000, vel_umps: 40_000 }
    }
}

/// Errors beyond this band start a correction.
pub open spec fn enter_band(steering: bool) -> Band {
    if steering {
        Band { pos_um: 200_000, ang_urad: 100_000, vel_umps: 200_000 }
    } else {
        Band { pos_um: 80_000, ang_urad: 50_000, vel_umps: 80_000 }
    }
}

/// A running correction ends once all errors are below this band.
pub open spec fn done_band() -> Band {
    Band { pos_um: 10_000, ang_urad: 10_000, vel_umps: 20_000 }
}

/// Every quantity strictly below its bound.
pub open spec fn below(e: Divergence, b: Band) -> bool {
    e.pos_um < b.pos_um && e.ang_urad < b.ang_urad && e.vel_umps < b.vel_umps
}

/// Some quantity strictly beyond its bound.
pub open spec fn beyond(e: Divergence, b: Band) -> bool {
    e.pos_um > b.pos_um || e.ang_urad > b.ang_urad || e.vel_umps > b.vel_umps
}

/// The raw divergence calls for an immediate overwrite.
pub open spec fn must_snap(raw: Divergence) -> bool {
    raw.pos_um > SNAP_POS_UM || raw.ang_urad > SNAP_ANG_URAD
}

/// Time constant of the filter applied to server snapshots.
pub fn filter_tau_us(steering: bool) -> (r: u64)
    ensures
        r == if steering { FILTER_TAU_STEERING_US } else { FILTER_TAU_IDLE_US },
{
    if steering {
        FILTER_TAU_STEERING_US
    } else {
        FILTER_TAU_IDLE_US
    }
}

fn tiny_band_exec(steering: bool) -> (r: Band)
    ensures
        r == tiny_band(steering),
{
    if steering {
        Band { pos_um: 80_000, ang_urad: 50_000, vel_umps: 80_000 }
    } else {
        Band { pos_um: 40_000, ang_urad: 30_000, vel_umps: 40_000 }
    }
}

fn enter_band_exec(steering: bool) -> (r: Band)
    ensures
        r == enter_band(steering),
{
    if steering {
        Band { pos_um: 200_000, ang_urad: 100_000, vel_umps: 200_000 }
    } else {
        Band { pos_um: 80_000, ang_urad: 50_000, vel_umps: 80_000 }
    }
}

fn below_exec(e: Divergence, b: Band) -> (r: bool)
    ensures
        r == below(e, b),
{
    e.pos_um < b.pos_um && e.ang_urad < b.ang_urad && e.vel_umps < b.vel_umps
}

fn beyond_exec(e: Divergence, b: Band) -> (r: bool)
    ensures
        r == beyond(e, b),
{
    e.pos_um > b.pos_um || e.ang_urad > b.ang_urad || e.vel_umps > b.vel_umps
}

/// An active blend toward a server-derived target.
#[derive(Debug, Clone, Copy, PartialEq, Eq)]
pub struct Correction<P> {
    pub target: P,
    pub elapsed_us: u64,
    pub duration_us: u64,
}

/// Reconciliation state of the locally controlled entity. A snap is an
/// instantaneous overwrite after which prediction resumes, so it never
/// persists between frames: it is reported by [`Step::Snap`].
#[derive(Debug, Clone, Copy, PartialEq, Eq)]
pub enum Phase<P> {
    Predicting,
    Correcting(Correction<P>),
}

/// What the caller must do to the predicted state after a snapshot.
#[derive(Debug, Clone, Copy, PartialEq, Eq, Structural)]
pub enum Step {
    /// Overwrite position, rotation and velocity with the target exactly,
    /// and record the raw position error as the last snap magnitude.
    Snap,
    /// Divergence is imperceptible: set the velocity to the target's.
    Settle,
    /// Divergence is beyond the enter band: the running correction now
    /// blends toward the new target.
    Retarget,
    /// A fresh correction toward the target has begun.
    Begin,
    /// Divergence lies between the tiny and enter bands: leave the
    /// prediction and any running correction as they are.
    Hold,
}

/// The step taken for a snapshot, as a function of the state and the errors.
pub open spec fn step_for<P>(phase: Phase<P>, raw: Divergence, filtered: Divergence, steering: bool) -> Step {
    if must_snap(raw) {
        Step::Snap
    } else if below(filtered, tiny_band(steering)) {
        Step::Settle
    } else if beyond(filtered, enter_band(steering)) {
        if phase is Correcting {
            Step::Retarget
        } else {
            Step::Begin
        }
    } else {
        Step::Hold
    }
}

/// The state after a snapshot with target `target`.
pub open spec fn phase_after<P>(
    phase: Phase<P>,
    target: P,
    raw: Divergence,
    filtered: Divergence,
    steering: bool,
) -> Phase<P> {
    match step_for(phase, raw, filtered, steering) {
        Step::Snap | Step::Settle => Phase::Predicting,
        Step::Retarget => match phase {
            Phase::Correcting(c) => Phase::Correcting(Correction {
                target,
                elapsed_us: if c.elapsed_us > RETARGET_ELAPSED_CAP_US {
                    RETARGET_ELAPSED_CAP_US
                } else {
                    c.elapsed_us
                },
                duration_us: c.duration_us,
            }),
            Phase::Predicting => Phase::Predicting,
        },
        Step::Begin => Phase::Correcting(
            Correction { target, elapsed_us: 0, duration_us: CORRECTION_DURATION_US },
        ),
        Step::Hold => phase,
    }
}

/// Reacts to a snapshot: `raw` is the divergence from the snapshot as
/// received, `filtered` the divergence from the filtered server state, and
/// `target` the filtered state that a correction blends toward.
pub fn on_snapshot<P>(
    phase: &mut Phase<P>,
    target: P,
    raw: Divergence,
    filtered: Divergence,
    steering: bool,
) -> (step: Step)
    ensures
        step == step_for(*old(phase), raw, filtered, steering),
        *final(phase) == phase_after(*old(phase), target, raw, filtered, steering),
{
    let snap = raw.pos_um > SNAP_POS_UM || raw.ang_urad > SNAP_ANG_URAD;
    if snap {
        *phase = Phase::Predicting;
        return Step::Snap;
    }
    if below_exec(filtered, tiny_band_exec(steering)) {
        *phase = Phase::Predicting;
        return Step::Settle;
    }
    if !beyond_exec(filtered, enter_band_exec(steering)) {
        return Step::Hold;
    }
    match phase {
        Phase::Correcting(c) => {
            c.target = target;
            if c.elapsed_us > RETARGET_ELAPSED_CAP_US {
                c.elapsed_us = RETARGET_ELAPSED_CAP_US;
            }
            Step::Retarget
        },
        Phase::Predicting => {
            *phase = Phase::Correcting(
                Correction { target, elapsed_us: 0, duration_us: CORRECTION_DURATION_US },
            );
            Step::Begin
        },
    }
}

/// Accounts one frame of `frame_us` to a running correction, after the
/// caller has blended toward its target and measured what remains. The
/// correction ends, without a final snap, once the remaining errors are
/// all within the completion band. Returns whether it ended.
pub fn on_frame<P>(phase: &mut Phase<P>, frame_us: u64, remaining: Divergence) -> (ended: bool)
    ensures
        ended == (*old(phase) is Correcting && frame_us > 0 && below(remaining, done_band())),
        ended ==> *final(phase) == Phase::<P>::Predicting,
        !ended ==> match *old(phase) {
            Phase::Correcting(c) if frame_us > 0 => *final(phase) == Phase::Correcting(
                Correction {
                    target: c.target,
                    elapsed_us: if c.elapsed_us + frame_us > u64::MAX {
                        u64::MAX
                    } else {
                        (c.elapsed_us + frame_us) as u64
                    },
                    duration_us: c.duration_us,
                },
            ),
            _ => *final(phase) == *old(phase),
        },
{
    if frame_us == 0 {
        return false;
    }
    let done = remaining.pos_um < 10_000 && remaining.ang_urad < 10_000 && remaining.vel_umps
        < 20_000;
    match phase {
        Phase::Correcting(c) => {
            c.elapsed_us = c.elapsed_us.saturating_add(frame_us);
            if done {
                *phase = Phase::Predicting;
                true
            } else {
                false
            }
        },
        Phase::Predicting => false,
    }
}

/// A divergence beyond the snap limits always overwrites the prediction and
/// leaves no correction running.
pub proof fn lemma_large_error_snaps<P>(
    phase: Phase<P>,
    target: P,
    raw: Divergence,
    filtered: Divergence,
    steering: bool,
)
    requires
        must_snap(raw),
    ensures
        step_for(phase, raw, filtered, steering) == Step::Snap,
        phase_after(phase, target, raw, filtered, steering) == Phase::<P>::Predicting,
{
}

/// A divergence below the tiny band never starts or keeps a correction.
pub proof fn lemma_tiny_error_never_corrects<P>(
    phase: Phase<P>,
    target: P,
    raw: Divergence,
    filtered: Divergence,
    steering: bool,
)
    requires
        below(filtered, tiny_band(steering)),
    ensures
        step_for(phase, raw, filtered, steering) != Step::Begin,
        phase_after(phase, target, raw, filtered, steering) == Phase::<P>::Predicting,
{
}

/// A divergence between the tiny and enter bands changes nothing: no
/// correction is started, and a running one keeps its target and timing.
pub proof fn lemma_dead_band_holds<P>(
    phase: Phase<P>,
    target: P,
    raw: Divergence,
    filtered: Divergence,
    steering: bool,
)
    requires
        !must_snap(raw),
        !below(filtered, tiny_band(steering)),
        !beyond(filtered, enter_band(steering)),
    ensures
        step_for(phase, raw, filtered, steering) == Step::Hold,
        phase_after(phase, target, raw, filtered, steering) == phase,
{
}

/// A snapshot beyond the enter band arriving mid-blend updates the running
/// correction in place:
/// the new target replaces the old one, the blend length is kept and the
/// elapsed time is never pushed forward, so the blend is not restarted.
pub proof fn lemma_live_correction_retargets<P>(
    c: Correction<P>,
    target: P,
    raw: Divergence,
    filtered: Divergence,
    steering: bool,
)
    requires
        !must_snap(raw),
        !below(filtered, tiny_band(steering)),
        beyond(filtered, enter_band(steering)),
    ensures
        step_for(Phase::Correcting(c), raw, filtered, steering) == Step::Retarget,
        phase_after(Phase::Correcting(c), target, raw, filtered, steering) matches Phase::Correcting(n)
            && n.target == target && n.duration_us == c.duration_us
            && n.elapsed_us <= c.elapsed_us && n.elapsed_us <= RETARGET_ELAPSED_CAP_US,
{
}

} // verus!
