//! Client-side bookkeeping of the server's snapshot stream: tick ordering,
//! clock-offset estimation, input stamping and acknowledgement backlog.

use vstd::prelude::*;

verus! {

/// How far ahead of the estimated server time an input is stamped, in ms.
pub const INPUT_LEAD_MS: u64 = 30;

/// Weight of a new sample in the clock-offset average is one in this many.
pub const OFFSET_SMOOTHING: i128 = 10;

/// Largest offset magnitude a pair of millisecond clocks can produce, in us.
pub const MAX_OFFSET_US: i128 = 18_446_744_073_709_551_615_000;

/// Division that rounds toward zero, as machine integer division does.
pub open spec fn div_toward_zero(a: int, b: int) -> int {
    if a >= 0 {
        a / b
    } else {
        -((-a) / b)
    }
}

/// Whether a snapshot stamped `tick` is newer than what was applied last;
/// before any snapshot, tick zero counts as applied.
pub open spec fn admits(latest: Option<u64>, tick: u64) -> bool {
    tick > match latest {
        Some(t) => t,
        None => 0u64,
    }
}

/// Last applied tick after a snapshot stamped `tick` is offered.
pub open spec fn after_offer(latest: Option<u64>, tick: u64) -> Option<u64> {
    if admits(latest, tick) {
        Some(tick)
    } else {
        latest
    }
}

/// Ticks applied, in order, when `ticks` are offered one after another.
pub open spec fn applied_ticks(latest: Option<u64>, ticks: Seq<u64>) -> Seq<u64>
    decreases ticks.len(),
{
    if ticks.len() == 0 {
        Seq::empty()
    } else {
        let rest = applied_ticks(after_offer(latest, ticks[0]), ticks.drop_first());
        if admits(latest, ticks[0]) {
            seq![ticks[0]].add(rest)
        } else {
            rest
        }
    }
}

/// Every tick applied from a stream of snapshots is newer than the one
/// applied before it: duplicates and stale arrivals are never applied.
pub proof fn lemma_applied_ticks_increase(latest: Option<u64>, ticks: Seq<u64>)
    ensures
        forall|i: int, j: int|
            0 <= i < j < applied_ticks(latest, ticks).len() ==> applied_ticks(latest, ticks)[i]
                < applied_ticks(latest, ticks)[j],
        forall|i: int|
            0 <= i < applied_ticks(latest, ticks).len() ==> admits(
                latest,
                #[trigger] applied_ticks(latest, ticks)[i],
            ),
    decreases ticks.len(),
{
    if ticks.len() > 0 {
        let next = after_offer(latest, ticks[0]);
        lemma_applied_ticks_increase(next, ticks.drop_first());
        let rest = applied_ticks(next, ticks.drop_first());
        let all = applied_ticks(latest, ticks);
        if admits(latest, ticks[0]) {
            assert forall|i: int| 0 <= i < all.len() implies admits(latest, #[trigger] all[i]) by {
                if i > 0 {
                    assert(all[i] == rest[i - 1]);
                    assert(admits(next, rest[i - 1]));
                }
            }
            assert forall|i: int, j: int| 0 <= i < j < all.len() implies all[i] < all[j] by {
                assert(all[j] == rest[j - 1]);
                assert(admits(next, rest[j - 1]));
                if i > 0 {
                    assert(all[i] == rest[i - 1]);
                }
            }
        } else {
            assert(all == rest);
            assert forall|i: int| 0 <= i < all.len() implies admits(latest, #[trigger] all[i]) by {
                assert(admits(next, rest[i]));
            }
        }
    }
}

/// Drops snapshots that are not newer than the last one applied.
#[derive(Debug, Clone, Copy, PartialEq, Eq, Structural)]
pub struct SnapshotGate {
    pub latest: Option<u64>,
}

impl SnapshotGate {
    /// A gate that has applied nothing yet.
    pub fn new() -> (r: SnapshotGate)
        ensures
            r.latest is None,
    {
        SnapshotGate { latest: None }
    }

    /// Offers a snapshot stamped `tick`; returns whether it is to be applied.
    pub fn offer(&mut self, tick: u64) -> (accepted: bool)
        ensures
            accepted == admits(old(self).latest, tick),
            final(self).latest == after_offer(old(self).latest, tick),
    {
        let floor: u64 = match self.latest {
            Some(t) => t,
            None => 0,
        };
        if tick > floor {
            self.latest = Some(tick);
            true
        } else {
            false
        }
    }
}

/// One smoothing step of the offset average toward `sample`.
pub open spec fn offset_after(offset_us: int, sample_us: int) -> int {
    offset_us + div_toward_zero(sample_us - offset_us, OFFSET_SMOOTHING as int)
}

/// Server time an input created at local time `local_ms` is stamped with:
/// the estimated server time, never below zero, plus the fixed lead.
pub open spec fn stamp_for(offset_us: int, local_ms: u64) -> int {
    let est = local_ms + div_toward_zero(offset_us, 1000);
    let server_now = if est < 0 {
        0
    } else if est > u64::MAX {
        u64::MAX as int
    } else {
        est
    };
    if server_now + INPUT_LEAD_MS > u64::MAX {
        u64::MAX as int
    } else {
        server_now + INPUT_LEAD_MS
    }
}

fn div_toward_zero_exec(a: i128, b: i128) -> (r: i128)
    requires
        b > 0,
        a > i128::MIN,
    ensures
        r == div_toward_zero(a as int, b as int),
{
    if a >= 0 {
        a / b
    } else {
        let m: i128 = -a;
        -(m / b)
    }
}

/// Running estimate of the server clock minus the local clock.
#[derive(Debug, Clone, Copy, PartialEq, Eq, Structural)]
pub struct TimeSync {
    /// Estimated offset in microseconds.
    pub offset_us: i128,
    /// Server time of the last snapshot folded in, in ms.
    pub last_server_ms: u64,
}

impl TimeSync {
    pub open spec fn wf(self) -> bool {
        -MAX_OFFSET_US <= self.offset_us <= MAX_OFFSET_US
    }

    /// No offset known yet.
    pub fn new() -> (r: TimeSync)
        ensures
            r.wf(),
            r.offset_us == 0,
            r.last_server_ms == 0,
    {
        TimeSync { offset_us: 0, last_server_ms: 0 }
    }

    /// Folds in a snapshot stamped `server_ms` that arrived at local time
    /// `local_ms`.
    pub fn observe(&mut self, server_ms: u64, local_ms: u64)
        requires
            old(self).wf(),
        ensures
            final(self).wf(),
            final(self).offset_us == offset_after(
                old(self).offset_us as int,
                (server_ms - local_ms) * 1000,
            ),
            final(self).last_server_ms == server_ms,
    {
        let sample: i128 = (server_ms as i128 - local_ms as i128) * 1000;
        let diff: i128 = sample - self.offset_us;
        let step = div_toward_zero_exec(diff, OFFSET_SMOOTHING);
        proof {
            let d = diff as int;
            if d >= 0 {
                assert(d / 10 <= d) by (nonlinear_arith)
                    requires d >= 0;
                assert(d / 10 >= 0) by (nonlinear_arith)
                    requires d >= 0;
            } else {
                assert((-d) / 10 <= -d) by (nonlinear_arith)
                    requires -d >= 0;
                assert((-d) / 10 >= 0) by (nonlinear_arith)
                    requires -d >= 0;
            }
        }
        self.offset_us = self.offset_us + step;
        self.last_server_ms = server_ms;
    }

    /// Server time to stamp on an input created at local time `local_ms`.
    pub fn stamp(&self, local_ms: u64) -> (t_ms: u64)
        requires
            self.wf(),
        ensures
            t_ms == stamp_for(self.offset_us as int, local_ms),
    {
        let shift = div_toward_zero_exec(self.offset_us, 1000);
        let est: i128 = local_ms as i128 + shift;
        let server_now: u64 = if est < 0 {
            0
        } else if est > u64::MAX as i128 {
            u64::MAX
        } else {
            est as u64
        };
        server_now.saturating_add(INPUT_LEAD_MS)
    }
}

/// Inputs sent but not yet acknowledged; zero until a first acknowledgement.
pub open spec fn backlog_of(sent_tick: u64, acked: Option<u64>) -> nat {
    match acked {
        Some(a) => if sent_tick > a { (sent_tick - a) as nat } else { 0 },
        None => 0,
    }
}

/// Number of locally sent input ticks the server has not acknowledged.
pub fn input_backlog(sent_tick: u64, acked: Option<u64>) -> (r: u64)
    ensures
        r == backlog_of(sent_tick, acked),
{
    match acked {
        Some(a) => sent_tick.saturating_sub(a),
        None => 0,
    }
}

/// Whether a client that is still not connected after `elapsed_ms` has run
/// past its connection window of `timeout_secs`.
pub fn connect_timed_out(connected: bool, elapsed_ms: u64, timeout_secs: u64) -> (r: bool)
    ensures
        r == (!connected && elapsed_ms >= timeout_secs * 1000),
{
    if connected {
        false
    } else if timeout_secs > u64::MAX / 1000 {
        proof {
            assert(timeout_secs * 1000 > u64::MAX) by (nonlinear_arith)
                requires timeout_secs > u64::MAX / 1000;
        }
        false
    } else {
        elapsed_ms >= timeout_secs * 1000
    }
}

} // verus!
