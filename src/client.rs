//! The client's connection session: handshake, snapshot intake, pause and
//! acknowledgement state, and its local fixed-step clock.

use vstd::prelude::*;
use crate::clock::{FixedStep, step_len_us};
use crate::protocol::{ClientHello, InputAck, JoinAck, PauseState, PROTOCOL_VERSION};
use crate::sync::{SnapshotGate, TimeSync, admits, after_offer, backlog_of, input_backlog};

verus! {

/// Local prediction rate until the server announces its own.
pub const DEFAULT_CLIENT_STEP_HZ: u32 = 120;

/// Client-side state of one connection.
pub struct ClientSession {
    pub player_id: Option<uuid::Uuid>,
    pub hello_sent: bool,
    pub step: FixedStep,
    pub gate: SnapshotGate,
    pub time_sync: TimeSync,
    pub paused: bool,
    pub last_acked: Option<u64>,
    /// Counter of input ticks sent so far.
    pub sent_tick: u64,
}

impl ClientSession {
    pub open spec fn wf(&self) -> bool {
        self.step.wf() && self.time_sync.wf()
    }

    /// A session that has not yet heard from the server.
    pub fn new() -> (r: ClientSession)
        ensures
            r.wf(),
            r.player_id is None,
            !r.hello_sent,
            r.step.acc_us == 0,
            r.step.dt_us == step_len_us(DEFAULT_CLIENT_STEP_HZ),
            r.gate.latest is None,
            r.time_sync.offset_us == 0,
            !r.paused,
            r.last_acked is None,
            r.sent_tick == 0,
    {
        ClientSession {
            player_id: None,
            hello_sent: false,
            step: FixedStep::from_tick_hz(DEFAULT_CLIENT_STEP_HZ),
            gate: SnapshotGate::new(),
            time_sync: TimeSync::new(),
            paused: false,
            last_acked: None,
            sent_tick: 0,
        }
    }

    /// The hello to send: once, on the first call after the transport has
    /// connected.
    pub fn hello(&mut self, connected: bool, display_name: Option<String>) -> (r: Option<
        ClientHello,
    >)
        ensures
            r is Some <==> connected && !old(self).hello_sent,
            r matches Some(h) ==> h.protocol == PROTOCOL_VERSION && h.display_name == display_name,
            final(self).hello_sent == (old(self).hello_sent || connected),
            final(self).player_id == old(self).player_id,
            final(self).step == old(self).step,
            final(self).gate == old(self).gate,
            final(self).time_sync == old(self).time_sync,
            final(self).paused == old(self).paused,
            final(self).last_acked == old(self).last_acked,
            final(self).sent_tick == old(self).sent_tick,
    {
        if connected && !self.hello_sent {
            self.hello_sent = true;
            Some(ClientHello { protocol: PROTOCOL_VERSION, display_name })
        } else {
            None
        }
    }

    /// Takes the player id and adopts the server's tick rate for prediction.
    pub fn on_join_ack(&mut self, ack: &JoinAck)
        requires
            old(self).wf(),
        ensures
            final(self).wf(),
            final(self).player_id == Some(ack.player_id),
            final(self).step.dt_us == step_len_us(ack.tick_hz),
            final(self).step.acc_us == old(self).step.acc_us,
            final(self).hello_sent == old(self).hello_sent,
            final(self).gate == old(self).gate,
            final(self).time_sync == old(self).time_sync,
            final(self).paused == old(self).paused,
            final(self).last_acked == old(self).last_acked,
            final(self).sent_tick == old(self).sent_tick,
    {
        self.player_id = Some(ack.player_id);
        self.step.set_rate(ack.tick_hz);
    }

    /// Offers a snapshot stamped `tick` and `server_ms` that arrived at local
    /// time `local_ms`. Returns whether it is newer than any applied before;
    /// only then does it move the clock-offset estimate.
    pub fn on_snapshot(&mut self, tick: u64, server_ms: u64, local_ms: u64) -> (fresh: bool)
        requires
            old(self).wf(),
        ensures
            final(self).wf(),
            fresh == admits(old(self).gate.latest, tick),
            final(self).gate.latest == after_offer(old(self).gate.latest, tick),
            !fresh ==> final(self).time_sync == old(self).time_sync,
            fresh ==> final(self).time_sync.last_server_ms == server_ms,
            fresh ==> final(self).time_sync.offset_us == crate::sync::offset_after(
                old(self).time_sync.offset_us as int,
                (server_ms - local_ms) * 1000,
            ),
            final(self).player_id == old(self).player_id,
            final(self).hello_sent == old(self).hello_sent,
            final(self).step == old(self).step,
            final(self).paused == old(self).paused,
            final(self).last_acked == old(self).last_acked,
            final(self).sent_tick == old(self).sent_tick,
    {
        let fresh = self.gate.offer(tick);
        if fresh {
            self.time_sync.observe(server_ms, local_ms);
        }
        fresh
    }

    /// Adopts the server's pause flag.
    pub fn on_pause_state(&mut self, state: PauseState)
        ensures
            final(self).paused == state.paused,
            final(self).player_id == old(self).player_id,
            final(self).hello_sent == old(self).hello_sent,
            final(self).step == old(self).step,
            final(self).gate == old(self).gate,
            final(self).time_sync == old(self).time_sync,
            final(self).last_acked == old(self).last_acked,
            final(self).sent_tick == old(self).sent_tick,
    {
        self.paused = state.paused;
    }

    /// Records the server's latest input acknowledgement.
    pub fn on_input_ack(&mut self, ack: InputAck)
        ensures
            final(self).last_acked == Some(ack.tick),
            final(self).player_id == old(self).player_id,
            final(self).hello_sent == old(self).hello_sent,
            final(self).step == old(self).step,
            final(self).gate == old(self).gate,
            final(self).time_sync == old(self).time_sync,
            final(self).paused == old(self).paused,
            final(self).sent_tick == old(self).sent_tick,
    {
        self.last_acked = Some(ack.tick);
    }

    /// Counts one more input sent and returns its tick number.
    pub fn next_input_tick(&mut self) -> (tick: u64)
        ensures
            tick == final(self).sent_tick,
            tick == if old(self).sent_tick == u64::MAX { 0 } else {
                (old(self).sent_tick + 1) as u64
            },
            final(self).player_id == old(self).player_id,
            final(self).hello_sent == old(self).hello_sent,
            final(self).step == old(self).step,
            final(self).gate == old(self).gate,
            final(self).time_sync == old(self).time_sync,
            final(self).paused == old(self).paused,
            final(self).last_acked == old(self).last_acked,
    {
        self.sent_tick = self.sent_tick.wrapping_add(1);
        self.sent_tick
    }

    /// Inputs sent that the server has not acknowledged yet.
    pub fn backlog(&self) -> (r: u64)
        ensures
            r == backlog_of(self.sent_tick, self.last_acked),
    {
        input_backlog(self.sent_tick, self.last_acked)
    }

    /// Prediction ticks owed for a frame of `frame_us`; none while paused.
    pub fn on_frame(&mut self, frame_us: u64) -> (steps: u64)
        requires
            old(self).wf(),
        ensures
            final(self).wf(),
            old(self).paused ==> steps == 0,
            frame_us > 0 && !old(self).paused ==> steps == (old(self).step.acc_us + frame_us)
                / (old(self).step.dt_us as int),
            frame_us > 0 && !old(self).paused ==> final(self).step.acc_us == (old(self).step.acc_us
                + frame_us) % (old(self).step.dt_us as int),
            frame_us > 0 && old(self).paused ==> final(self).step.acc_us == 0,
            frame_us == 0 ==> steps == 0 && final(self).step == old(self).step,
            final(self).step.dt_us == old(self).step.dt_us,
            final(self).hello_sent == old(self).hello_sent,
            final(self).player_id == old(self).player_id,
            final(self).gate == old(self).gate,
            final(self).time_sync == old(self).time_sync,
            final(self).paused == old(self).paused,
            final(self).last_acked == old(self).last_acked,
            final(self).sent_tick == old(self).sent_tick,
    {
        self.step.advance(frame_us, self.paused)
    }
}

} // verus!
