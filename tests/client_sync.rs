use thalassocracy::client::ClientSession;
use thalassocracy::protocol::{InputAck, JoinAck, PauseState, PROTOCOL_VERSION};
use thalassocracy::sync::{connect_timed_out, input_backlog, SnapshotGate, TimeSync};

#[test]
fn stale_and_duplicate_snapshots_are_dropped() {
    let mut g = SnapshotGate::new();
    assert!(!g.offer(0));
    assert!(g.offer(5));
    assert!(!g.offer(5));
    assert!(!g.offer(3));
    assert!(g.offer(6));
    assert_eq!(g.latest, Some(6));
}

#[test]
fn offset_estimate_moves_a_tenth_of_the_way() {
    let mut t = TimeSync::new();
    t.observe(1_000, 400);
    assert_eq!(t.offset_us, 60_000);
    assert_eq!(t.last_server_ms, 1_000);
    t.observe(1_000, 400);
    assert_eq!(t.offset_us, 114_000);
    assert_eq!(t.stamp(500), 500 + 114 + 30);
}

#[test]
fn negative_offset_rounds_toward_zero_and_floors_at_zero() {
    let mut t = TimeSync::new();
    t.observe(0, 1_005);
    assert_eq!(t.offset_us, -100_500);
    assert_eq!(t.stamp(1_000), 1_000 - 100 + 30);
    assert_eq!(t.stamp(50), 30);
}

#[test]
fn stamp_saturates() {
    let t = TimeSync::new();
    assert_eq!(t.stamp(u64::MAX - 10), u64::MAX);
}

#[test]
fn backlog_counts_unacknowledged_inputs() {
    assert_eq!(input_backlog(10, None), 0);
    assert_eq!(input_backlog(10, Some(4)), 6);
    assert_eq!(input_backlog(3, Some(4)), 0);
}

#[test]
fn connect_timeout_only_when_unconnected() {
    assert!(connect_timed_out(false, 5_000, 5));
    assert!(!connect_timed_out(false, 4_999, 5));
    assert!(!connect_timed_out(true, 60_000, 5));
    assert!(!connect_timed_out(false, u64::MAX, u64::MAX));
}

#[test]
fn session_handshake_and_intake() {
    let mut s = ClientSession::new();
    assert!(s.hello(false, None).is_none());
    let h = s.hello(true, Some("skiff".to_string())).unwrap();
    assert_eq!(h.protocol, PROTOCOL_VERSION);
    assert_eq!(h.display_name.as_deref(), Some("skiff"));
    assert!(s.hello(true, None).is_none());
    assert_eq!(s.step.dt_us, 8_333);
    let id = uuid::Uuid::from_u128(7);
    s.on_join_ack(&JoinAck { player_id: id, tick_hz: 30 });
    assert_eq!(s.player_id, Some(id));
    assert_eq!(s.step.dt_us, 33_333);
    assert!(s.on_snapshot(1, 2_000, 1_000));
    assert_eq!(s.time_sync.offset_us, 100_000);
    assert!(!s.on_snapshot(1, 9_000, 1_000));
    assert_eq!(s.time_sync.offset_us, 100_000);
    assert_eq!(s.on_frame(70_000), 2);
    s.on_pause_state(PauseState { paused: true });
    assert_eq!(s.on_frame(70_000), 0);
    assert_eq!(s.next_input_tick(), 1);
    assert_eq!(s.next_input_tick(), 2);
    assert_eq!(s.backlog(), 0);
    s.on_input_ack(InputAck { tick: 1 });
    assert_eq!(s.backlog(), 1);
}

#[test]
fn client_zero_frame_runs_no_step() {
    let mut s = ClientSession::new();
    s.on_frame(5_000);
    assert_eq!(s.on_frame(0), 0);
    assert_eq!(s.step.acc_us, 5_000);
}
