use thalassocracy::clock::FixedStep;
use thalassocracy::server::{PlayerControl, ServerLoop};
use thalassocracy::protocol::PauseRequest;

#[test]
fn tick_length_from_rate() {
    assert_eq!(FixedStep::from_tick_hz(30).dt_us, 33_333);
    assert_eq!(FixedStep::from_tick_hz(120).dt_us, 8_333);
    assert_eq!(FixedStep::from_tick_hz(0).dt_us, 1_000_000);
    assert_eq!(FixedStep::from_tick_hz(1_000_000).dt_us, 100);
}

#[test]
fn fixed_step_counts_whole_ticks() {
    let mut s = FixedStep::from_tick_hz(30);
    assert_eq!(s.advance(100_000, false), 3);
    assert_eq!(s.acc_us, 1);
    assert_eq!(s.advance(33_332, false), 1);
    assert_eq!(s.acc_us, 0);
    assert_eq!(s.advance(20_000, false), 0);
    assert_eq!(s.acc_us, 20_000);
}

#[test]
fn pause_discards_leftover_time() {
    let mut s = FixedStep::from_tick_hz(30);
    s.advance(20_000, false);
    assert_eq!(s.advance(1_000_000, true), 0);
    assert_eq!(s.acc_us, 0);
    assert_eq!(s.advance(0, false), 0);
    assert_eq!(s.acc_us, 0);
}

#[test]
fn zero_frame_changes_nothing() {
    let mut s = FixedStep::from_tick_hz(30);
    s.advance(20_000, false);
    let before = s;
    assert_eq!(s.advance(0, true), 0);
    assert_eq!(s, before);
}

#[test]
fn large_frame_does_not_overflow() {
    let mut s = FixedStep::from_tick_hz(1_000_000);
    s.advance(99, false);
    assert_eq!(s.advance(u64::MAX, false), ((u64::MAX as u128 + 99) / 100) as u64);
}

#[test]
fn server_loop_ticks_and_snapshots() {
    let mut l = ServerLoop::with_defaults();
    let w = l.on_frame(50_000);
    assert_eq!(w.ticks, 1);
    assert!(w.snapshot);
    let w = l.on_frame(10_000);
    assert_eq!(w.ticks, 0);
    assert!(!w.snapshot);
    assert_eq!(l.begin_tick(), 33);
    assert_eq!(l.tick, 1);
    assert_eq!(l.begin_tick(), 66);
    assert_eq!(l.server_ms(), 66);
}

#[test]
fn server_pause_stops_ticks_but_not_snapshots() {
    let mut l = ServerLoop::new(30, 20);
    let st = l.on_pause_request(PauseRequest { paused: true });
    assert!(st.paused);
    let w = l.on_frame(1_000_000);
    assert_eq!(w.ticks, 0);
    assert!(w.snapshot);
    assert_eq!(l.step.acc_us, 0);
    l.on_pause_request(PauseRequest { paused: false });
    assert_eq!(l.on_frame(40_000).ticks, 1);
}

#[test]
fn scheduled_inputs_take_effect_when_due() {
    let mut p = PlayerControl::new(0i32);
    p.on_event(130, 3);
    p.on_event(100, 1);
    p.on_event(115, 2);
    p.apply_due(99);
    assert_eq!(p.active, 0);
    assert_eq!(p.pending.len(), 3);
    p.apply_due(120);
    assert_eq!(p.active, 2);
    assert_eq!(p.pending.len(), 1);
    p.on_untimed(7);
    assert_eq!(p.active, 7);
    p.apply_due(130);
    assert_eq!(p.active, 3);
    assert_eq!(p.pending.len(), 0);
}

#[test]
fn equal_stamps_keep_arrival_order() {
    let mut p = PlayerControl::new('-');
    p.on_event(50, 'a');
    p.on_event(50, 'b');
    p.apply_due(50);
    assert_eq!(p.active, 'b');
}

#[test]
fn server_zero_frame_runs_no_tick() {
    let mut l = ServerLoop::with_defaults();
    l.on_frame(30_000);
    let w = l.on_frame(0);
    assert_eq!(w.ticks, 0);
    assert!(!w.snapshot);
    assert_eq!(l.step.acc_us, 30_000);
}
