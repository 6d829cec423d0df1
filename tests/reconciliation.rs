use thalassocracy::reconcile::{
    filter_tau_us, on_frame, on_snapshot, Correction, Divergence, Phase, Step,
};

fn d(pos_um: u64, ang_urad: u64, vel_umps: u64) -> Divergence {
    Divergence { pos_um, ang_urad, vel_umps }
}

#[test]
fn large_error_snaps_and_clears_correction() {
    let mut ph = Phase::Correcting(Correction { target: 1u8, elapsed_us: 10, duration_us: 250_000 });
    let s = on_snapshot(&mut ph, 2u8, d(10_000_001, 0, 0), d(0, 0, 0), false);
    assert_eq!(s, Step::Snap);
    assert_eq!(ph, Phase::Predicting);
    let mut ph = Phase::Predicting;
    assert_eq!(on_snapshot(&mut ph, 2u8, d(0, 1_000_001, 0), d(0, 0, 0), true), Step::Snap);
    let mut ph = Phase::Predicting;
    assert_eq!(on_snapshot(&mut ph, 2u8, d(10_000_000, 1_000_000, 0), d(0, 0, 0), false), Step::Settle);
}

#[test]
fn tiny_error_never_starts_a_correction() {
    let mut ph: Phase<u8> = Phase::Predicting;
    assert_eq!(on_snapshot(&mut ph, 3, d(0, 0, 0), d(39_999, 29_999, 39_999), false), Step::Settle);
    assert_eq!(ph, Phase::Predicting);
    let mut ph = Phase::Correcting(Correction { target: 1u8, elapsed_us: 0, duration_us: 250_000 });
    assert_eq!(on_snapshot(&mut ph, 3, d(0, 0, 0), d(79_999, 49_999, 79_999), true), Step::Settle);
    assert_eq!(ph, Phase::Predicting);
}

#[test]
fn clear_error_begins_a_correction() {
    let mut ph: Phase<u8> = Phase::Predicting;
    assert_eq!(on_snapshot(&mut ph, 4, d(80_001, 0, 0), d(80_001, 0, 0), false), Step::Begin);
    assert_eq!(ph, Phase::Correcting(Correction { target: 4, elapsed_us: 0, duration_us: 250_000 }));
}

#[test]
fn dead_band_holds() {
    let mut ph: Phase<u8> = Phase::Predicting;
    assert_eq!(on_snapshot(&mut ph, 4, d(0, 0, 0), d(80_000, 0, 0), false), Step::Hold);
    assert_eq!(ph, Phase::Predicting);
    assert_eq!(on_snapshot(&mut ph, 4, d(0, 0, 0), d(150_000, 0, 0), true), Step::Hold);
    assert_eq!(ph, Phase::Predicting);
}

#[test]
fn live_correction_is_retargeted_in_place() {
    let mut ph = Phase::Correcting(Correction { target: 1u8, elapsed_us: 230_000, duration_us: 250_000 });
    assert_eq!(on_snapshot(&mut ph, 9, d(0, 0, 0), d(90_000, 0, 0), false), Step::Retarget);
    assert_eq!(ph, Phase::Correcting(Correction { target: 9, elapsed_us: 200_000, duration_us: 250_000 }));
    let mut ph = Phase::Correcting(Correction { target: 1u8, elapsed_us: 50_000, duration_us: 250_000 });
    assert_eq!(on_snapshot(&mut ph, 8, d(0, 0, 0), d(500_000, 0, 0), true), Step::Retarget);
    assert_eq!(ph, Phase::Correcting(Correction { target: 8, elapsed_us: 50_000, duration_us: 250_000 }));
}

#[test]
fn correction_ends_within_completion_band() {
    let mut ph = Phase::Correcting(Correction { target: 1u8, elapsed_us: 0, duration_us: 250_000 });
    assert!(!on_frame(&mut ph, 16_000, d(10_000, 0, 0)));
    assert_eq!(ph, Phase::Correcting(Correction { target: 1, elapsed_us: 16_000, duration_us: 250_000 }));
    assert!(!on_frame(&mut ph, 0, d(0, 0, 0)));
    assert!(on_frame(&mut ph, 16_000, d(9_999, 9_999, 19_999)));
    assert_eq!(ph, Phase::Predicting);
    assert!(!on_frame(&mut ph, 16_000, d(0, 0, 0)));
}

#[test]
fn filter_tightens_while_steering() {
    assert_eq!(filter_tau_us(true), 35_000);
    assert_eq!(filter_tau_us(false), 100_000);
}

#[test]
fn dead_band_leaves_running_correction_alone() {
    let live = Correction { target: 1u8, elapsed_us: 230_000, duration_us: 250_000 };
    let mut ph = Phase::Correcting(live);
    assert_eq!(on_snapshot(&mut ph, 9, d(0, 0, 0), d(50_000, 0, 0), false), Step::Hold);
    assert_eq!(ph, Phase::Correcting(live));
    assert_eq!(on_snapshot(&mut ph, 9, d(0, 0, 0), d(150_000, 90_000, 150_000), true), Step::Hold);
    assert_eq!(ph, Phase::Correcting(live));
}
