//! Samples analyser: dwell before stability, determinism, drift detection.

use hydrobot::analyser::{AnalyticStatus, SamplesAnalytic};

#[test]
fn stable_only_after_dwell() {
    // window of 20, dead-band of 4 units, ten-second dwell, samples at 1 Hz
    let mut a = SamplesAnalytic::new(20, 4, 10);
    let mut first_stable_at: Option<u64> = None;
    for t in 0u64..40 {
        match a.sample(t, 500_000) {
            Some(AnalyticStatus::Stable(v)) => {
                assert_eq!(v, 500_000);
                if first_stable_at.is_none() {
                    first_stable_at = Some(t);
                }
            },
            _ => {},
        }
    }
    // the window fills at t = 19 and enters the dead-band; the dwell of
    // ten seconds must then elapse strictly, so stability comes at t = 30
    assert_eq!(first_stable_at, Some(30));
}

#[test]
fn window_fill_reports_unknown_first() {
    let mut a = SamplesAnalytic::new(3, 0, 5);
    assert_eq!(a.sample(0, 1_000), Some(AnalyticStatus::Unknown));
    assert_eq!(a.sample(1, 1_000), None);
    // window full: enters the dead-band
    assert_eq!(a.sample(2, 1_000), Some(AnalyticStatus::Stabilizing(1_000, 2)));
}

#[test]
fn clear_resets_the_window() {
    let mut a = SamplesAnalytic::new(2, 0, 5);
    a.sample(0, 1_000);
    a.sample(1, 1_000);
    a.clear();
    assert_eq!(a.status, AnalyticStatus::Unknown);
    assert_eq!(a.sample(2, 1_000), None);  // one sample: window not full yet
}

#[test]
fn upward_drift_is_reported() {
    let mut a = SamplesAnalytic::new(3, 0, 10);
    a.sample(0, 1_000);
    a.sample(1, 2_000);
    // window full: min 1, max 3, midpoint 2, inside the dead-band
    assert_eq!(a.sample(2, 3_000), Some(AnalyticStatus::Stabilizing(2_000, 2)));
    // a jump to 9 units drifts up: carried value is (max + current) / 2
    assert_eq!(a.sample(3, 9_000), Some(AnalyticStatus::Uprising(5_500)));
}

#[test]
fn downward_drift_is_reported() {
    let mut a = SamplesAnalytic::new(3, 0, 10);
    a.sample(0, 9_000);
    a.sample(1, 8_000);
    a.sample(2, 7_000);
    // min 7, max 9, midpoint 8: spread 1 each way, inside the dead-band
    assert_eq!(a.status, AnalyticStatus::Stabilizing(8_000, 2));
    match a.sample(3, 1_000) {
        Some(AnalyticStatus::Downrising(_)) => {},
        other => panic!("expected a downward drift, got {:?}", other),
    }
}

#[test]
fn classification_is_deterministic() {
    let samples: Vec<(u64, i64)> = (0u64..30).map(|t| (t, 500_000 + (t as i64 % 3) * 1_000)).collect();
    let mut a = SamplesAnalytic::new(10, 4, 5);
    let mut b = SamplesAnalytic::new(10, 4, 5);
    for (t, v) in samples {
        assert_eq!(a.sample(t, v), b.sample(t, v));
        assert_eq!(a.status, b.status);
    }
}

#[test]
fn dead_band_absorbs_noise() {
    // precision of 4 units: readings wobbling by 3 units stay stabilising
    let mut a = SamplesAnalytic::new(5, 4, 100);
    let mut t = 0u64;
    for _ in 0..5 {
        a.sample(t, 500_000);
        t += 1;
    }
    assert_eq!(a.status, AnalyticStatus::Stabilizing(500_000, 4));
    for _ in 0..10 {
        a.sample(t, if t % 2 == 0 { 503_000 } else { 497_000 });
        t += 1;
    }
    assert_eq!(a.status, AnalyticStatus::Stabilizing(500_000, 4));
}
