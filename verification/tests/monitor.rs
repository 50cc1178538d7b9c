//! Pulse monitor: arming, refractory interval, suspend-until-resume.

use hydrobot::monitor::PulseMonitor;

#[test]
fn arming_suspends_and_stamps() {
    // threshold 400 units, interval 240 s, duration 10 s, fresh monitor
    let mut m = PulseMonitor::new(400_000, 240, 10);
    assert!(!m.suspend);
    assert_eq!(m.last_pulse, 0);
    // over threshold, interval long past the epoch: arms
    assert_eq!(m.update(500_000, 1_000), Some(10));
    assert!(m.suspend);
    assert_eq!(m.last_pulse, 1_000);
    // an immediate second update is suspended
    assert_eq!(m.update(500_000, 1_000), None);
    // resuming alone does not rearm: the refractory interval still gates
    m.resume();
    assert!(!m.suspend);
    assert_eq!(m.update(500_000, 1_100), None);
    assert_eq!(m.update(500_000, 1_240), None);
    // strictly more than 240 s after the first arming: due again
    assert_eq!(m.update(500_000, 1_241), Some(10));
    assert!(m.suspend);
}

#[test]
fn below_threshold_never_arms() {
    let mut m = PulseMonitor::new(400_000, 0, 10);
    assert_eq!(m.update(400_000, 1_000), None);
    assert_eq!(m.update(399_999, 2_000), None);
    assert!(!m.suspend);
    assert_eq!(m.update(400_001, 3_000), Some(10));
}

#[test]
fn only_resume_clears_suspension() {
    let mut m = PulseMonitor::new(0, 0, 5);
    assert_eq!(m.update(1_000, 10), Some(5));
    // no amount of time or readings clears the suspension by itself
    assert_eq!(m.update(1_000_000, 1_000_000), None);
    assert!(m.suspend);
    m.resume();
    assert_eq!(m.update(1_000, 1_000_000), Some(5));
}

#[test]
fn clock_moving_backwards_reads_as_no_time_passed() {
    let mut m = PulseMonitor::new(0, 100, 5);
    assert_eq!(m.update(1_000, 500), Some(5));
    m.resume();
    // now is before the last arming: the interval has not elapsed
    assert_eq!(m.update(1_000, 400), None);
}
