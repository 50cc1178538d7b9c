//! Settings store: defaults, write-through, persistence across reopening.

use hydrobot::store::Store;

fn fresh_path(tag: &str) -> String {
    let nanos = std::time::SystemTime::now()
        .duration_since(std::time::UNIX_EPOCH)
        .unwrap()
        .as_nanos();
    format!("/tmp/hydrobot_test_store_{}_{}", tag, nanos)
}

#[test]
fn unknown_keys_read_as_their_defaults() {
    let path = fresh_path("defaults");
    let mut s = Store::open(&path).unwrap();
    assert_eq!(s.get_tds_1_thresh().unwrap(), 500_000);
    assert_eq!(s.get_ph_1_thresh().unwrap(), 7_000);
    assert_eq!(s.get_osmoseur_pulse_duration().unwrap(), 10);
    assert_eq!(s.get_osmoseur_pulse_min_interval().unwrap(), 240);
    assert_eq!(s.get_ph_pulse_duration().unwrap(), 10);
    assert_eq!(s.get_ph_pulse_min_interval().unwrap(), 240);
    assert_eq!(s.get_tds_monitoring().unwrap(), false);
    assert_eq!(s.get_ph_monitoring().unwrap(), false);
}

#[test]
fn settings_survive_a_reopen() {
    let path = fresh_path("reopen");
    {
        let mut s = Store::open(&path).unwrap();
        s.set_tds_1_thresh(123_456).unwrap();
        s.set_ph_1_thresh(-6_500).unwrap();
        s.set_osmoseur_pulse_duration(17).unwrap();
        s.set_osmoseur_pulse_min_interval(300).unwrap();
        s.set_ph_pulse_duration(4).unwrap();
        s.set_ph_pulse_min_interval(1).unwrap();
        s.set_tds_monitoring(true).unwrap();
        s.set_ph_monitoring(true).unwrap();
    }
    let mut s = Store::open(&path).unwrap();
    assert_eq!(s.get_tds_1_thresh().unwrap(), 123_456);
    assert_eq!(s.get_ph_1_thresh().unwrap(), -6_500);
    assert_eq!(s.get_osmoseur_pulse_duration().unwrap(), 17);
    assert_eq!(s.get_osmoseur_pulse_min_interval().unwrap(), 300);
    assert_eq!(s.get_ph_pulse_duration().unwrap(), 4);
    assert_eq!(s.get_ph_pulse_min_interval().unwrap(), 1);
    assert_eq!(s.get_tds_monitoring().unwrap(), true);
    assert_eq!(s.get_ph_monitoring().unwrap(), true);
}

#[test]
fn set_then_get_returns_the_value() {
    let path = fresh_path("setget");
    let mut s = Store::open(&path).unwrap();
    for v in [0i64, 1, -1, 500_000, i64::MAX, i64::MIN] {
        s.set_tds_1_thresh(v).unwrap();
        assert_eq!(s.get_tds_1_thresh().unwrap(), v);
    }
    for v in [0u64, 1, 240, u64::MAX] {
        s.set_ph_pulse_min_interval(v).unwrap();
        assert_eq!(s.get_ph_pulse_min_interval().unwrap(), v);
    }
    for v in [true, false, true] {
        s.set_ph_monitoring(v).unwrap();
        assert_eq!(s.get_ph_monitoring().unwrap(), v);
    }
}

#[test]
fn written_through_defaults_persist() {
    let path = fresh_path("writethrough");
    {
        let mut s = Store::open(&path).unwrap();
        // first read writes the default through
        assert_eq!(s.get_tds_1_thresh().unwrap(), 500_000);
    }
    let mut s = Store::open(&path).unwrap();
    assert_eq!(s.get_tds_1_thresh().unwrap(), 500_000);
}

#[test]
fn metrics_are_recorded_and_read_back() {
    let path = fresh_path("metrics");
    let mut s = Store::open(&path).unwrap();
    s.insert_tds_1_metric(100, 42_000).unwrap();
    s.insert_tds_1_metric(150, 43_000).unwrap();
    let mut buffer: Vec<i64> = Vec::new();
    s.get_fresh_tds_1_metric(&mut buffer, 10, 200).unwrap();
    // newest first, only records before the given second
    assert_eq!(buffer, vec![43_000, 42_000]);
    let mut recent: Vec<i64> = Vec::new();
    s.get_fresh_tds_1_metric(&mut recent, 10, 150).unwrap();
    assert_eq!(recent, vec![42_000]);
}
