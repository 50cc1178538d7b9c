//! UI state: event folding and bounded buffers.

use hydrobot::analyser::AnalyticStatus;
use hydrobot::codec::Status;
use hydrobot::gui::{App, GuiEvent, LogLevel, LogMessage, QueryMessage, MAX_LOG, MAX_TDS_SAMPLES};

#[test]
fn events_update_the_shown_state() {
    let mut app = App::new();
    app.apply(GuiEvent::TdsSensore(512_500, AnalyticStatus::Stable(512_500)), 9);
    assert_eq!(app.tds, 512_500);
    assert_eq!(app.tds_status, AnalyticStatus::Stable(512_500));
    assert_eq!(app.tds_buffer_trunc, vec![(9, 512_500)]);
    app.apply(GuiEvent::PhSensore(6_800, AnalyticStatus::Unknown), 10);
    assert_eq!(app.ph, 6_800);
    app.apply(GuiEvent::TemperatureSensore(21_000), 11);
    assert_eq!(app.temperature, 21_000);
    let st = Status::from_bits(5).unwrap();
    app.apply(GuiEvent::Status(st), 12);
    assert_eq!(app.status, st);
    app.apply(GuiEvent::Log(13, LogMessage::TdsProbeConnected, LogLevel::Info), 13);
    assert_eq!(app.logs, vec![(13, LogMessage::TdsProbeConnected, LogLevel::Info)]);
    app.apply(GuiEvent::Query(14, QueryMessage::LoweringTds), 14);
    assert_eq!(app.queries, vec![(14, QueryMessage::LoweringTds)]);
}

#[test]
fn chart_buffer_is_bounded_and_drops_the_oldest() {
    let mut app = App::new();
    for t in 0..(MAX_TDS_SAMPLES as u64 + 10) {
        app.apply(GuiEvent::TdsSensore(t as i64, AnalyticStatus::Unknown), t);
    }
    assert_eq!(app.tds_buffer_trunc.len(), MAX_TDS_SAMPLES);
    // the oldest ten samples left; the newest is the last one fed
    assert_eq!(app.tds_buffer_trunc[0], (10, 10));
    assert_eq!(
        app.tds_buffer_trunc[MAX_TDS_SAMPLES - 1],
        (MAX_TDS_SAMPLES as u64 + 9, MAX_TDS_SAMPLES as i64 + 9)
    );
}

#[test]
fn log_buffer_is_bounded() {
    let mut app = App::new();
    for t in 0..(MAX_LOG as u64 + 3) {
        app.apply(GuiEvent::Log(t, LogMessage::UnknownReply, LogLevel::Info), t);
    }
    assert_eq!(app.logs.len(), MAX_LOG);
    assert_eq!(app.logs[0].0, 3);
}
