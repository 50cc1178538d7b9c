//! UI widget state: selection cycling and parameter editing.

use hydrobot::gui::widgets::{
    ControlerDetailsWidget, ControlerWidget, FeedBackWidget, LiveReadings, ParamKind, ParamStatus,
    PhWidget, QueryWidget, SettingCategorie, TdsWidget, TemperatureWidget, UiKey,
};
use hydrobot::scheduler::SchedulerRequest;
use hydrobot::store::Store;

fn fresh_store(tag: &str) -> Store {
    let nanos = std::time::SystemTime::now()
        .duration_since(std::time::UNIX_EPOCH)
        .unwrap()
        .as_nanos();
    let path = format!("/tmp/hydrobot_test_widgets_{}_{}", tag, nanos);
    Store::open(&path).unwrap()
}

#[test]
fn pane_selection_flags() {
    let mut tds = TdsWidget::new();
    assert!(!tds.selected);
    tds.select();
    assert!(tds.selected);
    tds.deselect();
    assert!(!tds.selected);
    assert!(!PhWidget::new().selected);
    assert!(!TemperatureWidget::new().selected);
    assert!(!FeedBackWidget::new().selected);
    assert!(!QueryWidget::new().selected);
}

#[test]
fn categorie_chooser_cycles() {
    let mut c = ControlerWidget::new();
    assert_eq!(c.sub_selection, 0);
    assert_eq!(c.on_key(UiKey::Down), Some(SettingCategorie::EcMonitor));
    assert_eq!(c.on_key(UiKey::Down), Some(SettingCategorie::PhMonitor));
    assert_eq!(c.on_key(UiKey::Down), Some(SettingCategorie::General));
    assert_eq!(c.on_key(UiKey::Up), Some(SettingCategorie::PhMonitor));
    assert_eq!(c.on_key(UiKey::Other), None);
}

#[test]
fn parameter_tables_read_the_settings() {
    let mut store = fresh_store("tables");
    store.set_tds_1_thresh(432_000).unwrap();
    store.set_tds_monitoring(true).unwrap();
    let w = ControlerDetailsWidget::new(&mut store).unwrap();
    assert_eq!(w.general.len(), 2);
    assert_eq!(w.ec_monitor.len(), 4);
    assert_eq!(w.ph_monitor.len(), 4);
    assert_eq!(w.general[0].kind, ParamKind::Boolean(true));
    assert_eq!(w.ec_monitor[0].kind, ParamKind::Float(432_000));
    assert_eq!(w.ec_monitor[1].kind, ParamKind::Duration(10));
    assert_eq!(w.ph_monitor[0].kind, ParamKind::Float(7_000));
    assert!(!w.ec_monitor[3].can_edit);
}

#[test]
fn editing_commits_a_scheduler_request() {
    let mut store = fresh_store("commit");
    let mut w = ControlerDetailsWidget::new(&mut store).unwrap();
    let readings = LiveReadings { tds: 0, ph: 0 };
    // select the first entry (the dissolved-solids switch), enter editing,
    // toggle it on, and commit
    let r = w.on_key(UiKey::Down, SettingCategorie::General, readings);
    assert!(r.request.is_none());
    assert_eq!(w.general[0].status, ParamStatus::Selected);
    let r = w.on_key(UiKey::Insert, SettingCategorie::General, readings);
    assert_eq!(r.focus, Some(true));
    assert_eq!(w.general[0].status, ParamStatus::Editing);
    w.on_key(UiKey::Up, SettingCategorie::General, readings);
    assert_eq!(w.general[0].kind, ParamKind::Boolean(true));
    let r = w.on_key(UiKey::Insert, SettingCategorie::General, readings);
    assert_eq!(r.focus, Some(false));
    assert_eq!(r.request, Some(SchedulerRequest::SetEcMonitorEnabled { enabled: true }));
}

#[test]
fn editing_nudges_a_threshold_by_whole_units() {
    let mut store = fresh_store("nudge");
    let mut w = ControlerDetailsWidget::new(&mut store).unwrap();
    let readings = LiveReadings { tds: 512_500, ph: 0 };
    w.on_key(UiKey::Down, SettingCategorie::EcMonitor, readings);
    w.on_key(UiKey::Insert, SettingCategorie::EcMonitor, readings);
    // the threshold starts at its default of 500 units
    w.on_key(UiKey::Up, SettingCategorie::EcMonitor, readings);
    assert_eq!(w.ec_monitor[0].kind, ParamKind::Float(501_000));
    w.on_key(UiKey::Down, SettingCategorie::EcMonitor, readings);
    w.on_key(UiKey::Down, SettingCategorie::EcMonitor, readings);
    assert_eq!(w.ec_monitor[0].kind, ParamKind::Float(499_000));
    // copy the live reading in, then commit it
    w.on_key(UiKey::Refresh, SettingCategorie::EcMonitor, readings);
    assert_eq!(w.ec_monitor[0].kind, ParamKind::Float(512_500));
    let r = w.on_key(UiKey::Insert, SettingCategorie::EcMonitor, readings);
    assert_eq!(r.request, Some(SchedulerRequest::SetTdsThresh { thresh: 512_500 }));
}

#[test]
fn selection_moves_and_wraps() {
    let mut store = fresh_store("wrap");
    let mut w = ControlerDetailsWidget::new(&mut store).unwrap();
    let readings = LiveReadings { tds: 0, ph: 0 };
    w.on_key(UiKey::Down, SettingCategorie::General, readings);
    assert_eq!(w.general[0].status, ParamStatus::Selected);
    w.on_key(UiKey::Down, SettingCategorie::General, readings);
    assert_eq!(w.general[1].status, ParamStatus::Selected);
    assert_eq!(w.general[0].status, ParamStatus::Idle);
    // wraps back to the top
    w.on_key(UiKey::Down, SettingCategorie::General, readings);
    assert_eq!(w.general[0].status, ParamStatus::Selected);
    w.on_key(UiKey::Up, SettingCategorie::General, readings);
    assert_eq!(w.general[1].status, ParamStatus::Selected);
}
