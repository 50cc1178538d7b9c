//! Scheduler core: reply handling, status diffing, pulse arming, and the
//! pulse-task state machine.

use hydrobot::analyser::AnalyticStatus;
use hydrobot::codec::{SerialCommand, SerialCommandResult, Status, PH_CONNECTED, TDS_CONNECTED};
use hydrobot::gui::{GuiEvent, LogLevel, LogMessage, QueryMessage};
use hydrobot::scheduler::{Action, Channel, SchedulerActor, SchedulerRequest};
use hydrobot::store::Store;
use hydrobot::tasks::{AddOsmoseurWaterStatus, AddOsmoseurWaterTask};

fn fresh_scheduler(tag: &str) -> SchedulerActor {
    let nanos = std::time::SystemTime::now()
        .duration_since(std::time::UNIX_EPOCH)
        .unwrap()
        .as_nanos();
    let path = format!("/tmp/hydrobot_test_sched_{}_{}", tag, nanos);
    SchedulerActor::new(Store::open(&path).unwrap()).unwrap()
}

fn g1(
    tds_1: Option<i64>,
    ph_1: Option<i64>,
    t_1: Option<i64>,
    status: Option<Status>,
) -> SchedulerRequest {
    SchedulerRequest::Serial {
        result: SerialCommandResult::G1 { tds_1, ph_1, t_1, status },
        success: true,
    }
}

#[test]
fn new_reads_settings_defaults() {
    let s = fresh_scheduler("defaults");
    assert_eq!(s.tds_monitor.threshold, 500_000);
    assert_eq!(s.tds_monitor.pulse_duration, 10);
    assert_eq!(s.tds_monitor.pulse_minimum_interval, 240);
    assert_eq!(s.ph_monitor.threshold, 7_000);
    assert!(!s.ec_monitor_enabled);
    assert!(!s.ph_monitor_enabled);
    assert!(s.add_osmosed_water_task.is_none());
    assert!(!s.osmoseur_pump.locked);
}

#[test]
fn poll_tick_requests_filtered_readings() {
    let s = fresh_scheduler("poll");
    assert_eq!(s.poll_tick(), vec![Action::Send(SerialCommand::G1)]);
}

#[test]
fn failed_valve_reply_poisons_the_lock() {
    let mut s = fresh_scheduler("poison");
    let acts = s.handle(
        SchedulerRequest::Serial {
            result: SerialCommandResult::S0 { on: Some(false) },
            success: false,
        },
        7,
    );
    assert!(s.osmoseur_pump.poisoned.is_some());
    assert_eq!(
        acts,
        vec![Action::Ui(GuiEvent::Log(7, LogMessage::OsmoseurValvePoisoned, LogLevel::Error))]
    );
}

#[test]
fn successful_valve_reply_records_the_state() {
    let mut s = fresh_scheduler("valve");
    let acts = s.handle(
        SchedulerRequest::Serial {
            result: SerialCommandResult::S0 { on: Some(true) },
            success: true,
        },
        7,
    );
    assert!(acts.is_empty());
    assert_eq!(s.osmoseur_pump.opened, Some(true));
    assert!(s.osmoseur_pump.poisoned.is_none());
}

#[test]
fn probe_connect_and_disconnect_are_logged() {
    let mut s = fresh_scheduler("probes");
    let st = Status::from_bits(TDS_CONNECTED | PH_CONNECTED).unwrap();
    let acts = s.handle(g1(None, None, None, Some(st)), 3);
    assert_eq!(
        acts,
        vec![
            Action::Ui(GuiEvent::Log(3, LogMessage::TdsProbeConnected, LogLevel::Info)),
            Action::Ui(GuiEvent::Log(3, LogMessage::PhProbeConnected, LogLevel::Info)),
            Action::Ui(GuiEvent::Status(st)),
        ]
    );
    assert_eq!(s.status, st);
    let none = Status::from_bits(0).unwrap();
    let acts = s.handle(g1(None, None, None, Some(none)), 4);
    assert_eq!(
        acts,
        vec![
            Action::Ui(GuiEvent::Log(4, LogMessage::TdsProbeDisconnected, LogLevel::Warn)),
            Action::Ui(GuiEvent::Log(4, LogMessage::PhProbeDisconnected, LogLevel::Warn)),
            Action::Ui(GuiEvent::Status(none)),
        ]
    );
}

#[test]
fn repeated_status_produces_no_probe_logs() {
    let mut s = fresh_scheduler("idempotent");
    let st = Status::from_bits(TDS_CONNECTED).unwrap();
    s.handle(g1(None, None, None, Some(st)), 1);
    // the same status again: only the forward, no connect or disconnect log
    let acts = s.handle(g1(None, None, None, Some(st)), 2);
    assert_eq!(acts, vec![Action::Ui(GuiEvent::Status(st))]);
    let acts = s.handle(g1(None, None, None, Some(st)), 3);
    assert_eq!(acts, vec![Action::Ui(GuiEvent::Status(st))]);
}

#[test]
fn readings_only_flow_for_connected_probes() {
    let mut s = fresh_scheduler("gating");
    // no probe connected: a reading is ignored, temperature still forwards
    let acts = s.handle(g1(Some(500_000), None, Some(21_000), None), 1);
    assert_eq!(acts, vec![Action::Ui(GuiEvent::TemperatureSensore(21_000))]);
    // connect the dissolved-solids probe: its readings now feed the analyser
    let st = Status::from_bits(TDS_CONNECTED).unwrap();
    s.handle(g1(None, None, None, Some(st)), 2);
    let acts = s.handle(g1(Some(500_000), None, None, None), 3);
    assert_eq!(acts, vec![Action::Ui(GuiEvent::TdsSensore(500_000, AnalyticStatus::Unknown))]);
}

#[test]
fn stable_reading_over_threshold_arms_and_installs_a_task() {
    let mut s = fresh_scheduler("arming");
    s.handle(SchedulerRequest::SetEcMonitorEnabled { enabled: true }, 0);
    s.handle(SchedulerRequest::SetTdsThresh { thresh: 400_000 }, 0);
    let st = Status::from_bits(TDS_CONNECTED).unwrap();
    s.handle(g1(None, None, None, Some(st)), 1000);
    // feed a steady over-threshold reading at 1 Hz until stability
    let mut armed_at: Option<u64> = None;
    for t in 1001u64..1060 {
        let acts = s.handle(g1(Some(500_000), None, None, None), t);
        if acts.contains(&Action::Ui(GuiEvent::Query(t, QueryMessage::LoweringTds))) {
            armed_at = Some(t);
            break;
        }
    }
    // the window of 20 fills at t = 1020; the ten-second dwell passes
    // strictly at t = 1031, and the stable reading arms at once
    assert_eq!(armed_at, Some(1031));
    assert!(s.tds_monitor.suspend);
    assert_eq!(s.tds_monitor.last_pulse, 1031);
    let task = s.add_osmosed_water_task.as_ref().unwrap();
    assert_eq!(task.status, AddOsmoseurWaterStatus::WaitLock);
    assert_eq!(task.duration, 10);
    assert_eq!(task.channel, Channel::Tds);
    // while the task is in flight a second arming is only announced
    s.tds_monitor.suspend = false;
    s.tds_monitor.last_pulse = 0;
    let acts = s.handle(g1(Some(500_000), None, None, None), 2000);
    assert!(acts.contains(&Action::Ui(GuiEvent::Query(2000, QueryMessage::TdsTaskPending))));
}

#[test]
fn disabled_monitor_never_arms() {
    let mut s = fresh_scheduler("disabled");
    s.handle(SchedulerRequest::SetTdsThresh { thresh: 400_000 }, 0);
    let st = Status::from_bits(TDS_CONNECTED).unwrap();
    s.handle(g1(None, None, None, Some(st)), 0);
    for t in 1u64..60 {
        s.handle(g1(Some(500_000), None, None, None), t);
    }
    assert!(s.add_osmosed_water_task.is_none());
    assert!(!s.tds_monitor.suspend);
}

#[test]
fn ph_channel_arms_its_own_monitor() {
    let mut s = fresh_scheduler("ph_routing");
    s.handle(SchedulerRequest::SetPhMonitorEnabled { enabled: true }, 0);
    s.handle(SchedulerRequest::SetPhThresh { thresh: 6_000 }, 0);
    let st = Status::from_bits(PH_CONNECTED).unwrap();
    s.handle(g1(None, None, None, Some(st)), 1000);
    for t in 1001u64..1060 {
        s.handle(g1(None, Some(6_500), None, None), t);
    }
    // the pH monitor armed; the dissolved-solids monitor is untouched
    assert!(s.ph_monitor.suspend);
    assert!(!s.tds_monitor.suspend);
    let task = s.add_osmosed_water_task.as_ref().unwrap();
    assert_eq!(task.channel, Channel::Ph);
}

#[test]
fn parameter_changes_write_through_and_update_the_monitor() {
    let mut s = fresh_scheduler("params");
    let acts = s.handle(SchedulerRequest::SetTdsThresh { thresh: 450_000 }, 9);
    assert_eq!(
        acts,
        vec![Action::Ui(GuiEvent::Log(9, LogMessage::TdsThresholdUpdated(450_000), LogLevel::Info))]
    );
    assert_eq!(s.tds_monitor.threshold, 450_000);
    s.handle(SchedulerRequest::SetOsmoseurPulseDuration { duration: 30 }, 9);
    assert_eq!(s.tds_monitor.pulse_duration, 30);
    s.handle(SchedulerRequest::SetOsmoseurPulseMinInterval { interval: 600 }, 9);
    assert_eq!(s.tds_monitor.pulse_minimum_interval, 600);
    s.handle(SchedulerRequest::SetPhPulseDuration { duration: 3 }, 9);
    assert_eq!(s.ph_monitor.pulse_duration, 3);
    // the writes are durable in the store
    assert_eq!(s.store.get_tds_1_thresh().unwrap(), 450_000);
    assert_eq!(s.store.get_osmoseur_pulse_duration().unwrap(), 30);
    assert_eq!(s.store.get_osmoseur_pulse_min_interval().unwrap(), 600);
    assert_eq!(s.store.get_ph_pulse_duration().unwrap(), 3);
}

#[test]
fn pulse_task_happy_path() {
    let mut s = fresh_scheduler("happy");
    s.tds_monitor.suspend = true;  // as arming leaves it
    s.add_osmosed_water_task = Some(AddOsmoseurWaterTask::new(10, Channel::Tds));

    // lock free: take it and command the valve open
    let acts = s.task_tick(100);
    assert_eq!(acts, vec![Action::Send(SerialCommand::S0 { on: true })]);
    assert!(s.osmoseur_pump.locked);
    assert_eq!(s.osmoseur_pump.opened, None);
    assert_eq!(s.add_osmosed_water_task.as_ref().unwrap().status, AddOsmoseurWaterStatus::WaitOpen);

    // no confirmation yet: the task waits
    let acts = s.task_tick(101);
    assert_eq!(acts, vec![Action::Ui(GuiEvent::Log(101, LogMessage::OsmoseurValveWaitOpen, LogLevel::Info))]);
    assert_eq!(s.add_osmosed_water_task.as_ref().unwrap().status, AddOsmoseurWaterStatus::WaitOpen);

    // the board confirms the valve open
    s.handle(
        SchedulerRequest::Serial {
            result: SerialCommandResult::S0 { on: Some(true) },
            success: true,
        },
        102,
    );
    let acts = s.task_tick(102);
    assert_eq!(acts, vec![Action::Ui(GuiEvent::Log(102, LogMessage::OsmoseurValveOpened, LogLevel::Info))]);
    assert_eq!(s.add_osmosed_water_task.as_ref().unwrap().status, AddOsmoseurWaterStatus::WaitDuration);
    assert_eq!(s.add_osmosed_water_task.as_ref().unwrap().begin, Some(102));

    // the duration has not elapsed: nothing happens
    let acts = s.task_tick(105);
    assert!(acts.is_empty());

    // duration over: command the valve closed
    let acts = s.task_tick(112);
    assert_eq!(
        acts,
        vec![
            Action::Send(SerialCommand::S0 { on: false }),
            Action::Ui(GuiEvent::Log(112, LogMessage::OsmoseurValveWaitClose, LogLevel::Info)),
        ]
    );
    assert_eq!(s.add_osmosed_water_task.as_ref().unwrap().status, AddOsmoseurWaterStatus::WaitClose);

    // the board confirms the valve closed: resume, release, drop
    s.handle(
        SchedulerRequest::Serial {
            result: SerialCommandResult::S0 { on: Some(false) },
            success: true,
        },
        113,
    );
    let acts = s.task_tick(113);
    assert_eq!(acts, vec![Action::Ui(GuiEvent::Log(113, LogMessage::OsmoseurValveClosed, LogLevel::Info))]);
    assert!(s.add_osmosed_water_task.is_none());
    assert!(!s.osmoseur_pump.locked);
    assert!(!s.tds_monitor.suspend);
}

#[test]
fn pulse_task_failure_keeps_the_monitor_suspended() {
    let mut s = fresh_scheduler("failure");
    s.tds_monitor.suspend = true;
    s.add_osmosed_water_task = Some(AddOsmoseurWaterTask::new(10, Channel::Tds));
    s.task_tick(100);  // WaitLock -> WaitOpen, lock taken

    // the board refuses: the lock is poisoned
    s.handle(
        SchedulerRequest::Serial {
            result: SerialCommandResult::S0 { on: Some(true) },
            success: false,
        },
        101,
    );
    assert!(s.osmoseur_pump.poisoned.is_some());

    // the task aborts in WaitOpen; the lock stays held, the monitor stays
    // suspended, so no further dosing can happen
    let acts = s.task_tick(102);
    assert_eq!(
        acts,
        vec![Action::Ui(GuiEvent::Log(102, LogMessage::OsmoseurValveOpenFailed, LogLevel::Error))]
    );
    assert!(s.add_osmosed_water_task.is_none());
    assert!(s.osmoseur_pump.locked);
    assert!(s.tds_monitor.suspend);

    // a later task can never take the poisoned, still-held lock
    s.add_osmosed_water_task = Some(AddOsmoseurWaterTask::new(10, Channel::Tds));
    let acts = s.task_tick(103);
    assert!(acts.is_empty());
    assert_eq!(s.add_osmosed_water_task.as_ref().unwrap().status, AddOsmoseurWaterStatus::WaitLock);
}

#[test]
fn unknown_reply_is_logged() {
    let mut s = fresh_scheduler("unknown");
    let acts = s.handle(
        SchedulerRequest::Serial {
            result: SerialCommandResult::Unknown { raw: String::from("?? noise") },
            success: false,
        },
        5,
    );
    assert_eq!(acts, vec![Action::Ui(GuiEvent::Log(5, LogMessage::UnknownReply, LogLevel::Info))]);
}

#[test]
fn silent_board_in_wait_open_poisons_after_the_timeout() {
    let mut s = fresh_scheduler("timeout");
    s.tds_monitor.suspend = true;
    s.add_osmosed_water_task = Some(AddOsmoseurWaterTask::new(10, Channel::Tds));
    s.task_tick(100);  // open commanded at t = 100
    // within five seconds the task keeps waiting
    let acts = s.task_tick(104);
    assert_eq!(
        acts,
        vec![Action::Ui(GuiEvent::Log(104, LogMessage::OsmoseurValveWaitOpen, LogLevel::Info))]
    );
    // at five seconds without a confirmation the lock is poisoned and the
    // task is dropped; the monitor stays suspended
    let acts = s.task_tick(105);
    assert_eq!(
        acts,
        vec![Action::Ui(GuiEvent::Log(105, LogMessage::OsmoseurValveOpenFailed, LogLevel::Error))]
    );
    assert!(s.osmoseur_pump.poisoned.is_some());
    assert!(s.osmoseur_pump.locked);
    assert!(s.add_osmosed_water_task.is_none());
    assert!(s.tds_monitor.suspend);
}
