//! Scheduler core: the event-driven heart of the controller. It owns the
//! per-channel samples analysers and pulse monitors, the actuator lock, the
//! settings store, and at most one in-flight pulse task; it consumes board
//! replies and parameter changes and emits commands for the serial line and
//! events for the UI.
//!
//! The scheduler performs no I/O itself: a front end feeds it requests and
//! ticks and carries out the actions it returns.

use vstd::prelude::*;
use crate::analyser::{
    status_after, window_after, AnalyticStatus, SamplesAnalytic, SAMPLE_LIMIT,
};
use crate::codec::{
    SerialCommand, SerialCommandResult, Status, PH_CONNECTED, TDS_CONNECTED,
};
use crate::gui::{GuiEvent, LogLevel, LogMessage, QueryMessage};
use crate::monitor::PulseMonitor;
use crate::store::{
    spec_enc_bool, spec_enc_i64, spec_enc_u64, Store, StoreError, SETTING_OSMOSEUR_PULSE_DURATION,
    SETTING_OSMOSEUR_PULSE_MIN_INTERVAL, SETTING_PH_1, SETTING_PH_MONITORING,
    SETTING_PH_PULSE_DURATION, SETTING_PH_PULSE_MIN_INTERVAL, SETTING_TDS_1,
    SETTING_TDS_MONITORING,
};
use crate::tasks::{AddOsmoseurWaterStatus, AddOsmoseurWaterTask};

verus! {

/// An error surfaced by the scheduler itself.
#[derive(Debug)]
pub enum SchedulerError {
    BoardBusy(&'static str),
}

pub type SchedulerResult<T> = Result<T, SchedulerError>;

/// The regulated probe channels.
#[derive(Clone, Copy, Debug, PartialEq, Eq, Structural)]
pub enum Channel {
    Tds,
    Ph,
}

/// The kinds of background task the scheduler runs.
#[derive(Debug, Hash, Copy, Clone, Eq, PartialEq, Ord, PartialOrd)]
pub enum Task {
    AddOsmoseurWater,
}

/// A hardware-level failure, with a short description.
#[derive(Clone, Copy, Debug)]
pub struct HardwareError(pub &'static str);

/// Mutual exclusion for one actuator. `opened` is the last confirmed state,
/// none while a confirmation is outstanding; a poisoned lock is terminal.
pub struct PumpHardwareLock {
    pub locked: bool,
    pub opened: Option<bool>,
    pub poisoned: Option<HardwareError>,
}

impl PumpHardwareLock {
    pub fn new() -> (r: PumpHardwareLock)
        ensures
            !r.locked,
            r.opened is None,
            r.poisoned is None,
    {
        PumpHardwareLock { locked: false, opened: None, poisoned: None }
    }
}

/// One inbound event for the scheduler. Thresholds are fixed-point
/// thousandths; durations and intervals are whole seconds.
#[derive(Clone, Debug, PartialEq, Eq)]
pub enum SchedulerRequest {
    Serial { result: SerialCommandResult, success: bool },
    SetPhMonitorEnabled { enabled: bool },
    SetEcMonitorEnabled { enabled: bool },
    SetTdsThresh { thresh: i64 },
    SetOsmoseurPulseDuration { duration: u64 },
    SetOsmoseurPulseMinInterval { interval: u64 },
    SetPhThresh { thresh: i64 },
    SetPhPulseDuration { duration: u64 },
    SetPhPulseMinInterval { interval: u64 },
}

/// One outbound effect: a command for the serial line, or an event for the
/// UI. The front end performs them in order.
#[derive(Clone, Copy, Debug, PartialEq, Eq, Structural)]
pub enum Action {
    Send(SerialCommand),
    Ui(GuiEvent),
}

pub struct SchedulerActor {
    pub osmoseur_pump: PumpHardwareLock,
    pub status: Status,
    pub store: Store,
    pub tds_1_samples: SamplesAnalytic,
    pub tds_monitor: PulseMonitor,
    pub ph_1_samples: SamplesAnalytic,
    pub ph_monitor: PulseMonitor,
    pub ph_monitor_enabled: bool,
    pub ec_monitor_enabled: bool,
    pub add_osmosed_water_task: Option<AddOsmoseurWaterTask>,
}

impl SchedulerActor {
    /// At most one pulse task is in flight; while it lives, the monitor
    /// that armed it stays suspended, and once past the lock step it holds
    /// the actuator lock.
    pub open spec fn pulse_safety(self) -> bool {
        match self.add_osmosed_water_task {
            Some(t) => {
                &&& t.wf()
                &&& (t.channel == Channel::Tds ==> self.tds_monitor.suspend)
                &&& (t.channel == Channel::Ph ==> self.ph_monitor.suspend)
                &&& (t.status != AddOsmoseurWaterStatus::WaitLock ==> self.osmoseur_pump.locked)
            },
            None => true,
        }
    }

    pub open spec fn wf(self) -> bool {
        &&& self.tds_1_samples.wf()
        &&& self.ph_1_samples.wf()
        &&& self.pulse_safety()
    }
}

// ---------------------------------------------------------------------------
// Specification of the transition on one request
// ---------------------------------------------------------------------------

/// The events the status phase emits: a connect or disconnect log per probe
/// whose bit changed, then the new status forwarded to the UI.
pub open spec fn status_actions(pre: Status, st: Status, now: u64) -> Seq<Action> {
    let tds_con = st.spec_contains(TDS_CONNECTED) && !pre.spec_contains(TDS_CONNECTED);
    let tds_dis = !st.spec_contains(TDS_CONNECTED) && pre.spec_contains(TDS_CONNECTED);
    let ph_con = st.spec_contains(PH_CONNECTED) && !pre.spec_contains(PH_CONNECTED);
    let ph_dis = !st.spec_contains(PH_CONNECTED) && pre.spec_contains(PH_CONNECTED);
    (if tds_con {
        seq![Action::Ui(GuiEvent::Log(now, LogMessage::TdsProbeConnected, LogLevel::Info))]
    } else if tds_dis {
        seq![Action::Ui(GuiEvent::Log(now, LogMessage::TdsProbeDisconnected, LogLevel::Warn))]
    } else {
        Seq::<Action>::empty()
    }) + (if ph_con {
        seq![Action::Ui(GuiEvent::Log(now, LogMessage::PhProbeConnected, LogLevel::Info))]
    } else if ph_dis {
        seq![Action::Ui(GuiEvent::Log(now, LogMessage::PhProbeDisconnected, LogLevel::Warn))]
    } else {
        Seq::<Action>::empty()
    }) + seq![Action::Ui(GuiEvent::Status(st))]
}

/// Re-emitting an unchanged status produces no connect or disconnect log,
/// only the status forward.
pub proof fn lemma_status_forward_idempotent(st: Status, now: u64)
    ensures
        status_actions(st, st, now) == seq![Action::Ui(GuiEvent::Status(st))],
{
    assert(status_actions(st, st, now) =~= seq![Action::Ui(GuiEvent::Status(st))]);
}

/// The value a stable classification carries.
pub open spec fn stable_val(s: AnalyticStatus) -> i64 {
    match s {
        AnalyticStatus::Stable(v) => v,
        _ => 0,
    }
}

/// Whether a freshly classified stable reading arms the channel's monitor.
pub open spec fn channel_fire(
    mon: PulseMonitor,
    enabled: bool,
    new_st: AnalyticStatus,
    now: u64,
) -> bool {
    enabled && new_st is Stable && mon.spec_fires(stable_val(new_st), now)
}

/// The classification the channel's analyser reaches on this sample.
pub open spec fn fed_status(a: SamplesAnalytic, now: u64, sample: i64) -> AnalyticStatus {
    status_after(
        a.samples@,
        a.status,
        a.history_size as int,
        a.precision as int,
        a.stabilization_delay,
        now,
        sample,
    )
}

/// The events one connected channel emits for a sample: the reading and its
/// classification, then a query when the monitor armed — a lowering
/// announcement, or a pending notice when a task is already in flight.
pub open spec fn channel_actions(
    mon: PulseMonitor,
    enabled: bool,
    task_busy: bool,
    new_st: AnalyticStatus,
    sample: i64,
    now: u64,
    chan: Channel,
) -> Seq<Action> {
    let sensor = if chan == Channel::Tds {
        seq![Action::Ui(GuiEvent::TdsSensore(sample, new_st))]
    } else {
        seq![Action::Ui(GuiEvent::PhSensore(sample, new_st))]
    };
    sensor + (if channel_fire(mon, enabled, new_st, now) {
        if task_busy {
            seq![
                Action::Ui(
                    GuiEvent::Query(
                        now,
                        if chan == Channel::Tds {
                            QueryMessage::TdsTaskPending
                        } else {
                            QueryMessage::PhTaskPending
                        },
                    ),
                ),
            ]
        } else {
            seq![
                Action::Ui(
                    GuiEvent::Query(
                        now,
                        if chan == Channel::Tds {
                            QueryMessage::LoweringTds
                        } else {
                            QueryMessage::LoweringPh
                        },
                    ),
                ),
            ]
        }
    } else {
        Seq::<Action>::empty()
    })
}

/// The whole transition on a filtered-read reply: cache and diff the status
/// word, clear a channel's window when its probe appears, feed each
/// connected channel's reading to its analyser, arm its own monitor on a
/// stable reading, install at most one pulse task, and forward a
/// temperature reading.
pub open spec fn g1_post(
    pre: SchedulerActor,
    post: SchedulerActor,
    acts: Seq<Action>,
    tds_1: Option<i64>,
    ph_1: Option<i64>,
    t_1: Option<i64>,
    status: Option<Status>,
    now: u64,
) -> bool {
    let st1 = if status is Some {
        status.unwrap()
    } else {
        pre.status
    };
    let tds_cleared = status is Some && status.unwrap().spec_contains(TDS_CONNECTED)
        && !pre.status.spec_contains(TDS_CONNECTED);
    let ph_cleared = status is Some && status.unwrap().spec_contains(PH_CONNECTED)
        && !pre.status.spec_contains(PH_CONNECTED);
    let a_stat = if status is Some {
        status_actions(pre.status, status.unwrap(), now)
    } else {
        Seq::<Action>::empty()
    };
    let tds_samples1 = if tds_cleared {
        Seq::<(u64, i64)>::empty()
    } else {
        pre.tds_1_samples.samples@
    };
    let tds_status1 = if tds_cleared {
        AnalyticStatus::Unknown
    } else {
        pre.tds_1_samples.status
    };
    let ph_samples1 = if ph_cleared {
        Seq::<(u64, i64)>::empty()
    } else {
        pre.ph_1_samples.samples@
    };
    let ph_status1 = if ph_cleared {
        AnalyticStatus::Unknown
    } else {
        pre.ph_1_samples.status
    };
    let tds_fed = st1.spec_contains(TDS_CONNECTED) && tds_1 is Some;
    let tds_new = status_after(
        tds_samples1,
        tds_status1,
        pre.tds_1_samples.history_size as int,
        pre.tds_1_samples.precision as int,
        pre.tds_1_samples.stabilization_delay,
        now,
        tds_1.unwrap(),
    );
    let tds_fire = tds_fed && channel_fire(pre.tds_monitor, pre.ec_monitor_enabled, tds_new, now);
    let task1 = if tds_fire && pre.add_osmosed_water_task is None {
        Some(
            AddOsmoseurWaterTask {
                status: AddOsmoseurWaterStatus::WaitLock,
                duration: pre.tds_monitor.pulse_duration,
                begin: None,
                sent_open: None,
                channel: Channel::Tds,
            },
        )
    } else {
        pre.add_osmosed_water_task
    };
    let a_tds = if tds_fed {
        channel_actions(
            pre.tds_monitor,
            pre.ec_monitor_enabled,
            pre.add_osmosed_water_task is Some,
            tds_new,
            tds_1.unwrap(),
            now,
            Channel::Tds,
        )
    } else {
        Seq::<Action>::empty()
    };
    let ph_fed = st1.spec_contains(PH_CONNECTED) && ph_1 is Some;
    let ph_new = status_after(
        ph_samples1,
        ph_status1,
        pre.ph_1_samples.history_size as int,
        pre.ph_1_samples.precision as int,
        pre.ph_1_samples.stabilization_delay,
        now,
        ph_1.unwrap(),
    );
    let ph_fire = ph_fed && channel_fire(pre.ph_monitor, pre.ph_monitor_enabled, ph_new, now);
    let task2 = if ph_fire && task1 is None {
        Some(
            AddOsmoseurWaterTask {
                status: AddOsmoseurWaterStatus::WaitLock,
                duration: pre.ph_monitor.pulse_duration,
                begin: None,
                sent_open: None,
                channel: Channel::Ph,
            },
        )
    } else {
        task1
    };
    let a_ph = if ph_fed {
        channel_actions(
            pre.ph_monitor,
            pre.ph_monitor_enabled,
            task1 is Some,
            ph_new,
            ph_1.unwrap(),
            now,
            Channel::Ph,
        )
    } else {
        Seq::<Action>::empty()
    };
    let a_temp = if t_1 is Some {
        seq![Action::Ui(GuiEvent::TemperatureSensore(t_1.unwrap()))]
    } else {
        Seq::<Action>::empty()
    };
    &&& post.status == st1
    &&& post.tds_1_samples.samples@ == (if tds_fed {
        window_after(tds_samples1, pre.tds_1_samples.history_size as int, now, tds_1.unwrap())
    } else {
        tds_samples1
    })
    &&& post.tds_1_samples.status == (if tds_fed {
        tds_new
    } else {
        tds_status1
    })
    &&& post.tds_1_samples.history_size == pre.tds_1_samples.history_size
    &&& post.tds_1_samples.precision == pre.tds_1_samples.precision
    &&& post.tds_1_samples.stabilization_delay == pre.tds_1_samples.stabilization_delay
    &&& post.ph_1_samples.samples@ == (if ph_fed {
        window_after(ph_samples1, pre.ph_1_samples.history_size as int, now, ph_1.unwrap())
    } else {
        ph_samples1
    })
    &&& post.ph_1_samples.status == (if ph_fed {
        ph_new
    } else {
        ph_status1
    })
    &&& post.ph_1_samples.history_size == pre.ph_1_samples.history_size
    &&& post.ph_1_samples.precision == pre.ph_1_samples.precision
    &&& post.ph_1_samples.stabilization_delay == pre.ph_1_samples.stabilization_delay
    &&& post.tds_monitor == (if tds_fire {
        pre.tds_monitor.spec_armed(now)
    } else {
        pre.tds_monitor
    })
    &&& post.ph_monitor == (if ph_fire {
        pre.ph_monitor.spec_armed(now)
    } else {
        pre.ph_monitor
    })
    &&& post.add_osmosed_water_task == task2
    &&& post.osmoseur_pump == pre.osmoseur_pump
    &&& post.store == pre.store
    &&& post.ph_monitor_enabled == pre.ph_monitor_enabled
    &&& post.ec_monitor_enabled == pre.ec_monitor_enabled
    &&& acts == a_stat + a_tds + a_ph + a_temp
}

/// A parameter update: the new value in the live monitor or flag, the write
/// through to the settings store, an update log first, and a write-failure
/// log when the store refused.
pub open spec fn set_param_post(
    pre: SchedulerActor,
    post: SchedulerActor,
    acts: Seq<Action>,
    key: Seq<char>,
    enc: Seq<u8>,
    info: Option<LogMessage>,
    now: u64,
) -> bool {
    &&& post.store.records() == pre.store.records()
    &&& (match info {
        Some(m) => {
            &&& acts.len() >= 1
            &&& acts[0] == Action::Ui(GuiEvent::Log(now, m, LogLevel::Info))
            &&& (post.store.settings() == pre.store.settings().insert(key, enc) && acts.len() == 1)
                || (acts.len() == 2 && acts[1] == Action::Ui(
                GuiEvent::Log(now, LogMessage::SettingWriteFailed, LogLevel::Error),
            ))
        },
        None => {
            (post.store.settings() == pre.store.settings().insert(key, enc) && acts
                == Seq::<Action>::empty()) || (acts == seq![
                Action::Ui(GuiEvent::Log(now, LogMessage::SettingWriteFailed, LogLevel::Error)),
            ])
        },
    })
}

/// The whole transition of `handle` on one request.
pub open spec fn handle_post(
    pre: SchedulerActor,
    post: SchedulerActor,
    acts: Seq<Action>,
    msg: SchedulerRequest,
    now: u64,
) -> bool {
    match msg {
        SchedulerRequest::SetTdsThresh { thresh } => {
            &&& post == (SchedulerActor { tds_monitor: post.tds_monitor, store: post.store, ..pre })
            &&& post.tds_monitor == (PulseMonitor { threshold: thresh, ..pre.tds_monitor })
            &&& set_param_post(
                pre,
                post,
                acts,
                SETTING_TDS_1@,
                spec_enc_i64(thresh),
                Some(LogMessage::TdsThresholdUpdated(thresh)),
                now,
            )
        },
        SchedulerRequest::SetOsmoseurPulseDuration { duration } => {
            &&& post == (SchedulerActor { tds_monitor: post.tds_monitor, store: post.store, ..pre })
            &&& post.tds_monitor == (PulseMonitor {
                pulse_duration: duration,
                ..pre.tds_monitor
            })
            &&& set_param_post(
                pre,
                post,
                acts,
                SETTING_OSMOSEUR_PULSE_DURATION@,
                spec_enc_u64(duration),
                Some(LogMessage::OsmoseurPulseDurationUpdated(duration)),
                now,
            )
        },
        SchedulerRequest::SetOsmoseurPulseMinInterval { interval } => {
            &&& post == (SchedulerActor { tds_monitor: post.tds_monitor, store: post.store, ..pre })
            &&& post.tds_monitor == (PulseMonitor {
                pulse_minimum_interval: interval,
                ..pre.tds_monitor
            })
            &&& set_param_post(
                pre,
                post,
                acts,
                SETTING_OSMOSEUR_PULSE_MIN_INTERVAL@,
                spec_enc_u64(interval),
                Some(LogMessage::OsmoseurPulseMinIntervalUpdated(interval)),
                now,
            )
        },
        SchedulerRequest::SetPhThresh { thresh } => {
            &&& post == (SchedulerActor { ph_monitor: post.ph_monitor, store: post.store, ..pre })
            &&& post.ph_monitor == (PulseMonitor { threshold: thresh, ..pre.ph_monitor })
            &&& set_param_post(
                pre,
                post,
                acts,
                SETTING_PH_1@,
                spec_enc_i64(thresh),
                Some(LogMessage::PhThresholdUpdated(thresh)),
                now,
            )
        },
        SchedulerRequest::SetPhPulseDuration { duration } => {
            &&& post == (SchedulerActor { ph_monitor: post.ph_monitor, store: post.store, ..pre })
            &&& post.ph_monitor == (PulseMonitor { pulse_duration: duration, ..pre.ph_monitor })
            &&& set_param_post(
                pre,
                post,
                acts,
                SETTING_PH_PULSE_DURATION@,
                spec_enc_u64(duration),
                Some(LogMessage::PhPulseDurationUpdated(duration)),
                now,
            )
        },
        SchedulerRequest::SetPhPulseMinInterval { interval } => {
            &&& post == (SchedulerActor { ph_monitor: post.ph_monitor, store: post.store, ..pre })
            &&& post.ph_monitor == (PulseMonitor {
                pulse_minimum_interval: interval,
                ..pre.ph_monitor
            })
            &&& set_param_post(
                pre,
                post,
                acts,
                SETTING_PH_PULSE_MIN_INTERVAL@,
                spec_enc_u64(interval),
                Some(LogMessage::PhPulseMinIntervalUpdated(interval)),
                now,
            )
        },
        SchedulerRequest::SetEcMonitorEnabled { enabled } => {
            &&& post == (SchedulerActor {
                ec_monitor_enabled: enabled,
                store: post.store,
                ..pre
            })
            &&& set_param_post(
                pre,
                post,
                acts,
                SETTING_TDS_MONITORING@,
                spec_enc_bool(enabled),
                None,
                now,
            )
        },
        SchedulerRequest::SetPhMonitorEnabled { enabled } => {
            &&& post == (SchedulerActor {
                ph_monitor_enabled: enabled,
                store: post.store,
                ..pre
            })
            &&& set_param_post(
                pre,
                post,
                acts,
                SETTING_PH_MONITORING@,
                spec_enc_bool(enabled),
                None,
                now,
            )
        },
        SchedulerRequest::Serial { result, success } => {
            match result {
                SerialCommandResult::S0 { on } => {
                    if success {
                        &&& post == (SchedulerActor { osmoseur_pump: post.osmoseur_pump, ..pre })
                        &&& post.osmoseur_pump == (PumpHardwareLock {
                            opened: on,
                            ..pre.osmoseur_pump
                        })
                        &&& acts == Seq::<Action>::empty()
                    } else {
                        &&& post == (SchedulerActor { osmoseur_pump: post.osmoseur_pump, ..pre })
                        &&& post.osmoseur_pump.locked == pre.osmoseur_pump.locked
                        &&& post.osmoseur_pump.opened == pre.osmoseur_pump.opened
                        &&& post.osmoseur_pump.poisoned is Some
                        &&& acts == seq![
                            Action::Ui(
                                GuiEvent::Log(now, LogMessage::OsmoseurValvePoisoned, LogLevel::Error),
                            ),
                        ]
                    }
                },
                SerialCommandResult::S1 { .. } => post == pre && acts == Seq::<Action>::empty(),
                SerialCommandResult::G0 { .. } => post == pre && acts == Seq::<Action>::empty(),
                SerialCommandResult::G1 { tds_1, ph_1, t_1, status } => g1_post(
                    pre,
                    post,
                    acts,
                    tds_1,
                    ph_1,
                    t_1,
                    status,
                    now,
                ),
                SerialCommandResult::Unknown { .. } => post == pre && acts == seq![
                    Action::Ui(GuiEvent::Log(now, LogMessage::UnknownReply, LogLevel::Info)),
                ],
            }
        },
    }
}

/// What `handle` asks of a request: readings within the analyser's range.
/// The protocol parser never produces one outside it.
pub open spec fn handle_pre(msg: SchedulerRequest) -> bool {
    match msg {
        SchedulerRequest::Serial {
            result: SerialCommandResult::G1 { tds_1, ph_1, t_1, status },
            ..
        } => {
            &&& (tds_1 matches Some(v) ==> -SAMPLE_LIMIT <= v <= SAMPLE_LIMIT)
            &&& (ph_1 matches Some(v) ==> -SAMPLE_LIMIT <= v <= SAMPLE_LIMIT)
        },
        _ => true,
    }
}

// ---------------------------------------------------------------------------
// The scheduler
// ---------------------------------------------------------------------------

impl SchedulerActor {
    /// Build a scheduler over the store: monitors and enable flags read
    /// from the persisted settings (writing defaults through on first use),
    /// fresh analysers (a window of twenty samples, a ten-second dwell, a
    /// four-unit dead-band for dissolved solids and an exact one for pH),
    /// a free actuator lock and no task in flight.
    pub fn new(store: Store) -> (r: Result<SchedulerActor, StoreError>)
        ensures
            r matches Ok(a) ==> {
                &&& a.wf()
                &&& a.add_osmosed_water_task is None
                &&& !a.osmoseur_pump.locked
                &&& a.osmoseur_pump.opened is None
                &&& a.osmoseur_pump.poisoned is None
                &&& a.status.bits == 0
                &&& a.tds_1_samples.history_size == 20
                &&& a.tds_1_samples.precision == 4
                &&& a.tds_1_samples.stabilization_delay == 10
                &&& a.tds_1_samples.samples@.len() == 0
                &&& a.tds_1_samples.status == AnalyticStatus::Undefined
                &&& a.ph_1_samples.history_size == 20
                &&& a.ph_1_samples.precision == 0
                &&& a.ph_1_samples.stabilization_delay == 10
                &&& a.ph_1_samples.samples@.len() == 0
                &&& a.ph_1_samples.status == AnalyticStatus::Undefined
                &&& a.ph_monitor_enabled == Store::spec_get_bool(
                    store.settings(),
                    SETTING_PH_MONITORING@,
                    false,
                )
                &&& a.ec_monitor_enabled == Store::spec_get_bool(
                    store.settings(),
                    SETTING_TDS_MONITORING@,
                    false,
                )
                &&& a.tds_monitor == (PulseMonitor {
                    threshold: Store::spec_get_i64(store.settings(), SETTING_TDS_1@, 500000),
                    pulse_minimum_interval: Store::spec_get_u64(
                        store.settings(),
                        SETTING_OSMOSEUR_PULSE_MIN_INTERVAL@,
                        240,
                    ),
                    pulse_duration: Store::spec_get_u64(
                        store.settings(),
                        SETTING_OSMOSEUR_PULSE_DURATION@,
                        10,
                    ),
                    last_pulse: 0,
                    suspend: false,
                })
                &&& a.ph_monitor == (PulseMonitor {
                    threshold: Store::spec_get_i64(store.settings(), SETTING_PH_1@, 7000),
                    pulse_minimum_interval: Store::spec_get_u64(
                        store.settings(),
                        SETTING_PH_PULSE_MIN_INTERVAL@,
                        240,
                    ),
                    pulse_duration: Store::spec_get_u64(
                        store.settings(),
                        SETTING_PH_PULSE_DURATION@,
                        10,
                    ),
                    last_pulse: 0,
                    suspend: false,
                })
            },
    {
        proof {
            // the setting keys are pairwise distinct: their lengths differ
            reveal_strlit("tds_monitoring");
            reveal_strlit("ph_monitoring");
            reveal_strlit("tds_1_thresh");
            reveal_strlit("ph_1_thresh");
            reveal_strlit("osmoseur_pulse_duration");
            reveal_strlit("osmoseur_pulse_min_interval");
            reveal_strlit("ph_pulse_duration");
            reveal_strlit("ph_pulse_min_interval");
            assert("tds_monitoring"@.len() == 14);
            assert("ph_monitoring"@.len() == 13);
            assert("tds_1_thresh"@.len() == 12);
            assert("ph_1_thresh"@.len() == 11);
            assert("osmoseur_pulse_duration"@.len() == 23);
            assert("osmoseur_pulse_min_interval"@.len() == 27);
            assert("ph_pulse_duration"@.len() == 17);
            assert("ph_pulse_min_interval"@.len() == 21);
            assert(SETTING_TDS_MONITORING@ == "tds_monitoring"@);
            assert(SETTING_PH_MONITORING@ == "ph_monitoring"@);
            assert(SETTING_TDS_1@ == "tds_1_thresh"@);
            assert(SETTING_PH_1@ == "ph_1_thresh"@);
            assert(SETTING_OSMOSEUR_PULSE_DURATION@ == "osmoseur_pulse_duration"@);
            assert(SETTING_OSMOSEUR_PULSE_MIN_INTERVAL@ == "osmoseur_pulse_min_interval"@);
            assert(SETTING_PH_PULSE_DURATION@ == "ph_pulse_duration"@);
            assert(SETTING_PH_PULSE_MIN_INTERVAL@ == "ph_pulse_min_interval"@);
        }
        let ghost s0 = store.settings();
        let mut store = store;
        let ph_monitor_enabled = match store.get_ph_monitoring() {
            Ok(v) => v,
            Err(e) => {
                return Err(e);
            },
        };
        proof {
            assert(ph_monitor_enabled == Store::spec_get_bool(s0, SETTING_PH_MONITORING@, false));
            assert(Store::spec_get_bool(store.settings(), SETTING_TDS_MONITORING@, false) == Store::spec_get_bool(s0, SETTING_TDS_MONITORING@, false));
            assert(Store::spec_get_i64(store.settings(), SETTING_TDS_1@, 500000) == Store::spec_get_i64(s0, SETTING_TDS_1@, 500000));
            assert(Store::spec_get_u64(store.settings(), SETTING_OSMOSEUR_PULSE_MIN_INTERVAL@, 240) == Store::spec_get_u64(s0, SETTING_OSMOSEUR_PULSE_MIN_INTERVAL@, 240));
            assert(Store::spec_get_u64(store.settings(), SETTING_OSMOSEUR_PULSE_DURATION@, 10) == Store::spec_get_u64(s0, SETTING_OSMOSEUR_PULSE_DURATION@, 10));
            assert(Store::spec_get_i64(store.settings(), SETTING_PH_1@, 7000) == Store::spec_get_i64(s0, SETTING_PH_1@, 7000));
            assert(Store::spec_get_u64(store.settings(), SETTING_PH_PULSE_MIN_INTERVAL@, 240) == Store::spec_get_u64(s0, SETTING_PH_PULSE_MIN_INTERVAL@, 240));
            assert(Store::spec_get_u64(store.settings(), SETTING_PH_PULSE_DURATION@, 10) == Store::spec_get_u64(s0, SETTING_PH_PULSE_DURATION@, 10));
        }
        let ec_monitor_enabled = match store.get_tds_monitoring() {
            Ok(v) => v,
            Err(e) => {
                return Err(e);
            },
        };
        proof {
            assert(ec_monitor_enabled == Store::spec_get_bool(s0, SETTING_TDS_MONITORING@, false));
            assert(Store::spec_get_i64(store.settings(), SETTING_TDS_1@, 500000) == Store::spec_get_i64(s0, SETTING_TDS_1@, 500000));
            assert(Store::spec_get_u64(store.settings(), SETTING_OSMOSEUR_PULSE_MIN_INTERVAL@, 240) == Store::spec_get_u64(s0, SETTING_OSMOSEUR_PULSE_MIN_INTERVAL@, 240));
            assert(Store::spec_get_u64(store.settings(), SETTING_OSMOSEUR_PULSE_DURATION@, 10) == Store::spec_get_u64(s0, SETTING_OSMOSEUR_PULSE_DURATION@, 10));
            assert(Store::spec_get_i64(store.settings(), SETTING_PH_1@, 7000) == Store::spec_get_i64(s0, SETTING_PH_1@, 7000));
            assert(Store::spec_get_u64(store.settings(), SETTING_PH_PULSE_MIN_INTERVAL@, 240) == Store::spec_get_u64(s0, SETTING_PH_PULSE_MIN_INTERVAL@, 240));
            assert(Store::spec_get_u64(store.settings(), SETTING_PH_PULSE_DURATION@, 10) == Store::spec_get_u64(s0, SETTING_PH_PULSE_DURATION@, 10));
        }
        let tds_thresh = match store.get_tds_1_thresh() {
            Ok(v) => v,
            Err(e) => {
                return Err(e);
            },
        };
        proof {
            assert(tds_thresh == Store::spec_get_i64(s0, SETTING_TDS_1@, 500000));
            assert(Store::spec_get_u64(store.settings(), SETTING_OSMOSEUR_PULSE_MIN_INTERVAL@, 240) == Store::spec_get_u64(s0, SETTING_OSMOSEUR_PULSE_MIN_INTERVAL@, 240));
            assert(Store::spec_get_u64(store.settings(), SETTING_OSMOSEUR_PULSE_DURATION@, 10) == Store::spec_get_u64(s0, SETTING_OSMOSEUR_PULSE_DURATION@, 10));
            assert(Store::spec_get_i64(store.settings(), SETTING_PH_1@, 7000) == Store::spec_get_i64(s0, SETTING_PH_1@, 7000));
            assert(Store::spec_get_u64(store.settings(), SETTING_PH_PULSE_MIN_INTERVAL@, 240) == Store::spec_get_u64(s0, SETTING_PH_PULSE_MIN_INTERVAL@, 240));
            assert(Store::spec_get_u64(store.settings(), SETTING_PH_PULSE_DURATION@, 10) == Store::spec_get_u64(s0, SETTING_PH_PULSE_DURATION@, 10));
        }
        let osmo_interval = match store.get_osmoseur_pulse_min_interval() {
            Ok(v) => v,
            Err(e) => {
                return Err(e);
            },
        };
        proof {
            assert(osmo_interval == Store::spec_get_u64(s0, SETTING_OSMOSEUR_PULSE_MIN_INTERVAL@, 240));
            assert(Store::spec_get_u64(store.settings(), SETTING_OSMOSEUR_PULSE_DURATION@, 10) == Store::spec_get_u64(s0, SETTING_OSMOSEUR_PULSE_DURATION@, 10));
            assert(Store::spec_get_i64(store.settings(), SETTING_PH_1@, 7000) == Store::spec_get_i64(s0, SETTING_PH_1@, 7000));
            assert(Store::spec_get_u64(store.settings(), SETTING_PH_PULSE_MIN_INTERVAL@, 240) == Store::spec_get_u64(s0, SETTING_PH_PULSE_MIN_INTERVAL@, 240));
            assert(Store::spec_get_u64(store.settings(), SETTING_PH_PULSE_DURATION@, 10) == Store::spec_get_u64(s0, SETTING_PH_PULSE_DURATION@, 10));
        }
        let osmo_duration = match store.get_osmoseur_pulse_duration() {
            Ok(v) => v,
            Err(e) => {
                return Err(e);
            },
        };
        proof {
            assert(osmo_duration == Store::spec_get_u64(s0, SETTING_OSMOSEUR_PULSE_DURATION@, 10));
            assert(Store::spec_get_i64(store.settings(), SETTING_PH_1@, 7000) == Store::spec_get_i64(s0, SETTING_PH_1@, 7000));
            assert(Store::spec_get_u64(store.settings(), SETTING_PH_PULSE_MIN_INTERVAL@, 240) == Store::spec_get_u64(s0, SETTING_PH_PULSE_MIN_INTERVAL@, 240));
            assert(Store::spec_get_u64(store.settings(), SETTING_PH_PULSE_DURATION@, 10) == Store::spec_get_u64(s0, SETTING_PH_PULSE_DURATION@, 10));
        }
        let ph_thresh = match store.get_ph_1_thresh() {
            Ok(v) => v,
            Err(e) => {
                return Err(e);
            },
        };
        proof {
            assert(ph_thresh == Store::spec_get_i64(s0, SETTING_PH_1@, 7000));
            assert(Store::spec_get_u64(store.settings(), SETTING_PH_PULSE_MIN_INTERVAL@, 240) == Store::spec_get_u64(s0, SETTING_PH_PULSE_MIN_INTERVAL@, 240));
            assert(Store::spec_get_u64(store.settings(), SETTING_PH_PULSE_DURATION@, 10) == Store::spec_get_u64(s0, SETTING_PH_PULSE_DURATION@, 10));
        }
        let ph_interval = match store.get_ph_pulse_min_interval() {
            Ok(v) => v,
            Err(e) => {
                return Err(e);
            },
        };
        proof {
            assert(ph_interval == Store::spec_get_u64(s0, SETTING_PH_PULSE_MIN_INTERVAL@, 240));
            assert(Store::spec_get_u64(store.settings(), SETTING_PH_PULSE_DURATION@, 10) == Store::spec_get_u64(s0, SETTING_PH_PULSE_DURATION@, 10));
        }
        let ph_duration = match store.get_ph_pulse_duration() {
            Ok(v) => v,
            Err(e) => {
                return Err(e);
            },
        };
        proof {
            assert(ph_duration == Store::spec_get_u64(s0, SETTING_PH_PULSE_DURATION@, 10));
        }
        Ok(
            SchedulerActor {
                ph_monitor_enabled,
                ec_monitor_enabled,
                status: Status::none(),
                tds_monitor: PulseMonitor::new(tds_thresh, osmo_interval, osmo_duration),
                tds_1_samples: SamplesAnalytic::new(20, 4, 10),
                ph_monitor: PulseMonitor::new(ph_thresh, ph_interval, ph_duration),
                ph_1_samples: SamplesAnalytic::new(20, 0, 10),
                store,
                osmoseur_pump: PumpHardwareLock::new(),
                add_osmosed_water_task: None,
            },
        )
    }

    /// The periodic poll tick: ask the board for filtered readings.
    pub fn poll_tick(&self) -> (acts: Vec<Action>)
        ensures
            acts@ == seq![Action::Send(SerialCommand::G1)],
    {
        let mut acts: Vec<Action> = Vec::new();
        acts.push(Action::Send(SerialCommand::G1));
        proof {
            assert(acts@ =~= seq![Action::Send(SerialCommand::G1)]);
        }
        acts
    }

    /// Apply one status word: diff it against the cached one, log probe
    /// connects and disconnects, clear a channel's window when its probe
    /// appears, cache it, and forward it to the UI.
    fn apply_status(&mut self, st: Status, now: u64) -> (acts: Vec<Action>)
        requires
            old(self).wf(),
        ensures
            final(self).wf(),
            final(self).status == st,
            final(self).tds_1_samples.samples@ == (if st.spec_contains(TDS_CONNECTED) && !old(
                self,
            ).status.spec_contains(TDS_CONNECTED) {
                Seq::<(u64, i64)>::empty()
            } else {
                old(self).tds_1_samples.samples@
            }),
            final(self).tds_1_samples.status == (if st.spec_contains(TDS_CONNECTED) && !old(
                self,
            ).status.spec_contains(TDS_CONNECTED) {
                AnalyticStatus::Unknown
            } else {
                old(self).tds_1_samples.status
            }),
            final(self).ph_1_samples.samples@ == (if st.spec_contains(PH_CONNECTED) && !old(
                self,
            ).status.spec_contains(PH_CONNECTED) {
                Seq::<(u64, i64)>::empty()
            } else {
                old(self).ph_1_samples.samples@
            }),
            final(self).ph_1_samples.status == (if st.spec_contains(PH_CONNECTED) && !old(
                self,
            ).status.spec_contains(PH_CONNECTED) {
                AnalyticStatus::Unknown
            } else {
                old(self).ph_1_samples.status
            }),
            final(self).tds_1_samples.history_size == old(self).tds_1_samples.history_size,
            final(self).tds_1_samples.precision == old(self).tds_1_samples.precision,
            final(self).tds_1_samples.stabilization_delay == old(
                self,
            ).tds_1_samples.stabilization_delay,
            final(self).ph_1_samples.history_size == old(self).ph_1_samples.history_size,
            final(self).ph_1_samples.precision == old(self).ph_1_samples.precision,
            final(self).ph_1_samples.stabilization_delay == old(
                self,
            ).ph_1_samples.stabilization_delay,
            *final(self) == (SchedulerActor {
                status: st,
                tds_1_samples: final(self).tds_1_samples,
                ph_1_samples: final(self).ph_1_samples,
                ..*old(self)
            }),
            acts@ == status_actions(old(self).status, st, now),
    {
        let mut acts: Vec<Action> = Vec::new();
        if st.contains(TDS_CONNECTED) && !self.status.contains(TDS_CONNECTED) {
            acts.push(Action::Ui(GuiEvent::Log(now, LogMessage::TdsProbeConnected, LogLevel::Info)));
            self.tds_1_samples.clear();
        } else if !st.contains(TDS_CONNECTED) && self.status.contains(TDS_CONNECTED) {
            acts.push(
                Action::Ui(GuiEvent::Log(now, LogMessage::TdsProbeDisconnected, LogLevel::Warn)),
            );
        }
        if st.contains(PH_CONNECTED) && !self.status.contains(PH_CONNECTED) {
            acts.push(Action::Ui(GuiEvent::Log(now, LogMessage::PhProbeConnected, LogLevel::Info)));
            self.ph_1_samples.clear();
        } else if !st.contains(PH_CONNECTED) && self.status.contains(PH_CONNECTED) {
            acts.push(
                Action::Ui(GuiEvent::Log(now, LogMessage::PhProbeDisconnected, LogLevel::Warn)),
            );
        }
        self.status = st;
        acts.push(Action::Ui(GuiEvent::Status(st)));
        proof {
            assert(acts@ =~= status_actions(old(self).status, st, now));
        }
        acts
    }

    /// Feed one connected channel's reading: classify it, forward it, and
    /// when the new state is stable and the channel is monitored, ask the
    /// channel's monitor whether to pulse; install a task when one is due
    /// and none is in flight, otherwise announce that one is pending.
    fn process_channel(&mut self, chan: Channel, sample: i64, now: u64) -> (acts: Vec<Action>)
        requires
            old(self).wf(),
            -SAMPLE_LIMIT <= sample <= SAMPLE_LIMIT,
        ensures
            final(self).wf(),
            ({
                let a = if chan == Channel::Tds {
                    old(self).tds_1_samples
                } else {
                    old(self).ph_1_samples
                };
                let mon = if chan == Channel::Tds {
                    old(self).tds_monitor
                } else {
                    old(self).ph_monitor
                };
                let enabled = if chan == Channel::Tds {
                    old(self).ec_monitor_enabled
                } else {
                    old(self).ph_monitor_enabled
                };
                let new_st = fed_status(a, now, sample);
                let fire = channel_fire(mon, enabled, new_st, now);
                let fed = if chan == Channel::Tds {
                    final(self).tds_1_samples
                } else {
                    final(self).ph_1_samples
                };
                let mon_post = if chan == Channel::Tds {
                    final(self).tds_monitor
                } else {
                    final(self).ph_monitor
                };
                &&& fed.samples@ == window_after(a.samples@, a.history_size as int, now, sample)
                &&& fed.status == new_st
                &&& fed.history_size == a.history_size
                &&& fed.precision == a.precision
                &&& fed.stabilization_delay == a.stabilization_delay
                &&& mon_post == (if fire {
                    mon.spec_armed(now)
                } else {
                    mon
                })
                &&& final(self).add_osmosed_water_task == (if fire && old(
                    self,
                ).add_osmosed_water_task is None {
                    Some(
                        AddOsmoseurWaterTask {
                            status: AddOsmoseurWaterStatus::WaitLock,
                            duration: mon.pulse_duration,
                            begin: None,
                            sent_open: None,
                            channel: chan,
                        },
                    )
                } else {
                    old(self).add_osmosed_water_task
                })
                &&& acts@ == channel_actions(
                    mon,
                    enabled,
                    old(self).add_osmosed_water_task is Some,
                    new_st,
                    sample,
                    now,
                    chan,
                )
                &&& (if chan == Channel::Tds {
                    *final(self) == (SchedulerActor {
                        tds_1_samples: final(self).tds_1_samples,
                        tds_monitor: final(self).tds_monitor,
                        add_osmosed_water_task: final(self).add_osmosed_water_task,
                        ..*old(self)
                    })
                } else {
                    *final(self) == (SchedulerActor {
                        ph_1_samples: final(self).ph_1_samples,
                        ph_monitor: final(self).ph_monitor,
                        add_osmosed_water_task: final(self).add_osmosed_water_task,
                        ..*old(self)
                    })
                })
            }),
    {
        let mut acts: Vec<Action> = Vec::new();
        let new_st = match chan {
            Channel::Tds => {
                let _changed = self.tds_1_samples.sample(now, sample);
                self.tds_1_samples.status
            },
            Channel::Ph => {
                let _changed = self.ph_1_samples.sample(now, sample);
                self.ph_1_samples.status
            },
        };
        match chan {
            Channel::Tds => acts.push(Action::Ui(GuiEvent::TdsSensore(sample, new_st))),
            Channel::Ph => acts.push(Action::Ui(GuiEvent::PhSensore(sample, new_st))),
        }
        let enabled = match chan {
            Channel::Tds => self.ec_monitor_enabled,
            Channel::Ph => self.ph_monitor_enabled,
        };
        if let AnalyticStatus::Stable(current) = new_st {
            if enabled {
                let fired = match chan {
                    Channel::Tds => self.tds_monitor.update(current, now),
                    Channel::Ph => self.ph_monitor.update(current, now),
                };
                if let Some(duration) = fired {
                    if self.add_osmosed_water_task.is_some() {
                        acts.push(
                            Action::Ui(
                                GuiEvent::Query(
                                    now,
                                    match chan {
                                        Channel::Tds => QueryMessage::TdsTaskPending,
                                        Channel::Ph => QueryMessage::PhTaskPending,
                                    },
                                ),
                            ),
                        );
                    } else {
                        self.add_osmosed_water_task = Some(
                            AddOsmoseurWaterTask::new(duration, chan),
                        );
                        acts.push(
                            Action::Ui(
                                GuiEvent::Query(
                                    now,
                                    match chan {
                                        Channel::Tds => QueryMessage::LoweringTds,
                                        Channel::Ph => QueryMessage::LoweringPh,
                                    },
                                ),
                            ),
                        );
                    }
                }
            }
        }
        proof {
            let a = if chan == Channel::Tds {
                old(self).tds_1_samples
            } else {
                old(self).ph_1_samples
            };
            let mon = if chan == Channel::Tds {
                old(self).tds_monitor
            } else {
                old(self).ph_monitor
            };
            let en = if chan == Channel::Tds {
                old(self).ec_monitor_enabled
            } else {
                old(self).ph_monitor_enabled
            };
            assert(acts@ =~= channel_actions(
                mon,
                en,
                old(self).add_osmosed_water_task is Some,
                fed_status(a, now, sample),
                sample,
                now,
                chan,
            ));
        }
        acts
    }

    /// One parameter write: push the update log, write through to the
    /// store, and log a write failure.
    fn log_and_store(
        &mut self,
        acts: &mut Vec<Action>,
        wrote: Result<(), StoreError>,
        now: u64,
    ) -> (r: bool)
        ensures
            *final(self) == *old(self),
            r == wrote is Ok,
            final(acts)@ == (if wrote is Ok {
                old(acts)@
            } else {
                old(acts)@.push(
                    Action::Ui(GuiEvent::Log(now, LogMessage::SettingWriteFailed, LogLevel::Error)),
                )
            }),
    {
        match wrote {
            Ok(_) => true,
            Err(_) => {
                acts.push(
                    Action::Ui(GuiEvent::Log(now, LogMessage::SettingWriteFailed, LogLevel::Error)),
                );
                false
            },
        }
    }

    fn on_set_tds_thresh(&mut self, thresh: i64, now: u64) -> (acts: Vec<Action>)
        requires
            old(self).wf(),
        ensures
            final(self).wf(),
            handle_post(
                *old(self),
                *final(self),
                acts@,
                SchedulerRequest::SetTdsThresh { thresh },
                now,
            ),
    {
        let mut acts: Vec<Action> = Vec::new();
        acts.push(
            Action::Ui(GuiEvent::Log(now, LogMessage::TdsThresholdUpdated(thresh), LogLevel::Info)),
        );
        let w = self.store.set_tds_1_thresh(thresh);
        self.log_and_store(&mut acts, w, now);
        self.tds_monitor.threshold = thresh;
        acts
    }

    fn on_set_osmoseur_pulse_duration(&mut self, duration: u64, now: u64) -> (acts: Vec<Action>)
        requires
            old(self).wf(),
        ensures
            final(self).wf(),
            handle_post(
                *old(self),
                *final(self),
                acts@,
                SchedulerRequest::SetOsmoseurPulseDuration { duration },
                now,
            ),
    {
        let mut acts: Vec<Action> = Vec::new();
        acts.push(
            Action::Ui(
                GuiEvent::Log(now, LogMessage::OsmoseurPulseDurationUpdated(duration), LogLevel::Info),
            ),
        );
        let w = self.store.set_osmoseur_pulse_duration(duration);
        self.log_and_store(&mut acts, w, now);
        self.tds_monitor.pulse_duration = duration;
        acts
    }

    fn on_set_osmoseur_pulse_min_interval(&mut self, interval: u64, now: u64) -> (acts: Vec<
        Action,
    >)
        requires
            old(self).wf(),
        ensures
            final(self).wf(),
            handle_post(
                *old(self),
                *final(self),
                acts@,
                SchedulerRequest::SetOsmoseurPulseMinInterval { interval },
                now,
            ),
    {
        let mut acts: Vec<Action> = Vec::new();
        acts.push(
            Action::Ui(
                GuiEvent::Log(
                    now,
                    LogMessage::OsmoseurPulseMinIntervalUpdated(interval),
                    LogLevel::Info,
                ),
            ),
        );
        let w = self.store.set_osmoseur_pulse_min_interval(interval);
        self.log_and_store(&mut acts, w, now);
        self.tds_monitor.pulse_minimum_interval = interval;
        acts
    }

    fn on_set_ph_thresh(&mut self, thresh: i64, now: u64) -> (acts: Vec<Action>)
        requires
            old(self).wf(),
        ensures
            final(self).wf(),
            handle_post(
                *old(self),
                *final(self),
                acts@,
                SchedulerRequest::SetPhThresh { thresh },
                now,
            ),
    {
        let mut acts: Vec<Action> = Vec::new();
        acts.push(
            Action::Ui(GuiEvent::Log(now, LogMessage::PhThresholdUpdated(thresh), LogLevel::Info)),
        );
        let w = self.store.set_ph_1_thresh(thresh);
        self.log_and_store(&mut acts, w, now);
        self.ph_monitor.threshold = thresh;
        acts
    }

    fn on_set_ph_pulse_duration(&mut self, duration: u64, now: u64) -> (acts: Vec<Action>)
        requires
            old(self).wf(),
        ensures
            final(self).wf(),
            handle_post(
                *old(self),
                *final(self),
                acts@,
                SchedulerRequest::SetPhPulseDuration { duration },
                now,
            ),
    {
        let mut acts: Vec<Action> = Vec::new();
        acts.push(
            Action::Ui(
                GuiEvent::Log(now, LogMessage::PhPulseDurationUpdated(duration), LogLevel::Info),
            ),
        );
        let w = self.store.set_ph_pulse_duration(duration);
        self.log_and_store(&mut acts, w, now);
        self.ph_monitor.pulse_duration = duration;
        acts
    }

    fn on_set_ph_pulse_min_interval(&mut self, interval: u64, now: u64) -> (acts: Vec<Action>)
        requires
            old(self).wf(),
        ensures
            final(self).wf(),
            handle_post(
                *old(self),
                *final(self),
                acts@,
                SchedulerRequest::SetPhPulseMinInterval { interval },
                now,
            ),
    {
        let mut acts: Vec<Action> = Vec::new();
        acts.push(
            Action::Ui(
                GuiEvent::Log(now, LogMessage::PhPulseMinIntervalUpdated(interval), LogLevel::Info),
            ),
        );
        let w = self.store.set_ph_pulse_min_interval(interval);
        self.log_and_store(&mut acts, w, now);
        self.ph_monitor.pulse_minimum_interval = interval;
        acts
    }

    fn on_set_ec_monitor_enabled(&mut self, enabled: bool, now: u64) -> (acts: Vec<Action>)
        requires
            old(self).wf(),
        ensures
            final(self).wf(),
            handle_post(
                *old(self),
                *final(self),
                acts@,
                SchedulerRequest::SetEcMonitorEnabled { enabled },
                now,
            ),
    {
        let mut acts: Vec<Action> = Vec::new();
        self.ec_monitor_enabled = enabled;
        let w = self.store.set_tds_monitoring(enabled);
        self.log_and_store(&mut acts, w, now);
        proof {
            if w is Err {
                assert(acts@ =~= seq![
                    Action::Ui(GuiEvent::Log(now, LogMessage::SettingWriteFailed, LogLevel::Error)),
                ]);
            }
        }
        acts
    }

    fn on_set_ph_monitor_enabled(&mut self, enabled: bool, now: u64) -> (acts: Vec<Action>)
        requires
            old(self).wf(),
        ensures
            final(self).wf(),
            handle_post(
                *old(self),
                *final(self),
                acts@,
                SchedulerRequest::SetPhMonitorEnabled { enabled },
                now,
            ),
    {
        let mut acts: Vec<Action> = Vec::new();
        self.ph_monitor_enabled = enabled;
        let w = self.store.set_ph_monitoring(enabled);
        self.log_and_store(&mut acts, w, now);
        proof {
            if w is Err {
                assert(acts@ =~= seq![
                    Action::Ui(GuiEvent::Log(now, LogMessage::SettingWriteFailed, LogLevel::Error)),
                ]);
            }
        }
        acts
    }

    /// Handle one filtered-read reply.
    #[verifier::rlimit(60)]
    #[verifier::spinoff_prover]
    fn on_g1(
        &mut self,
        tds_1: Option<i64>,
        ph_1: Option<i64>,
        t_1: Option<i64>,
        status: Option<Status>,
        now: u64,
    ) -> (acts: Vec<Action>)
        requires
            old(self).wf(),
            tds_1 matches Some(v) ==> -SAMPLE_LIMIT <= v <= SAMPLE_LIMIT,
            ph_1 matches Some(v) ==> -SAMPLE_LIMIT <= v <= SAMPLE_LIMIT,
        ensures
            final(self).wf(),
            g1_post(*old(self), *final(self), acts@, tds_1, ph_1, t_1, status, now),
    {
        let ghost pre = *old(self);
        let mut acts: Vec<Action> = Vec::new();
        if let Some(st) = status {
            let mut a = self.apply_status(st, now);
            acts.append(&mut a);
        }
        let ghost m1 = *self;
        let ghost acts1 = acts@;
        if self.status.contains(TDS_CONNECTED) {
            if let Some(sample) = tds_1 {
                let mut a = self.process_channel(Channel::Tds, sample, now);
                acts.append(&mut a);
            }
        }
        let ghost m2 = *self;
        let ghost acts2 = acts@;
        if self.status.contains(PH_CONNECTED) {
            if let Some(sample) = ph_1 {
                let mut a = self.process_channel(Channel::Ph, sample, now);
                acts.append(&mut a);
            }
        }
        let ghost acts3 = acts@;
        if let Some(temp) = t_1 {
            acts.push(Action::Ui(GuiEvent::TemperatureSensore(temp)));
        }
        proof {
            let st1 = if status is Some {
                status.unwrap()
            } else {
                pre.status
            };
            let a_stat = if status is Some {
                status_actions(pre.status, status.unwrap(), now)
            } else {
                Seq::<Action>::empty()
            };
            assert(acts1 =~= a_stat);
            assert(m1.status == st1);
            let tds_fed = st1.spec_contains(TDS_CONNECTED) && tds_1 is Some;
            let ph_fed = st1.spec_contains(PH_CONNECTED) && ph_1 is Some;
            let a_tds = if tds_fed {
                channel_actions(
                    pre.tds_monitor,
                    pre.ec_monitor_enabled,
                    pre.add_osmosed_water_task is Some,
                    fed_status(m1.tds_1_samples, now, tds_1.unwrap()),
                    tds_1.unwrap(),
                    now,
                    Channel::Tds,
                )
            } else {
                Seq::<Action>::empty()
            };
            assert(acts2 =~= acts1 + a_tds);
            let a_ph = if ph_fed {
                channel_actions(
                    pre.ph_monitor,
                    pre.ph_monitor_enabled,
                    m2.add_osmosed_water_task is Some,
                    fed_status(m2.ph_1_samples, now, ph_1.unwrap()),
                    ph_1.unwrap(),
                    now,
                    Channel::Ph,
                )
            } else {
                Seq::<Action>::empty()
            };
            assert(acts3 =~= acts2 + a_ph);
            let a_temp = if t_1 is Some {
                seq![Action::Ui(GuiEvent::TemperatureSensore(t_1.unwrap()))]
            } else {
                Seq::<Action>::empty()
            };
            assert(acts@ =~= a_stat + a_tds + a_ph + a_temp);
            assert(g1_post(pre, *self, acts@, tds_1, ph_1, t_1, status, now));
        }
        acts
    }

    /// Process one request at second `now` and return the actions to
    /// perform, in order.
    pub fn handle(&mut self, msg: SchedulerRequest, now: u64) -> (acts: Vec<Action>)
        requires
            old(self).wf(),
            handle_pre(msg),
        ensures
            final(self).wf(),
            handle_post(*old(self), *final(self), acts@, msg, now),
    {
        match msg {
            SchedulerRequest::SetTdsThresh { thresh } => self.on_set_tds_thresh(thresh, now),
            SchedulerRequest::SetOsmoseurPulseDuration { duration } => self
                .on_set_osmoseur_pulse_duration(duration, now),
            SchedulerRequest::SetOsmoseurPulseMinInterval { interval } => self
                .on_set_osmoseur_pulse_min_interval(interval, now),
            SchedulerRequest::SetPhThresh { thresh } => self.on_set_ph_thresh(thresh, now),
            SchedulerRequest::SetPhPulseDuration { duration } => self.on_set_ph_pulse_duration(
                duration,
                now,
            ),
            SchedulerRequest::SetPhPulseMinInterval { interval } => self
                .on_set_ph_pulse_min_interval(interval, now),
            SchedulerRequest::SetEcMonitorEnabled { enabled } => self.on_set_ec_monitor_enabled(
                enabled,
                now,
            ),
            SchedulerRequest::SetPhMonitorEnabled { enabled } => self.on_set_ph_monitor_enabled(
                enabled,
                now,
            ),
            SchedulerRequest::Serial { result, success } => match result {
                SerialCommandResult::S0 { on } => {
                    let mut acts: Vec<Action> = Vec::new();
                    if success {
                        self.osmoseur_pump.opened = on;
                    } else {
                        self.osmoseur_pump.poisoned = Some(HardwareError("osmosis valve halted"));
                        acts.push(
                            Action::Ui(
                                GuiEvent::Log(now, LogMessage::OsmoseurValvePoisoned, LogLevel::Error),
                            ),
                        );
                        proof {
                            assert(acts@ =~= seq![
                                Action::Ui(
                                    GuiEvent::Log(
                                        now,
                                        LogMessage::OsmoseurValvePoisoned,
                                        LogLevel::Error,
                                    ),
                                ),
                            ]);
                        }
                    }
                    acts
                },
                SerialCommandResult::S1 { .. } => Vec::new(),
                SerialCommandResult::G0 { .. } => Vec::new(),
                SerialCommandResult::G1 { tds_1, ph_1, t_1, status } => self.on_g1(
                    tds_1,
                    ph_1,
                    t_1,
                    status,
                    now,
                ),
                SerialCommandResult::Unknown { .. } => {
                    let mut acts: Vec<Action> = Vec::new();
                    acts.push(
                        Action::Ui(GuiEvent::Log(now, LogMessage::UnknownReply, LogLevel::Info)),
                    );
                    proof {
                        assert(acts@ =~= seq![
                            Action::Ui(GuiEvent::Log(now, LogMessage::UnknownReply, LogLevel::Info)),
                        ]);
                    }
                    acts
                },
            },
        }
    }

}

} // verus!
