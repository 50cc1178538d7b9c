//! Events the scheduler surfaces to the terminal UI, and the UI's own
//! widget state. Rendering is not part of this crate; a front end maps
//! these events and states onto a screen.
//!
//! Log and query messages are enumerated rather than preformatted strings,
//! so their routing can be stated exactly; a front end formats them.

use vstd::prelude::*;

pub mod widgets;

verus! {

#[derive(Clone, Copy, Debug, PartialEq, Eq, Structural)]
pub enum LogLevel {
    Info,
    Error,
    Warn,
}

/// What a log line says.
#[derive(Clone, Copy, Debug, PartialEq, Eq, Structural)]
pub enum LogMessage {
    TdsProbeConnected,
    TdsProbeDisconnected,
    PhProbeConnected,
    PhProbeDisconnected,
    TdsThresholdUpdated(i64),
    OsmoseurPulseDurationUpdated(u64),
    OsmoseurPulseMinIntervalUpdated(u64),
    PhThresholdUpdated(i64),
    PhPulseDurationUpdated(u64),
    PhPulseMinIntervalUpdated(u64),
    SettingWriteFailed,
    UnknownReply,
    OsmoseurValvePoisoned,
    OsmoseurValveOpened,
    OsmoseurValveWaitOpen,
    OsmoseurValveOpenFailed,
    OsmoseurValveWaitClose,
    OsmoseurValveClosed,
}

/// What an operator query line says.
#[derive(Clone, Copy, Debug, PartialEq, Eq, Structural)]
pub enum QueryMessage {
    LoweringTds,
    TdsTaskPending,
    LoweringPh,
    PhTaskPending,
}

/// One event posted to the UI. Values are fixed-point thousandths; times
/// are whole seconds since the Unix epoch.
#[derive(Clone, Copy, Debug, PartialEq, Eq, Structural)]
pub enum GuiEvent {
    Log(u64, LogMessage, LogLevel),
    Query(u64, QueryMessage),
    TdsSensore(i64, crate::analyser::AnalyticStatus),
    PhSensore(i64, crate::analyser::AnalyticStatus),
    TemperatureSensore(i64),
    Status(crate::codec::Status),
}

// ---------------------------------------------------------------------------
// UI state fed by the scheduler's events
// ---------------------------------------------------------------------------

/// Most recent chart samples kept per probe channel.
pub const MAX_TDS_SAMPLES: usize = 256;

pub const MAX_PH_SAMPLES: usize = 256;

/// Most recent log and query lines kept.
pub const MAX_LOG: usize = 256;

/// Append to a bounded buffer: the oldest entry leaves once the cap is
/// exceeded.
pub open spec fn push_capped<T>(s: Seq<T>, x: T, cap: int) -> Seq<T> {
    let p = s.push(x);
    if p.len() > cap {
        p.subrange(1, p.len() as int)
    } else {
        p
    }
}

/// What the front end shows: the latest readings and classifications, the
/// cached status word, bounded sample charts, and bounded log and query
/// panes. A front end draws it; the scheduler's events drive it.
pub struct App {
    pub selected_setting_categorie: widgets::SettingCategorie,
    pub focused: bool,
    pub status: crate::codec::Status,
    pub tds: i64,
    pub tds_status: crate::analyser::AnalyticStatus,
    pub ph_status: crate::analyser::AnalyticStatus,
    pub tds_buffer_trunc: Vec<(u64, i64)>,
    pub ph: i64,
    pub ph_buffer_trunc: Vec<(u64, i64)>,
    pub temperature: i64,
    pub logs: Vec<(u64, LogMessage, LogLevel)>,
    pub queries: Vec<(u64, QueryMessage)>,
}

impl App {
    pub fn new() -> (r: App)
        ensures
            r.selected_setting_categorie == widgets::SettingCategorie::General,
            !r.focused,
            r.status.bits == 0,
            r.tds == 0,
            r.ph == 0,
            r.temperature == 0,
            r.tds_status == crate::analyser::AnalyticStatus::Undefined,
            r.ph_status == crate::analyser::AnalyticStatus::Undefined,
            r.tds_buffer_trunc@.len() == 0,
            r.ph_buffer_trunc@.len() == 0,
            r.logs@.len() == 0,
            r.queries@.len() == 0,
    {
        App {
            selected_setting_categorie: widgets::SettingCategorie::General,
            focused: false,
            status: crate::codec::Status::none(),
            tds: 0,
            tds_status: crate::analyser::AnalyticStatus::Undefined,
            ph_status: crate::analyser::AnalyticStatus::Undefined,
            ph: 0,
            temperature: 0,
            tds_buffer_trunc: Vec::new(),
            ph_buffer_trunc: Vec::new(),
            logs: Vec::new(),
            queries: Vec::new(),
        }
    }

    /// Fold one scheduler event into the shown state: cache readings and
    /// the status word, and append to the bounded chart, log and query
    /// buffers, dropping their oldest entries past the caps.
    pub fn apply(&mut self, event: GuiEvent, now: u64)
        ensures
            final(self).selected_setting_categorie == old(self).selected_setting_categorie,
            final(self).focused == old(self).focused,
            (match event {
                GuiEvent::Status(st) => *final(self) == (App { status: st, ..*old(self) }),
                GuiEvent::TdsSensore(v, st) => {
                    &&& *final(self) == (App {
                        tds: v,
                        tds_status: st,
                        tds_buffer_trunc: final(self).tds_buffer_trunc,
                        ..*old(self)
                    })
                    &&& final(self).tds_buffer_trunc@ == push_capped(
                        old(self).tds_buffer_trunc@,
                        (now, v),
                        MAX_TDS_SAMPLES as int,
                    )
                },
                GuiEvent::PhSensore(v, st) => {
                    &&& *final(self) == (App {
                        ph: v,
                        ph_status: st,
                        ph_buffer_trunc: final(self).ph_buffer_trunc,
                        ..*old(self)
                    })
                    &&& final(self).ph_buffer_trunc@ == push_capped(
                        old(self).ph_buffer_trunc@,
                        (now, v),
                        MAX_PH_SAMPLES as int,
                    )
                },
                GuiEvent::TemperatureSensore(v) => *final(self) == (App {
                    temperature: v,
                    ..*old(self)
                }),
                GuiEvent::Log(t, msg, level) => {
                    &&& *final(self) == (App { logs: final(self).logs, ..*old(self) })
                    &&& final(self).logs@ == push_capped(
                        old(self).logs@,
                        (t, msg, level),
                        MAX_LOG as int,
                    )
                },
                GuiEvent::Query(t, msg) => {
                    &&& *final(self) == (App { queries: final(self).queries, ..*old(self) })
                    &&& final(self).queries@ == push_capped(
                        old(self).queries@,
                        (t, msg),
                        MAX_LOG as int,
                    )
                },
            }),
    {
        match event {
            GuiEvent::Status(st) => {
                self.status = st;
            },
            GuiEvent::TdsSensore(v, st) => {
                self.tds_buffer_trunc.push((now, v));
                if self.tds_buffer_trunc.len() > MAX_TDS_SAMPLES {
                    self.tds_buffer_trunc.remove(0);
                    proof {
                        assert(self.tds_buffer_trunc@ =~= push_capped(
                            old(self).tds_buffer_trunc@,
                            (now, v),
                            MAX_TDS_SAMPLES as int,
                        ));
                    }
                }
                self.tds = v;
                self.tds_status = st;
            },
            GuiEvent::PhSensore(v, st) => {
                self.ph_buffer_trunc.push((now, v));
                if self.ph_buffer_trunc.len() > MAX_PH_SAMPLES {
                    self.ph_buffer_trunc.remove(0);
                    proof {
                        assert(self.ph_buffer_trunc@ =~= push_capped(
                            old(self).ph_buffer_trunc@,
                            (now, v),
                            MAX_PH_SAMPLES as int,
                        ));
                    }
                }
                self.ph = v;
                self.ph_status = st;
            },
            GuiEvent::TemperatureSensore(v) => {
                self.temperature = v;
            },
            GuiEvent::Log(t, msg, level) => {
                self.logs.push((t, msg, level));
                if self.logs.len() > MAX_LOG {
                    self.logs.remove(0);
                    proof {
                        assert(self.logs@ =~= push_capped(
                            old(self).logs@,
                            (t, msg, level),
                            MAX_LOG as int,
                        ));
                    }
                }
            },
            GuiEvent::Query(t, msg) => {
                self.queries.push((t, msg));
                if self.queries.len() > MAX_LOG {
                    self.queries.remove(0);
                    proof {
                        assert(self.queries@ =~= push_capped(
                            old(self).queries@,
                            (t, msg),
                            MAX_LOG as int,
                        ));
                    }
                }
            },
        }
    }
}

} // verus!
