//! State of the terminal UI's widgets: selection, parameter editing, and
//! the table mapping each editable parameter to the scheduler request that
//! commits it. Drawing is left to a front end that reads this state.

use vstd::prelude::*;
use crate::scheduler::SchedulerRequest;
use crate::store::{Store, StoreError};

verus! {

/// A key press as the widgets understand it.
#[derive(Clone, Copy, Debug, PartialEq, Eq, Structural)]
pub enum UiKey {
    Up,
    Down,
    Insert,
    Refresh,
    Other,
}

/// The value a parameter widget edits. Floats of the original units are
/// carried as fixed-point thousandths.
#[derive(Clone, Copy, Debug, PartialEq, Eq, Structural)]
pub enum ParamKind {
    Boolean(bool),
    Float(i64),
    Int(i64),
    Duration(u64),
}

impl ParamKind {
    /// The fixed-point value of a `Float` parameter.
    pub fn float(self) -> (r: i64)
        requires
            self is Float,
        ensures
            self == ParamKind::Float(r),
    {
        match self {
            ParamKind::Float(f) => f,
            _ => 0,
        }
    }

    /// Replace the value of a `Float` parameter.
    pub fn float_mut(&mut self, value: i64)
        requires
            *old(self) is Float,
        ensures
            *final(self) == ParamKind::Float(value),
    {
        *self = ParamKind::Float(value);
    }

    /// The seconds of a `Duration` parameter.
    pub fn duration(self) -> (r: u64)
        requires
            self is Duration,
        ensures
            self == ParamKind::Duration(r),
    {
        match self {
            ParamKind::Duration(d) => d,
            _ => 0,
        }
    }

    /// The value of a `Boolean` parameter.
    pub fn bool(self) -> (r: bool)
        requires
            self is Boolean,
        ensures
            self == ParamKind::Boolean(r),
    {
        match self {
            ParamKind::Boolean(b) => b,
            _ => false,
        }
    }
}

#[derive(Clone, Copy, Debug, PartialEq, Eq, Structural)]
pub enum ParamStatus {
    Idle,
    Selected,
    Editing,
}

impl ParamStatus {
    pub fn is_editing(&self) -> (r: bool)
        ensures
            r == (*self is Editing),
    {
        match self {
            ParamStatus::Editing => true,
            _ => false,
        }
    }
}

/// Which scheduler parameter a widget commits to, if any.
#[derive(Clone, Copy, Debug, PartialEq, Eq, Structural)]
pub enum ParamTarget {
    EcMonitorEnabled,
    PhMonitorEnabled,
    TdsThresh,
    OsmoseurPulseDuration,
    OsmoseurPulseMinInterval,
    PhThresh,
    PhPulseDuration,
    PhPulseMinInterval,
    ReadOnly,
}

/// The request that commits `kind` to `target`, if the pairing is sensible.
pub open spec fn spec_commit(target: ParamTarget, kind: ParamKind) -> Option<SchedulerRequest> {
    match (target, kind) {
        (ParamTarget::EcMonitorEnabled, ParamKind::Boolean(b)) => Some(
            SchedulerRequest::SetEcMonitorEnabled { enabled: b },
        ),
        (ParamTarget::PhMonitorEnabled, ParamKind::Boolean(b)) => Some(
            SchedulerRequest::SetPhMonitorEnabled { enabled: b },
        ),
        (ParamTarget::TdsThresh, ParamKind::Float(v)) => Some(
            SchedulerRequest::SetTdsThresh { thresh: v },
        ),
        (ParamTarget::OsmoseurPulseDuration, ParamKind::Duration(d)) => Some(
            SchedulerRequest::SetOsmoseurPulseDuration { duration: d },
        ),
        (ParamTarget::OsmoseurPulseMinInterval, ParamKind::Duration(d)) => Some(
            SchedulerRequest::SetOsmoseurPulseMinInterval { interval: d },
        ),
        (ParamTarget::PhThresh, ParamKind::Float(v)) => Some(
            SchedulerRequest::SetPhThresh { thresh: v },
        ),
        (ParamTarget::PhPulseDuration, ParamKind::Duration(d)) => Some(
            SchedulerRequest::SetPhPulseDuration { duration: d },
        ),
        (ParamTarget::PhPulseMinInterval, ParamKind::Duration(d)) => Some(
            SchedulerRequest::SetPhPulseMinInterval { interval: d },
        ),
        _ => None,
    }
}

/// One editable line of the parameter pane.
pub struct ParamWidget {
    pub status: ParamStatus,
    pub name: &'static str,
    pub can_edit: bool,
    pub postfix: Option<&'static str>,
    pub prefix: Option<&'static str>,
    pub kind: ParamKind,
    pub target: ParamTarget,
}

impl ParamWidget {
    pub fn new(name: &'static str, kind: ParamKind, target: ParamTarget) -> (r: ParamWidget)
        ensures
            r.name == name,
            r.kind == kind,
            r.target == target,
            r.status == ParamStatus::Idle,
            !r.can_edit,
            r.postfix is None,
            r.prefix is None,
    {
        ParamWidget {
            name,
            kind,
            target,
            can_edit: false,
            postfix: None,
            prefix: None,
            status: ParamStatus::Idle,
        }
    }

    pub fn can_edit(self, edit: bool) -> (r: ParamWidget)
        ensures
            r == (ParamWidget { can_edit: edit, ..self }),
    {
        ParamWidget { can_edit: edit, ..self }
    }

    pub fn postfix(self, postfix: Option<&'static str>) -> (r: ParamWidget)
        ensures
            r == (ParamWidget { postfix: postfix, ..self }),
    {
        ParamWidget { postfix, ..self }
    }

    pub fn prefix(self, prefix: Option<&'static str>) -> (r: ParamWidget)
        ensures
            r == (ParamWidget { prefix: prefix, ..self }),
    {
        ParamWidget { prefix, ..self }
    }

    /// The request that commits this widget's present value.
    pub fn commit(&self) -> (r: Option<SchedulerRequest>)
        ensures
            r == spec_commit(self.target, self.kind),
    {
        match (self.target, self.kind) {
            (ParamTarget::EcMonitorEnabled, ParamKind::Boolean(b)) => Some(
                SchedulerRequest::SetEcMonitorEnabled { enabled: b },
            ),
            (ParamTarget::PhMonitorEnabled, ParamKind::Boolean(b)) => Some(
                SchedulerRequest::SetPhMonitorEnabled { enabled: b },
            ),
            (ParamTarget::TdsThresh, ParamKind::Float(v)) => Some(
                SchedulerRequest::SetTdsThresh { thresh: v },
            ),
            (ParamTarget::OsmoseurPulseDuration, ParamKind::Duration(d)) => Some(
                SchedulerRequest::SetOsmoseurPulseDuration { duration: d },
            ),
            (ParamTarget::OsmoseurPulseMinInterval, ParamKind::Duration(d)) => Some(
                SchedulerRequest::SetOsmoseurPulseMinInterval { interval: d },
            ),
            (ParamTarget::PhThresh, ParamKind::Float(v)) => Some(
                SchedulerRequest::SetPhThresh { thresh: v },
            ),
            (ParamTarget::PhPulseDuration, ParamKind::Duration(d)) => Some(
                SchedulerRequest::SetPhPulseDuration { duration: d },
            ),
            (ParamTarget::PhPulseMinInterval, ParamKind::Duration(d)) => Some(
                SchedulerRequest::SetPhPulseMinInterval { interval: d },
            ),
            _ => None,
        }
    }
}

#[derive(Clone, Copy, Debug, PartialEq, Eq, Structural, Hash, PartialOrd, Ord)]
pub enum SettingCategorie {
    General,
    EcMonitor,
    PhMonitor,
}

/// The live readings a parameter pane can copy from, in thousandths.
#[derive(Clone, Copy, Debug, PartialEq, Eq, Structural)]
pub struct LiveReadings {
    pub tds: i64,
    pub ph: i64,
}

/// What one key press on the parameter pane produced: a focus change for
/// the surrounding UI, and a request to post to the scheduler.
pub struct DetailsOutcome {
    pub focus: Option<bool>,
    pub request: Option<SchedulerRequest>,
}

/// The pane of editable parameters, one list per setting categorie.
pub struct ControlerDetailsWidget {
    pub selected: bool,
    pub general: Vec<ParamWidget>,
    pub ec_monitor: Vec<ParamWidget>,
    pub ph_monitor: Vec<ParamWidget>,
}

/// Entry `i` keeps its identity: everything but its edit status and value.
pub open spec fn same_param_identity(a: Seq<ParamWidget>, b: Seq<ParamWidget>) -> bool {
    &&& a.len() == b.len()
    &&& forall|i: int|
        0 <= i < a.len() ==> {
            &&& (#[trigger] b[i]).name == a[i].name
            &&& b[i].target == a[i].target
            &&& b[i].can_edit == a[i].can_edit
            &&& b[i].prefix == a[i].prefix
            &&& b[i].postfix == a[i].postfix
        }
}

/// Some entry of `b` commits to `q`.
pub open spec fn commits_some_entry(b: Seq<ParamWidget>, q: SchedulerRequest) -> bool {
    exists|i: int|
        0 <= i < b.len() && Some(q) == spec_commit((#[trigger] b[i]).target, b[i].kind)
}

impl ControlerDetailsWidget {
    /// Build the parameter tables from the persisted settings: the two
    /// monitor-enabled switches, then threshold, pulse duration and pulse
    /// interval per channel, and a read-only dispensed total.
    pub fn new(store: &mut Store) -> (r: Result<ControlerDetailsWidget, StoreError>)
        ensures
            r matches Ok(w) ==> {
                &&& w.selected
                &&& w.general@.len() == 2
                &&& w.ec_monitor@.len() == 4
                &&& w.ph_monitor@.len() == 4
                &&& w.general@[0].target == ParamTarget::EcMonitorEnabled
                &&& w.general@[0].kind is Boolean
                &&& w.general@[1].target == ParamTarget::PhMonitorEnabled
                &&& w.general@[1].kind is Boolean
                &&& w.ec_monitor@[0].target == ParamTarget::TdsThresh
                &&& w.ec_monitor@[0].kind is Float
                &&& w.ec_monitor@[1].target == ParamTarget::OsmoseurPulseDuration
                &&& w.ec_monitor@[1].kind is Duration
                &&& w.ec_monitor@[2].target == ParamTarget::OsmoseurPulseMinInterval
                &&& w.ec_monitor@[2].kind is Duration
                &&& w.ec_monitor@[3].target == ParamTarget::ReadOnly
                &&& w.ph_monitor@[0].target == ParamTarget::PhThresh
                &&& w.ph_monitor@[0].kind is Float
                &&& w.ph_monitor@[1].target == ParamTarget::PhPulseDuration
                &&& w.ph_monitor@[1].kind is Duration
                &&& w.ph_monitor@[2].target == ParamTarget::PhPulseMinInterval
                &&& w.ph_monitor@[2].kind is Duration
                &&& w.ph_monitor@[3].target == ParamTarget::ReadOnly
            },
    {
        let tds_monitoring = match store.get_tds_monitoring() {
            Ok(v) => v,
            Err(e) => {
                return Err(e);
            },
        };
        let ph_monitoring = match store.get_ph_monitoring() {
            Ok(v) => v,
            Err(e) => {
                return Err(e);
            },
        };
        let tds_thresh = match store.get_tds_1_thresh() {
            Ok(v) => v,
            Err(e) => {
                return Err(e);
            },
        };
        let osmo_duration = match store.get_osmoseur_pulse_duration() {
            Ok(v) => v,
            Err(e) => {
                return Err(e);
            },
        };
        let osmo_interval = match store.get_osmoseur_pulse_min_interval() {
            Ok(v) => v,
            Err(e) => {
                return Err(e);
            },
        };
        let ph_thresh = match store.get_ph_1_thresh() {
            Ok(v) => v,
            Err(e) => {
                return Err(e);
            },
        };
        let ph_duration = match store.get_ph_pulse_duration() {
            Ok(v) => v,
            Err(e) => {
                return Err(e);
            },
        };
        let ph_interval = match store.get_ph_pulse_min_interval() {
            Ok(v) => v,
            Err(e) => {
                return Err(e);
            },
        };
        let mut general: Vec<ParamWidget> = Vec::new();
        general.push(
            ParamWidget::new(
                "EC Compensation",
                ParamKind::Boolean(tds_monitoring),
                ParamTarget::EcMonitorEnabled,
            ).can_edit(true),
        );
        general.push(
            ParamWidget::new(
                "PH Compensation",
                ParamKind::Boolean(ph_monitoring),
                ParamTarget::PhMonitorEnabled,
            ).can_edit(true),
        );
        let mut ec_monitor: Vec<ParamWidget> = Vec::new();
        ec_monitor.push(
            ParamWidget::new("Threshold", ParamKind::Float(tds_thresh), ParamTarget::TdsThresh)
                .postfix(Some("PPM")).can_edit(true),
        );
        ec_monitor.push(
            ParamWidget::new(
                "Osmoseur pulse duration",
                ParamKind::Duration(osmo_duration),
                ParamTarget::OsmoseurPulseDuration,
            ).can_edit(true),
        );
        ec_monitor.push(
            ParamWidget::new(
                "Osmoseur pulse interval",
                ParamKind::Duration(osmo_interval),
                ParamTarget::OsmoseurPulseMinInterval,
            ).can_edit(true),
        );
        ec_monitor.push(
            ParamWidget::new("Total water added", ParamKind::Int(0), ParamTarget::ReadOnly).postfix(
                Some("ML"),
            ),
        );
        let mut ph_monitor: Vec<ParamWidget> = Vec::new();
        ph_monitor.push(
            ParamWidget::new("Threshold", ParamKind::Float(ph_thresh), ParamTarget::PhThresh).prefix(
                Some("PH"),
            ).can_edit(true),
        );
        ph_monitor.push(
            ParamWidget::new(
                "PH Down pulse duration",
                ParamKind::Duration(ph_duration),
                ParamTarget::PhPulseDuration,
            ).can_edit(true),
        );
        ph_monitor.push(
            ParamWidget::new(
                "PH Down pulse interval",
                ParamKind::Duration(ph_interval),
                ParamTarget::PhPulseMinInterval,
            ).can_edit(true),
        );
        ph_monitor.push(
            ParamWidget::new("Total PH Down added", ParamKind::Int(0), ParamTarget::ReadOnly)
                .postfix(Some("ML")),
        );
        Ok(ControlerDetailsWidget { selected: true, general, ec_monitor, ph_monitor })
    }

    pub fn select(&mut self)
        ensures
            *final(self) == (ControlerDetailsWidget { selected: true, ..*old(self) }),
    {
        self.selected = true;
    }

    pub fn deselect(&mut self)
        ensures
            *final(self) == (ControlerDetailsWidget { selected: false, ..*old(self) }),
    {
        self.selected = false;
    }

    /// One key press on the pane showing `categorie`: move the selection,
    /// enter or leave editing, nudge or refresh the edited value, and on
    /// leaving editing commit it as a scheduler request.
    pub fn on_key(
        &mut self,
        key: UiKey,
        categorie: SettingCategorie,
        readings: LiveReadings,
    ) -> (r: DetailsOutcome)
        ensures
            final(self).selected == old(self).selected,
            categorie != SettingCategorie::General ==> final(self).general == old(self).general,
            categorie != SettingCategorie::EcMonitor ==> final(self).ec_monitor == old(
                self,
            ).ec_monitor,
            categorie != SettingCategorie::PhMonitor ==> final(self).ph_monitor == old(
                self,
            ).ph_monitor,
            same_param_identity(old(self).general@, final(self).general@),
            same_param_identity(old(self).ec_monitor@, final(self).ec_monitor@),
            same_param_identity(old(self).ph_monitor@, final(self).ph_monitor@),
            r.request matches Some(q) ==> (match categorie {
                SettingCategorie::General => commits_some_entry(final(self).general@, q),
                SettingCategorie::EcMonitor => commits_some_entry(final(self).ec_monitor@, q),
                SettingCategorie::PhMonitor => commits_some_entry(final(self).ph_monitor@, q),
            }),
    {
        proof {
            assert(same_param_identity(old(self).general@, old(self).general@));
            assert(same_param_identity(old(self).ec_monitor@, old(self).ec_monitor@));
            assert(same_param_identity(old(self).ph_monitor@, old(self).ph_monitor@));
        }
        match categorie {
            SettingCategorie::General => on_key_list(&mut self.general, key, readings),
            SettingCategorie::EcMonitor => on_key_list(&mut self.ec_monitor, key, readings),
            SettingCategorie::PhMonitor => on_key_list(&mut self.ph_monitor, key, readings),
        }
    }
}

/// The selected entry of a parameter list: the first whose status is not
/// idle, if any.
fn selected_entry(list: &Vec<ParamWidget>) -> (r: usize)
    ensures
        r <= list@.len(),
        r < list@.len() ==> !(list@[r as int].status is Idle),
{
    let n = list.len();
    let mut k: usize = 0;
    while k < n
        invariant
            k <= n,
            n == list@.len(),
        decreases n - k,
    {
        let hit = match list[k].status {
            ParamStatus::Idle => false,
            _ => true,
        };
        if hit {
            return k;
        }
        k = k + 1;
    }
    n
}

/// Replace the edit status of entry `i`.
fn set_status_at(list: &mut Vec<ParamWidget>, i: usize, st: ParamStatus)
    requires
        i < old(list)@.len(),
    ensures
        final(list)@ == old(list)@.update(
            i as int,
            ParamWidget { status: st, ..old(list)@[i as int] },
        ),
        same_param_identity(old(list)@, final(list)@),
{
    let mut w = list.remove(i);
    w.status = st;
    list.insert(i, w);
    proof {
        assert(list@ =~= old(list)@.update(
            i as int,
            ParamWidget { status: st, ..old(list)@[i as int] },
        ));
    }
}

/// Replace the value of entry `i`.
fn set_kind_at(list: &mut Vec<ParamWidget>, i: usize, kind: ParamKind)
    requires
        i < old(list)@.len(),
    ensures
        final(list)@ == old(list)@.update(
            i as int,
            ParamWidget { kind: kind, ..old(list)@[i as int] },
        ),
        same_param_identity(old(list)@, final(list)@),
{
    let mut w = list.remove(i);
    w.kind = kind;
    list.insert(i, w);
    proof {
        assert(list@ =~= old(list)@.update(
            i as int,
            ParamWidget { kind: kind, ..old(list)@[i as int] },
        ));
    }
}

/// One key press on one parameter list; see `ControlerDetailsWidget::on_key`.
#[verifier::rlimit(100)]
#[verifier::spinoff_prover]
fn on_key_list(list: &mut Vec<ParamWidget>, key: UiKey, readings: LiveReadings) -> (r:
    DetailsOutcome)
    ensures
        same_param_identity(old(list)@, final(list)@),
        r.request matches Some(q) ==> commits_some_entry(final(list)@, q),
{
    let n = list.len();
    if n == 0 {
        return DetailsOutcome { focus: None, request: None };
    }
    let sel = selected_entry(list);
    if sel == n {
        // nothing selected: an arrow selects the first entry
        match key {
            UiKey::Up | UiKey::Down => {
                set_status_at(list, 0, ParamStatus::Selected);
            },
            _ => {},
        }
        return DetailsOutcome { focus: None, request: None };
    }
    let editing = list[sel].status.is_editing();
    match key {
        UiKey::Insert => {
            if list[sel].can_edit {
                if editing {
                    set_status_at(list, sel, ParamStatus::Selected);
                    let request = list[sel].commit();
                    proof {
                        if request is Some {
                            assert(Some(request.unwrap()) == spec_commit(
                                list@[sel as int].target,
                                list@[sel as int].kind,
                            ));
                        }
                    }
                    return DetailsOutcome { focus: Some(false), request };
                } else {
                    set_status_at(list, sel, ParamStatus::Editing);
                    return DetailsOutcome { focus: Some(true), request: None };
                }
            }
        },
        UiKey::Down => {
            if !editing {
                set_status_at(list, sel, ParamStatus::Idle);
                let next = if sel + 1 < n {
                    sel + 1
                } else {
                    0
                };
                set_status_at(list, next, ParamStatus::Selected);
            } else {
                let kind = nudge_down(list[sel].kind);
                set_kind_at(list, sel, kind);
            }
        },
        UiKey::Up => {
            if !editing {
                set_status_at(list, sel, ParamStatus::Idle);
                let prev = if sel > 0 {
                    sel - 1
                } else {
                    n - 1
                };
                set_status_at(list, prev, ParamStatus::Selected);
            } else {
                let kind = nudge_up(list[sel].kind);
                set_kind_at(list, sel, kind);
            }
        },
        UiKey::Refresh => {
            if editing {
                let target = list[sel].target;
                let is_float = match list[sel].kind {
                    ParamKind::Float(_) => true,
                    _ => false,
                };
                match target {
                    ParamTarget::TdsThresh => {
                        if is_float {
                            set_kind_at(list, sel, ParamKind::Float(readings.tds));
                        }
                    },
                    ParamTarget::PhThresh => {
                        if is_float {
                            set_kind_at(list, sel, ParamKind::Float(readings.ph));
                        }
                    },
                    _ => {},
                }
            }
        },
        UiKey::Other => {},
    }
    DetailsOutcome { focus: None, request: None }
}

/// One editing step down: toggle a switch, a whole unit off a threshold, a
/// second off a duration, never past zero.
pub open spec fn spec_nudge_down(kind: ParamKind) -> ParamKind {
    match kind {
        ParamKind::Boolean(b) => ParamKind::Boolean(!b),
        ParamKind::Float(v) => ParamKind::Float(
            if v >= i64::MIN + 1000 {
                (v - 1000) as i64
            } else {
                v
            },
        ),
        ParamKind::Duration(d) => ParamKind::Duration(
            if d >= 1 {
                (d - 1) as u64
            } else {
                0
            },
        ),
        ParamKind::Int(v) => ParamKind::Int(v),
    }
}

/// One editing step up.
pub open spec fn spec_nudge_up(kind: ParamKind) -> ParamKind {
    match kind {
        ParamKind::Boolean(b) => ParamKind::Boolean(!b),
        ParamKind::Float(v) => ParamKind::Float(
            if v <= i64::MAX - 1000 {
                (v + 1000) as i64
            } else {
                v
            },
        ),
        ParamKind::Duration(d) => ParamKind::Duration(
            if d <= u64::MAX - 1 {
                (d + 1) as u64
            } else {
                d
            },
        ),
        ParamKind::Int(v) => ParamKind::Int(v),
    }
}

fn nudge_down(kind: ParamKind) -> (r: ParamKind)
    ensures
        r == spec_nudge_down(kind),
{
    match kind {
        ParamKind::Boolean(b) => ParamKind::Boolean(!b),
        ParamKind::Float(v) => ParamKind::Float(
            if v >= i64::MIN + 1000 {
                v - 1000
            } else {
                v
            },
        ),
        ParamKind::Duration(d) => ParamKind::Duration(
            if d >= 1 {
                d - 1
            } else {
                0
            },
        ),
        ParamKind::Int(v) => ParamKind::Int(v),
    }
}

fn nudge_up(kind: ParamKind) -> (r: ParamKind)
    ensures
        r == spec_nudge_up(kind),
{
    match kind {
        ParamKind::Boolean(b) => ParamKind::Boolean(!b),
        ParamKind::Float(v) => ParamKind::Float(
            if v <= i64::MAX - 1000 {
                v + 1000
            } else {
                v
            },
        ),
        ParamKind::Duration(d) => ParamKind::Duration(
            if d <= u64::MAX - 1 {
                d + 1
            } else {
                d
            },
        ),
        ParamKind::Int(v) => ParamKind::Int(v),
    }
}

/// The categorie chooser on the left of the control pane.
pub struct ControlerWidget {
    pub selected: bool,
    pub sub: Vec<(&'static str, bool, SettingCategorie)>,
    pub sub_selection: usize,
}

impl ControlerWidget {
    pub fn new() -> (r: ControlerWidget)
        ensures
            r.selected,
            r.sub_selection == 0,
            r.sub@.len() == 3,
            r.sub@[0].2 == SettingCategorie::General,
            r.sub@[1].2 == SettingCategorie::EcMonitor,
            r.sub@[2].2 == SettingCategorie::PhMonitor,
            r.sub@[0].1,
            !r.sub@[1].1,
            !r.sub@[2].1,
    {
        let mut sub: Vec<(&'static str, bool, SettingCategorie)> = Vec::new();
        sub.push(("General", true, SettingCategorie::General));
        sub.push(("EC Monitoring", false, SettingCategorie::EcMonitor));
        sub.push(("PH Monitoring", false, SettingCategorie::PhMonitor));
        ControlerWidget { sub_selection: 0, selected: true, sub }
    }

    pub fn select(&mut self)
        ensures
            *final(self) == (ControlerWidget { selected: true, ..*old(self) }),
    {
        self.selected = true;
    }

    pub fn deselect(&mut self)
        ensures
            *final(self) == (ControlerWidget { selected: false, ..*old(self) }),
    {
        self.selected = false;
    }

    /// Cycle the categorie selection with the arrow keys; the result is the
    /// categorie the details pane should now show.
    pub fn on_key(&mut self, key: UiKey) -> (r: Option<SettingCategorie>)
        requires
            old(self).sub_selection < old(self).sub@.len(),
        ensures
            final(self).selected == old(self).selected,
            final(self).sub@.len() == old(self).sub@.len(),
            final(self).sub_selection < final(self).sub@.len(),
            key == UiKey::Down ==> final(self).sub_selection == (if old(self).sub_selection + 1
                < old(self).sub@.len() {
                old(self).sub_selection + 1
            } else {
                0
            }),
            key == UiKey::Up ==> final(self).sub_selection == (if old(self).sub_selection > 0 {
                (old(self).sub_selection - 1) as usize
            } else {
                (old(self).sub@.len() - 1) as usize
            }),
            (key == UiKey::Down || key == UiKey::Up) ==> r == Some(
                final(self).sub@[final(self).sub_selection as int].2,
            ),
            !(key == UiKey::Down || key == UiKey::Up) ==> r is None && *final(self) == *old(self),
            forall|i: int|
                0 <= i < final(self).sub@.len() ==> ((#[trigger] final(self).sub@[i]).0 == old(
                    self,
                ).sub@[i].0 && final(self).sub@[i].2 == old(self).sub@[i].2),
    {
        match key {
            UiKey::Down => {
                let cur = self.sub_selection;
                let n2 = self.sub.len();
                let next = if cur + 1 < n2 {
                    cur + 1
                } else {
                    0
                };
                let mut w = self.sub.remove(cur);
                w.1 = false;
                self.sub.insert(cur, w);
                let mut w2 = self.sub.remove(next);
                w2.1 = true;
                self.sub.insert(next, w2);
                self.sub_selection = next;
                Some(self.sub[next].2)
            },
            UiKey::Up => {
                let cur = self.sub_selection;
                let n2 = self.sub.len();
                let prev = if cur > 0 {
                    cur - 1
                } else {
                    n2 - 1
                };
                let mut w = self.sub.remove(cur);
                w.1 = false;
                self.sub.insert(cur, w);
                let mut w2 = self.sub.remove(prev);
                w2.1 = true;
                self.sub.insert(prev, w2);
                self.sub_selection = prev;
                Some(self.sub[prev].2)
            },
            _ => None,
        }
    }
}

/// The dissolved-solids chart pane.
pub struct TdsWidget {
    pub selected: bool,
}

impl TdsWidget {
    pub fn new() -> (r: TdsWidget)
        ensures
            !r.selected,
    {
        TdsWidget { selected: false }
    }

    pub fn select(&mut self)
        ensures
            final(self).selected,
    {
        self.selected = true;
    }

    pub fn deselect(&mut self)
        ensures
            !final(self).selected,
    {
        self.selected = false;
    }
}

/// The acidity chart pane.
pub struct PhWidget {
    pub selected: bool,
}

impl PhWidget {
    pub fn new() -> (r: PhWidget)
        ensures
            !r.selected,
    {
        PhWidget { selected: false }
    }

    pub fn select(&mut self)
        ensures
            final(self).selected,
    {
        self.selected = true;
    }

    pub fn deselect(&mut self)
        ensures
            !final(self).selected,
    {
        self.selected = false;
    }
}

/// The temperature chart pane.
pub struct TemperatureWidget {
    pub selected: bool,
}

impl TemperatureWidget {
    pub fn new() -> (r: TemperatureWidget)
        ensures
            !r.selected,
    {
        TemperatureWidget { selected: false }
    }

    pub fn select(&mut self)
        ensures
            final(self).selected,
    {
        self.selected = true;
    }

    pub fn deselect(&mut self)
        ensures
            !final(self).selected,
    {
        self.selected = false;
    }
}

/// The log pane.
pub struct FeedBackWidget {
    pub selected: bool,
}

impl FeedBackWidget {
    pub fn new() -> (r: FeedBackWidget)
        ensures
            !r.selected,
    {
        FeedBackWidget { selected: false }
    }

    pub fn select(&mut self)
        ensures
            final(self).selected,
    {
        self.selected = true;
    }

    pub fn deselect(&mut self)
        ensures
            !final(self).selected,
    {
        self.selected = false;
    }
}

/// The operator-query pane.
pub struct QueryWidget {
    pub selected: bool,
}

impl QueryWidget {
    pub fn new() -> (r: QueryWidget)
        ensures
            !r.selected,
    {
        QueryWidget { selected: false }
    }

    pub fn select(&mut self)
        ensures
            final(self).selected,
    {
        self.selected = true;
    }

    pub fn deselect(&mut self)
        ensures
            !final(self).selected,
    {
        self.selected = false;
    }
}

} // verus!
