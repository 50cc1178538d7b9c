//! Pulse monitor: decides, per actuator channel, whether a corrective pulse
//! is due, enforcing a refractory interval and suspend-until-resume.
//!
//! Thresholds and readings are fixed-point thousandths; times are whole
//! seconds since the Unix epoch.

use vstd::prelude::*;

verus! {

pub struct PulseMonitor {
    /// A pulse is due only above this reading, in thousandths.
    pub threshold: i64,
    /// Length of one corrective pulse, in seconds.
    pub pulse_duration: u64,
    /// Second at which the monitor last armed; the epoch initially.
    pub last_pulse: u64,
    /// Least wall-clock gap between two armings, in seconds.
    pub pulse_minimum_interval: u64,
    /// Set while an armed pulse has not yet been resumed.
    pub suspend: bool,
}

impl PulseMonitor {
    /// Seconds since the last arming; a clock that moved backwards reads as
    /// no time passed.
    pub open spec fn spec_elapsed(self, now: u64) -> int {
        if now >= self.last_pulse {
            now - self.last_pulse
        } else {
            0
        }
    }

    /// The monitor arms exactly when it is not suspended, the reading is
    /// over the threshold, and the refractory interval has passed.
    pub open spec fn spec_fires(self, current: i64, now: u64) -> bool {
        &&& !self.suspend
        &&& current > self.threshold
        &&& self.spec_elapsed(now) > self.pulse_minimum_interval
    }

    /// The monitor after arming at second `now`.
    pub open spec fn spec_armed(self, now: u64) -> PulseMonitor {
        PulseMonitor { last_pulse: now, suspend: true, ..self }
    }

    pub fn new(threshold: i64, pulse_minimum_interval: u64, pulse_duration: u64) -> (r:
        PulseMonitor)
        ensures
            r.threshold == threshold,
            r.pulse_minimum_interval == pulse_minimum_interval,
            r.pulse_duration == pulse_duration,
            r.last_pulse == 0,
            !r.suspend,
    {
        PulseMonitor {
            suspend: false,
            threshold,
            pulse_duration,
            last_pulse: 0,
            pulse_minimum_interval,
        }
    }

    /// Clear the suspension; the only operation that does.
    pub fn resume(&mut self)
        ensures
            *final(self) == (PulseMonitor { suspend: false, ..*old(self) }),
    {
        self.suspend = false;
    }

    /// Report whether a pulse is due at second `now` for the reading
    /// `current`. Arming stamps `last_pulse` and sets the suspension
    /// atomically with the `Some` result; the caller owes a later `resume`.
    pub fn update(&mut self, current: i64, now: u64) -> (r: Option<u64>)
        ensures
            r == if old(self).spec_fires(current, now) {
                Some(old(self).pulse_duration)
            } else {
                None::<u64>
            },
            *final(self) == if old(self).spec_fires(current, now) {
                old(self).spec_armed(now)
            } else {
                *old(self)
            },
    {
        if self.suspend {
            None
        } else if current > self.threshold && (if now >= self.last_pulse {
            now - self.last_pulse
        } else {
            0
        }) > self.pulse_minimum_interval {
            self.last_pulse = now;
            self.suspend = true;
            Some(self.pulse_duration)
        } else {
            None
        }
    }
}

// ---------------------------------------------------------------------------
// Refractory law
// ---------------------------------------------------------------------------

/// One operation applied to a monitor: a reading at a time, or a resume.
pub enum MonitorOp {
    Update(i64, u64),
    Resume,
}

pub open spec fn monitor_step(m: PulseMonitor, op: MonitorOp) -> PulseMonitor {
    match op {
        MonitorOp::Update(c, t) => if m.spec_fires(c, t) {
            m.spec_armed(t)
        } else {
            m
        },
        MonitorOp::Resume => PulseMonitor { suspend: false, ..m },
    }
}

pub open spec fn run_monitor(m: PulseMonitor, ops: Seq<MonitorOp>) -> PulseMonitor
    decreases ops.len(),
{
    if ops.len() == 0 {
        m
    } else {
        monitor_step(run_monitor(m, ops.drop_last()), ops.last())
    }
}

/// Whether the operation at index `k` arms the monitor.
pub open spec fn fires_at(m0: PulseMonitor, ops: Seq<MonitorOp>, k: int) -> bool {
    match ops[k] {
        MonitorOp::Update(c, t) => run_monitor(m0, ops.take(k)).spec_fires(c, t),
        MonitorOp::Resume => false,
    }
}

pub open spec fn update_time(op: MonitorOp) -> u64 {
    match op {
        MonitorOp::Update(_, t) => t,
        MonitorOp::Resume => 0,
    }
}

proof fn lemma_run_monitor_snoc(m0: PulseMonitor, ops: Seq<MonitorOp>, k: int)
    requires
        0 <= k < ops.len(),
    ensures
        run_monitor(m0, ops.take(k + 1)) == monitor_step(run_monitor(m0, ops.take(k)), ops[k]),
{
    assert(ops.take(k + 1).drop_last() =~= ops.take(k));
    assert(ops.take(k + 1).last() == ops[k]);
}

/// Steps that do not arm the monitor leave `last_pulse` alone, and no step
/// changes the refractory interval.
proof fn lemma_quiet_run(m0: PulseMonitor, ops: Seq<MonitorOp>, a: int, b: int)
    requires
        0 <= a <= b <= ops.len(),
        forall|k: int| a <= k < b ==> !fires_at(m0, ops, k),
    ensures
        run_monitor(m0, ops.take(b)).last_pulse == run_monitor(m0, ops.take(a)).last_pulse,
        run_monitor(m0, ops.take(b)).pulse_minimum_interval == run_monitor(
            m0,
            ops.take(a),
        ).pulse_minimum_interval,
    decreases b - a,
{
    if b > a {
        lemma_quiet_run(m0, ops, a, b - 1);
        lemma_run_monitor_snoc(m0, ops, b - 1);
        assert(!fires_at(m0, ops, b - 1));
    }
}

/// Refractory law: between one arming and the next arming on the same
/// monitor, strictly more than the refractory interval passes on the wall
/// clock.
pub proof fn lemma_refractory(m0: PulseMonitor, ops: Seq<MonitorOp>, i: int, j: int)
    requires
        0 <= i < j < ops.len(),
        fires_at(m0, ops, i),
        fires_at(m0, ops, j),
        forall|k: int| i < k < j ==> !fires_at(m0, ops, k),
    ensures
        update_time(ops[j]) >= update_time(ops[i]),
        update_time(ops[j]) - update_time(ops[i]) > m0.pulse_minimum_interval,
{
    let ti = update_time(ops[i]);
    lemma_run_monitor_snoc(m0, ops, i);
    assert(run_monitor(m0, ops.take(i + 1)).last_pulse == ti);
    lemma_quiet_run(m0, ops, i + 1, j);
    let mj = run_monitor(m0, ops.take(j));
    assert(mj.last_pulse == ti);
    lemma_interval_constant(m0, ops, j);
    assert(mj.pulse_minimum_interval == m0.pulse_minimum_interval);
}

/// No operation changes the refractory interval.
proof fn lemma_interval_constant(m0: PulseMonitor, ops: Seq<MonitorOp>, b: int)
    requires
        0 <= b <= ops.len(),
    ensures
        run_monitor(m0, ops.take(b)).pulse_minimum_interval == m0.pulse_minimum_interval,
    decreases b,
{
    if b > 0 {
        lemma_interval_constant(m0, ops, b - 1);
        lemma_run_monitor_snoc(m0, ops, b - 1);
    } else {
        assert(ops.take(0) =~= Seq::<MonitorOp>::empty());
    }
}

/// A suspended monitor stays suspended through every step that is neither
/// an arming nor a resume.
proof fn lemma_suspend_persists(m0: PulseMonitor, ops: Seq<MonitorOp>, a: int, b: int)
    requires
        0 <= a <= b <= ops.len(),
        run_monitor(m0, ops.take(a)).suspend,
        forall|k: int| a <= k < b ==> !((#[trigger] ops[k]) is Resume),
    ensures
        run_monitor(m0, ops.take(b)).suspend,
    decreases b - a,
{
    if b > a {
        lemma_suspend_persists(m0, ops, a, b - 1);
        lemma_run_monitor_snoc(m0, ops, b - 1);
        assert(!(ops[b - 1] is Resume));
    }
}

/// Suspension gates re-arming: between one arming and the next, the
/// monitor's resume must have been called.
pub proof fn lemma_resume_between_armings(m0: PulseMonitor, ops: Seq<MonitorOp>, i: int, j: int)
    requires
        0 <= i < j < ops.len(),
        fires_at(m0, ops, i),
        fires_at(m0, ops, j),
    ensures
        exists|r: int| i < r < j && (#[trigger] ops[r]) is Resume,
{
    if !(exists|r: int| i < r < j && (#[trigger] ops[r]) is Resume) {
        assert(forall|k: int| i < k < j ==> !((#[trigger] ops[k]) is Resume));
        lemma_run_monitor_snoc(m0, ops, i);
        assert(run_monitor(m0, ops.take(i + 1)).suspend);
        lemma_suspend_persists(m0, ops, i + 1, j);
        assert(!fires_at(m0, ops, j));
    }
}

} // verus!
