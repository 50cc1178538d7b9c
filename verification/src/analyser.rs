//! Samples analyser: a sliding-window classifier turning noisy probe
//! readings into a state stream with a dead-band and a dwell time.
//!
//! Readings are fixed-point thousandths; the dead-band (`precision`) is in
//! whole units of the rounded sample domain; timestamps and the dwell are in
//! whole seconds.

use vstd::prelude::*;

verus! {

/// Largest reading magnitude the analyser accepts, in thousandths. The
/// protocol parser never produces a larger one, and it keeps every derived
/// quantity within `i64`.
pub const SAMPLE_LIMIT: i64 = 1000000000000000;

/// Classification of a probe stream. Carried values are in thousandths;
/// `Stabilizing` also carries the second at which the dead-band was entered.
#[derive(Clone, Copy, Debug, PartialEq, Eq, Structural)]
pub enum AnalyticStatus {
    /// No probe seen yet.
    Undefined,
    /// Window not yet full.
    Unknown,
    Stabilizing(i64, u64),
    Stable(i64),
    Uprising(i64),
    Downrising(i64),
}

impl AnalyticStatus {
    /// The value carried by a classified state, if any, is in range.
    pub open spec fn carried_ok(self) -> bool {
        match self {
            AnalyticStatus::Stabilizing(v, _) => -SAMPLE_LIMIT <= v <= SAMPLE_LIMIT,
            AnalyticStatus::Stable(v) => -SAMPLE_LIMIT <= v <= SAMPLE_LIMIT,
            AnalyticStatus::Uprising(v) => -SAMPLE_LIMIT <= v <= SAMPLE_LIMIT,
            AnalyticStatus::Downrising(v) => -SAMPLE_LIMIT <= v <= SAMPLE_LIMIT,
            _ => true,
        }
    }
}

/// Round a reading in thousandths to whole units, halves away from zero.
pub open spec fn round_milli(v: int) -> int {
    if v >= 0 {
        (v + 500) / 1000
    } else {
        -((-v + 500) / 1000)
    }
}

/// Round `v / 2` of a whole-unit sum, halves away from zero.
pub open spec fn half_round(v: int) -> int {
    if v >= 0 {
        (v + 1) / 2
    } else {
        -((-v + 1) / 2)
    }
}

fn round_milli_exec(v: i64) -> (r: i64)
    requires
        -SAMPLE_LIMIT <= v <= SAMPLE_LIMIT,
    ensures
        r == round_milli(v as int),
        -1000000000000 <= r <= 1000000000000,
{
    if v >= 0 {
        let u: u64 = (v as u64 + 500) / 1000;
        u as i64
    } else {
        let u: u64 = (((-v) as u64) + 500) / 1000;
        -(u as i64)
    }
}

fn half_round_exec(v: i64) -> (r: i64)
    requires
        -4000000000000 <= v <= 4000000000000,
    ensures
        r == half_round(v as int),
        -2000000000000 <= r <= 2000000000000,
{
    if v >= 0 {
        let u: u64 = (v as u64 + 1) / 2;
        u as i64
    } else {
        let u: u64 = (((-v) as u64) + 1) / 2;
        -(u as i64)
    }
}

/// Minimum of the rounded values of the first `k` window entries.
pub open spec fn min_rounded_prefix(s: Seq<(u64, i64)>, k: int) -> int
    decreases k,
{
    if k <= 1 {
        round_milli(s[0].1 as int)
    } else {
        let rest = min_rounded_prefix(s, k - 1);
        let last = round_milli(s[k - 1].1 as int);
        if last < rest {
            last
        } else {
            rest
        }
    }
}

/// Maximum of the rounded values of the first `k` window entries.
pub open spec fn max_rounded_prefix(s: Seq<(u64, i64)>, k: int) -> int
    decreases k,
{
    if k <= 1 {
        round_milli(s[0].1 as int)
    } else {
        let rest = max_rounded_prefix(s, k - 1);
        let last = round_milli(s[k - 1].1 as int);
        if last > rest {
            last
        } else {
            rest
        }
    }
}

/// The window after a sample arrives: pushed to the front, the oldest
/// evicted once the window is over capacity.
pub open spec fn window_after(samples: Seq<(u64, i64)>, history: int, instant: u64, value: i64) -> Seq<(u64, i64)> {
    let pushed = seq![(instant, value)] + samples;
    if pushed.len() > history {
        pushed.drop_last()
    } else {
        pushed
    }
}

/// The whole-unit representative of the present state: the rounded carried
/// value, or the midpoint of the window spread.
pub open spec fn current_of(w: Seq<(u64, i64)>, status: AnalyticStatus) -> int {
    match status {
        AnalyticStatus::Stabilizing(v, _) => round_milli(v as int),
        AnalyticStatus::Stable(v) => round_milli(v as int),
        AnalyticStatus::Uprising(v) => round_milli(v as int),
        AnalyticStatus::Downrising(v) => round_milli(v as int),
        _ => {
            let mn = min_rounded_prefix(w, w.len() as int);
            let mx = max_rounded_prefix(w, w.len() as int);
            half_round(mn + mx)
        },
    }
}

/// The drift direction of a full window: `1` when the upward spread from the
/// current representative exceeds the downward one by more than the
/// dead-band, `-1` in the opposite case, `0` inside the dead-band.
pub open spec fn dir_of(w: Seq<(u64, i64)>, status: AnalyticStatus, precision: int) -> int {
    let mn = min_rounded_prefix(w, w.len() as int);
    let mx = max_rounded_prefix(w, w.len() as int);
    let cur = current_of(w, status);
    let up = mx - cur;
    let dn = cur - mn;
    if up - dn > precision {
        1
    } else if dn - up > precision {
        -1
    } else {
        0
    }
}

/// The classification after a sample arrives at second `instant`: unknown
/// until the window fills, then per the transition table over the drift
/// direction and the dwell.
pub open spec fn status_after(
    samples: Seq<(u64, i64)>,
    status: AnalyticStatus,
    history: int,
    precision: int,
    delay: u64,
    instant: u64,
    value: i64,
) -> AnalyticStatus {
    let w = window_after(samples, history, instant, value);
    if w.len() < history {
        AnalyticStatus::Unknown
    } else {
        let mn = min_rounded_prefix(w, w.len() as int);
        let mx = max_rounded_prefix(w, w.len() as int);
        let cur = current_of(w, status);
        let dir = dir_of(w, status, precision);
        match status {
            AnalyticStatus::Stabilizing(val, from) => {
                if dir == 0 {
                    if instant >= from && instant - from > delay {
                        AnalyticStatus::Stable(val)
                    } else {
                        AnalyticStatus::Stabilizing(val, from)
                    }
                } else if dir == 1 {
                    AnalyticStatus::Uprising(((mx + cur) * 500) as i64)
                } else {
                    AnalyticStatus::Downrising(((mn + cur) * 500) as i64)
                }
            },
            AnalyticStatus::Stable(val) => {
                if dir == 0 {
                    AnalyticStatus::Stable(val)
                } else if dir == 1 {
                    AnalyticStatus::Uprising(((mx + cur) * 500) as i64)
                } else {
                    AnalyticStatus::Downrising(((mn + cur) * 500) as i64)
                }
            },
            _ => {
                if dir == 1 {
                    AnalyticStatus::Uprising(((mx + cur) * 500) as i64)
                } else if dir == -1 {
                    AnalyticStatus::Downrising(((mn + cur) * 500) as i64)
                } else {
                    AnalyticStatus::Stabilizing((cur * 1000) as i64, instant)
                }
            },
        }
    }
}

pub struct SamplesAnalytic {
    /// Dwell before a stabilising value is trusted as stable, in seconds.
    pub stabilization_delay: u64,
    /// `(timestamp, reading)` pairs, newest first, at most `history_size`.
    pub samples: Vec<(u64, i64)>,
    pub status: AnalyticStatus,
    /// Number of consecutive samples the classification is computed over.
    pub history_size: usize,
    /// Dead-band between two samples assumed equal, in whole units.
    pub precision: i64,
}

impl SamplesAnalytic {
    pub open spec fn wf(self) -> bool {
        &&& self.samples@.len() <= self.history_size
        &&& self.history_size >= 1
        &&& forall|i: int|
            0 <= i < self.samples@.len() ==> -SAMPLE_LIMIT <= (#[trigger] self.samples@[i]).1
                <= SAMPLE_LIMIT
        &&& self.status.carried_ok()
    }

    /// The window after a sample arrives: pushed to the front, the oldest
    /// evicted once the window is over capacity.
    pub open spec fn spec_window(self, instant: u64, value: i64) -> Seq<(u64, i64)> {
        window_after(self.samples@, self.history_size as int, instant, value)
    }

    /// The classification after a sample arrives at second `instant`.
    pub open spec fn spec_new_status(self, instant: u64, value: i64) -> AnalyticStatus {
        status_after(
            self.samples@,
            self.status,
            self.history_size as int,
            self.precision as int,
            self.stabilization_delay,
            instant,
            value,
        )
    }

    pub fn new(history_size: usize, precision: i64, stabilization_delay: u64) -> (r: Self)
        requires
            history_size >= 1,
        ensures
            r.history_size == history_size,
            r.precision == precision,
            r.stabilization_delay == stabilization_delay,
            r.samples@.len() == 0,
            r.status == AnalyticStatus::Undefined,
            r.wf(),
    {
        SamplesAnalytic {
            stabilization_delay,
            precision,
            history_size,
            samples: Vec::new(),
            status: AnalyticStatus::Undefined,
        }
    }

    /// Reset the window; the stream is unknown until it fills again.
    pub fn clear(&mut self)
        ensures
            final(self).samples@.len() == 0,
            final(self).status == AnalyticStatus::Unknown,
            final(self).history_size == old(self).history_size,
            final(self).precision == old(self).precision,
            final(self).stabilization_delay == old(self).stabilization_delay,
            old(self).wf() ==> final(self).wf(),
    {
        self.samples.clear();
        self.status = AnalyticStatus::Unknown;
    }

    /// Accept one timestamped reading, reclassify the stream, and report the
    /// new state exactly when it changed. Deterministic in the prior state
    /// and the arguments.
    #[verifier::rlimit(80)]
    #[verifier::loop_isolation(false)]
    pub fn sample(&mut self, instant: u64, value: i64) -> (r: Option<AnalyticStatus>)
        requires
            old(self).wf(),
            -SAMPLE_LIMIT <= value <= SAMPLE_LIMIT,
        ensures
            final(self).wf(),
            final(self).samples@ == old(self).spec_window(instant, value),
            final(self).status == old(self).spec_new_status(instant, value),
            final(self).history_size == old(self).history_size,
            final(self).precision == old(self).precision,
            final(self).stabilization_delay == old(self).stabilization_delay,
            r == if old(self).spec_new_status(instant, value) != old(self).status {
                Some(old(self).spec_new_status(instant, value))
            } else {
                None::<AnalyticStatus>
            },
    {
        let ghost init = *self;
        self.samples.insert(0, (instant, value));
        if self.samples.len() > self.history_size {
            self.samples.pop();
        }
        proof {
            assert(seq![(instant, value)] + init.samples@ =~= init.samples@.insert(
                0,
                (instant, value),
            ));
            assert(self.samples@ =~= init.spec_window(instant, value));
        }
        if self.samples.len() < self.history_size {
            return self.update_status(AnalyticStatus::Unknown);
        }
        let ghost w = self.samples@;
        let n = self.samples.len();
        let first = self.samples[0];
        let mut mn: i64 = round_milli_exec(first.1);
        let mut mx: i64 = mn;
        let mut k: usize = 1;
        while k < n
            invariant
                1 <= k <= n,
                mn == min_rounded_prefix(w, k as int),
                mx == max_rounded_prefix(w, k as int),
                -1000000000000 <= mn <= 1000000000000,
                -1000000000000 <= mx <= 1000000000000,
            decreases n - k,
        {
            let r = round_milli_exec(self.samples[k].1);
            if r < mn {
                mn = r;
            }
            if r > mx {
                mx = r;
            }
            k = k + 1;
        }
        let cur: i64 = match self.status {
            AnalyticStatus::Stabilizing(v, _) => round_milli_exec(v),
            AnalyticStatus::Stable(v) => round_milli_exec(v),
            AnalyticStatus::Uprising(v) => round_milli_exec(v),
            AnalyticStatus::Downrising(v) => round_milli_exec(v),
            _ => half_round_exec(mn + mx),
        };
        let up: i64 = mx - cur;
        let dn: i64 = cur - mn;
        let dir: i64 = if up - dn > self.precision {
            1
        } else if dn - up > self.precision {
            -1
        } else {
            0
        };
        let new_status: AnalyticStatus = match self.status {
            AnalyticStatus::Stabilizing(val, from) => {
                if dir == 0 {
                    if instant >= from && instant - from > self.stabilization_delay {
                        AnalyticStatus::Stable(val)
                    } else {
                        AnalyticStatus::Stabilizing(val, from)
                    }
                } else if dir == 1 {
                    AnalyticStatus::Uprising((mx + cur) * 500)
                } else {
                    AnalyticStatus::Downrising((mn + cur) * 500)
                }
            },
            AnalyticStatus::Stable(val) => {
                if dir == 0 {
                    AnalyticStatus::Stable(val)
                } else if dir == 1 {
                    AnalyticStatus::Uprising((mx + cur) * 500)
                } else {
                    AnalyticStatus::Downrising((mn + cur) * 500)
                }
            },
            _ => {
                if dir == 1 {
                    AnalyticStatus::Uprising((mx + cur) * 500)
                } else if dir == -1 {
                    AnalyticStatus::Downrising((mn + cur) * 500)
                } else {
                    AnalyticStatus::Stabilizing(cur * 1000, instant)
                }
            },
        };
        self.update_status(new_status)
    }

    /// Record a classification; report it exactly when it differs from the
    /// previous one.
    fn update_status(&mut self, new_status: AnalyticStatus) -> (r: Option<AnalyticStatus>)
        ensures
            final(self).status == new_status,
            final(self).samples == old(self).samples,
            final(self).history_size == old(self).history_size,
            final(self).precision == old(self).precision,
            final(self).stabilization_delay == old(self).stabilization_delay,
            r == if new_status != old(self).status {
                Some(new_status)
            } else {
                None::<AnalyticStatus>
            },
    {
        if !status_eq(&new_status, &self.status) {
            self.status = new_status;
            Some(new_status)
        } else {
            None
        }
    }
}

/// Structural equality of two classifications.
fn status_eq(a: &AnalyticStatus, b: &AnalyticStatus) -> (r: bool)
    ensures
        r == (a == b),
{
    match (a, b) {
        (AnalyticStatus::Undefined, AnalyticStatus::Undefined) => true,
        (AnalyticStatus::Unknown, AnalyticStatus::Unknown) => true,
        (AnalyticStatus::Stabilizing(v1, t1), AnalyticStatus::Stabilizing(v2, t2)) => v1 == v2
            && t1 == t2,
        (AnalyticStatus::Stable(v1), AnalyticStatus::Stable(v2)) => v1 == v2,
        (AnalyticStatus::Uprising(v1), AnalyticStatus::Uprising(v2)) => v1 == v2,
        (AnalyticStatus::Downrising(v1), AnalyticStatus::Downrising(v2)) => v1 == v2,
        _ => false,
    }
}

// ---------------------------------------------------------------------------
// The dwell law
// ---------------------------------------------------------------------------

/// `states` are the analyser states along a run that feeds `inputs` in
/// order, one `sample` call per step.
pub open spec fn analyser_run(states: Seq<SamplesAnalytic>, inputs: Seq<(u64, i64)>) -> bool {
    &&& states.len() == inputs.len() + 1
    &&& forall|i: int|
        0 <= i < inputs.len() ==> {
            &&& (#[trigger] states[i + 1]).samples@ == states[i].spec_window(
                inputs[i].0,
                inputs[i].1,
            )
            &&& states[i + 1].status == states[i].spec_new_status(inputs[i].0, inputs[i].1)
            &&& states[i + 1].history_size == states[i].history_size
            &&& states[i + 1].precision == states[i].precision
            &&& states[i + 1].stabilization_delay == states[i].stabilization_delay
        }
}

/// Walk back over a run of `Stable(v)` states to the step that produced the
/// first of them.
proof fn lemma_first_stable(states: Seq<SamplesAnalytic>, inputs: Seq<(u64, i64)>, k: int, v: i64)
    requires
        analyser_run(states, inputs),
        0 <= k < states.len(),
        states[k].status == AnalyticStatus::Stable(v),
        states[0].status != AnalyticStatus::Stable(v),
    ensures
        exists|s: int|
            0 < s <= k && (#[trigger] states[s].status) == AnalyticStatus::Stable(v)
                && states[s - 1].status != AnalyticStatus::Stable(v) && (forall|m: int|
                s <= m <= k ==> states[m].status == AnalyticStatus::Stable(v)),
    decreases k,
{
    if states[k - 1].status == AnalyticStatus::Stable(v) {
        lemma_first_stable(states, inputs, k - 1, v);
        let s = choose|s: int|
            0 < s <= k - 1 && (#[trigger] states[s].status) == AnalyticStatus::Stable(v)
                && states[s - 1].status != AnalyticStatus::Stable(v) && (forall|m: int|
                s <= m <= k - 1 ==> states[m].status == AnalyticStatus::Stable(v));
        assert(forall|m: int| s <= m <= k ==> states[m].status == AnalyticStatus::Stable(v));
    } else {
        assert(states[k].status == AnalyticStatus::Stable(v) && states[k - 1].status
            != AnalyticStatus::Stable(v) && (forall|m: int|
            k <= m <= k ==> states[m].status == AnalyticStatus::Stable(v)));
    }
}

/// Walk back over a run of `Stabilizing(v, since)` states to the step that
/// entered the dead-band, which stamped `since`.
proof fn lemma_stabilizing_entry(
    states: Seq<SamplesAnalytic>,
    inputs: Seq<(u64, i64)>,
    k: int,
    v: i64,
    since: u64,
)
    requires
        analyser_run(states, inputs),
        0 <= k < states.len(),
        states[k].status == AnalyticStatus::Stabilizing(v, since),
    ensures
        exists|j: int|
            0 <= j <= k && (#[trigger] states[j].status) == AnalyticStatus::Stabilizing(v, since)
                && (forall|m: int|
                j <= m <= k ==> states[m].status == AnalyticStatus::Stabilizing(v, since)) && (j
                == 0 || since == inputs[j - 1].0),
    decreases k,
{
    if k > 0 && states[k - 1].status == AnalyticStatus::Stabilizing(v, since) {
        lemma_stabilizing_entry(states, inputs, k - 1, v, since);
        let j = choose|j: int|
            0 <= j <= k - 1 && (#[trigger] states[j].status) == AnalyticStatus::Stabilizing(
                v,
                since,
            ) && (forall|m: int|
                j <= m <= k - 1 ==> states[m].status == AnalyticStatus::Stabilizing(v, since)) && (
            j == 0 || since == inputs[j - 1].0);
        assert(forall|m: int|
            j <= m <= k ==> states[m].status == AnalyticStatus::Stabilizing(v, since));
    } else if k == 0 {
        assert(states[0].status == AnalyticStatus::Stabilizing(v, since) && (forall|m: int|
            0 <= m <= 0 ==> states[m].status == AnalyticStatus::Stabilizing(v, since)));
    } else {
        // the step at k - 1 entered the dead-band and stamped the time
        assert(states[(k - 1) + 1].status == states[k - 1].spec_new_status(
            inputs[k - 1].0,
            inputs[k - 1].1,
        ));
        assert(states[(k - 1) + 1] == states[k]);
        assert(since == inputs[k - 1].0);
        assert(forall|m: int|
            k <= m <= k ==> states[m].status == AnalyticStatus::Stabilizing(v, since));
    }
}

/// The dwell law: a run never reaches `Stable(v)` unless it held
/// `Stabilizing(v, since)` through every intervening sample from the step
/// that entered the dead-band (stamping `since`) up to a step whose sample
/// arrived more than the stabilisation delay after `since`.
pub proof fn lemma_stable_requires_dwell(
    states: Seq<SamplesAnalytic>,
    inputs: Seq<(u64, i64)>,
    k: int,
    v: i64,
)
    requires
        analyser_run(states, inputs),
        0 <= k < states.len(),
        states[k].status == AnalyticStatus::Stable(v),
        states[0].status != AnalyticStatus::Stable(v),
    ensures
        exists|s: int, since: u64|
            #![trigger inputs[s - 1].0 - since]
            {
                &&& 0 < s <= k
                &&& states[s - 1].status == AnalyticStatus::Stabilizing(v, since)
                &&& states[s].status == AnalyticStatus::Stable(v)
                &&& inputs[s - 1].0 >= since
                &&& inputs[s - 1].0 - since > states[s - 1].stabilization_delay
                &&& (forall|m: int| s <= m <= k ==> states[m].status == AnalyticStatus::Stable(v))
                &&& (exists|j: int|
                    0 <= j < s && (#[trigger] states[j].status) == AnalyticStatus::Stabilizing(
                        v,
                        since,
                    ) && (forall|m: int|
                        j <= m < s ==> states[m].status == AnalyticStatus::Stabilizing(v, since))
                        && (j == 0 || since == inputs[j - 1].0))
            },
{
    lemma_first_stable(states, inputs, k, v);
    let s = choose|s: int|
        0 < s <= k && (#[trigger] states[s].status) == AnalyticStatus::Stable(v) && states[s
            - 1].status != AnalyticStatus::Stable(v) && (forall|m: int|
            s <= m <= k ==> states[m].status == AnalyticStatus::Stable(v));
    // only the dead-band branch with the dwell elapsed produces a fresh stable
    assert(states[(s - 1) + 1].status == states[s - 1].spec_new_status(
        inputs[s - 1].0,
        inputs[s - 1].1,
    ));
    assert(states[(s - 1) + 1] == states[s]);
    let since = choose|since: u64|
        states[s - 1].status == AnalyticStatus::Stabilizing(v, since);
    assert(states[s - 1].status == AnalyticStatus::Stabilizing(v, since));
    assert(inputs[s - 1].0 >= since && inputs[s - 1].0 - since > states[s
        - 1].stabilization_delay);
    lemma_stabilizing_entry(states, inputs, s - 1, v, since);
}

} // verus!
