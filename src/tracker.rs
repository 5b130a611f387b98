//! Turns the ordered stream of samples into notifications: alert edges, new
//! extremes past a hysteresis margin, and a periodic heartbeat.
use vstd::prelude::*;
use crate::config::Config;
use crate::sample::Sample;

verus! {

/// The two alert conditions of the device.
#[derive(Clone, Copy, Debug, PartialEq, Eq, Structural)]
pub enum AlertChannel {
    Under,
    Over,
}

/// What is handed to the publisher. Values are in millivolts.
#[derive(Clone, Copy, Debug, PartialEq, Eq, Structural)]
pub enum Notification {
    /// An alert condition changed; `active` is its new state.
    AlertStatus { channel: AlertChannel, value: i32, active: bool },
    /// A minimum below the last one reported, by at least the margin.
    Lowest { value: i32 },
    /// A maximum above the last one reported, by at least the margin.
    Highest { value: i32 },
    /// Heartbeat of the current value.
    Current { value: i32 },
}

pub open spec fn topic_spec(n: Notification) -> Seq<char> {
    match n {
        Notification::AlertStatus { .. } => "EVENTS/volt"@,
        _ => "VOLT"@,
    }
}

pub open spec fn kind_spec(n: Notification) -> Seq<char> {
    match n {
        Notification::AlertStatus { .. } => "alert_status_volt"@,
        Notification::Lowest { .. } => "lowest_volt"@,
        Notification::Highest { .. } => "highest_volt"@,
        Notification::Current { .. } => "current_volt"@,
    }
}

impl Notification {
    /// The topic the notification is published on: alert changes go to the
    /// event topic, values to the value topic.
    pub fn topic(&self) -> (r: &'static str)
        ensures
            r@ == topic_spec(*self),
    {
        match self {
            Notification::AlertStatus { .. } => "EVENTS/volt",
            _ => "VOLT",
        }
    }

    /// The `type` field of the notification's payload.
    pub fn kind(&self) -> (r: &'static str)
        ensures
            r@ == kind_spec(*self),
    {
        match self {
            Notification::AlertStatus { .. } => "alert_status_volt",
            Notification::Lowest { .. } => "lowest_volt",
            Notification::Highest { .. } => "highest_volt",
            Notification::Current { .. } => "current_volt",
        }
    }

    /// The value the notification carries, in millivolts.
    pub fn value(&self) -> (r: i32)
        ensures
            r == match *self {
                Notification::AlertStatus { value, .. } => value,
                Notification::Lowest { value } => value,
                Notification::Highest { value } => value,
                Notification::Current { value } => value,
            },
    {
        match self {
            Notification::AlertStatus { value, .. } => *value,
            Notification::Lowest { value } => *value,
            Notification::Highest { value } => *value,
            Notification::Current { value } => *value,
        }
    }
}

/// What the tracker remembers from one sample to the next.
#[derive(Clone, Copy, Debug, PartialEq, Eq, Structural)]
pub struct AlertState {
    pub last_alert_under: bool,
    pub last_alert_over: bool,
    /// A minimum is reported only when it lies below this.
    pub min_baseline: i64,
    /// A maximum is reported only when it lies above this.
    pub max_baseline: i64,
    /// When the last heartbeat went out, in milliseconds.
    pub last_publish_ms: u64,
}

pub open spec fn level(s: Sample, ch: AlertChannel) -> bool {
    match ch {
        AlertChannel::Under => s.alert_under,
        AlertChannel::Over => s.alert_over,
    }
}

pub open spec fn last_level(st: AlertState, ch: AlertChannel) -> bool {
    match ch {
        AlertChannel::Under => st.last_alert_under,
        AlertChannel::Over => st.last_alert_over,
    }
}

/// The notification of a change of one alert condition, if it changed. An
/// alert that comes on reports the extreme that caused it, one that goes
/// off reports the current value.
pub open spec fn edge_spec(st: AlertState, s: Sample, ch: AlertChannel) -> Seq<Notification> {
    if level(s, ch) != last_level(st, ch) {
        let value = if !level(s, ch) {
            s.current
        } else {
            match ch {
                AlertChannel::Under => s.min,
                AlertChannel::Over => s.max,
            }
        };
        seq![Notification::AlertStatus { channel: ch, value, active: level(s, ch) }]
    } else {
        seq![]
    }
}

pub open spec fn fires_lowest(st: AlertState, s: Sample) -> bool {
    s.min > 0 && (s.min as int) < st.min_baseline
}

pub open spec fn fires_highest(st: AlertState, s: Sample) -> bool {
    (s.max as int) > st.max_baseline
}

pub open spec fn heartbeat_due(st: AlertState, cfg: Config, s: Sample, now_ms: u64) -> bool {
    &&& now_ms >= st.last_publish_ms
    &&& now_ms - st.last_publish_ms > cfg.publish_timeout_ms
    &&& s.current > 0
}

/// The notifications for one sample, in their fixed order: under-range
/// alert, over-range alert, lowest, highest, heartbeat.
pub open spec fn notifications_spec(st: AlertState, cfg: Config, s: Sample, now_ms: u64) -> Seq<Notification> {
    edge_spec(st, s, AlertChannel::Under)
        + edge_spec(st, s, AlertChannel::Over)
        + (if fires_lowest(st, s) { seq![Notification::Lowest { value: s.min }] } else { seq![] })
        + (if fires_highest(st, s) { seq![Notification::Highest { value: s.max }] } else { seq![] })
        + (if heartbeat_due(st, cfg, s, now_ms) { seq![Notification::Current { value: s.current }] } else { seq![] })
}

/// The state after one sample.
pub open spec fn next_state(st: AlertState, cfg: Config, s: Sample, now_ms: u64) -> AlertState {
    AlertState {
        last_alert_under: s.alert_under,
        last_alert_over: s.alert_over,
        min_baseline: if fires_lowest(st, s) { (s.min - cfg.hysteresis) as i64 } else { st.min_baseline },
        max_baseline: if fires_highest(st, s) { (s.max + cfg.hysteresis) as i64 } else { st.max_baseline },
        last_publish_ms: if heartbeat_due(st, cfg, s, now_ms) { now_ms } else { st.last_publish_ms },
    }
}

/// The state after consuming `obs` in order, each sample with the time it
/// was consumed at.
pub open spec fn state_after(st: AlertState, cfg: Config, obs: Seq<(Sample, u64)>) -> AlertState
    decreases obs.len(),
{
    if obs.len() == 0 {
        st
    } else {
        next_state(state_after(st, cfg, obs.drop_last()), cfg, obs.last().0, obs.last().1)
    }
}

/// The notifications emitted for the `k`-th sample of `obs`.
pub open spec fn emitted_at(st: AlertState, cfg: Config, obs: Seq<(Sample, u64)>, k: int) -> Seq<Notification> {
    notifications_spec(state_after(st, cfg, obs.take(k)), cfg, obs[k].0, obs[k].1)
}

pub open spec fn is_alert_on(n: Notification, ch: AlertChannel) -> bool {
    match n {
        Notification::AlertStatus { channel, .. } => channel == ch,
        _ => false,
    }
}

/// How many alert-status notifications of channel `ch` are in `notes`.
pub open spec fn count_alerts(notes: Seq<Notification>, ch: AlertChannel) -> nat
    decreases notes.len(),
{
    if notes.len() == 0 {
        0
    } else {
        count_alerts(notes.drop_last(), ch) + if is_alert_on(notes.last(), ch) { 1nat } else { 0nat }
    }
}

proof fn lemma_state_after_step(st: AlertState, cfg: Config, obs: Seq<(Sample, u64)>, k: int)
    requires
        0 <= k < obs.len(),
    ensures
        state_after(st, cfg, obs.take(k + 1))
            == next_state(state_after(st, cfg, obs.take(k)), cfg, obs[k].0, obs[k].1),
{
    assert(obs.take(k + 1).drop_last() =~= obs.take(k));
}

proof fn lemma_count_concat(a: Seq<Notification>, b: Seq<Notification>, ch: AlertChannel)
    ensures
        count_alerts(a + b, ch) == count_alerts(a, ch) + count_alerts(b, ch),
    decreases b.len(),
{
    if b.len() == 0 {
        assert(a + b =~= a);
    } else {
        assert((a + b).drop_last() =~= a + b.drop_last());
        lemma_count_concat(a, b.drop_last(), ch);
    }
}

proof fn lemma_count_small(notes: Seq<Notification>, ch: AlertChannel)
    requires
        notes.len() <= 1,
    ensures
        count_alerts(notes, ch) == if notes.len() == 1 && is_alert_on(notes[0], ch) { 1nat } else { 0nat },
{
    if notes.len() == 1 {
        assert(count_alerts(notes.drop_last(), ch) == 0);
        assert(notes.last() == notes[0]);
    }
}

proof fn lemma_baseline_bound(st: AlertState, cfg: Config, obs: Seq<(Sample, u64)>, i: int, k: int)
    requires
        cfg.hysteresis >= 0,
        0 <= i < k <= obs.len(),
        fires_lowest(state_after(st, cfg, obs.take(i)), obs[i].0),
    ensures
        state_after(st, cfg, obs.take(k)).min_baseline <= obs[i].0.min - cfg.hysteresis,
    decreases k - i,
{
    lemma_state_after_step(st, cfg, obs, k - 1);
    if k - 1 > i {
        lemma_baseline_bound(st, cfg, obs, i, k - 1);
    }
}

/// Once a minimum `m` has been reported, a minimum is reported again only
/// when it lies below `m` minus the hysteresis margin.
pub proof fn lemma_lowest_hysteresis(st: AlertState, cfg: Config, obs: Seq<(Sample, u64)>, i: int, j: int)
    requires
        cfg.hysteresis >= 0,
        0 <= i < j < obs.len(),
        fires_lowest(state_after(st, cfg, obs.take(i)), obs[i].0),
        fires_lowest(state_after(st, cfg, obs.take(j)), obs[j].0),
    ensures
        obs[j].0.min < obs[i].0.min - cfg.hysteresis,
{
    lemma_baseline_bound(st, cfg, obs, i, j);
}

/// Each sample brings one alert-status notification of a channel when the
/// channel's condition differs from that of the sample before it (for the
/// first sample, from the state's), and none when it is the same.
pub proof fn lemma_alert_edges(st: AlertState, cfg: Config, obs: Seq<(Sample, u64)>, k: int, ch: AlertChannel)
    requires
        0 <= k < obs.len(),
    ensures
        count_alerts(emitted_at(st, cfg, obs, k), ch) == if level(obs[k].0, ch) != (if k == 0 {
            last_level(st, ch)
        } else {
            level(obs[k - 1].0, ch)
        }) {
            1nat
        } else {
            0nat
        },
{
    let p = state_after(st, cfg, obs.take(k));
    let s = obs[k].0;
    let now = obs[k].1;
    if k == 0 {
        assert(obs.take(0) =~= Seq::<(Sample, u64)>::empty());
    } else {
        lemma_state_after_step(st, cfg, obs, k - 1);
    }
    let e_under = edge_spec(p, s, AlertChannel::Under);
    let e_over = edge_spec(p, s, AlertChannel::Over);
    let lo = if fires_lowest(p, s) { seq![Notification::Lowest { value: s.min }] } else { seq![] };
    let hi = if fires_highest(p, s) { seq![Notification::Highest { value: s.max }] } else { seq![] };
    let hb = if heartbeat_due(p, cfg, s, now) { seq![Notification::Current { value: s.current }] } else { seq![] };
    lemma_count_concat(e_under, e_over, ch);
    lemma_count_concat(e_under + e_over, lo, ch);
    lemma_count_concat(e_under + e_over + lo, hi, ch);
    lemma_count_concat(e_under + e_over + lo + hi, hb, ch);
    lemma_count_small(e_under, ch);
    lemma_count_small(e_over, ch);
    lemma_count_small(lo, ch);
    lemma_count_small(hi, ch);
    lemma_count_small(hb, ch);
}

impl AlertState {
    /// The state at the start of a session: no alert seen, the baselines at
    /// the watermarks read from the device, the heartbeat clock started at
    /// `start_ms`.
    pub fn new(initial_min: i32, initial_max: i32, start_ms: u64) -> (r: AlertState)
        ensures
            r == (AlertState {
                last_alert_under: false,
                last_alert_over: false,
                min_baseline: initial_min as i64,
                max_baseline: initial_max as i64,
                last_publish_ms: start_ms,
            }),
    {
        AlertState {
            last_alert_under: false,
            last_alert_over: false,
            min_baseline: initial_min as i64,
            max_baseline: initial_max as i64,
            last_publish_ms: start_ms,
        }
    }

    /// Consumes one sample taken at `now_ms` and returns what to publish.
    pub fn process(&mut self, cfg: &Config, s: &Sample, now_ms: u64) -> (r: Vec<Notification>)
        ensures
            r@ == notifications_spec(*old(self), *cfg, *s, now_ms),
            *final(self) == next_state(*old(self), *cfg, *s, now_ms),
    {
        let ghost st = *self;
        let mut out: Vec<Notification> = Vec::new();
        if s.alert_under != self.last_alert_under {
            let value = if s.alert_under { s.min } else { s.current };
            out.push(Notification::AlertStatus { channel: AlertChannel::Under, value, active: s.alert_under });
        }
        let ghost n1 = out@;
        if s.alert_over != self.last_alert_over {
            let value = if s.alert_over { s.max } else { s.current };
            out.push(Notification::AlertStatus { channel: AlertChannel::Over, value, active: s.alert_over });
        }
        let ghost n2 = out@;
        self.last_alert_under = s.alert_under;
        self.last_alert_over = s.alert_over;
        if s.min > 0 && (s.min as i64) < self.min_baseline {
            out.push(Notification::Lowest { value: s.min });
            self.min_baseline = s.min as i64 - cfg.hysteresis as i64;
        }
        let ghost n3 = out@;
        if (s.max as i64) > self.max_baseline {
            out.push(Notification::Highest { value: s.max });
            self.max_baseline = s.max as i64 + cfg.hysteresis as i64;
        }
        let ghost n4 = out@;
        if now_ms >= self.last_publish_ms && now_ms - self.last_publish_ms > cfg.publish_timeout_ms
            && s.current > 0 {
            out.push(Notification::Current { value: s.current });
            self.last_publish_ms = now_ms;
        }
        proof {
            assert(n1 =~= edge_spec(st, *s, AlertChannel::Under));
            assert(n2 =~= n1 + edge_spec(st, *s, AlertChannel::Over));
            assert(out@ =~= notifications_spec(st, *cfg, *s, now_ms));
        }
        out
    }
}

} // verus!
