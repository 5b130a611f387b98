//! The decisions of the event loop that merges the poll timer, the digital
//! trigger and the termination signals into one ordered stream of samples.
//!
//! The loop itself waits and performs the bus transactions; for each event
//! it asks `on_event` what to do, and hands what it read to `poll_sample` or
//! `trigger_sample`.
use vstd::prelude::*;
use crate::config::Config;
use crate::device::{write_word_op, write_word_spec, BusOp, WordRegister};
use crate::sample::{Sample, SampleSource};

verus! {

/// Key code of the trigger input that is always watched.
pub const KEY_PROG2: u16 = 149;
/// Key code of the trigger input that is watched unless the input device is
/// known to lack `KEY_PROG2`.
pub const KEY_PROG1: u16 = 148;
/// Written to the minimum watermark to re-arm it.
pub const REARM_MIN_MV: i32 = 50000;
/// Written to the maximum watermark to re-arm it.
pub const REARM_MAX_MV: i32 = 1000;

#[derive(Clone, Copy, Debug, PartialEq, Eq, Structural)]
pub enum Phase {
    Running,
    Draining,
    Stopped,
}

/// What woke the loop.
#[derive(Clone, Copy, Debug, PartialEq, Eq, Structural)]
pub enum Event {
    /// The poll timer fired.
    Tick,
    /// A key event of the digital input: its code and level.
    Key { code: u16, level: i32 },
    /// A termination signal arrived.
    Terminate,
    /// The consumer has seen the end of the queue.
    StreamEnded,
}

/// What the loop is to do next.
#[derive(Clone, Copy, Debug, PartialEq, Eq, Structural)]
pub enum Action {
    /// Nothing.
    Idle,
    /// Read value, alert status if latched, minimum and maximum, then call
    /// `poll_sample`.
    PollRead,
    /// Read minimum and value, then call `trigger_sample` with `active`.
    TriggerRead { active: bool },
    /// Close the queue and issue no further reads.
    CloseQueue,
}

/// The loop's state: its phase, which trigger keys count, and the last
/// values and alert conditions a poll obtained, which stand in for a failed
/// read.
#[derive(Clone, Copy, Debug, PartialEq, Eq, Structural)]
pub struct Multiplexer {
    pub config: Config,
    pub phase: Phase,
    pub prog1_enabled: bool,
    pub last_current: i32,
    pub last_min: i32,
    pub last_max: i32,
    pub last_alert_under: bool,
    pub last_alert_over: bool,
}

pub open spec fn recognized(m: Multiplexer, code: u16) -> bool {
    code == KEY_PROG2 || (code == KEY_PROG1 && m.prog1_enabled)
}

pub open spec fn action_spec(m: Multiplexer, ev: Event) -> Action {
    match m.phase {
        Phase::Running => match ev {
            Event::Tick => Action::PollRead,
            Event::Key { code, level } => if recognized(m, code) {
                Action::TriggerRead { active: level != 0 }
            } else {
                Action::Idle
            },
            Event::Terminate => Action::CloseQueue,
            Event::StreamEnded => Action::Idle,
        },
        _ => Action::Idle,
    }
}

pub open spec fn phase_after(p: Phase, ev: Event) -> Phase {
    match (p, ev) {
        (Phase::Running, Event::Terminate) => Phase::Draining,
        (Phase::Draining, Event::StreamEnded) => Phase::Stopped,
        _ => p,
    }
}

/// The phase never returns to `Running` once it has left it.
pub proof fn lemma_no_return_to_running(p: Phase, ev: Event)
    ensures
        phase_after(p, ev) == Phase::Running ==> p == Phase::Running,
        p == Phase::Stopped ==> phase_after(p, ev) == Phase::Stopped,
{
}

/// The state after dispatching `evs` in order.
pub open spec fn after_events(m: Multiplexer, evs: Seq<Event>) -> Multiplexer
    decreases evs.len(),
{
    if evs.len() == 0 {
        m
    } else {
        let p = after_events(m, evs.drop_last());
        Multiplexer { phase: phase_after(p.phase, evs.last()), ..p }
    }
}

/// Once a termination signal has been dispatched, no later event leads to a
/// read, nor back to `Running`.
pub proof fn lemma_no_reads_after_termination(m: Multiplexer, evs: Seq<Event>, t: int, k: int)
    requires
        0 <= t < k < evs.len(),
        evs[t] == Event::Terminate,
    ensures
        after_events(m, evs.take(k)).phase != Phase::Running,
        action_spec(after_events(m, evs.take(k)), evs[k]) != Action::PollRead,
        !(action_spec(after_events(m, evs.take(k)), evs[k]) is TriggerRead),
    decreases k - t,
{
    assert(evs.take(k).drop_last() =~= evs.take(k - 1));
    assert(evs.take(k).last() == evs[k - 1]);
    if k - 1 > t {
        lemma_no_reads_after_termination(m, evs, t, k - 1);
    }
}

/// The sample of a poll. The status is consulted only when the value read
/// reported a latched alert; without one, no alert is active. A failed read
/// leaves what the last poll had: the last value and alert conditions for
/// the value read, the last alert conditions for the status read, the last
/// watermark for a watermark read.
pub open spec fn poll_sample_spec(
    m: Multiplexer,
    current: Option<(i32, bool)>,
    flags: Option<(bool, bool)>,
    min: Option<i32>,
    max: Option<i32>,
) -> Sample {
    let last_flags = (m.last_alert_over, m.last_alert_under);
    let (cur, (over, under)) = match current {
        Some((c, alert)) => (c, if !alert {
            (false, false)
        } else {
            match flags {
                Some(f) => f,
                None => last_flags,
            }
        }),
        None => (m.last_current, last_flags),
    };
    Sample {
        current: cur,
        min: match min { Some(v) => v, None => m.last_min },
        max: match max { Some(v) => v, None => m.last_max },
        alert_under: under,
        alert_over: over,
        source: SampleSource::Poll,
    }
}

/// The watermark writes after a poll: a minimum below the under-range
/// threshold while the current value is back above it is reset high, and a
/// maximum above the over-range threshold while the current value is back
/// below it is reset low.
pub open spec fn rearm_spec(cfg: Config, s: Sample) -> Seq<BusOp> {
    (if s.min < cfg.under_range && s.current > cfg.under_range {
        seq![write_word_spec(WordRegister::Min, REARM_MIN_MV as int)]
    } else {
        seq![]
    }) + (if s.max > cfg.over_range && s.current < cfg.over_range {
        seq![write_word_spec(WordRegister::Max, REARM_MAX_MV as int)]
    } else {
        seq![]
    })
}

/// The sample of a trigger: the alert-under state is the trigger's level;
/// a failed value read falls back to the last value polled, a failed
/// minimum read to the current value; the maximum is the last one polled.
pub open spec fn trigger_sample_spec(m: Multiplexer, active: bool, current: Option<i32>, min: Option<i32>) -> Sample {
    let cur = match current {
        Some(c) => c,
        None => m.last_current,
    };
    Sample {
        current: cur,
        min: match min { Some(v) => v, None => cur },
        max: m.last_max,
        alert_under: active,
        alert_over: false,
        source: SampleSource::DigitalTrigger,
    }
}

impl Multiplexer {
    /// A running loop with nothing read yet. `has_prog2` tells whether the
    /// input device lists `KEY_PROG2`, where its key list is known.
    pub fn new(config: Config, has_prog2: Option<bool>) -> (r: Multiplexer)
        ensures
            r == (Multiplexer {
                config,
                phase: Phase::Running,
                prog1_enabled: has_prog2 != Some(false),
                last_current: 0,
                last_min: 0,
                last_max: 0,
                last_alert_under: false,
                last_alert_over: false,
            }),
    {
        let prog1_enabled = match has_prog2 {
            Some(b) => b,
            None => true,
        };
        Multiplexer { config, phase: Phase::Running, prog1_enabled, last_current: 0, last_min: 0, last_max: 0,
            last_alert_under: false, last_alert_over: false }
    }

    /// Dispatches one event. Only a termination signal leaves `Running`,
    /// for `Draining`; only the end of the stream leaves `Draining`, for
    /// `Stopped`; outside `Running` nothing is read.
    pub fn on_event(&mut self, ev: Event) -> (r: Action)
        ensures
            r == action_spec(*old(self), ev),
            *final(self) == (Multiplexer { phase: phase_after(old(self).phase, ev), ..*old(self) }),
    {
        match self.phase {
            Phase::Running => match ev {
                Event::Tick => Action::PollRead,
                Event::Key { code, level } => {
                    if code == KEY_PROG2 || (code == KEY_PROG1 && self.prog1_enabled) {
                        Action::TriggerRead { active: level != 0 }
                    } else {
                        Action::Idle
                    }
                },
                Event::Terminate => {
                    self.phase = Phase::Draining;
                    Action::CloseQueue
                },
                Event::StreamEnded => Action::Idle,
            },
            Phase::Draining => {
                if let Event::StreamEnded = ev {
                    self.phase = Phase::Stopped;
                }
                Action::Idle
            },
            Phase::Stopped => Action::Idle,
        }
    }

    /// Builds the sample of a poll from what the reads returned (`None` for
    /// a failed or skipped read), remembers its values, and returns the
    /// watermark writes that re-arm the device.
    pub fn poll_sample(
        &mut self,
        current: Option<(i32, bool)>,
        flags: Option<(bool, bool)>,
        min: Option<i32>,
        max: Option<i32>,
    ) -> (r: (Sample, Vec<BusOp>))
        ensures
            r.0 == poll_sample_spec(*old(self), current, flags, min, max),
            r.1@ == rearm_spec(old(self).config, r.0),
            *final(self) == (Multiplexer {
                last_current: r.0.current,
                last_min: r.0.min,
                last_max: r.0.max,
                last_alert_under: r.0.alert_under,
                last_alert_over: r.0.alert_over,
                ..*old(self)
            }),
    {
        let last_flags = (self.last_alert_over, self.last_alert_under);
        let (cur, (over, under)) = match current {
            Some((c, alert)) => (c, if !alert {
                (false, false)
            } else {
                match flags {
                    Some(f) => f,
                    None => last_flags,
                }
            }),
            None => (self.last_current, last_flags),
        };
        let mn = match min {
            Some(v) => v,
            None => self.last_min,
        };
        let mx = match max {
            Some(v) => v,
            None => self.last_max,
        };
        let s = Sample { current: cur, min: mn, max: mx, alert_under: under, alert_over: over, source: SampleSource::Poll };
        let mut ops: Vec<BusOp> = Vec::new();
        if mn < self.config.under_range && cur > self.config.under_range {
            ops.push(write_word_op(WordRegister::Min, REARM_MIN_MV));
        }
        if mx > self.config.over_range && cur < self.config.over_range {
            ops.push(write_word_op(WordRegister::Max, REARM_MAX_MV));
        }
        proof {
            assert(ops@ =~= rearm_spec(self.config, s));
        }
        self.last_current = cur;
        self.last_min = mn;
        self.last_max = mx;
        self.last_alert_under = under;
        self.last_alert_over = over;
        (s, ops)
    }

    /// Builds the sample of a trigger with level `active` from what the
    /// reads returned (`None` for a failed read).
    pub fn trigger_sample(&self, active: bool, current: Option<i32>, min: Option<i32>) -> (r: Sample)
        ensures
            r == trigger_sample_spec(*self, active, current, min),
    {
        let cur = match current {
            Some(c) => c,
            None => self.last_current,
        };
        let mn = match min {
            Some(v) => v,
            None => cur,
        };
        Sample {
            current: cur,
            min: mn,
            max: self.last_max,
            alert_under: active,
            alert_over: false,
            source: SampleSource::DigitalTrigger,
        }
    }
}

} // verus!
