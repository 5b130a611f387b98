use volt_i2c::config::Config;
use volt_i2c::device::{write_word_op, WordRegister};
use volt_i2c::multiplexer::{Action, Event, Multiplexer, Phase, KEY_PROG1, KEY_PROG2};
use volt_i2c::sample::{Sample, SampleSource};
use volt_i2c::tracker::{AlertChannel, AlertState, Notification};

fn cfg() -> Config {
    Config::new(9500, 50000, 1000, 60)
}

#[test]
fn running_dispatches_events() {
    let mut m = Multiplexer::new(cfg(), Some(true));
    assert_eq!(m.on_event(Event::Tick), Action::PollRead);
    assert_eq!(m.on_event(Event::Key { code: KEY_PROG2, level: 1 }), Action::TriggerRead { active: true });
    assert_eq!(m.on_event(Event::Key { code: KEY_PROG2, level: 0 }), Action::TriggerRead { active: false });
    assert_eq!(m.on_event(Event::Key { code: KEY_PROG1, level: 2 }), Action::TriggerRead { active: true });
    assert_eq!(m.on_event(Event::Key { code: 30, level: 1 }), Action::Idle);
    assert_eq!(m.on_event(Event::StreamEnded), Action::Idle);
    assert_eq!(m.phase, Phase::Running);
}

#[test]
fn prog1_ignored_when_device_lacks_prog2() {
    let mut m = Multiplexer::new(cfg(), Some(false));
    assert_eq!(m.on_event(Event::Key { code: KEY_PROG1, level: 1 }), Action::Idle);
    assert_eq!(m.on_event(Event::Key { code: KEY_PROG2, level: 1 }), Action::TriggerRead { active: true });
    let mut m = Multiplexer::new(cfg(), None);
    assert_eq!(m.on_event(Event::Key { code: KEY_PROG1, level: 1 }), Action::TriggerRead { active: true });
}

#[test]
fn termination_drains_then_stops() {
    let mut m = Multiplexer::new(cfg(), None);
    assert_eq!(m.on_event(Event::Terminate), Action::CloseQueue);
    assert_eq!(m.phase, Phase::Draining);
    assert_eq!(m.on_event(Event::Tick), Action::Idle);
    assert_eq!(m.on_event(Event::Key { code: KEY_PROG2, level: 1 }), Action::Idle);
    assert_eq!(m.on_event(Event::Terminate), Action::Idle);
    assert_eq!(m.phase, Phase::Draining);
    assert_eq!(m.on_event(Event::StreamEnded), Action::Idle);
    assert_eq!(m.phase, Phase::Stopped);
    assert_eq!(m.on_event(Event::Tick), Action::Idle);
    assert_eq!(m.phase, Phase::Stopped);
}

#[test]
fn samples_queued_before_termination_are_all_consumed() {
    let mut m = Multiplexer::new(cfg(), None);
    let mut queue: Vec<Sample> = Vec::new();
    assert_eq!(m.on_event(Event::Tick), Action::PollRead);
    queue.push(m.poll_sample(Some((12000, true)), Some((false, true)), Some(9000), Some(12000)).0);
    assert_eq!(m.on_event(Event::Tick), Action::PollRead);
    queue.push(m.poll_sample(Some((12000, false)), None, Some(9000), Some(12000)).0);
    assert_eq!(m.on_event(Event::Terminate), Action::CloseQueue);
    assert_eq!(m.on_event(Event::Tick), Action::Idle);
    let mut st = AlertState::new(20000, 60000, 0);
    let mut seen: Vec<Notification> = Vec::new();
    for s in queue.iter() {
        seen.extend(st.process(&cfg(), s, 10));
    }
    assert_eq!(m.on_event(Event::StreamEnded), Action::Idle);
    assert_eq!(m.phase, Phase::Stopped);
    assert_eq!(
        seen,
        vec![
            Notification::AlertStatus { channel: AlertChannel::Under, value: 9000, active: true },
            Notification::Lowest { value: 9000 },
            Notification::AlertStatus { channel: AlertChannel::Under, value: 12000, active: false },
        ]
    );
}

#[test]
fn poll_sample_uses_flags_only_with_alert() {
    let mut m = Multiplexer::new(cfg(), None);
    let (s, _) = m.poll_sample(Some((12000, false)), Some((true, true)), Some(11000), Some(13000));
    assert_eq!(s, Sample { current: 12000, min: 11000, max: 13000, alert_under: false, alert_over: false, source: SampleSource::Poll });
    let (s, _) = m.poll_sample(Some((12000, true)), Some((true, false)), Some(11000), Some(13000));
    assert_eq!((s.alert_over, s.alert_under), (true, false));
    let (s, _) = m.poll_sample(Some((12000, true)), None, Some(11000), Some(13000));
    assert_eq!((s.alert_over, s.alert_under), (true, false));
    let (s, _) = m.poll_sample(Some((12000, false)), None, Some(11000), Some(13000));
    assert_eq!((s.alert_over, s.alert_under), (false, false));
}

#[test]
fn failed_reads_keep_last_alert_conditions() {
    let mut m = Multiplexer::new(cfg(), None);
    let mut st = AlertState::new(0, 60000, 0);
    let (s, _) = m.poll_sample(Some((9000, true)), Some((false, true)), Some(8800), Some(9000));
    assert_eq!(
        st.process(&cfg(), &s, 1),
        vec![Notification::AlertStatus { channel: AlertChannel::Under, value: 8800, active: true }]
    );
    let (s, _) = m.poll_sample(Some((9000, true)), None, Some(8800), Some(9000));
    assert_eq!((s.alert_over, s.alert_under), (false, true));
    assert!(st.process(&cfg(), &s, 2).is_empty());
    let (s, _) = m.poll_sample(None, None, None, None);
    assert_eq!((s.current, s.min, s.max, s.alert_over, s.alert_under), (9000, 8800, 9000, false, true));
    assert!(st.process(&cfg(), &s, 3).is_empty());
    assert_eq!((m.last_alert_over, m.last_alert_under), (false, true));
}

#[test]
fn poll_sample_falls_back_to_last_values() {
    let mut m = Multiplexer::new(cfg(), None);
    let (s, _) = m.poll_sample(None, Some((true, true)), None, None);
    assert_eq!(s, Sample { current: 0, min: 0, max: 0, alert_under: false, alert_over: false, source: SampleSource::Poll });
    m.poll_sample(Some((12000, false)), None, Some(11000), Some(13000));
    let (s, _) = m.poll_sample(None, None, None, None);
    assert_eq!((s.current, s.min, s.max), (12000, 11000, 13000));
    assert_eq!((m.last_current, m.last_min, m.last_max), (12000, 11000, 13000));
}

#[test]
fn poll_sample_rearms_stale_watermarks() {
    let mut m = Multiplexer::new(cfg(), None);
    let (_, ops) = m.poll_sample(Some((12000, false)), None, Some(9000), Some(52000));
    assert_eq!(ops, vec![write_word_op(WordRegister::Min, 50000), write_word_op(WordRegister::Max, 1000)]);
    let (_, ops) = m.poll_sample(Some((9000, false)), None, Some(9000), Some(12000));
    assert!(ops.is_empty());
    let (_, ops) = m.poll_sample(Some((51000, false)), None, Some(12000), Some(52000));
    assert!(ops.is_empty());
    let (_, ops) = m.poll_sample(Some((9500, false)), None, Some(9000), Some(12000));
    assert!(ops.is_empty());
}

#[test]
fn trigger_sample_fallbacks() {
    let mut m = Multiplexer::new(cfg(), None);
    m.poll_sample(Some((12000, false)), None, Some(11000), Some(13000));
    let s = m.trigger_sample(true, Some(8000), Some(7500));
    assert_eq!(s, Sample { current: 8000, min: 7500, max: 13000, alert_under: true, alert_over: false, source: SampleSource::DigitalTrigger });
    let s = m.trigger_sample(false, None, None);
    assert_eq!((s.current, s.min, s.alert_under), (12000, 12000, false));
    let s = m.trigger_sample(true, None, Some(7000));
    assert_eq!((s.current, s.min), (12000, 7000));
}
