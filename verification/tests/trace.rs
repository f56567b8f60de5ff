use pomodoro::driver::{run_script, Event};
use pomodoro::timer::{Mode, TimerConfig};

fn status(mode: Mode, remaining: u64) -> Event {
    Event::Status { mode, remaining }
}

#[test]
fn demo_scenario_notification_sequence() {
    // work=2, short=1, long=3, two cycles before the long break, seconds mode,
    // beeping on, no automatic display switch.
    let c = TimerConfig::new(2, 1, 3, 2, true, false, true).unwrap();
    let events = run_script(&c, 13);
    let expected = vec![
        status(Mode::Work, 2),
        status(Mode::Work, 1),
        status(Mode::Work, 0),
        Event::Beep,
        status(Mode::ShortBreak, 1),
        status(Mode::ShortBreak, 0),
        Event::Beep,
        status(Mode::Work, 2),
        status(Mode::Work, 1),
        status(Mode::Work, 0),
        Event::Beep,
        status(Mode::LongBreak, 3),
        status(Mode::LongBreak, 2),
        status(Mode::LongBreak, 1),
        status(Mode::LongBreak, 0),
        Event::Beep,
        status(Mode::Work, 2),
        Event::Cleanup,
    ];
    assert_eq!(events, expected);
}

#[test]
fn display_switch_happens_exactly_once_on_first_notification() {
    let c = TimerConfig::new(2, 1, 3, 2, true, true, true).unwrap();
    // Thirteen ticks cross several mode transitions.
    let events = run_script(&c, 13);
    let switches: Vec<usize> = events
        .iter()
        .enumerate()
        .filter(|(_, e)| **e == Event::Switch)
        .map(|(i, _)| i)
        .collect();
    assert_eq!(switches, vec![1]);
    assert_eq!(events[0], status(Mode::Work, 2));
}

#[test]
fn no_display_switch_when_disabled() {
    let c = TimerConfig::new(2, 1, 3, 2, true, false, true).unwrap();
    let events = run_script(&c, 13);
    assert!(events.iter().all(|e| *e != Event::Switch));
}

#[test]
fn cancellation_before_first_tick_completes() {
    let c = TimerConfig::new(2, 1, 3, 2, true, true, true).unwrap();
    let events = run_script(&c, 1);
    assert_eq!(
        events,
        vec![status(Mode::Work, 2), Event::Switch, Event::Cleanup]
    );

    let no_switch = TimerConfig::new(2, 1, 3, 2, true, false, true).unwrap();
    let events = run_script(&no_switch, 1);
    assert_eq!(events, vec![status(Mode::Work, 2), Event::Cleanup]);
}

#[test]
fn cleanup_is_always_last_and_unique() {
    let c = TimerConfig::new(2, 1, 3, 2, true, true, true).unwrap();
    for ticks in 1..=20 {
        let events = run_script(&c, ticks);
        assert_eq!(*events.last().unwrap(), Event::Cleanup);
        let cleanups = events.iter().filter(|e| **e == Event::Cleanup).count();
        assert_eq!(cleanups, 1);
    }
}

#[test]
fn one_status_notification_per_completed_tick() {
    let c = TimerConfig::new(2, 1, 3, 2, true, true, true).unwrap();
    for ticks in 1..=20 {
        let events = run_script(&c, ticks);
        let statuses = events
            .iter()
            .filter(|e| matches!(e, Event::Status { .. }))
            .count();
        assert_eq!(statuses as u64, ticks);
    }
}

#[test]
fn beeps_exactly_at_each_zero_when_enabled() {
    let c = TimerConfig::new(2, 1, 3, 2, true, false, true).unwrap();
    let events = run_script(&c, 13);
    for (i, e) in events.iter().enumerate() {
        if let Event::Status { remaining: 0, .. } = e {
            assert_eq!(events[i + 1], Event::Beep);
        }
        if *e == Event::Beep {
            assert!(matches!(events[i - 1], Event::Status { remaining: 0, .. }));
        }
    }
}

#[test]
fn no_beeps_when_disabled() {
    let c = TimerConfig::new(2, 1, 3, 2, false, false, true).unwrap();
    let events = run_script(&c, 13);
    assert!(events.iter().all(|e| *e != Event::Beep));
}
