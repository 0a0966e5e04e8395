use pomodoro::{
    sleep_duration, Command, CycleOutcome, PomodoroConfig, PomodoroSession, PomodoroState,
    SimTerminal, MAX_MINUTES,
};

fn make_session(
    input: Vec<Option<u8>>,
    work: u64,
    short: u64,
    long: u64,
) -> PomodoroSession<SimTerminal> {
    let term = SimTerminal::new(input);
    let config = PomodoroConfig::new(work, short, long).expect("config in range");
    PomodoroSession::new(term, 80, 40, config).expect("canvas large enough")
}

#[test]
fn test_config_rejects_oversized_lengths() {
    assert!(PomodoroConfig::new(25, 5, 20).is_some());
    assert!(PomodoroConfig::new(MAX_MINUTES, MAX_MINUTES, MAX_MINUTES).is_some());
    assert!(PomodoroConfig::new(MAX_MINUTES + 1, 5, 20).is_none());
    assert!(PomodoroConfig::new(25, u64::MAX, 20).is_none());
}

#[test]
fn test_session_rejects_small_canvas() {
    let config = PomodoroConfig::new(25, 5, 20).unwrap();
    assert!(PomodoroSession::new(SimTerminal::new(vec![]), 10, 40, config).is_none());
    let config = PomodoroConfig::new(25, 5, 20).unwrap();
    assert!(PomodoroSession::new(SimTerminal::new(vec![]), 80, 5, config).is_none());
    let config = PomodoroConfig::new(25, 5, 20).unwrap();
    assert!(PomodoroSession::new(SimTerminal::new(vec![]), 44, 30, config).is_some());
}

#[test]
fn test_sleep_duration_formula() {
    // in sync: a full second
    assert_eq!(sleep_duration(0, 0), 1000);
    assert_eq!(sleep_duration(5000, 5000), 1000);
    // true time ahead: shortened by exactly the overrun
    assert_eq!(sleep_duration(1400, 1000), 600);
    assert_eq!(sleep_duration(1999, 1000), 1);
    // an overrun of a tick or more: clamped at zero
    assert_eq!(sleep_duration(2000, 1000), 0);
    assert_eq!(sleep_duration(9999, 1000), 0);
    // woke early: lengthened by exactly the lag
    assert_eq!(sleep_duration(700, 1000), 1300);
}

#[test]
fn test_end_to_end_cycle() {
    // one minute of work, one minute of short break, no input at all
    let mut session = make_session(vec![], 1, 1, 1);
    let outcome = session.start_work();
    assert_eq!(outcome, CycleOutcome::Completed);
    // the work period was slot 1 and its break is the short one
    assert_eq!(session.tracker().get_order(), Some(1));
    assert_eq!(session.tracker().get_state(), PomodoroState::ShortBreak);
    // both clocks ran all the way down
    assert_eq!(session.clock().get_time(), "00:00");
    // both transitions were announced, in order
    let notes = &session.terminal().notifications;
    assert_eq!(notes.len(), 2);
    assert_eq!(notes[0], "Pomodoro Break!");
    assert_eq!(notes[1], "Pomodoro Break Over");
    // sixty drift-corrected ticks per phase
    assert_eq!(session.terminal().sleeps.len(), 120);
    assert!(session.terminal().sleeps.iter().all(|s| *s == 1000));
    // each tick redraws starting with the work count
    let first = &session.terminal().writes[0];
    assert_eq!(first.0, 40 - 9);
    assert_eq!(first.1, 20 + 5);
    assert_eq!(first.2, "Work Period 1 of 4");
}

#[test]
fn test_one_poll_per_tick() {
    let mut session = make_session(vec![None; 200], 1, 1, 1);
    assert_eq!(session.start_work(), CycleOutcome::Completed);
    // input is checked exactly once per tick, after the sleep
    assert_eq!(session.terminal().input_pos, 120);
    assert_eq!(session.terminal().sleeps.len(), 120);
}

#[test]
fn test_long_break_after_fourth_slot() {
    let mut session = make_session(vec![], 0, 0, 0);
    for _ in 0..3 {
        assert_eq!(session.start_work(), CycleOutcome::Completed);
        assert_eq!(session.tracker().get_state(), PomodoroState::ShortBreak);
    }
    assert_eq!(session.start_work(), CycleOutcome::Completed);
    assert_eq!(session.tracker().get_order(), Some(4));
    assert_eq!(session.tracker().get_state(), PomodoroState::LongBreak);
    // the fifth work period wraps back to slot 1
    assert_eq!(session.start_work(), CycleOutcome::Completed);
    assert_eq!(session.tracker().get_order(), Some(1));
}

#[test]
fn test_drift_stall_shortens_next_sleep() {
    // a redraw is ten writes; stall the end of tick 3's redraw by 400 ms
    let mut term = SimTerminal::new(vec![]);
    term.schedule_stall(30, 400);
    let config = PomodoroConfig::new(1, 1, 1).unwrap();
    let mut session = PomodoroSession::new(term, 80, 40, config).unwrap();
    let outcome = session.start_work();
    assert_eq!(outcome, CycleOutcome::Completed);
    let sleeps = &session.terminal().sleeps;
    assert_eq!(sleeps[0], 1000);
    assert_eq!(sleeps[1], 1000);
    assert_eq!(sleeps[2], 1000);
    // the next computed sleep is reduced by exactly the 400 ms overrun
    assert_eq!(sleeps[3], 600);
    // and the one after is back to a full second
    assert_eq!(sleeps[4], 1000);
}

#[test]
fn test_drift_large_stall_clamps_to_zero_and_no_double_decrement() {
    // stall tick 3's redraw by 1500 ms: more than a whole tick
    let term = {
        let mut t = SimTerminal::new(vec![]);
        t.schedule_stall(30, 1500);
        t
    };
    let config = PomodoroConfig::new(1, 1, 1).unwrap();
    let mut session = PomodoroSession::new(term, 80, 40, config).unwrap();
    assert_eq!(session.start_work(), CycleOutcome::Completed);
    let sleeps = &session.terminal().sleeps;
    // the next sleep is clamped at zero (at most 500 ms), the one after
    // takes out the remaining 500 ms of overrun
    assert_eq!(sleeps[3], 0);
    assert_eq!(sleeps[4], 500);
    assert_eq!(sleeps[5], 1000);
    // the displayed clock still ticked one second at a time: the time line
    // of each work redraw is the tick's eighth write
    let writes = &session.terminal().writes;
    let time_line = |tick: usize| writes[(tick - 1) * 10 + 7].2.clone();
    assert_eq!(time_line(3), "│                 00:57                 │");
    assert_eq!(time_line(4), "│                 00:56                 │");
    assert_eq!(time_line(5), "│                 00:55                 │");
}

#[test]
fn test_quit_honored_on_next_poll() {
    // the quit key arrives while tick 2 is asleep; it is seen at tick 2's
    // poll, before the decrement
    let mut session = make_session(vec![None, Some(b'q')], 1, 1, 1);
    let outcome = session.start_work();
    assert_eq!(outcome, CycleOutcome::Quit);
    assert_eq!(session.terminal().sleeps.len(), 2);
    assert_eq!(session.clock().get_time(), "00:59");
    assert!(session.terminal().notifications.is_empty());
}

#[test]
fn test_quit_during_break() {
    // 61 empty polls cover the whole work phase; the quit arrives on the
    // break's second tick
    let mut input: Vec<Option<u8>> = vec![None; 61];
    input.push(Some(b'q'));
    let mut session = make_session(input, 1, 1, 1);
    let outcome = session.start_work();
    assert_eq!(outcome, CycleOutcome::Quit);
    assert_eq!(session.tracker().get_state(), PomodoroState::ShortBreak);
    let notes = &session.terminal().notifications;
    assert_eq!(notes.len(), 1);
    assert_eq!(notes[0], "Pomodoro Break!");
}

#[test]
fn test_reset_mid_work_restarts_same_slot() {
    // two full cycles complete untouched; the third work period is reset on
    // its first tick
    let mut input: Vec<Option<u8>> = vec![None; 240];
    input.push(Some(b'r'));
    let mut session = make_session(input, 1, 1, 1);
    assert_eq!(session.start_work(), CycleOutcome::Completed);
    assert_eq!(session.start_work(), CycleOutcome::Completed);
    assert_eq!(session.tracker().get_order(), Some(2));
    let outcome = session.start_work();
    assert_eq!(outcome, CycleOutcome::Reset);
    assert_eq!(session.tracker().get_order(), Some(3));
    // the reset re-runs work at the same slot; no further input arrives, so
    // it completes
    let outcome = session.reset_current_pomodoro();
    assert_eq!(outcome, CycleOutcome::Completed);
    assert_eq!(session.tracker().get_order(), Some(3));
}

#[test]
fn test_menu_drawing_centered() {
    let mut session = make_session(vec![], 1, 1, 1);
    session.display_menu(None);
    let term = session.terminal();
    // the small menu is 19 columns wide and 5 rows tall on an 80x40 canvas
    assert_eq!(term.writes.len(), 5);
    assert_eq!(term.writes[0].0, 40 - 9);
    assert_eq!(term.writes[0].1, 20 - 2);
    assert_eq!(term.writes[0].2, "╔═════════════════╗");
    assert_eq!(term.writes[4].2, "╚═══╧═════════════╝");
    // the rows below the menu were cleared and the output flushed
    assert_eq!(term.clears, 7);
    assert_eq!(term.flushes, 1);
}

#[test]
fn test_wait_for_next_command_polls_once() {
    let mut session = make_session(vec![Some(b'x'), Some(b's'), None], 1, 1, 1);
    assert_eq!(session.wait_for_next_command(), Command::Nothing);
    assert_eq!(session.wait_for_next_command(), Command::Start);
    assert_eq!(session.wait_for_next_command(), Command::Nothing);
}

#[test]
fn test_async_listen_consumes_one_byte() {
    let mut session = make_session(vec![Some(b's'), Some(b'q')], 1, 1, 1);
    // `s` is not a countdown command
    assert_eq!(session.async_command_listen(), Command::Nothing);
    assert_eq!(session.async_command_listen(), Command::Quit);
    assert_eq!(session.async_command_listen(), Command::Nothing);
}

#[test]
fn test_begin_cycle_redraws_menu_after_quit() {
    let mut session = make_session(vec![Some(b'q')], 1, 1, 1);
    let outcome = session.begin_cycle();
    assert_eq!(outcome, CycleOutcome::Quit);
    // the between-pomodoros menu went out after the cycle ended
    assert!(session.terminal().flushes >= 1);
    let writes = &session.terminal().writes;
    assert_eq!(writes[writes.len() - 5].2, "╔═════════════════╗");
}

#[test]
fn test_countdown_idle_is_noop() {
    // a fresh session is idle: countdown and start_break complete at once
    // and change nothing
    let mut session = make_session(vec![Some(b'q')], 1, 1, 1);
    assert_eq!(session.countdown(), CycleOutcome::Completed);
    assert_eq!(session.start_break(), CycleOutcome::Completed);
    assert_eq!(session.tracker().get_order(), None);
    assert_eq!(session.tracker().get_state(), PomodoroState::Idle);
    assert_eq!(session.clock().get_time(), "00:00");
    // neither polled, slept, drew nor notified
    assert_eq!(session.terminal().input_pos, 0);
    assert_eq!(session.terminal().sleeps.len(), 0);
    assert_eq!(session.terminal().writes.len(), 0);
    assert!(session.terminal().notifications.is_empty());
}

#[test]
fn test_zero_length_phase_completes_immediately() {
    let mut session = make_session(vec![], 0, 0, 0);
    let outcome = session.start_work();
    assert_eq!(outcome, CycleOutcome::Completed);
    // no tick ran: nothing was slept and nothing was drawn mid-phase
    assert_eq!(session.terminal().sleeps.len(), 0);
    // but both phase transitions still fired their notifications
    assert_eq!(session.terminal().notifications.len(), 2);
}
