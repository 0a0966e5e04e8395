use pomodoro::{parse_async_command, parse_menu_command, Command, PomodoroState, StateTracker};

#[test]
fn test_start_cycle() {
    let mut pstate = StateTracker::new();
    pstate.increment_cycle();
    assert_eq!(pstate.get_order().unwrap(), 1);
}

#[test]
fn test_increment_cycle() {
    let mut pstate = StateTracker::new();
    pstate.increment_cycle();
    pstate.increment_cycle();
    assert_eq!(pstate.get_order().unwrap(), 2);
}

#[test]
fn test_cycle_loop() {
    let mut pstate = StateTracker::new();
    pstate.increment_cycle();
    pstate.increment_cycle();
    pstate.increment_cycle();
    pstate.increment_cycle();
    pstate.increment_cycle();
    assert_eq!(pstate.get_order(), Some(1));
}

#[test]
fn test_fresh_tracker() {
    let pstate = StateTracker::new();
    assert_eq!(pstate.get_order(), None);
    assert_eq!(pstate.get_state(), PomodoroState::Idle);
    assert_eq!(pstate.get_started_at(), None);
}

#[test]
fn test_begin_work_five_slots() {
    let mut pstate = StateTracker::new();
    let mut slots = Vec::new();
    for i in 0..5u64 {
        pstate.set_work_state(i * 1000);
        slots.push(pstate.get_order().unwrap());
        assert_eq!(pstate.get_state(), PomodoroState::Working);
        assert_eq!(pstate.get_started_at(), Some(i * 1000));
    }
    assert_eq!(slots, vec![1, 2, 3, 4, 1]);
}

#[test]
fn test_break_phase_by_slot() {
    for (times, expected) in [
        (1, PomodoroState::ShortBreak),
        (2, PomodoroState::ShortBreak),
        (3, PomodoroState::ShortBreak),
        (4, PomodoroState::LongBreak),
    ] {
        let mut pstate = StateTracker::new();
        for _ in 0..times {
            pstate.set_work_state(0);
        }
        pstate.set_break_state(7);
        assert_eq!(pstate.get_state(), expected);
        assert_eq!(pstate.get_started_at(), Some(7));
    }
}

#[test]
fn test_break_phase_without_slot_is_idle() {
    let mut pstate = StateTracker::new();
    pstate.set_break_state(0);
    assert_eq!(pstate.get_state(), PomodoroState::Idle);
}

#[test]
fn test_reset_preserves_slot() {
    let mut pstate = StateTracker::new();
    pstate.set_work_state(0);
    pstate.set_work_state(0);
    pstate.set_work_state(0);
    assert_eq!(pstate.get_order(), Some(3));
    // mid-work reset: step back, then begin work again
    pstate.decrement_cycle();
    assert_eq!(pstate.get_order(), Some(2));
    pstate.set_work_state(0);
    assert_eq!(pstate.get_order(), Some(3));
}

#[test]
fn test_reset_from_first_slot() {
    let mut pstate = StateTracker::new();
    pstate.set_work_state(0);
    assert_eq!(pstate.get_order(), Some(1));
    pstate.decrement_cycle();
    assert_eq!(pstate.get_order(), None);
    pstate.set_work_state(0);
    assert_eq!(pstate.get_order(), Some(1));
}

#[test]
fn test_parse_menu_command() {
    assert_eq!(parse_menu_command(Some(b's')), Command::Start);
    assert_eq!(parse_menu_command(Some(b'r')), Command::Reset);
    assert_eq!(parse_menu_command(Some(b'q')), Command::Quit);
    assert_eq!(parse_menu_command(Some(b'x')), Command::Nothing);
    assert_eq!(parse_menu_command(None), Command::Nothing);
}

#[test]
fn test_parse_async_command_ignores_start() {
    assert_eq!(parse_async_command(Some(b's')), Command::Nothing);
    assert_eq!(parse_async_command(Some(b'r')), Command::Reset);
    assert_eq!(parse_async_command(Some(b'q')), Command::Quit);
    assert_eq!(parse_async_command(None), Command::Nothing);
}
