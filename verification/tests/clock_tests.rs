use pomodoro::Clock;

#[test]
fn test_clock_ms() {
    let mut clock = Clock::new();
    clock.set_time_ms(60000);
    assert_eq!(clock.get_time(), "01:00");
}

#[test]
fn test_clock_minutes() {
    let mut clock = Clock::new();
    clock.set_time_minutes(1);
    assert_eq!(clock.get_time(), "01:00");
}

#[test]
fn test_new_clock_is_zero() {
    let mut clock = Clock::new();
    assert_eq!(clock.get_time(), "00:00");
    assert_eq!(clock.get_ms_from_time(), 0);
}

#[test]
fn test_set_minutes_round_trip_is_exact() {
    let mut clock = Clock::new();
    clock.set_time_minutes(25);
    assert_eq!(clock.get_ms_from_time(), 25 * 60000);
    clock.set_time_minutes(90);
    assert_eq!(clock.get_ms_from_time(), 90 * 60000);
    clock.set_time_minutes(0);
    assert_eq!(clock.get_ms_from_time(), 0);
}

#[test]
fn test_format_zero_padded() {
    let mut clock = Clock::new();
    clock.set_time_minutes(5);
    assert_eq!(clock.get_time(), "05:00");
    clock.set_time_ms(9 * 60000 + 7000);
    assert_eq!(clock.get_time(), "09:07");
}

#[test]
fn test_format_widens_past_an_hour() {
    let mut clock = Clock::new();
    clock.set_time_minutes(125);
    assert_eq!(clock.get_time(), "125:00");
    assert_eq!(clock.get_ms_from_time(), 125 * 60000);
}

#[test]
fn test_sub_second_remainder_dropped() {
    let mut clock = Clock::new();
    clock.set_time_ms(59999);
    assert_eq!(clock.get_time(), "00:59");
    assert_eq!(clock.get_ms_from_time(), 59000);
}

#[test]
fn test_decrement_sixty_times_reaches_zero() {
    let mut clock = Clock::new();
    clock.set_time_minutes(1);
    for _ in 0..60 {
        clock.decrement_one_second();
    }
    assert_eq!(clock.get_ms_from_time(), 0);
    // the sixty-first call is a no-op, not an underflow
    clock.decrement_one_second();
    assert_eq!(clock.get_ms_from_time(), 0);
    assert_eq!(clock.get_time(), "00:00");
}

#[test]
fn test_decrement_borrows_a_minute() {
    let mut clock = Clock::new();
    clock.set_time_minutes(2);
    clock.decrement_one_second();
    assert_eq!(clock.get_time(), "01:59");
    assert_eq!(clock.get_ms_from_time(), 119000);
}

#[test]
fn test_gen_clock_lines() {
    let mut clock = Clock::new();
    clock.set_time_minutes(25);
    let lines = clock.gen_clock("Time to Work!");
    assert_eq!(lines.len(), 6);
    assert_eq!(lines[0], "╭───────────────────────────────────────╮");
    assert_eq!(lines[1], "│                                       │");
    assert_eq!(lines[2], "│             Time to Work!             │");
    assert_eq!(lines[3], "│                 25:00                 │");
    assert_eq!(lines[4], "│                                       │");
    assert_eq!(lines[5], "╰───────────────────────────────────────╯");
}
