//! The pomodoro session: the drift-corrected countdown loop, phase
//! transitions, screen drawing and command polling, generic over the
//! [`Terminal`] capability.

use vstd::prelude::*;
use crate::clock::{digit_str, Clock, MAX_MINUTES, MINUTE_MS};
use crate::command::{parse_async_command, parse_menu_command, Command};
use crate::config::PomodoroConfig;
use crate::terminal::Terminal;
use crate::tracker::{
    spec_break_state, spec_next_order, spec_prev_order, PomodoroState, StateTracker,
};

verus! {

/// Smallest canvas width the drawing routines need: the widest block (the
/// framed clock, 41 columns) plus a margin on each side.
pub const MIN_WIDTH: u16 = 44;

/// Smallest canvas height the drawing routines need.
pub const MIN_HEIGHT: u16 = 30;

/// How a countdown ended.
#[derive(Clone, Copy, Debug, PartialEq, Eq, Structural)]
pub enum CycleOutcome {
    /// The clock reached zero and the phase ran to completion.
    Completed,
    /// The user asked to quit; control returns to the caller at once.
    Quit,
    /// The user asked to reset the current pomodoro; the caller restarts
    /// work at the same slot by calling `reset_current_pomodoro`.
    Reset,
}

/// The drift-corrected sleep before the next tick: nominally one second,
/// shortened by exactly the amount true elapsed time has outrun the time the
/// displayed clock accounts for (clamped at zero), and lengthened by exactly
/// the amount it lags behind.
pub open spec fn spec_sleep_duration(true_elapsed: int, logical_elapsed: int) -> int {
    if true_elapsed >= logical_elapsed + 1000 {
        0
    } else {
        logical_elapsed + 1000 - true_elapsed
    }
}

/// Computes the drift-corrected sleep before the next tick.
pub fn sleep_duration(true_elapsed: u64, logical_elapsed: u64) -> (r: u64)
    requires
        logical_elapsed <= u64::MAX - 1000,
    ensures
        r == spec_sleep_duration(true_elapsed as int, logical_elapsed as int),
{
    let target = logical_elapsed + 1000;
    if true_elapsed >= target {
        0
    } else {
        target - true_elapsed
    }
}

/// Law: when true time has outrun the displayed clock by a drift of `d`
/// milliseconds, the next sleep is exactly `1000 - d`, clamped at zero: an
/// overrun is taken out of the following tick in full, so the display
/// catches back up to within one tick.
pub proof fn lemma_sleep_compensates(true_elapsed: int, logical_elapsed: int)
    requires
        true_elapsed >= logical_elapsed,
    ensures
        ({
            let drift = true_elapsed - logical_elapsed;
            spec_sleep_duration(true_elapsed, logical_elapsed) == if drift >= 1000 {
                0int
            } else {
                1000 - drift
            }
        }),
{
}

/// This struct represents a pomodoro session: from the start of the program
/// until the user quits.  It keeps the canvas size queried once at startup,
/// the cycle tracker, the countdown clock, the settled configuration, and
/// the terminal capability through which all input, output, timing and
/// notification effects go.
pub struct PomodoroSession<T> {
    term: T,
    width: u16,
    height: u16,
    pomodoro_tracker: StateTracker,
    clock: Clock,
    config: PomodoroConfig,
}

impl<T> PomodoroSession<T> {
    /// The terminal capability.
    pub closed spec fn spec_term(&self) -> T {
        self.term
    }

    /// The canvas width.
    pub closed spec fn spec_width(&self) -> u16 {
        self.width
    }

    /// The canvas height.
    pub closed spec fn spec_height(&self) -> u16 {
        self.height
    }

    /// The cycle tracker.
    pub closed spec fn spec_tracker(&self) -> StateTracker {
        self.pomodoro_tracker
    }

    /// The countdown clock.
    pub closed spec fn spec_clock(&self) -> Clock {
        self.clock
    }

    /// The configured phase lengths.
    pub closed spec fn spec_config(&self) -> PomodoroConfig {
        self.config
    }

    /// Well-formedness: the canvas is large enough to draw on and every
    /// component is itself well-formed.
    pub open spec fn wf(&self) -> bool {
        &&& self.spec_width() >= MIN_WIDTH
        &&& self.spec_height() >= MIN_HEIGHT
        &&& self.spec_clock().wf()
        &&& self.spec_tracker().wf()
        &&& self.spec_config().wf()
    }

    /// The canvas and the configuration never change over a session.
    pub open spec fn shape_preserved(pre: &Self, post: &Self) -> bool {
        &&& post.spec_width() == pre.spec_width()
        &&& post.spec_height() == pre.spec_height()
        &&& post.spec_config() == pre.spec_config()
    }

    /// Everything but the terminal is unchanged.
    pub open spec fn state_preserved(pre: &Self, post: &Self) -> bool {
        &&& Self::shape_preserved(pre, post)
        &&& post.spec_tracker() == pre.spec_tracker()
        &&& post.spec_clock() == pre.spec_clock()
    }

    /// Builds a session over the given terminal, rejecting a canvas too
    /// small to draw on and configurations the clock cannot hold.
    pub fn new(term: T, width: u16, height: u16, config: PomodoroConfig) -> (r: Option<
        PomodoroSession<T>,
    >)
        ensures
            (width >= MIN_WIDTH && height >= MIN_HEIGHT && config.wf()) ==> (r matches Some(s)
                && s.wf() && s.spec_width() == width && s.spec_height() == height && s.spec_config()
                == config && s.spec_tracker().spec_order() is None && s.spec_tracker().spec_state()
                == PomodoroState::Idle && s.spec_tracker().spec_started() is None
                && s.spec_clock().spec_total_ms() == 0),
            !(width >= MIN_WIDTH && height >= MIN_HEIGHT && config.wf()) ==> r is None,
    {
        if width >= MIN_WIDTH && height >= MIN_HEIGHT && config.work_time <= MAX_MINUTES
            && config.short_break_time <= MAX_MINUTES && config.long_break_time <= MAX_MINUTES {
            Some(
                PomodoroSession {
                    term,
                    width,
                    height,
                    pomodoro_tracker: StateTracker::new(),
                    clock: Clock::new(),
                    config,
                },
            )
        } else {
            None
        }
    }

    /// Borrows the terminal capability, e.g. to inspect a simulated one.
    pub fn terminal(&self) -> (r: &T)
        ensures
            *r == self.spec_term(),
    {
        &self.term
    }

    /// Consumes the session and hands the terminal capability back, e.g.
    /// for the caller to restore the screen after the session ends.
    pub fn into_terminal(self) -> (r: T)
        ensures
            r == self.spec_term(),
    {
        self.term
    }

    /// Borrows the cycle tracker.
    pub fn tracker(&self) -> (r: &StateTracker)
        ensures
            *r == self.spec_tracker(),
    {
        &self.pomodoro_tracker
    }

    /// Borrows the countdown clock.
    pub fn clock(&self) -> (r: &Clock)
        ensures
            *r == self.spec_clock(),
    {
        &self.clock
    }
}

/// The offset a drawing call applies below the vertical center.
pub open spec fn spec_offset(height_offset: Option<u16>) -> int {
    match height_offset {
        Option::Some(o) => o as int,
        Option::None => 0,
    }
}

/// The configured length, in minutes, of the break owed after slot `o`:
/// the long break's length after slot 4, the short break's after slots 1 to
/// 3, and zero where no break is owed.
pub open spec fn spec_break_minutes(o: Option<i32>, c: PomodoroConfig) -> u64 {
    if spec_break_state(o) == PomodoroState::LongBreak {
        c.long_break_time
    } else if spec_break_state(o) == PomodoroState::ShortBreak {
        c.short_break_time
    } else {
        0
    }
}

impl<T: Terminal> PomodoroSession<T> {
    /// Takes a block of lines and writes it centered on the canvas, clearing
    /// each written row first; centering follows the width of the block's
    /// second line.  Returns the index of the last line written, in case a
    /// caller needs to clear space after it.
    pub fn draw_centered(&mut self, item: &Vec<String>, height_offset: Option<u16>) -> (r: usize)
        requires
            old(self).wf(),
            2 <= item@.len(),
            item@.len() + 2 <= old(self).spec_height(),
            item@[1]@.len() + 2 <= old(self).spec_width(),
            old(self).spec_height() / 2 + spec_offset(height_offset) + item@.len() <= u16::MAX,
        ensures
            Self::state_preserved(old(self), final(self)),
            r == item@.len() - 1,
    {
        let h: u16 = item.len() as u16;
        let w: u16 = item[1].as_str().unicode_len() as u16;
        let offset: u16 = match height_offset {
            Some(o) => o,
            None => 0,
        };
        let col: u16 = self.width / 2 - w / 2;
        let base: u16 = self.height / 2 - h / 2 + offset;
        let mut i: usize = 0;
        while i < item.len()
            invariant
                old(self).wf(),
                Self::state_preserved(old(self), self),
                i <= item@.len(),
                item@.len() + 2 <= old(self).spec_height(),
                col >= 1,
                base >= 1,
                base + item@.len() <= u16::MAX,
            decreases item@.len() - i,
        {
            self.term.write_line_at(col, base + i as u16, item[i].as_str());
            i = i + 1;
        }
        item.len() - 1
    }

    /// Draws the framed clock block centered on the screen.
    pub fn draw_clock(&mut self, clock: Vec<String>)
        requires
            old(self).wf(),
            2 <= clock@.len(),
            clock@.len() + 2 <= old(self).spec_height(),
            clock@[1]@.len() + 2 <= old(self).spec_width(),
            old(self).spec_height() / 2 + clock@.len() <= u16::MAX,
        ensures
            Self::state_preserved(old(self), final(self)),
    {
        self.draw_centered(&clock, None);
    }

    /// Draws the current work count, e.g. `Work Period 1 of 4`.
    pub fn draw_work_count(&mut self)
        requires
            old(self).wf(),
            old(self).spec_tracker().spec_order() is Some,
        ensures
            Self::state_preserved(old(self), final(self)),
    {
        let order = self.pomodoro_tracker.get_order().unwrap();
        let text = work_count_line(order as u64);
        let col: u16 = self.width / 2 - 9;
        let row: u16 = self.height / 2 + 5;
        self.term.write_line_at(col, row, text.as_str());
    }

    /// Draws the controls reminder shown while a clock is rolling.
    pub fn draw_controls_help(&mut self)
        requires
            old(self).wf(),
        ensures
            Self::state_preserved(old(self), final(self)),
    {
        let controls = controls_lines();
        self.draw_centered(&controls, Some(8));
    }

    /// Draws the work screen: the work count, the controls reminder and the
    /// work clock.
    pub fn draw_work_screen(&mut self)
        requires
            old(self).wf(),
            old(self).spec_tracker().spec_order() is Some,
        ensures
            Self::state_preserved(old(self), final(self)),
    {
        let clock = self.clock.gen_clock("Time to Work!");
        self.draw_work_count();
        self.draw_controls_help();
        self.draw_clock(clock);
    }

    /// Draws the break screen: the work count, the break clock and the
    /// controls reminder.
    pub fn draw_break_screen(&mut self)
        requires
            old(self).wf(),
            old(self).spec_tracker().spec_order() is Some,
        ensures
            Self::state_preserved(old(self), final(self)),
    {
        let clock = self.clock.gen_clock("Time to Chill");
        self.draw_work_count();
        self.draw_clock(clock);
        self.draw_controls_help();
    }

    /// Clears the rows `from..to` counted from three rows above the vertical
    /// center.
    fn clear_lines(&mut self, from: usize, to: usize)
        requires
            old(self).wf(),
            to <= 1000,
        ensures
            Self::state_preserved(old(self), final(self)),
    {
        let mut i: usize = from;
        while i < to
            invariant
                old(self).wf(),
                Self::state_preserved(old(self), self),
                to <= 1000,
            decreases to - i,
        {
            self.term.clear_line(self.height / 2 - 3 + i as u16);
            i = i + 1;
        }
    }

    /// Displays a pomodoro menu: the given block, or the small
    /// between-pomodoros menu when none is given, then clears the rows below
    /// it and flushes.  The caller then polls `wait_for_next_command` for
    /// the user's choice.
    pub fn display_menu(&mut self, menu: Option<Vec<String>>)
        requires
            old(self).wf(),
            menu matches Some(m) ==> (2 <= m@.len() && m@.len() + 10 <= old(self).spec_height()
                && m@[1]@.len() + 2 <= old(self).spec_width() && m@.len() <= 100),
        ensures
            Self::state_preserved(old(self), final(self)),
    {
        let m = match menu {
            Some(m) => m,
            None => menu_lines(),
        };
        let last_i = self.draw_centered(&m, None);
        self.clear_lines(last_i + 1, last_i + 8);
        self.term.flush();
    }

    /// Polls once for a menu command: reads at most one byte without
    /// blocking and maps `s`, `r` and `q`; yields `Command::Nothing` when no
    /// byte or an unrecognized byte arrived, in which case the caller waits
    /// and polls again.
    pub fn wait_for_next_command(&mut self) -> (r: Command)
        ensures
            Self::state_preserved(old(self), final(self)),
    {
        let b = self.term.read_byte();
        parse_menu_command(b)
    }

    /// Listens for the next command while the clock is counting down, in a
    /// non-blocking fashion: reads at most one byte and recognizes only
    /// reset and quit; anything else, the start key included, is discarded.
    pub fn async_command_listen(&mut self) -> (r: Command)
        ensures
            Self::state_preserved(old(self), final(self)),
            r != Command::Start,
    {
        let b = self.term.read_byte();
        parse_async_command(b)
    }

    /// One phase's countdown loop of configured length `len_minutes`: each
    /// tick sleeps the drift-corrected amount, polls for a command,
    /// decrements the clock by one second and redraws, until the clock
    /// reaches zero or the user quits or resets.
    fn run_countdown(&mut self, len_minutes: u64, work_screen: bool) -> (r: CycleOutcome)
        requires
            old(self).wf(),
            len_minutes <= MAX_MINUTES,
            old(self).spec_clock().spec_total_ms() <= len_minutes * 60000,
            old(self).spec_tracker().spec_started() is Some,
            old(self).spec_tracker().spec_order() is Some,
        ensures
            final(self).wf(),
            Self::shape_preserved(old(self), final(self)),
            final(self).spec_tracker() == old(self).spec_tracker(),
            r == CycleOutcome::Completed ==> final(self).spec_clock().spec_total_ms() == 0,
            r != CycleOutcome::Completed ==> final(self).spec_clock().spec_total_ms() > 0,
            old(self).spec_clock().spec_total_ms() == 0 ==> r == CycleOutcome::Completed,
    {
        let len_ms: u64 = len_minutes * MINUTE_MS;
        let t0 = self.pomodoro_tracker.get_started_at().unwrap();
        let mut remaining: u64 = self.clock.get_ms_from_time();
        while remaining > 0
            invariant
                old(self).wf(),
                self.wf(),
                Self::shape_preserved(old(self), self),
                self.spec_tracker() == old(self).spec_tracker(),
                self.spec_tracker().spec_order() is Some,
                remaining == self.spec_clock().spec_total_ms(),
                old(self).spec_clock().spec_total_ms() >= remaining,
                remaining <= len_ms,
                len_ms == len_minutes * 60000,
            decreases remaining,
        {
            let now = self.term.now_ms();
            let true_elapsed = if now >= t0 {
                now - t0
            } else {
                0
            };
            let logical_elapsed = len_ms - remaining;
            let pause = sleep_duration(true_elapsed, logical_elapsed);
            self.term.sleep_ms(pause);
            match self.async_command_listen() {
                Command::Quit => {
                    return CycleOutcome::Quit;
                },
                Command::Reset => {
                    return CycleOutcome::Reset;
                },
                _ => {},
            }
            self.clock.decrement_one_second();
            if work_screen {
                self.draw_work_screen();
            } else {
                self.draw_break_screen();
            }
            remaining = self.clock.get_ms_from_time();
        }
        CycleOutcome::Completed
    }

    /// Countdown for a work period, each tick synced to true elapsed time.
    /// On normal completion this fires the break-ready notification, derives
    /// the break phase from the current slot and runs the owed break.
    pub fn countdown_work(&mut self) -> (r: CycleOutcome)
        requires
            old(self).wf(),
            old(self).spec_tracker().spec_state() == PomodoroState::Working,
            old(self).spec_tracker().spec_started() is Some,
            old(self).spec_tracker().spec_order() is Some,
            old(self).spec_clock().spec_total_ms() <= old(self).spec_config().work_time * 60000,
        ensures
            final(self).wf(),
            Self::shape_preserved(old(self), final(self)),
            final(self).spec_tracker().spec_order() == old(self).spec_tracker().spec_order(),
            r == CycleOutcome::Completed ==> (final(self).spec_clock().spec_total_ms() == 0 && final(self).spec_tracker().spec_state() == spec_break_state(
                old(self).spec_tracker().spec_order(),
            )),
            r != CycleOutcome::Completed ==> (final(self).spec_clock().spec_total_ms() > 0
                && (final(self).spec_tracker().spec_state() == PomodoroState::Working || final(self).spec_tracker().spec_state() == spec_break_state(
                old(self).spec_tracker().spec_order(),
            ))),
            (old(self).spec_clock().spec_total_ms() == 0 && spec_break_minutes(
                old(self).spec_tracker().spec_order(),
                old(self).spec_config(),
            ) == 0) ==> r == CycleOutcome::Completed,
        decreases 3int,
    {
        let work_time = self.config.work_time;
        let r = self.run_countdown(work_time, true);
        match r {
            CycleOutcome::Quit => CycleOutcome::Quit,
            CycleOutcome::Reset => CycleOutcome::Reset,
            CycleOutcome::Completed => {
                self.term.notify(
                    "Pomodoro Break!",
                    "It's Time For a Break!",
                    "clock",
                    "alarm-clock-elapsed",
                );
                let now = self.term.now_ms();
                self.pomodoro_tracker.set_break_state(now);
                self.start_break()
            },
        }
    }

    /// Starts the owed break by dispatching on the break phase the tracker
    /// derived; outside a break phase this is a no-op that completes at
    /// once.
    pub fn start_break(&mut self) -> (r: CycleOutcome)
        requires
            old(self).wf(),
            (old(self).spec_tracker().spec_state() == PomodoroState::ShortBreak || old(self).spec_tracker().spec_state() == PomodoroState::LongBreak) ==> (old(self).spec_tracker().spec_started() is Some && old(self).spec_tracker().spec_order() is Some),
        ensures
            final(self).wf(),
            Self::shape_preserved(old(self), final(self)),
            final(self).spec_tracker() == old(self).spec_tracker(),
            (r == CycleOutcome::Completed && (old(self).spec_tracker().spec_state()
                == PomodoroState::ShortBreak || old(self).spec_tracker().spec_state()
                == PomodoroState::LongBreak)) ==> final(self).spec_clock().spec_total_ms() == 0,
            r != CycleOutcome::Completed ==> final(self).spec_clock().spec_total_ms() > 0,
            (old(self).spec_tracker().spec_state() == PomodoroState::ShortBreak && old(self).spec_config().short_break_time == 0) ==> r == CycleOutcome::Completed,
            (old(self).spec_tracker().spec_state() == PomodoroState::LongBreak && old(self).spec_config().long_break_time == 0) ==> r == CycleOutcome::Completed,
            !(old(self).spec_tracker().spec_state() == PomodoroState::ShortBreak || old(self).spec_tracker().spec_state() == PomodoroState::LongBreak) ==> (r
                == CycleOutcome::Completed && Self::state_preserved(old(self), final(self))
                && final(self).spec_term() == old(self).spec_term()),
        decreases 2int,
    {
        match self.pomodoro_tracker.get_state() {
            PomodoroState::ShortBreak => self.short_break(),
            PomodoroState::LongBreak => self.long_break(),
            _ => CycleOutcome::Completed,
        }
    }

    /// Sets the break clock from the configured short break length and runs
    /// the countdown.
    pub fn short_break(&mut self) -> (r: CycleOutcome)
        requires
            old(self).wf(),
            old(self).spec_tracker().spec_state() == PomodoroState::ShortBreak,
            old(self).spec_tracker().spec_started() is Some,
            old(self).spec_tracker().spec_order() is Some,
        ensures
            final(self).wf(),
            Self::shape_preserved(old(self), final(self)),
            final(self).spec_tracker() == old(self).spec_tracker(),
            r == CycleOutcome::Completed ==> final(self).spec_clock().spec_total_ms() == 0,
            r != CycleOutcome::Completed ==> final(self).spec_clock().spec_total_ms() > 0,
            old(self).spec_config().short_break_time == 0 ==> r == CycleOutcome::Completed,
        decreases 1int,
    {
        let t = self.config.short_break_time;
        self.clock.set_time_minutes(t);
        self.countdown()
    }

    /// Sets the break clock from the configured long break length and runs
    /// the countdown.
    pub fn long_break(&mut self) -> (r: CycleOutcome)
        requires
            old(self).wf(),
            old(self).spec_tracker().spec_state() == PomodoroState::LongBreak,
            old(self).spec_tracker().spec_started() is Some,
            old(self).spec_tracker().spec_order() is Some,
        ensures
            final(self).wf(),
            Self::shape_preserved(old(self), final(self)),
            final(self).spec_tracker() == old(self).spec_tracker(),
            r == CycleOutcome::Completed ==> final(self).spec_clock().spec_total_ms() == 0,
            r != CycleOutcome::Completed ==> final(self).spec_clock().spec_total_ms() > 0,
            old(self).spec_config().long_break_time == 0 ==> r == CycleOutcome::Completed,
        decreases 1int,
    {
        let t = self.config.long_break_time;
        self.clock.set_time_minutes(t);
        self.countdown()
    }

    /// Checks the phase (working, short break or long break) and runs the
    /// appropriate countdown; idle is a no-op that completes at once.
    pub fn countdown(&mut self) -> (r: CycleOutcome)
        requires
            old(self).wf(),
            old(self).spec_tracker().spec_state() == PomodoroState::Working ==> (old(self).spec_tracker().spec_started() is Some && old(self).spec_tracker().spec_order() is Some && old(self).spec_clock().spec_total_ms() <= old(self).spec_config().work_time * 60000),
            old(self).spec_tracker().spec_state() == PomodoroState::ShortBreak ==> (old(self).spec_tracker().spec_started() is Some && old(self).spec_tracker().spec_order() is Some && old(self).spec_clock().spec_total_ms() <= old(self).spec_config().short_break_time * 60000),
            old(self).spec_tracker().spec_state() == PomodoroState::LongBreak ==> (old(self).spec_tracker().spec_started() is Some && old(self).spec_tracker().spec_order() is Some && old(self).spec_clock().spec_total_ms() <= old(self).spec_config().long_break_time * 60000),
        ensures
            final(self).wf(),
            Self::shape_preserved(old(self), final(self)),
            final(self).spec_tracker().spec_order() == old(self).spec_tracker().spec_order(),
            r != CycleOutcome::Completed ==> (final(self).spec_tracker().spec_state()
                == old(self).spec_tracker().spec_state() || final(self).spec_tracker().spec_state()
                == spec_break_state(old(self).spec_tracker().spec_order())),
            (old(self).spec_tracker().spec_state() == PomodoroState::ShortBreak || old(self).spec_tracker().spec_state() == PomodoroState::LongBreak) ==> final(self).spec_tracker() == old(self).spec_tracker(),
            (r == CycleOutcome::Completed && old(self).spec_tracker().spec_state()
                != PomodoroState::Idle) ==> final(self).spec_clock().spec_total_ms() == 0,
            (r == CycleOutcome::Completed && old(self).spec_tracker().spec_state()
                == PomodoroState::Working) ==> final(self).spec_tracker().spec_state()
                == spec_break_state(old(self).spec_tracker().spec_order()),
            r != CycleOutcome::Completed ==> final(self).spec_clock().spec_total_ms() > 0,
            old(self).spec_tracker().spec_state() == PomodoroState::Idle ==> (r
                == CycleOutcome::Completed && Self::state_preserved(old(self), final(self))
                && final(self).spec_term() == old(self).spec_term()),
            ((old(self).spec_tracker().spec_state() == PomodoroState::ShortBreak || old(self).spec_tracker().spec_state() == PomodoroState::LongBreak)
                && old(self).spec_clock().spec_total_ms() == 0) ==> r == CycleOutcome::Completed,
            (old(self).spec_tracker().spec_state() == PomodoroState::Working && old(self).spec_clock().spec_total_ms() == 0 && spec_break_minutes(
                old(self).spec_tracker().spec_order(),
                old(self).spec_config(),
            ) == 0) ==> r == CycleOutcome::Completed,
        decreases (if old(self).spec_tracker().spec_state() == PomodoroState::Working {
            4int
        } else {
            0int
        }),
    {
        match self.pomodoro_tracker.get_state() {
            PomodoroState::Working => self.countdown_work(),
            PomodoroState::ShortBreak => {
                let t = self.config.short_break_time;
                self.countdown_break(t)
            },
            PomodoroState::LongBreak => {
                let t = self.config.long_break_time;
                self.countdown_break(t)
            },
            PomodoroState::Idle => CycleOutcome::Completed,
        }
    }

    /// Countdown for a break of the given length; on normal completion
    /// fires the break-over notification.
    pub fn countdown_break(&mut self, duration: u64) -> (r: CycleOutcome)
        requires
            old(self).wf(),
            duration <= MAX_MINUTES,
            old(self).spec_clock().spec_total_ms() <= duration * 60000,
            old(self).spec_tracker().spec_started() is Some,
            old(self).spec_tracker().spec_order() is Some,
        ensures
            final(self).wf(),
            Self::shape_preserved(old(self), final(self)),
            final(self).spec_tracker() == old(self).spec_tracker(),
            r == CycleOutcome::Completed ==> final(self).spec_clock().spec_total_ms() == 0,
            r != CycleOutcome::Completed ==> final(self).spec_clock().spec_total_ms() > 0,
            old(self).spec_clock().spec_total_ms() == 0 ==> r == CycleOutcome::Completed,
    {
        let r = self.run_countdown(duration, false);
        if let CycleOutcome::Completed = r {
            self.term.notify(
                "Pomodoro Break Over",
                "Ready for Another Round?",
                "clock",
                "alarm-clock-elapsed",
            );
        }
        r
    }

    /// Begins a work period: stamps the phase start, advances the slot, sets
    /// the clock to the configured work length and runs the countdown,
    /// through the end of the owed break when the work period completes.
    pub fn start_work(&mut self) -> (r: CycleOutcome)
        requires
            old(self).wf(),
        ensures
            final(self).wf(),
            Self::shape_preserved(old(self), final(self)),
            final(self).spec_tracker().spec_order() == spec_next_order(
                old(self).spec_tracker().spec_order(),
            ),
            r != CycleOutcome::Completed ==> (final(self).spec_tracker().spec_state()
                == PomodoroState::Working || final(self).spec_tracker().spec_state()
                == spec_break_state(spec_next_order(old(self).spec_tracker().spec_order()))),
            r == CycleOutcome::Completed ==> (final(self).spec_clock().spec_total_ms() == 0 && final(self).spec_tracker().spec_state() == spec_break_state(
                spec_next_order(old(self).spec_tracker().spec_order()),
            )),
            r != CycleOutcome::Completed ==> final(self).spec_clock().spec_total_ms() > 0,
            (old(self).spec_config().work_time == 0 && spec_break_minutes(
                spec_next_order(old(self).spec_tracker().spec_order()),
                old(self).spec_config(),
            ) == 0) ==> r == CycleOutcome::Completed,
    {
        let now = self.term.now_ms();
        self.pomodoro_tracker.set_work_state(now);
        let w = self.config.work_time;
        self.clock.set_time_minutes(w);
        self.countdown()
    }

    /// Resets the current pomodoro: moves the slot back by one and begins
    /// work again, so the work period restarts at the same slot number.
    pub fn reset_current_pomodoro(&mut self) -> (r: CycleOutcome)
        requires
            old(self).wf(),
        ensures
            final(self).wf(),
            Self::shape_preserved(old(self), final(self)),
            final(self).spec_tracker().spec_order() == spec_next_order(
                spec_prev_order(old(self).spec_tracker().spec_order()),
            ),
            old(self).spec_tracker().spec_order() is Some ==> final(self).spec_tracker().spec_order() == old(self).spec_tracker().spec_order(),
            r != CycleOutcome::Completed ==> (final(self).spec_tracker().spec_state()
                == PomodoroState::Working || final(self).spec_tracker().spec_state()
                == spec_break_state(final(self).spec_tracker().spec_order())),
            r == CycleOutcome::Completed ==> final(self).spec_clock().spec_total_ms() == 0,
            r != CycleOutcome::Completed ==> final(self).spec_clock().spec_total_ms() > 0,
            (old(self).spec_config().work_time == 0 && spec_break_minutes(
                spec_next_order(spec_prev_order(old(self).spec_tracker().spec_order())),
                old(self).spec_config(),
            ) == 0) ==> r == CycleOutcome::Completed,
    {
        proof {
            let o = old(self).spec_tracker().spec_order();
            if o is Some {
                crate::tracker::lemma_reset_preserves_slot(o);
            }
        }
        self.pomodoro_tracker.decrement_cycle();
        self.start_work()
    }

    /// Runs one full cycle from the menu: a work period and its owed break,
    /// then redraws the between-pomodoros menu.  A reset outcome is handed
    /// back without redrawing: the caller restarts work at the same slot.
    pub fn begin_cycle(&mut self) -> (r: CycleOutcome)
        requires
            old(self).wf(),
        ensures
            final(self).wf(),
            Self::shape_preserved(old(self), final(self)),
            final(self).spec_tracker().spec_order() == spec_next_order(
                old(self).spec_tracker().spec_order(),
            ),
            r != CycleOutcome::Completed ==> (final(self).spec_tracker().spec_state()
                == PomodoroState::Working || final(self).spec_tracker().spec_state()
                == spec_break_state(final(self).spec_tracker().spec_order())),
            r == CycleOutcome::Completed ==> final(self).spec_clock().spec_total_ms() == 0,
            r != CycleOutcome::Completed ==> final(self).spec_clock().spec_total_ms() > 0,
            (old(self).spec_config().work_time == 0 && spec_break_minutes(
                spec_next_order(old(self).spec_tracker().spec_order()),
                old(self).spec_config(),
            ) == 0) ==> r == CycleOutcome::Completed,
    {
        let r = self.start_work();
        match r {
            CycleOutcome::Reset => CycleOutcome::Reset,
            _ => {
                self.display_menu(None);
                r
            },
        }
    }
}

/// The large menu shown when the program starts.
pub fn start_prompt_lines() -> (r: Vec<String>)
    ensures
        r@.len() == 7,
        r@[0]@ == "╔══════════════════════════════╗"@,
        r@[1]@ == "║──Start your first Pomodoro!─-║"@,
        r@[2]@ == "║──────────────────────────────║"@,
        r@[3]@ == "║ s ┆ start    Press s         ║"@,
        r@[4]@ == "║ q ┆ quit     to start!       ║"@,
        r@[5]@ == "║ r ┆ reset                    ║"@,
        r@[6]@ == "╚═══╧══════════════════════════╝"@,
        r@[1]@.len() <= 40,
{
    let mut v: Vec<String> = Vec::new();
    v.push(String::from_str("╔══════════════════════════════╗"));
    v.push(String::from_str("║──Start your first Pomodoro!─-║"));
    v.push(String::from_str("║──────────────────────────────║"));
    v.push(String::from_str("║ s ┆ start    Press s         ║"));
    v.push(String::from_str("║ q ┆ quit     to start!       ║"));
    v.push(String::from_str("║ r ┆ reset                    ║"));
    v.push(String::from_str("╚═══╧══════════════════════════╝"));
    proof {
        reveal_strlit("║──Start your first Pomodoro!─-║");
    }
    v
}

/// The small menu shown between pomodoros.
pub fn menu_lines() -> (r: Vec<String>)
    ensures
        r@.len() == 5,
        r@[0]@ == "╔═════════════════╗"@,
        r@[1]@ == "║───┬ Pomodoro────║"@,
        r@[2]@ == "║ s ┆ start next  ║"@,
        r@[3]@ == "║ q ┆ quit        ║"@,
        r@[4]@ == "╚═══╧═════════════╝"@,
        r@[1]@.len() <= 40,
{
    let mut v: Vec<String> = Vec::new();
    v.push(String::from_str("╔═════════════════╗"));
    v.push(String::from_str("║───┬ Pomodoro────║"));
    v.push(String::from_str("║ s ┆ start next  ║"));
    v.push(String::from_str("║ q ┆ quit        ║"));
    v.push(String::from_str("╚═══╧═════════════╝"));
    proof {
        reveal_strlit("║───┬ Pomodoro────║");
    }
    v
}

/// The controls reminder always on screen while a clock is rolling.
pub fn controls_lines() -> (r: Vec<String>)
    ensures
        r@.len() == 3,
        r@[0]@ == "------controls------"@,
        r@[1]@ == " q    ~ end current"@,
        r@[2]@ == " r    ~ reset"@,
        r@[1]@.len() <= 40,
{
    let mut v: Vec<String> = Vec::new();
    v.push(String::from_str("------controls------"));
    v.push(String::from_str(" q    ~ end current"));
    v.push(String::from_str(" r    ~ reset"));
    proof {
        reveal_strlit(" q    ~ end current");
    }
    v
}


/// The work-count line shown under the clock, e.g. `Work Period 1 of 4`.
pub fn work_count_line(order: u64) -> (r: String)
    requires
        order <= 9,
    ensures
        r@ == "Work Period "@ + seq![crate::clock::digit_char(order as int)] + " of 4"@,
{
    let r = String::from_str("Work Period ").concat(digit_str(order)).concat(" of 4");
    proof {
        assert(r@ =~= "Work Period "@ + seq![crate::clock::digit_char(order as int)]
            + " of 4"@);
    }
    r
}

} // verus!
