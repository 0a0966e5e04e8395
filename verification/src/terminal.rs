//! The capability through which the session touches the outside world, and a
//! fully simulated implementation of it for driving the session in tests.

use vstd::prelude::*;

verus! {

/// The device capabilities the session needs: non-blocking single-byte
/// input, absolute-position text output on a character grid, a millisecond
/// clock, a sleep, and a fire-and-forget notification sink.  The session is
/// generic over this trait: tests drive it with [`SimTerminal`], while the
/// program wraps the real terminal, clock and notification service.
pub trait Terminal {
    /// Polls for one byte of input without blocking; `None` when no byte is
    /// available.  Each call consumes at most one byte.
    fn read_byte(&mut self) -> (r: Option<u8>);

    /// Clears grid row `row` and writes `text` there starting at column
    /// `col` (both 1-based).
    fn write_line_at(&mut self, col: u16, row: u16, text: &str)
        requires
            col >= 1,
            row >= 1,
    ;

    /// Clears grid row `row` (1-based).
    fn clear_line(&mut self, row: u16)
        requires
            row >= 1,
    ;

    /// Flushes buffered output to the screen.
    fn flush(&mut self);

    /// Milliseconds elapsed since a fixed origin, such as session start.
    fn now_ms(&mut self) -> (r: u64);

    /// Suspends the session for `ms` milliseconds.
    fn sleep_ms(&mut self, ms: u64);

    /// Emits a desktop notification with a summary, a body, an icon hint and
    /// a sound hint.  Dispatch failures must not abort the session.
    fn notify(&mut self, summary: &str, body: &str, icon: &str, sound: &str);
}

/// A simulated terminal: input comes from a fixed script, time is a counter
/// advanced by the simulated sleeps, and every output effect is recorded for
/// inspection.  A scripted stall can lengthen one write to model a slow
/// redraw.
pub struct SimTerminal {
    /// The simulated clock, in milliseconds.
    pub now: u64,
    /// The input script: one entry is consumed per poll, `None` standing for
    /// "no byte available"; an exhausted script always yields `None`.
    pub input: Vec<Option<u8>>,
    /// How many script entries have been consumed.
    pub input_pos: usize,
    /// Every sleep duration requested, in order.
    pub sleeps: Vec<u64>,
    /// The summary of every notification emitted, in order.
    pub notifications: Vec<String>,
    /// Every positioned write, as `(column, row, text)`, in order.
    pub writes: Vec<(u16, u16, String)>,
    /// How many single-row clears were requested.
    pub clears: u64,
    /// How many flushes were requested.
    pub flushes: u64,
    /// When nonzero, the 1-based index of the write after which the
    /// simulated clock jumps ahead by `stall_ms` (a stalled redraw).
    pub stall_at_write: u64,
    /// How far the clock jumps at the scripted stall.
    pub stall_ms: u64,
}

impl SimTerminal {
    /// A fresh simulated terminal at time zero with the given input script
    /// and no scripted stall.
    pub fn new(input: Vec<Option<u8>>) -> (r: SimTerminal)
        ensures
            r.now == 0,
            r.input == input,
            r.input_pos == 0,
            r.sleeps@.len() == 0,
            r.notifications@.len() == 0,
            r.writes@.len() == 0,
            r.clears == 0,
            r.flushes == 0,
            r.stall_at_write == 0,
    {
        SimTerminal {
            now: 0,
            input,
            input_pos: 0,
            sleeps: Vec::new(),
            notifications: Vec::new(),
            writes: Vec::new(),
            clears: 0,
            flushes: 0,
            stall_at_write: 0,
            stall_ms: 0,
        }
    }

    /// Schedules a stall: right after the `at_write`-th write (1-based), the
    /// simulated clock jumps ahead by `ms` milliseconds.
    pub fn schedule_stall(&mut self, at_write: u64, ms: u64)
        ensures
            final(self).stall_at_write == at_write,
            final(self).stall_ms == ms,
    {
        self.stall_at_write = at_write;
        self.stall_ms = ms;
    }
}

impl Terminal for SimTerminal {
    fn read_byte(&mut self) -> (r: Option<u8>) {
        if self.input_pos < self.input.len() {
            let b = self.input[self.input_pos];
            self.input_pos = self.input_pos + 1;
            b
        } else {
            None
        }
    }

    fn write_line_at(&mut self, col: u16, row: u16, text: &str) {
        self.writes.push((col, row, text.to_owned()));
        if self.stall_at_write > 0 && self.writes.len() as u64 == self.stall_at_write {
            self.now = if self.now <= u64::MAX - self.stall_ms {
                self.now + self.stall_ms
            } else {
                u64::MAX
            };
        }
    }

    fn clear_line(&mut self, row: u16) {
        if self.clears < u64::MAX {
            self.clears = self.clears + 1;
        }
    }

    fn flush(&mut self) {
        if self.flushes < u64::MAX {
            self.flushes = self.flushes + 1;
        }
    }

    fn now_ms(&mut self) -> (r: u64) {
        self.now
    }

    fn sleep_ms(&mut self, ms: u64) {
        self.sleeps.push(ms);
        self.now = if self.now <= u64::MAX - ms {
            self.now + ms
        } else {
            u64::MAX
        };
    }

    fn notify(&mut self, summary: &str, body: &str, icon: &str, sound: &str) {
        self.notifications.push(summary.to_owned());
    }
}

} // verus!
