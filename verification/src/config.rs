//! The settled session configuration: the lengths, in minutes, of the work
//! period and of the two breaks.

use vstd::prelude::*;
use crate::clock::MAX_MINUTES;

verus! {

/// The three phase lengths a session runs with, in minutes.  Zero is a valid
/// (instantly complete) phase length.
pub struct PomodoroConfig {
    pub work_time: u64,
    pub short_break_time: u64,
    pub long_break_time: u64,
}

impl PomodoroConfig {
    /// Well-formedness: every length stays within what the clock can hold.
    pub open spec fn wf(&self) -> bool {
        self.work_time <= MAX_MINUTES && self.short_break_time <= MAX_MINUTES
            && self.long_break_time <= MAX_MINUTES
    }

    /// Builds a configuration, rejecting lengths the clock cannot hold.
    pub fn new(work_time: u64, short_break_time: u64, long_break_time: u64) -> (r: Option<
        PomodoroConfig,
    >)
        ensures
            (work_time <= MAX_MINUTES && short_break_time <= MAX_MINUTES && long_break_time
                <= MAX_MINUTES) ==> (r matches Some(c) && c.work_time == work_time
                && c.short_break_time == short_break_time && c.long_break_time == long_break_time
                && c.wf()),
            !(work_time <= MAX_MINUTES && short_break_time <= MAX_MINUTES && long_break_time
                <= MAX_MINUTES) ==> r is None,
    {
        if work_time <= MAX_MINUTES && short_break_time <= MAX_MINUTES && long_break_time
            <= MAX_MINUTES {
            Some(PomodoroConfig { work_time, short_break_time, long_break_time })
        } else {
            None
        }
    }
}

impl Default for PomodoroConfig {
    /// The classic defaults: 25 minutes of work, a 5 minute short break and
    /// a 20 minute long break.
    fn default() -> (r: PomodoroConfig)
        ensures
            r.work_time == 25,
            r.short_break_time == 5,
            r.long_break_time == 20,
            r.wf(),
    {
        PomodoroConfig { work_time: 25, short_break_time: 5, long_break_time: 20 }
    }
}

} // verus!
