//! The cycle tracker: which of the four ordered work slots the user is in,
//! the current phase, and when the running phase started.

use vstd::prelude::*;

verus! {

/// The phase the session is currently in.
#[derive(Clone, Copy, Debug, PartialEq, Eq, Structural)]
pub enum PomodoroState {
    Working,
    ShortBreak,
    LongBreak,
    Idle,
}

/// The slot reached when a work period begins: one past the current slot,
/// wrapping from 4 back to 1, and 1 from a fresh (slotless) tracker.
pub open spec fn spec_next_order(o: Option<i32>) -> Option<i32> {
    match o {
        Option::Some(n) => if n < 4 {
            Option::Some((n + 1) as i32)
        } else {
            Option::Some(1)
        },
        Option::None => Option::Some(1),
    }
}

/// The slot reached when a reset undoes one work-period advance: one before
/// the current slot, with slot 1 going back to the slotless state.
pub open spec fn spec_prev_order(o: Option<i32>) -> Option<i32> {
    match o {
        Option::Some(n) => if n > 1 {
            Option::Some((n - 1) as i32)
        } else if n == 1 {
            Option::None
        } else {
            Option::Some(1)
        },
        Option::None => Option::Some(1),
    }
}

/// The break phase owed after a work period in slot `o`: a short break for
/// slots 1 through 3, the long break for slot 4, and idle defensively when
/// no slot (or an out-of-range one) is set.
pub open spec fn spec_break_state(o: Option<i32>) -> PomodoroState {
    match o {
        Option::Some(n) => if 1 <= n <= 3 {
            PomodoroState::ShortBreak
        } else if n == 4 {
            PomodoroState::LongBreak
        } else {
            PomodoroState::Idle
        },
        Option::None => PomodoroState::Idle,
    }
}

/// A simple state tracker that keeps the pomodoro phase, the current slot (1
/// to 4, or `None` before the first work period), and the millisecond
/// timestamp at which the running phase started.  The stamp is `None` only
/// before the first phase; afterwards it retains the last phase's start
/// until the next phase overwrites it, and nothing reads it between phases.
#[derive(Debug)]
pub struct StateTracker {
    current_order: Option<i32>,
    current_state: PomodoroState,
    started_at: Option<u64>,
}

impl StateTracker {
    /// The current slot.
    pub closed spec fn spec_order(&self) -> Option<i32> {
        self.current_order
    }

    /// The current phase.
    pub closed spec fn spec_state(&self) -> PomodoroState {
        self.current_state
    }

    /// The timestamp stamped at the start of the running phase.
    pub closed spec fn spec_started(&self) -> Option<u64> {
        self.started_at
    }

    /// Well-formedness: a set slot is always between 1 and 4.
    pub open spec fn wf(&self) -> bool {
        self.spec_order() matches Option::Some(n) ==> 1 <= n <= 4
    }

    /// A fresh tracker: no slot, idle, no phase running.
    pub fn new() -> (r: StateTracker)
        ensures
            r.spec_order() is None,
            r.spec_state() == PomodoroState::Idle,
            r.spec_started() is None,
            r.wf(),
    {
        StateTracker { current_order: None, current_state: PomodoroState::Idle, started_at: None }
    }

    /// Advances the slot by one, wrapping 4 back to 1.
    pub fn increment_cycle(&mut self)
        ensures
            final(self).spec_order() == spec_next_order(old(self).spec_order()),
            final(self).spec_state() == old(self).spec_state(),
            final(self).spec_started() == old(self).spec_started(),
            old(self).wf() ==> final(self).wf(),
    {
        let new_order = match self.current_order {
            Some(num) if num < 4 => Some(num + 1),
            _ => Some(1),
        };
        self.current_order = new_order;
    }

    /// Moves the slot back by one (from 1 to none), undoing the advance that
    /// the next work period will reapply.
    pub fn decrement_cycle(&mut self)
        ensures
            final(self).spec_order() == spec_prev_order(old(self).spec_order()),
            final(self).spec_state() == old(self).spec_state(),
            final(self).spec_started() == old(self).spec_started(),
            old(self).wf() ==> final(self).wf(),
    {
        let new_order = match self.current_order {
            Some(num) if num > 1 => Some(num - 1),
            Some(num) if num == 1 => None,
            _ => Some(1),
        };
        self.current_order = new_order;
    }

    /// Gets the current slot within the four-pomodoro cycle.
    pub fn get_order(&self) -> (r: Option<i32>)
        ensures
            r == self.spec_order(),
    {
        self.current_order
    }

    /// Gets the current phase.
    pub fn get_state(&self) -> (r: PomodoroState)
        ensures
            r == self.spec_state(),
    {
        self.current_state
    }

    /// Gets the timestamp at which the running phase started.
    pub fn get_started_at(&self) -> (r: Option<u64>)
        ensures
            r == self.spec_started(),
    {
        self.started_at
    }

    /// Enters a work period at time `now`: stamps the phase start, sets the
    /// phase to working, and advances the slot by one.
    pub fn set_work_state(&mut self, now: u64)
        ensures
            final(self).spec_order() == spec_next_order(old(self).spec_order()),
            final(self).spec_state() == PomodoroState::Working,
            final(self).spec_started() == Option::Some(now),
            old(self).wf() ==> final(self).wf(),
    {
        self.started_at = Some(now);
        self.current_state = PomodoroState::Working;
        self.increment_cycle();
    }

    /// Enters the break owed after the current slot at time `now`: derives
    /// the break phase from the slot and stamps the phase start, replacing
    /// the retained stamp of the work period that just ended.
    pub fn set_break_state(&mut self, now: u64)
        ensures
            final(self).spec_order() == old(self).spec_order(),
            final(self).spec_state() == spec_break_state(old(self).spec_order()),
            final(self).spec_started() == Option::Some(now),
            old(self).wf() ==> final(self).wf(),
    {
        let break_state = match self.current_order {
            Some(x) if 1 <= x && x <= 3 => PomodoroState::ShortBreak,
            Some(x) if x == 4 => PomodoroState::LongBreak,
            Some(_) => PomodoroState::Idle,
            None => PomodoroState::Idle,
        };
        self.current_state = break_state;
        self.started_at = Some(now);
    }
}

/// Law: a reset preserves the slot.  Moving the slot back by one and then
/// beginning work again (which advances it by one) returns any set slot to
/// exactly where it was.
pub proof fn lemma_reset_preserves_slot(o: Option<i32>)
    requires
        o matches Option::Some(n) && 1 <= n <= 4,
    ensures
        spec_next_order(spec_prev_order(o)) == o,
{
}

/// Law: the break derived after a work period is the short break exactly for
/// slots 1 through 3 and the long break exactly for slot 4.
pub proof fn lemma_break_phase(o: Option<i32>)
    requires
        o matches Option::Some(n) && 1 <= n <= 4,
    ensures
        (o matches Option::Some(n) && n <= 3) <==> spec_break_state(o)
            == PomodoroState::ShortBreak,
        o == Option::Some(4i32) <==> spec_break_state(o) == PomodoroState::LongBreak,
{
}

} // verus!
