//! A terminal-resident Pomodoro countdown timer library.
//!
//! The crate models the whole interactive session: a clock counting down in
//! one-second ticks, a tracker for the four-slot work/break cycle, a small
//! command vocabulary read from single key presses, and the drift-corrected
//! countdown loop that ties them together.  All terminal, timing and
//! notification effects go through the [`terminal::Terminal`] capability, so
//! the session logic itself is fully verified and can be driven by the
//! simulated terminal in tests as well as by a real one.

pub mod clock;
pub mod command;
pub mod config;
pub mod session;
pub mod terminal;
pub mod tracker;

pub use clock::Clock;
pub use clock::MAX_MINUTES;
pub use clock::MINUTE_MS;
pub use clock::SECOND_MS;
pub use command::parse_async_command;
pub use command::parse_menu_command;
pub use command::Command;
pub use config::PomodoroConfig;
pub use session::controls_lines;
pub use session::menu_lines;
pub use session::sleep_duration;
pub use session::start_prompt_lines;
pub use session::CycleOutcome;
pub use session::PomodoroSession;
pub use session::MIN_HEIGHT;
pub use session::MIN_WIDTH;
pub use terminal::SimTerminal;
pub use terminal::Terminal;
pub use tracker::PomodoroState;
pub use tracker::StateTracker;
