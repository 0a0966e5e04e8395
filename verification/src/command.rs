//! The command vocabulary read from single key presses.

use vstd::prelude::*;

verus! {

/// A user command, as read from a single keystroke.
#[derive(Clone, Copy, Debug, PartialEq, Eq, Structural)]
pub enum Command {
    Start,
    Reset,
    Quit,
    Nothing,
}

/// The command a byte means at the menu: `s` starts, `r` resets, `q` quits;
/// everything else, or no byte at all, is no command.
pub open spec fn spec_menu_command(b: Option<u8>) -> Command {
    match b {
        Option::Some(c) => if c == 115 {
            Command::Start
        } else if c == 114 {
            Command::Reset
        } else if c == 113 {
            Command::Quit
        } else {
            Command::Nothing
        },
        Option::None => Command::Nothing,
    }
}

/// The command a byte means while the clock is rolling: only `r` and `q` are
/// recognized; everything else, or no byte at all, is no command.
pub open spec fn spec_async_command(b: Option<u8>) -> Command {
    match b {
        Option::Some(c) => if c == 114 {
            Command::Reset
        } else if c == 113 {
            Command::Quit
        } else {
            Command::Nothing
        },
        Option::None => Command::Nothing,
    }
}

/// Translates one polled byte into a menu command.
pub fn parse_menu_command(b: Option<u8>) -> (r: Command)
    ensures
        r == spec_menu_command(b),
{
    match b {
        Some(c) => {
            if c == 115 {  // 's'
                Command::Start
            } else if c == 114 {  // 'r'
                Command::Reset
            } else if c == 113 {  // 'q'
                Command::Quit
            } else {
                Command::Nothing
            }
        },
        None => Command::Nothing,
    }
}

/// Translates one polled byte into a countdown command.
pub fn parse_async_command(b: Option<u8>) -> (r: Command)
    ensures
        r == spec_async_command(b),
{
    match b {
        Some(c) => {
            if c == 114 {  // 'r'
                Command::Reset
            } else if c == 113 {  // 'q'
                Command::Quit
            } else {
                Command::Nothing
            }
        },
        None => Command::Nothing,
    }
}

} // verus!
