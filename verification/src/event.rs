//! Terminal input as the explorer sees it: a key with its modifiers, a
//! periodic tick, or a resize.
use vstd::prelude::*;

verus! {

/// The keys the explorer distinguishes; every other key is `Other`.
#[derive(Debug, Clone, Copy, PartialEq, Eq, Structural)]
pub enum KeyCode {
    Char(char),
    Esc,
    Enter,
    Backspace,
    Tab,
    Up,
    Down,
    Left,
    Right,
    Other,
}

/// A key press with the modifiers the explorer looks at.
#[derive(Debug, Clone, Copy, PartialEq, Eq, Structural)]
pub struct KeyPress {
    pub code: KeyCode,
    pub control: bool,
    pub shift: bool,
}

#[derive(Debug, Clone, Copy, PartialEq, Eq, Structural)]
pub enum Event {
    Key(KeyPress),
    Tick,
    Resize(u16, u16),
}

} // verus!
