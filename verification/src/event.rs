//! The typed events that the dispatch loop consumes.
//!
//! Terminal input arrives from outside the library; the caller translates
//! each raw input notification into one of these plain values before handing
//! it to the dispatch loop.

use vstd::prelude::*;

verus! {

/// Last known terminal dimensions, updated by resize notifications.
#[derive(Clone, Copy, Debug, PartialEq, Eq, Structural)]
pub struct Viewport {
    pub width: u16,
    pub height: u16,
}

/// The key identities the key handler distinguishes; every other key is
/// `Other` and leaves the state unchanged.
#[derive(Clone, Copy, Debug, PartialEq, Eq, Structural)]
pub enum KeyCode {
    Esc,
    Char(char),
    Right,
    Left,
    Other,
}

/// One key press: its identity and whether the control modifier was held.
#[derive(Clone, Copy, Debug, PartialEq, Eq, Structural)]
pub struct KeyEvent {
    pub code: KeyCode,
    pub ctrl: bool,
}

/// The mouse event kinds the mouse handler distinguishes: a button press,
/// or anything else (movement, release, scroll), which is ignored.
#[derive(Clone, Copy, Debug, PartialEq, Eq, Structural)]
pub enum MouseKind {
    Down,
    Other,
}

/// One mouse event at a terminal cell position.
#[derive(Clone, Copy, Debug, PartialEq, Eq, Structural)]
pub struct MouseEvent {
    pub kind: MouseKind,
    pub column: u16,
    pub row: u16,
}

/// One event of the merged input stream: a periodic tick, a key press, a
/// mouse event, or a resize notification carrying the new dimensions.
#[derive(Clone, Copy, Debug, PartialEq, Eq, Structural)]
pub enum Event {
    Tick,
    Key(KeyEvent),
    Mouse(MouseEvent),
    Resize(u16, u16),
}

} // verus!
