//! What a source of key events has to offer.

use vstd::prelude::*;

verus! {

/// A snapshot of the keys.
#[derive(Debug, Copy, Clone, PartialEq, Eq, Structural)]
pub struct State {
    /// The user asked to leave.
    pub shutdown: bool,
    pub start: bool,
    pub select: bool,
    pub a: bool,
    pub b: bool,
    pub up: bool,
    pub down: bool,
    pub left: bool,
    pub right: bool,
    /// A key went down since the flag was last cleared.
    pub keydown: bool,
}

impl State {
    /// No key pressed, no request to leave.
    pub fn new() -> (r: Self)
        ensures
            r == State::released(),
    {
        Self {
            shutdown: false,
            start: false,
            select: false,
            a: false,
            b: false,
            up: false,
            down: false,
            left: false,
            right: false,
            keydown: false,
        }
    }

    /// No key pressed, no request to leave.
    pub open spec fn released() -> State {
        State {
            shutdown: false,
            start: false,
            select: false,
            a: false,
            b: false,
            up: false,
            down: false,
            left: false,
            right: false,
            keydown: false,
        }
    }
}

/// A source of key events. Nothing is promised of what it reports: the joypad is
/// verified for every snapshot.
pub trait EventHandler {
    /// The keys as they are now.
    fn get_state(&mut self) -> State;

    /// Clears the flag that says a key went down.
    fn clear_keydown(&mut self);
}

} // verus!
