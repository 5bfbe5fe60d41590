//! A source of events on which nothing ever happens.

use crate::peripherals::joypad::events::{EventHandler, State};
use vstd::prelude::*;

verus! {

/// An event source that never reports a key.
pub struct FakeEvents {}

impl FakeEvents {
    pub fn new() -> Self {
        Self {  }
    }
}

impl EventHandler for FakeEvents {
    fn get_state(&mut self) -> (state: State)
        ensures
            state == State::released(),
    {
        State::new()
    }

    fn clear_keydown(&mut self) {
    }
}

} // verus!
