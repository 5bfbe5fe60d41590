//! The joypad.

pub mod events;
pub mod fake_events;

use crate::peripherals::interrupt::{Flag, Interrupt};
use crate::peripherals::joypad::events::{EventHandler, State};
use vstd::prelude::*;

verus! {

/// The joypad register. Its two select lines are active low: a line that is
/// false puts its group of four keys on the four state bits, which are active low
/// too.
#[derive(Debug, Copy, Clone, PartialEq, Eq, Structural)]
pub struct Joypad {
    pub select_button: bool,
    pub select_direction: bool,
    pub state: u8,
    /// Machine cycles since the event source was last asked.
    pub counter: usize,
    /// The keys as the event source last reported them.
    pub keys: State,
    /// The event source reported a request to leave.
    pub shutdown: bool,
}

/// The number of machine cycles between two polls of the event source.
pub const UPDATE_INTERVAL: usize = 100;

/// Eight, four, two and one for the four bits that are set.
pub open spec fn nibble(b3: bool, b2: bool, b1: bool, b0: bool) -> int {
    (if b3 { 8int } else { 0 }) + (if b2 { 4int } else { 0 }) + (if b1 { 2int } else { 0 }) + (
    if b0 { 1int } else { 0 })
}

/// The keys on the selected lines, one bit per key: down or start, up or select,
/// left or B, right or A.
pub open spec fn pressed(select_button: bool, select_direction: bool, keys: State) -> int {
    nibble(
        !select_direction && keys.down || !select_button && keys.start,
        !select_direction && keys.up || !select_button && keys.select,
        !select_direction && keys.left || !select_button && keys.b,
        !select_direction && keys.right || !select_button && keys.a,
    )
}

impl Joypad {
    /// The joypad with its state bits brought up to date with `keys`.
    pub open spec fn refreshed(self) -> Joypad {
        Joypad {
            state: (255 - pressed(self.select_button, self.select_direction, self.keys)) as u8,
            ..self
        }
    }

    /// The joypad after the event source has reported `keys`.
    pub open spec fn updated(self, keys: State) -> Joypad {
        Joypad {
            keys: State { keydown: false, ..keys },
            counter: 0,
            shutdown: self.shutdown || keys.shutdown,
            ..self
        }.refreshed()
    }

    /// What the joypad register reads: ones in its two top bits, the two select
    /// lines in bits 5 and 4, the state in the low four bits.
    pub open spec fn read_spec(&self) -> u8 {
        (192 + (if self.select_button { 32int } else { 0 }) + (if self.select_direction { 16int } else { 0 })
            + self.state % 16) as u8
    }

    /// The joypad after `val` has been written to its register: bits 5 and 4 set
    /// the select lines, and the state follows them.
    pub open spec fn write_spec(self, val: u8) -> Joypad {
        Joypad {
            select_button: (val / 32) % 2 == 1,
            select_direction: (val / 16) % 2 == 1,
            ..self
        }.refreshed()
    }

    /// Whether the next machine cycle polls the event source.
    pub open spec fn due(&self) -> bool {
        self.counter + 1 >= UPDATE_INTERVAL
    }

    /// The joypad after a machine cycle that does not poll.
    pub open spec fn waited(self) -> Joypad {
        Joypad { counter: (self.counter + 1) as usize, ..self }
    }

    /// A joypad with neither line selected and no key pressed.
    pub open spec fn new_spec() -> Joypad {
        Joypad {
            select_button: true,
            select_direction: true,
            state: 0xF,
            counter: 0,
            keys: State::released(),
            shutdown: false,
        }
    }

    /// A joypad with neither line selected and no key pressed.
    pub fn new() -> (r: Self)
        ensures
            r == Joypad::new_spec(),
    {
        Self {
            select_button: true,
            select_direction: true,
            state: 0xF,
            counter: 0,
            keys: State::new(),
            shutdown: false,
        }
    }

    /// Advances the joypad by one machine cycle. Every hundredth cycle it asks
    /// `events` for the keys and takes over what it reports, whatever that is.
    pub fn step(&mut self, interrupt: &mut Interrupt, events: &mut Box<dyn EventHandler>)
        ensures
            !old(self).due() ==> *final(self) == old(self).waited() && *final(interrupt) == *old(
                interrupt,
            ),
            old(self).due() ==> exists|keys: State|
                *final(self) == old(self).updated(keys) && *final(interrupt)
                    == #[trigger] Joypad::raised(*old(interrupt), keys),
    {
        if self.counter >= UPDATE_INTERVAL - 1 {
            let keys = events.get_state();
            events.clear_keydown();
            self.update(keys, interrupt);
        } else {
            self.counter += 1;
        }
    }

    /// The interrupt controller after the event source has reported `keys`: a key
    /// that went down raises the joypad line.
    pub open spec fn raised(interrupt: Interrupt, keys: State) -> Interrupt {
        if keys.keydown {
            Interrupt { joypad: Flag { trigger: true, ..interrupt.joypad }, ..interrupt }
        } else {
            interrupt
        }
    }

    /// Sets the line that selects the direction keys; it is active low.
    pub fn set_select_direction(&mut self, val: u8)
        ensures
            *final(self) == (Joypad { select_direction: val != 0, ..*old(self) }),
    {
        self.select_direction = val != 0
    }

    /// Sets the line that selects the button keys; it is active low.
    pub fn set_select_button(&mut self, val: u8)
        ensures
            *final(self) == (Joypad { select_button: val != 0, ..*old(self) }),
    {
        self.select_button = val != 0
    }

    pub fn select_direction(&self) -> (r: bool)
        ensures
            r == self.select_direction,
    {
        self.select_direction
    }

    pub fn select_button(&self) -> (r: bool)
        ensures
            r == self.select_button,
    {
        self.select_button
    }

    pub fn state(&self) -> (r: u8)
        ensures
            r == self.state,
    {
        self.state
    }

    /// Whether the event source has reported a request to leave.
    pub fn shutdown(&self) -> (r: bool)
        ensures
            r == self.shutdown,
    {
        self.shutdown
    }

    /// Reads the joypad register.
    pub fn read(&self) -> (r: u8)
        ensures
            r == self.read_spec(),
    {
        let mut r: u8 = 192 + self.state % 16;
        if self.select_button {
            r += 32;
        }
        if self.select_direction {
            r += 16;
        }
        r
    }

    /// Writes the joypad register.
    pub fn write(&mut self, val: u8)
        ensures
            *final(self) == old(self).write_spec(val),
    {
        self.set_select_button((val / 32) % 2);
        self.set_select_direction((val / 16) % 2);
        self.refresh();
    }

    /// Brings the state bits up to date with the select lines.
    pub fn refresh(&mut self)
        ensures
            *final(self) == old(self).refreshed(),
    {
        let k = self.keys;
        let mut bits: u8 = 0;
        if !self.select_direction && k.down || !self.select_button && k.start {
            bits += 8;
        }
        if !self.select_direction && k.up || !self.select_button && k.select {
            bits += 4;
        }
        if !self.select_direction && k.left || !self.select_button && k.b {
            bits += 2;
        }
        if !self.select_direction && k.right || !self.select_button && k.a {
            bits += 1;
        }
        self.state = 255 - bits;
    }

    /// Takes over the keys that the event source has reported. A key that went
    /// down raises the joypad interrupt.
    pub fn update(&mut self, keys: State, interrupt: &mut Interrupt)
        ensures
            *final(self) == old(self).updated(keys),
            *final(interrupt) == Joypad::raised(*old(interrupt), keys),
    {
        if keys.shutdown {
            self.shutdown = true;
        }
        if keys.keydown {
            interrupt.set_joypad_trigger(1);
        }
        self.keys = keys;
        self.keys.keydown = false;
        self.counter = 0;
        self.refresh();
    }
}

} // verus!
