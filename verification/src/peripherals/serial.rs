//! The serial port.

use std::sync::mpsc::Sender;
use vstd::prelude::*;

verus! {

/// The sending half of a channel of the standard library. Verus sees nothing
/// inside it; the port only hands bytes to it.
#[verifier::external_type_specification]
#[verifier::external_body]
#[verifier::reject_recursive_types(T)]
pub struct ExSender<T>(Sender<T>);

/// Hands `byte` to `std::sync::mpsc::Sender::send` and drops the answer: a
/// receiver that has gone away loses the byte. Nothing is claimed of the call.
#[verifier::external_body]
fn send_byte(sender: &Sender<u8>, byte: u8) {
    let _ = sender.send(byte);
}

/// The serial port: one data byte and a start bit. A transfer that has been
/// started completes in the next machine cycle. Each byte sent also goes to the
/// channel, if one is connected, so that a program's output can be read outside.
pub struct Serial {
    pub channel: Option<Sender<u8>>,
    pub start: bool,
    pub data: u8,
}

/// The address of the data register.
pub const DATA: u16 = 0xFF01;

/// The address of the control register.
pub const CONTROL: u16 = 0xFF02;

/// The start bit of the control register.
pub const START: u8 = 0x80;

impl Serial {
    /// The port after one machine cycle: a started transfer is over, and the
    /// data register holds the zero that was shifted in.
    pub open spec fn step_spec(self) -> Serial {
        if self.start {
            Serial { start: false, data: 0, ..self }
        } else {
            self
        }
    }

    /// The byte that the next machine cycle sends, if it sends one.
    pub open spec fn outgoing(&self) -> Option<u8> {
        if self.start {
            Some(self.data)
        } else {
            None
        }
    }

    /// What the register at `addr` reads.
    pub open spec fn read_spec(&self, addr: u16) -> u8 {
        if addr == DATA {
            self.data
        } else if self.start {
            START
        } else {
            0
        }
    }

    /// The port after `val` has been written to the register at `addr`.
    pub open spec fn write_spec(self, addr: u16, val: u8) -> Serial {
        if addr == DATA {
            Serial { data: val, ..self }
        } else {
            Serial { start: val >= 128, ..self }
        }
    }

    /// An idle port, with or without a channel.
    pub fn new(channel: Option<Sender<u8>>) -> (r: Self)
        ensures
            r == (Serial { channel, start: false, data: 0 }),
    {
        Self { channel, start: false, data: 0 }
    }

    /// Advances the port by one machine cycle.
    pub fn step(&mut self)
        ensures
            *final(self) == old(self).step_spec(),
    {
        if self.start {
            match &self.channel {
                Some(sender) => send_byte(sender, self.data),
                None => {},
            }
            self.start = false;
            self.data = 0;
        }
    }

    /// Connects the channel that receives each byte sent.
    pub fn connect_channel(&mut self, tx: Sender<u8>)
        ensures
            *final(self) == (Serial { channel: Some(tx), ..*old(self) }),
    {
        self.channel = Some(tx)
    }

    pub fn set_start(&mut self, val: bool)
        ensures
            *final(self) == (Serial { start: val, ..*old(self) }),
    {
        self.start = val;
    }

    pub fn start(&self) -> (r: bool)
        ensures
            r == self.start,
    {
        self.start
    }

    pub fn set_data(&mut self, val: u8)
        ensures
            *final(self) == (Serial { data: val, ..*old(self) }),
    {
        self.data = val;
    }

    pub fn data(&self) -> (r: u8)
        ensures
            r == self.data,
    {
        self.data
    }

    /// Writes the data register or, of the control register, the start bit.
    pub fn write(&mut self, addr: u16, val: u8)
        requires
            addr == DATA || addr == CONTROL,
        ensures
            *final(self) == old(self).write_spec(addr, val),
    {
        if addr == DATA {
            self.data = val;
        } else {
            self.start = val >= 128;
        }
    }

    /// Reads the data register or, of the control register, the start bit.
    pub fn read(&self, addr: u16) -> (r: u8)
        requires
            addr == DATA || addr == CONTROL,
        ensures
            r == self.read_spec(addr),
    {
        if addr == DATA {
            self.data
        } else if self.start {
            START
        } else {
            0
        }
    }
}

} // verus!
