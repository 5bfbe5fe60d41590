//! A cycle-stepped emulator core for an 8-bit handheld console: the CPU with its
//! decoder, the memory-mapped bus and the peripherals behind it.

pub mod cpu;
pub mod debug;
pub mod peripherals;
pub mod util;

use crate::cpu::lr25902::{Machine, LR25902};
use crate::cpu::registers::{Reg16, Reg8};
use crate::peripherals::cartridge::{mapper_of, CartState};
use crate::peripherals::joypad::events::{EventHandler, State};
use crate::peripherals::ppu::display::Display;
use crate::peripherals::{Bus, Peripherals};
use std::sync::mpsc::Sender;
use vstd::prelude::*;

verus! {

/// The whole machine: the CPU and everything behind its bus.
pub struct Wolfwig {
    pub peripherals: Peripherals,
    pub cpu: LR25902,
}

impl Wolfwig {
    /// CPU and bus together.
    pub open spec fn machine(&self) -> Machine {
        Machine { cpu: self.cpu, bus: self.peripherals@ }
    }

    /// The machine after one machine cycle in which the event source reports
    /// `keys`, if it is asked: first the peripherals take their cycle, then the
    /// CPU takes its own.
    pub open spec fn stepped(m: Machine, keys: State) -> Machine {
        (Machine { cpu: m.cpu, bus: m.bus.advanced(keys) }).stepped()
    }

    /// A machine around the given peripherals, with the CPU at address 0.
    pub fn new(peripherals: Peripherals) -> (r: Self)
        ensures
            r.peripherals == peripherals,
            r.cpu == LR25902::new_spec(),
    {
        Self { peripherals, cpu: LR25902::new() }
    }

    /// A machine for a boot ROM and a cartridge ROM, if this library has the
    /// mapper that the cartridge asks for.
    pub fn from_roms(
        bootrom: Vec<u8>,
        rom: Vec<u8>,
        display: Box<dyn Display>,
        events: Box<dyn EventHandler>,
    ) -> (r: Option<Self>)
        ensures
            r is Some <==> mapper_of(rom@) is Some,
            r is Some ==> r->Some_0.cpu == LR25902::new_spec() && r->Some_0.peripherals@.is_reset()
                && r->Some_0.peripherals@.cart == (CartState {
                mapper: mapper_of(rom@)->Some_0,
                bootrom: bootrom@,
                rom: rom@,
                bootrom_disabled: false,
                rom_bank: 1,
            }) && !r->Some_0.peripherals.unthrottled,
    {
        if crate::peripherals::cartridge::supported(&rom) {
            Some(Wolfwig::new(Peripherals::new(bootrom, rom, display, events)))
        } else {
            None
        }
    }

    /// Advances the machine by one machine cycle: the peripherals first, then the
    /// CPU. Says whether the CPU has stopped.
    pub fn step(&mut self) -> (stopped: bool)
        ensures
            exists|keys: State|
                final(self).machine() == #[trigger] Wolfwig::stepped(old(self).machine(), keys),
            stopped == final(self).cpu.stopped,
    {
        self.peripherals.step();
        let ghost keys: State = choose|keys: State|
            self.peripherals@ == old(self).peripherals@.advanced(keys);
        let stopped = self.cpu.step(&mut self.peripherals);
        assert(self.machine() == Wolfwig::stepped(old(self).machine(), keys));
        stopped
    }

    /// Connects the channel that receives each byte the serial port sends.
    pub fn connect_serial(&mut self, tx: Sender<u8>)
        ensures
            final(self).cpu == old(self).cpu,
            final(self).peripherals@.serial.channel == Some(tx),
    {
        self.peripherals.connect_serial_channel(tx);
    }

    /// The program counter.
    pub fn pc(&self) -> (r: u16)
        ensures
            r == self.cpu.regs.read16_spec(Reg16::PC),
    {
        self.cpu.pc()
    }

    /// The value of an 8-bit register.
    pub fn reg8(&self, reg: Reg8) -> (r: u8)
        ensures
            r == self.cpu.regs.read8_spec(reg),
    {
        self.cpu.regs.read8(reg)
    }

    /// The value of a 16-bit register.
    pub fn reg16(&self, reg: Reg16) -> (r: u16)
        ensures
            r == self.cpu.regs.read16_spec(reg),
    {
        self.cpu.regs.read16(reg)
    }

    /// Asks for frames to be shown as fast as they come.
    pub fn go_fast(&mut self)
        ensures
            final(self).machine() == old(self).machine(),
            final(self).peripherals.unthrottled,
    {
        self.peripherals.go_fast();
    }

    /// Whether the event source has reported a request to leave.
    pub fn shutdown(&self) -> (r: bool)
        ensures
            r == self.peripherals@.joypad.shutdown,
    {
        self.peripherals.shutdown()
    }
}

} // verus!
