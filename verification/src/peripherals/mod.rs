//! The peripherals and the bus that ties them to the CPU.

pub mod apu;
pub mod cartridge;
pub mod interrupt;
pub mod joypad;
pub mod mem;
pub mod ppu;
pub mod serial;
pub mod timer;

use crate::peripherals::apu::Apu;
use crate::peripherals::cartridge::{
    mapper_of, Cart, CartState, Cartridge, Mapper, BOOTROM_DISABLE,
};
use crate::peripherals::interrupt::{Flag, Interrupt};
use crate::peripherals::joypad::events::{EventHandler, State};
use crate::peripherals::joypad::fake_events::FakeEvents;
use crate::peripherals::joypad::Joypad;
use crate::peripherals::mem::model::Memory;
use crate::peripherals::ppu::display::Display;
use crate::peripherals::ppu::fake_display::FakeDisplay;
use crate::peripherals::ppu::{shade_color, Ppu, PpuEvent, PIXEL_WIDTH, VISIBLE_COUNT};
use crate::peripherals::serial::Serial;
use crate::peripherals::timer::Timer;
use std::sync::mpsc::Sender;
use vstd::prelude::*;

verus! {

/// A transfer of 160 bytes into the sprite table, four bytes in a machine cycle.
#[derive(Debug, Copy, Clone, PartialEq, Eq, Structural)]
pub struct Dma {
    pub enabled: bool,
    /// Where the next byte comes from.
    pub source: u16,
    /// Where the next byte goes.
    pub dest: u16,
}

/// The last address of the sprite table.
pub const OAM_END: u16 = 0xFE9F;

/// The first address of the sprite table.
pub const OAM_START: u16 = 0xFE00;

impl Dma {
    /// No transfer.
    pub open spec fn idle() -> Dma {
        Dma { enabled: false, source: 0, dest: 0 }
    }

    /// The transfer from the page `page` of the address space.
    pub open spec fn from_page(page: u8) -> Dma {
        Dma { enabled: true, source: (page * 256) as u16, dest: OAM_START }
    }

    /// A running transfer one machine cycle later: four bytes on, and over once
    /// it has left the sprite table.
    pub open spec fn advanced(self) -> Dma {
        if self.enabled {
            let dest = ((self.dest + 4) % 0x1_0000) as u16;
            Dma { enabled: dest <= OAM_END, source: ((self.source + 4) % 0x1_0000) as u16, dest }
        } else {
            self
        }
    }

    pub fn new() -> (r: Self)
        ensures
            r == Dma::idle(),
    {
        Self { enabled: false, source: 0, dest: 0 }
    }
}

/// Everything behind the bus, as the CPU can see it: the view of `Peripherals`.
pub struct Bus {
    pub mem: Memory,
    pub apu: Apu,
    pub cart: CartState,
    pub dma: Dma,
    pub interrupt: Interrupt,
    pub joypad: Joypad,
    pub ppu: Ppu,
    pub serial: Serial,
    pub timer: Timer,
    /// The lines that the peripherals raised in the last machine cycle: the
    /// controller shows them from the next cycle on.
    pub latched: u8,
}

/// Whether `address` lies in high RAM, the one memory that the CPU can reach
/// while a transfer into the sprite table runs.
pub open spec fn in_high_ram(address: u16) -> bool {
    0xFF80 <= address <= 0xFFFE
}

impl Bus {
    /// Whether everything behind the bus but the cartridge is as it is after a
    /// reset.
    pub open spec fn is_reset(&self) -> bool {
        &&& self.mem.is_zero()
        &&& self.apu.is_reset()
        &&& self.dma == Dma::idle()
        &&& self.interrupt == Interrupt::new_spec()
        &&& self.joypad == Joypad::new_spec()
        &&& self.ppu.is_reset()
        &&& self.serial == (Serial { channel: None, start: false, data: 0 })
        &&& self.timer == Timer::new_spec()
        &&& self.latched == 0
    }

    /// What a read of `address` gives while no transfer runs.
    #[verifier::opaque]
    pub open spec fn read_direct(&self, address: u16) -> u8 {
        if address < 0x8000 || address == BOOTROM_DISABLE {
            self.cart.read(address)
        } else if address <= 0x9FFF || 0xFE00 <= address <= 0xFE9F {
            self.ppu.read_spec(address)
        } else if address <= 0xFDFF || in_high_ram(address) {
            self.mem.read_spec(address)
        } else if address <= 0xFEFF {
            0
        } else if address == 0xFF00 {
            self.joypad.read_spec()
        } else if address == 0xFF01 {
            self.serial.data
        } else if address == 0xFF02 {
            if self.serial.start {
                0xFF
            } else {
                0x7F
            }
        } else if 0xFF04 <= address <= 0xFF07 {
            self.timer.read_spec(address)
        } else if address == 0xFF0F {
            (224 + self.interrupt.flags_spec()) as u8
        } else if 0xFF10 <= address <= 0xFF3F {
            self.apu.read_spec(address)
        } else if 0xFF40 <= address <= 0xFF4B {
            self.ppu.reg_read_spec(address)
        } else if address == 0xFFFF {
            self.interrupt.enables_spec()
        } else {
            0xFF
        }
    }

    /// What the CPU reads at `address`: 0xFF outside high RAM while a transfer
    /// into the sprite table runs.
    #[verifier::opaque]
    pub open spec fn read(&self, address: u16) -> u8 {
        if self.dma.enabled && !in_high_ram(address) {
            0xFF
        } else {
            self.read_direct(address)
        }
    }

    /// The bus after `val` has been written to `address` while no transfer runs.
    #[verifier::opaque]
    pub open spec fn write_direct(self, address: u16, val: u8) -> Bus {
        if address < 0x8000 || address == BOOTROM_DISABLE {
            Bus { cart: self.cart.write(address, val), ..self }
        } else if address <= 0x9FFF || 0xFE00 <= address <= 0xFE9F {
            Bus { ppu: self.ppu.write_spec(address, val), ..self }
        } else if address <= 0xFDFF || in_high_ram(address) {
            Bus { mem: self.mem.write_spec(address, val), ..self }
        } else if address <= 0xFEFF {
            self
        } else if address == 0xFF00 {
            Bus { joypad: self.joypad.write_spec(val), ..self }
        } else if address == 0xFF01 {
            Bus { serial: Serial { data: val, ..self.serial }, ..self }
        } else if address == 0xFF02 {
            Bus { serial: Serial { start: val >= 128, ..self.serial }, ..self }
        } else if 0xFF04 <= address <= 0xFF07 {
            Bus { timer: self.timer.write_spec(address, val), ..self }
        } else if address == 0xFF0F {
            Bus { interrupt: self.interrupt.with_flags(val), ..self }
        } else if 0xFF10 <= address <= 0xFF3F {
            Bus { apu: self.apu.write_spec(address, val), ..self }
        } else if 0xFF40 <= address <= 0xFF4B {
            Bus { ppu: self.ppu.reg_write_spec(address, val), ..self }
        } else if address == 0xFFFF {
            Bus { interrupt: self.interrupt.with_enables(val), ..self }
        } else {
            self
        }
    }

    /// The bus after the CPU has written `val` to `address`: a write outside high
    /// RAM is dropped while a transfer into the sprite table runs.
    #[verifier::opaque]
    pub open spec fn write(self, address: u16, val: u8) -> Bus {
        if self.dma.enabled && !in_high_ram(address) {
            self
        } else {
            self.write_direct(address, val)
        }
    }

    /// The bus after byte `index` of the current four of a transfer has been
    /// copied.
    pub open spec fn copied(self, index: int) -> Bus {
        self.write_direct(
            ((self.dma.dest + index) % 0x1_0000) as u16,
            self.read_direct(((self.dma.source + index) % 0x1_0000) as u16),
        )
    }

    /// The bus after a running transfer has copied its four bytes of this
    /// machine cycle.
    pub open spec fn transferred(self) -> Bus {
        if self.dma.enabled {
            self.copied(0).copied(1).copied(2).copied(3)
        } else {
            self
        }
    }

    /// The lines that the peripherals raise in their machine cycle.
    pub open spec fn raising(&self, keys: State) -> Interrupt {
        let none = Interrupt::new_spec();
        let i1 = if self.joypad.due() {
            Joypad::raised(none, keys)
        } else {
            none
        };
        let i2 = self.ppu.lcd_interrupts(i1);
        if self.timer.reloads() {
            Interrupt { timer: Flag { trigger: true, ..i2.timer }, ..i2 }
        } else {
            i2
        }
    }

    /// The bus after the peripherals have taken their machine cycle, before the
    /// transfer copies: joypad, pixel processing unit, serial port and timer, in
    /// this order. `keys` is what the event source reports, should the joypad ask
    /// it in this cycle. The interrupts that the peripherals raise show in the
    /// controller with the next machine cycle, those of the cycle before show now.
    pub open spec fn stepped(self, keys: State) -> Bus {
        Bus {
            joypad: if self.joypad.due() {
                self.joypad.updated(keys)
            } else {
                self.joypad.waited()
            },
            ppu: self.ppu.step_spec(),
            dma: self.ppu.dma_step(self.dma),
            serial: self.serial.step_spec(),
            timer: self.timer.step_spec(),
            interrupt: self.interrupt.raised(self.latched),
            latched: self.raising(keys).flags_spec(),
            ..self
        }
    }

    /// The bus after one machine cycle.
    pub open spec fn advanced(self, keys: State) -> Bus {
        self.stepped(keys).transferred()
    }
}

/// The peripherals, and the bus through which the CPU reaches them.
pub struct Peripherals {
    pub mem: Memory,
    pub apu: Apu,
    pub cartridge: Cart,
    pub dma: Dma,
    pub interrupt: Interrupt,
    pub joypad: Joypad,
    pub ppu: Ppu,
    pub serial: Serial,
    pub timer: Timer,
    /// Where the joypad learns of the keys.
    pub events: Box<dyn EventHandler>,
    /// Where the lines go that the pixel processing unit renders.
    pub display: Box<dyn Display>,
    /// Whether frames are to be shown as fast as they come.
    pub unthrottled: bool,
    /// The lines that the peripherals raised in the last machine cycle.
    pub latched: u8,
}

impl View for Peripherals {
    type V = Bus;

    closed spec fn view(&self) -> Bus {
        Bus {
            mem: self.mem,
            apu: self.apu,
            cart: self.cartridge.state(),
            dma: self.dma,
            interrupt: self.interrupt,
            joypad: self.joypad,
            ppu: self.ppu,
            serial: self.serial,
            timer: self.timer,
            latched: self.latched,
        }
    }
}

impl Peripherals {
    /// What the view is made of: the peripherals themselves, and of the
    /// cartridge what it holds.
    pub proof fn lemma_view(&self)
        ensures
            self@ == (Bus {
                mem: self.mem,
                apu: self.apu,
                cart: self.cartridge.state(),
                dma: self.dma,
                interrupt: self.interrupt,
                joypad: self.joypad,
                ppu: self.ppu,
                serial: self.serial,
                timer: self.timer,
                latched: self.latched,
            }),
    {
    }

    /// The peripherals around the cartridge for `rom`, with a display and a source
    /// of key events.
    pub fn new(
        bootrom: Vec<u8>,
        rom: Vec<u8>,
        display: Box<dyn Display>,
        events: Box<dyn EventHandler>,
    ) -> (r: Self)
        requires
            mapper_of(rom@) is Some,
        ensures
            r@.cart == (CartState {
                mapper: mapper_of(rom@)->Some_0,
                bootrom: bootrom@,
                rom: rom@,
                bootrom_disabled: false,
                rom_bank: 1,
            }),
            r@.is_reset(),
            !r.unthrottled,
    {
        Self {
            mem: Memory::new(),
            apu: Apu::new(),
            cartridge: crate::peripherals::cartridge::new(bootrom, rom),
            dma: Dma::new(),
            interrupt: Interrupt::new(),
            joypad: Joypad::new(),
            ppu: Ppu::new(),
            serial: Serial::new(None),
            timer: Timer::new(),
            events,
            display,
            unthrottled: false,
            latched: 0,
        }
    }

    /// Peripherals around an empty cartridge, with a display that shows nothing
    /// and keys that are never pressed.
    pub fn new_fake() -> (r: Self)
        ensures
            r@.is_reset(),
            r@.cart.mapper == Mapper::RomOnly,
            r@.cart.bootrom == Seq::new(0x100, |i: int| 0u8),
            r@.cart.rom == Seq::new(0x1000, |i: int| 0u8),
            !r@.cart.bootrom_disabled,
            !r.unthrottled,
    {
        let bootrom = zeros(0x100);
        let rom = zeros(0x1000);
        proof {
            assert(bootrom@ =~= Seq::new(0x100, |i: int| 0u8));
            assert(rom@ =~= Seq::new(0x1000, |i: int| 0u8));
        }
        let display: Box<dyn Display> = Box::new(FakeDisplay::new());
        let events: Box<dyn EventHandler> = Box::new(FakeEvents::new());
        Peripherals::new(bootrom, rom, display, events)
    }

    /// Advances every peripheral by one machine cycle, and then a running
    /// transfer into the sprite table by four bytes. What the bus is afterwards
    /// depends on the keys that the event source reports, if it is asked.
    pub fn step(&mut self)
        ensures
            exists|keys: State| final(self)@ == #[trigger] old(self)@.advanced(keys),
            final(self).unthrottled == old(self).unthrottled,
    {
        let ghost before = self@;
        self.interrupt.raise(self.latched);
        let mut raised = Interrupt::new();
        self.joypad.step(&mut raised, &mut self.events);
        let ghost keys: State = if before.joypad.due() {
            choose|keys: State|
                self.joypad == before.joypad.updated(keys) && raised == Joypad::raised(
                    Interrupt::new_spec(),
                    keys,
                )
        } else {
            State::released()
        };
        let event = self.ppu.step(&mut raised, &mut self.dma);
        self.show(event);
        self.serial.step();
        self.timer.step(&mut raised);
        assert(raised == before.raising(keys));
        self.latched = raised.flags();
        assert(self@ == before.stepped(keys));
        self.transfer();
        assert(self@ == before.advanced(keys));
    }

    /// Hands to the display what the pixel processing unit asks for.
    fn show(&mut self, event: PpuEvent)
        ensures
            final(self)@ == old(self)@,
            final(self).unthrottled == old(self).unthrottled,
    {
        match event {
            PpuEvent::Line(y, line) => {
                if y < VISIBLE_COUNT {
                    let mut x: usize = 0;
                    while x < PIXEL_WIDTH
                        invariant
                            y < VISIBLE_COUNT,
                            self@ == old(self)@,
                            self.unthrottled == old(self).unthrottled,
                        decreases PIXEL_WIDTH - x,
                    {
                        let _ = self.display.draw_pixel(x, y as usize, shade_color(line[x]));
                        x += 1;
                    }
                }
            },
            PpuEvent::Frame => self.display.show(),
            PpuEvent::Idle => {},
        }
    }

    /// Copies byte `index` of the four bytes of this machine cycle.
    fn copy_byte(&mut self, index: u16)
        requires
            index < 4,
        ensures
            final(self)@ == old(self)@.copied(index as int),
            final(self).unthrottled == old(self).unthrottled,
            final(self).dma == old(self).dma,
    {
        let source = self.dma.source.wrapping_add(index);
        let dest = self.dma.dest.wrapping_add(index);
        let data = self.read_direct(source);
        self.write_direct(dest, data);
    }

    /// Copies the four bytes of this machine cycle of a running transfer.
    fn transfer(&mut self)
        ensures
            final(self)@ == old(self)@.transferred(),
            final(self).unthrottled == old(self).unthrottled,
    {
        if self.dma.enabled {
            self.copy_byte(0);
            self.copy_byte(1);
            self.copy_byte(2);
            self.copy_byte(3);
        }
    }

    /// Writes `val` to `address` as if no transfer ran.
    fn write_direct(&mut self, address: u16, val: u8)
        ensures
            final(self)@ == old(self)@.write_direct(address, val),
            final(self).unthrottled == old(self).unthrottled,
            final(self).dma == old(self).dma,
    {
        reveal(Bus::write_direct);
        match address {
            0x0000..=0x7FFF | 0xFF50 => self.cartridge.write(address, val),
            0x8000..=0x9FFF | 0xFE00..=0xFE9F => self.ppu.write(address, val),
            0xA000..=0xFDFF | 0xFF80..=0xFFFE => self.mem.write(address, val),
            0xFF00 => self.joypad.write(val),
            0xFF01 => self.serial.set_data(val),
            0xFF02 => self.serial.set_start(val >= 128),
            0xFF04..=0xFF07 => self.timer.write(address, val),
            0xFF0F => self.interrupt.set_flags(val),
            0xFF10..=0xFF3F => self.apu.write(address, val),
            0xFF40..=0xFF4B => self.ppu.write_reg(address, val),
            0xFFFF => self.interrupt.set_enables(val),
            _ => {},
        }
    }

    /// Reads `address` as if no transfer ran.
    fn read_direct(&self, address: u16) -> (r: u8)
        ensures
            r == self@.read_direct(address),
    {
        reveal(Bus::read_direct);
        match address {
            0x0000..=0x7FFF | 0xFF50 => self.cartridge.read(address),
            0x8000..=0x9FFF | 0xFE00..=0xFE9F => self.ppu.read(address),
            0xA000..=0xFDFF | 0xFF80..=0xFFFE => self.mem.read(address),
            0xFEA0..=0xFEFF => 0,
            0xFF00 => self.joypad.read(),
            0xFF01 => self.serial.data(),
            0xFF02 => if self.serial.start() {
                0xFF
            } else {
                0x7F
            },
            0xFF04..=0xFF07 => self.timer.read(address),
            0xFF0F => 224 + self.interrupt.flags(),
            0xFF10..=0xFF3F => self.apu.read(address),
            0xFF40..=0xFF4B => self.ppu.read_reg(address),
            0xFFFF => self.interrupt.enables(),
            _ => 0xFF,
        }
    }

    /// Writes `val` to `address`. While a transfer into the sprite table runs,
    /// only high RAM takes a write.
    pub fn write(&mut self, address: u16, val: u8)
        ensures
            final(self)@ == old(self)@.write(address, val),
            final(self).unthrottled == old(self).unthrottled,
    {
        proof {
            reveal(Bus::write);
            reveal(Bus::write_direct);
        }
        if self.dma.enabled {
            if 0xFF80 <= address && address <= 0xFFFE {
                self.mem.write(address, val);
            }
        } else {
            self.write_direct(address, val);
        }
    }

    /// Reads the byte at `address`. While a transfer into the sprite table runs,
    /// everything but high RAM reads 0xFF.
    pub fn read(&self, address: u16) -> (r: u8)
        ensures
            r == self@.read(address),
    {
        proof {
            reveal(Bus::read);
            reveal(Bus::read_direct);
        }
        if self.dma.enabled {
            if 0xFF80 <= address && address <= 0xFFFE {
                self.mem.read(address)
            } else {
                0xFF
            }
        } else {
            self.read_direct(address)
        }
    }

    /// The handler address of the interrupt that is to be served next, if one is
    /// pending.
    pub fn get_interrupt(&self) -> (r: Option<u16>)
        ensures
            r == self@.interrupt.pending_vector(),
    {
        self.interrupt.get_interrupt_pc()
    }

    /// Lowers the line of the interrupt that is to be served next.
    pub fn disable_interrupt(&mut self)
        ensures
            final(self)@ == (Bus { interrupt: old(self)@.interrupt.acknowledged(), ..old(self)@ }),
            final(self).unthrottled == old(self).unthrottled,
    {
        self.interrupt.disable_interrupt()
    }

    /// Connects the channel that receives each byte the serial port sends.
    pub fn connect_serial_channel(&mut self, tx: Sender<u8>)
        ensures
            final(self)@ == (Bus {
                serial: Serial { channel: Some(tx), ..old(self)@.serial },
                ..old(self)@
            }),
            final(self).unthrottled == old(self).unthrottled,
    {
        self.serial.connect_channel(tx);
    }

    /// Asks for frames to be shown as fast as they come.
    pub fn go_fast(&mut self)
        ensures
            final(self)@ == old(self)@,
            final(self).unthrottled,
    {
        self.unthrottled = true;
    }

    /// Whether the event source has reported a request to leave.
    pub fn shutdown(&self) -> (r: bool)
        ensures
            r == self@.joypad.shutdown,
    {
        self.joypad.shutdown()
    }
}

/// A vector of `n` zeros.
fn zeros(n: usize) -> (v: Vec<u8>)
    ensures
        v@.len() == n,
        forall|i: int| 0 <= i < n ==> v@[i] == 0,
{
    let mut v: Vec<u8> = Vec::new();
    let mut i: usize = 0;
    while i < n
        invariant
            i <= n,
            v@.len() == i,
            forall|j: int| 0 <= j < i ==> v@[j] == 0,
        decreases n - i,
    {
        v.push(0);
        i += 1;
    }
    v
}

/// While no transfer runs, the echo region and the work RAM below it are one
/// memory: a byte written through either address is read through both.
pub proof fn lemma_memory_mirror(bus: Bus, a: u16, v: u8)
    requires
        !bus.dma.enabled,
        0xC000 <= a <= 0xDDFF,
    ensures
        bus.write((a + 0x2000) as u16, v).read(a) == v,
        bus.write(a, v).read((a + 0x2000) as u16) == v,
        bus.write((a + 0x2000) as u16, v) == bus.write(a, v),
{
    reveal(Bus::read);
    reveal(Bus::write);
    reveal(Bus::read_direct);
    reveal(Bus::write_direct);
    crate::peripherals::mem::model::lemma_echo(bus.mem, a, v);
}

/// While a transfer into the sprite table runs, the CPU reads 0xFF everywhere
/// but in high RAM, its writes elsewhere are dropped, and high RAM works as
/// ever.
pub proof fn lemma_dma_locks_bus(bus: Bus, a: u16, b: u16, v: u8)
    requires
        bus.dma.enabled,
    ensures
        !in_high_ram(a) ==> bus.read(a) == 0xFF && bus.write(a, v) == bus,
        in_high_ram(a) ==> bus.write(a, v).read(a) == v,
        in_high_ram(a) && in_high_ram(b) && a != b ==> bus.write(a, v).read(b) == bus.read(b),
{
    reveal(Bus::read);
    reveal(Bus::write);
    reveal(Bus::read_direct);
    reveal(Bus::write_direct);
    crate::peripherals::mem::model::lemma_read_after_write(bus.mem, a, a, v);
    crate::peripherals::mem::model::lemma_read_after_write(bus.mem, a, b, v);
}

/// What the peripherals raise in a machine cycle does not show in the controller
/// in that cycle: the CPU can serve it from the next cycle on.
pub proof fn lemma_interrupts_show_a_cycle_later(bus: Bus, keys: State)
    ensures
        bus.stepped(keys).interrupt == bus.interrupt.raised(bus.latched),
        bus.latched == 0 ==> bus.stepped(keys).interrupt == bus.interrupt,
        bus.stepped(keys).stepped(keys).interrupt == bus.stepped(keys).interrupt.raised(
            bus.raising(keys).flags_spec(),
        ),
{
}

/// A write to 0xFF46 asks for a transfer from the page written; the next machine
/// cycle starts it at the first byte of the page and of the sprite table.
pub proof fn lemma_dma_trigger(bus: Bus, page: u8, keys: State)
    requires
        !bus.dma.enabled,
    ensures
        bus.write(0xFF46, page).ppu.dma == Dma::from_page(page),
        bus.write(0xFF46, page).stepped(keys).dma == Dma::from_page(page),
{
    reveal(Bus::write);
    reveal(Bus::write_direct);
}

/// A running transfer moves four bytes on with each machine cycle and is over
/// when it has left the sprite table: 40 cycles after it started.
pub proof fn lemma_dma_advances(dma: Dma)
    requires
        dma.enabled,
        OAM_START <= dma.dest <= OAM_END,
    ensures
        dma.advanced().dest == dma.dest + 4,
        dma.advanced().enabled <==> dma.dest + 4 <= OAM_END,
        dma.dest == OAM_START + 4 * 39 ==> !dma.advanced().enabled,
{
}

} // verus!

