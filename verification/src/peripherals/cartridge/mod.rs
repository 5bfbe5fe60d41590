//! Cartridges: the ROM of a game and the hardware around it.

pub mod header;
pub mod mbc_one;
pub mod rom_cart;

use crate::peripherals::cartridge::header::CARTRIDGE_TYPE;
use crate::peripherals::cartridge::mbc_one::MbcOne;
use crate::peripherals::cartridge::rom_cart::RomCart;
use vstd::prelude::*;

verus! {

/// How a cartridge maps its ROM into the address space.
#[derive(Debug, Copy, Clone, PartialEq, Eq, Structural)]
pub enum Mapper {
    /// The ROM stands at its own addresses.
    RomOnly,
    /// The upper half of the ROM area shows one of several banks.
    Mbc1,
}

/// What a cartridge holds, as far as the bus can see it.
pub struct CartState {
    pub mapper: Mapper,
    pub bootrom: Seq<u8>,
    pub rom: Seq<u8>,
    /// The boot ROM no longer overlays the first 256 bytes.
    pub bootrom_disabled: bool,
    /// The bank shown from 0x4000 to 0x7FFF.
    pub rom_bank: u8,
}

/// The byte of `bytes` at `index`; 0xFF past its end.
pub open spec fn byte_at(bytes: Seq<u8>, index: int) -> u8 {
    if 0 <= index < bytes.len() {
        bytes[index]
    } else {
        0xFF
    }
}

/// The address of the register that switches the boot ROM off.
pub const BOOTROM_DISABLE: u16 = 0xFF50;

impl CartState {
    /// The offset into the ROM of the byte shown at `address`, below 0x8000.
    pub open spec fn rom_offset(&self, address: u16) -> int {
        if self.mapper == Mapper::Mbc1 && address >= 0x4000 {
            address - 0x4000 + (if self.rom_bank == 0 { 1int } else { self.rom_bank as int }) * 0x4000
        } else {
            address as int
        }
    }

    /// What the cartridge answers to a read of `address`.
    pub open spec fn read(&self, address: u16) -> u8 {
        if address <= 0xFF && !self.bootrom_disabled {
            byte_at(self.bootrom, address as int)
        } else if address == BOOTROM_DISABLE {
            if self.bootrom_disabled {
                1
            } else {
                0
            }
        } else if address < 0x8000 || self.mapper == Mapper::RomOnly {
            byte_at(self.rom, self.rom_offset(address))
        } else {
            0xFF
        }
    }

    /// The cartridge after `val` has been written to `address`. The ROM itself
    /// never changes.
    pub open spec fn write(self, address: u16, val: u8) -> CartState {
        if address == BOOTROM_DISABLE {
            CartState { bootrom_disabled: val != 0, ..self }
        } else if self.mapper == Mapper::Mbc1 && 0x2000 <= address <= 0x3FFF {
            CartState { rom_bank: if val == 0 { 1 } else { val }, ..self }
        } else {
            self
        }
    }
}

/// A cartridge, as the bus sees it.
pub trait Cartridge {
    /// What the cartridge holds.
    spec fn state(&self) -> CartState;

    /// Reads the byte that the cartridge shows at `address`.
    fn read(&self, address: u16) -> (r: u8)
        ensures
            r == self.state().read(address),
    ;

    /// Writes to the cartridge's registers.
    fn write(&mut self, address: u16, val: u8)
        ensures
            final(self).state() == old(self).state().write(address, val),
    ;
}

/// The byte of `bytes` at `index`; 0xFF past its end.
pub fn get_byte(bytes: &Vec<u8>, index: usize) -> (r: u8)
    ensures
        r == byte_at(bytes@, index as int),
{
    if index < bytes.len() {
        bytes[index]
    } else {
        0xFF
    }
}

/// The mapper that the header of `rom` asks for, if this library has it.
pub open spec fn mapper_of(rom: Seq<u8>) -> Option<Mapper> {
    if rom.len() <= CARTRIDGE_TYPE {
        None
    } else if rom[CARTRIDGE_TYPE as int] == 0x00 {
        Some(Mapper::RomOnly)
    } else if rom[CARTRIDGE_TYPE as int] == 0x01 {
        Some(Mapper::Mbc1)
    } else {
        None
    }
}

/// Whether this library has the mapper that the header of `rom` asks for.
pub fn supported(rom: &Vec<u8>) -> (r: bool)
    ensures
        r == mapper_of(rom@) is Some,
{
    rom.len() > CARTRIDGE_TYPE && (rom[CARTRIDGE_TYPE] == 0x00 || rom[CARTRIDGE_TYPE] == 0x01)
}

/// No write changes the ROM or the boot ROM of a cartridge, and once the boot ROM
/// is switched off the first 256 bytes show the ROM.
pub proof fn lemma_rom_is_read_only(cart: CartState, address: u16, val: u8, at: u16)
    ensures
        cart.write(address, val).rom == cart.rom,
        cart.write(address, val).bootrom == cart.bootrom,
        cart.write(address, val).mapper == cart.mapper,
        cart.bootrom_disabled && at < 0x4000 ==> cart.read(at) == byte_at(cart.rom, at as int),
        cart.mapper == Mapper::RomOnly && at < 0x4000 && address != BOOTROM_DISABLE
            ==> cart.write(address, val).read(at) == cart.read(at),
{
}

/// One of the cartridges that this library has.
pub enum Cart {
    Rom(RomCart),
    Mbc1(MbcOne),
}

impl Cartridge for Cart {
    open spec fn state(&self) -> CartState {
        match self {
            Cart::Rom(c) => c.state(),
            Cart::Mbc1(c) => c.state(),
        }
    }

    fn read(&self, address: u16) -> (r: u8) {
        match self {
            Cart::Rom(c) => c.read(address),
            Cart::Mbc1(c) => c.read(address),
        }
    }

    fn write(&mut self, address: u16, val: u8) {
        match self {
            Cart::Rom(c) => c.write(address, val),
            Cart::Mbc1(c) => c.write(address, val),
        }
    }
}

/// The cartridge for `rom`, with the boot ROM overlaid on its first 256 bytes.
pub fn new(bootrom: Vec<u8>, rom: Vec<u8>) -> (r: Cart)
    requires
        mapper_of(rom@) is Some,
    ensures
        r.state() == (CartState {
            mapper: mapper_of(rom@)->Some_0,
            bootrom: bootrom@,
            rom: rom@,
            bootrom_disabled: false,
            rom_bank: 1,
        }),
{
    if rom[CARTRIDGE_TYPE] == 0x00 {
        Cart::Rom(RomCart::new(bootrom, rom))
    } else {
        Cart::Mbc1(MbcOne::new(bootrom, rom))
    }
}

} // verus!
