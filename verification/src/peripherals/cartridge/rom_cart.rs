//! A cartridge that holds nothing but ROM.

use crate::peripherals::cartridge::{get_byte, CartState, Cartridge, Mapper, BOOTROM_DISABLE};
use vstd::prelude::*;

verus! {

/// A ROM of at most 32 KiB, shown at its own addresses.
pub struct RomCart {
    pub bootrom: Vec<u8>,
    pub rom: Vec<u8>,
    pub bootrom_disabled: bool,
}

impl RomCart {
    /// A cartridge with the boot ROM switched on.
    pub fn new(bootrom: Vec<u8>, rom: Vec<u8>) -> (r: Self)
        ensures
            r.bootrom == bootrom,
            r.rom == rom,
            !r.bootrom_disabled,
    {
        Self { bootrom, rom, bootrom_disabled: false }
    }
}

impl Cartridge for RomCart {
    open spec fn state(&self) -> CartState {
        CartState {
            mapper: Mapper::RomOnly,
            bootrom: self.bootrom@,
            rom: self.rom@,
            bootrom_disabled: self.bootrom_disabled,
            rom_bank: 1,
        }
    }

    fn read(&self, address: u16) -> (r: u8) {
        if address <= 0xFF && !self.bootrom_disabled {
            get_byte(&self.bootrom, address as usize)
        } else if address == BOOTROM_DISABLE {
            if self.bootrom_disabled {
                1
            } else {
                0
            }
        } else {
            get_byte(&self.rom, address as usize)
        }
    }

    fn write(&mut self, address: u16, val: u8) {
        if address == BOOTROM_DISABLE {
            self.bootrom_disabled = val != 0;
        }
    }
}

} // verus!
