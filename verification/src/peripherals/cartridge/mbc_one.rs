//! A cartridge with the first generation of bank-switching hardware.

use crate::peripherals::cartridge::{get_byte, CartState, Cartridge, Mapper, BOOTROM_DISABLE};
use vstd::prelude::*;

verus! {

/// A ROM of several banks of 16 KiB. Bank 0 stands at 0x0000; the bank selected
/// by a write to 0x2000..=0x3FFF stands at 0x4000. Selecting bank 0 selects
/// bank 1.
pub struct MbcOne {
    pub bootrom: Vec<u8>,
    pub rom: Vec<u8>,
    pub bootrom_disabled: bool,
    pub rom_bank: u8,
}

impl MbcOne {
    /// A cartridge with the boot ROM switched on and bank 1 selected.
    pub fn new(bootrom: Vec<u8>, rom: Vec<u8>) -> (r: Self)
        ensures
            r.bootrom == bootrom,
            r.rom == rom,
            !r.bootrom_disabled,
            r.rom_bank == 1,
    {
        Self { bootrom, rom, bootrom_disabled: false, rom_bank: 1 }
    }
}

impl Cartridge for MbcOne {
    open spec fn state(&self) -> CartState {
        CartState {
            mapper: Mapper::Mbc1,
            bootrom: self.bootrom@,
            rom: self.rom@,
            bootrom_disabled: self.bootrom_disabled,
            rom_bank: self.rom_bank,
        }
    }

    fn read(&self, address: u16) -> (r: u8) {
        if address <= 0xFF && !self.bootrom_disabled {
            get_byte(&self.bootrom, address as usize)
        } else if address == BOOTROM_DISABLE {
            if self.bootrom_disabled {
                1
            } else {
                0
            }
        } else if address < 0x4000 {
            get_byte(&self.rom, address as usize)
        } else if address < 0x8000 {
            let bank: usize = if self.rom_bank == 0 {
                1
            } else {
                self.rom_bank as usize
            };
            get_byte(&self.rom, (address - 0x4000) as usize + bank * 0x4000)
        } else {
            0xFF
        }
    }

    fn write(&mut self, address: u16, val: u8) {
        if address == BOOTROM_DISABLE {
            self.bootrom_disabled = val != 0;
        } else if 0x2000 <= address && address <= 0x3FFF {
            self.rom_bank = if val == 0 {
                1
            } else {
                val
            };
        }
    }
}

} // verus!
