//! Work RAM, external RAM and high RAM.

use vstd::array::spec_array_update;
use vstd::prelude::*;

verus! {

/// The RAM regions of the address space.
pub struct Memory {
    /// External RAM, 0xA000 to 0xBFFF.
    pub xram: [u8; 0x2000],
    /// Work RAM bank 0, 0xC000 to 0xCFFF.
    pub wram0: [u8; 0x1000],
    /// Work RAM bank 1, 0xD000 to 0xDFFF.
    pub wram1_n: [u8; 0x1000],
    /// High RAM, 0xFF80 to 0xFFFE.
    pub high_ram: [u8; 0x7F],
}

/// The address that `address` stands for: the echo region 0xE000 to 0xFDFF
/// mirrors the work RAM 0x2000 below it.
pub open spec fn unmirrored(address: u16) -> u16 {
    if 0xE000 <= address <= 0xFDFF {
        (address - 0x2000) as u16
    } else {
        address
    }
}

/// Whether `address` is backed by this memory.
pub open spec fn mapped(address: u16) -> bool {
    0xA000 <= address <= 0xFDFF || 0xFF80 <= address <= 0xFFFE
}

impl Memory {
    /// The byte at `address`; 0xFF where no RAM is mapped.
    pub open spec fn read_spec(&self, address: u16) -> u8 {
        let addr = unmirrored(address);
        if 0xA000 <= addr <= 0xBFFF {
            self.xram[addr - 0xA000]
        } else if 0xC000 <= addr <= 0xCFFF {
            self.wram0[addr - 0xC000]
        } else if 0xD000 <= addr <= 0xDFFF {
            self.wram1_n[addr - 0xD000]
        } else if 0xFF80 <= addr <= 0xFFFE {
            self.high_ram[addr - 0xFF80]
        } else {
            0xFF
        }
    }

    /// The memory after `val` has been written to `address`; unchanged where no
    /// RAM is mapped.
    pub open spec fn write_spec(self, address: u16, val: u8) -> Memory {
        let addr = unmirrored(address);
        if 0xA000 <= addr <= 0xBFFF {
            Memory { xram: spec_array_update(self.xram, addr - 0xA000, val), ..self }
        } else if 0xC000 <= addr <= 0xCFFF {
            Memory { wram0: spec_array_update(self.wram0, addr - 0xC000, val), ..self }
        } else if 0xD000 <= addr <= 0xDFFF {
            Memory { wram1_n: spec_array_update(self.wram1_n, addr - 0xD000, val), ..self }
        } else if 0xFF80 <= addr <= 0xFFFE {
            Memory { high_ram: spec_array_update(self.high_ram, addr - 0xFF80, val), ..self }
        } else {
            self
        }
    }

    /// Whether every byte of the memory is zero.
    pub open spec fn is_zero(&self) -> bool {
        forall|a: u16| mapped(a) ==> #[trigger] self.read_spec(a) == 0
    }

    /// A memory of zeros.
    pub fn new() -> (r: Self)
        ensures
            r.is_zero(),
    {
        Self { xram: [0; 0x2000], wram0: [0; 0x1000], wram1_n: [0; 0x1000], high_ram: [0; 0x7F] }
    }

    /// Writes `val` to `address`. A write to an address where no RAM is mapped is
    /// dropped.
    pub fn write(&mut self, address: u16, val: u8)
        ensures
            *final(self) == old(self).write_spec(address, val),
    {
        let addr: u16 = match address {
            0xE000..=0xFDFF => address - 0x2000,
            _ => address,
        };
        match addr {
            0xA000..=0xBFFF => {
                self.xram[(addr - 0xA000) as usize] = val;
            },
            0xC000..=0xCFFF => {
                self.wram0[(addr - 0xC000) as usize] = val;
            },
            0xD000..=0xDFFF => {
                self.wram1_n[(addr - 0xD000) as usize] = val;
            },
            0xFF80..=0xFFFE => {
                self.high_ram[(addr - 0xFF80) as usize] = val;
            },
            _ => {},
        }
    }

    /// Reads the byte at `address`; 0xFF where no RAM is mapped.
    pub fn read(&self, address: u16) -> (r: u8)
        ensures
            r == self.read_spec(address),
    {
        let addr: u16 = match address {
            0xE000..=0xFDFF => address - 0x2000,
            _ => address,
        };
        match addr {
            0xA000..=0xBFFF => self.xram[(addr - 0xA000) as usize],
            0xC000..=0xCFFF => self.wram0[(addr - 0xC000) as usize],
            0xD000..=0xDFFF => self.wram1_n[(addr - 0xD000) as usize],
            0xFF80..=0xFFFE => self.high_ram[(addr - 0xFF80) as usize],
            _ => 0xFF,
        }
    }
}

/// A mapped address reads back what was last written to it or to its mirror, and
/// a write changes no other address.
pub proof fn lemma_read_after_write(m: Memory, a: u16, b: u16, v: u8)
    ensures
        m.write_spec(a, v).read_spec(b) == if mapped(a) && unmirrored(a) == unmirrored(b) {
            v
        } else {
            m.read_spec(b)
        },
{
}

/// The echo region and the work RAM below it are one memory: a byte written
/// through either address is read through both.
pub proof fn lemma_echo(m: Memory, a: u16, v: u8)
    requires
        0xC000 <= a <= 0xDDFF,
    ensures
        m.write_spec((a + 0x2000) as u16, v).read_spec(a) == v,
        m.write_spec(a, v).read_spec((a + 0x2000) as u16) == v,
        m.write_spec((a + 0x2000) as u16, v) == m.write_spec(a, v),
{
}

} // verus!
