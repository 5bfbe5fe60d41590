//! The register file.

use crate::util::bit;
use vstd::prelude::*;

verus! {

/// The 8-bit registers.
#[derive(Debug, Copy, Clone, PartialEq, Eq, Structural)]
pub enum Reg8 {
    A,
    B,
    C,
    D,
    E,
    H,
    L,
}

/// The 16-bit registers: four pairs of 8-bit registers, the stack pointer and the
/// program counter.
#[derive(Debug, Copy, Clone, PartialEq, Eq, Structural)]
pub enum Reg16 {
    AF,
    BC,
    DE,
    HL,
    SP,
    PC,
}

/// The conditions that an instruction can test or set.
#[derive(Debug, Copy, Clone, PartialEq, Eq, Structural)]
pub enum Flag {
    /// The previous result was zero.
    Zero,
    /// The previous result was not zero.
    NotZero,
    /// The previous operation was a subtraction.
    Subtract,
    /// The previous operation carried out of the low four bits.
    HalfCarry,
    /// The previous operation carried out of the low eight bits.
    Carry,
    /// The previous operation did not carry out of the low eight bits.
    NotCarry,
}

/// The current register values of the CPU. The flag register is kept as its four
/// flags, so its low four bits read as zero.
#[derive(Debug, Copy, Clone, PartialEq, Eq, Structural)]
pub struct Registers {
    pub a: u8,
    pub b: u8,
    pub c: u8,
    pub d: u8,
    pub e: u8,
    pub h: u8,
    pub l: u8,
    pub zero: bool,
    pub subtract: bool,
    pub half_carry: bool,
    pub carry: bool,
    pub sp: u16,
    pub pc: u16,
}

impl Registers {
    /// The flag register as a byte: Z, N, H, C in bits 7 to 4, zeros below.
    pub open spec fn f(&self) -> u8 {
        ((if self.zero { 128int } else { 0 }) + (if self.subtract { 64int } else { 0 }) + (
        if self.half_carry { 32int } else { 0 }) + (if self.carry { 16int } else { 0 })) as u8
    }

    #[verifier::opaque]
    pub open spec fn read8_spec(&self, r: Reg8) -> u8 {
        match r {
            Reg8::A => self.a,
            Reg8::B => self.b,
            Reg8::C => self.c,
            Reg8::D => self.d,
            Reg8::E => self.e,
            Reg8::H => self.h,
            Reg8::L => self.l,
        }
    }

    /// A pair reads as its high register times 256 plus its low register.
    #[verifier::opaque]
    pub open spec fn read16_spec(&self, r: Reg16) -> u16 {
        match r {
            Reg16::AF => (self.a * 256 + self.f()) as u16,
            Reg16::BC => (self.b * 256 + self.c) as u16,
            Reg16::DE => (self.d * 256 + self.e) as u16,
            Reg16::HL => (self.h * 256 + self.l) as u16,
            Reg16::SP => self.sp,
            Reg16::PC => self.pc,
        }
    }

    #[verifier::opaque]
    pub open spec fn read_flag_spec(&self, f: Flag) -> bool {
        match f {
            Flag::Zero => self.zero,
            Flag::NotZero => !self.zero,
            Flag::Subtract => self.subtract,
            Flag::HalfCarry => self.half_carry,
            Flag::Carry => self.carry,
            Flag::NotCarry => !self.carry,
        }
    }

    #[verifier::opaque]
    pub open spec fn set8_spec(self, r: Reg8, data: u8) -> Registers {
        match r {
            Reg8::A => Registers { a: data, ..self },
            Reg8::B => Registers { b: data, ..self },
            Reg8::C => Registers { c: data, ..self },
            Reg8::D => Registers { d: data, ..self },
            Reg8::E => Registers { e: data, ..self },
            Reg8::H => Registers { h: data, ..self },
            Reg8::L => Registers { l: data, ..self },
        }
    }

    /// Writing a pair writes the high byte to its high register and the low byte
    /// to its low register; of the low byte of AF only the four flag bits are
    /// kept.
    #[verifier::opaque]
    pub open spec fn set16_spec(self, r: Reg16, data: u16) -> Registers {
        let high = (data / 256) as u8;
        let low = (data % 256) as u8;
        match r {
            Reg16::AF => Registers {
                a: high,
                zero: bit(data as int, 7),
                subtract: bit(data as int, 6),
                half_carry: bit(data as int, 5),
                carry: bit(data as int, 4),
                ..self
            },
            Reg16::BC => Registers { b: high, c: low, ..self },
            Reg16::DE => Registers { d: high, e: low, ..self },
            Reg16::HL => Registers { h: high, l: low, ..self },
            Reg16::SP => Registers { sp: data, ..self },
            Reg16::PC => Registers { pc: data, ..self },
        }
    }

    /// Setting a flag sets the condition it names; the negated names clear it.
    #[verifier::opaque]
    pub open spec fn set_flag_spec(self, f: Flag, val: bool) -> Registers {
        match f {
            Flag::Zero => Registers { zero: val, ..self },
            Flag::NotZero => Registers { zero: !val, ..self },
            Flag::Subtract => Registers { subtract: val, ..self },
            Flag::HalfCarry => Registers { half_carry: val, ..self },
            Flag::Carry => Registers { carry: val, ..self },
            Flag::NotCarry => Registers { carry: !val, ..self },
        }
    }

    /// A register file with every register and flag cleared.
    pub open spec fn cleared() -> Registers {
        Registers {
            a: 0,
            b: 0,
            c: 0,
            d: 0,
            e: 0,
            h: 0,
            l: 0,
            zero: false,
            subtract: false,
            half_carry: false,
            carry: false,
            sp: 0,
            pc: 0,
        }
    }

    /// A register file with every register and flag cleared.
    pub fn new() -> (r: Registers)
        ensures
            r == Registers::cleared(),
    {
        Registers {
            a: 0,
            b: 0,
            c: 0,
            d: 0,
            e: 0,
            h: 0,
            l: 0,
            zero: false,
            subtract: false,
            half_carry: false,
            carry: false,
            sp: 0,
            pc: 0,
        }
    }

    /// Reads an 8-bit register.
    pub fn read8(&self, r: Reg8) -> (v: u8)
        ensures
            v == self.read8_spec(r),
    {
        reveal(Registers::read8_spec);
        match r {
            Reg8::A => self.a,
            Reg8::B => self.b,
            Reg8::C => self.c,
            Reg8::D => self.d,
            Reg8::E => self.e,
            Reg8::H => self.h,
            Reg8::L => self.l,
        }
    }

    /// The flag register as a byte.
    fn flags_byte(&self) -> (v: u8)
        ensures
            v == self.f(),
            v % 16 == 0,
    {
        let mut v: u8 = 0;
        if self.zero {
            v += 128;
        }
        if self.subtract {
            v += 64;
        }
        if self.half_carry {
            v += 32;
        }
        if self.carry {
            v += 16;
        }
        v
    }

    /// Reads a 16-bit register; a pair reads as its high register times 256 plus its
    /// low register.
    pub fn read16(&self, r: Reg16) -> (v: u16)
        ensures
            v == self.read16_spec(r),
            r == Reg16::AF ==> v % 16 == 0,
    {
        reveal(Registers::read16_spec);
        match r {
            Reg16::AF => self.a as u16 * 256 + self.flags_byte() as u16,
            Reg16::BC => self.b as u16 * 256 + self.c as u16,
            Reg16::DE => self.d as u16 * 256 + self.e as u16,
            Reg16::HL => self.h as u16 * 256 + self.l as u16,
            Reg16::SP => self.sp,
            Reg16::PC => self.pc,
        }
    }

    /// Reads a condition.
    pub fn read_flag(&self, f: Flag) -> (v: bool)
        ensures
            v == self.read_flag_spec(f),
    {
        reveal(Registers::read_flag_spec);
        match f {
            Flag::Zero => self.zero,
            Flag::NotZero => !self.zero,
            Flag::Subtract => self.subtract,
            Flag::HalfCarry => self.half_carry,
            Flag::Carry => self.carry,
            Flag::NotCarry => !self.carry,
        }
    }

    /// Writes an 8-bit register.
    pub fn set8(&mut self, r: Reg8, data: u8)
        ensures
            *final(self) == old(self).set8_spec(r, data),
    {
        reveal(Registers::set8_spec);
        match r {
            Reg8::A => self.a = data,
            Reg8::B => self.b = data,
            Reg8::C => self.c = data,
            Reg8::D => self.d = data,
            Reg8::E => self.e = data,
            Reg8::H => self.h = data,
            Reg8::L => self.l = data,
        }
    }

    /// Writes a 16-bit register. Writing AF keeps only the four flag bits of the
    /// low byte.
    pub fn set16(&mut self, r: Reg16, data: u16)
        ensures
            *final(self) == old(self).set16_spec(r, data),
    {
        reveal(Registers::set16_spec);
        let high = (data / 256) as u8;
        let low = (data % 256) as u8;
        match r {
            Reg16::AF => {
                self.a = high;
                self.zero = (low / 128) % 2 == 1;
                self.subtract = (low / 64) % 2 == 1;
                self.half_carry = (low / 32) % 2 == 1;
                self.carry = (low / 16) % 2 == 1;
            },
            Reg16::BC => {
                self.b = high;
                self.c = low;
            },
            Reg16::DE => {
                self.d = high;
                self.e = low;
            },
            Reg16::HL => {
                self.h = high;
                self.l = low;
            },
            Reg16::SP => self.sp = data,
            Reg16::PC => self.pc = data,
        }
    }

    /// Sets or clears a condition.
    pub fn set_flag(&mut self, f: Flag, val: bool)
        ensures
            *final(self) == old(self).set_flag_spec(f, val),
    {
        reveal(Registers::set_flag_spec);
        match f {
            Flag::Zero => self.zero = val,
            Flag::NotZero => self.zero = !val,
            Flag::Subtract => self.subtract = val,
            Flag::HalfCarry => self.half_carry = val,
            Flag::Carry => self.carry = val,
            Flag::NotCarry => self.carry = !val,
        }
    }
}

/// A 16-bit register reads back what was written to it; AF reads back the written
/// value with its low four bits cleared.
pub proof fn lemma_set16_read16(regs: Registers, r: Reg16, v: u16)
    ensures
        regs.set16_spec(r, v).read16_spec(r) == if r == Reg16::AF {
            (v - v % 16) as u16
        } else {
            v
        },
{
    reveal(Registers::read16_spec);
    reveal(Registers::set16_spec);
    if r == Reg16::AF {
        lemma_flag_bits(v);
    }
}

/// The four flag bits of a word, weighted, make up its low byte without its low
/// four bits.
proof fn lemma_flag_bits(v: u16)
    by (bit_vector)
    ensures
        (if (v / 128) % 2 == 1 { 128u16 } else { 0u16 }) + (if (v / 64) % 2 == 1 { 64u16 } else { 0u16 })
            + (if (v / 32) % 2 == 1 { 32u16 } else { 0u16 }) + (if (v / 16) % 2 == 1 { 16u16 } else { 0u16 })
            == (v % 256) - (v % 16),
        (v / 256) * 256 + (v % 256) == v,
{
}

/// The low four bits of AF are zero in every register file.
pub proof fn lemma_af_low_nibble_zero(regs: Registers)
    ensures
        regs.read16_spec(Reg16::AF) % 16 == 0,
        regs.f() % 16 == 0,
{
    reveal(Registers::read16_spec);
}

/// Writing one 16-bit pair leaves the other pairs, the stack pointer and the
/// program counter as they were.
pub proof fn lemma_set16_frames(regs: Registers, r: Reg16, q: Reg16, v: u16)
    requires
        r != q,
    ensures
        regs.set16_spec(r, v).read16_spec(q) == regs.read16_spec(q),
{
    reveal(Registers::read16_spec);
    reveal(Registers::set16_spec);
}

} // verus!
