//! The instruction set and its decoder.

use crate::cpu::registers::Flag;
use crate::cpu::registers::Flag::{Carry, NotCarry, NotZero, Zero};
use crate::cpu::registers::Reg16;
use crate::cpu::registers::Reg16::{AF, BC, DE, HL, SP};
use crate::cpu::registers::Reg8;
use crate::cpu::registers::Reg8::{A, B, C, D, E, H, L};
use crate::cpu::alu::{signed_of, to_signed};
use crate::peripherals::Peripherals;
use crate::util::{signed, word};
use vstd::prelude::*;

verus! {

/// Where a load, a store or a jump finds its address.
#[derive(Debug, Copy, Clone, PartialEq, Eq, Structural)]
pub enum Address {
    Register16(Reg16),
    Immediate16(u16),
}

/// One instruction.
#[derive(Debug, Copy, Clone, PartialEq, Eq, Structural)]
pub enum Op {
    Alu8(Alu8Op),
    Alu16(Alu16Op),
    Call(u16),
    ConditionalCall(Flag, u16),
    ConditionalJump(Flag, u16),
    ConditionalJumpRelative(Flag, u16),
    ConditionalReturn(Flag),
    DisableInterrupts,
    EnableInterrupts,
    /// The second half of entering an interrupt: continue at its vector.
    ExecuteInterrupt(u16),
    Halt,
    Jump(Address),
    JumpRelative(u16),
    Load(Reg8, Address),
    LoadAndDecrement(Reg8, Address),
    LoadAndIncrement(Reg8, Address),
    Move(Reg8, Reg8),
    Nop,
    Pop(Reg16),
    Push(Reg16),
    /// Reads A from 0xFF00 plus the operand.
    ReadIO(u8),
    /// Reads A from 0xFF00 plus C.
    ReadIOC,
    Reset(u16),
    Return,
    ReturnAndEnableInterrupts,
    SetReg(Reg8, u8),
    /// Writes A to 0xFF00 plus the operand.
    SetIO(u8),
    /// Writes A to 0xFF00 plus C.
    SetIOC,
    SetWide(Reg16, u16),
    SetAddr(Reg16, u8),
    /// The first half of entering an interrupt: push the program counter.
    SetupInterrupt,
    Stop,
    Store(Address, Reg8),
    StoreAndDecrement(Address, Reg8),
    StoreAndIncrement(Address, Reg8),
    Unknown(u8),
    WideStore(Address, Reg16),
}

/// An operand or a destination of the 8-bit ALU.
#[derive(Debug, Copy, Clone, PartialEq, Eq, Structural)]
pub enum Alu8Data {
    Reg(Reg8),
    Imm(u8),
    Addr(Reg16),
    Ignore,
}

/// The operations of the 8-bit ALU. The rotations carry a flag that forces the
/// zero flag off, as the short forms on A do.
#[derive(Debug, Copy, Clone, PartialEq, Eq, Structural)]
pub enum Alu8 {
    Add,
    AddWithCarry,
    And,
    ClearCarryFlag,
    Compare,
    Complement,
    DecimalAdjust,
    Decrement,
    Increment,
    Or,
    ResetBit,
    RotateLeft(bool),
    RotateLeftCarry(bool),
    RotateRight(bool),
    RotateRightCarry(bool),
    SetBit,
    SetCarryFlag,
    ShiftLeftArithmetic,
    ShiftRightArithmetic,
    ShiftRightLogical,
    Sub,
    SubWithCarry,
    Swap,
    TestBit,
    Unknown,
    Xor,
}

/// An 8-bit ALU instruction: the operation, its destination, which is also its
/// first operand, and its second operand.
#[derive(Debug, Copy, Clone, PartialEq, Eq, Structural)]
pub struct Alu8Op {
    pub op: Alu8,
    pub dest: Alu8Data,
    pub y: Alu8Data,
}

impl Alu8Op {
    /// A plus an operand, into A.
    pub fn add(y: Alu8Data) -> (r: Self)
        ensures
            r == (Alu8Op { op: Alu8::Add, dest: Alu8Data::Reg(A), y: y }),
    {
        Self { op: Alu8::Add, dest: Alu8Data::Reg(A), y: y }
    }

    /// A plus an operand plus the carry flag, into A.
    pub fn add_with_carry(y: Alu8Data) -> (r: Self)
        ensures
            r == (Alu8Op { op: Alu8::AddWithCarry, dest: Alu8Data::Reg(A), y: y }),
    {
        Self { op: Alu8::AddWithCarry, dest: Alu8Data::Reg(A), y: y }
    }

    /// A and an operand, into A.
    pub fn and(y: Alu8Data) -> (r: Self)
        ensures
            r == (Alu8Op { op: Alu8::And, dest: Alu8Data::Reg(A), y: y }),
    {
        Self { op: Alu8::And, dest: Alu8Data::Reg(A), y: y }
    }

    /// Inverts the carry flag.
    pub fn clear_carry_flag() -> (r: Self)
        ensures
            r == (Alu8Op { op: Alu8::ClearCarryFlag, dest: Alu8Data::Reg(A), y: Alu8Data::Ignore }),
    {
        Self { op: Alu8::ClearCarryFlag, dest: Alu8Data::Reg(A), y: Alu8Data::Ignore }
    }

    /// Compares A with an operand, setting flags only.
    pub fn compare(y: Alu8Data) -> (r: Self)
        ensures
            r == (Alu8Op { op: Alu8::Compare, dest: Alu8Data::Reg(A), y: y }),
    {
        Self { op: Alu8::Compare, dest: Alu8Data::Reg(A), y: y }
    }

    /// Inverts every bit of A.
    pub fn complement() -> (r: Self)
        ensures
            r == (Alu8Op { op: Alu8::Complement, dest: Alu8Data::Reg(A), y: Alu8Data::Ignore }),
    {
        Self { op: Alu8::Complement, dest: Alu8Data::Reg(A), y: Alu8Data::Ignore }
    }

    /// Corrects A to binary-coded decimal after an addition or a subtraction.
    pub fn decimal_adjust() -> (r: Self)
        ensures
            r == (Alu8Op { op: Alu8::DecimalAdjust, dest: Alu8Data::Reg(A), y: Alu8Data::Ignore }),
    {
        Self { op: Alu8::DecimalAdjust, dest: Alu8Data::Reg(A), y: Alu8Data::Ignore }
    }

    /// Subtracts one from the destination.
    pub fn decrement(dest: Alu8Data) -> (r: Self)
        ensures
            r == (Alu8Op { op: Alu8::Decrement, dest: dest, y: Alu8Data::Ignore }),
    {
        Self { op: Alu8::Decrement, dest: dest, y: Alu8Data::Ignore }
    }

    /// Adds one to the destination.
    pub fn increment(dest: Alu8Data) -> (r: Self)
        ensures
            r == (Alu8Op { op: Alu8::Increment, dest: dest, y: Alu8Data::Ignore }),
    {
        Self { op: Alu8::Increment, dest: dest, y: Alu8Data::Ignore }
    }

    /// A or an operand, into A.
    pub fn or(y: Alu8Data) -> (r: Self)
        ensures
            r == (Alu8Op { op: Alu8::Or, dest: Alu8Data::Reg(A), y: y }),
    {
        Self { op: Alu8::Or, dest: Alu8Data::Reg(A), y: y }
    }

    /// Clears one bit of the destination.
    pub fn reset_bit(dest: Alu8Data, bit: u8) -> (r: Self)
        ensures
            r == (Alu8Op { op: Alu8::ResetBit, dest: dest, y: Alu8Data::Imm(bit) }),
    {
        Self { op: Alu8::ResetBit, dest: dest, y: Alu8Data::Imm(bit) }
    }

    /// Rotates the destination left through the carry flag.
    pub fn rotate_left(dest: Alu8Data, clear_zero: bool) -> (r: Self)
        ensures
            r == (Alu8Op { op: Alu8::RotateLeft(clear_zero), dest: dest, y: Alu8Data::Ignore }),
    {
        Self { op: Alu8::RotateLeft(clear_zero), dest: dest, y: Alu8Data::Ignore }
    }

    /// Rotates the destination left, bit 7 into bit 0 and into the carry flag.
    pub fn rotate_left_carry(dest: Alu8Data, clear_zero: bool) -> (r: Self)
        ensures
            r == (Alu8Op { op: Alu8::RotateLeftCarry(clear_zero), dest: dest, y: Alu8Data::Ignore }),
    {
        Self { op: Alu8::RotateLeftCarry(clear_zero), dest: dest, y: Alu8Data::Ignore }
    }

    /// Rotates the destination right through the carry flag.
    pub fn rotate_right(dest: Alu8Data, clear_zero: bool) -> (r: Self)
        ensures
            r == (Alu8Op { op: Alu8::RotateRight(clear_zero), dest: dest, y: Alu8Data::Ignore }),
    {
        Self { op: Alu8::RotateRight(clear_zero), dest: dest, y: Alu8Data::Ignore }
    }

    /// Rotates the destination right, bit 0 into bit 7 and into the carry flag.
    pub fn rotate_right_carry(dest: Alu8Data, clear_zero: bool) -> (r: Self)
        ensures
            r == (Alu8Op { op: Alu8::RotateRightCarry(clear_zero), dest: dest, y: Alu8Data::Ignore }),
    {
        Self { op: Alu8::RotateRightCarry(clear_zero), dest: dest, y: Alu8Data::Ignore }
    }

    /// Sets one bit of the destination.
    pub fn set_bit(dest: Alu8Data, bit: u8) -> (r: Self)
        ensures
            r == (Alu8Op { op: Alu8::SetBit, dest: dest, y: Alu8Data::Imm(bit) }),
    {
        Self { op: Alu8::SetBit, dest: dest, y: Alu8Data::Imm(bit) }
    }

    /// Sets the carry flag.
    pub fn set_carry_flag() -> (r: Self)
        ensures
            r == (Alu8Op { op: Alu8::SetCarryFlag, dest: Alu8Data::Reg(A), y: Alu8Data::Ignore }),
    {
        Self { op: Alu8::SetCarryFlag, dest: Alu8Data::Reg(A), y: Alu8Data::Ignore }
    }

    /// Shifts the destination left, bit 7 into the carry flag.
    pub fn shift_left_arithmetic(dest: Alu8Data) -> (r: Self)
        ensures
            r == (Alu8Op { op: Alu8::ShiftLeftArithmetic, dest: dest, y: Alu8Data::Ignore }),
    {
        Self { op: Alu8::ShiftLeftArithmetic, dest: dest, y: Alu8Data::Ignore }
    }

    /// Shifts the destination right, keeping bit 7.
    pub fn shift_right_arithmetic(dest: Alu8Data) -> (r: Self)
        ensures
            r == (Alu8Op { op: Alu8::ShiftRightArithmetic, dest: dest, y: Alu8Data::Ignore }),
    {
        Self { op: Alu8::ShiftRightArithmetic, dest: dest, y: Alu8Data::Ignore }
    }

    /// Shifts the destination right, clearing bit 7.
    pub fn shift_right_logical(dest: Alu8Data) -> (r: Self)
        ensures
            r == (Alu8Op { op: Alu8::ShiftRightLogical, dest: dest, y: Alu8Data::Ignore }),
    {
        Self { op: Alu8::ShiftRightLogical, dest: dest, y: Alu8Data::Ignore }
    }

    /// A minus an operand, into A.
    pub fn sub(y: Alu8Data) -> (r: Self)
        ensures
            r == (Alu8Op { op: Alu8::Sub, dest: Alu8Data::Reg(A), y: y }),
    {
        Self { op: Alu8::Sub, dest: Alu8Data::Reg(A), y: y }
    }

    /// A minus an operand minus the carry flag, into A.
    pub fn sub_with_carry(y: Alu8Data) -> (r: Self)
        ensures
            r == (Alu8Op { op: Alu8::SubWithCarry, dest: Alu8Data::Reg(A), y: y }),
    {
        Self { op: Alu8::SubWithCarry, dest: Alu8Data::Reg(A), y: y }
    }

    /// A exclusive-or an operand, into A.
    pub fn xor(y: Alu8Data) -> (r: Self)
        ensures
            r == (Alu8Op { op: Alu8::Xor, dest: Alu8Data::Reg(A), y: y }),
    {
        Self { op: Alu8::Xor, dest: Alu8Data::Reg(A), y: y }
    }

    /// Exchanges the two nibbles of the destination.
    pub fn swap(dest: Alu8Data) -> (r: Self)
        ensures
            r == (Alu8Op { op: Alu8::Swap, dest: dest, y: Alu8Data::Ignore }),
    {
        Self { op: Alu8::Swap, dest: dest, y: Alu8Data::Ignore }
    }

    /// Tests one bit of the destination.
    pub fn test_bit(dest: Alu8Data, bit: u8) -> (r: Self)
        ensures
            r == (Alu8Op { op: Alu8::TestBit, dest: dest, y: Alu8Data::Imm(bit) }),
    {
        Self { op: Alu8::TestBit, dest: dest, y: Alu8Data::Imm(bit) }
    }

    /// No operation of the 8-bit ALU.
    pub fn unknown() -> (r: Self)
        ensures
            r == (Alu8Op { op: Alu8::Unknown, dest: Alu8Data::Reg(A), y: Alu8Data::Ignore }),
    {
        Self { op: Alu8::Unknown, dest: Alu8Data::Reg(A), y: Alu8Data::Ignore }
    }
}

/// The second operand of the 16-bit ALU.
#[derive(Debug, Copy, Clone, PartialEq, Eq, Structural)]
pub enum Alu16Data {
    Reg(Reg16),
    Imm(i8),
    Ignore,
}

/// The operations of the 16-bit ALU.
#[derive(Debug, Copy, Clone, PartialEq, Eq, Structural)]
pub enum Alu16 {
    Add,
    Decrement,
    Increment,
    Move,
    MoveAndAdd,
    Unknown,
}

/// A 16-bit ALU instruction.
#[derive(Debug, Copy, Clone, PartialEq, Eq, Structural)]
pub struct Alu16Op {
    pub op: Alu16,
    pub dest: Reg16,
    pub y: Alu16Data,
    pub imm: i8,
}

impl Alu16Op {
    /// Adds a register pair to the destination.
    pub fn add(dest: Reg16, y: Reg16) -> (r: Self)
        ensures
            r == (Alu16Op { op: Alu16::Add, dest, y: Alu16Data::Reg(y), imm: 0 }),
    {
        Self { op: Alu16::Add, dest, y: Alu16Data::Reg(y), imm: 0 }
    }

    /// Adds a signed byte to the destination.
    pub fn add_imm(dest: Reg16, y: i8) -> (r: Self)
        ensures
            r == (Alu16Op { op: Alu16::Add, dest, y: Alu16Data::Imm(y), imm: 0 }),
    {
        Self { op: Alu16::Add, dest, y: Alu16Data::Imm(y), imm: 0 }
    }

    /// Subtracts one from the destination.
    pub fn dec(dest: Reg16) -> (r: Self)
        ensures
            r == (Alu16Op { op: Alu16::Decrement, dest, y: Alu16Data::Ignore, imm: 0 }),
    {
        Self { op: Alu16::Decrement, dest, y: Alu16Data::Ignore, imm: 0 }
    }

    /// Adds one to the destination.
    pub fn inc(dest: Reg16) -> (r: Self)
        ensures
            r == (Alu16Op { op: Alu16::Increment, dest, y: Alu16Data::Ignore, imm: 0 }),
    {
        Self { op: Alu16::Increment, dest, y: Alu16Data::Ignore, imm: 0 }
    }

    /// Copies a register pair into the destination.
    pub fn move_reg(dest: Reg16, src: Reg16) -> (r: Self)
        ensures
            r == (Alu16Op { op: Alu16::Move, dest, y: Alu16Data::Reg(src), imm: 0 }),
    {
        Self { op: Alu16::Move, dest, y: Alu16Data::Reg(src), imm: 0 }
    }

    /// Puts a register pair plus a signed byte into the destination.
    pub fn move_and_add(dest: Reg16, src: Reg16, imm: i8) -> (r: Self)
        ensures
            r == (Alu16Op { op: Alu16::MoveAndAdd, dest, y: Alu16Data::Reg(src), imm }),
    {
        Self { op: Alu16::MoveAndAdd, dest, y: Alu16Data::Reg(src), imm }
    }

    /// No operation of the 16-bit ALU.
    pub fn unknown() -> (r: Self)
        ensures
            r == (Alu16Op { op: Alu16::Unknown, dest: HL, y: Alu16Data::Ignore, imm: 0 }),
    {
        Self { op: Alu16::Unknown, dest: HL, y: Alu16Data::Ignore, imm: 0 }
    }
}

/// A decoded instruction, the number of bytes it occupies and its base cost in
/// machine cycles.
pub type Decoded = (Op, usize, usize);

/// The register that three bits of an opcode select; 6 selects none.
pub open spec fn reg8_of(i: int) -> Reg8 {
    if i == 0 {
        B
    } else if i == 1 {
        C
    } else if i == 2 {
        D
    } else if i == 3 {
        E
    } else if i == 4 {
        H
    } else if i == 5 {
        L
    } else {
        A
    }
}

/// The operand that three bits of an opcode select: a register, or for 6 the byte
/// that HL points at.
pub open spec fn operand_of(i: int) -> Alu8Data {
    if i == 6 {
        Alu8Data::Addr(HL)
    } else {
        Alu8Data::Reg(reg8_of(i))
    }
}

/// The register pair that two bits of an opcode select.
pub open spec fn pair_of(i: int) -> Reg16 {
    if i == 0 {
        BC
    } else if i == 1 {
        DE
    } else if i == 2 {
        HL
    } else {
        SP
    }
}

/// The register pair that two bits of a push or a pop select.
pub open spec fn stack_pair_of(i: int) -> Reg16 {
    if i == 0 {
        BC
    } else if i == 1 {
        DE
    } else if i == 2 {
        HL
    } else {
        AF
    }
}

/// The condition that two bits of a branch select.
pub open spec fn condition_of(i: int) -> Flag {
    if i == 0 {
        NotZero
    } else if i == 1 {
        Zero
    } else if i == 2 {
        NotCarry
    } else {
        Carry
    }
}

/// The two-operand operation on A that three bits of an opcode select.
pub open spec fn accumulator_op(i: int) -> Alu8 {
    if i == 0 {
        Alu8::Add
    } else if i == 1 {
        Alu8::AddWithCarry
    } else if i == 2 {
        Alu8::Sub
    } else if i == 3 {
        Alu8::SubWithCarry
    } else if i == 4 {
        Alu8::And
    } else if i == 5 {
        Alu8::Xor
    } else if i == 6 {
        Alu8::Or
    } else {
        Alu8::Compare
    }
}

/// The rotation on A, with the zero flag forced off, that the short opcodes 0x07,
/// 0x0F, 0x17 and 0x1F select.
pub open spec fn short_rotation(i: int) -> Alu8 {
    if i == 0 {
        Alu8::RotateLeftCarry(true)
    } else if i == 1 {
        Alu8::RotateRightCarry(true)
    } else if i == 2 {
        Alu8::RotateLeft(true)
    } else {
        Alu8::RotateRight(true)
    }
}

/// The 8-bit ALU instruction at `opcode`, if it is one. `imm8` is the byte after
/// the opcode.
pub open spec fn alu8_spec(opcode: u8, imm8: u8) -> Option<Decoded> {
    let a = Alu8Data::Reg(A);
    let none = Alu8Data::Ignore;
    if 0x80 <= opcode < 0xC0 {
        let y = operand_of((opcode % 8) as int);
        let op = accumulator_op((opcode - 0x80) / 8);
        Some((Op::Alu8(Alu8Op { op, dest: a, y }), 1, if opcode % 8 == 6 { 2 } else { 1 }))
    } else if opcode >= 0xC0 && opcode % 8 == 6 {
        let op = accumulator_op((opcode - 0xC0) / 8);
        Some((Op::Alu8(Alu8Op { op, dest: a, y: Alu8Data::Imm(imm8) }), 2, 1))
    } else if opcode < 0x40 && opcode % 8 == 4 {
        let dest = operand_of((opcode / 8) as int);
        Some(
            (
                Op::Alu8(Alu8Op { op: Alu8::Increment, dest, y: none }),
                1,
                if opcode / 8 == 6 { 3 } else { 1 },
            ),
        )
    } else if opcode < 0x40 && opcode % 8 == 5 {
        let dest = operand_of((opcode / 8) as int);
        Some(
            (
                Op::Alu8(Alu8Op { op: Alu8::Decrement, dest, y: none }),
                1,
                if opcode / 8 == 6 { 3 } else { 1 },
            ),
        )
    } else if opcode < 0x20 && opcode % 8 == 7 {
        Some((Op::Alu8(Alu8Op { op: short_rotation((opcode / 8) as int), dest: a, y: none }), 1, 1))
    } else if opcode == 0x27 {
        Some((Op::Alu8(Alu8Op { op: Alu8::DecimalAdjust, dest: a, y: none }), 1, 1))
    } else if opcode == 0x2F {
        Some((Op::Alu8(Alu8Op { op: Alu8::Complement, dest: a, y: none }), 1, 1))
    } else if opcode == 0x37 {
        Some((Op::Alu8(Alu8Op { op: Alu8::SetCarryFlag, dest: a, y: none }), 1, 1))
    } else if opcode == 0x3F {
        Some((Op::Alu8(Alu8Op { op: Alu8::ClearCarryFlag, dest: a, y: none }), 1, 1))
    } else {
        None
    }
}

/// The 16-bit ALU instruction at `opcode`, if it is one.
pub open spec fn alu16_spec(opcode: u8, imm8: u8) -> Option<Decoded> {
    let none = Alu16Data::Ignore;
    if opcode < 0x40 && opcode % 16 == 0x3 {
        Some(
            (
                Op::Alu16(
                    Alu16Op { op: Alu16::Increment, dest: pair_of((opcode / 16) as int), y: none, imm: 0 },
                ),
                1,
                1,
            ),
        )
    } else if opcode < 0x40 && opcode % 16 == 0x9 {
        Some(
            (
                Op::Alu16(
                    Alu16Op {
                        op: Alu16::Add,
                        dest: HL,
                        y: Alu16Data::Reg(pair_of((opcode / 16) as int)),
                        imm: 0,
                    },
                ),
                1,
                2,
            ),
        )
    } else if opcode < 0x40 && opcode % 16 == 0xB {
        Some(
            (
                Op::Alu16(
                    Alu16Op { op: Alu16::Decrement, dest: pair_of((opcode / 16) as int), y: none, imm: 0 },
                ),
                1,
                2,
            ),
        )
    } else if opcode == 0xE8 {
        Some(
            (
                Op::Alu16(
                    Alu16Op { op: Alu16::Add, dest: SP, y: Alu16Data::Imm(signed_of(imm8)), imm: 0 },
                ),
                2,
                4,
            ),
        )
    } else if opcode == 0xF8 {
        Some(
            (
                Op::Alu16(
                    Alu16Op {
                        op: Alu16::MoveAndAdd,
                        dest: HL,
                        y: Alu16Data::Reg(SP),
                        imm: signed_of(imm8),
                    },
                ),
                2,
                3,
            ),
        )
    } else if opcode == 0xF9 {
        Some(
            (
                Op::Alu16(Alu16Op { op: Alu16::Move, dest: SP, y: Alu16Data::Reg(HL), imm: 0 }),
                1,
                2,
            ),
        )
    } else {
        None
    }
}

/// The load, store or move at `opcode`, if it is one. `imm16` is the
/// little-endian word after the opcode.
pub open spec fn load_spec(opcode: u8, imm8: u8, imm16: u16) -> Option<Decoded> {
    let hl = Address::Register16(HL);
    if 0x40 <= opcode < 0x80 && opcode != 0x76 {
        let to = (opcode - 0x40) / 8;
        let from = (opcode % 8) as int;
        if from == 6 {
            Some((Op::Load(reg8_of(to), hl), 1, 2))
        } else if to == 6 {
            Some((Op::Store(hl, reg8_of(from)), 1, 2))
        } else {
            Some((Op::Move(reg8_of(to), reg8_of(from)), 1, 1))
        }
    } else if opcode == 0x36 {
        Some((Op::SetAddr(HL, imm8), 2, 2))
    } else if opcode < 0x40 && opcode % 8 == 6 {
        Some((Op::SetReg(reg8_of((opcode / 8) as int), imm8), 2, 2))
    } else if opcode < 0x40 && opcode % 16 == 1 {
        Some((Op::SetWide(pair_of((opcode / 16) as int), imm16), 3, 3))
    } else if opcode == 0x02 {
        Some((Op::Store(Address::Register16(BC), A), 1, 2))
    } else if opcode == 0x12 {
        Some((Op::Store(Address::Register16(DE), A), 1, 2))
    } else if opcode == 0x22 {
        Some((Op::StoreAndIncrement(hl, A), 1, 2))
    } else if opcode == 0x32 {
        Some((Op::StoreAndDecrement(hl, A), 1, 2))
    } else if opcode == 0x0A {
        Some((Op::Load(A, Address::Register16(BC)), 1, 2))
    } else if opcode == 0x1A {
        Some((Op::Load(A, Address::Register16(DE)), 1, 2))
    } else if opcode == 0x2A {
        Some((Op::LoadAndIncrement(A, hl), 1, 2))
    } else if opcode == 0x3A {
        Some((Op::LoadAndDecrement(A, hl), 1, 2))
    } else if opcode == 0x08 {
        Some((Op::WideStore(Address::Immediate16(imm16), SP), 3, 5))
    } else if opcode == 0xFA {
        Some((Op::Load(A, Address::Immediate16(imm16)), 3, 2))
    } else if opcode == 0xEA {
        Some((Op::Store(Address::Immediate16(imm16), A), 3, 2))
    } else if opcode == 0xE0 {
        Some((Op::SetIO(imm8), 2, 3))
    } else if opcode == 0xE2 {
        Some((Op::SetIOC, 1, 3))
    } else if opcode == 0xF0 {
        Some((Op::ReadIO(imm8), 2, 3))
    } else if opcode == 0xF2 {
        Some((Op::ReadIOC, 1, 3))
    } else if opcode >= 0xC0 && opcode % 16 == 1 {
        Some((Op::Pop(stack_pair_of((opcode - 0xC0) / 16)), 1, 3))
    } else if opcode >= 0xC0 && opcode % 16 == 5 {
        Some((Op::Push(stack_pair_of((opcode - 0xC0) / 16)), 1, 4))
    } else {
        None
    }
}

/// Where a relative jump at `pc` with offset byte `offset` lands: two bytes on,
/// plus the offset read as a signed number, wrapping at 16 bits.
pub open spec fn relative_target(pc: u16, offset: u8) -> u16 {
    ((pc + 2 + signed(offset)) % 0x1_0000) as u16
}

/// The jump, call, return or restart at `opcode`, if it is one. Conditional
/// instructions are priced as not taken.
pub open spec fn jump_spec(opcode: u8, pc: u16, imm8: u8, imm16: u16) -> Option<Decoded> {
    let rel = relative_target(pc, imm8);
    if 0x20 <= opcode < 0x40 && opcode % 8 == 0 {
        Some((Op::ConditionalJumpRelative(condition_of((opcode - 0x20) / 8), rel), 2, 2))
    } else if opcode == 0x18 {
        Some((Op::JumpRelative(rel), 2, 3))
    } else if 0xC0 <= opcode < 0xE0 && opcode % 8 == 2 {
        Some((Op::ConditionalJump(condition_of((opcode - 0xC0) / 8), imm16), 3, 3))
    } else if opcode == 0xC3 {
        Some((Op::Jump(Address::Immediate16(imm16)), 3, 4))
    } else if opcode == 0xE9 {
        Some((Op::Jump(Address::Register16(HL)), 1, 4))
    } else if opcode >= 0xC0 && opcode % 8 == 7 {
        Some((Op::Reset((opcode - 0xC7) as u16), 1, 4))
    } else if 0xC0 <= opcode < 0xE0 && opcode % 8 == 0 {
        Some((Op::ConditionalReturn(condition_of((opcode - 0xC0) / 8)), 1, 2))
    } else if opcode == 0xC9 {
        Some((Op::Return, 1, 4))
    } else if opcode == 0xD9 {
        Some((Op::ReturnAndEnableInterrupts, 1, 4))
    } else if 0xC0 <= opcode < 0xE0 && opcode % 8 == 4 {
        Some((Op::ConditionalCall(condition_of((opcode - 0xC0) / 8), imm16), 3, 3))
    } else if opcode == 0xCD {
        Some((Op::Call(imm16), 3, 3))
    } else {
        None
    }
}

/// The operation that the high five bits of an extended opcode select; the bit
/// operations take the bit's number as their second operand.
pub open spec fn extended_op(group: int) -> Alu8 {
    if group == 0 {
        Alu8::RotateLeftCarry(false)
    } else if group == 1 {
        Alu8::RotateRightCarry(false)
    } else if group == 2 {
        Alu8::RotateLeft(false)
    } else if group == 3 {
        Alu8::RotateRight(false)
    } else if group == 4 {
        Alu8::ShiftLeftArithmetic
    } else if group == 5 {
        Alu8::ShiftRightArithmetic
    } else if group == 6 {
        Alu8::Swap
    } else if group == 7 {
        Alu8::ShiftRightLogical
    } else if group < 16 {
        Alu8::TestBit
    } else if group < 24 {
        Alu8::ResetBit
    } else {
        Alu8::SetBit
    }
}

/// The instruction that follows the prefix 0xCB. The low three bits of `opcode`
/// select the destination, the high five the operation.
pub open spec fn extended_spec(opcode: u8) -> Decoded {
    let group = opcode / 8;
    let dest = operand_of((opcode % 8) as int);
    let y = if group < 8 {
        Alu8Data::Ignore
    } else {
        Alu8Data::Imm((group % 8) as u8)
    };
    (
        Op::Alu8(Alu8Op { op: extended_op(group as int), dest, y }),
        2,
        if opcode % 8 == 6 { 4 } else { 2 },
    )
}

/// Whether no instruction is assigned to `opcode`.
pub open spec fn unassigned(opcode: u8) -> bool {
    opcode == 0xD3 || opcode == 0xDB || opcode == 0xDD || opcode == 0xE3 || opcode == 0xE4
        || opcode == 0xEB || opcode == 0xEC || opcode == 0xED || opcode == 0xF4 || opcode == 0xFC
        || opcode == 0xFD
}

/// The instruction whose first byte is `b0`, at address `pc`, followed by the
/// bytes `b1` and `b2`. The four tables are tried in order; what none of them
/// claims is a control instruction, the prefix, or unknown.
pub open spec fn decode_spec(b0: u8, b1: u8, b2: u8, pc: u16) -> Decoded {
    let imm16 = word(b2, b1);
    if let Some(d) = alu8_spec(b0, b1) {
        d
    } else if let Some(d) = alu16_spec(b0, b1) {
        d
    } else if let Some(d) = load_spec(b0, b1, imm16) {
        d
    } else if let Some(d) = jump_spec(b0, pc, b1, imm16) {
        d
    } else if b0 == 0x00 {
        (Op::Nop, 1, 1)
    } else if b0 == 0x10 {
        (Op::Stop, 2, 1)
    } else if b0 == 0x76 {
        (Op::Halt, 1, 1)
    } else if b0 == 0xF3 {
        (Op::DisableInterrupts, 1, 1)
    } else if b0 == 0xFB {
        (Op::EnableInterrupts, 1, 1)
    } else if b0 == 0xCB {
        extended_spec(b1)
    } else {
        (Op::Unknown(b0), 1, 0)
    }
}

/// The 8-bit ALU instructions among the opcodes below 0x40.
fn alu8_unary(opcode: u8) -> (r: Option<Decoded>)
    requires
        opcode < 0x40,
    ensures
        r == alu8_spec(opcode, 0),
{
    match opcode {
        0x04 => Some((Op::Alu8(Alu8Op::increment(Alu8Data::Reg(B))), 1, 1)),
        0x14 => Some((Op::Alu8(Alu8Op::increment(Alu8Data::Reg(D))), 1, 1)),
        0x24 => Some((Op::Alu8(Alu8Op::increment(Alu8Data::Reg(H))), 1, 1)),
        0x34 => Some((Op::Alu8(Alu8Op::increment(Alu8Data::Addr(HL))), 1, 3)),
        0x0C => Some((Op::Alu8(Alu8Op::increment(Alu8Data::Reg(C))), 1, 1)),
        0x1C => Some((Op::Alu8(Alu8Op::increment(Alu8Data::Reg(E))), 1, 1)),
        0x2C => Some((Op::Alu8(Alu8Op::increment(Alu8Data::Reg(L))), 1, 1)),
        0x3C => Some((Op::Alu8(Alu8Op::increment(Alu8Data::Reg(A))), 1, 1)),
        0x05 => Some((Op::Alu8(Alu8Op::decrement(Alu8Data::Reg(B))), 1, 1)),
        0x15 => Some((Op::Alu8(Alu8Op::decrement(Alu8Data::Reg(D))), 1, 1)),
        0x25 => Some((Op::Alu8(Alu8Op::decrement(Alu8Data::Reg(H))), 1, 1)),
        0x35 => Some((Op::Alu8(Alu8Op::decrement(Alu8Data::Addr(HL))), 1, 3)),
        0x0D => Some((Op::Alu8(Alu8Op::decrement(Alu8Data::Reg(C))), 1, 1)),
        0x1D => Some((Op::Alu8(Alu8Op::decrement(Alu8Data::Reg(E))), 1, 1)),
        0x2D => Some((Op::Alu8(Alu8Op::decrement(Alu8Data::Reg(L))), 1, 1)),
        0x3D => Some((Op::Alu8(Alu8Op::decrement(Alu8Data::Reg(A))), 1, 1)),
        0x07 => Some((Op::Alu8(Alu8Op::rotate_left_carry(Alu8Data::Reg(A), true)), 1, 1)),
        0x0F => Some((Op::Alu8(Alu8Op::rotate_right_carry(Alu8Data::Reg(A), true)), 1, 1)),
        0x17 => Some((Op::Alu8(Alu8Op::rotate_left(Alu8Data::Reg(A), true)), 1, 1)),
        0x1F => Some((Op::Alu8(Alu8Op::rotate_right(Alu8Data::Reg(A), true)), 1, 1)),
        0x27 => Some((Op::Alu8(Alu8Op::decimal_adjust()), 1, 1)),
        0x2F => Some((Op::Alu8(Alu8Op::complement()), 1, 1)),
        0x37 => Some((Op::Alu8(Alu8Op::set_carry_flag()), 1, 1)),
        0x3F => Some((Op::Alu8(Alu8Op::clear_carry_flag()), 1, 1)),
        _ => None,
    }
}

/// The operations of A with a register or with the byte at HL: the opcodes from
/// 0x80 to 0xBF.
fn alu8_accumulator(opcode: u8) -> (r: Decoded)
    requires
        0x80 <= opcode < 0xC0,
    ensures
        Some(r) == alu8_spec(opcode, 0),
{
    match opcode {
        0x80 => (Op::Alu8(Alu8Op::add(Alu8Data::Reg(B))), 1, 1),
        0x81 => (Op::Alu8(Alu8Op::add(Alu8Data::Reg(C))), 1, 1),
        0x82 => (Op::Alu8(Alu8Op::add(Alu8Data::Reg(D))), 1, 1),
        0x83 => (Op::Alu8(Alu8Op::add(Alu8Data::Reg(E))), 1, 1),
        0x84 => (Op::Alu8(Alu8Op::add(Alu8Data::Reg(H))), 1, 1),
        0x85 => (Op::Alu8(Alu8Op::add(Alu8Data::Reg(L))), 1, 1),
        0x86 => (Op::Alu8(Alu8Op::add(Alu8Data::Addr(HL))), 1, 2),
        0x87 => (Op::Alu8(Alu8Op::add(Alu8Data::Reg(A))), 1, 1),
        0x88 => (Op::Alu8(Alu8Op::add_with_carry(Alu8Data::Reg(B))), 1, 1),
        0x89 => (Op::Alu8(Alu8Op::add_with_carry(Alu8Data::Reg(C))), 1, 1),
        0x8A => (Op::Alu8(Alu8Op::add_with_carry(Alu8Data::Reg(D))), 1, 1),
        0x8B => (Op::Alu8(Alu8Op::add_with_carry(Alu8Data::Reg(E))), 1, 1),
        0x8C => (Op::Alu8(Alu8Op::add_with_carry(Alu8Data::Reg(H))), 1, 1),
        0x8D => (Op::Alu8(Alu8Op::add_with_carry(Alu8Data::Reg(L))), 1, 1),
        0x8E => (Op::Alu8(Alu8Op::add_with_carry(Alu8Data::Addr(HL))), 1, 2),
        0x8F => (Op::Alu8(Alu8Op::add_with_carry(Alu8Data::Reg(A))), 1, 1),
        0x90 => (Op::Alu8(Alu8Op::sub(Alu8Data::Reg(B))), 1, 1),
        0x91 => (Op::Alu8(Alu8Op::sub(Alu8Data::Reg(C))), 1, 1),
        0x92 => (Op::Alu8(Alu8Op::sub(Alu8Data::Reg(D))), 1, 1),
        0x93 => (Op::Alu8(Alu8Op::sub(Alu8Data::Reg(E))), 1, 1),
        0x94 => (Op::Alu8(Alu8Op::sub(Alu8Data::Reg(H))), 1, 1),
        0x95 => (Op::Alu8(Alu8Op::sub(Alu8Data::Reg(L))), 1, 1),
        0x96 => (Op::Alu8(Alu8Op::sub(Alu8Data::Addr(HL))), 1, 2),
        0x97 => (Op::Alu8(Alu8Op::sub(Alu8Data::Reg(A))), 1, 1),
        0x98 => (Op::Alu8(Alu8Op::sub_with_carry(Alu8Data::Reg(B))), 1, 1),
        0x99 => (Op::Alu8(Alu8Op::sub_with_carry(Alu8Data::Reg(C))), 1, 1),
        0x9A => (Op::Alu8(Alu8Op::sub_with_carry(Alu8Data::Reg(D))), 1, 1),
        0x9B => (Op::Alu8(Alu8Op::sub_with_carry(Alu8Data::Reg(E))), 1, 1),
        0x9C => (Op::Alu8(Alu8Op::sub_with_carry(Alu8Data::Reg(H))), 1, 1),
        0x9D => (Op::Alu8(Alu8Op::sub_with_carry(Alu8Data::Reg(L))), 1, 1),
        0x9E => (Op::Alu8(Alu8Op::sub_with_carry(Alu8Data::Addr(HL))), 1, 2),
        0x9F => (Op::Alu8(Alu8Op::sub_with_carry(Alu8Data::Reg(A))), 1, 1),
        0xA0 => (Op::Alu8(Alu8Op::and(Alu8Data::Reg(B))), 1, 1),
        0xA1 => (Op::Alu8(Alu8Op::and(Alu8Data::Reg(C))), 1, 1),
        0xA2 => (Op::Alu8(Alu8Op::and(Alu8Data::Reg(D))), 1, 1),
        0xA3 => (Op::Alu8(Alu8Op::and(Alu8Data::Reg(E))), 1, 1),
        0xA4 => (Op::Alu8(Alu8Op::and(Alu8Data::Reg(H))), 1, 1),
        0xA5 => (Op::Alu8(Alu8Op::and(Alu8Data::Reg(L))), 1, 1),
        0xA6 => (Op::Alu8(Alu8Op::and(Alu8Data::Addr(HL))), 1, 2),
        0xA7 => (Op::Alu8(Alu8Op::and(Alu8Data::Reg(A))), 1, 1),
        0xA8 => (Op::Alu8(Alu8Op::xor(Alu8Data::Reg(B))), 1, 1),
        0xA9 => (Op::Alu8(Alu8Op::xor(Alu8Data::Reg(C))), 1, 1),
        0xAA => (Op::Alu8(Alu8Op::xor(Alu8Data::Reg(D))), 1, 1),
        0xAB => (Op::Alu8(Alu8Op::xor(Alu8Data::Reg(E))), 1, 1),
        0xAC => (Op::Alu8(Alu8Op::xor(Alu8Data::Reg(H))), 1, 1),
        0xAD => (Op::Alu8(Alu8Op::xor(Alu8Data::Reg(L))), 1, 1),
        0xAE => (Op::Alu8(Alu8Op::xor(Alu8Data::Addr(HL))), 1, 2),
        0xAF => (Op::Alu8(Alu8Op::xor(Alu8Data::Reg(A))), 1, 1),
        0xB0 => (Op::Alu8(Alu8Op::or(Alu8Data::Reg(B))), 1, 1),
        0xB1 => (Op::Alu8(Alu8Op::or(Alu8Data::Reg(C))), 1, 1),
        0xB2 => (Op::Alu8(Alu8Op::or(Alu8Data::Reg(D))), 1, 1),
        0xB3 => (Op::Alu8(Alu8Op::or(Alu8Data::Reg(E))), 1, 1),
        0xB4 => (Op::Alu8(Alu8Op::or(Alu8Data::Reg(H))), 1, 1),
        0xB5 => (Op::Alu8(Alu8Op::or(Alu8Data::Reg(L))), 1, 1),
        0xB6 => (Op::Alu8(Alu8Op::or(Alu8Data::Addr(HL))), 1, 2),
        0xB7 => (Op::Alu8(Alu8Op::or(Alu8Data::Reg(A))), 1, 1),
        0xB8 => (Op::Alu8(Alu8Op::compare(Alu8Data::Reg(B))), 1, 1),
        0xB9 => (Op::Alu8(Alu8Op::compare(Alu8Data::Reg(C))), 1, 1),
        0xBA => (Op::Alu8(Alu8Op::compare(Alu8Data::Reg(D))), 1, 1),
        0xBB => (Op::Alu8(Alu8Op::compare(Alu8Data::Reg(E))), 1, 1),
        0xBC => (Op::Alu8(Alu8Op::compare(Alu8Data::Reg(H))), 1, 1),
        0xBD => (Op::Alu8(Alu8Op::compare(Alu8Data::Reg(L))), 1, 1),
        0xBE => (Op::Alu8(Alu8Op::compare(Alu8Data::Addr(HL))), 1, 2),
        0xBF => (Op::Alu8(Alu8Op::compare(Alu8Data::Reg(A))), 1, 1),
        _ => (Op::Nop, 1, 1),
    }
}

/// Decodes the 8-bit ALU instructions.
pub fn decode_alu8(opcode: u8, imm8: u8) -> (r: Option<Decoded>)
    ensures
        r == alu8_spec(opcode, imm8),
{
    match opcode {
        0x00..=0x3F => alu8_unary(opcode),
        0x80..=0xBF => Some(alu8_accumulator(opcode)),
        0xC6 => Some((Op::Alu8(Alu8Op::add(Alu8Data::Imm(imm8))), 2, 1)),
        0xD6 => Some((Op::Alu8(Alu8Op::sub(Alu8Data::Imm(imm8))), 2, 1)),
        0xE6 => Some((Op::Alu8(Alu8Op::and(Alu8Data::Imm(imm8))), 2, 1)),
        0xF6 => Some((Op::Alu8(Alu8Op::or(Alu8Data::Imm(imm8))), 2, 1)),
        0xCE => Some((Op::Alu8(Alu8Op::add_with_carry(Alu8Data::Imm(imm8))), 2, 1)),
        0xDE => Some((Op::Alu8(Alu8Op::sub_with_carry(Alu8Data::Imm(imm8))), 2, 1)),
        0xEE => Some((Op::Alu8(Alu8Op::xor(Alu8Data::Imm(imm8))), 2, 1)),
        0xFE => Some((Op::Alu8(Alu8Op::compare(Alu8Data::Imm(imm8))), 2, 1)),
        _ => None,
    }
}

/// Decodes the 16-bit ALU instructions.
pub fn decode_alu16(opcode: u8, imm8: u8) -> (r: Option<Decoded>)
    ensures
        r == alu16_spec(opcode, imm8),
{
    match opcode {
        0x03 => Some((Op::Alu16(Alu16Op::inc(BC)), 1, 1)),
        0x13 => Some((Op::Alu16(Alu16Op::inc(DE)), 1, 1)),
        0x23 => Some((Op::Alu16(Alu16Op::inc(HL)), 1, 1)),
        0x33 => Some((Op::Alu16(Alu16Op::inc(SP)), 1, 1)),

        0x09 => Some((Op::Alu16(Alu16Op::add(HL, BC)), 1, 2)),
        0x19 => Some((Op::Alu16(Alu16Op::add(HL, DE)), 1, 2)),
        0x29 => Some((Op::Alu16(Alu16Op::add(HL, HL)), 1, 2)),
        0x39 => Some((Op::Alu16(Alu16Op::add(HL, SP)), 1, 2)),

        0x0B => Some((Op::Alu16(Alu16Op::dec(BC)), 1, 2)),
        0x1B => Some((Op::Alu16(Alu16Op::dec(DE)), 1, 2)),
        0x2B => Some((Op::Alu16(Alu16Op::dec(HL)), 1, 2)),
        0x3B => Some((Op::Alu16(Alu16Op::dec(SP)), 1, 2)),

        0xE8 => Some((Op::Alu16(Alu16Op::add_imm(SP, to_signed(imm8))), 2, 4)),

        0xF8 => Some((Op::Alu16(Alu16Op::move_and_add(HL, SP, to_signed(imm8))), 2, 3)),

        0xF9 => Some((Op::Alu16(Alu16Op::move_reg(SP, HL)), 1, 2)),
        _ => None,
    }
}

/// Decodes the loads, stores and moves.
pub fn decode_load(opcode: u8, imm8: u8, imm16: u16) -> (r: Option<Decoded>)
    ensures
        r == load_spec(opcode, imm8, imm16),
{
    match opcode {
        0x01 => Some((Op::SetWide(BC, imm16), 3, 3)),
        0x11 => Some((Op::SetWide(DE, imm16), 3, 3)),
        0x21 => Some((Op::SetWide(HL, imm16), 3, 3)),
        0x31 => Some((Op::SetWide(SP, imm16), 3, 3)),

        0x02 => Some((Op::Store(Address::Register16(BC), A), 1, 2)),
        0x12 => Some((Op::Store(Address::Register16(DE), A), 1, 2)),
        0x22 => Some((Op::StoreAndIncrement(Address::Register16(HL), A), 1, 2)),
        0x32 => Some((Op::StoreAndDecrement(Address::Register16(HL), A), 1, 2)),

        0x06 => Some((Op::SetReg(B, imm8), 2, 2)),
        0x16 => Some((Op::SetReg(D, imm8), 2, 2)),
        0x26 => Some((Op::SetReg(H, imm8), 2, 2)),
        0x36 => Some((Op::SetAddr(HL, imm8), 2, 2)),

        0x08 => Some((Op::WideStore(Address::Immediate16(imm16), SP), 3, 5)),

        0x0E => Some((Op::SetReg(C, imm8), 2, 2)),
        0x1E => Some((Op::SetReg(E, imm8), 2, 2)),
        0x2E => Some((Op::SetReg(L, imm8), 2, 2)),
        0x3E => Some((Op::SetReg(A, imm8), 2, 2)),

        0x0A => Some((Op::Load(A, Address::Register16(BC)), 1, 2)),
        0x1A => Some((Op::Load(A, Address::Register16(DE)), 1, 2)),
        0xFA => Some((Op::Load(A, Address::Immediate16(imm16)), 3, 2)),
        0x2A => Some((Op::LoadAndIncrement(A, Address::Register16(HL)), 1, 2)),
        0x3A => Some((Op::LoadAndDecrement(A, Address::Register16(HL)), 1, 2)),

        0x40 => Some((Op::Move(B, B), 1, 1)),
        0x41 => Some((Op::Move(B, C), 1, 1)),
        0x42 => Some((Op::Move(B, D), 1, 1)),
        0x43 => Some((Op::Move(B, E), 1, 1)),
        0x44 => Some((Op::Move(B, H), 1, 1)),
        0x45 => Some((Op::Move(B, L), 1, 1)),
        0x47 => Some((Op::Move(B, A), 1, 1)),

        0x48 => Some((Op::Move(C, B), 1, 1)),
        0x49 => Some((Op::Move(C, C), 1, 1)),
        0x4A => Some((Op::Move(C, D), 1, 1)),
        0x4B => Some((Op::Move(C, E), 1, 1)),
        0x4C => Some((Op::Move(C, H), 1, 1)),
        0x4D => Some((Op::Move(C, L), 1, 1)),
        0x4F => Some((Op::Move(C, A), 1, 1)),

        0x50 => Some((Op::Move(D, B), 1, 1)),
        0x51 => Some((Op::Move(D, C), 1, 1)),
        0x52 => Some((Op::Move(D, D), 1, 1)),
        0x53 => Some((Op::Move(D, E), 1, 1)),
        0x54 => Some((Op::Move(D, H), 1, 1)),
        0x55 => Some((Op::Move(D, L), 1, 1)),
        0x57 => Some((Op::Move(D, A), 1, 1)),

        0x58 => Some((Op::Move(E, B), 1, 1)),
        0x59 => Some((Op::Move(E, C), 1, 1)),
        0x5A => Some((Op::Move(E, D), 1, 1)),
        0x5B => Some((Op::Move(E, E), 1, 1)),
        0x5C => Some((Op::Move(E, H), 1, 1)),
        0x5D => Some((Op::Move(E, L), 1, 1)),
        0x5F => Some((Op::Move(E, A), 1, 1)),

        0x60 => Some((Op::Move(H, B), 1, 1)),
        0x61 => Some((Op::Move(H, C), 1, 1)),
        0x62 => Some((Op::Move(H, D), 1, 1)),
        0x63 => Some((Op::Move(H, E), 1, 1)),
        0x64 => Some((Op::Move(H, H), 1, 1)),
        0x65 => Some((Op::Move(H, L), 1, 1)),
        0x67 => Some((Op::Move(H, A), 1, 1)),

        0x68 => Some((Op::Move(L, B), 1, 1)),
        0x69 => Some((Op::Move(L, C), 1, 1)),
        0x6A => Some((Op::Move(L, D), 1, 1)),
        0x6B => Some((Op::Move(L, E), 1, 1)),
        0x6C => Some((Op::Move(L, H), 1, 1)),
        0x6D => Some((Op::Move(L, L), 1, 1)),
        0x6F => Some((Op::Move(L, A), 1, 1)),

        0x78 => Some((Op::Move(A, B), 1, 1)),
        0x79 => Some((Op::Move(A, C), 1, 1)),
        0x7A => Some((Op::Move(A, D), 1, 1)),
        0x7B => Some((Op::Move(A, E), 1, 1)),
        0x7C => Some((Op::Move(A, H), 1, 1)),
        0x7D => Some((Op::Move(A, L), 1, 1)),
        0x7F => Some((Op::Move(A, A), 1, 1)),

        0x46 => Some((Op::Load(B, Address::Register16(HL)), 1, 2)),
        0x4E => Some((Op::Load(C, Address::Register16(HL)), 1, 2)),
        0x56 => Some((Op::Load(D, Address::Register16(HL)), 1, 2)),
        0x5E => Some((Op::Load(E, Address::Register16(HL)), 1, 2)),
        0x66 => Some((Op::Load(H, Address::Register16(HL)), 1, 2)),
        0x6E => Some((Op::Load(L, Address::Register16(HL)), 1, 2)),
        0x7E => Some((Op::Load(A, Address::Register16(HL)), 1, 2)),

        0x70 => Some((Op::Store(Address::Register16(HL), B), 1, 2)),
        0x71 => Some((Op::Store(Address::Register16(HL), C), 1, 2)),
        0x72 => Some((Op::Store(Address::Register16(HL), D), 1, 2)),
        0x73 => Some((Op::Store(Address::Register16(HL), E), 1, 2)),
        0x74 => Some((Op::Store(Address::Register16(HL), H), 1, 2)),
        0x75 => Some((Op::Store(Address::Register16(HL), L), 1, 2)),
        0x77 => Some((Op::Store(Address::Register16(HL), A), 1, 2)),
        0xEA => Some((Op::Store(Address::Immediate16(imm16), A), 3, 2)),

        0xE0 => Some((Op::SetIO(imm8), 2, 3)),
        0xE2 => Some((Op::SetIOC, 1, 3)),
        0xF0 => Some((Op::ReadIO(imm8), 2, 3)),
        0xF2 => Some((Op::ReadIOC, 1, 3)),

        0xC1 => Some((Op::Pop(BC), 1, 3)),
        0xD1 => Some((Op::Pop(DE), 1, 3)),
        0xE1 => Some((Op::Pop(HL), 1, 3)),
        0xF1 => Some((Op::Pop(AF), 1, 3)),
        0xC5 => Some((Op::Push(BC), 1, 4)),
        0xD5 => Some((Op::Push(DE), 1, 4)),
        0xE5 => Some((Op::Push(HL), 1, 4)),
        0xF5 => Some((Op::Push(AF), 1, 4)),
        _ => None,
    }
}

/// The target of a relative jump.
pub fn relative_dest(pc: u16, offset: u8) -> (r: u16)
    ensures
        r == relative_target(pc, offset),
{
    let base: u32 = pc as u32 + 2;
    if offset < 128 {
        ((base + offset as u32) % 0x1_0000) as u16
    } else {
        ((base + 0x1_0000 + offset as u32 - 256) % 0x1_0000) as u16
    }
}

/// Decodes the jumps, calls, returns and restarts.
pub fn decode_jump(opcode: u8, pc: u16, imm8: u8, imm16: u16) -> (r: Option<Decoded>)
    ensures
        r == jump_spec(opcode, pc, imm8, imm16),
{
    let dest16 = imm16;
    let relative_dest = relative_dest(pc, imm8);
    match opcode {
        0x20 => Some((Op::ConditionalJumpRelative(NotZero, relative_dest), 2, 2)),
        0x30 => Some((Op::ConditionalJumpRelative(NotCarry, relative_dest), 2, 2)),
        0x28 => Some((Op::ConditionalJumpRelative(Zero, relative_dest), 2, 2)),
        0x38 => Some((Op::ConditionalJumpRelative(Carry, relative_dest), 2, 2)),
        0x18 => Some((Op::JumpRelative(relative_dest), 2, 3)),
        0xC2 => Some((Op::ConditionalJump(NotZero, dest16), 3, 3)),
        0xD2 => Some((Op::ConditionalJump(NotCarry, dest16), 3, 3)),
        0xCA => Some((Op::ConditionalJump(Zero, dest16), 3, 3)),
        0xDA => Some((Op::ConditionalJump(Carry, dest16), 3, 3)),
        0xC3 => Some((Op::Jump(Address::Immediate16(dest16)), 3, 4)),
        0xE9 => Some((Op::Jump(Address::Register16(HL)), 1, 4)),
        0xC7 => Some((Op::Reset(0x0), 1, 4)),
        0xD7 => Some((Op::Reset(0x10), 1, 4)),
        0xE7 => Some((Op::Reset(0x20), 1, 4)),
        0xF7 => Some((Op::Reset(0x30), 1, 4)),
        0xCF => Some((Op::Reset(0x8), 1, 4)),
        0xDF => Some((Op::Reset(0x18), 1, 4)),
        0xEF => Some((Op::Reset(0x28), 1, 4)),
        0xFF => Some((Op::Reset(0x38), 1, 4)),
        0xC0 => Some((Op::ConditionalReturn(NotZero), 1, 2)),
        0xD0 => Some((Op::ConditionalReturn(NotCarry), 1, 2)),
        0xC8 => Some((Op::ConditionalReturn(Zero), 1, 2)),
        0xD8 => Some((Op::ConditionalReturn(Carry), 1, 2)),
        0xC9 => Some((Op::Return, 1, 4)),
        0xD9 => Some((Op::ReturnAndEnableInterrupts, 1, 4)),
        0xC4 => Some((Op::ConditionalCall(NotZero, dest16), 3, 3)),
        0xD4 => Some((Op::ConditionalCall(NotCarry, dest16), 3, 3)),
        0xCC => Some((Op::ConditionalCall(Zero, dest16), 3, 3)),
        0xDC => Some((Op::ConditionalCall(Carry, dest16), 3, 3)),
        0xCD => Some((Op::Call(dest16), 3, 3)),
        _ => None,
    }
}

/// The rotations, shifts and swaps: the extended opcodes below 0x40.
fn extended_shift(opcode: u8) -> (r: Decoded)
    requires
        0x00 <= opcode <= 0x3F,
    ensures
        r == extended_spec(opcode),
{
    let (alu_op, time): (Alu8Op, usize) = match opcode {
        0x00 => (Alu8Op::rotate_left_carry(Alu8Data::Reg(B), false), 2),
        0x01 => (Alu8Op::rotate_left_carry(Alu8Data::Reg(C), false), 2),
        0x02 => (Alu8Op::rotate_left_carry(Alu8Data::Reg(D), false), 2),
        0x03 => (Alu8Op::rotate_left_carry(Alu8Data::Reg(E), false), 2),
        0x04 => (Alu8Op::rotate_left_carry(Alu8Data::Reg(H), false), 2),
        0x05 => (Alu8Op::rotate_left_carry(Alu8Data::Reg(L), false), 2),
        0x06 => (Alu8Op::rotate_left_carry(Alu8Data::Addr(HL), false), 4),
        0x07 => (Alu8Op::rotate_left_carry(Alu8Data::Reg(A), false), 2),
        0x08 => (Alu8Op::rotate_right_carry(Alu8Data::Reg(B), false), 2),
        0x09 => (Alu8Op::rotate_right_carry(Alu8Data::Reg(C), false), 2),
        0x0A => (Alu8Op::rotate_right_carry(Alu8Data::Reg(D), false), 2),
        0x0B => (Alu8Op::rotate_right_carry(Alu8Data::Reg(E), false), 2),
        0x0C => (Alu8Op::rotate_right_carry(Alu8Data::Reg(H), false), 2),
        0x0D => (Alu8Op::rotate_right_carry(Alu8Data::Reg(L), false), 2),
        0x0E => (Alu8Op::rotate_right_carry(Alu8Data::Addr(HL), false), 4),
        0x0F => (Alu8Op::rotate_right_carry(Alu8Data::Reg(A), false), 2),
        0x10 => (Alu8Op::rotate_left(Alu8Data::Reg(B), false), 2),
        0x11 => (Alu8Op::rotate_left(Alu8Data::Reg(C), false), 2),
        0x12 => (Alu8Op::rotate_left(Alu8Data::Reg(D), false), 2),
        0x13 => (Alu8Op::rotate_left(Alu8Data::Reg(E), false), 2),
        0x14 => (Alu8Op::rotate_left(Alu8Data::Reg(H), false), 2),
        0x15 => (Alu8Op::rotate_left(Alu8Data::Reg(L), false), 2),
        0x16 => (Alu8Op::rotate_left(Alu8Data::Addr(HL), false), 4),
        0x17 => (Alu8Op::rotate_left(Alu8Data::Reg(A), false), 2),
        0x18 => (Alu8Op::rotate_right(Alu8Data::Reg(B), false), 2),
        0x19 => (Alu8Op::rotate_right(Alu8Data::Reg(C), false), 2),
        0x1A => (Alu8Op::rotate_right(Alu8Data::Reg(D), false), 2),
        0x1B => (Alu8Op::rotate_right(Alu8Data::Reg(E), false), 2),
        0x1C => (Alu8Op::rotate_right(Alu8Data::Reg(H), false), 2),
        0x1D => (Alu8Op::rotate_right(Alu8Data::Reg(L), false), 2),
        0x1E => (Alu8Op::rotate_right(Alu8Data::Addr(HL), false), 4),
        0x1F => (Alu8Op::rotate_right(Alu8Data::Reg(A), false), 2),
        0x20 => (Alu8Op::shift_left_arithmetic(Alu8Data::Reg(B)), 2),
        0x21 => (Alu8Op::shift_left_arithmetic(Alu8Data::Reg(C)), 2),
        0x22 => (Alu8Op::shift_left_arithmetic(Alu8Data::Reg(D)), 2),
        0x23 => (Alu8Op::shift_left_arithmetic(Alu8Data::Reg(E)), 2),
        0x24 => (Alu8Op::shift_left_arithmetic(Alu8Data::Reg(H)), 2),
        0x25 => (Alu8Op::shift_left_arithmetic(Alu8Data::Reg(L)), 2),
        0x26 => (Alu8Op::shift_left_arithmetic(Alu8Data::Addr(HL)), 4),
        0x27 => (Alu8Op::shift_left_arithmetic(Alu8Data::Reg(A)), 2),
        0x28 => (Alu8Op::shift_right_arithmetic(Alu8Data::Reg(B)), 2),
        0x29 => (Alu8Op::shift_right_arithmetic(Alu8Data::Reg(C)), 2),
        0x2A => (Alu8Op::shift_right_arithmetic(Alu8Data::Reg(D)), 2),
        0x2B => (Alu8Op::shift_right_arithmetic(Alu8Data::Reg(E)), 2),
        0x2C => (Alu8Op::shift_right_arithmetic(Alu8Data::Reg(H)), 2),
        0x2D => (Alu8Op::shift_right_arithmetic(Alu8Data::Reg(L)), 2),
        0x2E => (Alu8Op::shift_right_arithmetic(Alu8Data::Addr(HL)), 4),
        0x2F => (Alu8Op::shift_right_arithmetic(Alu8Data::Reg(A)), 2),
        0x30 => (Alu8Op::swap(Alu8Data::Reg(B)), 2),
        0x31 => (Alu8Op::swap(Alu8Data::Reg(C)), 2),
        0x32 => (Alu8Op::swap(Alu8Data::Reg(D)), 2),
        0x33 => (Alu8Op::swap(Alu8Data::Reg(E)), 2),
        0x34 => (Alu8Op::swap(Alu8Data::Reg(H)), 2),
        0x35 => (Alu8Op::swap(Alu8Data::Reg(L)), 2),
        0x36 => (Alu8Op::swap(Alu8Data::Addr(HL)), 4),
        0x37 => (Alu8Op::swap(Alu8Data::Reg(A)), 2),
        0x38 => (Alu8Op::shift_right_logical(Alu8Data::Reg(B)), 2),
        0x39 => (Alu8Op::shift_right_logical(Alu8Data::Reg(C)), 2),
        0x3A => (Alu8Op::shift_right_logical(Alu8Data::Reg(D)), 2),
        0x3B => (Alu8Op::shift_right_logical(Alu8Data::Reg(E)), 2),
        0x3C => (Alu8Op::shift_right_logical(Alu8Data::Reg(H)), 2),
        0x3D => (Alu8Op::shift_right_logical(Alu8Data::Reg(L)), 2),
        0x3E => (Alu8Op::shift_right_logical(Alu8Data::Addr(HL)), 4),
        0x3F => (Alu8Op::shift_right_logical(Alu8Data::Reg(A)), 2),
        _ => (Alu8Op::unknown(), 0),
    };
    (Op::Alu8(alu_op), 2, time)
}

/// The bit tests: the extended opcodes from 0x40 to 0x7F.
fn extended_test(opcode: u8) -> (r: Decoded)
    requires
        0x40 <= opcode <= 0x7F,
    ensures
        r == extended_spec(opcode),
{
    let (alu_op, time): (Alu8Op, usize) = match opcode {
        0x40 => (Alu8Op::test_bit(Alu8Data::Reg(B), 0), 2),
        0x41 => (Alu8Op::test_bit(Alu8Data::Reg(C), 0), 2),
        0x42 => (Alu8Op::test_bit(Alu8Data::Reg(D), 0), 2),
        0x43 => (Alu8Op::test_bit(Alu8Data::Reg(E), 0), 2),
        0x44 => (Alu8Op::test_bit(Alu8Data::Reg(H), 0), 2),
        0x45 => (Alu8Op::test_bit(Alu8Data::Reg(L), 0), 2),
        0x46 => (Alu8Op::test_bit(Alu8Data::Addr(HL), 0), 4),
        0x47 => (Alu8Op::test_bit(Alu8Data::Reg(A), 0), 2),
        0x48 => (Alu8Op::test_bit(Alu8Data::Reg(B), 1), 2),
        0x49 => (Alu8Op::test_bit(Alu8Data::Reg(C), 1), 2),
        0x4A => (Alu8Op::test_bit(Alu8Data::Reg(D), 1), 2),
        0x4B => (Alu8Op::test_bit(Alu8Data::Reg(E), 1), 2),
        0x4C => (Alu8Op::test_bit(Alu8Data::Reg(H), 1), 2),
        0x4D => (Alu8Op::test_bit(Alu8Data::Reg(L), 1), 2),
        0x4E => (Alu8Op::test_bit(Alu8Data::Addr(HL), 1), 4),
        0x4F => (Alu8Op::test_bit(Alu8Data::Reg(A), 1), 2),
        0x50 => (Alu8Op::test_bit(Alu8Data::Reg(B), 2), 2),
        0x51 => (Alu8Op::test_bit(Alu8Data::Reg(C), 2), 2),
        0x52 => (Alu8Op::test_bit(Alu8Data::Reg(D), 2), 2),
        0x53 => (Alu8Op::test_bit(Alu8Data::Reg(E), 2), 2),
        0x54 => (Alu8Op::test_bit(Alu8Data::Reg(H), 2), 2),
        0x55 => (Alu8Op::test_bit(Alu8Data::Reg(L), 2), 2),
        0x56 => (Alu8Op::test_bit(Alu8Data::Addr(HL), 2), 4),
        0x57 => (Alu8Op::test_bit(Alu8Data::Reg(A), 2), 2),
        0x58 => (Alu8Op::test_bit(Alu8Data::Reg(B), 3), 2),
        0x59 => (Alu8Op::test_bit(Alu8Data::Reg(C), 3), 2),
        0x5A => (Alu8Op::test_bit(Alu8Data::Reg(D), 3), 2),
        0x5B => (Alu8Op::test_bit(Alu8Data::Reg(E), 3), 2),
        0x5C => (Alu8Op::test_bit(Alu8Data::Reg(H), 3), 2),
        0x5D => (Alu8Op::test_bit(Alu8Data::Reg(L), 3), 2),
        0x5E => (Alu8Op::test_bit(Alu8Data::Addr(HL), 3), 4),
        0x5F => (Alu8Op::test_bit(Alu8Data::Reg(A), 3), 2),
        0x60 => (Alu8Op::test_bit(Alu8Data::Reg(B), 4), 2),
        0x61 => (Alu8Op::test_bit(Alu8Data::Reg(C), 4), 2),
        0x62 => (Alu8Op::test_bit(Alu8Data::Reg(D), 4), 2),
        0x63 => (Alu8Op::test_bit(Alu8Data::Reg(E), 4), 2),
        0x64 => (Alu8Op::test_bit(Alu8Data::Reg(H), 4), 2),
        0x65 => (Alu8Op::test_bit(Alu8Data::Reg(L), 4), 2),
        0x66 => (Alu8Op::test_bit(Alu8Data::Addr(HL), 4), 4),
        0x67 => (Alu8Op::test_bit(Alu8Data::Reg(A), 4), 2),
        0x68 => (Alu8Op::test_bit(Alu8Data::Reg(B), 5), 2),
        0x69 => (Alu8Op::test_bit(Alu8Data::Reg(C), 5), 2),
        0x6A => (Alu8Op::test_bit(Alu8Data::Reg(D), 5), 2),
        0x6B => (Alu8Op::test_bit(Alu8Data::Reg(E), 5), 2),
        0x6C => (Alu8Op::test_bit(Alu8Data::Reg(H), 5), 2),
        0x6D => (Alu8Op::test_bit(Alu8Data::Reg(L), 5), 2),
        0x6E => (Alu8Op::test_bit(Alu8Data::Addr(HL), 5), 4),
        0x6F => (Alu8Op::test_bit(Alu8Data::Reg(A), 5), 2),
        0x70 => (Alu8Op::test_bit(Alu8Data::Reg(B), 6), 2),
        0x71 => (Alu8Op::test_bit(Alu8Data::Reg(C), 6), 2),
        0x72 => (Alu8Op::test_bit(Alu8Data::Reg(D), 6), 2),
        0x73 => (Alu8Op::test_bit(Alu8Data::Reg(E), 6), 2),
        0x74 => (Alu8Op::test_bit(Alu8Data::Reg(H), 6), 2),
        0x75 => (Alu8Op::test_bit(Alu8Data::Reg(L), 6), 2),
        0x76 => (Alu8Op::test_bit(Alu8Data::Addr(HL), 6), 4),
        0x77 => (Alu8Op::test_bit(Alu8Data::Reg(A), 6), 2),
        0x78 => (Alu8Op::test_bit(Alu8Data::Reg(B), 7), 2),
        0x79 => (Alu8Op::test_bit(Alu8Data::Reg(C), 7), 2),
        0x7A => (Alu8Op::test_bit(Alu8Data::Reg(D), 7), 2),
        0x7B => (Alu8Op::test_bit(Alu8Data::Reg(E), 7), 2),
        0x7C => (Alu8Op::test_bit(Alu8Data::Reg(H), 7), 2),
        0x7D => (Alu8Op::test_bit(Alu8Data::Reg(L), 7), 2),
        0x7E => (Alu8Op::test_bit(Alu8Data::Addr(HL), 7), 4),
        0x7F => (Alu8Op::test_bit(Alu8Data::Reg(A), 7), 2),
        _ => (Alu8Op::unknown(), 0),
    };
    (Op::Alu8(alu_op), 2, time)
}

/// The bit resets: the extended opcodes from 0x80 to 0xBF.
fn extended_reset(opcode: u8) -> (r: Decoded)
    requires
        0x80 <= opcode <= 0xBF,
    ensures
        r == extended_spec(opcode),
{
    let (alu_op, time): (Alu8Op, usize) = match opcode {
        0x80 => (Alu8Op::reset_bit(Alu8Data::Reg(B), 0), 2),
        0x81 => (Alu8Op::reset_bit(Alu8Data::Reg(C), 0), 2),
        0x82 => (Alu8Op::reset_bit(Alu8Data::Reg(D), 0), 2),
        0x83 => (Alu8Op::reset_bit(Alu8Data::Reg(E), 0), 2),
        0x84 => (Alu8Op::reset_bit(Alu8Data::Reg(H), 0), 2),
        0x85 => (Alu8Op::reset_bit(Alu8Data::Reg(L), 0), 2),
        0x86 => (Alu8Op::reset_bit(Alu8Data::Addr(HL), 0), 4),
        0x87 => (Alu8Op::reset_bit(Alu8Data::Reg(A), 0), 2),
        0x88 => (Alu8Op::reset_bit(Alu8Data::Reg(B), 1), 2),
        0x89 => (Alu8Op::reset_bit(Alu8Data::Reg(C), 1), 2),
        0x8A => (Alu8Op::reset_bit(Alu8Data::Reg(D), 1), 2),
        0x8B => (Alu8Op::reset_bit(Alu8Data::Reg(E), 1), 2),
        0x8C => (Alu8Op::reset_bit(Alu8Data::Reg(H), 1), 2),
        0x8D => (Alu8Op::reset_bit(Alu8Data::Reg(L), 1), 2),
        0x8E => (Alu8Op::reset_bit(Alu8Data::Addr(HL), 1), 4),
        0x8F => (Alu8Op::reset_bit(Alu8Data::Reg(A), 1), 2),
        0x90 => (Alu8Op::reset_bit(Alu8Data::Reg(B), 2), 2),
        0x91 => (Alu8Op::reset_bit(Alu8Data::Reg(C), 2), 2),
        0x92 => (Alu8Op::reset_bit(Alu8Data::Reg(D), 2), 2),
        0x93 => (Alu8Op::reset_bit(Alu8Data::Reg(E), 2), 2),
        0x94 => (Alu8Op::reset_bit(Alu8Data::Reg(H), 2), 2),
        0x95 => (Alu8Op::reset_bit(Alu8Data::Reg(L), 2), 2),
        0x96 => (Alu8Op::reset_bit(Alu8Data::Addr(HL), 2), 4),
        0x97 => (Alu8Op::reset_bit(Alu8Data::Reg(A), 2), 2),
        0x98 => (Alu8Op::reset_bit(Alu8Data::Reg(B), 3), 2),
        0x99 => (Alu8Op::reset_bit(Alu8Data::Reg(C), 3), 2),
        0x9A => (Alu8Op::reset_bit(Alu8Data::Reg(D), 3), 2),
        0x9B => (Alu8Op::reset_bit(Alu8Data::Reg(E), 3), 2),
        0x9C => (Alu8Op::reset_bit(Alu8Data::Reg(H), 3), 2),
        0x9D => (Alu8Op::reset_bit(Alu8Data::Reg(L), 3), 2),
        0x9E => (Alu8Op::reset_bit(Alu8Data::Addr(HL), 3), 4),
        0x9F => (Alu8Op::reset_bit(Alu8Data::Reg(A), 3), 2),
        0xA0 => (Alu8Op::reset_bit(Alu8Data::Reg(B), 4), 2),
        0xA1 => (Alu8Op::reset_bit(Alu8Data::Reg(C), 4), 2),
        0xA2 => (Alu8Op::reset_bit(Alu8Data::Reg(D), 4), 2),
        0xA3 => (Alu8Op::reset_bit(Alu8Data::Reg(E), 4), 2),
        0xA4 => (Alu8Op::reset_bit(Alu8Data::Reg(H), 4), 2),
        0xA5 => (Alu8Op::reset_bit(Alu8Data::Reg(L), 4), 2),
        0xA6 => (Alu8Op::reset_bit(Alu8Data::Addr(HL), 4), 4),
        0xA7 => (Alu8Op::reset_bit(Alu8Data::Reg(A), 4), 2),
        0xA8 => (Alu8Op::reset_bit(Alu8Data::Reg(B), 5), 2),
        0xA9 => (Alu8Op::reset_bit(Alu8Data::Reg(C), 5), 2),
        0xAA => (Alu8Op::reset_bit(Alu8Data::Reg(D), 5), 2),
        0xAB => (Alu8Op::reset_bit(Alu8Data::Reg(E), 5), 2),
        0xAC => (Alu8Op::reset_bit(Alu8Data::Reg(H), 5), 2),
        0xAD => (Alu8Op::reset_bit(Alu8Data::Reg(L), 5), 2),
        0xAE => (Alu8Op::reset_bit(Alu8Data::Addr(HL), 5), 4),
        0xAF => (Alu8Op::reset_bit(Alu8Data::Reg(A), 5), 2),
        0xB0 => (Alu8Op::reset_bit(Alu8Data::Reg(B), 6), 2),
        0xB1 => (Alu8Op::reset_bit(Alu8Data::Reg(C), 6), 2),
        0xB2 => (Alu8Op::reset_bit(Alu8Data::Reg(D), 6), 2),
        0xB3 => (Alu8Op::reset_bit(Alu8Data::Reg(E), 6), 2),
        0xB4 => (Alu8Op::reset_bit(Alu8Data::Reg(H), 6), 2),
        0xB5 => (Alu8Op::reset_bit(Alu8Data::Reg(L), 6), 2),
        0xB6 => (Alu8Op::reset_bit(Alu8Data::Addr(HL), 6), 4),
        0xB7 => (Alu8Op::reset_bit(Alu8Data::Reg(A), 6), 2),
        0xB8 => (Alu8Op::reset_bit(Alu8Data::Reg(B), 7), 2),
        0xB9 => (Alu8Op::reset_bit(Alu8Data::Reg(C), 7), 2),
        0xBA => (Alu8Op::reset_bit(Alu8Data::Reg(D), 7), 2),
        0xBB => (Alu8Op::reset_bit(Alu8Data::Reg(E), 7), 2),
        0xBC => (Alu8Op::reset_bit(Alu8Data::Reg(H), 7), 2),
        0xBD => (Alu8Op::reset_bit(Alu8Data::Reg(L), 7), 2),
        0xBE => (Alu8Op::reset_bit(Alu8Data::Addr(HL), 7), 4),
        0xBF => (Alu8Op::reset_bit(Alu8Data::Reg(A), 7), 2),
        _ => (Alu8Op::unknown(), 0),
    };
    (Op::Alu8(alu_op), 2, time)
}

/// The bit sets: the extended opcodes from 0xC0.
fn extended_set(opcode: u8) -> (r: Decoded)
    requires
        0xC0 <= opcode <= 0xFF,
    ensures
        r == extended_spec(opcode),
{
    let (alu_op, time): (Alu8Op, usize) = match opcode {
        0xC0 => (Alu8Op::set_bit(Alu8Data::Reg(B), 0), 2),
        0xC1 => (Alu8Op::set_bit(Alu8Data::Reg(C), 0), 2),
        0xC2 => (Alu8Op::set_bit(Alu8Data::Reg(D), 0), 2),
        0xC3 => (Alu8Op::set_bit(Alu8Data::Reg(E), 0), 2),
        0xC4 => (Alu8Op::set_bit(Alu8Data::Reg(H), 0), 2),
        0xC5 => (Alu8Op::set_bit(Alu8Data::Reg(L), 0), 2),
        0xC6 => (Alu8Op::set_bit(Alu8Data::Addr(HL), 0), 4),
        0xC7 => (Alu8Op::set_bit(Alu8Data::Reg(A), 0), 2),
        0xC8 => (Alu8Op::set_bit(Alu8Data::Reg(B), 1), 2),
        0xC9 => (Alu8Op::set_bit(Alu8Data::Reg(C), 1), 2),
        0xCA => (Alu8Op::set_bit(Alu8Data::Reg(D), 1), 2),
        0xCB => (Alu8Op::set_bit(Alu8Data::Reg(E), 1), 2),
        0xCC => (Alu8Op::set_bit(Alu8Data::Reg(H), 1), 2),
        0xCD => (Alu8Op::set_bit(Alu8Data::Reg(L), 1), 2),
        0xCE => (Alu8Op::set_bit(Alu8Data::Addr(HL), 1), 4),
        0xCF => (Alu8Op::set_bit(Alu8Data::Reg(A), 1), 2),
        0xD0 => (Alu8Op::set_bit(Alu8Data::Reg(B), 2), 2),
        0xD1 => (Alu8Op::set_bit(Alu8Data::Reg(C), 2), 2),
        0xD2 => (Alu8Op::set_bit(Alu8Data::Reg(D), 2), 2),
        0xD3 => (Alu8Op::set_bit(Alu8Data::Reg(E), 2), 2),
        0xD4 => (Alu8Op::set_bit(Alu8Data::Reg(H), 2), 2),
        0xD5 => (Alu8Op::set_bit(Alu8Data::Reg(L), 2), 2),
        0xD6 => (Alu8Op::set_bit(Alu8Data::Addr(HL), 2), 4),
        0xD7 => (Alu8Op::set_bit(Alu8Data::Reg(A), 2), 2),
        0xD8 => (Alu8Op::set_bit(Alu8Data::Reg(B), 3), 2),
        0xD9 => (Alu8Op::set_bit(Alu8Data::Reg(C), 3), 2),
        0xDA => (Alu8Op::set_bit(Alu8Data::Reg(D), 3), 2),
        0xDB => (Alu8Op::set_bit(Alu8Data::Reg(E), 3), 2),
        0xDC => (Alu8Op::set_bit(Alu8Data::Reg(H), 3), 2),
        0xDD => (Alu8Op::set_bit(Alu8Data::Reg(L), 3), 2),
        0xDE => (Alu8Op::set_bit(Alu8Data::Addr(HL), 3), 4),
        0xDF => (Alu8Op::set_bit(Alu8Data::Reg(A), 3), 2),
        0xE0 => (Alu8Op::set_bit(Alu8Data::Reg(B), 4), 2),
        0xE1 => (Alu8Op::set_bit(Alu8Data::Reg(C), 4), 2),
        0xE2 => (Alu8Op::set_bit(Alu8Data::Reg(D), 4), 2),
        0xE3 => (Alu8Op::set_bit(Alu8Data::Reg(E), 4), 2),
        0xE4 => (Alu8Op::set_bit(Alu8Data::Reg(H), 4), 2),
        0xE5 => (Alu8Op::set_bit(Alu8Data::Reg(L), 4), 2),
        0xE6 => (Alu8Op::set_bit(Alu8Data::Addr(HL), 4), 4),
        0xE7 => (Alu8Op::set_bit(Alu8Data::Reg(A), 4), 2),
        0xE8 => (Alu8Op::set_bit(Alu8Data::Reg(B), 5), 2),
        0xE9 => (Alu8Op::set_bit(Alu8Data::Reg(C), 5), 2),
        0xEA => (Alu8Op::set_bit(Alu8Data::Reg(D), 5), 2),
        0xEB => (Alu8Op::set_bit(Alu8Data::Reg(E), 5), 2),
        0xEC => (Alu8Op::set_bit(Alu8Data::Reg(H), 5), 2),
        0xED => (Alu8Op::set_bit(Alu8Data::Reg(L), 5), 2),
        0xEE => (Alu8Op::set_bit(Alu8Data::Addr(HL), 5), 4),
        0xEF => (Alu8Op::set_bit(Alu8Data::Reg(A), 5), 2),
        0xF0 => (Alu8Op::set_bit(Alu8Data::Reg(B), 6), 2),
        0xF1 => (Alu8Op::set_bit(Alu8Data::Reg(C), 6), 2),
        0xF2 => (Alu8Op::set_bit(Alu8Data::Reg(D), 6), 2),
        0xF3 => (Alu8Op::set_bit(Alu8Data::Reg(E), 6), 2),
        0xF4 => (Alu8Op::set_bit(Alu8Data::Reg(H), 6), 2),
        0xF5 => (Alu8Op::set_bit(Alu8Data::Reg(L), 6), 2),
        0xF6 => (Alu8Op::set_bit(Alu8Data::Addr(HL), 6), 4),
        0xF7 => (Alu8Op::set_bit(Alu8Data::Reg(A), 6), 2),
        0xF8 => (Alu8Op::set_bit(Alu8Data::Reg(B), 7), 2),
        0xF9 => (Alu8Op::set_bit(Alu8Data::Reg(C), 7), 2),
        0xFA => (Alu8Op::set_bit(Alu8Data::Reg(D), 7), 2),
        0xFB => (Alu8Op::set_bit(Alu8Data::Reg(E), 7), 2),
        0xFC => (Alu8Op::set_bit(Alu8Data::Reg(H), 7), 2),
        0xFD => (Alu8Op::set_bit(Alu8Data::Reg(L), 7), 2),
        0xFE => (Alu8Op::set_bit(Alu8Data::Addr(HL), 7), 4),
        0xFF => (Alu8Op::set_bit(Alu8Data::Reg(A), 7), 2),
        _ => (Alu8Op::unknown(), 0),
    };
    (Op::Alu8(alu_op), 2, time)
}

/// Decodes the instruction after the prefix 0xCB.
pub fn decode_extended(opcode: u8) -> (r: Decoded)
    ensures
        r == extended_spec(opcode),
{
    if opcode < 0x40 {
        extended_shift(opcode)
    } else if opcode < 0x80 {
        extended_test(opcode)
    } else if opcode < 0xC0 {
        extended_reset(opcode)
    } else {
        extended_set(opcode)
    }
}

/// Decodes the instruction whose bytes are `b0`, `b1` and `b2`, found at `pc`.
pub fn decode_bytes(b0: u8, b1: u8, b2: u8, pc: u16) -> (r: Decoded)
    ensures
        r == decode_spec(b0, b1, b2, pc),
        1 <= r.1 <= 3,
        r.2 <= 5,
        r.0 is Unknown <==> unassigned(b0),
{
    proof {
        lemma_decode_total(b0, b1, b2, pc);
    }
    let imm16 = crate::util::make_word(b2, b1);
    if let Some(d) = decode_alu8(b0, b1) {
        return d;
    }
    if let Some(d) = decode_alu16(b0, b1) {
        return d;
    }
    if let Some(d) = decode_load(b0, b1, imm16) {
        return d;
    }
    if let Some(d) = decode_jump(b0, pc, b1, imm16) {
        return d;
    }
    match b0 {
        0x00 => (Op::Nop, 1, 1),
        0x10 => (Op::Stop, 2, 1),
        0x76 => (Op::Halt, 1, 1),
        0xF3 => (Op::DisableInterrupts, 1, 1),
        0xFB => (Op::EnableInterrupts, 1, 1),
        0xCB => decode_extended(b1),
        code => (Op::Unknown(code), 1, 0),
    }
}

/// The address `n` bytes behind `pc`, wrapping at the end of the address space.
pub open spec fn following(pc: u16, n: int) -> u16 {
    ((pc + n) % 0x1_0000) as u16
}

/// Decodes the instruction at `pc`: reads its up to three bytes from the bus and
/// gives the instruction, the number of bytes it occupies and its base cost in
/// machine cycles. The bus is left as it is.
pub fn decode(mem: &Peripherals, pc: u16) -> (r: Decoded)
    ensures
        r == decode_spec(
            mem@.read(pc),
            mem@.read(following(pc, 1)),
            mem@.read(following(pc, 2)),
            pc,
        ),
        1 <= r.1 <= 3,
        r.2 <= 5,
        r.0 is Unknown <==> unassigned(mem@.read(pc)),
{
    let b0 = mem.read(pc);
    let b1 = mem.read(pc.wrapping_add(1));
    let b2 = mem.read(pc.wrapping_add(2));
    decode_bytes(b0, b1, b2, pc)
}

/// Every opcode decodes to an instruction of one, two or three bytes and at most
/// five base cycles, and exactly the eleven unassigned opcodes decode to
/// `Unknown`, whatever bytes follow and wherever the instruction stands.
pub proof fn lemma_decode_total(b0: u8, b1: u8, b2: u8, pc: u16)
    ensures
        1 <= decode_spec(b0, b1, b2, pc).1 <= 3,
        decode_spec(b0, b1, b2, pc).2 <= 5,
        decode_spec(b0, b1, b2, pc).0 is Unknown <==> unassigned(b0),
        decode_spec(b0, b1, b2, pc).0 is Unknown ==> decode_spec(b0, b1, b2, pc) == (
            Op::Unknown(b0),
            1usize,
            0usize,
        ),
        b0 == 0xCB ==> decode_spec(b0, b1, b2, pc).1 == 2,
{
}

/// The four tables claim disjoint sets of opcodes, so the order in which they are
/// tried does not matter.
pub proof fn lemma_tables_disjoint(b0: u8, b1: u8, b2: u8, pc: u16)
    ensures
        alu8_spec(b0, b1) is Some ==> alu16_spec(b0, b1) is None && load_spec(b0, b1, word(b2, b1))
            is None && jump_spec(b0, pc, b1, word(b2, b1)) is None,
        alu16_spec(b0, b1) is Some ==> load_spec(b0, b1, word(b2, b1)) is None && jump_spec(
            b0,
            pc,
            b1,
            word(b2, b1),
        ) is None,
        load_spec(b0, b1, word(b2, b1)) is Some ==> jump_spec(b0, pc, b1, word(b2, b1)) is None,
{
}

} // verus!
