//! The arithmetic of the 8-bit and the 16-bit ALU, as functions of the operands
//! and the flags.

use crate::cpu::decode::Alu8;
use vstd::prelude::*;

verus! {

/// What an operation of the 8-bit ALU gives: the byte for its destination and
/// the four flags, each only where the operation sets it.
#[derive(Debug, Copy, Clone, PartialEq, Eq, Structural)]
pub struct Alu8Result {
    pub out: Option<u8>,
    pub zero: Option<bool>,
    pub subtract: Option<bool>,
    pub half_carry: Option<bool>,
    pub carry: Option<bool>,
}

/// What an operation of the 16-bit ALU gives: the word for its destination and
/// the four flags, each only where the operation sets it.
#[derive(Debug, Copy, Clone, PartialEq, Eq, Structural)]
pub struct Alu16Result {
    pub out: Option<u16>,
    pub zero: Option<bool>,
    pub subtract: Option<bool>,
    pub half_carry: Option<bool>,
    pub carry: Option<bool>,
}

/// One for true, zero for false.
pub open spec fn b2i(b: bool) -> int {
    if b {
        1
    } else {
        0
    }
}

/// A sum or a difference of bytes brought back into a byte: 256 is taken off
/// what lies above 255 and added to what lies below 0.
pub open spec fn wrap8(v: int) -> u8 {
    if v < 0 {
        (v + 256) as u8
    } else if v > 255 {
        (v - 256) as u8
    } else {
        v as u8
    }
}

/// The weight of bit `n` of a byte; `n` is taken modulo eight.
pub open spec fn bit_weight(n: u8) -> u8 {
    if n % 8 == 0 {
        1
    } else if n % 8 == 1 {
        2
    } else if n % 8 == 2 {
        4
    } else if n % 8 == 3 {
        8
    } else if n % 8 == 4 {
        16
    } else if n % 8 == 5 {
        32
    } else if n % 8 == 6 {
        64
    } else {
        128
    }
}

/// A result that sets the destination and all four flags.
pub open spec fn full(out: u8, zero: bool, subtract: bool, half_carry: bool, carry: bool)
    -> Alu8Result {
    Alu8Result {
        out: Some(out),
        zero: Some(zero),
        subtract: Some(subtract),
        half_carry: Some(half_carry),
        carry: Some(carry),
    }
}

/// The result of a rotation or a shift: the byte, the bit that fell out as the
/// carry, and the zero flag unless the operation forces it off.
pub open spec fn shifted(out: u8, carry: bool, clear_zero: bool) -> Alu8Result {
    full(out, !clear_zero && out == 0, false, false, carry)
}

/// The decimal adjustment of `x` after an addition or, if `n` is set, after a
/// subtraction. After an addition 6 is added where the low digit is above 9 or
/// carried, then 0x60 where the high digit is above 9 or carried, which sets the
/// carry flag. After a subtraction 6 and 0x60 are taken off for the half carry
/// and the carry, and the carry flag is left as it is.
pub open spec fn decimal_adjust_spec(x: u8, n: bool, h: bool, c: bool) -> Alu8Result {
    if n {
        let out = wrap8(x - (if h { 6int } else { 0 }) - (if c { 0x60int } else { 0 }));
        Alu8Result {
            out: Some(out),
            zero: Some(out == 0),
            subtract: None,
            half_carry: Some(false),
            carry: None,
        }
    } else {
        let low = if x % 16 > 9 || h {
            x + 6
        } else {
            x as int
        };
        let high = low / 16 > 9 || c;
        let out = wrap8(
            if high {
                (low + 0x60) % 256
            } else {
                low % 256
            },
        );
        Alu8Result {
            out: Some(out),
            zero: Some(out == 0),
            subtract: None,
            half_carry: Some(false),
            carry: if high {
                Some(true)
            } else {
                None
            },
        }
    }
}

/// What the operation `op` gives for the first operand `x`, the second operand
/// `y` and the flags subtract `n`, half carry `h` and carry `c`.
pub open spec fn alu8_spec(op: Alu8, x: u8, y: u8, n: bool, h: bool, c: bool) -> Alu8Result {
    let cin = b2i(c);
    match op {
        Alu8::Add => full(wrap8(x + y), wrap8(x + y) == 0, false, x % 16 + y % 16 > 15, x + y > 255),
        Alu8::AddWithCarry => full(
            wrap8(x + y + cin),
            wrap8(x + y + cin) == 0,
            false,
            x % 16 + y % 16 + cin > 15,
            x + y + cin > 255,
        ),
        Alu8::And => full(x & y, x & y == 0, false, true, false),
        Alu8::ClearCarryFlag => Alu8Result {
            out: None,
            zero: None,
            subtract: Some(false),
            half_carry: Some(false),
            carry: Some(!c),
        },
        Alu8::Compare => Alu8Result {
            out: None,
            zero: Some(x == y),
            subtract: Some(true),
            half_carry: Some(x % 16 < y % 16),
            carry: Some(x < y),
        },
        Alu8::Complement => Alu8Result {
            out: Some((255 - x) as u8),
            zero: None,
            subtract: Some(true),
            half_carry: Some(true),
            carry: None,
        },
        Alu8::DecimalAdjust => decimal_adjust_spec(x, n, h, c),
        Alu8::Decrement => Alu8Result {
            out: Some(wrap8(x - 1)),
            zero: Some(x == 1),
            subtract: Some(true),
            half_carry: Some(x % 16 == 0),
            carry: None,
        },
        Alu8::Increment => Alu8Result {
            out: Some(wrap8(x + 1)),
            zero: Some(x == 255),
            subtract: Some(false),
            half_carry: Some(x % 16 == 15),
            carry: None,
        },
        Alu8::Or => full(x | y, x | y == 0, false, false, false),
        Alu8::ResetBit => Alu8Result {
            out: Some(x & !bit_weight(y)),
            zero: None,
            subtract: None,
            half_carry: None,
            carry: None,
        },
        Alu8::RotateLeft(clear_zero) => shifted(wrap8(2 * x + cin), x >= 128, clear_zero),
        Alu8::RotateLeftCarry(clear_zero) => shifted(
            wrap8(2 * x + b2i(x >= 128)),
            x >= 128,
            clear_zero,
        ),
        Alu8::RotateRight(clear_zero) => shifted(
            (x / 2 + 128 * cin) as u8,
            x % 2 == 1,
            clear_zero,
        ),
        Alu8::RotateRightCarry(clear_zero) => shifted(
            (x / 2 + 128 * (x % 2)) as u8,
            x % 2 == 1,
            clear_zero,
        ),
        Alu8::SetBit => Alu8Result {
            out: Some(x | bit_weight(y)),
            zero: None,
            subtract: None,
            half_carry: None,
            carry: None,
        },
        Alu8::SetCarryFlag => Alu8Result {
            out: None,
            zero: None,
            subtract: Some(false),
            half_carry: Some(false),
            carry: Some(true),
        },
        Alu8::ShiftLeftArithmetic => shifted(wrap8(2 * x), x >= 128, false),
        Alu8::ShiftRightArithmetic => shifted(
            (x / 2 + 128 * b2i(x >= 128)) as u8,
            x % 2 == 1,
            false,
        ),
        Alu8::ShiftRightLogical => shifted(x / 2, x % 2 == 1, false),
        Alu8::Sub => full(wrap8(x - y), x == y, true, x % 16 < y % 16, x < y),
        Alu8::SubWithCarry => full(
            wrap8(x - y - cin),
            wrap8(x - y - cin) == 0,
            true,
            x % 16 < y % 16 + cin,
            x < y + cin,
        ),
        Alu8::Swap => full(((x % 16) * 16 + x / 16) as u8, x == 0, false, false, false),
        Alu8::TestBit => Alu8Result {
            out: None,
            zero: Some(x & bit_weight(y) == 0),
            subtract: Some(false),
            half_carry: Some(true),
            carry: None,
        },
        Alu8::Unknown => Alu8Result {
            out: None,
            zero: None,
            subtract: None,
            half_carry: None,
            carry: None,
        },
        Alu8::Xor => full(x ^ y, x ^ y == 0, false, false, false),
    }
}

/// Brings a sum or a difference of bytes back into a byte.
fn wrap(v: i16) -> (r: u8)
    requires
        -256 <= v <= 511,
    ensures
        r == wrap8(v as int),
{
    if v < 0 {
        (v + 256) as u8
    } else if v > 255 {
        (v - 256) as u8
    } else {
        v as u8
    }
}

/// The weight of bit `n` of a byte.
pub fn weight_of(n: u8) -> (w: u8)
    ensures
        w == bit_weight(n),
        w >= 1,
{
    match n % 8 {
        0 => 1,
        1 => 2,
        2 => 4,
        3 => 8,
        4 => 16,
        5 => 32,
        6 => 64,
        _ => 128,
    }
}

/// A result that sets the destination and all four flags.
fn make_full(out: u8, zero: bool, subtract: bool, half_carry: bool, carry: bool) -> (r: Alu8Result)
    ensures
        r == full(out, zero, subtract, half_carry, carry),
{
    Alu8Result {
        out: Some(out),
        zero: Some(zero),
        subtract: Some(subtract),
        half_carry: Some(half_carry),
        carry: Some(carry),
    }
}

/// The result of a rotation or a shift.
fn make_shifted(out: u8, carry: bool, clear_zero: bool) -> (r: Alu8Result)
    ensures
        r == shifted(out, carry, clear_zero),
{
    make_full(out, !clear_zero && out == 0, false, false, carry)
}

/// Adjusts `x` to binary-coded decimal.
pub fn decimal_adjust(x: u8, n: bool, h: bool, c: bool) -> (r: Alu8Result)
    ensures
        r == decimal_adjust_spec(x, n, h, c),
{
    let mut carry = None;
    let mut out: i16 = x as i16;
    if n {
        if h {
            out -= 6;
        }
        if c {
            out -= 0x60;
        }
    } else {
        if out % 16 > 9 || h {
            out += 6;
        }
        if out / 16 > 9 || c {
            out += 0x60;
            carry = Some(true);
        }
        out = out % 256;
    }
    let out = wrap(out);
    Alu8Result { out: Some(out), zero: Some(out == 0), subtract: None, half_carry: Some(false), carry }
}

/// The additions and subtractions.
fn alu8_arithmetic(op: Alu8, x: u8, y: u8, c: bool) -> (r: Alu8Result)
    requires
        op is Add || op is AddWithCarry || op is Sub || op is SubWithCarry || op is Compare
            || op is Increment || op is Decrement,
    ensures
        r == alu8_spec(op, x, y, false, false, c),
{
    let cin: i16 = if c {
        1
    } else {
        0
    };
    let wx = x as i16;
    let wy = y as i16;
    match op {
        Alu8::Add => {
            let out = wrap(wx + wy);
            make_full(out, out == 0, false, x % 16 + y % 16 > 15, wx + wy > 255)
        },
        Alu8::AddWithCarry => {
            let out = wrap(wx + wy + cin);
            make_full(out, out == 0, false, wx % 16 + wy % 16 + cin > 15, wx + wy + cin > 255)
        },
        Alu8::Compare => Alu8Result {
            out: None,
            zero: Some(x == y),
            subtract: Some(true),
            half_carry: Some(x % 16 < y % 16),
            carry: Some(x < y),
        },
        Alu8::Decrement => Alu8Result {
            out: Some(wrap(wx - 1)),
            zero: Some(x == 1),
            subtract: Some(true),
            half_carry: Some(x % 16 == 0),
            carry: None,
        },
        Alu8::Increment => Alu8Result {
            out: Some(wrap(wx + 1)),
            zero: Some(x == 255),
            subtract: Some(false),
            half_carry: Some(x % 16 == 15),
            carry: None,
        },
        Alu8::Sub => make_full(wrap(wx - wy), x == y, true, x % 16 < y % 16, x < y),
        _ => {
            let out = wrap(wx - wy - cin);
            make_full(out, out == 0, true, wx % 16 < wy % 16 + cin, wx < wy + cin)
        },
    }
}

/// The rotations, the shifts and the swap.
fn alu8_shift(op: Alu8, x: u8, c: bool) -> (r: Alu8Result)
    requires
        op is RotateLeft || op is RotateLeftCarry || op is RotateRight || op is RotateRightCarry
            || op is ShiftLeftArithmetic || op is ShiftRightArithmetic || op is ShiftRightLogical
            || op is Swap,
    ensures
        r == alu8_spec(op, x, 0, false, false, c),
{
    let cin: u8 = if c {
        1
    } else {
        0
    };
    let wx = x as i16;
    let top: u8 = if x >= 128 {
        1
    } else {
        0
    };
    match op {
        Alu8::RotateLeft(clear_zero) => make_shifted(wrap(2 * wx + cin as i16), x >= 128, clear_zero),
        Alu8::RotateLeftCarry(clear_zero) => make_shifted(
            wrap(2 * wx + top as i16),
            x >= 128,
            clear_zero,
        ),
        Alu8::RotateRight(clear_zero) => make_shifted(x / 2 + 128 * cin, x % 2 == 1, clear_zero),
        Alu8::RotateRightCarry(clear_zero) => make_shifted(
            x / 2 + 128 * (x % 2),
            x % 2 == 1,
            clear_zero,
        ),
        Alu8::ShiftLeftArithmetic => make_shifted(wrap(2 * wx), x >= 128, false),
        Alu8::ShiftRightArithmetic => make_shifted(x / 2 + 128 * top, x % 2 == 1, false),
        Alu8::ShiftRightLogical => make_shifted(x / 2, x % 2 == 1, false),
        _ => make_full((x % 16) * 16 + x / 16, x == 0, false, false, false),
    }
}

/// The logic operations and the operations on single bits.
fn alu8_logic(op: Alu8, x: u8, y: u8) -> (r: Alu8Result)
    requires
        op is And || op is Or || op is Xor || op is Complement || op is SetBit || op is ResetBit
            || op is TestBit,
    ensures
        r == alu8_spec(op, x, y, false, false, false),
{
    let none = Alu8Result { out: None, zero: None, subtract: None, half_carry: None, carry: None };
    match op {
        Alu8::And => {
            let out = x & y;
            make_full(out, out == 0, false, true, false)
        },
        Alu8::Or => {
            let out = x | y;
            make_full(out, out == 0, false, false, false)
        },
        Alu8::Xor => {
            let out = x ^ y;
            make_full(out, out == 0, false, false, false)
        },
        Alu8::Complement => Alu8Result {
            out: Some(255 - x),
            zero: None,
            subtract: Some(true),
            half_carry: Some(true),
            carry: None,
        },
        Alu8::ResetBit => Alu8Result { out: Some(x & !weight_of(y)), ..none },
        Alu8::SetBit => Alu8Result { out: Some(x | weight_of(y)), ..none },
        _ => Alu8Result {
            out: None,
            zero: Some(x & weight_of(y) == 0),
            subtract: Some(false),
            half_carry: Some(true),
            carry: None,
        },
    }
}

/// Computes an operation of the 8-bit ALU.
pub fn alu8(op: Alu8, x: u8, y: u8, n: bool, h: bool, c: bool) -> (r: Alu8Result)
    ensures
        r == alu8_spec(op, x, y, n, h, c),
{
    match op {
        Alu8::Add
        | Alu8::AddWithCarry
        | Alu8::Sub
        | Alu8::SubWithCarry
        | Alu8::Compare
        | Alu8::Increment
        | Alu8::Decrement => alu8_arithmetic(op, x, y, c),
        Alu8::RotateLeft(_)
        | Alu8::RotateLeftCarry(_)
        | Alu8::RotateRight(_)
        | Alu8::RotateRightCarry(_)
        | Alu8::ShiftLeftArithmetic
        | Alu8::ShiftRightArithmetic
        | Alu8::ShiftRightLogical
        | Alu8::Swap => alu8_shift(op, x, c),
        Alu8::And
        | Alu8::Or
        | Alu8::Xor
        | Alu8::Complement
        | Alu8::SetBit
        | Alu8::ResetBit
        | Alu8::TestBit => alu8_logic(op, x, y),
        Alu8::DecimalAdjust => decimal_adjust(x, n, h, c),
        Alu8::ClearCarryFlag => Alu8Result {
            out: None,
            zero: None,
            subtract: Some(false),
            half_carry: Some(false),
            carry: Some(!c),
        },
        Alu8::SetCarryFlag => Alu8Result {
            out: None,
            zero: None,
            subtract: Some(false),
            half_carry: Some(false),
            carry: Some(true),
        },
        Alu8::Unknown => Alu8Result {
            out: None,
            zero: None,
            subtract: None,
            half_carry: None,
            carry: None,
        },
    }
}

/// The byte that stands for a signed number.
pub open spec fn byte_of(v: i8) -> u8 {
    if v < 0 {
        (v + 256) as u8
    } else {
        v as u8
    }
}

/// The signed number that a byte stands for.
pub open spec fn signed_of(b: u8) -> i8 {
    if b < 128 {
        b as i8
    } else {
        (b - 256) as i8
    }
}

/// The byte that stands for a signed number.
pub fn to_byte(v: i8) -> (b: u8)
    ensures
        b == byte_of(v),
{
    if v < 0 {
        (v as i16 + 256) as u8
    } else {
        v as u8
    }
}

/// The signed number that a byte stands for.
pub fn to_signed(b: u8) -> (v: i8)
    ensures
        v == signed_of(b),
{
    if b < 128 {
        b as i8
    } else {
        (b as i16 - 256) as i8
    }
}

/// A sum or a difference of words brought back into a word.
pub open spec fn wrap16(v: int) -> u16 {
    if v < 0 {
        (v + 0x1_0000) as u16
    } else if v > 0xFFFF {
        (v - 0x1_0000) as u16
    } else {
        v as u16
    }
}

/// Brings a sum or a difference of words back into a word.
pub fn wrap_word(v: i32) -> (r: u16)
    requires
        -0x1_0000 <= v <= 0x1_FFFF,
    ensures
        r == wrap16(v as int),
{
    if v < 0 {
        (v + 0x1_0000) as u16
    } else if v > 0xFFFF {
        (v - 0x1_0000) as u16
    } else {
        v as u16
    }
}

/// The sum of two words: no zero flag, half carry out of bit 11, carry out of bit
/// 15.
pub open spec fn add16_spec(x: u16, y: u16) -> Alu16Result {
    Alu16Result {
        out: Some(wrap16(x + y)),
        zero: None,
        subtract: Some(false),
        half_carry: Some(x % 0x1000 + y % 0x1000 > 0xFFF),
        carry: Some(x + y > 0xFFFF),
    }
}

/// The sum of a word and a signed byte: zero flag off, half carry and carry as in
/// the addition of the byte to the low byte of the word.
pub open spec fn add_signed_spec(x: u16, imm: i8) -> Alu16Result {
    Alu16Result {
        out: Some(wrap16(x + imm)),
        zero: Some(false),
        subtract: Some(false),
        half_carry: Some(x % 16 + byte_of(imm) % 16 > 15),
        carry: Some(x % 256 + byte_of(imm) > 255),
    }
}

/// Adds two words.
pub fn add16(x: u16, y: u16) -> (r: Alu16Result)
    ensures
        r == add16_spec(x, y),
{
    let sum = x as i32 + y as i32;
    Alu16Result {
        out: Some(wrap_word(sum)),
        zero: None,
        subtract: Some(false),
        half_carry: Some(x % 0x1000 + y % 0x1000 > 0xFFF),
        carry: Some(sum > 0xFFFF),
    }
}

/// Adds a signed byte to a word.
pub fn add_signed(x: u16, imm: i8) -> (r: Alu16Result)
    ensures
        r == add_signed_spec(x, imm),
{
    let b = to_byte(imm);
    Alu16Result {
        out: Some(wrap_word(x as i32 + imm as i32)),
        zero: Some(false),
        subtract: Some(false),
        half_carry: Some(x % 16 + (b % 16) as u16 > 15),
        carry: Some(x % 256 + b as u16 > 255),
    }
}

} // verus!
