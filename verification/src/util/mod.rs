//! Helpers for assembling integers from big-endian bytes.

use vstd::prelude::*;

verus! {

/// The big-endian value of `bytes`, reduced modulo `modulus`.
pub open spec fn be_value(bytes: Seq<u8>, modulus: int) -> int
    decreases bytes.len(),
{
    if bytes.len() == 0 {
        0
    } else {
        (be_value(bytes.drop_last(), modulus) * 256 + bytes.last()) % modulus
    }
}

/// Reads `bytes` as a big-endian number, keeping its low 32 bits.
pub fn bytes_to_u32(bytes: &[u8]) -> (outp: u32)
    ensures
        outp == be_value(bytes@, 0x1_0000_0000),
{
    let mut outp: u32 = 0;
    let mut i: usize = 0;
    while i < bytes.len()
        invariant
            i <= bytes.len(),
            outp == be_value(bytes@.take(i as int), 0x1_0000_0000),
        decreases bytes.len() - i,
    {
        proof {
            assert(bytes@.take(i + 1).drop_last() =~= bytes@.take(i as int));
        }
        outp = ((outp as u64 * 256 + bytes[i] as u64) % 0x1_0000_0000) as u32;
        i += 1;
    }
    proof {
        assert(bytes@.take(i as int) =~= bytes@);
    }
    outp
}

/// Reads `bytes` as a big-endian number, keeping its low 16 bits.
pub fn bytes_to_u16(bytes: &[u8]) -> (outp: u16)
    ensures
        outp == be_value(bytes@, 0x1_0000),
{
    let mut outp: u16 = 0;
    let mut i: usize = 0;
    while i < bytes.len()
        invariant
            i <= bytes.len(),
            outp == be_value(bytes@.take(i as int), 0x1_0000),
        decreases bytes.len() - i,
    {
        proof {
            assert(bytes@.take(i + 1).drop_last() =~= bytes@.take(i as int));
        }
        outp = ((outp as u32 * 256 + bytes[i] as u32) % 0x1_0000) as u16;
        i += 1;
    }
    proof {
        assert(bytes@.take(i as int) =~= bytes@);
    }
    outp
}

/// Two bytes, high byte first, as one 16-bit number.
pub open spec fn word(high: u8, low: u8) -> u16 {
    (high * 256 + low) as u16
}

/// Joins a high and a low byte into a 16-bit number.
pub fn make_word(high: u8, low: u8) -> (w: u16)
    ensures
        w == word(high, low),
        w / 256 == high,
        w % 256 == low,
{
    high as u16 * 256 + low as u16
}

/// The value of a byte read as a two's-complement number.
pub open spec fn signed(b: u8) -> int {
    if b < 128 {
        b as int
    } else {
        b - 256
    }
}

/// Whether bit `n` of `v` is set.
pub open spec fn bit(v: int, n: int) -> bool {
    (v / pow2_const(n)) % 2 == 1
}

/// Two to the power `n`, for the bit positions of a 16-bit word.
pub open spec fn pow2_const(n: int) -> int {
    if n <= 0 {
        1
    } else if n == 1 {
        2
    } else if n == 2 {
        4
    } else if n == 3 {
        8
    } else if n == 4 {
        16
    } else if n == 5 {
        32
    } else if n == 6 {
        64
    } else if n == 7 {
        128
    } else if n == 8 {
        256
    } else if n == 9 {
        512
    } else if n == 10 {
        1024
    } else if n == 11 {
        2048
    } else if n == 12 {
        4096
    } else if n == 13 {
        8192
    } else if n == 14 {
        16384
    } else {
        32768
    }
}

/// Whether bit `n` of `byte` is set.
pub fn bit_set(byte: u8, n: u8) -> (r: bool)
    requires
        n < 8,
    ensures
        r == bit(byte as int, n as int),
{
    let weight: u8 = match n {
        0 => 1,
        1 => 2,
        2 => 4,
        3 => 8,
        4 => 16,
        5 => 32,
        6 => 64,
        _ => 128,
    };
    (byte / weight) % 2 == 1
}

/// A byte is the sum of its bits, each weighted by its place.
pub proof fn lemma_byte_bits(v: u8)
    by (bit_vector)
    ensures
        (if (v / 128) % 2 == 1 { 128u8 } else { 0u8 }) + (if (v / 64) % 2 == 1 { 64u8 } else { 0u8 }) + (
        if (v / 32) % 2 == 1 { 32u8 } else { 0u8 }) + (if (v / 16) % 2 == 1 { 16u8 } else { 0u8 }) + (
        if (v / 8) % 2 == 1 { 8u8 } else { 0u8 }) + (if (v / 4) % 2 == 1 { 4u8 } else { 0u8 }) + (
        if (v / 2) % 2 == 1 { 2u8 } else { 0u8 }) + (if v % 2 == 1 { 1u8 } else { 0u8 }) == v,
        (v / 32) * 32 + (if (v / 16) % 2 == 1 { 16u8 } else { 0u8 }) + (if (v / 8) % 2 == 1 { 8u8 } else { 0u8 })
            + (if (v / 4) % 2 == 1 { 4u8 } else { 0u8 }) + (if (v / 2) % 2 == 1 { 2u8 } else { 0u8 }) + (
        if v % 2 == 1 { 1u8 } else { 0u8 }) == v,
        (if (v / 16) % 2 == 1 { 16u8 } else { 0u8 }) + (if (v / 8) % 2 == 1 { 8u8 } else { 0u8 }) + (
        if (v / 4) % 2 == 1 { 4u8 } else { 0u8 }) + (if (v / 2) % 2 == 1 { 2u8 } else { 0u8 }) + (
        if v % 2 == 1 { 1u8 } else { 0u8 }) == v % 32,
{
}

} // verus!
