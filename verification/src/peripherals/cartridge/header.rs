//! The header of a cartridge ROM.

use crate::util::{be_value, bit, bit_set, bytes_to_u16, bytes_to_u32};
use vstd::prelude::*;

verus! {

/// The first byte of the logo bitmap.
pub const LOGO_START: usize = 0x0104;

/// The number of bytes of the logo bitmap.
pub const LOGO_LEN: usize = 48;

/// The first byte of the title.
pub const TITLE_START: usize = 0x0134;

/// The number of bytes of the title.
pub const TITLE_LEN: usize = 15;

/// The first byte of the manufacturer code.
pub const MANUFACTURER_START: usize = 0x013F;

/// The byte that marks a game for the colour model.
pub const GCB: usize = 0x0143;

/// The first of the two bytes of the new licensee code.
pub const NEW_LICENSEE_START: usize = 0x0144;

/// The byte that marks support for the Super Game Boy.
pub const SGB: usize = 0x0146;

/// The byte that names the cartridge's hardware.
pub const CARTRIDGE_TYPE: usize = 0x0147;

/// The byte that gives the size of the ROM.
pub const ROM_SIZE: usize = 0x0148;

/// The byte that gives the size of the external RAM.
pub const RAM_SIZE: usize = 0x0149;

/// The byte that is zero for a cartridge sold in Japan only.
pub const DESTINATION_CODE: usize = 0x014A;

/// The byte of the old licensee code.
pub const LICENSEE: usize = 0x014B;

/// The byte of the ROM's version.
pub const ROM_VERSION: usize = 0x014C;

/// The byte of the header checksum.
pub const HEADER_CHECKSUM: usize = 0x014D;

/// The first byte of the global checksum.
pub const GLOBAL_CHECKSUM: usize = 0x014E;

/// The number of header bytes, from the title on, that the header checksum
/// covers.
pub const CHECKED_LEN: usize = 25;

/// The number of bytes of a ROM up to the end of its header.
pub const HEADER_END: usize = 0x0150;

/// The hardware in a cartridge.
#[derive(Debug, Copy, Clone, PartialEq, Eq, Structural)]
pub enum CartridgeType {
    Rom,
    Mbc1,
    Mbc1Ram,
    Mbc1RamBattery,
    Mbc2,
    Mbc2Battery,
    RomRam,
    RomRamBattery,
    Mmm01,
    Mmm01Ram,
    Mmm01RamBattery,
    Mbc3TimerBattery,
    Mbc3TimerBatteryRam,
    Mbc3,
    Mbc3Ram,
    Mbc3RamBattery,
    Mbc5,
    Mbc5Ram,
    Mbc5RamBattery,
    Mbc5Rumble,
    Mbc5RumbleRam,
    Mbc5RumbleRamBattery,
    Mbc6,
    Mbc7SensorRumbleRamBattery,
    PocketCamera,
    BandaiTama5,
    HuC3,
    HuC1RamBattery,
}

/// Who published the cartridge.
#[derive(Debug, Copy, Clone, PartialEq, Eq, Structural)]
pub enum Licensee {
    Unlicensed,
    Nintendo,
    /// Nintendo, by the new code.
    NintendoNew,
    /// Another publisher, by the old code.
    Other(u16),
    /// Another publisher, by the new code.
    OtherExtended(u16),
}

/// What the header of a ROM says of its cartridge.
#[derive(Debug, Copy, Clone, PartialEq, Eq)]
pub struct Header {
    pub nintendo: [u8; 48],
    pub title: [u8; 15],
    pub manufacturer: u32,
    pub gcb: bool,
    pub licensee: Licensee,
    pub sgb: bool,
    pub cartridge_type: CartridgeType,
    pub rom_size: u8,
    pub ram_size: u8,
    pub destination_code: bool,
    pub rom_version: u8,
    pub header_checksum: u8,
    pub global_checksum: u8,
}

/// The hardware that a type byte names, if it names any.
pub open spec fn cartridge_type_spec(byte: u8) -> Option<CartridgeType> {
    if byte == 0x00 {
        Some(CartridgeType::Rom)
    } else if byte == 0x01 {
        Some(CartridgeType::Mbc1)
    } else if byte == 0x02 {
        Some(CartridgeType::Mbc1Ram)
    } else if byte == 0x03 {
        Some(CartridgeType::Mbc1RamBattery)
    } else if byte == 0x05 {
        Some(CartridgeType::Mbc2)
    } else if byte == 0x06 {
        Some(CartridgeType::Mbc2Battery)
    } else if byte == 0x08 {
        Some(CartridgeType::RomRam)
    } else if byte == 0x09 {
        Some(CartridgeType::RomRamBattery)
    } else if byte == 0x0B {
        Some(CartridgeType::Mmm01)
    } else if byte == 0x0C {
        Some(CartridgeType::Mmm01Ram)
    } else if byte == 0x0D {
        Some(CartridgeType::Mmm01RamBattery)
    } else if byte == 0x0F {
        Some(CartridgeType::Mbc3TimerBattery)
    } else if byte == 0x10 {
        Some(CartridgeType::Mbc3TimerBatteryRam)
    } else if byte == 0x11 {
        Some(CartridgeType::Mbc3)
    } else if byte == 0x12 {
        Some(CartridgeType::Mbc3Ram)
    } else if byte == 0x13 {
        Some(CartridgeType::Mbc3RamBattery)
    } else if byte == 0x19 {
        Some(CartridgeType::Mbc5)
    } else if byte == 0x1A {
        Some(CartridgeType::Mbc5Ram)
    } else if byte == 0x1B {
        Some(CartridgeType::Mbc5RamBattery)
    } else if byte == 0x1C {
        Some(CartridgeType::Mbc5Rumble)
    } else if byte == 0x1D {
        Some(CartridgeType::Mbc5RumbleRam)
    } else if byte == 0x1E {
        Some(CartridgeType::Mbc5RumbleRamBattery)
    } else if byte == 0x20 {
        Some(CartridgeType::Mbc6)
    } else if byte == 0x22 {
        Some(CartridgeType::Mbc7SensorRumbleRamBattery)
    } else if byte == 0xFC {
        Some(CartridgeType::PocketCamera)
    } else if byte == 0xFD {
        Some(CartridgeType::BandaiTama5)
    } else if byte == 0xFE {
        Some(CartridgeType::HuC3)
    } else if byte == 0xFF {
        Some(CartridgeType::HuC1RamBattery)
    } else {
        None
    }
}

/// The publisher that the new licensee code names.
pub open spec fn extended_license_spec(bytes: Seq<u8>) -> Licensee {
    let code = be_value(
        bytes.subrange(NEW_LICENSEE_START as int, NEW_LICENSEE_START + 2),
        0x1_0000,
    );
    if code == 0x3031 {
        Licensee::NintendoNew
    } else {
        Licensee::OtherExtended(code as u16)
    }
}

/// The publisher that the header names: by the old code, unless that is 0x33 and
/// points to the new one.
pub open spec fn license_spec(bytes: Seq<u8>) -> Licensee {
    let code = bytes[LICENSEE as int];
    if code == 0x00 {
        Licensee::Unlicensed
    } else if code == 0x01 {
        Licensee::Nintendo
    } else if code == 0x33 {
        extended_license_spec(bytes)
    } else {
        Licensee::Other(code as u16)
    }
}

/// The checksum of the first `n` of the header bytes that the header checksum
/// covers: each byte, and one more, is taken off a sum that starts at zero and
/// wraps at eight bits.
pub open spec fn checksum_spec(bytes: Seq<u8>, n: nat) -> u8
    decreases n,
{
    if n == 0 {
        0
    } else {
        ((checksum_spec(bytes, (n - 1) as nat) + 511 - bytes[TITLE_START + n - 1]) % 256) as u8
    }
}

/// Whether the header checksum of `bytes` is the checksum of its header.
pub open spec fn checksum_valid(bytes: Seq<u8>) -> bool {
    checksum_spec(bytes, CHECKED_LEN as nat) == bytes[HEADER_CHECKSUM as int]
}

/// Whether `bytes` holds a whole header that names a known kind of cartridge.
pub open spec fn parsable(bytes: Seq<u8>) -> bool {
    bytes.len() >= HEADER_END && cartridge_type_spec(bytes[CARTRIDGE_TYPE as int]) is Some
}

/// Decodes the byte that names the cartridge's hardware.
pub fn decode_cartridge_type(byte: u8) -> (r: Option<CartridgeType>)
    ensures
        r == cartridge_type_spec(byte),
{
    match byte {
        0x00 => Some(CartridgeType::Rom),
        0x01 => Some(CartridgeType::Mbc1),
        0x02 => Some(CartridgeType::Mbc1Ram),
        0x03 => Some(CartridgeType::Mbc1RamBattery),
        0x05 => Some(CartridgeType::Mbc2),
        0x06 => Some(CartridgeType::Mbc2Battery),
        0x08 => Some(CartridgeType::RomRam),
        0x09 => Some(CartridgeType::RomRamBattery),
        0x0B => Some(CartridgeType::Mmm01),
        0x0C => Some(CartridgeType::Mmm01Ram),
        0x0D => Some(CartridgeType::Mmm01RamBattery),
        0x0F => Some(CartridgeType::Mbc3TimerBattery),
        0x10 => Some(CartridgeType::Mbc3TimerBatteryRam),
        0x11 => Some(CartridgeType::Mbc3),
        0x12 => Some(CartridgeType::Mbc3Ram),
        0x13 => Some(CartridgeType::Mbc3RamBattery),
        0x19 => Some(CartridgeType::Mbc5),
        0x1A => Some(CartridgeType::Mbc5Ram),
        0x1B => Some(CartridgeType::Mbc5RamBattery),
        0x1C => Some(CartridgeType::Mbc5Rumble),
        0x1D => Some(CartridgeType::Mbc5RumbleRam),
        0x1E => Some(CartridgeType::Mbc5RumbleRamBattery),
        0x20 => Some(CartridgeType::Mbc6),
        0x22 => Some(CartridgeType::Mbc7SensorRumbleRamBattery),
        0xFC => Some(CartridgeType::PocketCamera),
        0xFD => Some(CartridgeType::BandaiTama5),
        0xFE => Some(CartridgeType::HuC3),
        0xFF => Some(CartridgeType::HuC1RamBattery),
        _ => None,
    }
}

/// Decodes the new licensee code.
pub fn decode_extended_license(bytes: &[u8]) -> (r: Licensee)
    requires
        bytes.len() >= HEADER_END,
    ensures
        r == extended_license_spec(bytes@),
{
    let code = bytes_to_u16(slice_subrange(bytes, NEW_LICENSEE_START, NEW_LICENSEE_START + 2));
    if code == 0x3031 {
        Licensee::NintendoNew
    } else {
        Licensee::OtherExtended(code)
    }
}

/// Decodes the licensee codes.
pub fn decode_license(bytes: &[u8]) -> (r: Licensee)
    requires
        bytes.len() >= HEADER_END,
    ensures
        r == license_spec(bytes@),
{
    match bytes[LICENSEE] {
        0x00 => Licensee::Unlicensed,
        0x01 => Licensee::Nintendo,
        0x33 => decode_extended_license(bytes),
        code => Licensee::Other(code as u16),
    }
}

/// Whether the pixel in column `x` of row `y` of the logo is set. The bitmap is
/// stored most significant bit first, as two bands of twelve blocks of four by
/// four pixels, each block row by row.
pub open spec fn logo_pixel(bytes: Seq<u8>, x: int, y: int) -> bool {
    let k = (((y / 4) * 12 + x / 4) * 4 + y % 4) * 4 + x % 4;
    k / 8 < bytes.len() && bit(bytes[k / 8] as int, 7 - k % 8)
}

/// Unpacks the logo into its eight rows of 48 pixels.
pub fn draw_nintendo(bytes: &[u8]) -> (bitmap: [[bool; 48]; 8])
    ensures
        forall|x: int, y: int|
            0 <= x < 48 && 0 <= y < 8 ==> bitmap[y][x] == logo_pixel(bytes@, x, y),
{
    let mut bitmap = [[false; 48]; 8];
    let mut y: usize = 0;
    while y < 8
        invariant
            y <= 8,
            forall|x: int, j: int|
                0 <= x < 48 && 0 <= j < y ==> bitmap[j][x] == logo_pixel(bytes@, x, j),
        decreases 8 - y,
    {
        let mut row = [false; 48];
        let mut x: usize = 0;
        while x < 48
            invariant
                x <= 48,
                y < 8,
                forall|i: int| 0 <= i < x ==> row[i] == logo_pixel(bytes@, i, y as int),
            decreases 48 - x,
        {
            let k: usize = (((y / 4) * 12 + x / 4) * 4 + y % 4) * 4 + x % 4;
            let v = k / 8 < bytes.len() && bit_set(bytes[k / 8], (7 - k % 8) as u8);
            row[x] = v;
            x += 1;
        }
        bitmap[y] = row;
        y += 1;
    }
    bitmap
}

/// The part of `bytes` from `from` up to `to`.
fn slice_subrange(bytes: &[u8], from: usize, to: usize) -> (r: &[u8])
    requires
        from <= to <= bytes.len(),
    ensures
        r@ == bytes@.subrange(from as int, to as int),
{
    vstd::slice::slice_subrange(bytes, from, to)
}

/// `N` bytes of `bytes` from `from` on.
fn copy_bytes<const N: usize>(bytes: &[u8], from: usize) -> (r: [u8; N])
    requires
        from + N <= bytes.len(),
    ensures
        r@ == bytes@.subrange(from as int, from + N),
{
    let mut r = [0u8; N];
    let mut i: usize = 0;
    while i < N
        invariant
            i <= N,
            from + N <= bytes.len(),
            forall|j: int| 0 <= j < i ==> r[j] == bytes[from + j],
        decreases N - i,
    {
        r[i] = bytes[from + i];
        i += 1;
    }
    proof {
        assert(r@ =~= bytes@.subrange(from as int, from + N));
    }
    r
}

impl Header {
    /// The header that `bytes`, the start of a ROM, holds.
    pub open spec fn parsed(bytes: Seq<u8>, h: Header) -> bool {
        &&& h.nintendo@ == bytes.subrange(LOGO_START as int, LOGO_START + LOGO_LEN)
        &&& h.title@ == bytes.subrange(TITLE_START as int, TITLE_START + TITLE_LEN)
        &&& h.manufacturer == be_value(
            bytes.subrange(MANUFACTURER_START as int, MANUFACTURER_START + 4),
            0x1_0000_0000,
        )
        &&& h.gcb == (bytes[GCB as int] != 0)
        &&& h.licensee == license_spec(bytes)
        &&& h.sgb == (bytes[SGB as int] != 0)
        &&& Some(h.cartridge_type) == cartridge_type_spec(bytes[CARTRIDGE_TYPE as int])
        &&& h.rom_size == bytes[ROM_SIZE as int]
        &&& h.ram_size == bytes[RAM_SIZE as int]
        &&& h.destination_code == (bytes[DESTINATION_CODE as int] == 0)
        &&& h.rom_version == bytes[ROM_VERSION as int]
        &&& h.header_checksum == bytes[HEADER_CHECKSUM as int]
        &&& h.global_checksum == bytes[GLOBAL_CHECKSUM as int]
    }

    /// The checksum of the header of a ROM, to hold against the header checksum
    /// that the header gives.
    pub fn checksum(bytes: &[u8]) -> (sum: u8)
        requires
            bytes.len() >= HEADER_END,
        ensures
            sum == checksum_spec(bytes@, CHECKED_LEN as nat),
            (sum == bytes[HEADER_CHECKSUM as int]) == checksum_valid(bytes@),
    {
        let mut sum: u8 = 0;
        let mut n: usize = 0;
        while n < CHECKED_LEN
            invariant
                n <= CHECKED_LEN,
                bytes.len() >= HEADER_END,
                sum == checksum_spec(bytes@, n as nat),
            decreases CHECKED_LEN - n,
        {
            sum = ((sum as u16 + 511 - bytes[TITLE_START + n] as u16) % 256) as u8;
            n += 1;
        }
        sum
    }

    /// Whether `bytes` holds a whole header that names a known kind of cartridge.
    pub fn valid(bytes: &[u8]) -> (r: bool)
        ensures
            r == parsable(bytes@),
    {
        bytes.len() >= HEADER_END && decode_cartridge_type(bytes[CARTRIDGE_TYPE]).is_some()
    }

    /// Reads the header of a ROM.
    pub fn new(bytes: &[u8]) -> (h: Self)
        requires
            parsable(bytes@),
        ensures
            Header::parsed(bytes@, h),
    {
        let cartridge_type = match decode_cartridge_type(bytes[CARTRIDGE_TYPE]) {
            Some(t) => t,
            None => CartridgeType::Rom,
        };
        Self {
            nintendo: copy_bytes::<48>(bytes, LOGO_START),
            title: copy_bytes::<15>(bytes, TITLE_START),
            manufacturer: bytes_to_u32(
                slice_subrange(bytes, MANUFACTURER_START, MANUFACTURER_START + 4),
            ),
            gcb: bytes[GCB] != 0,
            licensee: decode_license(bytes),
            sgb: bytes[SGB] != 0,
            cartridge_type,
            rom_size: bytes[ROM_SIZE],
            ram_size: bytes[RAM_SIZE],
            destination_code: bytes[DESTINATION_CODE] == 0,
            rom_version: bytes[ROM_VERSION],
            header_checksum: bytes[HEADER_CHECKSUM],
            global_checksum: bytes[GLOBAL_CHECKSUM],
        }
    }

    /// Reads the header of a ROM, if it holds a whole one that names a known kind
    /// of cartridge.
    pub fn try_new(bytes: &[u8]) -> (r: Option<Self>)
        ensures
            r is Some <==> parsable(bytes@),
            r is Some ==> Header::parsed(bytes@, r->Some_0),
    {
        if Header::valid(bytes) {
            Some(Header::new(bytes))
        } else {
            None
        }
    }
}

} // verus!
