use wolfwig::peripherals::cartridge::header::{
    decode_cartridge_type, draw_nintendo, CartridgeType, Header, Licensee,
};
use wolfwig::peripherals::cartridge::mbc_one::MbcOne;
use wolfwig::peripherals::cartridge::rom_cart::RomCart;
use wolfwig::peripherals::cartridge::{supported, Cart, Cartridge};

fn rom_with_header() -> Vec<u8> {
    let mut rom = vec![0u8; 0x8000];
    for (i, byte) in rom[0x0104..0x0134].iter_mut().enumerate() {
        *byte = i as u8;
    }
    rom[0x0134..0x013C].copy_from_slice(b"TESTGAME");
    rom[0x013F..0x0143].copy_from_slice(&[0x41, 0x42, 0x43, 0x44]);
    rom[0x0143] = 0x80;
    rom[0x0144] = 0x30;
    rom[0x0145] = 0x31;
    rom[0x0146] = 0x03;
    rom[0x0147] = 0x01;
    rom[0x0148] = 0x02;
    rom[0x0149] = 0x03;
    rom[0x014A] = 0x01;
    rom[0x014B] = 0x33;
    rom[0x014C] = 0x07;
    rom[0x014D] = 0xAB;
    rom[0x014E] = 0xCD;
    rom
}

#[test]
fn the_header_is_read_field_by_field() {
    let rom = rom_with_header();
    assert!(Header::valid(&rom));
    let header = Header::new(&rom);
    assert_eq!(&header.nintendo[..], &rom[0x0104..0x0134]);
    assert_eq!(&header.title[..8], b"TESTGAME");
    assert_eq!(&header.title[8..11], &[0, 0, 0]);
    assert_eq!(&header.title[11..], b"ABCD");
    assert_eq!(header.manufacturer, 0x4142_4344);
    assert!(header.gcb);
    assert_eq!(header.licensee, Licensee::NintendoNew);
    assert!(header.sgb);
    assert_eq!(header.cartridge_type, CartridgeType::Mbc1);
    assert_eq!(header.rom_size, 2);
    assert_eq!(header.ram_size, 3);
    assert!(!header.destination_code);
    assert_eq!(header.rom_version, 7);
    assert_eq!(header.header_checksum, 0xAB);
    assert_eq!(header.global_checksum, 0xCD);
    assert_eq!(Header::try_new(&rom), Some(header));
}

#[test]
fn licensee_codes() {
    let mut rom = rom_with_header();
    for (old, new, expected) in [
        (0x00u8, [0x30u8, 0x31], Licensee::Unlicensed),
        (0x01, [0x30, 0x31], Licensee::Nintendo),
        (0x33, [0x30, 0x31], Licensee::NintendoNew),
        (0x33, [0x41, 0x42], Licensee::OtherExtended(0x4142)),
        (0x79, [0x30, 0x31], Licensee::Other(0x79)),
    ] {
        rom[0x014B] = old;
        rom[0x0144] = new[0];
        rom[0x0145] = new[1];
        assert_eq!(Header::new(&rom).licensee, expected);
    }
}

#[test]
fn a_rom_without_a_whole_header_has_none() {
    let rom = rom_with_header();
    assert_eq!(Header::try_new(&rom[..0x014F]), None);
    assert!(!Header::valid(&rom[..0x014F]));
    assert!(Header::try_new(&rom[..0x0150]).is_some());
    assert_eq!(Header::try_new(&[]), None);
}

#[test]
fn an_unknown_kind_of_cartridge_has_no_header() {
    let mut rom = rom_with_header();
    rom[0x0147] = 0x04;
    assert_eq!(Header::try_new(&rom), None);
    assert_eq!(decode_cartridge_type(0x04), None);
    assert_eq!(decode_cartridge_type(0x00), Some(CartridgeType::Rom));
    assert_eq!(decode_cartridge_type(0x13), Some(CartridgeType::Mbc3RamBattery));
    assert_eq!(decode_cartridge_type(0x22), Some(CartridgeType::Mbc7SensorRumbleRamBattery));
    assert_eq!(decode_cartridge_type(0xFF), Some(CartridgeType::HuC1RamBattery));
    let known = (0..=255u8).filter(|&byte| decode_cartridge_type(byte).is_some()).count();
    assert_eq!(known, 28);
}

#[test]
fn the_logo_is_unpacked_block_by_block() {
    let mut logo = [0u8; 48];
    // The first byte holds the first two rows of the first block.
    logo[0] = 0b1000_0001;
    // The second byte holds its last two rows.
    logo[1] = 0b0100_0000;
    // Byte 2 starts the second block, byte 24 the lower band.
    logo[2] = 0b1111_0000;
    logo[24] = 0b0000_1000;
    logo[47] = 0b0000_0001;
    let bitmap = draw_nintendo(&logo);
    let set: Vec<(usize, usize)> = (0..8)
        .flat_map(|y| (0..48).map(move |x| (x, y)))
        .filter(|&(x, y)| bitmap[y][x])
        .collect();
    assert_eq!(
        set,
        vec![(0, 0), (4, 0), (5, 0), (6, 0), (7, 0), (3, 1), (1, 2), (0, 5), (47, 7)]
    );
    assert_eq!(draw_nintendo(&[0xFF]).iter().flatten().filter(|&&bit| bit).count(), 8);
    assert_eq!(draw_nintendo(&[]), [[false; 48]; 8]);
}

#[test]
fn only_two_mappers_are_supported() {
    let mut rom = rom_with_header();
    for (kind, expected) in [(0x00u8, true), (0x01, true), (0x02, false), (0x13, false), (0xFF, false)] {
        rom[0x0147] = kind;
        assert_eq!(supported(&rom), expected);
    }
    assert!(!supported(&vec![0; 0x0147]));
    assert!(supported(&vec![0; 0x0148]));
}

#[test]
fn the_cartridge_is_chosen_by_the_header() {
    let mut rom = rom_with_header();
    rom[0x0147] = 0x00;
    assert!(matches!(wolfwig::peripherals::cartridge::new(vec![], rom.clone()), Cart::Rom(_)));
    rom[0x0147] = 0x01;
    assert!(matches!(wolfwig::peripherals::cartridge::new(vec![], rom), Cart::Mbc1(_)));
}

#[test]
fn a_rom_cartridge_ignores_writes_to_its_rom() {
    let mut cart = RomCart::new(vec![0x11; 0x100], vec![0x22; 0x8000]);
    assert_eq!(cart.read(0x0000), 0x11);
    assert_eq!(cart.read(0x00FF), 0x11);
    assert_eq!(cart.read(0x0100), 0x22);
    cart.write(0x2000, 5);
    cart.write(0x0100, 5);
    assert_eq!(cart.read(0x4000), 0x22);
    assert_eq!(cart.read(0x0100), 0x22);
    cart.write(0xFF50, 0x80);
    assert_eq!(cart.read(0x0000), 0x22);
    assert_eq!(cart.read(0xFF50), 1);
    cart.write(0xFF50, 0);
    assert_eq!(cart.read(0x0000), 0x11);
}

#[test]
fn a_short_boot_rom_reads_ff_behind_its_end() {
    let cart = RomCart::new(vec![0x11; 0x10], vec![0x22; 0x20]);
    assert_eq!(cart.read(0x000F), 0x11);
    assert_eq!(cart.read(0x0010), 0xFF);
    assert_eq!(cart.read(0x0100), 0xFF);
    let cart = MbcOne::new(vec![], vec![0x22; 0x20]);
    assert_eq!(cart.read(0x0000), 0xFF);
    assert_eq!(cart.read(0x4000), 0xFF);
    assert_eq!(cart.read(0xA000), 0xFF);
}

#[test]
fn the_mapper_starts_with_bank_one() {
    let mut rom = vec![0u8; 0x4000 * 3];
    rom[0x4000] = 1;
    rom[0x8000] = 2;
    let mut cart = MbcOne::new(vec![], rom);
    cart.write(0xFF50, 1);
    assert_eq!(cart.read(0x4000), 1);
    cart.write(0x2000, 2);
    assert_eq!(cart.read(0x4000), 2);
    cart.write(0x4000, 1);
    cart.write(0x6000, 1);
    assert_eq!(cart.read(0x4000), 2);
    cart.write(0x1FFF, 1);
    assert_eq!(cart.read(0x4000), 2);
}

#[test]
fn the_header_checksum_covers_title_to_version() {
    let mut rom = vec![0u8; 0x150];
    // 25 zeros: 25 times one is taken off.
    assert_eq!(Header::checksum(&rom), 0xE7);
    rom[0x0134] = 0x01;
    rom[0x014C] = 0x02;
    assert_eq!(Header::checksum(&rom), 0xE4);
    // Bytes outside the range do not count.
    rom[0x0133] = 0xFF;
    rom[0x014D] = 0xFF;
    assert_eq!(Header::checksum(&rom), 0xE4);
    rom[0x0140] = 0xFF;
    assert_eq!(Header::checksum(&rom), 0xE5);
    rom[0x014D] = 0xE5;
    assert_eq!(Header::new(&rom).header_checksum, Header::checksum(&rom));
}
