use wolfwig::cpu::decode::{
    decode, decode_alu16, decode_alu8, decode_bytes, decode_extended, decode_jump, decode_load,
    relative_dest, Address, Alu16, Alu16Data, Alu16Op, Alu8, Alu8Data, Alu8Op, Op,
};
use wolfwig::cpu::registers::{Flag, Reg16, Reg8};
use wolfwig::peripherals::joypad::fake_events::FakeEvents;
use wolfwig::peripherals::ppu::fake_display::FakeDisplay;
use wolfwig::peripherals::Peripherals;

const UNASSIGNED: [u8; 11] = [
    0xD3, 0xDB, 0xDD, 0xE3, 0xE4, 0xEB, 0xEC, 0xED, 0xF4, 0xFC, 0xFD,
];

fn bus_with_boot_program(program: &[u8]) -> Peripherals {
    let mut bootrom = vec![0u8; 0x100];
    bootrom[..program.len()].copy_from_slice(program);
    Peripherals::new(
        bootrom,
        vec![0; 0x1000],
        Box::new(FakeDisplay::new()),
        Box::new(FakeEvents::new()),
    )
}

#[test]
fn every_opcode_has_a_size_between_one_and_three() {
    for opcode in 0..=255u8 {
        let (op, size, cycles) = decode_bytes(opcode, 0, 0, 0);
        assert!((1..=3).contains(&size), "opcode {:#04x}", opcode);
        assert!(cycles <= 5, "opcode {:#04x}", opcode);
        let unknown = matches!(op, Op::Unknown(_));
        assert_eq!(unknown, UNASSIGNED.contains(&opcode), "opcode {:#04x}", opcode);
    }
}

#[test]
fn unknown_opcode_is_one_byte_and_no_cycles() {
    for opcode in UNASSIGNED {
        assert_eq!(decode_bytes(opcode, 0x12, 0x34, 0x4000), (Op::Unknown(opcode), 1, 0));
    }
}

#[test]
fn every_extended_opcode_is_an_alu_instruction_of_two_bytes() {
    for opcode in 0..=255u8 {
        let (op, size, cycles) = decode_bytes(0xCB, opcode, 0, 0);
        assert_eq!(size, 2);
        assert_eq!(cycles, if opcode % 8 == 6 { 4 } else { 2 });
        assert!(matches!(op, Op::Alu8(_)));
        assert_eq!(decode_extended(opcode), (op, size, cycles));
    }
}

#[test]
fn extended_opcodes_pick_operation_bit_and_register() {
    assert_eq!(
        decode_extended(0x7C).0,
        Op::Alu8(Alu8Op { op: Alu8::TestBit, dest: Alu8Data::Reg(Reg8::H), y: Alu8Data::Imm(7) })
    );
    assert_eq!(
        decode_extended(0x86).0,
        Op::Alu8(Alu8Op {
            op: Alu8::ResetBit,
            dest: Alu8Data::Addr(Reg16::HL),
            y: Alu8Data::Imm(0)
        })
    );
    assert_eq!(
        decode_extended(0xFF).0,
        Op::Alu8(Alu8Op { op: Alu8::SetBit, dest: Alu8Data::Reg(Reg8::A), y: Alu8Data::Imm(7) })
    );
    assert_eq!(
        decode_extended(0x11).0,
        Op::Alu8(Alu8Op {
            op: Alu8::RotateLeft(false),
            dest: Alu8Data::Reg(Reg8::C),
            y: Alu8Data::Ignore
        })
    );
    assert_eq!(
        decode_extended(0x37).0,
        Op::Alu8(Alu8Op { op: Alu8::Swap, dest: Alu8Data::Reg(Reg8::A), y: Alu8Data::Ignore })
    );
}

#[test]
fn short_rotations_force_the_zero_flag_off() {
    let rotation = |opcode| match decode_bytes(opcode, 0, 0, 0).0 {
        Op::Alu8(op) => op.op,
        other => panic!("{:?}", other),
    };
    assert_eq!(rotation(0x07), Alu8::RotateLeftCarry(true));
    assert_eq!(rotation(0x0F), Alu8::RotateRightCarry(true));
    assert_eq!(rotation(0x17), Alu8::RotateLeft(true));
    assert_eq!(rotation(0x1F), Alu8::RotateRight(true));
}

#[test]
fn accumulator_operations_cost_two_cycles_on_memory() {
    assert_eq!(
        decode_alu8(0x86, 0),
        Some((
            Op::Alu8(Alu8Op {
                op: Alu8::Add,
                dest: Alu8Data::Reg(Reg8::A),
                y: Alu8Data::Addr(Reg16::HL)
            }),
            1,
            2
        ))
    );
    assert_eq!(
        decode_alu8(0x87, 0),
        Some((
            Op::Alu8(Alu8Op {
                op: Alu8::Add,
                dest: Alu8Data::Reg(Reg8::A),
                y: Alu8Data::Reg(Reg8::A)
            }),
            1,
            1
        ))
    );
    assert_eq!(
        decode_alu8(0xFE, 0x42),
        Some((
            Op::Alu8(Alu8Op {
                op: Alu8::Compare,
                dest: Alu8Data::Reg(Reg8::A),
                y: Alu8Data::Imm(0x42)
            }),
            2,
            1
        ))
    );
    assert_eq!(decode_alu8(0x00, 0), None);
}

#[test]
fn sixteen_bit_alu_takes_signed_immediates() {
    assert_eq!(
        decode_alu16(0xE8, 0xFE),
        Some((
            Op::Alu16(Alu16Op {
                op: Alu16::Add,
                dest: Reg16::SP,
                y: Alu16Data::Imm(-2),
                imm: 0
            }),
            2,
            4
        ))
    );
    assert_eq!(
        decode_alu16(0xF8, 0x7F),
        Some((
            Op::Alu16(Alu16Op {
                op: Alu16::MoveAndAdd,
                dest: Reg16::HL,
                y: Alu16Data::Reg(Reg16::SP),
                imm: 127
            }),
            2,
            3
        ))
    );
    assert_eq!(
        decode_alu16(0x39, 0),
        Some((
            Op::Alu16(Alu16Op {
                op: Alu16::Add,
                dest: Reg16::HL,
                y: Alu16Data::Reg(Reg16::SP),
                imm: 0
            }),
            1,
            2
        ))
    );
    assert_eq!(decode_alu16(0x40, 0), None);
}

#[test]
fn immediates_are_little_endian() {
    assert_eq!(decode_bytes(0x21, 0x34, 0x12, 0), (Op::SetWide(Reg16::HL, 0x1234), 3, 3));
    assert_eq!(
        decode_bytes(0xC3, 0x50, 0x01, 0),
        (Op::Jump(Address::Immediate16(0x0150)), 3, 4)
    );
    assert_eq!(decode_load(0xEA, 0x00, 0xC000), Some((Op::Store(Address::Immediate16(0xC000), Reg8::A), 3, 2)));
}

#[test]
fn loads_stores_and_moves() {
    assert_eq!(decode_load(0x41, 0, 0), Some((Op::Move(Reg8::B, Reg8::C), 1, 1)));
    assert_eq!(decode_load(0x7E, 0, 0), Some((Op::Load(Reg8::A, Address::Register16(Reg16::HL)), 1, 2)));
    assert_eq!(decode_load(0x70, 0, 0), Some((Op::Store(Address::Register16(Reg16::HL), Reg8::B), 1, 2)));
    assert_eq!(decode_load(0x76, 0, 0), None);
    assert_eq!(decode_load(0x3E, 0x99, 0), Some((Op::SetReg(Reg8::A, 0x99), 2, 2)));
    assert_eq!(decode_load(0x36, 0x99, 0), Some((Op::SetAddr(Reg16::HL, 0x99), 2, 2)));
    assert_eq!(decode_load(0xF1, 0, 0), Some((Op::Pop(Reg16::AF), 1, 3)));
    assert_eq!(decode_load(0xC5, 0, 0), Some((Op::Push(Reg16::BC), 1, 4)));
    assert_eq!(decode_load(0x22, 0, 0), Some((Op::StoreAndIncrement(Address::Register16(Reg16::HL), Reg8::A), 1, 2)));
    assert_eq!(decode_load(0x3A, 0, 0), Some((Op::LoadAndDecrement(Reg8::A, Address::Register16(Reg16::HL)), 1, 2)));
    assert_eq!(decode_load(0xE0, 0x44, 0), Some((Op::SetIO(0x44), 2, 3)));
    assert_eq!(decode_load(0xF2, 0, 0), Some((Op::ReadIOC, 1, 3)));
}

#[test]
fn relative_jumps_count_from_behind_the_instruction() {
    assert_eq!(relative_dest(0x0100, 0x00), 0x0102);
    assert_eq!(relative_dest(0x0100, 0x7F), 0x0181);
    assert_eq!(relative_dest(0x0100, 0xFE), 0x0100);
    assert_eq!(relative_dest(0x0100, 0x80), 0x0082);
    assert_eq!(relative_dest(0x0000, 0x80), 0xFF82);
    assert_eq!(relative_dest(0xFFFE, 0x01), 0x0001);
    assert_eq!(decode_jump(0x18, 0x0200, 0xFC, 0), Some((Op::JumpRelative(0x01FE), 2, 3)));
    assert_eq!(
        decode_jump(0x20, 0x0200, 0x02, 0),
        Some((Op::ConditionalJumpRelative(Flag::NotZero, 0x0204), 2, 2))
    );
}

#[test]
fn branches_read_their_condition_from_the_opcode() {
    assert_eq!(decode_jump(0xC2, 0, 0, 0x1234), Some((Op::ConditionalJump(Flag::NotZero, 0x1234), 3, 3)));
    assert_eq!(decode_jump(0xCA, 0, 0, 0x1234), Some((Op::ConditionalJump(Flag::Zero, 0x1234), 3, 3)));
    assert_eq!(decode_jump(0xD2, 0, 0, 0x1234), Some((Op::ConditionalJump(Flag::NotCarry, 0x1234), 3, 3)));
    assert_eq!(decode_jump(0xDA, 0, 0, 0x1234), Some((Op::ConditionalJump(Flag::Carry, 0x1234), 3, 3)));
    assert_eq!(decode_jump(0xD8, 0, 0, 0), Some((Op::ConditionalReturn(Flag::Carry), 1, 2)));
    assert_eq!(decode_jump(0xCC, 0, 0, 0x4000), Some((Op::ConditionalCall(Flag::Zero, 0x4000), 3, 3)));
    assert_eq!(decode_jump(0xEF, 0, 0, 0), Some((Op::Reset(0x28), 1, 4)));
    assert_eq!(decode_jump(0xC7, 0, 0, 0), Some((Op::Reset(0x00), 1, 4)));
    assert_eq!(decode_jump(0xD9, 0, 0, 0), Some((Op::ReturnAndEnableInterrupts, 1, 4)));
    assert_eq!(decode_jump(0x00, 0, 0, 0), None);
}

#[test]
fn control_instructions() {
    assert_eq!(decode_bytes(0x00, 0, 0, 0), (Op::Nop, 1, 1));
    assert_eq!(decode_bytes(0x10, 0, 0, 0), (Op::Stop, 2, 1));
    assert_eq!(decode_bytes(0x76, 0, 0, 0), (Op::Halt, 1, 1));
    assert_eq!(decode_bytes(0xF3, 0, 0, 0), (Op::DisableInterrupts, 1, 1));
    assert_eq!(decode_bytes(0xFB, 0, 0, 0), (Op::EnableInterrupts, 1, 1));
}

#[test]
fn decode_reads_three_bytes_from_the_bus() {
    let mem = bus_with_boot_program(&[0x00, 0x21, 0x34, 0x12, 0x18, 0xFE]);
    assert_eq!(decode(&mem, 0), (Op::Nop, 1, 1));
    assert_eq!(decode(&mem, 1), (Op::SetWide(Reg16::HL, 0x1234), 3, 3));
    assert_eq!(decode(&mem, 4), (Op::JumpRelative(4), 2, 3));
}

#[test]
fn decode_wraps_at_the_end_of_the_address_space() {
    let mut mem = Peripherals::new_fake();
    // 0xFFFF is the interrupt enable register; its neighbours wrap to the boot ROM.
    mem.write(0xFFFF, 0x21);
    let (op, size, cycles) = decode(&mem, 0xFFFF);
    assert_eq!((op, size, cycles), (Op::SetWide(Reg16::HL, 0x0000), 3, 3));
}
