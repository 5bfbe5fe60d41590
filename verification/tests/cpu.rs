use wolfwig::cpu::decode::{Alu16, Alu16Data, Alu16Op, Alu8, Alu8Data, Alu8Op, Op};
use wolfwig::cpu::lr25902::{NextOp, LR25902};
use wolfwig::cpu::registers::{Flag, Reg16, Reg8};
use wolfwig::peripherals::Peripherals;

#[test]
fn rotate_left_carry() {
    let mut cpu = LR25902::new();
    let mut mem = Peripherals::new_fake();

    cpu.regs.set8(Reg8::A, 0xFF);

    let op = Alu8Op {
        op: Alu8::RotateLeft(false),
        dest: Alu8Data::Reg(Reg8::A),
        y: Alu8Data::Ignore,
    };

    cpu.execute_alu8(&op, &mut mem);

    assert_eq!(cpu.regs.read8(Reg8::A), (0xFF << 1) & 0xFF);
    assert_eq!(cpu.regs.read_flag(Flag::Carry), true);
    assert_eq!(cpu.regs.read_flag(Flag::Zero), false);

    cpu.execute_alu8(&op, &mut mem);
    assert_eq!(cpu.regs.read8(Reg8::A), 0b1111_1101);
}

#[test]
fn rotate_right() {
    let mut cpu = LR25902::new();
    let mut mem = Peripherals::new_fake();

    cpu.regs.set8(Reg8::A, 0xFF);
    cpu.regs.set_flag(Flag::Carry, true);

    let op = Alu8Op {
        op: Alu8::RotateRight(true),
        dest: Alu8Data::Reg(Reg8::A),
        y: Alu8Data::Ignore,
    };

    cpu.execute_alu8(&op, &mut mem);

    assert_eq!(cpu.regs.read8(Reg8::A), 0xFF);
    assert_eq!(cpu.regs.read_flag(Flag::Carry), true);
    assert_eq!(cpu.regs.read_flag(Flag::Zero), false);
}

#[test]
fn decrement_half_carry_test() {
    let mut cpu = LR25902::new();
    let mut mem = Peripherals::new_fake();

    cpu.regs.set8(Reg8::A, 0);

    let op = Alu8Op {
        op: Alu8::Decrement,
        dest: Alu8Data::Reg(Reg8::A),
        y: Alu8Data::Ignore,
    };

    cpu.execute_alu8(&op, &mut mem);

    assert_eq!(cpu.regs.read8(Reg8::A), 0xFF);
    assert_eq!(cpu.regs.read_flag(Flag::Zero), false);
    assert_eq!(cpu.regs.read_flag(Flag::Subtract), true);
    assert_eq!(cpu.regs.read_flag(Flag::HalfCarry), true);
    assert_eq!(cpu.regs.read_flag(Flag::Carry), false);
}

#[test]
fn sub() {
    let mut cpu = LR25902::new();
    let mut mem = Peripherals::new_fake();

    let make_sub = |val| Alu8Op {
        op: Alu8::Sub,
        dest: Alu8Data::Reg(Reg8::A),
        y: Alu8Data::Imm(val),
    };

    // 0 - 0 == 0
    cpu.regs.set8(Reg8::A, 0);
    cpu.execute_alu8(&make_sub(0), &mut mem);
    assert_eq!(cpu.regs.read8(Reg8::A), 0);
    assert_eq!(cpu.regs.read_flag(Flag::Zero), true);
    assert_eq!(cpu.regs.read_flag(Flag::Subtract), true);
    assert_eq!(cpu.regs.read_flag(Flag::HalfCarry), false);
    assert_eq!(cpu.regs.read_flag(Flag::Carry), false);

    // 0 - 0x0F == 0xF1
    cpu.regs.set8(Reg8::A, 0);
    cpu.execute_alu8(&make_sub(0x0F), &mut mem);
    assert_eq!(cpu.regs.read8(Reg8::A), 0xF1);
    assert_eq!(cpu.regs.read_flag(Flag::Zero), false);
    assert_eq!(cpu.regs.read_flag(Flag::Subtract), true);
    assert_eq!(cpu.regs.read_flag(Flag::HalfCarry), true);
    assert_eq!(cpu.regs.read_flag(Flag::Carry), true);

    // 0 - 0xF0 == 0x10
    cpu.regs.set8(Reg8::A, 0);
    cpu.execute_alu8(&make_sub(0xF0), &mut mem);
    assert_eq!(cpu.regs.read8(Reg8::A), 0x10);
    assert_eq!(cpu.regs.read_flag(Flag::Zero), false);
    assert_eq!(cpu.regs.read_flag(Flag::Subtract), true);
    assert_eq!(cpu.regs.read_flag(Flag::HalfCarry), false);
    assert_eq!(cpu.regs.read_flag(Flag::Carry), true);

    // 0xFF - 0xFF == 0
    cpu.regs.set8(Reg8::A, 0xFF);
    cpu.execute_alu8(&make_sub(0xFF), &mut mem);
    assert_eq!(cpu.regs.read8(Reg8::A), 0);
    assert_eq!(cpu.regs.read_flag(Flag::Zero), true);
    assert_eq!(cpu.regs.read_flag(Flag::Subtract), true);
    assert_eq!(cpu.regs.read_flag(Flag::HalfCarry), false);
    assert_eq!(cpu.regs.read_flag(Flag::Carry), false);
}

#[test]
fn sbc() {
    let mut cpu = LR25902::new();
    let mut mem = Peripherals::new_fake();

    let make_sbc = |val| Alu8Op {
        op: Alu8::SubWithCarry,
        dest: Alu8Data::Reg(Reg8::A),
        y: Alu8Data::Imm(val),
    };

    // 17 - 17 - carry == 0xFF, with half carry and carry
    cpu.regs.set8(Reg8::A, 17);
    cpu.regs.set_flag(Flag::Carry, true);
    cpu.execute_alu8(&make_sbc(17), &mut mem);
    assert_eq!(cpu.regs.read8(Reg8::A), 0xFF);
    assert_eq!(cpu.regs.read_flag(Flag::Zero), false);
    assert_eq!(cpu.regs.read_flag(Flag::Subtract), true);
    assert_eq!(cpu.regs.read_flag(Flag::HalfCarry), true);
    assert_eq!(cpu.regs.read_flag(Flag::Carry), true);

    // 5 - 2 - carry == 2
    cpu.regs.set8(Reg8::A, 5);
    cpu.regs.set_flag(Flag::Carry, true);
    cpu.execute_alu8(&make_sbc(2), &mut mem);
    assert_eq!(cpu.regs.read8(Reg8::A), 2);
    assert_eq!(cpu.regs.read_flag(Flag::Zero), false);
    assert_eq!(cpu.regs.read_flag(Flag::Subtract), true);
    assert_eq!(cpu.regs.read_flag(Flag::HalfCarry), false);
    assert_eq!(cpu.regs.read_flag(Flag::Carry), false);

    // 0x7F - 0x80 - carry == 0xFE, with carry
    cpu.regs.set8(Reg8::A, 0x7F);
    cpu.regs.set_flag(Flag::Carry, true);
    cpu.execute_alu8(&make_sbc(0x80), &mut mem);
    assert_eq!(cpu.regs.read8(Reg8::A), 0xFE);
    assert_eq!(cpu.regs.read_flag(Flag::Zero), false);
    assert_eq!(cpu.regs.read_flag(Flag::Subtract), true);
    assert_eq!(cpu.regs.read_flag(Flag::HalfCarry), false);
    assert_eq!(cpu.regs.read_flag(Flag::Carry), true);
}

#[test]
fn alu16_add() {
    let mut cpu = LR25902::new();

    cpu.regs.set16(Reg16::HL, 0x0F00);
    cpu.regs.set16(Reg16::SP, 0x8000);
    cpu.execute_alu16(&Alu16Op {
        op: Alu16::Add,
        dest: Reg16::HL,
        y: Alu16Data::Reg(Reg16::SP),
        imm: 0,
    });

    assert_eq!(cpu.regs.read16(Reg16::HL), 0x8F00);
    assert_eq!(cpu.regs.read_flag(Flag::Zero), false);
    assert_eq!(cpu.regs.read_flag(Flag::Subtract), false);
    assert_eq!(cpu.regs.read_flag(Flag::HalfCarry), false);
    assert_eq!(cpu.regs.read_flag(Flag::Carry), false);
}

#[test]
fn alu16_move_and_add() {
    let mut cpu = LR25902::new();

    cpu.regs.set16(Reg16::HL, 0x4321);
    cpu.regs.set16(Reg16::SP, 0x1234);
    cpu.execute_alu16(&Alu16Op {
        op: Alu16::MoveAndAdd,
        dest: Reg16::HL,
        y: Alu16Data::Reg(Reg16::SP),
        imm: -1,
    });

    assert_eq!(cpu.regs.read16(Reg16::HL), 0x1233);
}

#[test]
fn push_and_pop() {
    let mut cpu = LR25902::new();
    let mut mem = Peripherals::new_fake();

    cpu.regs.set16(Reg16::AF, 0x12FF);
    cpu.regs.set16(Reg16::BC, 0x13FF);
    cpu.regs.set16(Reg16::DE, 0x14FF);
    cpu.regs.set16(Reg16::HL, 0x15FF);
    cpu.regs.set16(Reg16::SP, 0xFFFF);

    let make_push = |reg| NextOp {
        delay_cycles: 0,
        pc_offset: 0,
        op: Op::Push(reg),
    };
    let make_pop = |reg| NextOp {
        delay_cycles: 0,
        pc_offset: 0,
        op: Op::Pop(reg),
    };

    cpu.execute_op(&mut mem, &make_push(Reg16::AF));
    cpu.execute_op(&mut mem, &make_push(Reg16::BC));
    cpu.execute_op(&mut mem, &make_push(Reg16::DE));
    cpu.execute_op(&mut mem, &make_push(Reg16::HL));

    cpu.execute_op(&mut mem, &make_pop(Reg16::AF));
    cpu.execute_op(&mut mem, &make_pop(Reg16::BC));
    cpu.execute_op(&mut mem, &make_pop(Reg16::DE));
    cpu.execute_op(&mut mem, &make_pop(Reg16::HL));

    // The low four bits of F always read zero.
    assert_eq!(cpu.regs.read16(Reg16::AF), 0x15F0);
    assert_eq!(cpu.regs.read16(Reg16::BC), 0x14FF);
    assert_eq!(cpu.regs.read16(Reg16::DE), 0x13FF);
    assert_eq!(cpu.regs.read16(Reg16::HL), 0x12F0);
}

#[test]
fn swap() {
    let mut cpu = LR25902::new();
    let mut mem = Peripherals::new_fake();

    cpu.regs.set8(Reg8::C, 0x12);

    let op = Alu8Op {
        op: Alu8::Swap,
        dest: Alu8Data::Reg(Reg8::C),
        y: Alu8Data::Ignore,
    };

    cpu.execute_alu8(&op, &mut mem);

    assert_eq!(cpu.regs.read8(Reg8::C), 0x21);
}

#[test]
fn decimal_adjust_after_add() {
    let mut cpu = LR25902::new();
    let mut mem = Peripherals::new_fake();

    let add = Alu8Op {
        op: Alu8::Add,
        dest: Alu8Data::Reg(Reg8::A),
        y: Alu8Data::Reg(Reg8::B),
    };

    let daa = Alu8Op {
        op: Alu8::DecimalAdjust,
        dest: Alu8Data::Reg(Reg8::A),
        y: Alu8Data::Ignore,
    };

    // Basic
    cpu.regs.set8(Reg8::A, 0xAA);
    cpu.execute_alu8(&daa, &mut mem);
    assert_eq!(cpu.regs.read8(Reg8::A), 0x10);
    assert_eq!(cpu.regs.read_flag(Flag::Carry), true);

    // Add two BCD numbers, without half-carry, or needing to adjust
    cpu.regs.set8(Reg8::A, 0x22);
    cpu.regs.set8(Reg8::B, 0x22);
    cpu.execute_alu8(&add, &mut mem);
    cpu.execute_alu8(&daa, &mut mem);
    assert_eq!(cpu.regs.read8(Reg8::A), 0x44);

    // Add two BCD numbers, need to adjust
    cpu.regs.set8(Reg8::A, 0x46);
    cpu.regs.set8(Reg8::B, 0x46);
    cpu.execute_alu8(&add, &mut mem);
    assert_eq!(cpu.regs.read8(Reg8::A), 0x8C);
    cpu.execute_alu8(&daa, &mut mem);
    assert_eq!(cpu.regs.read8(Reg8::A), 0x92);

    // Add two BCD numbers, have half-carry out of lower nibble
    cpu.regs.set8(Reg8::A, 0x18);
    cpu.regs.set8(Reg8::B, 0x18);
    cpu.execute_alu8(&add, &mut mem);
    assert_eq!(cpu.regs.read8(Reg8::A), 0x30);
    assert_eq!(cpu.regs.read_flag(Flag::HalfCarry), true);
    cpu.execute_alu8(&daa, &mut mem);
    assert_eq!(cpu.regs.read8(Reg8::A), 0x36);

    // Add two BCD numbers, have carry out of upper nibble
    cpu.regs.set8(Reg8::A, 0x70);
    cpu.regs.set8(Reg8::B, 0x70);
    cpu.execute_alu8(&add, &mut mem);
    assert_eq!(cpu.regs.read8(Reg8::A), 0xE0);
    assert_eq!(cpu.regs.read_flag(Flag::Carry), false);
    cpu.execute_alu8(&daa, &mut mem);
    assert_eq!(cpu.regs.read8(Reg8::A), 0x40);
    assert_eq!(cpu.regs.read_flag(Flag::Carry), true);
}

#[test]
fn decimal_adjust_after_sub() {
    let mut cpu = LR25902::new();
    let mut mem = Peripherals::new_fake();

    let sub = Alu8Op {
        op: Alu8::Sub,
        dest: Alu8Data::Reg(Reg8::A),
        y: Alu8Data::Reg(Reg8::B),
    };

    let daa = Alu8Op {
        op: Alu8::DecimalAdjust,
        dest: Alu8Data::Reg(Reg8::A),
        y: Alu8Data::Ignore,
    };

    // Sub two BCD numbers, without half-carry, or needing to adjust
    cpu.regs.set8(Reg8::A, 0x33);
    cpu.regs.set8(Reg8::B, 0x11);
    cpu.execute_alu8(&sub, &mut mem);
    cpu.execute_alu8(&daa, &mut mem);
    assert_eq!(cpu.regs.read8(Reg8::A), 0x22);

    // Sub two BCD numbers, need to adjust lower nibble
    cpu.regs.set8(Reg8::A, 0x20);
    cpu.regs.set8(Reg8::B, 0x04);
    cpu.execute_alu8(&sub, &mut mem);
    assert_eq!(cpu.regs.read8(Reg8::A), 0x1C);
    assert_eq!(cpu.regs.read_flag(Flag::Subtract), true);
    assert_eq!(cpu.regs.read_flag(Flag::HalfCarry), true);
    cpu.execute_alu8(&daa, &mut mem);
    assert_eq!(cpu.regs.read8(Reg8::A), 0x16);

    // Dec BCD numbers, need lots of carry
    cpu.regs.set8(Reg8::A, 0x00);
    cpu.regs.set8(Reg8::B, 0x01);
    cpu.execute_alu8(
        &Alu8Op {
            op: Alu8::Decrement,
            dest: Alu8Data::Reg(Reg8::A),
            y: Alu8Data::Ignore,
        },
        &mut mem,
    );
    assert_eq!(cpu.regs.read8(Reg8::A), 0xFF);
    assert_eq!(cpu.regs.read_flag(Flag::Subtract), true);
    assert_eq!(cpu.regs.read_flag(Flag::HalfCarry), true);
    cpu.execute_alu8(&daa, &mut mem);
    assert_eq!(cpu.regs.read8(Reg8::A), 0xF9);
}
