use wolfwig::cpu::decode::{Address, Alu16, Alu16Data, Alu16Op, Alu8, Alu8Data, Alu8Op, Op};
use wolfwig::cpu::lr25902::{NextOp, LR25902};
use wolfwig::cpu::registers::{Flag, Reg16, Reg8};
use wolfwig::peripherals::joypad::fake_events::FakeEvents;
use wolfwig::peripherals::ppu::fake_display::FakeDisplay;
use wolfwig::peripherals::Peripherals;
use wolfwig::Wolfwig;

fn machine(program: &[u8]) -> Wolfwig {
    let mut bootrom = vec![0u8; 0x100];
    bootrom[..program.len()].copy_from_slice(program);
    Wolfwig::from_roms(
        bootrom,
        vec![0; 0x1000],
        Box::new(FakeDisplay::new()),
        Box::new(FakeEvents::new()),
    )
    .unwrap()
}

fn run_until_stopped(wolfwig: &mut Wolfwig) -> usize {
    let mut cycles = 0;
    while !wolfwig.step() {
        cycles += 1;
        assert!(cycles < 10_000);
    }
    cycles + 1
}

fn at(op: Op) -> NextOp {
    NextOp { delay_cycles: 0, pc_offset: 0, op }
}

fn alu8(cpu: &mut LR25902, mem: &mut Peripherals, op: Alu8, a: u8, y: u8) -> u8 {
    cpu.regs.set8(Reg8::A, a);
    cpu.execute_alu8(&Alu8Op { op, dest: Alu8Data::Reg(Reg8::A), y: Alu8Data::Imm(y) }, mem);
    cpu.regs.read8(Reg8::A)
}

fn flags(cpu: &LR25902) -> (bool, bool, bool, bool) {
    (
        cpu.regs.read_flag(Flag::Zero),
        cpu.regs.read_flag(Flag::Subtract),
        cpu.regs.read_flag(Flag::HalfCarry),
        cpu.regs.read_flag(Flag::Carry),
    )
}

#[test]
fn an_unsupported_cartridge_gives_no_machine() {
    let mut rom = vec![0u8; 0x8000];
    rom[0x0147] = 0x05;
    assert!(Wolfwig::from_roms(
        vec![0; 0x100],
        rom,
        Box::new(FakeDisplay::new()),
        Box::new(FakeEvents::new())
    )
    .is_none());
    assert!(Wolfwig::from_roms(
        vec![0; 0x100],
        vec![],
        Box::new(FakeDisplay::new()),
        Box::new(FakeEvents::new())
    )
    .is_none());
}

#[test]
fn a_program_runs_cycle_by_cycle() {
    // LD A,0x12; LD B,0x34; ADD A,B; STOP
    let mut wolfwig = machine(&[0x3E, 0x12, 0x06, 0x34, 0x80, 0x10, 0x00]);
    assert_eq!(wolfwig.pc(), 0);
    assert_eq!(run_until_stopped(&mut wolfwig), 7);
    assert_eq!(wolfwig.reg8(Reg8::A), 0x46);
    assert_eq!(wolfwig.reg8(Reg8::B), 0x34);
    assert_eq!(wolfwig.pc(), 7);
    assert_eq!(wolfwig.reg16(Reg16::AF), 0x4600);
    assert_eq!(wolfwig.cpu.cycle, 7);
    assert!(!wolfwig.shutdown());
}

#[test]
fn an_instruction_takes_effect_when_its_cycles_have_passed() {
    // LD HL,0x1234 costs three cycles.
    let mut wolfwig = machine(&[0x21, 0x34, 0x12, 0x10]);
    wolfwig.step();
    assert_eq!(wolfwig.cpu.next_op, NextOp { delay_cycles: 2, pc_offset: 3, op: Op::SetWide(Reg16::HL, 0x1234) });
    wolfwig.step();
    wolfwig.step();
    assert_eq!(wolfwig.reg16(Reg16::HL), 0);
    assert_eq!(wolfwig.pc(), 0);
    wolfwig.step();
    assert_eq!(wolfwig.reg16(Reg16::HL), 0x1234);
    assert_eq!(wolfwig.pc(), 3);
}

#[test]
fn an_unknown_opcode_is_skipped() {
    let mut wolfwig = machine(&[0xD3, 0x3E, 0x01, 0x10]);
    assert_eq!(run_until_stopped(&mut wolfwig), 5);
    assert_eq!(wolfwig.reg8(Reg8::A), 1);
    assert_eq!(wolfwig.pc(), 5);
}

#[test]
fn a_taken_branch_costs_an_extra_cycle() {
    // XOR A sets the zero flag; then a relative jump over nothing.
    let mut taken = machine(&[0xAF, 0x28, 0x00, 0x10]);
    let mut not_taken = machine(&[0xAF, 0x20, 0x00, 0x10]);
    let a = run_until_stopped(&mut taken);
    let b = run_until_stopped(&mut not_taken);
    assert_eq!(b, 5);
    assert_eq!(a, 6);
    assert_eq!(taken.pc(), not_taken.pc());
    // The same for an absolute jump, a call and a return.
    let mut taken = machine(&[0xAF, 0xCA, 0x04, 0x00, 0x10]);
    let mut not_taken = machine(&[0xAF, 0xC2, 0x04, 0x00, 0x10]);
    assert_eq!(run_until_stopped(&mut taken), run_until_stopped(&mut not_taken) + 1);
    let mut taken = machine(&[0x31, 0xFE, 0xFF, 0xAF, 0xCC, 0x07, 0x00, 0x10]);
    let mut not_taken = machine(&[0x31, 0xFE, 0xFF, 0xAF, 0xC4, 0x07, 0x00, 0x10]);
    assert_eq!(run_until_stopped(&mut taken), run_until_stopped(&mut not_taken) + 3);
    assert_eq!(taken.reg16(Reg16::SP), 0xFFFC);
    assert_eq!(not_taken.reg16(Reg16::SP), 0xFFFE);
}

#[test]
fn a_loop_counts_down() {
    // LD B,3; loop: DEC B; JR NZ,loop; STOP
    let mut wolfwig = machine(&[0x06, 0x03, 0x05, 0x20, 0xFD, 0x10]);
    let cycles = run_until_stopped(&mut wolfwig);
    assert_eq!(wolfwig.reg8(Reg8::B), 0);
    assert!(wolfwig.cpu.regs.read_flag(Flag::Zero));
    // Start 1, load 2, three decrements 3, three jumps 6, two of them taken 2,
    // stop 1.
    assert_eq!(cycles, 15);
}

#[test]
fn calls_push_the_return_address() {
    // LD SP,0xFFFE; CALL 0x0008; STOP; ...; LD A,0x77; RET
    let mut wolfwig = machine(&[0x31, 0xFE, 0xFF, 0xCD, 0x08, 0x00, 0x10, 0x00, 0x3E, 0x77, 0xC9]);
    run_until_stopped(&mut wolfwig);
    assert_eq!(wolfwig.reg8(Reg8::A), 0x77);
    assert_eq!(wolfwig.reg16(Reg16::SP), 0xFFFE);
    assert_eq!(wolfwig.peripherals.read(0xFFFD), 0x00);
    assert_eq!(wolfwig.peripherals.read(0xFFFC), 0x06);
    assert_eq!(wolfwig.pc(), 8);
}

#[test]
fn an_interrupt_is_entered_in_five_cycles() {
    // EI, then no-operations; the handler of the timer at 0x50 stops.
    let mut program = vec![0u8; 0x60];
    program[0] = 0xFB;
    program[0x50] = 0x10;
    let mut wolfwig = machine(&program);
    wolfwig.cpu.regs.set16(Reg16::SP, 0xFFFE);
    wolfwig.peripherals.write(0xFFFF, 0x05);
    wolfwig.peripherals.write(0xFF0F, 0x04);
    wolfwig.step();
    wolfwig.step();
    // EI has taken effect and the entry has been scheduled.
    assert_eq!(wolfwig.pc(), 1);
    assert!(!wolfwig.cpu.interrupt_enable);
    assert!(wolfwig.cpu.interrupted);
    assert_eq!(wolfwig.cpu.next_op.op, Op::SetupInterrupt);
    for _ in 0..4 {
        wolfwig.step();
        assert_eq!(wolfwig.pc(), 1);
    }
    // The program counter has been pushed and the line lowered.
    assert_eq!(wolfwig.reg16(Reg16::SP), 0xFFFC);
    assert_eq!(wolfwig.peripherals.read(0xFFFC), 0x01);
    assert_eq!(wolfwig.peripherals.read(0xFFFD), 0x00);
    assert_eq!(wolfwig.peripherals.read(0xFF0F), 0xE0);
    assert_eq!(wolfwig.cpu.next_op.op, Op::ExecuteInterrupt(0x50));
    wolfwig.step();
    assert_eq!(wolfwig.pc(), 0x50);
    assert!(!wolfwig.cpu.interrupt_enable);
    assert!(!wolfwig.cpu.interrupted);
    // The handler starts at once.
    assert!(wolfwig.step());
    assert_eq!(wolfwig.pc(), 0x52);
}

#[test]
fn the_highest_priority_interrupt_is_entered() {
    let mut program = vec![0u8; 0x50];
    program[0] = 0xFB;
    let mut wolfwig = machine(&program);
    wolfwig.cpu.regs.set16(Reg16::SP, 0xFFFE);
    wolfwig.peripherals.write(0xFFFF, 0x1F);
    wolfwig.peripherals.write(0xFF0F, 0x12);
    for _ in 0..7 {
        wolfwig.step();
    }
    assert_eq!(wolfwig.pc(), 0x48);
    assert_eq!(wolfwig.peripherals.read(0xFF0F), 0xF0);
}

#[test]
fn interrupts_wait_for_the_master_switch() {
    let mut wolfwig = machine(&[0x00, 0x00, 0x00, 0x10]);
    wolfwig.peripherals.write(0xFFFF, 0x04);
    wolfwig.peripherals.write(0xFF0F, 0x04);
    assert_eq!(run_until_stopped(&mut wolfwig), 5);
    assert_eq!(wolfwig.pc(), 5);
    assert_eq!(wolfwig.peripherals.read(0xFF0F), 0xE4);
}

#[test]
fn return_from_interrupt_switches_interrupts_on() {
    let mut cpu = LR25902::new();
    let mut mem = Peripherals::new_fake();
    cpu.regs.set16(Reg16::SP, 0xFFF0);
    mem.write(0xFFF0, 0x34);
    mem.write(0xFFF1, 0x12);
    assert_eq!(cpu.execute_op(&mut mem, &at(Op::ReturnAndEnableInterrupts)), 0x1234);
    assert!(cpu.interrupt_enable);
    assert_eq!(cpu.regs.read16(Reg16::SP), 0xFFF2);
    cpu.execute_op(&mut mem, &at(Op::DisableInterrupts));
    assert!(!cpu.interrupt_enable);
    cpu.execute_op(&mut mem, &at(Op::EnableInterrupts));
    assert!(cpu.interrupt_enable);
    assert_eq!(cpu.pc(), 0x1234);
}

#[test]
fn a_halted_cpu_waits_for_an_interrupt() {
    // HALT; LD A,0x55; STOP
    let mut wolfwig = machine(&[0x76, 0x3E, 0x55, 0x10]);
    for _ in 0..50 {
        assert!(!wolfwig.step());
    }
    assert!(wolfwig.cpu.halted);
    assert_eq!(wolfwig.pc(), 1);
    assert_eq!(wolfwig.reg8(Reg8::A), 0);
    // A pending interrupt wakes the CPU; with the master switch off it is not
    // entered.
    wolfwig.peripherals.write(0xFFFF, 0x01);
    wolfwig.peripherals.write(0xFF0F, 0x01);
    wolfwig.step();
    assert!(!wolfwig.cpu.halted);
    assert_eq!(run_until_stopped(&mut wolfwig), 2);
    assert_eq!(wolfwig.reg8(Reg8::A), 0x55);
    assert_eq!(wolfwig.peripherals.read(0xFF0F), 0xE1);
}

#[test]
fn a_halted_cpu_enters_the_interrupt_if_the_master_switch_is_on() {
    // EI; HALT; the vertical blank handler at 0x40 stops.
    let mut program = vec![0u8; 0x50];
    program[0] = 0xFB;
    program[1] = 0x76;
    program[0x40] = 0x10;
    let mut wolfwig = machine(&program);
    wolfwig.cpu.regs.set16(Reg16::SP, 0xFFFE);
    for _ in 0..20 {
        wolfwig.step();
    }
    assert!(wolfwig.cpu.halted);
    assert!(wolfwig.cpu.interrupt_enable);
    wolfwig.peripherals.write(0xFFFF, 0x01);
    wolfwig.peripherals.write(0xFF0F, 0x01);
    wolfwig.step();
    assert!(!wolfwig.cpu.halted);
    assert_eq!(wolfwig.cpu.next_op.op, Op::SetupInterrupt);
    run_until_stopped(&mut wolfwig);
    assert_eq!(wolfwig.pc(), 0x42);
    // The address behind HALT was pushed.
    assert_eq!(wolfwig.peripherals.read(0xFFFC), 0x02);
}

#[test]
fn addition_sets_half_carry_and_carry() {
    let mut cpu = LR25902::new();
    let mut mem = Peripherals::new_fake();
    assert_eq!(alu8(&mut cpu, &mut mem, Alu8::Add, 0x0F, 0x01), 0x10);
    assert_eq!(flags(&cpu), (false, false, true, false));
    assert_eq!(alu8(&mut cpu, &mut mem, Alu8::Add, 0xF0, 0x10), 0x00);
    assert_eq!(flags(&cpu), (true, false, false, true));
    assert_eq!(alu8(&mut cpu, &mut mem, Alu8::Add, 0xFF, 0xFF), 0xFE);
    assert_eq!(flags(&cpu), (false, false, true, true));
    // The carry goes into both checks of an addition with carry.
    assert_eq!(alu8(&mut cpu, &mut mem, Alu8::AddWithCarry, 0x0F, 0x00), 0x10);
    assert_eq!(flags(&cpu), (false, false, true, false));
    cpu.regs.set_flag(Flag::Carry, true);
    assert_eq!(alu8(&mut cpu, &mut mem, Alu8::AddWithCarry, 0xFF, 0x00), 0x00);
    assert_eq!(flags(&cpu), (true, false, true, true));
    cpu.regs.set_flag(Flag::Carry, false);
    assert_eq!(alu8(&mut cpu, &mut mem, Alu8::AddWithCarry, 0xFF, 0x00), 0xFF);
    assert_eq!(flags(&cpu), (false, false, false, false));
}

#[test]
fn compare_sets_flags_only() {
    let mut cpu = LR25902::new();
    let mut mem = Peripherals::new_fake();
    assert_eq!(alu8(&mut cpu, &mut mem, Alu8::Compare, 0x10, 0x10), 0x10);
    assert_eq!(flags(&cpu), (true, true, false, false));
    assert_eq!(alu8(&mut cpu, &mut mem, Alu8::Compare, 0x10, 0x21), 0x10);
    assert_eq!(flags(&cpu), (false, true, true, true));
    assert_eq!(alu8(&mut cpu, &mut mem, Alu8::Compare, 0x10, 0x01), 0x10);
    assert_eq!(flags(&cpu), (false, true, true, false));
}

#[test]
fn logic_operations() {
    let mut cpu = LR25902::new();
    let mut mem = Peripherals::new_fake();
    cpu.regs.set_flag(Flag::Carry, true);
    assert_eq!(alu8(&mut cpu, &mut mem, Alu8::And, 0xF0, 0x3C), 0x30);
    assert_eq!(flags(&cpu), (false, false, true, false));
    assert_eq!(alu8(&mut cpu, &mut mem, Alu8::And, 0xF0, 0x0F), 0x00);
    assert_eq!(flags(&cpu), (true, false, true, false));
    assert_eq!(alu8(&mut cpu, &mut mem, Alu8::Or, 0xF0, 0x0F), 0xFF);
    assert_eq!(flags(&cpu), (false, false, false, false));
    assert_eq!(alu8(&mut cpu, &mut mem, Alu8::Or, 0x00, 0x00), 0x00);
    assert_eq!(flags(&cpu), (true, false, false, false));
    assert_eq!(alu8(&mut cpu, &mut mem, Alu8::Xor, 0xFF, 0x0F), 0xF0);
    assert_eq!(flags(&cpu), (false, false, false, false));
    assert_eq!(alu8(&mut cpu, &mut mem, Alu8::Xor, 0xAA, 0xAA), 0x00);
    assert_eq!(flags(&cpu), (true, false, false, false));
    cpu.regs.set_flag(Flag::Carry, true);
    assert_eq!(alu8(&mut cpu, &mut mem, Alu8::Complement, 0xA5, 0), 0x5A);
    assert_eq!(flags(&cpu), (true, true, true, true));
}

#[test]
fn increment_and_decrement_leave_the_carry() {
    let mut cpu = LR25902::new();
    let mut mem = Peripherals::new_fake();
    cpu.regs.set_flag(Flag::Carry, true);
    assert_eq!(alu8(&mut cpu, &mut mem, Alu8::Increment, 0xFF, 0), 0x00);
    assert_eq!(flags(&cpu), (true, false, true, true));
    assert_eq!(alu8(&mut cpu, &mut mem, Alu8::Increment, 0x0E, 0), 0x0F);
    assert_eq!(flags(&cpu), (false, false, false, true));
    assert_eq!(alu8(&mut cpu, &mut mem, Alu8::Decrement, 0x01, 0), 0x00);
    assert_eq!(flags(&cpu), (true, true, false, true));
    assert_eq!(alu8(&mut cpu, &mut mem, Alu8::Decrement, 0x10, 0), 0x0F);
    assert_eq!(flags(&cpu), (false, true, true, true));
}

#[test]
fn rotations_and_shifts() {
    let mut cpu = LR25902::new();
    let mut mem = Peripherals::new_fake();
    // Circular: bit 7 goes to the carry and to bit 0.
    assert_eq!(alu8(&mut cpu, &mut mem, Alu8::RotateLeftCarry(false), 0x85, 0), 0x0B);
    assert_eq!(flags(&cpu), (false, false, false, true));
    assert_eq!(alu8(&mut cpu, &mut mem, Alu8::RotateLeftCarry(false), 0xFF, 0), 0xFF);
    assert_eq!(alu8(&mut cpu, &mut mem, Alu8::RotateRightCarry(false), 0x01, 0), 0x80);
    assert_eq!(flags(&cpu), (false, false, false, true));
    assert_eq!(alu8(&mut cpu, &mut mem, Alu8::RotateRightCarry(false), 0x00, 0), 0x00);
    assert_eq!(flags(&cpu), (true, false, false, false));
    // The short forms force the zero flag off.
    assert_eq!(alu8(&mut cpu, &mut mem, Alu8::RotateRightCarry(true), 0x00, 0), 0x00);
    assert_eq!(flags(&cpu), (false, false, false, false));
    // Through the carry.
    assert_eq!(alu8(&mut cpu, &mut mem, Alu8::RotateLeft(false), 0x80, 0), 0x00);
    assert_eq!(flags(&cpu), (true, false, false, true));
    assert_eq!(alu8(&mut cpu, &mut mem, Alu8::RotateLeft(false), 0x00, 0), 0x01);
    assert_eq!(flags(&cpu), (false, false, false, false));
    cpu.regs.set_flag(Flag::Carry, true);
    assert_eq!(alu8(&mut cpu, &mut mem, Alu8::RotateRight(false), 0x02, 0), 0x81);
    assert_eq!(flags(&cpu), (false, false, false, false));
    assert_eq!(alu8(&mut cpu, &mut mem, Alu8::RotateRight(false), 0x01, 0), 0x00);
    assert_eq!(flags(&cpu), (true, false, false, true));
    // Shifts.
    assert_eq!(alu8(&mut cpu, &mut mem, Alu8::ShiftLeftArithmetic, 0xC1, 0), 0x82);
    assert_eq!(flags(&cpu), (false, false, false, true));
    assert_eq!(alu8(&mut cpu, &mut mem, Alu8::ShiftRightArithmetic, 0x81, 0), 0xC0);
    assert_eq!(flags(&cpu), (false, false, false, true));
    assert_eq!(alu8(&mut cpu, &mut mem, Alu8::ShiftRightLogical, 0x81, 0), 0x40);
    assert_eq!(flags(&cpu), (false, false, false, true));
    assert_eq!(alu8(&mut cpu, &mut mem, Alu8::ShiftRightLogical, 0x01, 0), 0x00);
    assert_eq!(flags(&cpu), (true, false, false, true));
    assert_eq!(alu8(&mut cpu, &mut mem, Alu8::Swap, 0x00, 0), 0x00);
    assert_eq!(flags(&cpu), (true, false, false, false));
}

#[test]
fn bit_operations() {
    let mut cpu = LR25902::new();
    let mut mem = Peripherals::new_fake();
    cpu.regs.set_flag(Flag::Carry, true);
    for bit in 0..8u8 {
        assert_eq!(alu8(&mut cpu, &mut mem, Alu8::SetBit, 0x00, bit), 1 << bit);
        assert_eq!(alu8(&mut cpu, &mut mem, Alu8::SetBit, 0xFF, bit), 0xFF);
        assert_eq!(alu8(&mut cpu, &mut mem, Alu8::ResetBit, 0xFF, bit), !(1 << bit));
        assert_eq!(alu8(&mut cpu, &mut mem, Alu8::ResetBit, 0x00, bit), 0x00);
        assert_eq!(flags(&cpu), (false, false, false, true));
        assert_eq!(alu8(&mut cpu, &mut mem, Alu8::TestBit, 1 << bit, bit), 1 << bit);
        assert_eq!(flags(&cpu), (false, false, true, true));
        assert_eq!(alu8(&mut cpu, &mut mem, Alu8::TestBit, !(1 << bit), bit), !(1 << bit));
        assert_eq!(flags(&cpu), (true, false, true, true));
        cpu.regs.set_flag(Flag::Zero, false);
        cpu.regs.set_flag(Flag::HalfCarry, false);
    }
}

#[test]
fn carry_flag_operations() {
    let mut cpu = LR25902::new();
    let mut mem = Peripherals::new_fake();
    cpu.regs.set_flag(Flag::Zero, true);
    cpu.regs.set_flag(Flag::Subtract, true);
    cpu.regs.set_flag(Flag::HalfCarry, true);
    assert_eq!(alu8(&mut cpu, &mut mem, Alu8::SetCarryFlag, 0x12, 0), 0x12);
    assert_eq!(flags(&cpu), (true, false, false, true));
    alu8(&mut cpu, &mut mem, Alu8::ClearCarryFlag, 0x12, 0);
    assert_eq!(flags(&cpu), (true, false, false, false));
    alu8(&mut cpu, &mut mem, Alu8::ClearCarryFlag, 0x12, 0);
    assert_eq!(flags(&cpu), (true, false, false, true));
    alu8(&mut cpu, &mut mem, Alu8::Unknown, 0x12, 0);
    assert_eq!(flags(&cpu), (true, false, false, true));
    assert_eq!(cpu.regs.read8(Reg8::A), 0x12);
}

#[test]
fn the_alu_works_on_memory() {
    let mut cpu = LR25902::new();
    let mut mem = Peripherals::new_fake();
    cpu.regs.set16(Reg16::HL, 0xC123);
    mem.write(0xC123, 0x0F);
    let op = Alu8Op { op: Alu8::Increment, dest: Alu8Data::Addr(Reg16::HL), y: Alu8Data::Ignore };
    cpu.execute_alu8(&op, &mut mem);
    assert_eq!(mem.read(0xC123), 0x10);
    assert!(cpu.regs.read_flag(Flag::HalfCarry));
    cpu.regs.set8(Reg8::A, 0x01);
    let op = Alu8Op { op: Alu8::Add, dest: Alu8Data::Reg(Reg8::A), y: Alu8Data::Addr(Reg16::HL) };
    cpu.execute_alu8(&op, &mut mem);
    assert_eq!(cpu.regs.read8(Reg8::A), 0x11);
    assert_eq!(cpu.get_alu8_data(&Alu8Data::Ignore, &mem), 0xFF);
    assert_eq!(cpu.get_alu8_data(&Alu8Data::Imm(7), &mem), 7);
    cpu.set_alu8_data(&Alu8Data::Imm(7), 9, &mut mem);
    cpu.set_alu8_data(&Alu8Data::Ignore, 9, &mut mem);
    cpu.set_alu8_data(&Alu8Data::Reg(Reg8::E), 9, &mut mem);
    assert_eq!(cpu.regs.read8(Reg8::E), 9);
}

#[test]
fn sixteen_bit_arithmetic() {
    let mut cpu = LR25902::new();
    let add = |dest, y| Alu16Op { op: Alu16::Add, dest, y, imm: 0 };
    cpu.regs.set_flag(Flag::Zero, true);
    cpu.regs.set16(Reg16::HL, 0x0FFF);
    cpu.regs.set16(Reg16::BC, 0x0001);
    cpu.execute_alu16(&add(Reg16::HL, Alu16Data::Reg(Reg16::BC)));
    assert_eq!(cpu.regs.read16(Reg16::HL), 0x1000);
    assert_eq!(flags(&cpu), (true, false, true, false));
    cpu.regs.set16(Reg16::HL, 0xFFFF);
    cpu.execute_alu16(&add(Reg16::HL, Alu16Data::Reg(Reg16::HL)));
    assert_eq!(cpu.regs.read16(Reg16::HL), 0xFFFE);
    assert_eq!(flags(&cpu), (true, false, true, true));
    // A signed byte: flags as in the addition to the low byte.
    cpu.regs.set16(Reg16::SP, 0x00FF);
    cpu.execute_alu16(&add(Reg16::SP, Alu16Data::Imm(1)));
    assert_eq!(cpu.regs.read16(Reg16::SP), 0x0100);
    assert_eq!(flags(&cpu), (false, false, true, true));
    cpu.execute_alu16(&add(Reg16::SP, Alu16Data::Imm(-1)));
    assert_eq!(cpu.regs.read16(Reg16::SP), 0x00FF);
    assert_eq!(flags(&cpu), (false, false, false, false));
    cpu.regs.set16(Reg16::SP, 0x0000);
    cpu.execute_alu16(&add(Reg16::SP, Alu16Data::Imm(-128)));
    assert_eq!(cpu.regs.read16(Reg16::SP), 0xFF80);
    cpu.execute_alu16(&add(Reg16::SP, Alu16Data::Ignore));
    assert_eq!(cpu.regs.read16(Reg16::SP), 0xFF80);
    // Increment, decrement and move touch no flag.
    cpu.regs.set_flag(Flag::Zero, true);
    cpu.regs.set16(Reg16::DE, 0xFFFF);
    cpu.execute_alu16(&Alu16Op { op: Alu16::Increment, dest: Reg16::DE, y: Alu16Data::Ignore, imm: 0 });
    assert_eq!(cpu.regs.read16(Reg16::DE), 0x0000);
    cpu.execute_alu16(&Alu16Op { op: Alu16::Decrement, dest: Reg16::DE, y: Alu16Data::Ignore, imm: 0 });
    assert_eq!(cpu.regs.read16(Reg16::DE), 0xFFFF);
    cpu.execute_alu16(&Alu16Op { op: Alu16::Move, dest: Reg16::SP, y: Alu16Data::Reg(Reg16::DE), imm: 0 });
    assert_eq!(cpu.regs.read16(Reg16::SP), 0xFFFF);
    cpu.execute_alu16(&Alu16Op { op: Alu16::Move, dest: Reg16::SP, y: Alu16Data::Imm(3), imm: 0 });
    cpu.execute_alu16(&Alu16Op { op: Alu16::MoveAndAdd, dest: Reg16::SP, y: Alu16Data::Ignore, imm: 3 });
    cpu.execute_alu16(&Alu16Op { op: Alu16::Unknown, dest: Reg16::SP, y: Alu16Data::Reg(Reg16::DE), imm: 3 });
    assert_eq!(cpu.regs.read16(Reg16::SP), 0xFFFF);
    assert_eq!(flags(&cpu), (true, false, false, false));
    cpu.execute_alu16(&Alu16Op { op: Alu16::MoveAndAdd, dest: Reg16::HL, y: Alu16Data::Reg(Reg16::SP), imm: 2 });
    assert_eq!(cpu.regs.read16(Reg16::HL), 0x0001);
    assert_eq!(flags(&cpu), (false, false, true, true));
}

#[test]
fn loads_and_stores() {
    let mut cpu = LR25902::new();
    let mut mem = Peripherals::new_fake();
    let hl = Address::Register16(Reg16::HL);
    cpu.execute_op(&mut mem, &at(Op::SetWide(Reg16::HL, 0xC000)));
    cpu.execute_op(&mut mem, &at(Op::SetReg(Reg8::A, 0x11)));
    cpu.execute_op(&mut mem, &at(Op::StoreAndIncrement(hl, Reg8::A)));
    cpu.execute_op(&mut mem, &at(Op::SetAddr(Reg16::HL, 0x22)));
    assert_eq!(cpu.regs.read16(Reg16::HL), 0xC001);
    assert_eq!((mem.read(0xC000), mem.read(0xC001)), (0x11, 0x22));
    cpu.execute_op(&mut mem, &at(Op::LoadAndDecrement(Reg8::B, hl)));
    cpu.execute_op(&mut mem, &at(Op::Load(Reg8::C, hl)));
    assert_eq!(cpu.regs.read16(Reg16::BC), 0x2211);
    assert_eq!(cpu.regs.read16(Reg16::HL), 0xC000);
    cpu.execute_op(&mut mem, &at(Op::StoreAndDecrement(hl, Reg8::B)));
    assert_eq!(cpu.regs.read16(Reg16::HL), 0xBFFF);
    cpu.execute_op(&mut mem, &at(Op::LoadAndIncrement(Reg8::D, hl)));
    cpu.execute_op(&mut mem, &at(Op::Move(Reg8::E, Reg8::D)));
    assert_eq!(cpu.regs.read16(Reg16::HL), 0xC000);
    assert_eq!(mem.read(0xC000), 0x22);
    cpu.execute_op(&mut mem, &at(Op::Store(Address::Immediate16(0xC010), Reg8::A)));
    cpu.execute_op(&mut mem, &at(Op::Load(Reg8::L, Address::Immediate16(0xC010))));
    assert_eq!(cpu.regs.read8(Reg8::L), 0x11);
    cpu.execute_op(&mut mem, &at(Op::SetWide(Reg16::SP, 0xABCD)));
    cpu.execute_op(&mut mem, &at(Op::WideStore(Address::Immediate16(0xC020), Reg16::SP)));
    assert_eq!((mem.read(0xC020), mem.read(0xC021)), (0xCD, 0xAB));
    // The I/O page.
    cpu.execute_op(&mut mem, &at(Op::SetReg(Reg8::C, 0x80)));
    cpu.execute_op(&mut mem, &at(Op::SetIOC));
    cpu.execute_op(&mut mem, &at(Op::SetIO(0x81)));
    assert_eq!((mem.read(0xFF80), mem.read(0xFF81)), (0x11, 0x11));
    mem.write(0xFF82, 0x99);
    cpu.execute_op(&mut mem, &at(Op::ReadIO(0x82)));
    assert_eq!(cpu.regs.read8(Reg8::A), 0x99);
    mem.write(0xFF80, 0x77);
    cpu.execute_op(&mut mem, &at(Op::ReadIOC));
    assert_eq!(cpu.regs.read8(Reg8::A), 0x77);
    assert_eq!(cpu.pc(), 0);
}

#[test]
fn jumps_calls_and_returns() {
    let mut cpu = LR25902::new();
    let mut mem = Peripherals::new_fake();
    cpu.regs.set16(Reg16::SP, 0xD000);
    cpu.regs.set16(Reg16::PC, 0x0100);
    let three = |op| NextOp { delay_cycles: 0, pc_offset: 3, op };
    assert_eq!(cpu.execute_op(&mut mem, &three(Op::Call(0x2000))), 0x2000);
    assert_eq!(cpu.regs.read16(Reg16::SP), 0xCFFE);
    assert_eq!((mem.read(0xCFFF), mem.read(0xCFFE)), (0x01, 0x03));
    assert_eq!(cpu.execute_op(&mut mem, &at(Op::Return)), 0x0103);
    assert_eq!(cpu.regs.read16(Reg16::SP), 0xD000);
    assert_eq!(cpu.execute_op(&mut mem, &three(Op::ConditionalCall(Flag::Zero, 0x2000))), 0x0106);
    assert_eq!(cpu.extra_cycles, 0);
    assert_eq!(cpu.execute_op(&mut mem, &three(Op::ConditionalCall(Flag::NotZero, 0x2000))), 0x2000);
    assert_eq!(cpu.extra_cycles, 3);
    assert_eq!(cpu.execute_op(&mut mem, &at(Op::ConditionalReturn(Flag::Carry))), 0x2000);
    assert_eq!(cpu.extra_cycles, 0);
    assert_eq!(cpu.execute_op(&mut mem, &at(Op::ConditionalReturn(Flag::NotCarry))), 0x0109);
    assert_eq!(cpu.extra_cycles, 3);
    assert_eq!(cpu.execute_op(&mut mem, &at(Op::Reset(0x38))), 0x0038);
    assert_eq!((mem.read(0xCFFF), mem.read(0xCFFE)), (0x01, 0x09));
    assert_eq!(cpu.execute_op(&mut mem, &at(Op::Jump(Address::Immediate16(0x4000)))), 0x4000);
    cpu.regs.set16(Reg16::HL, 0x5000);
    assert_eq!(cpu.execute_op(&mut mem, &at(Op::Jump(Address::Register16(Reg16::HL)))), 0x5000);
    assert_eq!(cpu.execute_op(&mut mem, &at(Op::JumpRelative(0x5010))), 0x5010);
    assert_eq!(cpu.execute_op(&mut mem, &three(Op::ConditionalJump(Flag::Carry, 0x6000))), 0x5013);
    assert_eq!(cpu.execute_op(&mut mem, &three(Op::ConditionalJump(Flag::NotCarry, 0x6000))), 0x6000);
    assert_eq!(cpu.extra_cycles, 1);
    assert_eq!(cpu.execute_op(&mut mem, &three(Op::ConditionalJumpRelative(Flag::Zero, 0x7000))), 0x6003);
    assert_eq!(cpu.execute_op(&mut mem, &three(Op::ConditionalJumpRelative(Flag::NotZero, 0x7000))), 0x7000);
    assert_eq!(cpu.execute_op(&mut mem, &at(Op::ExecuteInterrupt(0x0040))), 0x0040);
    assert_eq!(cpu.execute_op(&mut mem, &three(Op::Unknown(0xD3))), 0x0043);
    assert_eq!(cpu.execute_op(&mut mem, &three(Op::Nop)), 0x0046);
}

#[test]
fn the_stack_and_the_program_counter_wrap() {
    let mut cpu = LR25902::new();
    let mut mem = Peripherals::new_fake();
    cpu.regs.set16(Reg16::SP, 0x0001);
    cpu.regs.set16(Reg16::BC, 0x1234);
    cpu.execute_op(&mut mem, &at(Op::Push(Reg16::BC)));
    assert_eq!(cpu.regs.read16(Reg16::SP), 0xFFFF);
    // The low byte went to the interrupt enable register, the high byte to ROM.
    assert_eq!(mem.read(0xFFFF), 0x34);
    cpu.execute_op(&mut mem, &at(Op::Pop(Reg16::DE)));
    assert_eq!(cpu.regs.read16(Reg16::SP), 0x0001);
    assert_eq!(cpu.regs.read16(Reg16::DE), 0x0034);
    cpu.regs.set16(Reg16::PC, 0xFFFF);
    assert_eq!(cpu.execute_op(&mut mem, &NextOp { delay_cycles: 0, pc_offset: 2, op: Op::Nop }), 0x0001);
}

#[test]
fn the_serial_port_can_be_heard() {
    // LD A,'!'; LDH (0x01),A; LD A,0x81; LDH (0x02),A; STOP
    let mut wolfwig = machine(&[0x3E, b'!', 0xE0, 0x01, 0x3E, 0x81, 0xE0, 0x02, 0x10]);
    let (tx, rx) = std::sync::mpsc::channel();
    wolfwig.connect_serial(tx);
    run_until_stopped(&mut wolfwig);
    wolfwig.step();
    assert_eq!(rx.try_recv(), Ok(b'!'));
    wolfwig.go_fast();
    assert!(wolfwig.peripherals.unthrottled);
}
