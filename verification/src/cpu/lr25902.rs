//! The executor: one machine cycle of the CPU at a time.

use crate::cpu::alu::{
    add16, add16_spec, add_signed, add_signed_spec, alu8, alu8_spec, wrap16, wrap_word, Alu16Result,
    Alu8Result,
};
use crate::cpu::decode::{
    decode, decode_spec, following, Address, Alu16, Alu16Data, Alu16Op, Alu8Data, Alu8Op, Op,
};
use crate::cpu::registers::{Flag, Reg16, Reg8, Registers};
use crate::peripherals::{Bus, Peripherals};
use crate::util::{make_word, word};
use vstd::prelude::*;

verus! {

/// The instruction that the CPU is working on: it takes effect when its delay
/// has run out.
#[derive(Debug, Copy, Clone, PartialEq, Eq, Structural)]
pub struct NextOp {
    /// The machine cycles that are left before the instruction takes effect.
    pub delay_cycles: usize,
    /// The number of bytes by which the instruction moves the program counter.
    pub pc_offset: u16,
    pub op: Op,
}

impl NextOp {
    /// No instruction: a no-operation of no bytes that takes effect at once.
    pub open spec fn idle() -> NextOp {
        NextOp { delay_cycles: 0, pc_offset: 0, op: Op::Nop }
    }

    pub fn new() -> (r: Self)
        ensures
            r == NextOp::idle(),
    {
        Self { delay_cycles: 0, pc_offset: 0, op: Op::Nop }
    }
}

/// The CPU.
#[derive(Debug, Copy, Clone, PartialEq, Eq, Structural)]
pub struct LR25902 {
    pub regs: Registers,
    pub next_op: NextOp,
    /// The number of machine cycles that have passed.
    pub cycle: u64,
    /// The master switch of the interrupts.
    pub interrupt_enable: bool,
    pub halted: bool,
    /// The program counter has been pushed for an interrupt whose vector is yet
    /// to be taken.
    pub interrupted: bool,
    pub stopped: bool,
    /// The machine cycles that the last instruction cost beyond its base cost,
    /// because it took its branch.
    pub extra_cycles: u8,
}

/// The machine cycles that a taken relative or absolute jump costs beyond its
/// base cost.
pub const JUMP_TAKEN_CYCLES: u8 = 1;

/// The machine cycles that a taken conditional call or return costs beyond its
/// base cost.
pub const CALL_TAKEN_CYCLES: u8 = 3;

/// The machine cycles between the decision to serve an interrupt and the push of
/// the program counter.
pub const INTERRUPT_DELAY: usize = 3;

/// The byte that an operand of the 8-bit ALU stands for. An operand that is
/// ignored reads 0xFF.
#[verifier::opaque]
pub open spec fn operand(regs: Registers, bus: Bus, data: Alu8Data) -> u8 {
    match data {
        Alu8Data::Reg(reg) => regs.read8_spec(reg),
        Alu8Data::Imm(v) => v,
        Alu8Data::Addr(reg16) => bus.read(regs.read16_spec(reg16)),
        Alu8Data::Ignore => 0xFF,
    }
}

/// The registers with those flags replaced that an operation sets.
#[verifier::opaque]
pub open spec fn flagged(
    regs: Registers,
    zero: Option<bool>,
    subtract: Option<bool>,
    half_carry: Option<bool>,
    carry: Option<bool>,
) -> Registers {
    let r1 = if let Some(z) = zero {
        regs.set_flag_spec(Flag::Zero, z)
    } else {
        regs
    };
    let r2 = if let Some(n) = subtract {
        r1.set_flag_spec(Flag::Subtract, n)
    } else {
        r1
    };
    let r3 = if let Some(h) = half_carry {
        r2.set_flag_spec(Flag::HalfCarry, h)
    } else {
        r2
    };
    if let Some(c) = carry {
        r3.set_flag_spec(Flag::Carry, c)
    } else {
        r3
    }
}

/// A result of the 16-bit ALU that changes nothing.
pub open spec fn nothing16() -> Alu16Result {
    Alu16Result { out: None, zero: None, subtract: None, half_carry: None, carry: None }
}

/// What an instruction of the 16-bit ALU computes from the registers. Increment,
/// decrement and move touch no flag.
#[verifier::opaque]
pub open spec fn alu16_result(regs: Registers, op: Alu16Op) -> Alu16Result {
    let x = regs.read16_spec(op.dest);
    match op.op {
        Alu16::Add => match op.y {
            Alu16Data::Reg(yreg) => add16_spec(x, regs.read16_spec(yreg)),
            Alu16Data::Imm(imm) => add_signed_spec(x, imm),
            Alu16Data::Ignore => nothing16(),
        },
        Alu16::Decrement => Alu16Result { out: Some(wrap16(x - 1)), ..nothing16() },
        Alu16::Increment => Alu16Result { out: Some(wrap16(x + 1)), ..nothing16() },
        Alu16::Move => match op.y {
            Alu16Data::Reg(yreg) => Alu16Result {
                out: Some(regs.read16_spec(yreg)),
                ..nothing16()
            },
            _ => nothing16(),
        },
        Alu16::MoveAndAdd => match op.y {
            Alu16Data::Reg(yreg) => add_signed_spec(regs.read16_spec(yreg), op.imm),
            _ => nothing16(),
        },
        Alu16::Unknown => nothing16(),
    }
}

/// The address that an `Address` stands for.
#[verifier::opaque]
pub open spec fn resolve(regs: Registers, addr: Address) -> u16 {
    match addr {
        Address::Register16(reg) => regs.read16_spec(reg),
        Address::Immediate16(a) => a,
    }
}

/// The registers with the register of an `Address` moved by `by`; an immediate
/// address has no register to move.
#[verifier::opaque]
pub open spec fn bumped(regs: Registers, addr: Address, by: int) -> Registers {
    match addr {
        Address::Register16(reg) => regs.set16_spec(reg, wrap16(regs.read16_spec(reg) + by)),
        Address::Immediate16(_) => regs,
    }
}

/// The address in the I/O page at `offset`.
pub open spec fn io_address(offset: u8) -> u16 {
    (0xFF00 + offset) as u16
}

/// The kinds of instructions, by what they act on.
#[derive(Debug, Copy, Clone, PartialEq, Eq, Structural)]
pub enum OpKind {
    /// Writes to the bus: a store, a write to the I/O page, a push.
    Store,
    /// Sets a register from a constant, a register or the I/O page.
    Assign,
    /// Loads a register from memory: a load, a pop.
    Load,
    /// A call, a restart or a return.
    Call,
    /// A jump.
    Jump,
    /// Everything else: the ALU and the switches of the CPU.
    Control,
}

/// A CPU together with the bus it works on.
pub struct Machine {
    pub cpu: LR25902,
    pub bus: Bus,
}

impl Machine {
    /// The machine with other registers.
    pub open spec fn with_regs(self, regs: Registers) -> Machine {
        Machine { cpu: LR25902 { regs, ..self.cpu }, ..self }
    }

    /// The machine after the CPU has written `val` to `address`.
    pub open spec fn written(self, address: u16, val: u8) -> Machine {
        Machine { bus: self.bus.write(address, val), ..self }
    }

    /// The machine with the program counter at `pc`.
    pub open spec fn at(self, pc: u16) -> Machine {
        self.with_regs(self.cpu.regs.set16_spec(Reg16::PC, pc))
    }

    /// The machine with the extra cost `extra` noted for the instruction in work.
    pub open spec fn costing(self, extra: u8) -> Machine {
        Machine { cpu: LR25902 { extra_cycles: extra, ..self.cpu }, ..self }
    }

    /// The machine after `val` has gone to a destination of the 8-bit ALU. Only a
    /// register and an address can take a byte.
    #[verifier::opaque]
    pub open spec fn stored(self, dest: Alu8Data, val: u8) -> Machine {
        match dest {
            Alu8Data::Reg(reg) => self.with_regs(self.cpu.regs.set8_spec(reg, val)),
            Alu8Data::Addr(reg16) => self.written(self.cpu.regs.read16_spec(reg16), val),
            _ => self,
        }
    }

    /// What an instruction of the 8-bit ALU computes.
    pub open spec fn alu8_result(&self, op: Alu8Op) -> Alu8Result {
        let regs = self.cpu.regs;
        alu8_spec(
            op.op,
            operand(regs, self.bus, op.dest),
            operand(regs, self.bus, op.y),
            regs.read_flag_spec(Flag::Subtract),
            regs.read_flag_spec(Flag::HalfCarry),
            regs.read_flag_spec(Flag::Carry),
        )
    }

    /// The machine after an instruction of the 8-bit ALU: the result goes to the
    /// destination, then the flags are set.
    #[verifier::opaque]
    pub open spec fn alu8_done(self, op: Alu8Op) -> Machine {
        let r = self.alu8_result(op);
        let m = if let Some(out) = r.out {
            self.stored(op.dest, out)
        } else {
            self
        };
        m.with_regs(flagged(m.cpu.regs, r.zero, r.subtract, r.half_carry, r.carry))
    }

    /// The machine after an instruction of the 16-bit ALU.
    #[verifier::opaque]
    pub open spec fn alu16_done(self, op: Alu16Op) -> Machine {
        let regs = self.cpu.regs;
        let r = alu16_result(regs, op);
        let regs1 = if let Some(out) = r.out {
            regs.set16_spec(op.dest, out)
        } else {
            regs
        };
        self.with_regs(flagged(regs1, r.zero, r.subtract, r.half_carry, r.carry))
    }

    /// The machine after `value` has been pushed: its high byte goes below the
    /// stack pointer, its low byte below that, and the stack pointer comes down
    /// by two.
    #[verifier::opaque]
    pub open spec fn pushed(self, value: u16) -> Machine {
        let sp = self.cpu.regs.read16_spec(Reg16::SP);
        let m = self.written(wrap16(sp - 1), (value / 256) as u8).written(
            wrap16(sp - 2),
            (value % 256) as u8,
        );
        m.with_regs(m.cpu.regs.set16_spec(Reg16::SP, wrap16(sp - 2)))
    }

    /// The word on top of the stack, low byte first.
    #[verifier::opaque]
    pub open spec fn top_of_stack(&self) -> u16 {
        let sp = self.cpu.regs.read16_spec(Reg16::SP);
        word(self.bus.read(wrap16(sp + 1)), self.bus.read(sp))
    }

    /// The machine after a word has been popped: the stack pointer goes up by
    /// two.
    #[verifier::opaque]
    pub open spec fn popped(self) -> Machine {
        let sp = self.cpu.regs.read16_spec(Reg16::SP);
        self.with_regs(self.cpu.regs.set16_spec(Reg16::SP, wrap16(sp + 2)))
    }

    /// The machine after an instruction that moves data: a load, a store, a
    /// move, a push or a pop.
    #[verifier::opaque]
    pub open spec fn transferred(self, op: Op) -> Machine {
        let regs = self.cpu.regs;
        let bus = self.bus;
        match op {
            Op::SetReg(reg, val) => self.with_regs(regs.set8_spec(reg, val)),
            Op::SetWide(reg, val) => self.with_regs(regs.set16_spec(reg, val)),
            Op::SetAddr(reg, val) => self.written(regs.read16_spec(reg), val),
            Op::SetIOC => self.written(
                io_address(regs.read8_spec(Reg8::C)),
                regs.read8_spec(Reg8::A),
            ),
            Op::SetIO(offset) => self.written(io_address(offset), regs.read8_spec(Reg8::A)),
            Op::ReadIO(offset) => self.with_regs(
                regs.set8_spec(Reg8::A, bus.read(io_address(offset))),
            ),
            Op::ReadIOC => self.with_regs(
                regs.set8_spec(Reg8::A, bus.read(io_address(regs.read8_spec(Reg8::C)))),
            ),
            Op::Store(addr, reg) => self.written(resolve(regs, addr), regs.read8_spec(reg)),
            Op::WideStore(addr, reg) => {
                let a = resolve(regs, addr);
                let data = regs.read16_spec(reg);
                self.written(a, (data % 256) as u8).written(wrap16(a + 1), (data / 256) as u8)
            },
            Op::StoreAndDecrement(addr, reg) => {
                let m = self.written(resolve(regs, addr), regs.read8_spec(reg));
                m.with_regs(bumped(regs, addr, -1))
            },
            Op::StoreAndIncrement(addr, reg) => {
                let m = self.written(resolve(regs, addr), regs.read8_spec(reg));
                m.with_regs(bumped(regs, addr, 1))
            },
            Op::Load(reg, addr) => self.with_regs(regs.set8_spec(reg, bus.read(resolve(regs, addr)))),
            Op::LoadAndIncrement(reg, addr) => self.with_regs(
                bumped(regs.set8_spec(reg, bus.read(resolve(regs, addr))), addr, 1),
            ),
            Op::LoadAndDecrement(reg, addr) => self.with_regs(
                bumped(regs.set8_spec(reg, bus.read(resolve(regs, addr))), addr, -1),
            ),
            Op::Move(dest, src) => self.with_regs(regs.set8_spec(dest, regs.read8_spec(src))),
            Op::Push(reg) => self.pushed(regs.read16_spec(reg)),
            Op::Pop(reg) => {
                let m = self.popped();
                m.with_regs(m.cpu.regs.set16_spec(reg, self.top_of_stack()))
            },
            _ => self,
        }
    }

    /// The machine after a call to `target` from an instruction that ends at
    /// `next_pc`: the address behind the call is pushed.
    #[verifier::opaque]
    pub open spec fn called(self, next_pc: u16, target: u16, extra: u8) -> Machine {
        self.pushed(next_pc).costing(extra).at(target)
    }

    /// The machine after a return: the address to go on at is popped.
    #[verifier::opaque]
    pub open spec fn returned(self, extra: u8) -> Machine {
        self.popped().costing(extra).at(self.top_of_stack())
    }

    /// The machine after an instruction that decides where the program goes on:
    /// a jump, a call, a return or a restart. `next_pc` is the address behind the
    /// instruction. A conditional instruction whose condition does not hold goes
    /// on there; one that takes its branch costs extra cycles.
    #[verifier::opaque]
    pub open spec fn branched(self, op: Op, next_pc: u16) -> Machine {
        let regs = self.cpu.regs;
        match op {
            Op::Call(target) => self.called(next_pc, target, 0),
            Op::Reset(target) => self.called(next_pc, target, 0),
            Op::ConditionalCall(flag, target) => if regs.read_flag_spec(flag) {
                self.called(next_pc, target, CALL_TAKEN_CYCLES)
            } else {
                self.at(next_pc)
            },
            Op::Return => self.returned(0),
            Op::ReturnAndEnableInterrupts => {
                let m = self.returned(0);
                Machine { cpu: LR25902 { interrupt_enable: true, ..m.cpu }, ..m }
            },
            Op::ConditionalReturn(flag) => if regs.read_flag_spec(flag) {
                self.returned(CALL_TAKEN_CYCLES)
            } else {
                self.at(next_pc)
            },
            Op::ConditionalJumpRelative(flag, target) => if regs.read_flag_spec(flag) {
                self.costing(JUMP_TAKEN_CYCLES).at(target)
            } else {
                self.at(next_pc)
            },
            Op::ConditionalJump(flag, target) => if regs.read_flag_spec(flag) {
                self.costing(JUMP_TAKEN_CYCLES).at(target)
            } else {
                self.at(next_pc)
            },
            Op::JumpRelative(target) => self.at(target),
            Op::Jump(addr) => self.at(resolve(regs, addr)),
            Op::ExecuteInterrupt(target) => self.at(target),
            _ => self.at(next_pc),
        }
    }

    /// The machine after an instruction that neither moves data nor branches.
    /// An unknown instruction does nothing.
    #[verifier::opaque]
    pub open spec fn controlled(self, op: Op, next_pc: u16) -> Machine {
        match op {
            Op::EnableInterrupts => Machine {
                cpu: LR25902 { interrupt_enable: true, ..self.cpu },
                ..self
            },
            Op::DisableInterrupts => Machine {
                cpu: LR25902 { interrupt_enable: false, ..self.cpu },
                ..self
            },
            Op::SetupInterrupt => self.pushed(next_pc),
            Op::Halt => Machine { cpu: LR25902 { halted: true, ..self.cpu }, ..self },
            Op::Stop => Machine { cpu: LR25902 { stopped: true, ..self.cpu }, ..self },
            Op::Alu8(alu_op) => self.alu8_done(alu_op),
            Op::Alu16(alu_op) => self.alu16_done(alu_op),
            _ => self,
        }
    }

    /// The machine after the instruction `op` has taken effect. The program goes
    /// on behind the instruction unless the instruction says otherwise.
    #[verifier::opaque]
    pub open spec fn executed(self, op: NextOp) -> Machine {
        let next_pc = wrap16(self.cpu.regs.read16_spec(Reg16::PC) + op.pc_offset);
        let m = self.costing(0);
        if LR25902::is_transfer(op.op) {
            m.transferred(op.op).at(next_pc)
        } else if LR25902::is_branch(op.op) {
            m.branched(op.op, next_pc)
        } else {
            m.controlled(op.op, next_pc).at(next_pc)
        }
    }

    /// The machine with the instruction scheduled that the bus holds at the
    /// program counter. It takes effect when its base cost, and the extra cost of
    /// the instruction before it, have passed.
    #[verifier::opaque]
    pub open spec fn fetching(self) -> Machine {
        let pc = self.cpu.regs.read16_spec(Reg16::PC);
        let d = decode_spec(
            self.bus.read(pc),
            self.bus.read(following(pc, 1)),
            self.bus.read(following(pc, 2)),
            pc,
        );
        Machine {
            cpu: LR25902 {
                next_op: NextOp {
                    op: d.0,
                    pc_offset: d.1 as u16,
                    delay_cycles: (if d.2 > 0 {
                        d.2 - 1
                    } else {
                        0
                    } + self.cpu.extra_cycles) as usize,
                },
                extra_cycles: 0,
                interrupted: false,
                ..self.cpu
            },
            ..self
        }
    }

    /// The machine with the entry into an interrupt scheduled: the push of the
    /// program counter, three cycles from now. The master switch goes off, and a
    /// halted CPU wakes.
    #[verifier::opaque]
    pub open spec fn entering(self) -> Machine {
        Machine {
            cpu: LR25902 {
                next_op: NextOp {
                    op: Op::SetupInterrupt,
                    delay_cycles: INTERRUPT_DELAY,
                    pc_offset: 0,
                },
                interrupted: true,
                interrupt_enable: false,
                halted: false,
                extra_cycles: 0,
                ..self.cpu
            },
            ..self
        }
    }

    /// The machine with the vector `vector` taken: the program goes on there in
    /// the next cycle, and the line of the interrupt is lowered.
    #[verifier::opaque]
    pub open spec fn vectored(self, vector: u16) -> Machine {
        Machine {
            cpu: LR25902 {
                next_op: NextOp { op: Op::ExecuteInterrupt(vector), delay_cycles: 0, pc_offset: 0 },
                interrupted: false,
                extra_cycles: 0,
                ..self.cpu
            },
            bus: Bus { interrupt: self.bus.interrupt.acknowledged(), ..self.bus },
        }
    }

    /// What follows the instruction that has just taken effect. If the program
    /// counter has just been pushed for an interrupt, its vector is taken; or if
    /// an interrupt is pending and the master switch is on, the entry into it is
    /// scheduled; or else the next instruction is fetched.
    #[verifier::opaque]
    pub open spec fn continued(self) -> Machine {
        let pending = self.bus.interrupt.pending_vector();
        if self.cpu.interrupted && pending is Some {
            self.vectored(pending->Some_0)
        } else if !self.cpu.interrupted && pending is Some && self.cpu.interrupt_enable {
            self.entering()
        } else {
            self.fetching()
        }
    }

    /// The machine with one cycle less to wait for the instruction in work.
    pub open spec fn waited(self) -> Machine {
        Machine {
            cpu: LR25902 {
                next_op: NextOp {
                    delay_cycles: (self.cpu.next_op.delay_cycles - 1) as usize,
                    ..self.cpu.next_op
                },
                ..self.cpu
            },
            ..self
        }
    }

    /// The machine with no instruction in work.
    pub open spec fn cleared(self) -> Machine {
        Machine { cpu: LR25902 { next_op: NextOp::idle(), ..self.cpu }, ..self }
    }

    /// The machine after one machine cycle of the CPU, without the count of the
    /// cycles.
    ///
    /// While the instruction in work has cycles left, one of them passes. When
    /// none is left, the instruction takes effect and the next is made ready. A
    /// halted CPU does nothing until an interrupt is pending: then it wakes, and
    /// enters the interrupt if the master switch is on.
    #[verifier::opaque]
    pub open spec fn cycled(self) -> Machine {
        if self.cpu.next_op.delay_cycles > 0 {
            self.waited()
        } else if !self.cpu.halted {
            self.cleared().executed(self.cpu.next_op).continued()
        } else if self.bus.interrupt.pending_vector() is Some {
            if self.cpu.interrupt_enable {
                self.entering()
            } else {
                Machine { cpu: LR25902 { halted: false, ..self.cpu }, ..self }
            }
        } else {
            self
        }
    }

    /// The machine after one machine cycle of the CPU.
    pub open spec fn stepped(self) -> Machine {
        let m = self.cycled();
        Machine {
            cpu: LR25902 {
                cycle: if m.cpu.cycle == u64::MAX {
                    0
                } else {
                    (m.cpu.cycle + 1) as u64
                },
                ..m.cpu
            },
            ..m
        }
    }
}

/// With the stack in high RAM, a word that has been pushed is on top of the
/// stack, and popping it brings the stack pointer back.
pub proof fn lemma_push_pop(m: Machine, value: u16)
    requires
        0xFF82 <= m.cpu.regs.read16_spec(Reg16::SP) <= 0xFFFF,
    ensures
        m.pushed(value).top_of_stack() == value,
        m.pushed(value).popped().cpu.regs.read16_spec(Reg16::SP) == m.cpu.regs.read16_spec(
            Reg16::SP,
        ),
        m.pushed(value).popped().bus == m.pushed(value).bus,
{
    reveal(Machine::pushed);
    reveal(Machine::popped);
    reveal(Machine::top_of_stack);
    reveal(Bus::read);
    reveal(Bus::write);
    reveal(Bus::read_direct);
    reveal(Bus::write_direct);
    reveal(Registers::read16_spec);
    reveal(Registers::set16_spec);
    let sp = m.cpu.regs.read16_spec(Reg16::SP);
    let high = (value / 256) as u8;
    let low = (value % 256) as u8;
    let a1 = wrap16(sp - 1);
    let a2 = wrap16(sp - 2);
    let b1 = m.bus.write(a1, high);
    let b2 = b1.write(a2, low);
    crate::peripherals::mem::model::lemma_read_after_write(m.bus.mem, a1, a1, high);
    crate::peripherals::mem::model::lemma_read_after_write(b1.mem, a2, a2, low);
    crate::peripherals::mem::model::lemma_read_after_write(b1.mem, a2, a1, low);
    assert(b2.read(a2) == low);
    assert(b2.read(a1) == high);
}

/// A halted CPU does nothing while no interrupt is pending. A pending interrupt
/// wakes it: with the master switch on the interrupt is entered, with the master
/// switch off the program goes on behind the halt.
pub proof fn lemma_halt(m: Machine)
    requires
        m.cpu.halted,
        m.cpu.next_op.delay_cycles == 0,
    ensures
        m.bus.interrupt.pending_vector() is None ==> m.cycled() == m,
        m.bus.interrupt.pending_vector() is Some && m.cpu.interrupt_enable ==> m.cycled()
            == m.entering(),
        m.bus.interrupt.pending_vector() is Some && !m.cpu.interrupt_enable ==> m.cycled() == (
        Machine { cpu: LR25902 { halted: false, ..m.cpu }, ..m }),
{
    reveal(Machine::cycled);
}

/// An opcode that stands for no instruction does nothing but move the program
/// counter over itself.
pub proof fn lemma_unknown_is_skipped(m: Machine, code: u8)
    ensures
        m.executed(NextOp { op: Op::Unknown(code), pc_offset: 1, delay_cycles: 0 }) == m.costing(
            0,
        ).at(wrap16(m.cpu.regs.read16_spec(Reg16::PC) + 1)),
{
    reveal(Machine::executed);
    reveal(Machine::controlled);
}

/// A conditional jump whose condition does not hold goes on behind itself at its
/// base cost; one whose condition holds goes to its target and costs a cycle
/// more.
pub proof fn lemma_conditional_jump(m: Machine, flag: Flag, target: u16, size: u16)
    ensures
        ({
            let after = m.executed(
                NextOp { op: Op::ConditionalJump(flag, target), pc_offset: size, delay_cycles: 0 },
            );
            if m.cpu.regs.read_flag_spec(flag) {
                after == m.costing(JUMP_TAKEN_CYCLES).at(target)
            } else {
                after == m.costing(0).at(wrap16(m.cpu.regs.read16_spec(Reg16::PC) + size))
            }
        }),
{
    reveal(Machine::executed);
    reveal(Machine::branched);
}

/// A push onto a stack in high RAM changes high RAM and the stack pointer and
/// nothing else.
pub proof fn lemma_push_frame(m: Machine, value: u16)
    requires
        0xFF82 <= m.cpu.regs.read16_spec(Reg16::SP) <= 0xFFFF,
    ensures
        m.pushed(value).cpu == (LR25902 {
            regs: m.cpu.regs.set16_spec(
                Reg16::SP,
                (m.cpu.regs.read16_spec(Reg16::SP) - 2) as u16,
            ),
            ..m.cpu
        }),
        m.pushed(value).bus == (Bus { mem: m.pushed(value).bus.mem, ..m.bus }),
{
    reveal(Machine::pushed);
    reveal(Bus::write);
    reveal(Bus::write_direct);
}

/// The push of the program counter for an interrupt, with the stack in high
/// RAM: the program counter goes onto the stack, the vector of the pending
/// interrupt is taken for the next cycle, and its line is lowered.
proof fn lemma_interrupt_push(m: Machine, vector: u16)
    requires
        m.cpu.next_op == (NextOp { op: Op::SetupInterrupt, delay_cycles: 0, pc_offset: 0 }),
        m.cpu.interrupted,
        !m.cpu.halted,
        m.bus.interrupt.pending_vector() == Some(vector),
        0xFF82 <= m.cpu.regs.read16_spec(Reg16::SP) <= 0xFFFF,
    ensures
        m.cycled().cpu.next_op == (NextOp {
            op: Op::ExecuteInterrupt(vector),
            delay_cycles: 0,
            pc_offset: 0,
        }),
        m.cycled().top_of_stack() == m.cpu.regs.read16_spec(Reg16::PC),
        m.cycled().cpu.regs.read16_spec(Reg16::SP) == m.cpu.regs.read16_spec(Reg16::SP) - 2,
        m.cycled().bus.interrupt == m.bus.interrupt.acknowledged(),
        m.cycled().cpu.interrupt_enable == m.cpu.interrupt_enable,
        !m.cycled().cpu.interrupted,
        !m.cycled().cpu.halted,
{
    let pc = m.cpu.regs.read16_spec(Reg16::PC);
    let start = m.cleared().costing(0);
    assert(start.cpu.regs == m.cpu.regs);
    let stacked = start.pushed(pc);
    lemma_push_frame(start, pc);
    lemma_push_pop(start, pc);
    let done = m.cleared().executed(m.cpu.next_op);
    assert(done == stacked.at(pc)) by {
        reveal(Machine::executed);
        reveal(Machine::controlled);
    }
    assert(wrap16(pc + 0) == pc);
    assert(done.top_of_stack() == stacked.top_of_stack() && done.cpu.regs.read16_spec(Reg16::SP)
        == stacked.cpu.regs.read16_spec(Reg16::SP)) by {
        reveal(Machine::top_of_stack);
        reveal(Registers::read16_spec);
        reveal(Registers::set16_spec);
    }
    assert(stacked.cpu.regs.read16_spec(Reg16::SP) == m.cpu.regs.read16_spec(Reg16::SP) - 2) by {
        reveal(Registers::read16_spec);
        reveal(Registers::set16_spec);
    }
    assert(m.cycled() == done.vectored(vector)) by {
        reveal(Machine::cycled);
        reveal(Machine::continued);
    }
    assert(done.vectored(vector).top_of_stack() == done.top_of_stack()) by {
        reveal(Machine::vectored);
        reveal(Machine::top_of_stack);
        reveal(Bus::read);
        reveal(Bus::read_direct);
    }
    reveal(Machine::vectored);
}

/// The cycle that takes the vector of an interrupt: the program stands at the
/// vector, and nothing else has changed.
proof fn lemma_interrupt_vector(m: Machine, vector: u16)
    requires
        m.cpu.next_op == (NextOp {
            op: Op::ExecuteInterrupt(vector),
            delay_cycles: 0,
            pc_offset: 0,
        }),
        !m.cpu.interrupted,
        !m.cpu.interrupt_enable,
        !m.cpu.halted,
    ensures
        m.cycled().cpu.regs.read16_spec(Reg16::PC) == vector,
        m.cycled().bus == m.bus,
        !m.cycled().cpu.interrupt_enable,
        !m.cycled().cpu.interrupted,
{
    let jumped = m.cleared().executed(m.cpu.next_op);
    assert(jumped == m.cleared().costing(0).at(vector)) by {
        reveal(Machine::executed);
        reveal(Machine::branched);
    }
    assert(m.cycled() == jumped.fetching()) by {
        reveal(Machine::cycled);
        reveal(Machine::continued);
    }
    assert(jumped.cpu.regs.read16_spec(Reg16::PC) == vector) by {
        reveal(Registers::read16_spec);
        reveal(Registers::set16_spec);
    }
    reveal(Machine::fetching);
}

/// The entry into an interrupt, with the stack in high RAM: the push of the
/// program counter that was scheduled takes effect after three cycles of
/// waiting, the cycle after that takes the vector, and five cycles after the
/// entry was scheduled the program stands at the vector. By then the program
/// counter is on the stack, the line of the interrupt is lowered and the master
/// switch is off.
pub proof fn lemma_interrupt_entry(m: Machine, vector: u16)
    requires
        m.cpu.next_op == (NextOp {
            op: Op::SetupInterrupt,
            delay_cycles: INTERRUPT_DELAY,
            pc_offset: 0,
        }),
        m.cpu.interrupted,
        !m.cpu.interrupt_enable,
        !m.cpu.halted,
        m.bus.interrupt.pending_vector() == Some(vector),
        0xFF82 <= m.cpu.regs.read16_spec(Reg16::SP) <= 0xFFFF,
    ensures
        ({
            let pushed = m.cycled().cycled().cycled().cycled();
            let after = pushed.cycled();
            &&& pushed.top_of_stack() == m.cpu.regs.read16_spec(Reg16::PC)
            &&& pushed.cpu.regs.read16_spec(Reg16::SP) == m.cpu.regs.read16_spec(Reg16::SP) - 2
            &&& pushed.bus.interrupt == m.bus.interrupt.acknowledged()
            &&& after.cpu.regs.read16_spec(Reg16::PC) == vector
            &&& after.bus == pushed.bus
            &&& !after.cpu.interrupt_enable
            &&& !after.cpu.interrupted
        }),
{
    let m1 = m.cycled();
    let m2 = m1.cycled();
    let m3 = m2.cycled();
    assert(m1 == m.waited() && m2 == m1.waited() && m3 == m2.waited()) by {
        reveal(Machine::cycled);
    }
    lemma_interrupt_push(m3, vector);
    lemma_interrupt_vector(m3.cycled(), vector);
}

impl LR25902 {
    /// The kind of the instruction `op`.
    pub open spec fn kind_of(op: Op) -> OpKind {
        match op {
            Op::SetAddr(_, _) => OpKind::Store,
            Op::SetIOC => OpKind::Store,
            Op::SetIO(_) => OpKind::Store,
            Op::Store(_, _) => OpKind::Store,
            Op::WideStore(_, _) => OpKind::Store,
            Op::StoreAndDecrement(_, _) => OpKind::Store,
            Op::StoreAndIncrement(_, _) => OpKind::Store,
            Op::Push(_) => OpKind::Store,
            Op::SetReg(_, _) => OpKind::Assign,
            Op::SetWide(_, _) => OpKind::Assign,
            Op::ReadIO(_) => OpKind::Assign,
            Op::ReadIOC => OpKind::Assign,
            Op::Move(_, _) => OpKind::Assign,
            Op::Load(_, _) => OpKind::Load,
            Op::LoadAndIncrement(_, _) => OpKind::Load,
            Op::LoadAndDecrement(_, _) => OpKind::Load,
            Op::Pop(_) => OpKind::Load,
            Op::Call(_) => OpKind::Call,
            Op::Reset(_) => OpKind::Call,
            Op::ConditionalCall(_, _) => OpKind::Call,
            Op::Return => OpKind::Call,
            Op::ReturnAndEnableInterrupts => OpKind::Call,
            Op::ConditionalReturn(_) => OpKind::Call,
            Op::ConditionalJumpRelative(_, _) => OpKind::Jump,
            Op::ConditionalJump(_, _) => OpKind::Jump,
            Op::JumpRelative(_) => OpKind::Jump,
            Op::Jump(_) => OpKind::Jump,
            Op::ExecuteInterrupt(_) => OpKind::Jump,
            _ => OpKind::Control,
        }
    }

    /// Whether `op` writes to the bus.
    pub open spec fn is_store(op: Op) -> bool {
        LR25902::kind_of(op) is Store
    }

    /// Whether `op` sets a register from a constant, a register or the I/O page.
    pub open spec fn is_set(op: Op) -> bool {
        LR25902::kind_of(op) is Assign
    }

    /// Whether `op` loads a register from memory.
    pub open spec fn is_load(op: Op) -> bool {
        LR25902::kind_of(op) is Load
    }

    /// Whether `op` is a call, a restart or a return.
    pub open spec fn is_call(op: Op) -> bool {
        LR25902::kind_of(op) is Call
    }

    /// Whether `op` is a jump.
    pub open spec fn is_jump(op: Op) -> bool {
        LR25902::kind_of(op) is Jump
    }

    /// Whether `op` moves data.
    pub open spec fn is_transfer(op: Op) -> bool {
        LR25902::is_store(op) || LR25902::is_set(op) || LR25902::is_load(op)
    }

    /// Whether `op` decides where the program goes on.
    pub open spec fn is_branch(op: Op) -> bool {
        LR25902::is_call(op) || LR25902::is_jump(op)
    }

    /// Which kind of instruction `op` is.
    pub(crate) fn kind(op: &Op) -> (k: OpKind)
        ensures
            k == LR25902::kind_of(*op),
    {
        match op {
            Op::SetAddr(_, _)
            | Op::SetIOC
            | Op::SetIO(_)
            | Op::Store(_, _)
            | Op::WideStore(_, _)
            | Op::StoreAndDecrement(_, _)
            | Op::StoreAndIncrement(_, _)
            | Op::Push(_) => OpKind::Store,
            Op::SetReg(_, _) | Op::SetWide(_, _) | Op::ReadIO(_) | Op::ReadIOC | Op::Move(_, _) => {
                OpKind::Assign
            },
            Op::Load(_, _) | Op::LoadAndIncrement(_, _) | Op::LoadAndDecrement(_, _) | Op::Pop(_) => {
                OpKind::Load
            },
            Op::Call(_)
            | Op::Reset(_)
            | Op::ConditionalCall(_, _)
            | Op::Return
            | Op::ReturnAndEnableInterrupts
            | Op::ConditionalReturn(_) => OpKind::Call,
            Op::ConditionalJumpRelative(_, _)
            | Op::ConditionalJump(_, _)
            | Op::JumpRelative(_)
            | Op::Jump(_)
            | Op::ExecuteInterrupt(_) => OpKind::Jump,
            _ => OpKind::Control,
        }
    }

    /// This CPU together with the bus of `mem`.
    pub open spec fn on(&self, mem: &Peripherals) -> Machine {
        Machine { cpu: *self, bus: mem@ }
    }

    /// A CPU at address 0 with every register cleared and interrupts off.
    pub open spec fn new_spec() -> LR25902 {
        LR25902 {
            regs: Registers::cleared(),
            next_op: NextOp::idle(),
            cycle: 0,
            interrupt_enable: false,
            halted: false,
            interrupted: false,
            stopped: false,
            extra_cycles: 0,
        }
    }

    /// A CPU at address 0 with every register cleared and interrupts off.
    pub fn new() -> (r: Self)
        ensures
            r == LR25902::new_spec(),
    {
        Self {
            regs: Registers::new(),
            next_op: NextOp::new(),
            cycle: 0,
            interrupt_enable: false,
            interrupted: false,
            halted: false,
            stopped: false,
            extra_cycles: 0,
        }
    }

    /// The program counter.
    pub fn pc(&self) -> (r: u16)
        ensures
            r == self.regs.read16_spec(Reg16::PC),
    {
        self.regs.read16(Reg16::PC)
    }

    /// Reads an operand of the 8-bit ALU.
    pub fn get_alu8_data(&self, data: &Alu8Data, mem: &Peripherals) -> (r: u8)
        ensures
            r == operand(self.regs, mem@, *data),
    {
        reveal(operand);
        match data {
            Alu8Data::Reg(reg) => self.regs.read8(*reg),
            Alu8Data::Imm(data) => *data,
            Alu8Data::Addr(reg16) => {
                let addr = self.regs.read16(*reg16);
                mem.read(addr)
            },
            Alu8Data::Ignore => 0xFF,
        }
    }

    /// Writes a byte to a destination of the 8-bit ALU.
    pub fn set_alu8_data(&mut self, dest: &Alu8Data, val: u8, mem: &mut Peripherals)
        ensures
            final(self).on(final(mem)) == old(self).on(old(mem)).stored(*dest, val),
            final(mem).unthrottled == old(mem).unthrottled,
    {
        reveal(Machine::stored);
        match dest {
            Alu8Data::Reg(reg) => self.regs.set8(*reg, val),
            Alu8Data::Addr(reg16) => {
                let addr = self.regs.read16(*reg16);
                mem.write(addr, val);
            },
            _ => {},
        }
    }

    /// Sets those flags that an operation gives.
    pub(crate) fn set_flags(
        &mut self,
        zero: Option<bool>,
        subtract: Option<bool>,
        half_carry: Option<bool>,
        carry: Option<bool>,
    )
        ensures
            *final(self) == (LR25902 {
                regs: flagged(old(self).regs, zero, subtract, half_carry, carry),
                ..*old(self)
            }),
    {
        reveal(flagged);
        if let Some(zero) = zero {
            self.regs.set_flag(Flag::Zero, zero);
        }
        if let Some(subtract) = subtract {
            self.regs.set_flag(Flag::Subtract, subtract);
        }
        if let Some(half_carry) = half_carry {
            self.regs.set_flag(Flag::HalfCarry, half_carry);
        }
        if let Some(carry) = carry {
            self.regs.set_flag(Flag::Carry, carry);
        }
    }

    /// Executes an instruction of the 8-bit ALU.
    pub fn execute_alu8(&mut self, op: &Alu8Op, mem: &mut Peripherals)
        ensures
            final(self).on(final(mem)) == old(self).on(old(mem)).alu8_done(*op),
            final(mem).unthrottled == old(mem).unthrottled,
    {
        reveal(Machine::alu8_done);
        let x = self.get_alu8_data(&op.dest, mem);
        let y = self.get_alu8_data(&op.y, mem);
        let r = alu8(
            op.op,
            x,
            y,
            self.regs.read_flag(Flag::Subtract),
            self.regs.read_flag(Flag::HalfCarry),
            self.regs.read_flag(Flag::Carry),
        );
        if let Some(data) = r.out {
            self.set_alu8_data(&op.dest, data, mem);
        }
        self.set_flags(r.zero, r.subtract, r.half_carry, r.carry);
    }

    /// Computes an instruction of the 16-bit ALU.
    pub(crate) fn alu16(&self, op: &Alu16Op) -> (r: Alu16Result)
        ensures
            r == alu16_result(self.regs, *op),
    {
        reveal(alu16_result);
        let nothing = Alu16Result {
            out: None,
            zero: None,
            subtract: None,
            half_carry: None,
            carry: None,
        };
        let x = self.regs.read16(op.dest);
        match op.op {
            Alu16::Add => match op.y {
                Alu16Data::Reg(yreg) => add16(x, self.regs.read16(yreg)),
                Alu16Data::Imm(imm) => add_signed(x, imm),
                Alu16Data::Ignore => nothing,
            },
            Alu16::Decrement => Alu16Result { out: Some(wrap_word(x as i32 - 1)), ..nothing },
            Alu16::Increment => Alu16Result { out: Some(wrap_word(x as i32 + 1)), ..nothing },
            Alu16::Move => match op.y {
                Alu16Data::Reg(yreg) => Alu16Result {
                    out: Some(self.regs.read16(yreg)),
                    ..nothing
                },
                _ => nothing,
            },
            Alu16::MoveAndAdd => match op.y {
                Alu16Data::Reg(yreg) => add_signed(self.regs.read16(yreg), op.imm),
                _ => nothing,
            },
            Alu16::Unknown => nothing,
        }
    }

    /// Executes an instruction of the 16-bit ALU.
    pub fn execute_alu16(&mut self, op: &Alu16Op)
        ensures
            forall|bus: Bus|
                (Machine { cpu: *final(self), bus }) == #[trigger] (Machine {
                    cpu: *old(self),
                    bus,
                }).alu16_done(*op),
    {
        reveal(Machine::alu16_done);
        let r = self.alu16(op);
        if let Some(out) = r.out {
            self.regs.set16(op.dest, out);
        }
        self.set_flags(r.zero, r.subtract, r.half_carry, r.carry);
    }

    /// Pushes a word.
    pub(crate) fn push(&mut self, mem: &mut Peripherals, value: u16)
        ensures
            final(self).on(final(mem)) == old(self).on(old(mem)).pushed(value),
            final(mem).unthrottled == old(mem).unthrottled,
    {
        reveal(Machine::pushed);
        let sp = self.regs.read16(Reg16::SP);
        mem.write(wrap_word(sp as i32 - 1), (value / 256) as u8);
        mem.write(wrap_word(sp as i32 - 2), (value % 256) as u8);
        self.regs.set16(Reg16::SP, wrap_word(sp as i32 - 2));
    }

    /// Pops a word.
    pub(crate) fn pop(&mut self, mem: &Peripherals) -> (value: u16)
        ensures
            value == old(self).on(mem).top_of_stack(),
            final(self).on(mem) == old(self).on(mem).popped(),
    {
        reveal(Machine::popped);
        reveal(Machine::top_of_stack);
        let sp = self.regs.read16(Reg16::SP);
        let low = mem.read(sp);
        let high = mem.read(wrap_word(sp as i32 + 1));
        self.regs.set16(Reg16::SP, wrap_word(sp as i32 + 2));
        make_word(high, low)
    }

    /// The address that an `Address` stands for.
    pub(crate) fn address(&self, addr: &Address) -> (r: u16)
        ensures
            r == resolve(self.regs, *addr),
    {
        reveal(resolve);
        match addr {
            Address::Register16(reg) => self.regs.read16(*reg),
            Address::Immediate16(a) => *a,
        }
    }

    /// Moves the register of an `Address` by `by`.
    pub(crate) fn bump(&mut self, addr: &Address, by: i32)
        requires
            by == 1 || by == -1,
        ensures
            *final(self) == (LR25902 {
                regs: bumped(old(self).regs, *addr, by as int),
                ..*old(self)
            }),
    {
        reveal(bumped);
        match addr {
            Address::Register16(reg) => {
                let v = self.regs.read16(*reg);
                self.regs.set16(*reg, wrap_word(v as i32 + by));
            },
            Address::Immediate16(_) => {},
        }
    }

    /// Executes a store of a byte that leaves the registers as they are.
    pub(crate) fn execute_plain_store(&mut self, mem: &mut Peripherals, op: &Op)
        requires
            op is SetAddr || op is SetIOC || op is SetIO || op is Store,
        ensures
            final(self).on(final(mem)) == old(self).on(old(mem)).transferred(*op),
            final(mem).unthrottled == old(mem).unthrottled,
    {
        reveal(Machine::transferred);
        match op {
            Op::SetAddr(reg, val) => {
                let addr = self.regs.read16(*reg);
                mem.write(addr, *val);
            },
            Op::SetIOC => {
                let a = self.regs.read8(Reg8::A);
                let c = self.regs.read8(Reg8::C);
                mem.write(0xFF00 + c as u16, a);
            },
            Op::SetIO(offset) => {
                let a = self.regs.read8(Reg8::A);
                mem.write(0xFF00 + *offset as u16, a);
            },
            Op::Store(addr, reg) => {
                let data = self.regs.read8(*reg);
                let a = self.address(addr);
                mem.write(a, data);
            },
            _ => {},
        }
    }

    /// Executes a store of a word, a store that moves its address register, or a
    /// push.
    pub(crate) fn execute_moving_store(&mut self, mem: &mut Peripherals, op: &Op)
        requires
            op is WideStore || op is StoreAndDecrement || op is StoreAndIncrement || op is Push,
        ensures
            final(self).on(final(mem)) == old(self).on(old(mem)).transferred(*op),
            final(mem).unthrottled == old(mem).unthrottled,
    {
        reveal(Machine::transferred);
        match op {
            Op::WideStore(addr, reg) => {
                let data = self.regs.read16(*reg);
                let a = self.address(addr);
                mem.write(a, (data % 256) as u8);
                mem.write(wrap_word(a as i32 + 1), (data / 256) as u8);
            },
            Op::StoreAndDecrement(addr, reg) => {
                let data = self.regs.read8(*reg);
                let a = self.address(addr);
                mem.write(a, data);
                self.bump(addr, -1);
            },
            Op::StoreAndIncrement(addr, reg) => {
                let data = self.regs.read8(*reg);
                let a = self.address(addr);
                mem.write(a, data);
                self.bump(addr, 1);
            },
            Op::Push(reg) => {
                let data = self.regs.read16(*reg);
                self.push(mem, data);
            },
            _ => {},
        }
    }

    /// Executes a store, a write to the I/O page or a push.
    pub(crate) fn execute_store(&mut self, mem: &mut Peripherals, op: &Op)
        requires
            LR25902::is_store(*op),
        ensures
            final(self).on(final(mem)) == old(self).on(old(mem)).transferred(*op),
            final(mem).unthrottled == old(mem).unthrottled,
    {
        match op {
            Op::SetAddr(_, _) | Op::SetIOC | Op::SetIO(_) | Op::Store(_, _) => {
                self.execute_plain_store(mem, op)
            },
            _ => self.execute_moving_store(mem, op),
        }
    }

    /// Executes a load of a constant, a move or a read from the I/O page.
    pub(crate) fn execute_set(&mut self, mem: &Peripherals, op: &Op)
        requires
            LR25902::is_set(*op),
        ensures
            final(self).on(mem) == old(self).on(mem).transferred(*op),
    {
        reveal(Machine::transferred);
        match op {
            Op::SetReg(reg, val) => self.regs.set8(*reg, *val),
            Op::SetWide(reg, val) => self.regs.set16(*reg, *val),
            Op::ReadIO(offset) => {
                let data = mem.read(0xFF00 + *offset as u16);
                self.regs.set8(Reg8::A, data)
            },
            Op::ReadIOC => {
                let c = self.regs.read8(Reg8::C);
                let data = mem.read(0xFF00 + c as u16);
                self.regs.set8(Reg8::A, data)
            },
            Op::Move(dest, src) => {
                let data = self.regs.read8(*src);
                self.regs.set8(*dest, data);
            },
            _ => {},
        }
    }

    /// Executes a load from memory or a pop.
    pub(crate) fn execute_load(&mut self, mem: &Peripherals, op: &Op)
        requires
            LR25902::is_load(*op),
        ensures
            final(self).on(mem) == old(self).on(mem).transferred(*op),
    {
        reveal(Machine::transferred);
        match op {
            Op::Load(reg, addr) => {
                let a = self.address(addr);
                self.regs.set8(*reg, mem.read(a))
            },
            Op::LoadAndIncrement(reg, addr) => {
                let a = self.address(addr);
                self.regs.set8(*reg, mem.read(a));
                self.bump(addr, 1);
            },
            Op::LoadAndDecrement(reg, addr) => {
                let a = self.address(addr);
                self.regs.set8(*reg, mem.read(a));
                self.bump(addr, -1);
            },
            Op::Pop(reg) => {
                let data = self.pop(mem);
                self.regs.set16(*reg, data);
            },
            _ => {},
        }
    }

    /// Goes on at `pc`.
    pub(crate) fn goto(&mut self, pc: u16)
        ensures
            *final(self) == (LR25902 {
                regs: old(self).regs.set16_spec(Reg16::PC, pc),
                ..*old(self)
            }),
    {
        self.regs.set16(Reg16::PC, pc);
    }

    /// Calls `target` from an instruction that ends at `next_pc`.
    pub(crate) fn call(&mut self, mem: &mut Peripherals, next_pc: u16, target: u16, extra: u8)
        ensures
            final(self).on(final(mem)) == old(self).on(old(mem)).called(next_pc, target, extra),
            final(mem).unthrottled == old(mem).unthrottled,
    {
        reveal(Machine::called);
        self.push(mem, next_pc);
        self.extra_cycles = extra;
        self.goto(target);
    }

    /// Returns to the address on top of the stack.
    pub(crate) fn ret(&mut self, mem: &Peripherals, extra: u8)
        ensures
            final(self).on(mem) == old(self).on(mem).returned(extra),
    {
        reveal(Machine::returned);
        let target = self.pop(mem);
        self.extra_cycles = extra;
        self.goto(target);
    }

    /// Executes a call, a restart or a return.
    pub(crate) fn execute_call(&mut self, mem: &mut Peripherals, op: &Op, next_pc: u16)
        requires
            LR25902::is_call(*op),
        ensures
            final(self).on(final(mem)) == old(self).on(old(mem)).branched(*op, next_pc),
            final(mem).unthrottled == old(mem).unthrottled,
    {
        reveal(Machine::branched);
        match op {
            Op::Call(target) => self.call(mem, next_pc, *target, 0),
            Op::Reset(target) => self.call(mem, next_pc, *target, 0),
            Op::ConditionalCall(flag, target) => {
                if self.regs.read_flag(*flag) {
                    self.call(mem, next_pc, *target, CALL_TAKEN_CYCLES)
                } else {
                    self.goto(next_pc)
                }
            },
            Op::Return => self.ret(mem, 0),
            Op::ReturnAndEnableInterrupts => {
                self.ret(mem, 0);
                self.interrupt_enable = true;
            },
            Op::ConditionalReturn(flag) => {
                if self.regs.read_flag(*flag) {
                    self.ret(mem, CALL_TAKEN_CYCLES)
                } else {
                    self.goto(next_pc)
                }
            },
            _ => {},
        }
    }

    /// Executes a jump.
    pub(crate) fn execute_jump(&mut self, op: &Op, next_pc: u16)
        requires
            LR25902::is_jump(*op),
        ensures
            forall|bus: Bus|
                (Machine { cpu: *final(self), bus }) == #[trigger] (Machine {
                    cpu: *old(self),
                    bus,
                }).branched(*op, next_pc),
    {
        reveal(Machine::branched);
        match op {
            Op::ConditionalJumpRelative(flag, target) => {
                if self.regs.read_flag(*flag) {
                    self.extra_cycles = JUMP_TAKEN_CYCLES;
                    self.goto(*target)
                } else {
                    self.goto(next_pc)
                }
            },
            Op::ConditionalJump(flag, target) => {
                if self.regs.read_flag(*flag) {
                    self.extra_cycles = JUMP_TAKEN_CYCLES;
                    self.goto(*target)
                } else {
                    self.goto(next_pc)
                }
            },
            Op::JumpRelative(target) => self.goto(*target),
            Op::Jump(addr) => {
                let target = self.address(addr);
                self.goto(target)
            },
            Op::ExecuteInterrupt(target) => self.goto(*target),
            _ => {},
        }
    }

    /// Executes an instruction that neither moves data nor branches.
    pub(crate) fn execute_control(&mut self, mem: &mut Peripherals, op: &Op, next_pc: u16)
        requires
            !LR25902::is_transfer(*op),
            !LR25902::is_branch(*op),
        ensures
            final(self).on(final(mem)) == old(self).on(old(mem)).controlled(*op, next_pc),
            final(mem).unthrottled == old(mem).unthrottled,
    {
        reveal(Machine::controlled);
        match op {
            Op::EnableInterrupts => {
                self.interrupt_enable = true;
            },
            Op::DisableInterrupts => {
                self.interrupt_enable = false;
            },
            Op::SetupInterrupt => {
                self.push(mem, next_pc);
            },
            Op::Halt => {
                self.halted = true;
            },
            Op::Stop => {
                self.stopped = true
            },
            Op::Alu8(alu_op) => self.execute_alu8(alu_op, mem),
            Op::Alu16(alu_op) => {
                let ghost before = self.on(mem);
                self.execute_alu16(alu_op);
                assert(self.on(mem) == before.alu16_done(*alu_op));
            },
            _ => {},
        }
    }

    /// Lets an instruction that moves data take effect.
    pub(crate) fn execute_transfer(&mut self, mem: &mut Peripherals, op: &Op, next_pc: u16)
        requires
            LR25902::is_store(*op) || LR25902::is_set(*op) || LR25902::is_load(*op),
        ensures
            final(self).on(final(mem)) == old(self).on(old(mem)).transferred(*op).at(next_pc),
            final(mem).unthrottled == old(mem).unthrottled,
    {
        match LR25902::kind(op) {
            OpKind::Store => self.execute_store(mem, op),
            OpKind::Assign => self.execute_set(mem, op),
            _ => self.execute_load(mem, op),
        }
        self.goto(next_pc);
    }

    /// Lets an instruction that decides where the program goes on take effect.
    pub(crate) fn execute_branch(&mut self, mem: &mut Peripherals, op: &Op, next_pc: u16)
        requires
            LR25902::is_call(*op) || LR25902::is_jump(*op),
        ensures
            final(self).on(final(mem)) == old(self).on(old(mem)).branched(*op, next_pc),
            final(mem).unthrottled == old(mem).unthrottled,
    {
        match LR25902::kind(op) {
            OpKind::Call => self.execute_call(mem, op, next_pc),
            _ => {
                let ghost before = self.on(mem);
                self.execute_jump(op, next_pc);
                assert(self.on(mem) == before.branched(*op, next_pc));
            },
        }
    }

    /// Lets the instruction `op` take effect. Says where the program goes on.
    pub fn execute_op(&mut self, mem: &mut Peripherals, op: &NextOp) -> (next: u16)
        ensures
            final(self).on(final(mem)) == old(self).on(old(mem)).executed(*op),
            next == final(self).regs.read16_spec(Reg16::PC),
            final(mem).unthrottled == old(mem).unthrottled,
    {
        reveal(Machine::executed);
        let pc = self.regs.read16(Reg16::PC);
        let next_pc = wrap_word(pc as i32 + op.pc_offset as i32);
        self.extra_cycles = 0;
        match LR25902::kind(&op.op) {
            OpKind::Store | OpKind::Assign | OpKind::Load => {
                self.execute_transfer(mem, &op.op, next_pc)
            },
            OpKind::Call | OpKind::Jump => self.execute_branch(mem, &op.op, next_pc),
            OpKind::Control => {
                self.execute_control(mem, &op.op, next_pc);
                self.goto(next_pc);
            },
        }
        self.regs.read16(Reg16::PC)
    }

    /// Schedules the entry into an interrupt.
    pub(crate) fn enter_interrupt(&mut self)
        ensures
            forall|bus: Bus|
                (Machine { cpu: *final(self), bus }) == #[trigger] (Machine {
                    cpu: *old(self),
                    bus,
                }).entering(),
    {
        reveal(Machine::entering);
        self.next_op = NextOp { op: Op::SetupInterrupt, delay_cycles: INTERRUPT_DELAY, pc_offset: 0 };
        self.interrupted = true;
        self.interrupt_enable = false;
        self.halted = false;
        self.extra_cycles = 0;
    }

    /// Schedules the instruction at the program counter.
    pub(crate) fn fetch(&mut self, mem: &Peripherals)
        ensures
            final(self).on(mem) == old(self).on(mem).fetching(),
    {
        reveal(Machine::fetching);
        let (op, size, cycles) = decode(mem, self.regs.read16(Reg16::PC));
        let base: usize = if cycles > 0 {
            cycles - 1
        } else {
            0
        };
        self.next_op = NextOp {
            op,
            pc_offset: size as u16,
            delay_cycles: base + self.extra_cycles as usize,
        };
        self.extra_cycles = 0;
        self.interrupted = false;
    }

    /// Makes ready what follows the instruction that has just taken effect.
    pub(crate) fn proceed(&mut self, mem: &mut Peripherals)
        ensures
            final(self).on(final(mem)) == old(self).on(old(mem)).continued(),
            final(mem).unthrottled == old(mem).unthrottled,
    {
        reveal(Machine::vectored);
        reveal(Machine::continued);
        let pending = mem.get_interrupt();
        if self.interrupted && pending.is_some() {
            self.next_op = NextOp {
                op: Op::ExecuteInterrupt(pending.unwrap()),
                delay_cycles: 0,
                pc_offset: 0,
            };
            self.interrupted = false;
            self.extra_cycles = 0;
            mem.disable_interrupt();
        } else if !self.interrupted && pending.is_some() && self.interrupt_enable {
            let ghost before = self.on(mem);
            self.enter_interrupt();
            assert(self.on(mem) == before.entering());
        } else {
            self.fetch(mem);
        }
    }

    /// Advances the CPU by one machine cycle, without counting it.
    pub(crate) fn advance(&mut self, mem: &mut Peripherals)
        ensures
            final(self).on(final(mem)) == old(self).on(old(mem)).cycled(),
            final(mem).unthrottled == old(mem).unthrottled,
    {
        reveal(Machine::cycled);
        let ghost start = self.on(mem);
        if self.next_op.delay_cycles == 0 {
            if !self.halted {
                let op = self.next_op;
                self.next_op = NextOp::new();
                assert(self.on(mem) == start.cleared());
                self.execute_op(mem, &op);
                assert(self.on(mem) == start.cleared().executed(op));
                self.proceed(mem);
                assert(self.on(mem) == start.cleared().executed(op).continued());
            } else if mem.get_interrupt().is_some() {
                if self.interrupt_enable {
                    let ghost before = self.on(mem);
                    self.enter_interrupt();
                    assert(self.on(mem) == before.entering());
                } else {
                    self.halted = false;
                    assert(self.on(mem) == start.cycled());
                }
            } else {
                assert(self.on(mem) == start.cycled());
            }
        } else {
            self.next_op.delay_cycles -= 1;
            assert(self.on(mem) == start.waited());
        }
    }

    /// Advances the CPU by one machine cycle. Says whether the CPU has stopped.
    pub fn step(&mut self, mem: &mut Peripherals) -> (stopped: bool)
        ensures
            final(self).on(final(mem)) == old(self).on(old(mem)).stepped(),
            stopped == final(self).stopped,
            final(mem).unthrottled == old(mem).unthrottled,
    {
        let ghost count = self.cycle;
        self.advance(mem);
        self.cycle = if self.cycle == u64::MAX {
            0
        } else {
            self.cycle + 1
        };
        self.stopped
    }
}

} // verus!
