//! The divider and the timer counter.

use crate::peripherals::interrupt::{Flag, Interrupt};
use crate::util::bit;
use vstd::prelude::*;

verus! {

/// The timer. `divider` counts clock cycles, four to a machine cycle, and only its
/// high byte can be read from outside. While the timer runs, `counter` goes up by
/// one whenever the selected bit of the divider falls from 1 to 0. The four clock
/// selects pick the tenth, the fourth, the sixth and the eighth bit of the
/// divider, counted from one at the lowest: the bits that weigh 512, 8, 32 and
/// 128, which fall every 256th, 4th, 16th and 64th machine cycle.
#[derive(Debug, Copy, Clone, PartialEq, Eq, Structural)]
pub struct Timer {
    pub divider: u16,
    pub counter: u8,
    pub modulo: u8,
    pub start: bool,
    pub input_clock: u8,
    /// The counter overflowed in the last cycle and is reloaded in the next.
    pub set_counter: bool,
    /// The selected bit of the divider after the last cycle.
    pub prev_increment_bit: bool,
}

/// The address of the divider register.
pub const DIV: u16 = 0xFF04;

/// The address of the counter register.
pub const TIMA: u16 = 0xFF05;

/// The address of the modulo register.
pub const TMA: u16 = 0xFF06;

/// The address of the control register.
pub const TAC: u16 = 0xFF07;

/// The bit of the divider that the clock select picks, counted from zero at the
/// lowest.
pub open spec fn clock_bit(input_clock: u8) -> int {
    if input_clock % 4 == 0 {
        9
    } else if input_clock % 4 == 1 {
        3
    } else if input_clock % 4 == 2 {
        5
    } else {
        7
    }
}

impl Timer {
    /// Whether the selected bit of the divider is set.
    pub open spec fn increment_bit(&self) -> bool {
        bit(self.divider as int, clock_bit(self.input_clock))
    }

    /// The timer with its divider advanced by one machine cycle.
    pub open spec fn ticked(self) -> Timer {
        Timer { divider: ((self.divider + 4) % 0x1_0000) as u16, ..self }
    }

    /// Whether the next machine cycle reloads the counter and raises the timer
    /// interrupt.
    pub open spec fn reloads(&self) -> bool {
        self.set_counter
    }

    /// Whether the next machine cycle adds one to the counter: the timer runs and
    /// the selected bit, set after the last cycle, is clear after this one.
    pub open spec fn increments(&self) -> bool {
        self.start && self.prev_increment_bit && !self.ticked().increment_bit()
    }

    /// The timer after one machine cycle.
    pub open spec fn step_spec(self) -> Timer {
        let base = if self.set_counter {
            self.modulo
        } else {
            self.counter
        };
        let counter = if self.increments() {
            ((base + 1) % 256) as u8
        } else {
            base
        };
        Timer {
            divider: self.ticked().divider,
            counter,
            set_counter: self.increments() && counter == 0,
            prev_increment_bit: self.ticked().increment_bit(),
            ..self
        }
    }

    /// The timer after `n` machine cycles.
    pub open spec fn steps_spec(self, n: nat) -> Timer
        decreases n,
    {
        if n == 0 {
            self
        } else {
            self.steps_spec((n - 1) as nat).step_spec()
        }
    }

    /// What the register at `addr` reads. The control register shows the start
    /// bit and the clock select; its other bits read as ones.
    pub open spec fn read_spec(&self, addr: u16) -> u8 {
        if addr == DIV {
            (self.divider / 256) as u8
        } else if addr == TIMA {
            self.counter
        } else if addr == TMA {
            self.modulo
        } else {
            (248 + (if self.start { 4int } else { 0 }) + self.input_clock % 4) as u8
        }
    }

    /// The timer after `val` has been written to the register at `addr`. Any write
    /// to the divider clears it.
    pub open spec fn write_spec(self, addr: u16, val: u8) -> Timer {
        if addr == DIV {
            Timer { divider: 0, ..self }
        } else if addr == TIMA {
            Timer { counter: val, ..self }
        } else if addr == TMA {
            Timer { modulo: val, ..self }
        } else {
            Timer { start: (val / 4) % 2 == 1, input_clock: val % 4, ..self }
        }
    }

    /// A stopped timer with every register cleared.
    pub open spec fn new_spec() -> Timer {
        Timer {
            divider: 0,
            counter: 0,
            modulo: 0,
            start: false,
            input_clock: 0,
            set_counter: false,
            prev_increment_bit: false,
        }
    }

    /// A stopped timer with every register cleared.
    pub fn new() -> (r: Self)
        ensures
            r == Timer::new_spec(),
    {
        Self {
            divider: 0,
            counter: 0,
            modulo: 0,
            start: false,
            input_clock: 0,
            prev_increment_bit: false,
            set_counter: false,
        }
    }

    /// Advances the timer by one machine cycle. A counter that overflowed in the
    /// cycle before is reloaded from the modulo now, and the timer interrupt is
    /// raised with it.
    pub fn step(&mut self, interrupt: &mut Interrupt)
        ensures
            *final(self) == old(self).step_spec(),
            *final(interrupt) == if old(self).reloads() {
                Interrupt { timer: Flag { trigger: true, ..old(interrupt).timer }, ..*old(interrupt) }
            } else {
                *old(interrupt)
            },
    {
        self.divider = self.divider.wrapping_add(4);
        if self.set_counter {
            self.set_counter = false;
            interrupt.set_timer_trigger(1);
            self.counter = self.modulo;
        }
        let now = self.increment_bit_set();
        if self.start && self.prev_increment_bit && !now {
            self.counter = self.counter.wrapping_add(1);
            if self.counter == 0 {
                self.set_counter = true;
            }
        }
        self.prev_increment_bit = now;
    }

    /// Clears the divider.
    pub fn set_divider(&mut self)
        ensures
            *final(self) == (Timer { divider: 0, ..*old(self) }),
    {
        self.divider = 0;
    }

    pub fn set_counter(&mut self, val: u8)
        ensures
            *final(self) == (Timer { counter: val, ..*old(self) }),
    {
        self.counter = val;
    }

    pub fn set_modulo(&mut self, val: u8)
        ensures
            *final(self) == (Timer { modulo: val, ..*old(self) }),
    {
        self.modulo = val;
    }

    /// Starts the timer unless `val` is zero.
    pub fn set_start(&mut self, val: u8)
        ensures
            *final(self) == (Timer { start: val != 0, ..*old(self) }),
    {
        self.start = val != 0;
    }

    /// Selects the input clock by the low two bits of `val`.
    pub fn set_input_clock(&mut self, val: u8)
        ensures
            *final(self) == (Timer { input_clock: val % 4, ..*old(self) }),
    {
        self.input_clock = val % 4;
    }

    /// The readable high byte of the divider.
    pub fn divider(&self) -> (r: u8)
        ensures
            r == self.divider / 256,
    {
        (self.divider / 256) as u8
    }

    pub fn counter(&self) -> (r: u8)
        ensures
            r == self.counter,
    {
        self.counter
    }

    pub fn modulo(&self) -> (r: u8)
        ensures
            r == self.modulo,
    {
        self.modulo
    }

    pub fn start(&self) -> (r: u8)
        ensures
            r == if self.start { 1u8 } else { 0u8 },
    {
        if self.start {
            1
        } else {
            0
        }
    }

    pub fn input_clock(&self) -> (r: u8)
        ensures
            r == self.input_clock,
    {
        self.input_clock
    }

    /// Writes one of the four registers.
    pub fn write(&mut self, addr: u16, val: u8)
        requires
            DIV <= addr <= TAC,
        ensures
            *final(self) == old(self).write_spec(addr, val),
    {
        if addr == DIV {
            self.set_divider();
        } else if addr == TIMA {
            self.set_counter(val);
        } else if addr == TMA {
            self.set_modulo(val);
        } else {
            self.set_start((val / 4) % 2);
            self.set_input_clock(val);
        }
    }

    /// Reads one of the four registers.
    pub fn read(&self, addr: u16) -> (r: u8)
        requires
            DIV <= addr <= TAC,
        ensures
            r == self.read_spec(addr),
    {
        if addr == DIV {
            self.divider()
        } else if addr == TIMA {
            self.counter()
        } else if addr == TMA {
            self.modulo()
        } else {
            248 + 4 * self.start() + self.input_clock() % 4
        }
    }

    /// Whether the selected bit of the divider is set.
    pub fn increment_bit_set(&self) -> (r: bool)
        ensures
            r == self.increment_bit(),
    {
        let weight: u16 = match self.input_clock % 4 {
            0 => 512,
            1 => 8,
            2 => 32,
            _ => 128,
        };
        (self.divider / weight) % 2 == 1
    }
}

/// The number of machine cycles between two increments of the counter.
pub open spec fn period(input_clock: u8) -> int {
    if input_clock % 4 == 0 {
        256
    } else if input_clock % 4 == 1 {
        4
    } else if input_clock % 4 == 2 {
        16
    } else {
        64
    }
}

/// A bit of a divider that goes up in fours falls exactly when the divider comes
/// to a multiple of twice the weight of the bit.
proof fn lemma_falling_edge(d: u16)
    by (bit_vector)
    requires
        d % 4 == 0,
    ensures
        ({
            let e = ((d + 4) % 0x1_0000) as u16;
            &&& ((d / 512) % 2 == 1 && (e / 512) % 2 != 1) == (e % 1024 == 0)
            &&& ((d / 8) % 2 == 1 && (e / 8) % 2 != 1) == (e % 16 == 0)
            &&& ((d / 32) % 2 == 1 && (e / 32) % 2 != 1) == (e % 64 == 0)
            &&& ((d / 128) % 2 == 1 && (e / 128) % 2 != 1) == (e % 256 == 0)
            &&& e % 4 == 0
        }),
{
}

/// The divider after one more machine cycle, and when it is a multiple of four
/// times `p`, for a divisor `p` of 16384.
proof fn lemma_next_divider(n: int, p: int)
    requires
        n >= 0,
        p == 256 || p == 4 || p == 16 || p == 64,
    ensures
        ((4 * n) % 0x1_0000 + 4) % 0x1_0000 == (4 * (n + 1)) % 0x1_0000,
        ((4 * (n + 1)) % 0x1_0000) % (4 * p) == 0 <==> (n + 1) % p == 0,
        (4 * n) % 0x1_0000 % 4 == 0,
{
    let m: int = 4 * p;
    let x: int = 4 * (n + 1);
    let q: int = x / 0x1_0000;
    let r: int = x % 0x1_0000;
    vstd::arithmetic::div_mod::lemma_fundamental_div_mod(x, 0x1_0000);
    assert(x == 0x1_0000 * q + r);
    let f: int = if p == 256 {
        64
    } else if p == 4 {
        4096
    } else if p == 16 {
        1024
    } else {
        256
    };
    assert(0x1_0000 == m * f);
    assert(x == m * (f * q) + r) by (nonlinear_arith)
        requires
            x == 0x1_0000 * q + r,
            0x1_0000 == m * f,
    ;
    vstd::arithmetic::div_mod::lemma_mod_multiples_vanish(f * q, r, m);
    assert(x % m == r % m);
    vstd::arithmetic::div_mod::lemma_truncate_middle(n + 1, 4, p);
    assert(x % m == 4 * ((n + 1) % p));
    let y: int = 4 * n;
    let k: int = y / 0x1_0000;
    vstd::arithmetic::div_mod::lemma_fundamental_div_mod(y, 0x1_0000);
    let d: int = y % 0x1_0000;
    assert(y == 0x1_0000 * k + d);
    vstd::arithmetic::div_mod::lemma_mod_multiples_vanish(k, d + 4, 0x1_0000);
    assert((0x1_0000 * k + (d + 4)) % 0x1_0000 == (d + 4) % 0x1_0000);
    assert(0x1_0000 * k + (d + 4) == x);
    assert(d % 4 == 0) by {
        assert(y == 4 * (16384 * k) + d);
        vstd::arithmetic::div_mod::lemma_mod_multiples_vanish(16384 * k, d, 4);
        vstd::arithmetic::div_mod::lemma_truncate_middle(n, 4, 1);
    }
}

/// A running timer whose divider has just been cleared: after `n` machine cycles
/// the divider stands at `4n`, and the next cycle adds one to the counter exactly
/// when it is a multiple of the period of the clock. On the slowest clock exactly
/// 256 machine cycles lie between one increment and the next.
pub proof fn lemma_clock_period(t: Timer, n: nat)
    requires
        t.divider == 0,
        !t.prev_increment_bit,
        t.start,
    ensures
        t.steps_spec(n).divider == (4 * n) % 0x1_0000,
        t.steps_spec(n).start,
        t.steps_spec(n).input_clock == t.input_clock,
        t.steps_spec(n).prev_increment_bit == t.steps_spec(n).increment_bit(),
        t.steps_spec(n).increments() <==> ((n + 1) as int) % period(t.input_clock) == 0,
        t.input_clock % 4 == 0 ==> (t.steps_spec(n).increments() <==> (n + 1) % 256 == 0),
    decreases n,
{
    if n > 0 {
        lemma_clock_period(t, (n - 1) as nat);
        lemma_next_divider(n - 1, period(t.input_clock));
        lemma_falling_edge(t.steps_spec((n - 1) as nat).divider);
    }
    let now = t.steps_spec(n);
    lemma_next_divider(n as int, period(t.input_clock));
    lemma_falling_edge(now.divider);
    assert(now.ticked().divider == (4 * (n + 1)) % 0x1_0000);
}

/// A counter that overflows reads zero for one machine cycle; the cycle after
/// reloads it from the modulo and raises the timer interrupt.
pub proof fn lemma_reload_is_delayed(t: Timer)
    requires
        t.increments(),
        !t.set_counter,
        t.counter == 0xFF,
    ensures
        t.step_spec().counter == 0,
        !t.reloads(),
        t.step_spec().reloads(),
        !t.step_spec().increments() ==> t.step_spec().step_spec().counter == t.modulo,
{
}

} // verus!
