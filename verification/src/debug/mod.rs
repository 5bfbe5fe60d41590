//! The bookkeeping of a debugger in the manner of gdb: breakpoints, counters of
//! instructions and runs still to go, and the numbers that its commands take.
//! Reading the commands and printing is left to the program around it.

use crate::Wolfwig;
use vstd::string::StringSliceAdditionalSpecFns;
use vstd::prelude::*;

verus! {

/// The value of a digit in the given radix, if the byte is one. Letters count in
/// either case.
pub open spec fn digit_spec(b: u8, radix: int) -> Option<int> {
    let v = if 0x30 <= b <= 0x39 {
        b - 0x30
    } else if 0x61 <= b <= 0x7A {
        b - 0x61 + 10
    } else if 0x41 <= b <= 0x5A {
        b - 0x41 + 10
    } else {
        radix
    };
    if v < radix {
        Some(v)
    } else {
        None
    }
}

/// The number `acc` with the digits `bytes` behind it, if every byte is a digit.
pub open spec fn digits_spec(bytes: Seq<u8>, radix: int, acc: int) -> Option<int>
    decreases bytes.len(),
{
    if bytes.len() == 0 {
        Some(acc)
    } else if let Some(d) = digit_spec(bytes[0], radix) {
        digits_spec(bytes.drop_first(), radix, acc * radix + d)
    } else {
        None
    }
}

/// `bytes` without a plus sign in front.
pub open spec fn unsigned_spec(bytes: Seq<u8>) -> Seq<u8> {
    if bytes.len() > 0 && bytes[0] == 0x2B {
        bytes.drop_first()
    } else {
        bytes
    }
}

/// The number that `bytes` writes in the given radix: at least one digit, with or
/// without a plus sign in front, and a value that 32 bits can hold.
pub open spec fn number_spec(bytes: Seq<u8>, radix: int) -> Option<u32> {
    let digits = unsigned_spec(bytes);
    if digits.len() == 0 {
        None
    } else if let Some(v) = digits_spec(digits, radix, 0) {
        if v <= u32::MAX {
            Some(v as u32)
        } else {
            None
        }
    } else {
        None
    }
}

/// Whether `bytes` starts with `0x`.
pub open spec fn has_hex_prefix(bytes: Seq<u8>) -> bool {
    bytes.len() >= 2 && bytes[0] == 0x30 && bytes[1] == 0x78
}

/// The number that a command takes: decimal, or hexadecimal behind `0x`.
pub open spec fn int32_spec(bytes: Seq<u8>) -> Option<u32> {
    if number_spec(bytes, 10) is Some {
        number_spec(bytes, 10)
    } else if has_hex_prefix(bytes) {
        number_spec(bytes.skip(2), 16)
    } else {
        None
    }
}

/// The value of a digit.
fn digit(b: u8, radix: u32) -> (r: Option<u32>)
    requires
        radix == 10 || radix == 16,
    ensures
        r is Some <==> digit_spec(b, radix as int) is Some,
        r is Some ==> r->Some_0 == digit_spec(b, radix as int)->Some_0 && r->Some_0 < radix,
{
    let v: u32 = if 0x30 <= b && b <= 0x39 {
        (b - 0x30) as u32
    } else if 0x61 <= b && b <= 0x7A {
        (b - 0x61) as u32 + 10
    } else if 0x41 <= b && b <= 0x5A {
        (b - 0x41) as u32 + 10
    } else {
        radix
    };
    if v < radix {
        Some(v)
    } else {
        None
    }
}

/// Digits behind a number only make it larger.
proof fn lemma_digits_grow(bytes: Seq<u8>, radix: int, acc: int)
    requires
        radix > 0,
        acc >= 0,
    ensures
        digits_spec(bytes, radix, acc) is Some ==> digits_spec(bytes, radix, acc)->Some_0 >= acc,
    decreases bytes.len(),
{
    if bytes.len() > 0 {
        if let Some(d) = digit_spec(bytes[0], radix) {
            assert(acc * radix >= acc) by (nonlinear_arith)
                requires
                    radix > 0,
                    acc >= 0,
            ;
            lemma_digits_grow(bytes.drop_first(), radix, acc * radix + d);
        }
    }
}

/// Reads a number in the given radix.
pub fn parse_number(bytes: &[u8], radix: u32) -> (r: Option<u32>)
    requires
        radix == 10 || radix == 16,
    ensures
        r == number_spec(bytes@, radix as int),
{
    let start: usize = if bytes.len() > 0 && bytes[0] == 0x2B {
        1
    } else {
        0
    };
    if start == bytes.len() {
        return None;
    }
    let ghost digits = unsigned_spec(bytes@);
    let mut acc: u64 = 0;
    let mut i: usize = start;
    proof {
        assert(bytes@.skip(start as int) =~= digits);
    }
    while i < bytes.len()
        invariant
            start <= i <= bytes.len(),
            radix == 10 || radix == 16,
            acc <= u32::MAX,
            digits == unsigned_spec(bytes@),
            digits.len() > 0,
            digits_spec(digits, radix as int, 0) == digits_spec(
                bytes@.skip(i as int),
                radix as int,
                acc as int,
            ),
        decreases bytes.len() - i,
    {
        proof {
            assert(bytes@.skip(i as int).drop_first() =~= bytes@.skip(i + 1));
            assert(bytes@.skip(i as int)[0] == bytes@[i as int]);
        }
        let ghost before = acc;
        match digit(bytes[i], radix) {
            None => {
                return None;
            },
            Some(d) => {
                acc = acc * radix as u64 + d as u64;
                proof {
                    assert(digits_spec(bytes@.skip(i as int), radix as int, before as int)
                        == digits_spec(bytes@.skip(i + 1), radix as int, acc as int));
                }
                if acc > u32::MAX as u64 {
                    proof {
                        lemma_digits_grow(bytes@.skip(i + 1), radix as int, acc as int);
                    }
                    return None;
                }
            },
        }
        i += 1;
    }
    proof {
        assert(bytes@.skip(i as int).len() == 0);
    }
    Some(acc as u32)
}

/// The part of `bytes` from `from` on.
fn tail(bytes: &[u8], from: usize) -> (r: &[u8])
    requires
        from <= bytes.len(),
    ensures
        r@ == bytes@.skip(from as int),
{
    vstd::slice::slice_subrange(bytes, from, bytes.len())
}

/// Reads the number that a command takes, from its bytes.
pub fn parse_int32(bytes: &[u8]) -> (r: Option<u32>)
    ensures
        r == int32_spec(bytes@),
{
    if let Some(d) = parse_number(bytes, 10) {
        return Some(d);
    }
    if bytes.len() >= 2 && bytes[0] == 0x30 && bytes[1] == 0x78 {
        return parse_number(tail(bytes, 2), 16);
    }
    None
}

/// Reads the number that a command takes: decimal, or hexadecimal behind `0x`.
pub fn to_int32(s: &str) -> (r: Option<u32>)
    ensures
        r == int32_spec(s.spec_bytes()),
{
    parse_int32(s.as_bytes())
}

/// What the debugger asks of the program around it after a machine cycle.
#[derive(Debug, Copy, Clone, PartialEq, Eq, Structural)]
pub struct Report {
    /// Where the program stands.
    pub pc: u16,
    /// To print the instruction there, because the instructions of a run are
    /// being listed.
    pub trace: bool,
    /// To print the instruction there, because no run is going on.
    pub show: bool,
    /// To ask for commands.
    pub prompt: bool,
}

/// A machine under a debugger.
pub struct Debug {
    pub wolfwig: Wolfwig,
    /// The machine cycles that have passed.
    pub cycle: u64,
    /// Where the program stands.
    pub pc: u16,
    /// Where the program stood a cycle ago.
    pub last_pc: u16,
    /// How many breakpoints are still to be run through.
    pub run: usize,
    /// How many instructions are still to be stepped over.
    pub steps: u32,
    /// The addresses at which a run stops, each of them once.
    pub breakpoints: Vec<u16>,
    /// Whether the instructions of a run are listed.
    pub verbose: bool,
    /// The frame that is waited for.
    pub frame: u32,
    pub wait_for_frame: bool,
}

/// The counters of the debugger, without the machine.
pub struct Monitor {
    pub cycle: u64,
    pub pc: u16,
    pub last_pc: u16,
    pub run: usize,
    pub steps: u32,
    pub breakpoints: Set<u16>,
    pub verbose: bool,
    pub frame: u32,
    pub wait_for_frame: bool,
}

impl Monitor {
    /// Whether the program has moved to an address at which a run stops.
    pub open spec fn hit(&self, pc: u16) -> bool {
        pc != self.last_pc && self.run != 0 && self.breakpoints.contains(pc)
    }

    /// The runs still to go once the program stands at `pc`.
    pub open spec fn runs_left(&self, pc: u16) -> usize {
        if self.hit(pc) {
            (self.run - 1) as usize
        } else {
            self.run
        }
    }

    /// Whether the debugger takes note of the program at `pc`: it has moved
    /// there, and no run is going on any more.
    pub open spec fn stopped_at(&self, pc: u16) -> bool {
        pc != self.last_pc && self.runs_left(pc) == 0
    }

    /// Whether the frame that is waited for is still to come, `frames` having
    /// been shown.
    pub open spec fn waiting(&self, frames: u32) -> bool {
        self.wait_for_frame && self.frame > frames
    }

    /// What the debugger asks for once the program stands at `pc` and `frames`
    /// frames have been shown.
    pub open spec fn report(&self, pc: u16, frames: u32) -> Report {
        Report {
            pc,
            trace: pc != self.last_pc && self.run != 0 && !self.breakpoints.contains(pc)
                && self.verbose,
            show: self.stopped_at(pc),
            prompt: self.stopped_at(pc) && !self.wait_for_frame && self.steps == 0,
        }
    }

    /// The counters once the program stands at `pc` and `frames` frames have been
    /// shown. A breakpoint uses up a run. With no run to go the debugger waits
    /// for its frame, or else steps over an instruction if any is to be stepped
    /// over.
    pub open spec fn observed(self, pc: u16, frames: u32) -> Monitor {
        let stopped = self.stopped_at(pc);
        Monitor {
            cycle: if self.cycle == u64::MAX {
                0
            } else {
                (self.cycle + 1) as u64
            },
            pc,
            last_pc: pc,
            run: self.runs_left(pc),
            wait_for_frame: if stopped {
                self.waiting(frames)
            } else {
                self.wait_for_frame
            },
            steps: if stopped && !self.wait_for_frame && self.steps > 0 {
                (self.steps - 1) as u32
            } else {
                self.steps
            },
            ..self
        }
    }
}

impl Debug {
    /// The counters of the debugger.
    pub open spec fn monitor(&self) -> Monitor {
        Monitor {
            cycle: self.cycle,
            pc: self.pc,
            last_pc: self.last_pc,
            run: self.run,
            steps: self.steps,
            breakpoints: self.breakpoints@.to_set(),
            verbose: self.verbose,
            frame: self.frame,
            wait_for_frame: self.wait_for_frame,
        }
    }

    /// A debugger that asks for commands as soon as the program moves.
    pub fn new(wolfwig: Wolfwig) -> (r: Self)
        ensures
            r.wolfwig == wolfwig,
            r.monitor() == (Monitor {
                cycle: 0,
                pc: 0,
                last_pc: 0,
                run: 0,
                steps: 0,
                breakpoints: Set::empty(),
                verbose: false,
                frame: 0,
                wait_for_frame: false,
            }),
    {
        let r = Self {
            wolfwig,
            cycle: 0,
            pc: 0,
            last_pc: 0,
            run: 0,
            steps: 0,
            breakpoints: Vec::new(),
            verbose: false,
            frame: 0,
            wait_for_frame: false,
        };
        proof {
            assert(r.breakpoints@.to_set() =~= Set::empty());
        }
        r
    }

    /// Whether a run stops at `pc`.
    pub fn has_breakpoint(&self, pc: u16) -> (r: bool)
        ensures
            r == self.monitor().breakpoints.contains(pc),
    {
        let mut i: usize = 0;
        while i < self.breakpoints.len()
            invariant
                i <= self.breakpoints.len(),
                forall|j: int| 0 <= j < i ==> self.breakpoints@[j] != pc,
            decreases self.breakpoints.len() - i,
        {
            if self.breakpoints[i] == pc {
                return true;
            }
            i += 1;
        }
        false
    }

    /// Takes note of where the program stands after a machine cycle, `frames`
    /// frames having been shown.
    pub fn observe(&mut self, pc: u16, frames: u32) -> (report: Report)
        ensures
            report == old(self).monitor().report(pc, frames),
            final(self).monitor() == old(self).monitor().observed(pc, frames),
            final(self).wolfwig == old(self).wolfwig,
            final(self).breakpoints == old(self).breakpoints,
    {
        let mut report = Report { pc, trace: false, show: false, prompt: false };
        self.pc = pc;
        if self.pc != self.last_pc && self.run != 0 {
            if self.has_breakpoint(pc) {
                self.run -= 1;
            } else if self.verbose {
                report.trace = true;
            }
        }
        if self.pc != self.last_pc && self.run == 0 {
            report.show = true;
            if self.wait_for_frame {
                if self.frame <= frames {
                    self.wait_for_frame = false;
                }
            } else if self.steps > 0 {
                self.steps -= 1;
            } else {
                report.prompt = true;
            }
        }
        self.last_pc = self.pc;
        self.cycle = if self.cycle == u64::MAX {
            0
        } else {
            self.cycle + 1
        };
        report
    }

    /// Advances the machine by one machine cycle and takes note of where the
    /// program stands. Says what is to be printed and whether to ask for
    /// commands, whatever the machine did.
    pub fn step(&mut self) -> (r: (Report, bool))
        ensures
            r.0 == old(self).monitor().report(r.0.pc, final(self).wolfwig.peripherals.ppu.frame),
            final(self).monitor() == old(self).monitor().observed(
                r.0.pc,
                final(self).wolfwig.peripherals.ppu.frame,
            ),
            r.1 == final(self).wolfwig.cpu.stopped,
            exists|keys: crate::peripherals::joypad::events::State|
                final(self).wolfwig.machine() == #[trigger] Wolfwig::stepped(
                    old(self).wolfwig.machine(),
                    keys,
                ),
    {
        let stopped = self.wolfwig.step();
        let pc = self.wolfwig.pc();
        let frames = self.wolfwig.peripherals.ppu.frame;
        (self.observe(pc, frames), stopped)
    }

    /// Runs freely through `times` breakpoints; through one if no number is
    /// given.
    pub fn run(&mut self, times: Option<u32>)
        ensures
            final(self).monitor() == (Monitor {
                run: if let Some(n) = times {
                    n as usize
                } else {
                    1
                },
                ..old(self).monitor()
            }),
            final(self).wolfwig == old(self).wolfwig,
    {
        self.run = match times {
            Some(n) => n as usize,
            None => 1,
        };
    }

    /// Steps over `steps` instructions before the next; over as many as before if
    /// no number is given.
    pub fn next(&mut self, steps: Option<u32>)
        ensures
            final(self).monitor() == (Monitor {
                steps: if let Some(n) = steps {
                    n
                } else {
                    old(self).steps
                },
                ..old(self).monitor()
            }),
            final(self).wolfwig == old(self).wolfwig,
    {
        if let Some(n) = steps {
            self.steps = n;
        }
    }

    /// Runs until the next frame has been shown.
    pub fn next_frame(&mut self)
        ensures
            final(self).monitor() == (Monitor {
                frame: if old(self).wolfwig.peripherals.ppu.frame == u32::MAX {
                    0
                } else {
                    (old(self).wolfwig.peripherals.ppu.frame + 1) as u32
                },
                wait_for_frame: true,
                ..old(self).monitor()
            }),
            final(self).wolfwig == old(self).wolfwig,
    {
        let frames = self.wolfwig.peripherals.ppu.frame;
        self.frame = if frames == u32::MAX {
            0
        } else {
            frames + 1
        };
        self.wait_for_frame = true;
    }

    /// Lists the instructions of a run, or stops listing them.
    pub fn toggle_verbose(&mut self)
        ensures
            final(self).monitor() == (Monitor {
                verbose: !old(self).verbose,
                ..old(self).monitor()
            }),
            final(self).wolfwig == old(self).wolfwig,
    {
        self.verbose = !self.verbose;
    }

    /// Sets a breakpoint at `pc`.
    pub fn add_breakpoint(&mut self, pc: u16)
        ensures
            final(self).monitor() == (Monitor {
                breakpoints: old(self).monitor().breakpoints.insert(pc),
                ..old(self).monitor()
            }),
            final(self).wolfwig == old(self).wolfwig,
    {
        if !self.has_breakpoint(pc) {
            self.breakpoints.push(pc);
            proof {
                let before = old(self).breakpoints@;
                assert forall|a: u16| before.push(pc).contains(a) <==> before.contains(a) || a
                    == pc by {
                    if before.contains(a) {
                        let i = choose|i: int| 0 <= i < before.len() && before[i] == a;
                        assert(before.push(pc)[i] == a);
                    }
                    if a == pc {
                        assert(before.push(pc)[before.len() as int] == pc);
                    }
                }
                assert(self.breakpoints@.to_set() =~= before.to_set().insert(pc));
            }
        } else {
            proof {
                assert(self.breakpoints@.to_set() =~= self.breakpoints@.to_set().insert(pc));
            }
        }
    }

    /// Deletes the breakpoint at `pc`.
    pub fn delete_breakpoint(&mut self, pc: u16)
        ensures
            final(self).monitor() == (Monitor {
                breakpoints: old(self).monitor().breakpoints.remove(pc),
                ..old(self).monitor()
            }),
            final(self).wolfwig == old(self).wolfwig,
    {
        let mut kept: Vec<u16> = Vec::new();
        let mut i: usize = 0;
        while i < self.breakpoints.len()
            invariant
                i <= self.breakpoints.len(),
                *self == *old(self),
                forall|a: u16|
                    kept@.contains(a) <==> a != pc && self.breakpoints@.take(i as int).contains(a),
            decreases self.breakpoints.len() - i,
        {
            let b = self.breakpoints[i];
            proof {
                let seen = self.breakpoints@.take(i as int);
                let more = self.breakpoints@.take(i + 1);
                assert(more =~= seen.push(b));
                assert forall|a: u16| more.contains(a) <==> seen.contains(a) || a == b by {
                    if seen.contains(a) {
                        let j = choose|j: int| 0 <= j < seen.len() && seen[j] == a;
                        assert(more[j] == a);
                    }
                    if a == b {
                        assert(more[i as int] == b);
                    }
                }
                if b != pc {
                    let grown = kept@.push(b);
                    assert forall|a: u16| grown.contains(a) <==> kept@.contains(a) || a == b by {
                        if kept@.contains(a) {
                            let j = choose|j: int| 0 <= j < kept@.len() && kept@[j] == a;
                            assert(grown[j] == a);
                        }
                        if a == b {
                            assert(grown[kept@.len() as int] == b);
                        }
                    }
                }
            }
            if b != pc {
                kept.push(b);
            }
            i += 1;
        }
        proof {
            assert(self.breakpoints@.take(i as int) =~= self.breakpoints@);
            assert(kept@.to_set() =~= self.breakpoints@.to_set().remove(pc));
        }
        self.breakpoints = kept;
    }
}

} // verus!
