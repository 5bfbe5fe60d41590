//! The registers of the audio unit.

use vstd::array::spec_array_update;
use vstd::prelude::*;

verus! {

/// The frequency sweep of the first channel.
#[derive(Debug, Copy, Clone, PartialEq, Eq, Structural)]
pub struct Sweep {
    pub time: u8,
    pub direction: bool,
    pub shift: u8,
    /// A register was written since the sound was last generated.
    pub modified: bool,
}

impl Sweep {
    /// The state after a reset.
    pub open spec fn new_spec() -> Sweep {
        Sweep { time: 0, direction: false, shift: 0, modified: false }
    }

    pub fn new() -> (r: Self)
        ensures
            r == Sweep::new_spec(),
    {
        Self { time: 0, direction: false, shift: 0, modified: false }
    }

    pub fn time(&self) -> (r: u8)
        ensures
            r == self.time,
    {
        self.time
    }

    pub fn direction(&self) -> (r: u8)
        ensures
            r == if self.direction { 1u8 } else { 0u8 },
    {
        if self.direction {
            1
        } else {
            0
        }
    }

    pub fn shift(&self) -> (r: u8)
        ensures
            r == self.shift,
    {
        self.shift
    }

    pub fn set_time(&mut self, val: u8)
        ensures
            *final(self) == (Sweep { time: val, modified: true, ..*old(self) }),
    {
        self.time = val;
        self.modified = true;
    }

    pub fn set_direction(&mut self, val: u8)
        ensures
            *final(self) == (Sweep { direction: val != 0, modified: true, ..*old(self) }),
    {
        self.direction = val != 0;
        self.modified = true;
    }

    pub fn set_shift(&mut self, val: u8)
        ensures
            *final(self) == (Sweep { shift: val, modified: true, ..*old(self) }),
    {
        self.shift = val;
        self.modified = true;
    }
}

/// The duty cycle and the length of a square wave.
#[derive(Debug, Copy, Clone, PartialEq, Eq, Structural)]
pub struct LengthPattern {
    /// 0 to 3, for a duty cycle of 12.5, 25, 50 or 75 percent.
    pub duty: u8,
    /// The length, from which the sound lasts (64 - length) / 256 seconds.
    pub length: u8,
    /// A register was written since the sound was last generated.
    pub modified: bool,
}

impl LengthPattern {
    /// The state after a reset.
    pub open spec fn new_spec() -> LengthPattern {
        LengthPattern { duty: 0, length: 0, modified: false }
    }

    pub fn new() -> (r: Self)
        ensures
            r == LengthPattern::new_spec(),
    {
        Self { duty: 0, length: 0, modified: false }
    }

    pub fn duty(&self) -> (r: u8)
        ensures
            r == self.duty,
    {
        self.duty
    }

    pub fn length(&self) -> (r: u8)
        ensures
            r == self.length,
    {
        self.length
    }

    pub fn set_duty(&mut self, val: u8)
        ensures
            *final(self) == (LengthPattern { duty: val, modified: true, ..*old(self) }),
    {
        self.duty = val;
        self.modified = true;
    }

    pub fn set_length(&mut self, val: u8)
        ensures
            *final(self) == (LengthPattern { length: val, modified: true, ..*old(self) }),
    {
        self.length = val;
        self.modified = true;
    }
}

/// The volume envelope of a channel.
#[derive(Debug, Copy, Clone, PartialEq, Eq, Structural)]
pub struct Envelope {
    pub initial_volume: u8,
    pub direction: bool,
    pub sweep: u8,
    /// A register was written since the sound was last generated.
    pub modified: bool,
}

impl Envelope {
    /// The state after a reset.
    pub open spec fn new_spec() -> Envelope {
        Envelope { initial_volume: 0, direction: false, sweep: 0, modified: false }
    }

    pub fn new() -> (r: Self)
        ensures
            r == Envelope::new_spec(),
    {
        Self { initial_volume: 0, direction: false, sweep: 0, modified: false }
    }

    pub fn initial_volume(&self) -> (r: u8)
        ensures
            r == self.initial_volume,
    {
        self.initial_volume
    }

    pub fn direction(&self) -> (r: u8)
        ensures
            r == if self.direction { 1u8 } else { 0u8 },
    {
        if self.direction {
            1
        } else {
            0
        }
    }

    pub fn sweep(&self) -> (r: u8)
        ensures
            r == self.sweep,
    {
        self.sweep
    }

    pub fn set_initial_volume(&mut self, val: u8)
        ensures
            *final(self) == (Envelope { initial_volume: val, modified: true, ..*old(self) }),
    {
        self.initial_volume = val;
        self.modified = true;
    }

    pub fn set_direction(&mut self, val: u8)
        ensures
            *final(self) == (Envelope { direction: val != 0, modified: true, ..*old(self) }),
    {
        self.direction = val != 0;
        self.modified = true;
    }

    pub fn set_sweep(&mut self, val: u8)
        ensures
            *final(self) == (Envelope { sweep: val, modified: true, ..*old(self) }),
    {
        self.sweep = val;
        self.modified = true;
    }
}

/// The frequency of a channel, as the 16-bit number of which the registers show
/// the two bytes, and its start and counter bits.
#[derive(Debug, Copy, Clone, PartialEq, Eq, Structural)]
pub struct Frequency {
    pub frequency: u16,
    pub start: bool,
    pub use_counter: bool,
    /// A register was written since the sound was last generated.
    pub modified: bool,
}

impl Frequency {
    /// The state after a reset.
    pub open spec fn new_spec() -> Frequency {
        Frequency { frequency: 0, start: false, use_counter: false, modified: false }
    }

    pub fn new() -> (r: Self)
        ensures
            r == Frequency::new_spec(),
    {
        Self { frequency: 0, start: false, use_counter: false, modified: false }
    }

    /// The low byte of the frequency.
    pub fn frequency_low(&self) -> (r: u8)
        ensures
            r == self.frequency % 256,
    {
        (self.frequency % 256) as u8
    }

    /// The high byte of the frequency.
    pub fn frequency_high(&self) -> (r: u8)
        ensures
            r == self.frequency / 256,
    {
        (self.frequency / 256) as u8
    }

    pub fn start(&self) -> (r: u8)
        ensures
            r == if self.start { 1u8 } else { 0u8 },
    {
        if self.start {
            1
        } else {
            0
        }
    }

    pub fn use_counter(&self) -> (r: u8)
        ensures
            r == if self.use_counter { 1u8 } else { 0u8 },
    {
        if self.use_counter {
            1
        } else {
            0
        }
    }

    /// Replaces the low byte of the frequency.
    pub fn set_frequency_low(&mut self, val: u8)
        ensures
            *final(self) == (Frequency {
                frequency: ((old(self).frequency / 256) * 256 + val) as u16,
                modified: true,
                ..*old(self)
            }),
    {
        self.frequency = (self.frequency / 256) * 256 + val as u16;
        self.modified = true;
    }

    /// Replaces the high byte of the frequency.
    pub fn set_frequency_high(&mut self, val: u8)
        ensures
            *final(self) == (Frequency {
                frequency: (old(self).frequency % 256 + val * 256) as u16,
                modified: true,
                ..*old(self)
            }),
    {
        self.frequency = self.frequency % 256 + val as u16 * 256;
        self.modified = true;
    }

    pub fn set_start(&mut self, val: u8)
        ensures
            *final(self) == (Frequency { start: val != 0, modified: true, ..*old(self) }),
    {
        self.start = val != 0;
        self.modified = true;
    }

    pub fn set_use_counter(&mut self, val: u8)
        ensures
            *final(self) == (Frequency { use_counter: val != 0, modified: true, ..*old(self) }),
    {
        self.use_counter = val != 0;
        self.modified = true;
    }
}

/// The polynomial counter that makes the noise of the fourth channel.
#[derive(Debug, Copy, Clone, PartialEq, Eq, Structural)]
pub struct PolyCounter {
    pub frequency: u8,
    /// False for a counter of 15 bits, true for one of 7.
    pub width: bool,
    pub ratio: u8,
}

impl PolyCounter {
    /// The state after a reset.
    pub open spec fn new_spec() -> PolyCounter {
        PolyCounter { frequency: 0, width: false, ratio: 0 }
    }

    pub fn new() -> (r: Self)
        ensures
            r == PolyCounter::new_spec(),
    {
        Self { frequency: 0, width: false, ratio: 0 }
    }

    pub fn set_frequency(&mut self, val: u8)
        ensures
            *final(self) == (PolyCounter { frequency: val, ..*old(self) }),
    {
        self.frequency = val;
    }

    pub fn set_width(&mut self, val: u8)
        ensures
            *final(self) == (PolyCounter { width: val != 0, ..*old(self) }),
    {
        self.width = val != 0;
    }

    pub fn set_ratio(&mut self, val: u8)
        ensures
            *final(self) == (PolyCounter { ratio: val, ..*old(self) }),
    {
        self.ratio = val;
    }

    pub fn frequency(&self) -> (r: u8)
        ensures
            r == self.frequency,
    {
        self.frequency
    }

    pub fn width(&self) -> (r: u8)
        ensures
            r == if self.width { 1u8 } else { 0u8 },
    {
        if self.width {
            1
        } else {
            0
        }
    }

    pub fn ratio(&self) -> (r: u8)
        ensures
            r == self.ratio,
    {
        self.ratio
    }
}

/// The first channel: a square wave with a frequency sweep.
#[derive(Debug, Copy, Clone, PartialEq, Eq, Structural)]
pub struct ChannelOne {
    pub sweep: Sweep,
    pub length_pattern: LengthPattern,
    pub envelope: Envelope,
    pub frequency: Frequency,
    pub active: bool,
}

impl ChannelOne {
    /// The state after a reset.
    pub open spec fn new_spec() -> ChannelOne {
        ChannelOne {
            sweep: Sweep { time: 0, direction: false, shift: 0, modified: false },
            length_pattern: LengthPattern { duty: 0, length: 0, modified: false },
            envelope: Envelope {
                initial_volume: 0,
                direction: false,
                sweep: 0,
                modified: false,
            },
            frequency: Frequency {
                frequency: 0,
                start: false,
                use_counter: false,
                modified: false,
            },
            active: false,
        }
    }

    pub fn new() -> (r: Self)
        ensures
            r == ChannelOne::new_spec(),
    {
        Self {
            sweep: Sweep::new(),
            length_pattern: LengthPattern::new(),
            envelope: Envelope::new(),
            frequency: Frequency::new(),
            active: false,
        }
    }

    pub fn active(&self) -> (r: u8)
        ensures
            r == if self.active { 1u8 } else { 0u8 },
    {
        if self.active {
            1
        } else {
            0
        }
    }
}

/// The second channel: a square wave.
#[derive(Debug, Copy, Clone, PartialEq, Eq, Structural)]
pub struct ChannelTwo {
    pub length_pattern: LengthPattern,
    pub envelope: Envelope,
    pub frequency: Frequency,
    pub active: bool,
}

impl ChannelTwo {
    /// The state after a reset.
    pub open spec fn new_spec() -> ChannelTwo {
        ChannelTwo {
            length_pattern: LengthPattern { duty: 0, length: 0, modified: false },
            envelope: Envelope {
                initial_volume: 0,
                direction: false,
                sweep: 0,
                modified: false,
            },
            frequency: Frequency {
                frequency: 0,
                start: false,
                use_counter: false,
                modified: false,
            },
            active: false,
        }
    }

    pub fn new() -> (r: Self)
        ensures
            r == ChannelTwo::new_spec(),
    {
        Self {
            length_pattern: LengthPattern::new(),
            envelope: Envelope::new(),
            frequency: Frequency::new(),
            active: false,
        }
    }

    pub fn active(&self) -> (r: u8)
        ensures
            r == if self.active { 1u8 } else { 0u8 },
    {
        if self.active {
            1
        } else {
            0
        }
    }
}

/// The number of bytes of the wave table.
pub const TABLE_SIZE: usize = 16;

/// The third channel: a wave read from a table of 32 samples of four bits.
#[derive(Debug, Copy, Clone, PartialEq, Eq)]
pub struct ChannelThree {
    pub enable: bool,
    pub length: u8,
    pub level: u8,
    pub frequency: Frequency,
    pub table: [u8; 16],
    pub active: bool,
}

impl ChannelThree {
    /// What the wave table reads at `offset`; 0xFF past its end.
    pub open spec fn table_spec(&self, offset: int) -> u8 {
        if 0 <= offset < TABLE_SIZE {
            self.table[offset]
        } else {
            0xFF
        }
    }

    /// The channel after `val` has been written to the wave table at `offset`.
    pub open spec fn with_table(self, offset: int, val: u8) -> ChannelThree {
        if 0 <= offset < TABLE_SIZE {
            ChannelThree { table: spec_array_update(self.table, offset, val), ..self }
        } else {
            self
        }
    }

    /// Whether the channel is as it is after a reset.
    pub open spec fn is_reset(&self) -> bool {
        &&& !self.enable
        &&& self.length == 0
        &&& self.level == 0
        &&& self.frequency == Frequency::new_spec()
        &&& forall|i: int| 0 <= i < TABLE_SIZE ==> self.table[i] == 0
        &&& !self.active
    }

    pub fn new() -> (r: Self)
        ensures
            r.is_reset(),
    {
        Self {
            enable: false,
            length: 0,
            level: 0,
            frequency: Frequency::new(),
            table: [0; 16],
            active: false,
        }
    }

    pub fn set_enable(&mut self, val: u8)
        ensures
            *final(self) == (ChannelThree { enable: val != 0, ..*old(self) }),
    {
        self.enable = val != 0;
    }

    pub fn set_length(&mut self, val: u8)
        ensures
            *final(self) == (ChannelThree { length: val, ..*old(self) }),
    {
        self.length = val;
    }

    pub fn set_level(&mut self, val: u8)
        ensures
            *final(self) == (ChannelThree { level: val, ..*old(self) }),
    {
        self.level = val;
    }

    /// Writes one byte of the wave table; a write past its end is dropped.
    pub fn set_table(&mut self, offset: usize, val: u8)
        ensures
            *final(self) == old(self).with_table(offset as int, val),
    {
        if offset < TABLE_SIZE {
            self.table[offset] = val;
        }
    }

    pub fn enable(&self) -> (r: u8)
        ensures
            r == if self.enable { 1u8 } else { 0u8 },
    {
        if self.enable {
            1
        } else {
            0
        }
    }

    pub fn length(&self) -> (r: u8)
        ensures
            r == self.length,
    {
        self.length
    }

    pub fn level(&self) -> (r: u8)
        ensures
            r == self.level,
    {
        self.level
    }

    /// Reads one byte of the wave table; 0xFF past its end.
    pub fn table(&self, offset: usize) -> (r: u8)
        ensures
            r == self.table_spec(offset as int),
    {
        if offset < TABLE_SIZE {
            self.table[offset]
        } else {
            0xFF
        }
    }

    pub fn active(&self) -> (r: u8)
        ensures
            r == if self.active { 1u8 } else { 0u8 },
    {
        if self.active {
            1
        } else {
            0
        }
    }
}

/// The fourth channel: noise.
#[derive(Debug, Copy, Clone, PartialEq, Eq, Structural)]
pub struct ChannelFour {
    pub length: u8,
    pub envelope: Envelope,
    pub counter: PolyCounter,
    pub start: bool,
    pub stop_on_length: bool,
    pub active: bool,
}

impl ChannelFour {
    /// The state after a reset.
    pub open spec fn new_spec() -> ChannelFour {
        ChannelFour {
            length: 0,
            envelope: Envelope {
                initial_volume: 0,
                direction: false,
                sweep: 0,
                modified: false,
            },
            counter: PolyCounter { frequency: 0, width: false, ratio: 0 },
            start: false,
            stop_on_length: false,
            active: false,
        }
    }

    pub fn new() -> (r: Self)
        ensures
            r == ChannelFour::new_spec(),
    {
        Self {
            length: 0,
            envelope: Envelope::new(),
            counter: PolyCounter::new(),
            start: false,
            stop_on_length: false,
            active: false,
        }
    }

    pub fn set_length(&mut self, val: u8)
        ensures
            *final(self) == (ChannelFour { length: val, ..*old(self) }),
    {
        self.length = val;
    }

    pub fn set_start(&mut self, val: u8)
        ensures
            *final(self) == (ChannelFour { start: val != 0, ..*old(self) }),
    {
        self.start = val != 0;
    }

    pub fn set_stop_on_length(&mut self, val: u8)
        ensures
            *final(self) == (ChannelFour { stop_on_length: val != 0, ..*old(self) }),
    {
        self.stop_on_length = val != 0;
    }

    pub fn length(&self) -> (r: u8)
        ensures
            r == self.length,
    {
        self.length
    }

    pub fn stop_on_length(&self) -> (r: u8)
        ensures
            r == if self.stop_on_length { 1u8 } else { 0u8 },
    {
        if self.stop_on_length {
            1
        } else {
            0
        }
    }

    pub fn active(&self) -> (r: u8)
        ensures
            r == if self.active { 1u8 } else { 0u8 },
    {
        if self.active {
            1
        } else {
            0
        }
    }
}

/// The master volume of the two outputs.
#[derive(Debug, Copy, Clone, PartialEq, Eq, Structural)]
pub struct Volume {
    pub left: u8,
    pub right: u8,
}

impl Volume {
    /// The state after a reset.
    pub open spec fn new_spec() -> Volume {
        Volume { left: 0, right: 0 }
    }

    pub fn new() -> (r: Self)
        ensures
            r == Volume::new_spec(),
    {
        Self { left: 0, right: 0 }
    }

    pub fn set_left(&mut self, val: u8)
        ensures
            *final(self) == (Volume { left: val, ..*old(self) }),
    {
        self.left = val;
    }

    pub fn set_right(&mut self, val: u8)
        ensures
            *final(self) == (Volume { right: val, ..*old(self) }),
    {
        self.right = val;
    }

    pub fn left(&self) -> (r: u8)
        ensures
            r == self.left,
    {
        self.left
    }

    pub fn right(&self) -> (r: u8)
        ensures
            r == self.right,
    {
        self.right
    }
}

/// Which channel goes to which output: a set of eight flags, one bit each.
#[derive(Debug, Copy, Clone, PartialEq, Eq, Structural)]
pub struct ChannelEnable {
    pub bits: u8,
}

/// Channel 4 goes to the left output.
pub const CH4_LEFT: u8 = 0b1000_0000;

/// Channel 3 goes to the left output.
pub const CH3_LEFT: u8 = 0b0100_0000;

/// Channel 2 goes to the left output.
pub const CH2_LEFT: u8 = 0b0010_0000;

/// Channel 1 goes to the left output.
pub const CH1_LEFT: u8 = 0b0001_0000;

/// Channel 4 goes to the right output.
pub const CH4_RIGHT: u8 = 0b0000_1000;

/// Channel 3 goes to the right output.
pub const CH3_RIGHT: u8 = 0b0000_0100;

/// Channel 2 goes to the right output.
pub const CH2_RIGHT: u8 = 0b0000_0010;

/// Channel 1 goes to the right output.
pub const CH1_RIGHT: u8 = 0b0000_0001;

impl ChannelEnable {
    pub fn new() -> (r: Self)
        ensures
            r == (ChannelEnable { bits: 0 }),
    {
        Self { bits: 0 }
    }

    /// Replaces the whole set by the flags whose bits are set in `val`.
    pub fn set_enable(&mut self, val: u8)
        ensures
            *final(self) == (ChannelEnable { bits: val }),
    {
        self.bits = val;
    }

    /// The set as a byte.
    pub fn enable(&self) -> (r: u8)
        ensures
            r == self.bits,
    {
        self.bits
    }

    /// Whether the set holds every flag of `flags`.
    pub fn contains(&self, flags: u8) -> (r: bool)
        ensures
            r == (self.bits & flags == flags),
    {
        self.bits & flags == flags
    }
}

/// The master controls of the audio unit.
#[derive(Debug, Copy, Clone, PartialEq, Eq, Structural)]
pub struct Control {
    pub volume: Volume,
    pub channel_enable: ChannelEnable,
    pub enable: bool,
}

impl Control {
    /// The state after a reset.
    pub open spec fn new_spec() -> Control {
        Control {
            volume: Volume { left: 0, right: 0 },
            channel_enable: ChannelEnable { bits: 0 },
            enable: false,
        }
    }

    pub fn new() -> (r: Self)
        ensures
            r == Control::new_spec(),
    {
        Self { volume: Volume::new(), channel_enable: ChannelEnable::new(), enable: false }
    }

    pub fn set_enable(&mut self, val: u8)
        ensures
            *final(self) == (Control { enable: val != 0, ..*old(self) }),
    {
        self.enable = val != 0;
    }

    pub fn enable(&self) -> (r: u8)
        ensures
            r == if self.enable { 1u8 } else { 0u8 },
    {
        if self.enable {
            1
        } else {
            0
        }
    }
}

/// The registers of the audio unit. Writing them costs the CPU no time; the sound
/// itself is made outside, from what the registers hold.
#[derive(Debug, Copy, Clone, PartialEq, Eq)]
pub struct Apu {
    pub channel_one: ChannelOne,
    pub channel_two: ChannelTwo,
    pub channel_three: ChannelThree,
    pub channel_four: ChannelFour,
    pub control: Control,
}

impl Apu {
    /// What the second register of a square channel reads: the duty cycle in its
    /// top two bits, the length below.
    pub open spec fn length_pattern_byte(p: LengthPattern) -> u8 {
        ((p.duty % 4) * 64 + p.length % 64) as u8
    }

    /// What the envelope register of a channel reads: the initial volume in its
    /// top four bits, the direction in bit 3, the sweep below.
    pub open spec fn envelope_byte(e: Envelope) -> u8 {
        ((e.initial_volume % 16) * 16 + (if e.direction { 8int } else { 0 }) + e.sweep % 8) as u8
    }

    /// What the last register of a channel reads: the start bit, the counter bit,
    /// three ones and the top three bits of the frequency.
    pub open spec fn frequency_byte(f: Frequency) -> u8 {
        ((if f.start { 128int } else { 0 }) + (if f.use_counter { 64int } else { 0 }) + 56 + (f.frequency
            / 256) % 8) as u8
    }

    /// What the register at `addr` reads. Bits that belong to no field read as
    /// ones.
    pub open spec fn read_spec(&self, addr: u16) -> u8 {
        let one = self.channel_one;
        let two = self.channel_two;
        let three = self.channel_three;
        let four = self.channel_four;
        if addr == 0xFF10 {
            (128 + (one.sweep.time % 8) * 16 + (if one.sweep.direction { 8int } else { 0 })
                + one.sweep.shift % 8) as u8
        } else if addr == 0xFF11 {
            Apu::length_pattern_byte(one.length_pattern)
        } else if addr == 0xFF12 {
            Apu::envelope_byte(one.envelope)
        } else if addr == 0xFF13 {
            (one.frequency.frequency % 256) as u8
        } else if addr == 0xFF14 {
            Apu::frequency_byte(one.frequency)
        } else if addr == 0xFF16 {
            Apu::length_pattern_byte(two.length_pattern)
        } else if addr == 0xFF17 {
            Apu::envelope_byte(two.envelope)
        } else if addr == 0xFF18 {
            (two.frequency.frequency % 256) as u8
        } else if addr == 0xFF19 {
            Apu::frequency_byte(two.frequency)
        } else if addr == 0xFF1A {
            (127 + (if three.enable { 128int } else { 0 })) as u8
        } else if addr == 0xFF1B {
            three.length
        } else if addr == 0xFF1C {
            (159 + (three.level % 4) * 32) as u8
        } else if addr == 0xFF1D {
            (three.frequency.frequency % 256) as u8
        } else if addr == 0xFF1E {
            Apu::frequency_byte(three.frequency)
        } else if addr == 0xFF20 {
            (192 + four.length % 64) as u8
        } else if addr == 0xFF21 {
            Apu::envelope_byte(four.envelope)
        } else if addr == 0xFF22 {
            ((four.counter.frequency % 16) * 16 + (if four.counter.width { 8int } else { 0 })
                + four.counter.ratio % 8) as u8
        } else if addr == 0xFF23 {
            (191 + (if four.stop_on_length { 64int } else { 0 })) as u8
        } else if addr == 0xFF24 {
            (136 + (self.control.volume.left % 8) * 16 + self.control.volume.right % 8) as u8
        } else if addr == 0xFF25 {
            self.control.channel_enable.bits
        } else if addr == 0xFF26 {
            (112 + (if self.control.enable { 128int } else { 0 }) + (if four.active { 8int } else { 0 })
                + (if three.active { 4int } else { 0 }) + (if two.active { 2int } else { 0 }) + (
            if one.active { 1int } else { 0 })) as u8
        } else if 0xFF30 <= addr <= 0xFF3F {
            three.table[addr - 0xFF30]
        } else {
            0xFF
        }
    }

    /// The second register of a square channel after `val` has been written to
    /// it.
    pub open spec fn with_length_pattern(val: u8) -> LengthPattern {
        LengthPattern { duty: val / 64, length: val % 64, modified: true }
    }

    /// The envelope of a channel after `val` has been written to its register.
    pub open spec fn with_envelope(val: u8) -> Envelope {
        Envelope {
            initial_volume: val / 16,
            direction: (val / 8) % 2 == 1,
            sweep: val % 8,
            modified: true,
        }
    }

    /// The frequency of a channel after `val` has been written to its first
    /// register, which holds the low byte.
    pub open spec fn with_frequency_low(f: Frequency, val: u8) -> Frequency {
        Frequency { frequency: ((f.frequency / 256) * 256 + val) as u16, modified: true, ..f }
    }

    /// The frequency of a channel after `val` has been written to its last
    /// register: the start bit, the counter bit and the top three bits.
    pub open spec fn with_frequency_high(f: Frequency, val: u8) -> Frequency {
        Frequency {
            frequency: (f.frequency % 256 + (val % 8) * 256) as u16,
            start: val >= 128,
            use_counter: (val / 64) % 2 == 1,
            modified: true,
        }
    }

    /// The audio unit after `val` has been written to the register at `addr`.
    pub open spec fn write_spec(self, addr: u16, val: u8) -> Apu {
        let one = self.channel_one;
        let two = self.channel_two;
        let three = self.channel_three;
        let four = self.channel_four;
        if addr == 0xFF10 {
            Apu {
                channel_one: ChannelOne {
                    sweep: Sweep {
                        time: (val / 16) % 8,
                        direction: (val / 8) % 2 == 1,
                        shift: val % 8,
                        modified: true,
                    },
                    ..one
                },
                ..self
            }
        } else if addr == 0xFF11 {
            Apu {
                channel_one: ChannelOne { length_pattern: Apu::with_length_pattern(val), ..one },
                ..self
            }
        } else if addr == 0xFF12 {
            Apu { channel_one: ChannelOne { envelope: Apu::with_envelope(val), ..one }, ..self }
        } else if addr == 0xFF13 {
            Apu {
                channel_one: ChannelOne {
                    frequency: Apu::with_frequency_low(one.frequency, val),
                    ..one
                },
                ..self
            }
        } else if addr == 0xFF14 {
            Apu {
                channel_one: ChannelOne {
                    frequency: Apu::with_frequency_high(one.frequency, val),
                    ..one
                },
                ..self
            }
        } else if addr == 0xFF16 {
            Apu {
                channel_two: ChannelTwo { length_pattern: Apu::with_length_pattern(val), ..two },
                ..self
            }
        } else if addr == 0xFF17 {
            Apu { channel_two: ChannelTwo { envelope: Apu::with_envelope(val), ..two }, ..self }
        } else if addr == 0xFF18 {
            Apu {
                channel_two: ChannelTwo {
                    frequency: Apu::with_frequency_low(two.frequency, val),
                    ..two
                },
                ..self
            }
        } else if addr == 0xFF19 {
            Apu {
                channel_two: ChannelTwo {
                    frequency: Apu::with_frequency_high(two.frequency, val),
                    ..two
                },
                ..self
            }
        } else if addr == 0xFF1A {
            Apu { channel_three: ChannelThree { enable: val >= 128, ..three }, ..self }
        } else if addr == 0xFF1B {
            Apu { channel_three: ChannelThree { length: val, ..three }, ..self }
        } else if addr == 0xFF1C {
            Apu { channel_three: ChannelThree { level: (val / 32) % 4, ..three }, ..self }
        } else if addr == 0xFF1D {
            Apu {
                channel_three: ChannelThree {
                    frequency: Apu::with_frequency_low(three.frequency, val),
                    ..three
                },
                ..self
            }
        } else if addr == 0xFF1E {
            Apu {
                channel_three: ChannelThree {
                    frequency: Apu::with_frequency_high(three.frequency, val),
                    ..three
                },
                ..self
            }
        } else if addr == 0xFF20 {
            Apu { channel_four: ChannelFour { length: val % 64, ..four }, ..self }
        } else if addr == 0xFF21 {
            Apu { channel_four: ChannelFour { envelope: Apu::with_envelope(val), ..four }, ..self }
        } else if addr == 0xFF22 {
            Apu {
                channel_four: ChannelFour {
                    counter: PolyCounter {
                        frequency: val / 16,
                        width: (val / 8) % 2 == 1,
                        ratio: val % 8,
                    },
                    ..four
                },
                ..self
            }
        } else if addr == 0xFF23 {
            Apu {
                channel_four: ChannelFour {
                    start: val >= 128,
                    stop_on_length: (val / 64) % 2 == 1,
                    ..four
                },
                ..self
            }
        } else if addr == 0xFF24 {
            Apu {
                control: Control {
                    volume: Volume { left: (val / 16) % 8, right: val % 8 },
                    ..self.control
                },
                ..self
            }
        } else if addr == 0xFF25 {
            Apu {
                control: Control { channel_enable: ChannelEnable { bits: val }, ..self.control },
                ..self
            }
        } else if addr == 0xFF26 {
            Apu { control: Control { enable: val >= 128, ..self.control }, ..self }
        } else if 0xFF30 <= addr <= 0xFF3F {
            Apu { channel_three: three.with_table(addr - 0xFF30, val), ..self }
        } else {
            self
        }
    }

    /// Whether the audio unit is as it is after a reset: switched off, with every
    /// register cleared.
    pub open spec fn is_reset(&self) -> bool {
        &&& self.channel_one == ChannelOne::new_spec()
        &&& self.channel_two == ChannelTwo::new_spec()
        &&& self.channel_three.is_reset()
        &&& self.channel_four == ChannelFour::new_spec()
        &&& self.control == Control::new_spec()
    }

    /// An audio unit that is switched off, with every register cleared.
    pub fn new() -> (r: Self)
        ensures
            r.is_reset(),
    {
        Self {
            channel_one: ChannelOne::new(),
            channel_two: ChannelTwo::new(),
            channel_three: ChannelThree::new(),
            channel_four: ChannelFour::new(),
            control: Control::new(),
        }
    }
    /// Reads the register at `addr`.
    pub fn read(&self, addr: u16) -> (r: u8)
        ensures
            r == self.read_spec(addr),
    {
        match addr {
            0xFF10 => 128 + (self.channel_one.sweep.time() % 8) * 16
                + self.channel_one.sweep.direction() * 8 + self.channel_one.sweep.shift() % 8,
            0xFF11 => read_length_pattern(&self.channel_one.length_pattern),
            0xFF12 => read_envelope(&self.channel_one.envelope),
            0xFF13 => self.channel_one.frequency.frequency_low(),
            0xFF14 => read_frequency(&self.channel_one.frequency),
            0xFF16 => read_length_pattern(&self.channel_two.length_pattern),
            0xFF17 => read_envelope(&self.channel_two.envelope),
            0xFF18 => self.channel_two.frequency.frequency_low(),
            0xFF19 => read_frequency(&self.channel_two.frequency),
            0xFF1A => 127 + self.channel_three.enable() * 128,
            0xFF1B => self.channel_three.length(),
            0xFF1C => 159 + (self.channel_three.level() % 4) * 32,
            0xFF1D => self.channel_three.frequency.frequency_low(),
            0xFF1E => read_frequency(&self.channel_three.frequency),
            0xFF20 => 192 + self.channel_four.length() % 64,
            0xFF21 => read_envelope(&self.channel_four.envelope),
            0xFF22 => (self.channel_four.counter.frequency() % 16) * 16
                + self.channel_four.counter.width() * 8 + self.channel_four.counter.ratio() % 8,
            0xFF23 => 191 + self.channel_four.stop_on_length() * 64,
            0xFF24 => 136 + (self.control.volume.left() % 8) * 16 + self.control.volume.right() % 8,
            0xFF25 => self.control.channel_enable.enable(),
            0xFF26 => 112 + self.control.enable() * 128 + self.channel_four.active() * 8
                + self.channel_three.active() * 4 + self.channel_two.active() * 2
                + self.channel_one.active(),
            0xFF30..=0xFF3F => self.channel_three.table((addr - 0xFF30) as usize),
            _ => 0xFF,
        }
    }

    /// Writes a register of the first channel.
    fn write_one(&mut self, addr: u16, val: u8)
        requires
            0xFF10 <= addr <= 0xFF14,
        ensures
            *final(self) == old(self).write_spec(addr, val),
    {
        match addr {
            0xFF10 => {
                self.channel_one.sweep.set_time((val / 16) % 8);
                self.channel_one.sweep.set_direction((val / 8) % 2);
                self.channel_one.sweep.set_shift(val % 8);
            },
            0xFF11 => write_length_pattern(&mut self.channel_one.length_pattern, val),
            0xFF12 => write_envelope(&mut self.channel_one.envelope, val),
            0xFF13 => self.channel_one.frequency.set_frequency_low(val),
            _ => write_frequency(&mut self.channel_one.frequency, val),
        }
    }

    /// Writes a register of the second channel.
    fn write_two(&mut self, addr: u16, val: u8)
        requires
            0xFF16 <= addr <= 0xFF19,
        ensures
            *final(self) == old(self).write_spec(addr, val),
    {
        match addr {
            0xFF16 => write_length_pattern(&mut self.channel_two.length_pattern, val),
            0xFF17 => write_envelope(&mut self.channel_two.envelope, val),
            0xFF18 => self.channel_two.frequency.set_frequency_low(val),
            _ => write_frequency(&mut self.channel_two.frequency, val),
        }
    }

    /// Writes a register of the third channel or a byte of its wave table.
    fn write_three(&mut self, addr: u16, val: u8)
        requires
            0xFF1A <= addr <= 0xFF1E || 0xFF30 <= addr <= 0xFF3F,
        ensures
            *final(self) == old(self).write_spec(addr, val),
    {
        match addr {
            0xFF1A => self.channel_three.set_enable(val / 128),
            0xFF1B => self.channel_three.set_length(val),
            0xFF1C => self.channel_three.set_level((val / 32) % 4),
            0xFF1D => self.channel_three.frequency.set_frequency_low(val),
            0xFF1E => write_frequency(&mut self.channel_three.frequency, val),
            _ => self.channel_three.set_table((addr - 0xFF30) as usize, val),
        }
    }

    /// Writes a register of the fourth channel.
    fn write_four(&mut self, addr: u16, val: u8)
        requires
            0xFF20 <= addr <= 0xFF23,
        ensures
            *final(self) == old(self).write_spec(addr, val),
    {
        match addr {
            0xFF20 => self.channel_four.set_length(val % 64),
            0xFF21 => write_envelope(&mut self.channel_four.envelope, val),
            0xFF22 => {
                self.channel_four.counter.set_frequency(val / 16);
                self.channel_four.counter.set_width((val / 8) % 2);
                self.channel_four.counter.set_ratio(val % 8);
            },
            _ => {
                self.channel_four.set_start(val / 128);
                self.channel_four.set_stop_on_length((val / 64) % 2);
            },
        }
    }

    /// Writes a master control register.
    fn write_control(&mut self, addr: u16, val: u8)
        requires
            0xFF24 <= addr <= 0xFF26,
        ensures
            *final(self) == old(self).write_spec(addr, val),
    {
        match addr {
            0xFF24 => {
                self.control.volume.set_left((val / 16) % 8);
                self.control.volume.set_right(val % 8);
            },
            0xFF25 => self.control.channel_enable.set_enable(val),
            _ => self.control.set_enable(val / 128),
        }
    }

    /// Writes the register at `addr`.
    pub fn write(&mut self, addr: u16, val: u8)
        ensures
            *final(self) == old(self).write_spec(addr, val),
    {
        match addr {
            0xFF10..=0xFF14 => self.write_one(addr, val),
            0xFF16..=0xFF19 => self.write_two(addr, val),
            0xFF1A..=0xFF1E | 0xFF30..=0xFF3F => self.write_three(addr, val),
            0xFF20..=0xFF23 => self.write_four(addr, val),
            0xFF24..=0xFF26 => self.write_control(addr, val),
            _ => {},
        }
    }
}

/// Reads the second register of a square channel.
fn read_length_pattern(p: &LengthPattern) -> (r: u8)
    ensures
        r == Apu::length_pattern_byte(*p),
{
    (p.duty() % 4) * 64 + p.length() % 64
}

/// Reads the envelope register of a channel.
fn read_envelope(e: &Envelope) -> (r: u8)
    ensures
        r == Apu::envelope_byte(*e),
{
    (e.initial_volume() % 16) * 16 + e.direction() * 8 + e.sweep() % 8
}

/// Reads the last register of a channel.
fn read_frequency(f: &Frequency) -> (r: u8)
    ensures
        r == Apu::frequency_byte(*f),
{
    f.start() * 128 + f.use_counter() * 64 + 56 + f.frequency_high() % 8
}

/// Writes the second register of a square channel.
fn write_length_pattern(p: &mut LengthPattern, val: u8)
    ensures
        *final(p) == Apu::with_length_pattern(val),
{
    p.set_duty(val / 64);
    p.set_length(val % 64);
}

/// Writes the envelope register of a channel.
fn write_envelope(e: &mut Envelope, val: u8)
    ensures
        *final(e) == Apu::with_envelope(val),
{
    e.set_initial_volume(val / 16);
    e.set_direction((val / 8) % 2);
    e.set_sweep(val % 8);
}

/// Writes the last register of a channel.
fn write_frequency(f: &mut Frequency, val: u8)
    ensures
        *final(f) == Apu::with_frequency_high(*old(f), val),
{
    f.set_start(val / 128);
    f.set_use_counter((val / 64) % 2);
    f.set_frequency_high(val % 8);
}

} // verus!
