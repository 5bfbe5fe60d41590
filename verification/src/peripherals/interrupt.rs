//! The interrupt controller.

use crate::util::lemma_byte_bits;
use vstd::prelude::*;

verus! {

/// One interrupt line: whether it is enabled and whether it has been raised.
#[derive(Debug, Copy, Clone, PartialEq, Eq, Structural)]
pub struct Flag {
    pub enable: bool,
    pub trigger: bool,
}

impl Flag {
    /// A line that is neither enabled nor raised.
    pub fn new() -> (r: Self)
        ensures
            r == (Flag { enable: false, trigger: false }),
    {
        Self { enable: false, trigger: false }
    }

    /// Whether the line is both enabled and raised.
    pub open spec fn pending(&self) -> bool {
        self.enable && self.trigger
    }
}

/// The five interrupt lines, in falling priority, and the three bits of the
/// enable register that belong to no line.
#[derive(Debug, Copy, Clone, PartialEq, Eq, Structural)]
pub struct Interrupt {
    pub vblank: Flag,
    pub lcd_stat: Flag,
    pub timer: Flag,
    pub serial: Flag,
    pub joypad: Flag,
    pub unused: u8,
}

/// The address at which the handler of the vertical-blank interrupt starts.
pub const VBLANK_PC: u16 = 0x40;

/// The address at which the handler of the LCD status interrupt starts.
pub const LCD_STAT_PC: u16 = 0x48;

/// The address at which the handler of the timer interrupt starts.
pub const TIMER_PC: u16 = 0x50;

/// The address at which the handler of the serial interrupt starts.
pub const SERIAL_PC: u16 = 0x58;

/// The address at which the handler of the joypad interrupt starts.
pub const JOYPAD_PC: u16 = 0x60;

impl Interrupt {
    /// The vector of the highest-priority line that is enabled and raised.
    pub open spec fn pending_vector(&self) -> Option<u16> {
        if self.vblank.pending() {
            Some(VBLANK_PC)
        } else if self.lcd_stat.pending() {
            Some(LCD_STAT_PC)
        } else if self.timer.pending() {
            Some(TIMER_PC)
        } else if self.serial.pending() {
            Some(SERIAL_PC)
        } else if self.joypad.pending() {
            Some(JOYPAD_PC)
        } else {
            None
        }
    }

    /// The controller after the highest-priority pending line has been lowered.
    pub open spec fn acknowledged(self) -> Interrupt {
        if self.vblank.pending() {
            Interrupt { vblank: Flag { trigger: false, ..self.vblank }, ..self }
        } else if self.lcd_stat.pending() {
            Interrupt { lcd_stat: Flag { trigger: false, ..self.lcd_stat }, ..self }
        } else if self.timer.pending() {
            Interrupt { timer: Flag { trigger: false, ..self.timer }, ..self }
        } else if self.serial.pending() {
            Interrupt { serial: Flag { trigger: false, ..self.serial }, ..self }
        } else if self.joypad.pending() {
            Interrupt { joypad: Flag { trigger: false, ..self.joypad }, ..self }
        } else {
            self
        }
    }

    /// The lines that are raised, one bit each: vertical blank in bit 0, then LCD
    /// status, timer, serial and joypad.
    pub open spec fn flags_spec(&self) -> u8 {
        ((if self.joypad.trigger { 16int } else { 0 }) + (if self.serial.trigger { 8int } else { 0 })
            + (if self.timer.trigger { 4int } else { 0 }) + (if self.lcd_stat.trigger { 2int } else { 0 })
            + (if self.vblank.trigger { 1int } else { 0 })) as u8
    }

    /// The enable register: the lines that are enabled, one bit each as in the
    /// flags, and above them the three bits that belong to no line.
    pub open spec fn enables_spec(&self) -> u8 {
        ((self.unused % 8) * 32 + (if self.joypad.enable { 16int } else { 0 }) + (
        if self.serial.enable { 8int } else { 0 }) + (if self.timer.enable { 4int } else { 0 }) + (
        if self.lcd_stat.enable { 2int } else { 0 }) + (if self.vblank.enable { 1int } else { 0 })) as u8
    }

    /// The controller with its lines raised or lowered as the bits of `val` say.
    pub open spec fn with_flags(self, val: u8) -> Interrupt {
        Interrupt {
            joypad: Flag { trigger: (val / 16) % 2 == 1, ..self.joypad },
            serial: Flag { trigger: (val / 8) % 2 == 1, ..self.serial },
            timer: Flag { trigger: (val / 4) % 2 == 1, ..self.timer },
            lcd_stat: Flag { trigger: (val / 2) % 2 == 1, ..self.lcd_stat },
            vblank: Flag { trigger: val % 2 == 1, ..self.vblank },
            ..self
        }
    }

    /// The controller with those lines raised, on top of the ones that are, whose
    /// bits are set in `lines`.
    pub open spec fn raised(self, lines: u8) -> Interrupt {
        Interrupt {
            joypad: Flag { trigger: self.joypad.trigger || (lines / 16) % 2 == 1, ..self.joypad },
            serial: Flag { trigger: self.serial.trigger || (lines / 8) % 2 == 1, ..self.serial },
            timer: Flag { trigger: self.timer.trigger || (lines / 4) % 2 == 1, ..self.timer },
            lcd_stat: Flag {
                trigger: self.lcd_stat.trigger || (lines / 2) % 2 == 1,
                ..self.lcd_stat
            },
            vblank: Flag { trigger: self.vblank.trigger || lines % 2 == 1, ..self.vblank },
            ..self
        }
    }

    /// The controller with its lines enabled or disabled as the bits of `val`
    /// say.
    pub open spec fn with_enables(self, val: u8) -> Interrupt {
        Interrupt {
            unused: val / 32,
            joypad: Flag { enable: (val / 16) % 2 == 1, ..self.joypad },
            serial: Flag { enable: (val / 8) % 2 == 1, ..self.serial },
            timer: Flag { enable: (val / 4) % 2 == 1, ..self.timer },
            lcd_stat: Flag { enable: (val / 2) % 2 == 1, ..self.lcd_stat },
            vblank: Flag { enable: val % 2 == 1, ..self.vblank },
        }
    }

    /// A controller with every line disabled and lowered.
    pub open spec fn new_spec() -> Interrupt {
        Interrupt {
            vblank: Flag { enable: false, trigger: false },
            lcd_stat: Flag { enable: false, trigger: false },
            timer: Flag { enable: false, trigger: false },
            serial: Flag { enable: false, trigger: false },
            joypad: Flag { enable: false, trigger: false },
            unused: 0,
        }
    }

    /// A controller with every line disabled and lowered.
    pub fn new() -> (r: Self)
        ensures
            r == Interrupt::new_spec(),
            r.pending_vector() is None,
    {
        Self {
            vblank: Flag::new(),
            lcd_stat: Flag::new(),
            timer: Flag::new(),
            serial: Flag::new(),
            joypad: Flag::new(),
            unused: 0,
        }
    }

    /// Enables the vertical-blank line unless `val` is zero.
    pub fn set_vblank_enable(&mut self, val: u8)
        ensures
            *final(self) == (Interrupt {
                vblank: Flag { enable: val != 0, ..old(self).vblank },
                ..*old(self)
            }),
    {
        self.vblank.enable = val != 0;
    }

    /// Raises the vertical-blank line unless `val` is zero.
    pub fn set_vblank_trigger(&mut self, val: u8)
        ensures
            *final(self) == (Interrupt {
                vblank: Flag { trigger: val != 0, ..old(self).vblank },
                ..*old(self)
            }),
    {
        self.vblank.trigger = val != 0;
    }

    pub fn vblank_enable(&self) -> (r: bool)
        ensures
            r == self.vblank.enable,
    {
        self.vblank.enable
    }

    pub fn vblank_trigger(&self) -> (r: bool)
        ensures
            r == self.vblank.trigger,
    {
        self.vblank.trigger
    }

    /// Enables the LCD status line unless `val` is zero.
    pub fn set_lcd_stat_enable(&mut self, val: u8)
        ensures
            *final(self) == (Interrupt {
                lcd_stat: Flag { enable: val != 0, ..old(self).lcd_stat },
                ..*old(self)
            }),
    {
        self.lcd_stat.enable = val != 0;
    }

    /// Raises the LCD status line unless `val` is zero.
    pub fn set_lcd_stat_trigger(&mut self, val: u8)
        ensures
            *final(self) == (Interrupt {
                lcd_stat: Flag { trigger: val != 0, ..old(self).lcd_stat },
                ..*old(self)
            }),
    {
        self.lcd_stat.trigger = val != 0;
    }

    pub fn lcd_stat_enable(&self) -> (r: bool)
        ensures
            r == self.lcd_stat.enable,
    {
        self.lcd_stat.enable
    }

    pub fn lcd_stat_trigger(&self) -> (r: bool)
        ensures
            r == self.lcd_stat.trigger,
    {
        self.lcd_stat.trigger
    }

    /// Enables the timer line unless `val` is zero.
    pub fn set_timer_enable(&mut self, val: u8)
        ensures
            *final(self) == (Interrupt {
                timer: Flag { enable: val != 0, ..old(self).timer },
                ..*old(self)
            }),
    {
        self.timer.enable = val != 0;
    }

    /// Raises the timer line unless `val` is zero.
    pub fn set_timer_trigger(&mut self, val: u8)
        ensures
            *final(self) == (Interrupt {
                timer: Flag { trigger: val != 0, ..old(self).timer },
                ..*old(self)
            }),
    {
        self.timer.trigger = val != 0;
    }

    pub fn timer_enable(&self) -> (r: bool)
        ensures
            r == self.timer.enable,
    {
        self.timer.enable
    }

    pub fn timer_trigger(&self) -> (r: bool)
        ensures
            r == self.timer.trigger,
    {
        self.timer.trigger
    }

    /// Enables the serial line unless `val` is zero.
    pub fn set_serial_enable(&mut self, val: u8)
        ensures
            *final(self) == (Interrupt {
                serial: Flag { enable: val != 0, ..old(self).serial },
                ..*old(self)
            }),
    {
        self.serial.enable = val != 0;
    }

    /// Raises the serial line unless `val` is zero.
    pub fn set_serial_trigger(&mut self, val: u8)
        ensures
            *final(self) == (Interrupt {
                serial: Flag { trigger: val != 0, ..old(self).serial },
                ..*old(self)
            }),
    {
        self.serial.trigger = val != 0;
    }

    pub fn serial_enable(&self) -> (r: bool)
        ensures
            r == self.serial.enable,
    {
        self.serial.enable
    }

    pub fn serial_trigger(&self) -> (r: bool)
        ensures
            r == self.serial.trigger,
    {
        self.serial.trigger
    }

    /// Enables the joypad line unless `val` is zero.
    pub fn set_joypad_enable(&mut self, val: u8)
        ensures
            *final(self) == (Interrupt {
                joypad: Flag { enable: val != 0, ..old(self).joypad },
                ..*old(self)
            }),
    {
        self.joypad.enable = val != 0;
    }

    /// Raises the joypad line unless `val` is zero.
    pub fn set_joypad_trigger(&mut self, val: u8)
        ensures
            *final(self) == (Interrupt {
                joypad: Flag { trigger: val != 0, ..old(self).joypad },
                ..*old(self)
            }),
    {
        self.joypad.trigger = val != 0;
    }

    pub fn joypad_enable(&self) -> (r: bool)
        ensures
            r == self.joypad.enable,
    {
        self.joypad.enable
    }

    pub fn joypad_trigger(&self) -> (r: bool)
        ensures
            r == self.joypad.trigger,
    {
        self.joypad.trigger
    }

    /// Stores the bits of the enable register that belong to no line.
    pub fn set_unused(&mut self, val: u8)
        ensures
            *final(self) == (Interrupt { unused: val, ..*old(self) }),
    {
        self.unused = val
    }

    pub fn unused(&self) -> (r: u8)
        ensures
            r == self.unused,
    {
        self.unused
    }

    /// The lines that are raised, one bit each.
    pub fn flags(&self) -> (r: u8)
        ensures
            r == self.flags_spec(),
            r < 32,
    {
        let mut r: u8 = 0;
        if self.joypad.trigger {
            r += 16;
        }
        if self.serial.trigger {
            r += 8;
        }
        if self.timer.trigger {
            r += 4;
        }
        if self.lcd_stat.trigger {
            r += 2;
        }
        if self.vblank.trigger {
            r += 1;
        }
        r
    }

    /// The enable register.
    pub fn enables(&self) -> (r: u8)
        ensures
            r == self.enables_spec(),
    {
        let mut r: u8 = (self.unused % 8) * 32;
        if self.joypad.enable {
            r += 16;
        }
        if self.serial.enable {
            r += 8;
        }
        if self.timer.enable {
            r += 4;
        }
        if self.lcd_stat.enable {
            r += 2;
        }
        if self.vblank.enable {
            r += 1;
        }
        r
    }

    /// Raises or lowers every line by its bit of `val`.
    pub fn set_flags(&mut self, val: u8)
        ensures
            *final(self) == old(self).with_flags(val),
    {
        self.set_joypad_trigger((val / 16) % 2);
        self.set_serial_trigger((val / 8) % 2);
        self.set_timer_trigger((val / 4) % 2);
        self.set_lcd_stat_trigger((val / 2) % 2);
        self.set_vblank_trigger(val % 2);
    }

    /// Raises every line whose bit is set in `lines`, and lowers none.
    pub fn raise(&mut self, lines: u8)
        ensures
            *final(self) == old(self).raised(lines),
    {
        if (lines / 16) % 2 == 1 {
            self.set_joypad_trigger(1);
        }
        if (lines / 8) % 2 == 1 {
            self.set_serial_trigger(1);
        }
        if (lines / 4) % 2 == 1 {
            self.set_timer_trigger(1);
        }
        if (lines / 2) % 2 == 1 {
            self.set_lcd_stat_trigger(1);
        }
        if lines % 2 == 1 {
            self.set_vblank_trigger(1);
        }
    }

    /// Enables or disables every line by its bit of `val`.
    pub fn set_enables(&mut self, val: u8)
        ensures
            *final(self) == old(self).with_enables(val),
    {
        self.set_unused(val / 32);
        self.set_joypad_enable((val / 16) % 2);
        self.set_serial_enable((val / 8) % 2);
        self.set_timer_enable((val / 4) % 2);
        self.set_lcd_stat_enable((val / 2) % 2);
        self.set_vblank_enable(val % 2);
    }

    /// The handler address of the highest-priority line that is enabled and
    /// raised, or `None` if no line is.
    pub fn get_interrupt_pc(&self) -> (r: Option<u16>)
        ensures
            r == self.pending_vector(),
    {
        if self.vblank.enable && self.vblank.trigger {
            return Some(VBLANK_PC);
        }
        if self.lcd_stat.enable && self.lcd_stat.trigger {
            return Some(LCD_STAT_PC);
        }
        if self.timer.enable && self.timer.trigger {
            return Some(TIMER_PC);
        }
        if self.serial.enable && self.serial.trigger {
            return Some(SERIAL_PC);
        }
        if self.joypad.enable && self.joypad.trigger {
            return Some(JOYPAD_PC);
        }
        None
    }

    /// Lowers the highest-priority line that is enabled and raised.
    pub fn disable_interrupt(&mut self)
        ensures
            *final(self) == old(self).acknowledged(),
    {
        if self.vblank.enable && self.vblank.trigger {
            self.vblank.trigger = false;
        } else if self.lcd_stat.enable && self.lcd_stat.trigger {
            self.lcd_stat.trigger = false;
        } else if self.timer.enable && self.timer.trigger {
            self.timer.trigger = false;
        } else if self.serial.enable && self.serial.trigger {
            self.serial.trigger = false;
        } else if self.joypad.enable && self.joypad.trigger {
            self.joypad.trigger = false;
        }
    }
}

/// The enable register reads back what was written to it, and the flags read
/// back the five bits that stand for lines.
pub proof fn lemma_registers_read_back(i: Interrupt, val: u8)
    ensures
        i.with_enables(val).enables_spec() == val,
        i.with_flags(val).flags_spec() == val % 32,
{
    lemma_byte_bits(val);
    let high = val / 32;
    assert(high % 8 == high);
    assert(i.with_enables(val).unused == high);
    assert((i.with_enables(val).unused % 8) * 32 == high * 32);
}

/// Raising lines raises exactly those in addition, and raising none changes
/// nothing.
pub proof fn lemma_raised(i: Interrupt, lines: u8)
    ensures
        i.raised(0) == i,
        Interrupt::new_spec().raised(lines).flags_spec() == lines % 32,
        i.raised(lines).enables_spec() == i.enables_spec(),
{
    lemma_byte_bits(lines);
}

/// With the vertical-blank and the timer lines both pending and the LCD status
/// line not, the vertical-blank vector is served first and the timer vector
/// after it has been acknowledged.
pub proof fn lemma_vblank_before_timer(i: Interrupt)
    requires
        i.vblank.pending(),
        i.timer.pending(),
        !i.lcd_stat.pending(),
    ensures
        i.pending_vector() == Some(0x40u16),
        i.acknowledged().pending_vector() == Some(0x50u16),
{
}

/// A vector is pending exactly when a line is both enabled and raised, and each
/// line's vector is pending exactly when no line before it is.
pub proof fn lemma_priority(i: Interrupt)
    ensures
        i.pending_vector() is Some <==> i.vblank.pending() || i.lcd_stat.pending()
            || i.timer.pending() || i.serial.pending() || i.joypad.pending(),
        i.pending_vector() == Some(VBLANK_PC) <==> i.vblank.pending(),
        i.pending_vector() == Some(LCD_STAT_PC) <==> i.lcd_stat.pending() && !i.vblank.pending(),
        i.pending_vector() == Some(TIMER_PC) <==> i.timer.pending() && !i.vblank.pending()
            && !i.lcd_stat.pending(),
        i.pending_vector() == Some(SERIAL_PC) <==> i.serial.pending() && !i.vblank.pending()
            && !i.lcd_stat.pending() && !i.timer.pending(),
        i.pending_vector() == Some(JOYPAD_PC) <==> i.joypad.pending() && !i.vblank.pending()
            && !i.lcd_stat.pending() && !i.timer.pending() && !i.serial.pending(),
{
}

/// Acknowledging lowers exactly the line whose vector was pending, so the next
/// pending vector, if any, is a later one.
pub proof fn lemma_acknowledge_moves_on(i: Interrupt)
    ensures
        i.pending_vector() is None ==> i.acknowledged() == i,
        i.pending_vector() is Some ==> (i.acknowledged().pending_vector() is None
            || i.acknowledged().pending_vector()->Some_0 > i.pending_vector()->Some_0),
{
}

} // verus!
