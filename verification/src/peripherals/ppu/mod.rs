//! The pixel processing unit: video RAM, the sprite table, the LCD registers and
//! the state machine that renders one line after the other.

pub mod display;
pub mod fake_display;

use crate::peripherals::interrupt::{Flag, Interrupt};
use crate::peripherals::ppu::display::Color;
use crate::peripherals::{Dma, OAM_END};
use crate::util::{bit, bit_set};
use vstd::array::{spec_array_fill_for_copy_type, spec_array_update};
use vstd::prelude::*;

verus! {

/// The number of lines of a frame, the invisible ones included.
pub const LINE_COUNT: u8 = 154;

/// The number of visible lines.
pub const VISIBLE_COUNT: u8 = 144;

/// The number of pixels of a line.
pub const PIXEL_WIDTH: usize = 160;

/// The machine cycles of a horizontal blank.
pub const MODE0_CYCLES: u8 = 51;

/// The machine cycles of one line of the vertical blank.
pub const MODE1_CYCLES: u8 = 114;

/// The machine cycles of a scan of the sprite table.
pub const MODE2_CYCLES: u8 = 20;

/// The machine cycles of the rendering of a line.
pub const MODE3_CYCLES: u8 = 43;

/// The mode of the horizontal blank.
pub const HBLANK_MODE: u8 = 0;

/// The mode of the vertical blank.
pub const VBLANK_MODE: u8 = 1;

/// The mode of the scan of the sprite table.
pub const OAM_MODE: u8 = 2;

/// The mode of the rendering of a line.
pub const RENDER_MODE: u8 = 3;

/// The number of entries of the sprite table.
pub const SPRITE_COUNT: usize = 40;

/// The LCD control register: a set of eight flags, one bit each.
#[derive(Debug, Copy, Clone, PartialEq, Eq, Structural)]
pub struct LCDControl {
    pub bits: u8,
}

/// The display is on.
pub const ENABLE: u8 = 0b1000_0000;

/// The window takes its tiles from the map at 0x1C00.
pub const WINDOW_TILE_MAP: u8 = 0b0100_0000;

/// The window is shown.
pub const WINDOW_DISPLAY: u8 = 0b0010_0000;

/// Tile numbers count up from 0x0000, not signed around 0x1000.
pub const BG_TILE_SET: u8 = 0b0001_0000;

/// The background takes its tiles from the map at 0x1C00.
pub const BG_TILE_MAP: u8 = 0b0000_1000;

/// Sprites are 16 pixels high.
pub const SPRITE_SIZE: u8 = 0b0000_0100;

/// Sprites are shown.
pub const SPRITE_ENABLE: u8 = 0b0000_0010;

/// The background is shown.
pub const BG_ENABLE: u8 = 0b0000_0001;

impl LCDControl {
    pub open spec fn enabled(&self) -> bool {
        bit(self.bits as int, 7)
    }

    pub open spec fn window_high_map(&self) -> bool {
        bit(self.bits as int, 6)
    }

    pub open spec fn window_display(&self) -> bool {
        bit(self.bits as int, 5)
    }

    pub open spec fn unsigned_tiles(&self) -> bool {
        bit(self.bits as int, 4)
    }

    pub open spec fn bg_high_map(&self) -> bool {
        bit(self.bits as int, 3)
    }

    pub open spec fn tall_sprites(&self) -> bool {
        bit(self.bits as int, 2)
    }

    pub open spec fn sprites_enabled(&self) -> bool {
        bit(self.bits as int, 1)
    }

    pub open spec fn bg_enabled(&self) -> bool {
        bit(self.bits as int, 0)
    }

    /// Where in video RAM the tile map of the background starts.
    pub open spec fn bg_tile_map_spec(&self) -> int {
        if self.bg_high_map() {
            0x1C00
        } else {
            0x1800
        }
    }

    /// Where in video RAM the tile map of the window starts.
    pub open spec fn window_tile_map_spec(&self) -> int {
        if self.window_high_map() {
            0x1C00
        } else {
            0x1800
        }
    }

    /// Where in video RAM the tile `tile_number` of the background starts: tiles
    /// count up from 0x0000, or, as signed numbers, around 0x1000.
    pub open spec fn bg_tile_addr_spec(&self, tile_number: u8) -> int {
        if self.unsigned_tiles() || tile_number > 127 {
            tile_number * 16
        } else {
            0x1000 + tile_number * 16
        }
    }

    /// A register with every flag cleared.
    pub fn new() -> (r: Self)
        ensures
            r == (LCDControl { bits: 0 }),
    {
        Self { bits: 0 }
    }

    /// Replaces the whole set by the flags whose bits are set in `val`.
    pub fn set_control(&mut self, val: u8)
        ensures
            *final(self) == (LCDControl { bits: val }),
    {
        self.bits = val;
    }

    /// The set as a byte.
    pub fn bits(&self) -> (r: u8)
        ensures
            r == self.bits,
    {
        self.bits
    }

    /// Whether the set holds the flag at bit `n`.
    pub fn flag(&self, n: u8) -> (r: bool)
        requires
            n < 8,
        ensures
            r == bit(self.bits as int, n as int),
    {
        bit_set(self.bits, n)
    }

    pub fn bg_tile_map(&self) -> (r: usize)
        ensures
            r == self.bg_tile_map_spec(),
    {
        if self.flag(3) {
            0x1C00
        } else {
            0x1800
        }
    }

    pub fn window_tile_map(&self) -> (r: usize)
        ensures
            r == self.window_tile_map_spec(),
    {
        if self.flag(6) {
            0x1C00
        } else {
            0x1800
        }
    }

    pub fn bg_tile_addr(&self, tile_number: u8) -> (r: usize)
        ensures
            r == self.bg_tile_addr_spec(tile_number),
    {
        if self.flag(4) || tile_number > 127 {
            tile_number as usize * 16
        } else {
            0x1000 + tile_number as usize * 16
        }
    }
}

/// The LCD status register: which events raise the LCD status interrupt, and the
/// mode the unit is in.
#[derive(Debug, Copy, Clone, PartialEq, Eq, Structural)]
pub struct LCDStatus {
    pub lyc_interrupt: bool,
    pub mode2_interrupt: bool,
    pub mode1_interrupt: bool,
    pub mode0_interrupt: bool,
    pub mode: u8,
}

impl LCDStatus {
    /// The state after a reset.
    pub open spec fn new_spec() -> LCDStatus {
        LCDStatus {
            lyc_interrupt: false,
            mode2_interrupt: false,
            mode1_interrupt: false,
            mode0_interrupt: false,
            mode: 0,
        }
    }

    pub fn new() -> (r: Self)
        ensures
            r == LCDStatus::new_spec(),
    {
        Self {
            lyc_interrupt: false,
            mode2_interrupt: false,
            mode1_interrupt: false,
            mode0_interrupt: false,
            mode: 0,
        }
    }

    pub fn set_lyc_interrupt(&mut self, val: u8)
        ensures
            *final(self) == (LCDStatus { lyc_interrupt: val != 0, ..*old(self) }),
    {
        self.lyc_interrupt = val != 0
    }

    pub fn set_mode0_interrupt(&mut self, val: u8)
        ensures
            *final(self) == (LCDStatus { mode0_interrupt: val != 0, ..*old(self) }),
    {
        self.mode0_interrupt = val != 0
    }

    pub fn set_mode1_interrupt(&mut self, val: u8)
        ensures
            *final(self) == (LCDStatus { mode1_interrupt: val != 0, ..*old(self) }),
    {
        self.mode1_interrupt = val != 0
    }

    pub fn set_mode2_interrupt(&mut self, val: u8)
        ensures
            *final(self) == (LCDStatus { mode2_interrupt: val != 0, ..*old(self) }),
    {
        self.mode2_interrupt = val != 0
    }

    pub fn lyc_interrupt(&self) -> (r: u8)
        ensures
            r == if self.lyc_interrupt { 1u8 } else { 0u8 },
    {
        if self.lyc_interrupt {
            1
        } else {
            0
        }
    }

    pub fn mode0_interrupt(&self) -> (r: u8)
        ensures
            r == if self.mode0_interrupt { 1u8 } else { 0u8 },
    {
        if self.mode0_interrupt {
            1
        } else {
            0
        }
    }

    pub fn mode1_interrupt(&self) -> (r: u8)
        ensures
            r == if self.mode1_interrupt { 1u8 } else { 0u8 },
    {
        if self.mode1_interrupt {
            1
        } else {
            0
        }
    }

    pub fn mode2_interrupt(&self) -> (r: u8)
        ensures
            r == if self.mode2_interrupt { 1u8 } else { 0u8 },
    {
        if self.mode2_interrupt {
            1
        } else {
            0
        }
    }

    pub fn mode(&self) -> (r: u8)
        ensures
            r == self.mode,
    {
        self.mode
    }
}

/// A palette: the shade for each of the four colour numbers.
#[derive(Debug, Copy, Clone, PartialEq, Eq, Structural)]
pub struct Palette {
    pub color0: u8,
    pub color1: u8,
    pub color2: u8,
    pub color3: u8,
}

impl Palette {
    /// The shade of the colour number `key`, taken modulo four.
    pub open spec fn get_color_spec(&self, key: u8) -> u8 {
        if key % 4 == 0 {
            self.color0
        } else if key % 4 == 1 {
            self.color1
        } else if key % 4 == 2 {
            self.color2
        } else {
            self.color3
        }
    }

    /// The state after a reset.
    pub open spec fn new_spec() -> Palette {
        Palette { color0: 0, color1: 0, color2: 0, color3: 0 }
    }

    pub fn new() -> (r: Self)
        ensures
            r == Palette::new_spec(),
    {
        Self { color0: 0, color1: 0, color2: 0, color3: 0 }
    }

    pub fn set_color0(&mut self, val: u8)
        ensures
            *final(self) == (Palette { color0: val, ..*old(self) }),
    {
        self.color0 = val;
    }

    pub fn set_color1(&mut self, val: u8)
        ensures
            *final(self) == (Palette { color1: val, ..*old(self) }),
    {
        self.color1 = val;
    }

    pub fn set_color2(&mut self, val: u8)
        ensures
            *final(self) == (Palette { color2: val, ..*old(self) }),
    {
        self.color2 = val;
    }

    pub fn set_color3(&mut self, val: u8)
        ensures
            *final(self) == (Palette { color3: val, ..*old(self) }),
    {
        self.color3 = val;
    }

    pub fn color0(&self) -> (r: u8)
        ensures
            r == self.color0,
    {
        self.color0
    }

    pub fn color1(&self) -> (r: u8)
        ensures
            r == self.color1,
    {
        self.color1
    }

    pub fn color2(&self) -> (r: u8)
        ensures
            r == self.color2,
    {
        self.color2
    }

    pub fn color3(&self) -> (r: u8)
        ensures
            r == self.color3,
    {
        self.color3
    }

    /// The shade of a colour number.
    pub fn get_color(&self, key: u8) -> (r: u8)
        ensures
            r == self.get_color_spec(key),
    {
        match key % 4 {
            0 => self.color0,
            1 => self.color1,
            2 => self.color2,
            _ => self.color3,
        }
    }
}

/// The colour in which a shade is shown; a shade is taken modulo four.
pub open spec fn shade_color_spec(shade: u8) -> Color {
    if shade % 4 == 0 {
        Color::RGB(155, 188, 15)
    } else if shade % 4 == 1 {
        Color::RGB(48, 98, 48)
    } else if shade % 4 == 2 {
        Color::RGB(139, 172, 15)
    } else {
        Color::RGB(15, 56, 15)
    }
}

/// The colour in which a shade is shown.
pub fn shade_color(shade: u8) -> (r: Color)
    ensures
        r == shade_color_spec(shade),
{
    match shade % 4 {
        0 => Color::RGB(155, 188, 15),
        1 => Color::RGB(48, 98, 48),
        2 => Color::RGB(139, 172, 15),
        _ => Color::RGB(15, 56, 15),
    }
}

/// The colour number that two bit planes give to a pixel: the bit of the high
/// plane counts two, that of the low plane one. Column 0 is bit 7.
pub open spec fn plane_pixel(low: u8, high: u8, x: int) -> u8 {
    ((if bit(high as int, 7 - x) { 2int } else { 0 }) + (if bit(low as int, 7 - x) { 1int } else { 0 }))
        as u8
}

/// An entry of the sprite table. The sprite's top left corner is at column
/// `x - 8` and line `y - 16` of the screen.
#[derive(Debug, Copy, Clone, PartialEq, Eq, Structural)]
pub struct Sprite {
    pub tile: u8,
    pub x: u8,
    pub y: u8,
    pub flags: u8,
}

impl Sprite {
    pub fn new(tile: u8, x: u8, y: u8, flags: u8) -> (r: Self)
        ensures
            r == (Sprite { tile, x, y, flags }),
    {
        Self { tile, x, y, flags }
    }

    /// The slot of the sprite list that holds no sprite.
    pub open spec fn empty() -> Sprite {
        Sprite { tile: 0, x: 0, y: 0, flags: 0 }
    }

    /// Whether the sprite shows only where the background has colour number 0.
    pub open spec fn behind_background(&self) -> bool {
        self.flags >= 128
    }

    /// Whether the sprite takes its shades from the second object palette.
    pub open spec fn second_palette(&self) -> bool {
        bit(self.flags as int, 4)
    }
}

/// `list` with `s` put in behind every sprite whose `x` is not larger: where it
/// belongs in a list ordered by `x`, after its equals.
pub open spec fn inserted(list: Seq<Sprite>, s: Sprite) -> Seq<Sprite>
    decreases list.len(),
{
    if list.len() == 0 {
        seq![s]
    } else if list.last().x <= s.x {
        list.push(s)
    } else {
        inserted(list.drop_last(), s).push(list.last())
    }
}

/// Whether `list` is in rising order of `x`.
pub open spec fn ordered(list: Seq<Sprite>) -> bool {
    forall|i: int, j: int| 0 <= i <= j < list.len() ==> list[i].x <= list[j].x
}

/// The array that holds `list` in its first slots and no sprite in the others.
pub open spec fn packed(list: Seq<Sprite>, n: nat) -> [Sprite; 40]
    decreases n,
{
    if n == 0 {
        spec_array_fill_for_copy_type(Sprite::empty())
    } else {
        spec_array_update(packed(list, (n - 1) as nat), n - 1, list[n - 1])
    }
}

/// What the unit asks of the display after a machine cycle.
#[derive(Debug, Copy, Clone, PartialEq, Eq)]
pub enum PpuEvent {
    /// Nothing.
    Idle,
    /// To draw the shades of one line.
    Line(u8, [u8; 160]),
    /// To show the frame that has been drawn.
    Frame,
}

/// The pixel processing unit.
pub struct Ppu {
    /// Video RAM, 0x8000 to 0x9FFF.
    pub vram: [u8; 0x2000],
    /// The sprite table, 0xFE00 to 0xFE9F.
    pub oam: [u8; 0xA0],
    pub control: LCDControl,
    pub status: LCDStatus,
    pub scroll_x: u8,
    pub scroll_y: u8,
    pub window_x: u8,
    pub window_y: u8,
    /// The line that is being drawn.
    pub lcd_y: u8,
    pub lcd_y_compare: u8,
    pub bg_palette: Palette,
    pub obj0_palette: Palette,
    pub obj1_palette: Palette,
    /// The machine cycles spent in the current mode.
    pub mode_cycle: u8,
    /// The sprites on the current line, in rising order of `x`.
    pub sprites: [Sprite; 40],
    /// How many slots of `sprites` are in use.
    pub sprite_count: usize,
    /// The transfer into the sprite table that was asked for in this machine
    /// cycle.
    pub dma: Dma,
    /// The number of frames shown so far.
    pub frame: u32,
}

impl Ppu {
    // ----- what the registers and the memories hold -----

    /// The byte of video RAM at `i`; zero outside it.
    pub open spec fn vram_at(&self, i: int) -> u8 {
        if 0 <= i < 0x2000 {
            self.vram[i]
        } else {
            0
        }
    }

    /// How many lines a sprite covers.
    pub open spec fn sprite_height(&self) -> int {
        if self.control.tall_sprites() {
            16
        } else {
            8
        }
    }

    /// Entry `i` of the sprite table.
    pub open spec fn entry(&self, i: int) -> Sprite {
        Sprite {
            y: self.oam[4 * i],
            x: self.oam[4 * i + 1],
            tile: self.oam[4 * i + 2],
            flags: self.oam[4 * i + 3],
        }
    }

    /// Whether a sprite covers the current line.
    pub open spec fn on_line(&self, s: Sprite) -> bool {
        s.y <= self.lcd_y + 16 < s.y + self.sprite_height()
    }

    /// The sprites of the first `n` entries of the table that cover the current
    /// line, in rising order of `x`; of two with the same `x` the earlier entry
    /// comes first.
    pub open spec fn scanned(&self, n: nat) -> Seq<Sprite>
        decreases n,
    {
        if n == 0 {
            Seq::empty()
        } else if self.on_line(self.entry(n - 1)) {
            inserted(self.scanned((n - 1) as nat), self.entry(n - 1))
        } else {
            self.scanned((n - 1) as nat)
        }
    }

    /// The sprites on the current line, as the last scan left them.
    pub open spec fn sprite_list(&self) -> Seq<Sprite> {
        self.sprites@.take(
            if self.sprite_count <= SPRITE_COUNT {
                self.sprite_count as int
            } else {
                SPRITE_COUNT as int
            },
        )
    }

    // ----- one line -----

    /// The colour number of the pixel in column `x` of row `y` of the tile that
    /// starts at `base` in video RAM.
    pub open spec fn tile_pixel(&self, base: int, x: int, y: int) -> u8 {
        plane_pixel(self.vram_at(base + 2 * y), self.vram_at(base + 2 * y + 1), x)
    }

    /// The colour number of the pixel in column `x` of row `y` of the plane of 32
    /// by 32 tiles whose map starts at `map`.
    pub open spec fn plane_index(&self, map: int, x: int, y: int) -> u8 {
        let tile_number = self.vram_at(map + (y / 8) * 32 + x / 8);
        self.tile_pixel(self.control.bg_tile_addr_spec(tile_number), x % 8, y % 8)
    }

    /// Whether the window covers column `x` of the current line.
    pub open spec fn in_window(&self, x: int) -> bool {
        self.control.window_display() && self.lcd_y >= self.window_y && x + 7 >= self.window_x
    }

    /// The colour number that background and window give to column `x` of the
    /// current line.
    pub open spec fn bg_index(&self, x: int) -> u8 {
        if !self.control.bg_enabled() {
            0
        } else if self.in_window(x) {
            self.plane_index(
                self.control.window_tile_map_spec(),
                x + 7 - self.window_x,
                self.lcd_y - self.window_y,
            )
        } else {
            self.plane_index(
                self.control.bg_tile_map_spec(),
                (self.scroll_x + x) % 256,
                (self.scroll_y + self.lcd_y) % 256,
            )
        }
    }

    /// Where in video RAM the tile data of a sprite starts. A tall sprite takes
    /// two tiles, the first of them at an even number.
    pub open spec fn sprite_base(&self, s: Sprite) -> int {
        if self.control.tall_sprites() {
            (s.tile / 2) * 32
        } else {
            s.tile * 16
        }
    }

    /// The colour number that a sprite gives to column `x` of the current line;
    /// zero where the sprite is not.
    pub open spec fn sprite_index(&self, s: Sprite, x: int) -> u8 {
        if self.on_line(s) && s.x <= x + 8 < s.x + 8 {
            self.tile_pixel(self.sprite_base(s), x + 8 - s.x, self.lcd_y + 16 - s.y)
        } else {
            0
        }
    }

    /// Whether a sprite shows in column `x`: where its colour number is not zero,
    /// unless it stands behind a background whose colour number `bg` is not zero.
    pub open spec fn shows(&self, s: Sprite, x: int, bg: u8) -> bool {
        self.sprite_index(s, x) != 0 && !(s.behind_background() && bg != 0)
    }

    /// The shade of a sprite in column `x`.
    pub open spec fn sprite_shade(&self, s: Sprite, x: int) -> u8 {
        if s.second_palette() {
            self.obj1_palette.get_color_spec(self.sprite_index(s, x))
        } else {
            self.obj0_palette.get_color_spec(self.sprite_index(s, x))
        }
    }

    /// The shade of column `x` once the sprites from slot `i` on have been
    /// painted over the background, the last slot first: that of the first of
    /// them that shows, or that of the background.
    pub open spec fn painted(&self, x: int, i: int) -> u8
        decreases self.sprite_list().len() - i,
    {
        let list = self.sprite_list();
        if i < 0 || i >= list.len() {
            self.bg_palette.get_color_spec(self.bg_index(x))
        } else if self.shows(list[i], x, self.bg_index(x)) {
            self.sprite_shade(list[i], x)
        } else {
            self.painted(x, i + 1)
        }
    }

    /// The shade of column `x` of the current line.
    pub open spec fn pixel_spec(&self, x: int) -> u8 {
        if self.control.sprites_enabled() {
            self.painted(x, 0)
        } else {
            self.bg_palette.get_color_spec(self.bg_index(x))
        }
    }

    // ----- one machine cycle -----

    /// The interrupt controller after the unit has entered the mode it is in:
    /// each mode but rendering raises the LCD status line if its flag asks for
    /// it, and the vertical blank raises its own line.
    pub open spec fn entered(&self, i: Interrupt) -> Interrupt {
        let m = self.status.mode % 4;
        let stat = m == 0 && self.status.mode0_interrupt || m == 1 && self.status.mode1_interrupt
            || m == 2 && self.status.mode2_interrupt;
        Interrupt {
            lcd_stat: Flag { trigger: i.lcd_stat.trigger || stat, ..i.lcd_stat },
            vblank: Flag { trigger: i.vblank.trigger || m == 1, ..i.vblank },
            ..i
        }
    }

    /// The interrupt controller after the line has changed: a line equal to the
    /// compare register raises the LCD status line if the flag asks for it.
    pub open spec fn compared(&self, i: Interrupt) -> Interrupt {
        if self.status.lyc_interrupt && self.lcd_y == self.lcd_y_compare {
            Interrupt { lcd_stat: Flag { trigger: true, ..i.lcd_stat }, ..i }
        } else {
            i
        }
    }

    /// The unit in mode `mode`, at its first cycle.
    pub open spec fn in_mode(self, mode: u8) -> Ppu {
        Ppu { status: LCDStatus { mode, ..self.status }, mode_cycle: 0, ..self }
    }

    /// The unit one cycle further in its mode.
    pub open spec fn waited(self) -> Ppu {
        Ppu { mode_cycle: (self.mode_cycle + 1) as u8, ..self }
    }

    /// How many machine cycles the mode the unit is in lasts.
    pub open spec fn mode_length(&self) -> int {
        let m = self.status.mode % 4;
        if m == 0 {
            51
        } else if m == 1 {
            114
        } else if m == 2 {
            20
        } else {
            43
        }
    }

    /// Whether this machine cycle is the last of the mode.
    pub open spec fn mode_ends(&self) -> bool {
        self.mode_cycle + 1 >= self.mode_length()
    }

    /// The unit with the sprite list that a scan of the table gives.
    pub open spec fn rescanned(self) -> Ppu {
        let list = self.scanned(SPRITE_COUNT as nat);
        Ppu { sprites: packed(list, list.len()), sprite_count: list.len() as usize, ..self }
    }

    /// The state machine after one machine cycle, without the transfer into the
    /// sprite table.
    ///
    /// A horizontal blank ends with the next line: line 144 starts the vertical
    /// blank, any other a scan. A line of the vertical blank ends with the next
    /// line; after line 153 comes line 0 with a scan, and a frame is complete. A
    /// scan reads the table in its first cycle and ends in rendering. Rendering
    /// draws the line in its first cycle and ends in a horizontal blank.
    pub open spec fn lcd_step(self) -> Ppu {
        let m = self.status.mode % 4;
        if !self.control.enabled() {
            self
        } else if m == 0 {
            if self.mode_ends() {
                let next = ((self.lcd_y + 1) % 256) as u8;
                Ppu { lcd_y: next, ..self }.in_mode(
                    if next >= VISIBLE_COUNT {
                        VBLANK_MODE
                    } else {
                        OAM_MODE
                    },
                )
            } else {
                self.waited()
            }
        } else if m == 1 {
            if self.mode_ends() {
                if self.lcd_y + 1 >= LINE_COUNT {
                    Ppu {
                        lcd_y: 0,
                        frame: ((self.frame + 1) % 0x1_0000_0000) as u32,
                        ..self
                    }.in_mode(OAM_MODE)
                } else {
                    Ppu { lcd_y: (self.lcd_y + 1) as u8, mode_cycle: 0, ..self }
                }
            } else {
                self.waited()
            }
        } else if m == 2 {
            let scanned = if self.mode_cycle == 0 {
                self.rescanned()
            } else {
                self
            };
            if self.mode_ends() {
                scanned.in_mode(RENDER_MODE)
            } else {
                scanned.waited()
            }
        } else {
            if self.mode_cycle == 0 {
                Ppu { mode_cycle: 1, ..self }
            } else if self.mode_ends() {
                self.in_mode(HBLANK_MODE)
            } else {
                self.waited()
            }
        }
    }

    /// Whether this machine cycle changes the line.
    pub open spec fn line_ends(&self) -> bool {
        self.control.enabled() && self.status.mode % 4 <= 1 && self.mode_ends()
    }

    /// Whether this machine cycle changes the mode.
    pub open spec fn mode_changes(&self) -> bool {
        self.control.enabled() && self.mode_ends() && (self.status.mode % 4 != 1 || self.lcd_y + 1
            >= LINE_COUNT) && !(self.status.mode % 4 == 3 && self.mode_cycle == 0)
    }

    /// The interrupt controller after one machine cycle of the unit.
    pub open spec fn lcd_interrupts(self, i: Interrupt) -> Interrupt {
        let next = self.lcd_step();
        let i1 = if self.line_ends() {
            next.compared(i)
        } else {
            i
        };
        if self.mode_changes() {
            next.entered(i1)
        } else {
            i1
        }
    }

    /// Whether this machine cycle draws the current line.
    pub open spec fn draws(&self) -> bool {
        self.control.enabled() && self.status.mode % 4 == 3 && self.mode_cycle == 0
    }

    /// Whether this machine cycle completes a frame.
    pub open spec fn presents(&self) -> bool {
        self.control.enabled() && self.status.mode % 4 == 1 && self.mode_ends() && self.lcd_y + 1
            >= LINE_COUNT
    }

    /// The unit after one machine cycle: the state machine moves on, and a
    /// transfer that was asked for is handed over.
    pub open spec fn step_spec(self) -> Ppu {
        Ppu { dma: Dma::idle(), ..self.lcd_step() }
    }

    /// The transfer into the sprite table after one machine cycle: a running one
    /// moves four bytes on and ends behind the table; one that was asked for
    /// takes its place.
    pub open spec fn dma_step(&self, dma: Dma) -> Dma {
        if self.dma.enabled {
            self.dma
        } else {
            dma.advanced()
        }
    }

    // ----- access from the bus -----

    /// Whether the CPU can reach video RAM: not while a line is rendered.
    pub open spec fn vram_open(&self) -> bool {
        self.status.mode % 4 != 3
    }

    /// Whether the CPU can reach the sprite table: not while it is scanned or a
    /// line is rendered.
    pub open spec fn oam_open(&self) -> bool {
        self.status.mode % 4 <= 1
    }

    /// What the unit answers to a read of `address`.
    pub open spec fn read_spec(&self, address: u16) -> u8 {
        if 0x8000 <= address <= 0x9FFF {
            if self.vram_open() {
                self.vram[address - 0x8000]
            } else {
                0xFF
            }
        } else if 0xFE00 <= address <= 0xFE9F {
            if self.oam_open() {
                self.oam[address - 0xFE00]
            } else {
                0xFF
            }
        } else {
            0
        }
    }

    /// The unit after `val` has been written to `address`. A write to a memory
    /// that the CPU cannot reach is dropped.
    pub open spec fn write_spec(self, address: u16, val: u8) -> Ppu {
        if 0x8000 <= address <= 0x9FFF && self.vram_open() {
            Ppu { vram: spec_array_update(self.vram, address - 0x8000, val), ..self }
        } else if 0xFE00 <= address <= 0xFE9F && self.oam_open() {
            Ppu { oam: spec_array_update(self.oam, address - 0xFE00, val), ..self }
        } else {
            self
        }
    }

    /// What a palette register reads: colour 3 in its top two bits, then colours
    /// 2, 1 and 0.
    pub open spec fn palette_byte(p: Palette) -> u8 {
        ((p.color3 % 4) * 64 + (p.color2 % 4) * 16 + (p.color1 % 4) * 4 + p.color0 % 4) as u8
    }

    /// The palette that the byte `val` of a palette register stands for.
    pub open spec fn palette_of(val: u8) -> Palette {
        Palette { color3: val / 64, color2: (val / 16) % 4, color1: (val / 4) % 4, color0: val % 4 }
    }

    /// What the status register reads: a one, the four interrupt flags, whether
    /// the line is the one in the compare register, and the mode.
    pub open spec fn status_byte(&self) -> u8 {
        (128 + (if self.status.lyc_interrupt { 64int } else { 0 }) + (if self.status.mode2_interrupt {
            32int
        } else {
            0
        }) + (if self.status.mode1_interrupt { 16int } else { 0 }) + (if self.status.mode0_interrupt {
            8int
        } else {
            0
        }) + (if self.lcd_y == self.lcd_y_compare { 4int } else { 0 }) + self.status.mode % 4) as u8
    }

    /// What the LCD register at `addr`, from 0xFF40 to 0xFF4B, reads.
    pub open spec fn reg_read_spec(&self, addr: u16) -> u8 {
        if addr == 0xFF40 {
            self.control.bits
        } else if addr == 0xFF41 {
            self.status_byte()
        } else if addr == 0xFF42 {
            self.scroll_y
        } else if addr == 0xFF43 {
            self.scroll_x
        } else if addr == 0xFF44 {
            self.lcd_y
        } else if addr == 0xFF45 {
            self.lcd_y_compare
        } else if addr == 0xFF47 {
            Ppu::palette_byte(self.bg_palette)
        } else if addr == 0xFF48 {
            Ppu::palette_byte(self.obj0_palette)
        } else if addr == 0xFF49 {
            Ppu::palette_byte(self.obj1_palette)
        } else if addr == 0xFF4A {
            self.window_y
        } else if addr == 0xFF4B {
            self.window_x
        } else {
            0xFF
        }
    }

    /// The unit after `val` has been written to the LCD register at `addr`. A
    /// write to the line register restarts the line count; a write to 0xFF46 asks
    /// for a transfer into the sprite table.
    pub open spec fn reg_write_spec(self, addr: u16, val: u8) -> Ppu {
        if addr == 0xFF40 {
            Ppu { control: LCDControl { bits: val }, ..self }
        } else if addr == 0xFF41 {
            Ppu {
                status: LCDStatus {
                    lyc_interrupt: (val / 64) % 2 == 1,
                    mode2_interrupt: (val / 32) % 2 == 1,
                    mode1_interrupt: (val / 16) % 2 == 1,
                    mode0_interrupt: (val / 8) % 2 == 1,
                    ..self.status
                },
                ..self
            }
        } else if addr == 0xFF42 {
            Ppu { scroll_y: val, ..self }
        } else if addr == 0xFF43 {
            Ppu { scroll_x: val, ..self }
        } else if addr == 0xFF44 {
            Ppu { lcd_y: 0, ..self }
        } else if addr == 0xFF45 {
            Ppu { lcd_y_compare: val, ..self }
        } else if addr == 0xFF46 {
            Ppu { dma: Dma::from_page(val), ..self }
        } else if addr == 0xFF47 {
            Ppu { bg_palette: Ppu::palette_of(val), ..self }
        } else if addr == 0xFF48 {
            Ppu { obj0_palette: Ppu::palette_of(val), ..self }
        } else if addr == 0xFF49 {
            Ppu { obj1_palette: Ppu::palette_of(val), ..self }
        } else if addr == 0xFF4A {
            Ppu { window_y: val, ..self }
        } else if addr == 0xFF4B {
            Ppu { window_x: val, ..self }
        } else {
            self
        }
    }

    // ----- executable -----

    /// Whether the unit is as it is after a reset: the display off, every
    /// register and both memories cleared.
    pub open spec fn is_reset(&self) -> bool {
        &&& self.control == (LCDControl { bits: 0 })
        &&& self.status == LCDStatus::new_spec()
        &&& self.scroll_x == 0 && self.scroll_y == 0 && self.window_x == 0 && self.window_y == 0
        &&& self.lcd_y == 0 && self.lcd_y_compare == 0 && self.mode_cycle == 0
        &&& self.bg_palette == Palette::new_spec()
        &&& self.obj0_palette == Palette::new_spec()
        &&& self.obj1_palette == Palette::new_spec()
        &&& self.sprite_count == 0
        &&& self.dma == Dma::idle()
        &&& self.frame == 0
        &&& forall|i: int| 0 <= i < 0x2000 ==> self.vram[i] == 0
        &&& forall|i: int| 0 <= i < 0xA0 ==> self.oam[i] == 0
    }

    /// A unit with the display off and every register and memory cleared.
    pub fn new() -> (r: Self)
        ensures
            r.is_reset(),
    {
        Self {
            vram: [0; 0x2000],
            oam: [0; 0xA0],
            lcd_y: 0,
            scroll_x: 0,
            scroll_y: 0,
            window_x: 0,
            window_y: 0,
            lcd_y_compare: 0,
            control: LCDControl::new(),
            status: LCDStatus::new(),
            bg_palette: Palette::new(),
            obj0_palette: Palette::new(),
            obj1_palette: Palette::new(),
            mode_cycle: 0,
            sprites: [Sprite { tile: 0, x: 0, y: 0, flags: 0 }; 40],
            sprite_count: 0,
            dma: Dma::new(),
            frame: 0,
        }
    }
    pub fn set_lcd_y(&mut self, _val: u8)
        ensures
            *final(self) == (Ppu { lcd_y: 0, ..*old(self) }),
    {
        self.lcd_y = 0
    }

    pub fn lcd_y(&self) -> (r: u8)
        ensures
            r == self.lcd_y,
    {
        self.lcd_y
    }

    /// Asks for a transfer of the page `val` into the sprite table. It starts with
    /// the next machine cycle.
    pub fn set_dma(&mut self, val: u8)
        ensures
            *final(self) == (Ppu { dma: Dma::from_page(val), ..*old(self) }),
    {
        self.dma.enabled = true;
        self.dma.source = val as u16 * 0x100;
        self.dma.dest = 0xFE00;
    }

    /// Writes to video RAM or to the sprite table.
    pub fn write(&mut self, address: u16, val: u8)
        ensures
            *final(self) == old(self).write_spec(address, val),
    {
        let mode = self.status.mode % 4;
        match address {
            0x8000..=0x9FFF => {
                if mode != RENDER_MODE {
                    self.vram[(address - 0x8000) as usize] = val;
                }
            },
            0xFE00..=0xFE9F => {
                if mode <= VBLANK_MODE {
                    self.oam[(address - 0xFE00) as usize] = val;
                }
            },
            _ => {},
        }
    }

    /// Reads from video RAM or from the sprite table; 0xFF while the memory
    /// cannot be reached.
    pub fn read(&self, address: u16) -> (r: u8)
        ensures
            r == self.read_spec(address),
    {
        let mode = self.status.mode % 4;
        match address {
            0x8000..=0x9FFF => {
                if mode != RENDER_MODE {
                    self.vram[(address - 0x8000) as usize]
                } else {
                    0xFF
                }
            },
            0xFE00..=0xFE9F => {
                if mode <= VBLANK_MODE {
                    self.oam[(address - 0xFE00) as usize]
                } else {
                    0xFF
                }
            },
            _ => 0,
        }
    }

    /// Reads an LCD register.
    pub fn read_reg(&self, addr: u16) -> (r: u8)
        ensures
            r == self.reg_read_spec(addr),
    {
        match addr {
            0xFF40 => self.control.bits(),
            0xFF41 => 128 + self.status.lyc_interrupt() * 64 + self.status.mode2_interrupt() * 32
                + self.status.mode1_interrupt() * 16 + self.status.mode0_interrupt() * 8 + (
            if self.check_lcd_y_compare() {
                4
            } else {
                0
            }) + self.status.mode() % 4,
            0xFF42 => self.scroll_y(),
            0xFF43 => self.scroll_x(),
            0xFF44 => self.lcd_y(),
            0xFF45 => self.lcd_y_compare(),
            0xFF47 => read_palette(&self.bg_palette),
            0xFF48 => read_palette(&self.obj0_palette),
            0xFF49 => read_palette(&self.obj1_palette),
            0xFF4A => self.window_y(),
            0xFF4B => self.window_x(),
            _ => 0xFF,
        }
    }

    /// Writes an LCD register.
    pub fn write_reg(&mut self, addr: u16, val: u8)
        ensures
            *final(self) == old(self).reg_write_spec(addr, val),
    {
        match addr {
            0xFF40 => self.control.set_control(val),
            0xFF41 => {
                self.status.set_lyc_interrupt((val / 64) % 2);
                self.status.set_mode2_interrupt((val / 32) % 2);
                self.status.set_mode1_interrupt((val / 16) % 2);
                self.status.set_mode0_interrupt((val / 8) % 2);
            },
            0xFF42 => self.set_scroll_y(val),
            0xFF43 => self.set_scroll_x(val),
            0xFF44 => self.set_lcd_y(val),
            0xFF45 => self.set_lcd_y_compare(val),
            0xFF46 => self.set_dma(val),
            0xFF47 => write_palette(&mut self.bg_palette, val),
            0xFF48 => write_palette(&mut self.obj0_palette, val),
            0xFF49 => write_palette(&mut self.obj1_palette, val),
            0xFF4A => self.set_window_y(val),
            0xFF4B => self.set_window_x(val),
            _ => {},
        }
    }

    pub fn set_scroll_y(&mut self, val: u8)
        ensures
            *final(self) == (Ppu { scroll_y: val, ..*old(self) }),
    {
        self.scroll_y = val
    }

    pub fn set_scroll_x(&mut self, val: u8)
        ensures
            *final(self) == (Ppu { scroll_x: val, ..*old(self) }),
    {
        self.scroll_x = val
    }

    pub fn scroll_y(&self) -> (r: u8)
        ensures
            r == self.scroll_y,
    {
        self.scroll_y
    }

    pub fn scroll_x(&self) -> (r: u8)
        ensures
            r == self.scroll_x,
    {
        self.scroll_x
    }

    pub fn set_window_y(&mut self, val: u8)
        ensures
            *final(self) == (Ppu { window_y: val, ..*old(self) }),
    {
        self.window_y = val
    }

    pub fn set_window_x(&mut self, val: u8)
        ensures
            *final(self) == (Ppu { window_x: val, ..*old(self) }),
    {
        self.window_x = val
    }

    pub fn window_y(&self) -> (r: u8)
        ensures
            r == self.window_y,
    {
        self.window_y
    }

    pub fn window_x(&self) -> (r: u8)
        ensures
            r == self.window_x,
    {
        self.window_x
    }

    /// Whether the current line is the one in the compare register.
    pub fn check_lcd_y_compare(&self) -> (r: bool)
        ensures
            r == (self.lcd_y == self.lcd_y_compare),
    {
        self.lcd_y == self.lcd_y_compare
    }

    pub fn set_lcd_y_compare(&mut self, val: u8)
        ensures
            *final(self) == (Ppu { lcd_y_compare: val, ..*old(self) }),
    {
        self.lcd_y_compare = val
    }

    pub fn lcd_y_compare(&self) -> (r: u8)
        ensures
            r == self.lcd_y_compare,
    {
        self.lcd_y_compare
    }

    /// Raises the LCD status interrupt if the line matches the compare register
    /// and the flag asks for it.
    fn update_ly_interrupt(&self, interrupt: &mut Interrupt)
        ensures
            *final(interrupt) == self.compared(*old(interrupt)),
    {
        if self.status.lyc_interrupt && self.check_lcd_y_compare() {
            interrupt.set_lcd_stat_trigger(1)
        }
    }

    /// Raises the interrupts that entering the current mode asks for.
    fn update_mode_interrupt(&self, interrupt: &mut Interrupt)
        ensures
            *final(interrupt) == self.entered(*old(interrupt)),
    {
        let m = self.status.mode % 4;
        if m == HBLANK_MODE {
            if self.status.mode0_interrupt {
                interrupt.set_lcd_stat_trigger(1)
            }
        } else if m == VBLANK_MODE {
            if self.status.mode1_interrupt {
                interrupt.set_lcd_stat_trigger(1)
            }
            interrupt.set_vblank_trigger(1)
        } else if m == OAM_MODE {
            if self.status.mode2_interrupt {
                interrupt.set_lcd_stat_trigger(1)
            }
        }
    }

    /// The byte of video RAM at `i`; zero outside it.
    fn vram_byte(&self, i: usize) -> (r: u8)
        ensures
            r == self.vram_at(i as int),
    {
        if i < 0x2000 {
            self.vram[i]
        } else {
            0
        }
    }

    /// The colour number of one pixel of the tile that starts at `base`.
    fn tile_px(&self, base: usize, x: usize, y: usize) -> (r: u8)
        requires
            base <= 0x2000,
            x < 8,
            y < 16,
        ensures
            r == self.tile_pixel(base as int, x as int, y as int),
            r < 4,
    {
        let low = self.vram_byte(base + 2 * y);
        let high = self.vram_byte(base + 2 * y + 1);
        let n = (7 - x) as u8;
        let h: u8 = if bit_set(high, n) {
            2
        } else {
            0
        };
        let l: u8 = if bit_set(low, n) {
            1
        } else {
            0
        };
        h + l
    }

    /// The colour number of one pixel of a plane of tiles.
    fn plane_px(&self, map: usize, x: usize, y: usize) -> (r: u8)
        requires
            map <= 0x1C00,
            x < 256,
            y < 256,
        ensures
            r == self.plane_index(map as int, x as int, y as int),
            r < 4,
    {
        let tile_number = self.vram_byte(map + (y / 8) * 32 + x / 8);
        self.tile_px(self.control.bg_tile_addr(tile_number), x % 8, y % 8)
    }

    /// The colour number that background and window give to a column of the
    /// current line.
    pub fn bg_pixel(&self, x: usize) -> (r: u8)
        requires
            x < PIXEL_WIDTH,
        ensures
            r == self.bg_index(x as int),
            r < 4,
    {
        if !self.control.flag(0) {
            0
        } else if self.control.flag(5) && self.lcd_y >= self.window_y && x + 7
            >= self.window_x as usize {
            self.plane_px(
                self.control.window_tile_map(),
                x + 7 - self.window_x as usize,
                (self.lcd_y - self.window_y) as usize,
            )
        } else {
            self.plane_px(
                self.control.bg_tile_map(),
                (self.scroll_x as usize + x) % 256,
                (self.scroll_y as usize + self.lcd_y as usize) % 256,
            )
        }
    }

    /// Whether a sprite covers the current line.
    fn sprite_on_line(&self, s: Sprite) -> (r: bool)
        ensures
            r == self.on_line(s),
    {
        let height: usize = if self.control.flag(2) {
            16
        } else {
            8
        };
        let line = self.lcd_y as usize + 16;
        s.y as usize <= line && line < s.y as usize + height
    }

    /// The colour number that a sprite gives to a column of the current line.
    fn sprite_pixel(&self, s: Sprite, x: usize) -> (r: u8)
        requires
            x < PIXEL_WIDTH,
        ensures
            r == self.sprite_index(s, x as int),
            r < 4,
    {
        if self.sprite_on_line(s) && s.x as usize <= x + 8 && x < s.x as usize {
            let base: usize = if self.control.flag(2) {
                (s.tile as usize / 2) * 32
            } else {
                s.tile as usize * 16
            };
            self.tile_px(base, x + 8 - s.x as usize, self.lcd_y as usize + 16 - s.y as usize)
        } else {
            0
        }
    }

    /// The shade of one column of the current line.
    pub fn pixel(&self, x: usize) -> (r: u8)
        requires
            x < PIXEL_WIDTH,
        ensures
            r == self.pixel_spec(x as int),
    {
        let bg = self.bg_pixel(x);
        let mut shade = self.bg_palette.get_color(bg);
        if self.control.flag(1) {
            let n: usize = if self.sprite_count <= SPRITE_COUNT {
                self.sprite_count
            } else {
                SPRITE_COUNT
            };
            let mut i: usize = 0;
            let mut found = false;
            while i < n && !found
                invariant
                    i <= n <= SPRITE_COUNT,
                    n == self.sprite_list().len(),
                    x < PIXEL_WIDTH,
                    bg == self.bg_index(x as int),
                    !found ==> shade == self.bg_palette.get_color_spec(bg) && self.painted(
                        x as int,
                        0,
                    ) == self.painted(x as int, i as int),
                    found ==> shade == self.painted(x as int, 0),
                decreases n - i + if found { 0int } else { 1int },
            {
                let s = self.sprites[i];
                let c = self.sprite_pixel(s, x);
                if c != 0 && !(s.flags >= 128 && bg != 0) {
                    shade = if bit_set(s.flags, 4) {
                        self.obj1_palette.get_color(c)
                    } else {
                        self.obj0_palette.get_color(c)
                    };
                    found = true;
                } else {
                    i += 1;
                }
            }
        }
        shade
    }

    /// Renders the current line: the shade of each of its 160 columns.
    pub fn render_line(&self) -> (line: [u8; 160])
        ensures
            forall|x: int| 0 <= x < PIXEL_WIDTH ==> line[x] == self.pixel_spec(x),
    {
        let mut line = [0u8; 160];
        let mut x: usize = 0;
        while x < PIXEL_WIDTH
            invariant
                x <= PIXEL_WIDTH,
                forall|i: int| 0 <= i < x ==> line[i] == self.pixel_spec(i),
            decreases PIXEL_WIDTH - x,
        {
            line[x] = self.pixel(x);
            x += 1;
        }
        line
    }

    /// Scans the sprite table for the sprites on the current line.
    pub fn scan(&mut self)
        ensures
            *final(self) == old(self).rescanned(),
            final(self).sprite_count <= SPRITE_COUNT,
            final(self).sprite_list() == old(self).scanned(SPRITE_COUNT as nat),
    {
        let mut list = [Sprite { tile: 0, x: 0, y: 0, flags: 0 }; 40];
        let mut count: usize = 0;
        let mut i: usize = 0;
        proof {
            assert(list =~= packed(self.scanned(0), 0));
        }
        while i < SPRITE_COUNT
            invariant
                i <= SPRITE_COUNT,
                count <= i,
                count == self.scanned(i as nat).len(),
                list == packed(self.scanned(i as nat), count as nat),
            decreases SPRITE_COUNT - i,
        {
            let s = Sprite::new(
                self.oam[4 * i + 2],
                self.oam[4 * i + 1],
                self.oam[4 * i],
                self.oam[4 * i + 3],
            );
            if self.sprite_on_line(s) {
                insert_sprite(&mut list, count, s, Ghost(self.scanned(i as nat)));
                proof {
                    lemma_inserted_len(self.scanned(i as nat), s);
                }
                count += 1;
            }
            i += 1;
        }
        self.sprites = list;
        self.sprite_count = count;
        proof {
            let l = old(self).scanned(SPRITE_COUNT as nat);
            lemma_packed(l, count as nat);
            assert(self.sprite_list() =~= l) by {
                assert forall|k: int| 0 <= k < count implies self.sprites@[k] == l[k] by {
                    lemma_packed_index(l, count as nat, k);
                }
            }
        }
    }

    /// Advances the unit by one machine cycle. Says what the display is to do: to
    /// draw the line that was rendered, to show the frame that is complete, or
    /// nothing.
    pub fn step(&mut self, interrupt: &mut Interrupt, dma: &mut Dma) -> (event: PpuEvent)
        ensures
            *final(self) == old(self).step_spec(),
            *final(interrupt) == old(self).lcd_interrupts(*old(interrupt)),
            *final(dma) == old(self).dma_step(*old(dma)),
            old(self).draws() ==> (event matches PpuEvent::Line(y, line) && y == old(self).lcd_y
                && forall|x: int| 0 <= x < PIXEL_WIDTH ==> line[x] == old(self).pixel_spec(x)),
            old(self).presents() ==> event == PpuEvent::Frame,
            !old(self).draws() && !old(self).presents() ==> event == PpuEvent::Idle,
    {
        let mut event = PpuEvent::Idle;
        if self.control.flag(7) {
            let m = self.status.mode % 4;
            let ends = self.mode_cycle as usize + 1 >= (if m == 0 {
                MODE0_CYCLES
            } else if m == 1 {
                MODE1_CYCLES
            } else if m == 2 {
                MODE2_CYCLES
            } else {
                MODE3_CYCLES
            }) as usize;
            if m == HBLANK_MODE {
                if ends {
                    self.lcd_y = self.lcd_y.wrapping_add(1);
                    self.mode_cycle = 0;
                    self.status.mode = if self.lcd_y >= VISIBLE_COUNT {
                        VBLANK_MODE
                    } else {
                        OAM_MODE
                    };
                    self.update_ly_interrupt(interrupt);
                    self.update_mode_interrupt(interrupt);
                } else {
                    self.mode_cycle += 1;
                }
            } else if m == VBLANK_MODE {
                if ends {
                    self.mode_cycle = 0;
                    if self.lcd_y as usize + 1 >= LINE_COUNT as usize {
                        self.lcd_y = 0;
                        self.frame = self.frame.wrapping_add(1);
                        self.status.mode = OAM_MODE;
                        self.update_ly_interrupt(interrupt);
                        self.update_mode_interrupt(interrupt);
                        event = PpuEvent::Frame;
                    } else {
                        self.lcd_y += 1;
                        self.update_ly_interrupt(interrupt);
                    }
                } else {
                    self.mode_cycle += 1;
                }
            } else if m == OAM_MODE {
                if self.mode_cycle == 0 {
                    self.scan();
                }
                if ends {
                    self.mode_cycle = 0;
                    self.status.mode = RENDER_MODE;
                    self.update_mode_interrupt(interrupt);
                } else {
                    self.mode_cycle += 1;
                }
            } else {
                if self.mode_cycle == 0 {
                    event = PpuEvent::Line(self.lcd_y, self.render_line());
                    self.mode_cycle = 1;
                } else if ends {
                    self.mode_cycle = 0;
                    self.status.mode = HBLANK_MODE;
                    self.update_mode_interrupt(interrupt);
                } else {
                    self.mode_cycle += 1;
                }
            }
        }
        if self.dma.enabled {
            *dma = self.dma;
        } else if dma.enabled {
            dma.source = dma.source.wrapping_add(4);
            dma.dest = dma.dest.wrapping_add(4);
            if dma.dest > OAM_END {
                dma.enabled = false;
            }
        }
        self.dma = Dma::new();
        event
    }
}

/// Reads a palette register.
fn read_palette(p: &Palette) -> (r: u8)
    ensures
        r == Ppu::palette_byte(*p),
{
    (p.color3() % 4) * 64 + (p.color2() % 4) * 16 + (p.color1() % 4) * 4 + p.color0() % 4
}

/// Writes a palette register.
fn write_palette(p: &mut Palette, val: u8)
    ensures
        *final(p) == Ppu::palette_of(val),
{
    p.set_color3(val / 64);
    p.set_color2((val / 16) % 4);
    p.set_color1((val / 4) % 4);
    p.set_color0(val % 4);
}

/// Puts `s` into the first `count` slots of `list`, which are in rising order of
/// `x`, behind every sprite whose `x` is not larger.
fn insert_sprite(list: &mut [Sprite; 40], count: usize, s: Sprite, Ghost(l): Ghost<Seq<Sprite>>)
    requires
        count < SPRITE_COUNT,
        l.len() == count,
        *old(list) == packed(l, count as nat),
    ensures
        *final(list) == packed(inserted(l, s), (count + 1) as nat),
{
    proof {
        lemma_packed(l, count as nat);
    }
    let mut j: usize = count;
    while j > 0 && list[j - 1].x > s.x
        invariant
            j <= count < SPRITE_COUNT,
            l.len() == count,
            forall|k: int| 0 <= k < j ==> list[k] == l[k],
            forall|k: int| j < k <= count ==> list[k] == l[k - 1],
            forall|k: int| j <= k < count ==> l[k].x > s.x,
            forall|k: int| count < k < SPRITE_COUNT ==> list[k] == Sprite::empty(),
        decreases j,
    {
        list[j] = list[j - 1];
        j -= 1;
    }
    list[j] = s;
    proof {
        lemma_inserted(l, s, j as int);
        lemma_inserted_len(l, s);
        let r = inserted(l, s);
        lemma_packed(r, (count + 1) as nat);
        assert(*list =~= packed(r, (count + 1) as nat)) by {
            assert forall|k: int| 0 <= k < SPRITE_COUNT implies list[k] == packed(
                r,
                (count + 1) as nat,
            )[k] by {
                lemma_packed_index(r, (count + 1) as nat, k);
            }
        }
    }
}

/// Putting a sprite into a list makes it one longer.
pub proof fn lemma_inserted_len(l: Seq<Sprite>, s: Sprite)
    ensures
        inserted(l, s).len() == l.len() + 1,
    decreases l.len(),
{
    if l.len() > 0 && l.last().x > s.x {
        lemma_inserted_len(l.drop_last(), s);
    }
}

/// Where `inserted` puts a sprite: at `j`, if every sprite from `j` on has a
/// larger `x` and the one before `j` has none.
proof fn lemma_inserted(l: Seq<Sprite>, s: Sprite, j: int)
    requires
        0 <= j <= l.len(),
        forall|k: int| j <= k < l.len() ==> l[k].x > s.x,
        j > 0 ==> l[j - 1].x <= s.x,
    ensures
        inserted(l, s) =~= l.take(j).push(s) + l.skip(j),
    decreases l.len() - j,
{
    if l.len() > j {
        lemma_inserted(l.drop_last(), s, j);
        lemma_inserted_len(l.drop_last(), s);
    }
}

/// Putting a sprite into a list in rising order of `x` keeps the order.
pub proof fn lemma_inserted_ordered(l: Seq<Sprite>, s: Sprite)
    requires
        ordered(l),
    ensures
        ordered(inserted(l, s)),
    decreases l.len(),
{
    if l.len() > 0 && l.last().x > s.x {
        let front = l.drop_last();
        lemma_inserted_ordered(front, s);
        lemma_inserted_len(front, s);
        lemma_inserted_bound(front, s, l.last().x);
    }
}

/// No sprite of `inserted(l, s)` has a larger `x` than `bound`, if neither `s` nor
/// a sprite of `l` has.
proof fn lemma_inserted_bound(l: Seq<Sprite>, s: Sprite, bound: u8)
    requires
        s.x <= bound,
        forall|k: int| 0 <= k < l.len() ==> l[k].x <= bound,
    ensures
        forall|k: int| 0 <= k < inserted(l, s).len() ==> inserted(l, s)[k].x <= bound,
    decreases l.len(),
{
    if l.len() > 0 && l.last().x > s.x {
        lemma_inserted_bound(l.drop_last(), s, bound);
        lemma_inserted_len(l.drop_last(), s);
    }
}

/// What the slots of `packed` hold.
proof fn lemma_packed_index(l: Seq<Sprite>, n: nat, k: int)
    requires
        n <= SPRITE_COUNT,
        0 <= k < SPRITE_COUNT,
    ensures
        packed(l, n)[k] == if k < n {
            l[k]
        } else {
            Sprite::empty()
        },
    decreases n,
{
    if n > 0 {
        lemma_packed_index(l, (n - 1) as nat, k);
    }
}

/// `packed` holds the list in its first slots and no sprite in the others.
proof fn lemma_packed(l: Seq<Sprite>, n: nat)
    requires
        n <= SPRITE_COUNT,
    ensures
        forall|k: int| 0 <= k < n ==> packed(l, n)[k] == l[k],
        forall|k: int| n <= k < SPRITE_COUNT ==> packed(l, n)[k] == Sprite::empty(),
{
    assert forall|k: int| 0 <= k < SPRITE_COUNT implies packed(l, n)[k] == if k < n {
        l[k]
    } else {
        Sprite::empty()
    } by {
        lemma_packed_index(l, n, k);
    }
}

/// While a line is rendered the CPU reads 0xFF from video RAM and from the sprite
/// table, and while the table is scanned it reads 0xFF from the table; a write to
/// a memory that is closed is dropped. A memory that is open reads back what was
/// written.
pub proof fn lemma_closed_memories(ppu: Ppu, a: u16, v: u8)
    ensures
        0x8000 <= a <= 0x9FFF && ppu.status.mode % 4 == RENDER_MODE ==> ppu.read_spec(a) == 0xFF
            && ppu.write_spec(a, v) == ppu,
        0xFE00 <= a <= 0xFE9F && ppu.status.mode % 4 >= OAM_MODE ==> ppu.read_spec(a) == 0xFF
            && ppu.write_spec(a, v) == ppu,
        0x8000 <= a <= 0x9FFF && ppu.status.mode % 4 != RENDER_MODE ==> ppu.write_spec(
            a,
            v,
        ).read_spec(a) == v,
        0xFE00 <= a <= 0xFE9F && ppu.status.mode % 4 < OAM_MODE ==> ppu.write_spec(a, v).read_spec(
            a,
        ) == v,
{
}

impl Ppu {
    /// Whether mode, line and cycle fit together: the vertical blank has the
    /// lines from 144 to 153, the other modes have the lines before, and no mode
    /// has lasted longer than it lasts.
    pub open spec fn coherent(&self) -> bool {
        &&& self.status.mode < 4
        &&& self.mode_cycle < self.mode_length()
        &&& if self.status.mode == VBLANK_MODE {
            VISIBLE_COUNT <= self.lcd_y < LINE_COUNT
        } else {
            self.lcd_y < VISIBLE_COUNT
        }
    }
}

/// The modes follow each other in a circle: scan, rendering, blank, and scan
/// again on the next line. The blank of line 143 leads into the vertical blank,
/// which lasts for the lines 144 to 153 and leads into the scan of line 0. Each
/// mode lasts its number of cycles.
pub proof fn lemma_mode_circle(ppu: Ppu)
    requires
        ppu.control.enabled(),
        ppu.coherent(),
    ensures
        ppu.lcd_step().coherent(),
        !ppu.mode_ends() ==> ppu.lcd_step().status.mode == ppu.status.mode && ppu.lcd_step().lcd_y
            == ppu.lcd_y && ppu.lcd_step().mode_cycle == ppu.mode_cycle + 1,
        ppu.mode_ends() ==> ppu.lcd_step().mode_cycle == 0,
        ppu.mode_ends() && ppu.status.mode == OAM_MODE ==> ppu.lcd_step().status.mode
            == RENDER_MODE && ppu.lcd_step().lcd_y == ppu.lcd_y,
        ppu.mode_ends() && ppu.status.mode == RENDER_MODE ==> ppu.lcd_step().status.mode
            == HBLANK_MODE && ppu.lcd_step().lcd_y == ppu.lcd_y,
        ppu.mode_ends() && ppu.status.mode == HBLANK_MODE ==> ppu.lcd_step().lcd_y == ppu.lcd_y + 1
            && ppu.lcd_step().status.mode == if ppu.lcd_y == VISIBLE_COUNT - 1 {
            VBLANK_MODE
        } else {
            OAM_MODE
        },
        ppu.mode_ends() && ppu.status.mode == VBLANK_MODE ==> if ppu.lcd_y == LINE_COUNT - 1 {
            ppu.lcd_step().lcd_y == 0 && ppu.lcd_step().status.mode == OAM_MODE
        } else {
            ppu.lcd_step().lcd_y == ppu.lcd_y + 1 && ppu.lcd_step().status.mode == VBLANK_MODE
        },
{
}

impl Ppu {
    /// A scan finds at most one sprite for each entry it has read, and leaves them
    /// in rising order of `x`.
    pub proof fn lemma_scanned(&self, n: nat)
        ensures
            self.scanned(n).len() <= n,
            ordered(self.scanned(n)),
        decreases n,
    {
        if n > 0 {
            self.lemma_scanned((n - 1) as nat);
            if self.on_line(self.entry(n - 1)) {
                lemma_inserted_len(self.scanned((n - 1) as nat), self.entry(n - 1));
                lemma_inserted_ordered(self.scanned((n - 1) as nat), self.entry(n - 1));
            }
        }
    }
}

} // verus!
