//! What a display has to offer.

use vstd::prelude::*;

verus! {

/// A colour of a pixel.
#[derive(Debug, Copy, Clone, PartialEq, Eq, Structural)]
pub enum Color {
    Black,
    RGB(u8, u8, u8),
}

/// A display of 160 by 144 pixels. Nothing is promised of what it does with
/// them.
pub trait Display {
    /// Fills the display with one colour.
    fn clear(&mut self, color: Color);

    /// Colours the pixel in column `x` of row `y`.
    fn draw_pixel(&mut self, x: usize, y: usize, color: Color) -> Result<(), String>
        requires
            x < 160,
            y < 144,
    ;

    /// Shows what has been drawn.
    fn show(&mut self);
}

} // verus!
