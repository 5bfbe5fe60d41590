//! A display that shows nothing.

use crate::peripherals::ppu::display::{Color, Display};
use vstd::prelude::*;

verus! {

/// A display that drops every pixel.
pub struct FakeDisplay {}

impl FakeDisplay {
    pub fn new() -> Self {
        Self {  }
    }
}

impl Display for FakeDisplay {
    fn clear(&mut self, _color: Color) {
    }

    fn draw_pixel(&mut self, _x: usize, _y: usize, _color: Color) -> Result<(), String> {
        Ok(())
    }

    fn show(&mut self) {
    }
}

} // verus!
