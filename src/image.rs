//! A 5×5 monochrome image, one bit per pixel.
use vstd::prelude::*;

verus! {

/// Number of pixel columns of the display grid and of each glyph.
pub const IMAGE_COLS: usize = 5;

/// Number of pixel rows of the display grid and of each glyph.
pub const IMAGE_ROWS: usize = 5;

/// Brightness of a lit pixel: the top of the display driver's 0..=9 scale.
pub const MAX_BRIGHTNESS: u8 = 9;

/// A 5×5 image with one bit per pixel.
///
/// Each entry of `rows` is one row, top row first; within a row, bit 4 is the
/// leftmost column and bit 0 the rightmost.
#[derive(Clone, Copy, Debug)]
pub struct BitImage {
    pub rows: [u8; 5],
}

impl BitImage {
    /// Whether the pixel at column `x`, row `y` is lit; pixels off the grid are not.
    pub open spec fn lit(self, x: int, y: int) -> bool {
        &&& 0 <= x < IMAGE_COLS
        &&& 0 <= y < IMAGE_ROWS
        &&& (self.rows[y] >> ((4 - x) as u8)) & 1u8 == 1u8
    }

    /// The brightness shown for the pixel at column `x`, row `y`.
    pub open spec fn pixel_brightness(self, x: int, y: int) -> u8 {
        if self.lit(x, y) {
            MAX_BRIGHTNESS
        } else {
            0
        }
    }

    /// Builds an image from its five rows, top row first.
    pub fn new(rows: [u8; 5]) -> (r: BitImage)
        ensures
            r.rows == rows,
    {
        BitImage { rows }
    }

    /// The brightness of the pixel at column `x`, row `y`: `MAX_BRIGHTNESS`
    /// where it is lit, 0 where it is not or lies off the grid.
    pub fn brightness_at(&self, x: usize, y: usize) -> (r: u8)
        ensures
            r == self.pixel_brightness(x as int, y as int),
    {
        if x < IMAGE_COLS && y < IMAGE_ROWS {
            let shift: u8 = (4 - x) as u8;
            if (self.rows[y] >> shift) & 1u8 == 1u8 {
                MAX_BRIGHTNESS
            } else {
                0
            }
        } else {
            0
        }
    }
}

impl tiny_led_matrix::Render for BitImage {
    fn brightness_at(&self, x: usize, y: usize) -> (r: u8)
        ensures
            r == self.pixel_brightness(x as int, y as int),
    {
        BitImage::brightness_at(self, x, y)
    }
}

} // verus!
