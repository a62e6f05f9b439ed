//! A sprite: consecutive memory bytes interpreted as a rectangular
//! monochrome bitmap, each byte one row of 8 pixels, most significant
//! bit leftmost.

use vstd::prelude::*;

use crate::pixel::Pixel;

verus! {

/// Whether the pixel at row `row`, column `col` of the sprite encoded by
/// `bytes` is on: bit `col` (counted from the most significant end) of
/// byte `row`.
pub open spec fn spec_sprite_bit(bytes: Seq<u8>, row: int, col: int) -> bool
    recommends
        0 <= row < bytes.len(),
        0 <= col < 8,
{
    (bytes[row] >> ((7 - col) as u8)) & 1 == 1
}

/// A bounded, read-only grid of pixels.
pub trait PixelView {
    /// The view's internal consistency.
    spec fn view_wf(&self) -> bool;

    /// Width of the grid in pixels.
    spec fn spec_width(&self) -> int;

    /// Height of the grid in pixels.
    spec fn spec_height(&self) -> int;

    /// The pixel at column `x`, row `y`.
    spec fn spec_pixel(&self, x: int, y: int) -> Pixel;

    /// Width of the grid in pixels.
    fn width(&self) -> (r: usize)
        requires
            self.view_wf(),
        ensures
            r as int == self.spec_width(),
    ;

    /// Height of the grid in pixels.
    fn height(&self) -> (r: usize)
        requires
            self.view_wf(),
        ensures
            r as int == self.spec_height(),
    ;

    /// The pixel at column `x`, row `y`; the caller keeps the
    /// coordinates in bounds.
    fn get_pixel_unchecked(&self, x: usize, y: usize) -> (r: Pixel)
        requires
            self.view_wf(),
            x < self.spec_width(),
            y < self.spec_height(),
        ensures
            r == self.spec_pixel(x as int, y as int),
    ;
}

/// A pixel view of sprite bytes: `height` rows of `width` (= 8)
/// columns, one byte per row.
pub struct SpriteView {
    pub data: Vec<u8>,
    pub width: usize,
    pub height: usize,
}

impl SpriteView {
    /// One byte per row, each row 8 pixels wide.
    pub open spec fn wf(&self) -> bool {
        self.width == 8 && self.data@.len() == self.height
    }

    /// Wrap sprite bytes as a pixel view.
    pub fn new_from_bytes(data: Vec<u8>) -> (r: SpriteView)
        ensures
            r.wf(),
            r.data@ == data@,
            r.height == data@.len(),
    {
        let height = data.len();
        SpriteView { data, width: 8, height }
    }
}

impl PixelView for SpriteView {
    open spec fn view_wf(&self) -> bool {
        self.wf()
    }

    open spec fn spec_width(&self) -> int {
        self.width as int
    }

    open spec fn spec_height(&self) -> int {
        self.height as int
    }

    open spec fn spec_pixel(&self, x: int, y: int) -> Pixel {
        Pixel::spec_from_bool(spec_sprite_bit(self.data@, y, x))
    }

    fn width(&self) -> (r: usize) {
        self.width
    }

    fn height(&self) -> (r: usize) {
        self.height
    }

    fn get_pixel_unchecked(&self, x: usize, y: usize) -> (r: Pixel) {
        let shift: u8 = (7 - x) as u8;
        let bit = (self.data[y] >> shift) & 1;
        Pixel::from_bool(bit == 1)
    }
}

} // verus!
