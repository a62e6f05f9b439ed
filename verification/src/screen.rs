//! The fixed-size monochrome framebuffer. Every mutation goes through
//! XOR composition with coordinate wraparound; this is what gives sprite
//! drawing its double-draw-to-erase property.

use vstd::prelude::*;

use crate::constants::{SCREEN_HEIGHT, SCREEN_WIDTH};
use crate::pixel::Pixel;

verus! {

/// Whether an XOR composition turned a previously-`On` pixel `Off`.
/// This is the only definition of "collision" in this machine.
#[derive(Debug, Clone, Copy, PartialEq, Eq, Structural)]
pub enum XorPixelErased {
    Yes,
    No,
}

/// The pixel grid ([`SCREEN_WIDTH`] × [`SCREEN_HEIGHT`]) plus a dirty
/// flag the host can use to skip redundant redraws.
pub struct Screen {
    pub framebuffer: Vec<Vec<Pixel>>,
    pub content_updated: bool,
}

/// An all-`Off` pixel grid.
pub open spec fn spec_blank_screen() -> Seq<Seq<Pixel>> {
    Seq::new(SCREEN_HEIGHT as nat, |y: int| Seq::new(SCREEN_WIDTH as nat, |x: int| Pixel::Off))
}

impl View for Screen {
    type V = Seq<Seq<Pixel>>;

    open spec fn view(&self) -> Seq<Seq<Pixel>> {
        self.framebuffer@.map_values(|row: Vec<Pixel>| row@)
    }
}

/// The grid has exactly [`SCREEN_HEIGHT`] rows of [`SCREEN_WIDTH`]
/// pixels each.
pub open spec fn screen_grid_wf(grid: Seq<Seq<Pixel>>) -> bool {
    &&& grid.len() == SCREEN_HEIGHT
    &&& forall|y: int| 0 <= y < SCREEN_HEIGHT ==> (#[trigger] grid[y]).len() == SCREEN_WIDTH
}

/// A freshly-built all-`Off` pixel grid.
fn blank_framebuffer() -> (fb: Vec<Vec<Pixel>>)
    ensures
        fb@.map_values(|row: Vec<Pixel>| row@) == spec_blank_screen(),
{
    let mut fb: Vec<Vec<Pixel>> = Vec::new();
    let mut y: usize = 0;
    while y < SCREEN_HEIGHT
        invariant
            y <= SCREEN_HEIGHT,
            fb@.len() == y,
            forall|i: int|
                0 <= i < y ==> (#[trigger] fb@[i])@ == Seq::new(
                    SCREEN_WIDTH as nat,
                    |x: int| Pixel::Off,
                ),
        decreases SCREEN_HEIGHT - y,
    {
        let row: Vec<Pixel> = vec![Pixel::Off; SCREEN_WIDTH];
        proof {
            assert(row@ =~= Seq::new(SCREEN_WIDTH as nat, |x: int| Pixel::Off));
        }
        fb.push(row);
        y += 1;
    }
    proof {
        assert(fb@.map_values(|row: Vec<Pixel>| row@) =~= spec_blank_screen());
    }
    fb
}

impl Screen {
    /// The grid has its fixed dimensions.
    pub open spec fn wf(&self) -> bool {
        screen_grid_wf(self@)
    }

    /// A fresh screen: every pixel `Off`, dirty flag clear.
    pub fn new() -> (r: Screen)
        ensures
            r.wf(),
            r@ == spec_blank_screen(),
            !r.content_updated,
    {
        Screen { framebuffer: blank_framebuffer(), content_updated: false }
    }

    /// Reset every pixel to `Off`. The dirty flag is left as it is.
    pub fn clear(&mut self)
        ensures
            final (self).wf(),
            final (self)@ == spec_blank_screen(),
            final (self).content_updated == old(self).content_updated,
    {
        self.framebuffer = blank_framebuffer();
    }

    /// XOR-compose `pixel` onto the grid at `(x, y)`, both coordinates
    /// wrapped modulo the grid dimensions. Reports whether a
    /// previously-`On` pixel was turned `Off`, and always sets the dirty
    /// flag.
    pub fn xor_pixel_wrapped_position(&mut self, x: usize, y: usize, pixel: Pixel) -> (r:
        XorPixelErased)
        requires
            old(self).wf(),
        ensures
            final (self).wf(),
            final (self)@ == old(self)@.update(
                y as int % (SCREEN_HEIGHT as int),
                old(self)@[y as int % (SCREEN_HEIGHT as int)].update(
                    x as int % (SCREEN_WIDTH as int),
                    old(self)@[y as int % (SCREEN_HEIGHT as int)][x as int % (
                    SCREEN_WIDTH as int)].spec_xor(pixel),
                ),
            ),
            final (self).content_updated,
            r == XorPixelErased::Yes <==> {
                let old_value = old(self)@[y as int % (SCREEN_HEIGHT as int)][x as int % (
                SCREEN_WIDTH as int)];
                old_value == Pixel::On && old_value.spec_xor(pixel) == Pixel::Off
            },
    {
        let yi = y % SCREEN_HEIGHT;
        let xi = x % SCREEN_WIDTH;
        let old_value = self.framebuffer[yi][xi];
        let new_value = old_value.bitxor(pixel);
        let row = &mut self.framebuffer[yi];
        row[xi] = new_value;
        self.content_updated = true;
        proof {
            assert(self@ =~= old(self)@.update(
                yi as int,
                old(self)@[yi as int].update(xi as int, old(self)@[yi as int][xi as int].spec_xor(pixel)),
            ));
        }
        match (old_value, new_value) {
            (Pixel::On, Pixel::Off) => XorPixelErased::Yes,
            _ => XorPixelErased::No,
        }
    }

    /// Whether any compose has happened since the flag was last reset.
    pub fn has_content_updated(&self) -> (r: bool)
        ensures
            r == self.content_updated,
    {
        self.content_updated
    }

    /// Clear the dirty flag.
    pub fn reset_content_updated(&mut self)
        ensures
            final (self)@ == old(self)@,
            !final (self).content_updated,
    {
        self.content_updated = false;
    }

    /// Read-only view of the pixel grid, for rendering.
    pub fn framebuffer(&self) -> (r: &Vec<Vec<Pixel>>)
        ensures
            r@.map_values(|row: Vec<Pixel>| row@) == self@,
    {
        &self.framebuffer
    }
}

} // verus!
