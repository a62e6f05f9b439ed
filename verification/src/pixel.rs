//! A two-valued monochrome pixel and the XOR composition that all screen
//! mutation goes through.

use vstd::prelude::*;

verus! {

/// One monochrome pixel of the framebuffer.
#[derive(Debug, Clone, Copy, PartialEq, Eq, Structural)]
pub enum Pixel {
    On,
    Off,
}

impl Pixel {
    /// Logical XOR of two pixels: unequal values give `On`, equal values
    /// give `Off`.
    pub open spec fn spec_xor(self, rhs: Pixel) -> Pixel {
        match (self, rhs) {
            (Pixel::On, Pixel::Off) => Pixel::On,
            (Pixel::Off, Pixel::On) => Pixel::On,
            _ => Pixel::Off,
        }
    }

    /// XOR-compose two pixels.
    pub fn bitxor(self, rhs: Pixel) -> (r: Pixel)
        ensures
            r == self.spec_xor(rhs),
    {
        match (self, rhs) {
            (Pixel::On, Pixel::Off) => Pixel::On,
            (Pixel::Off, Pixel::On) => Pixel::On,
            _ => Pixel::Off,
        }
    }

    /// `On` for `true`, `Off` for `false`.
    pub open spec fn spec_from_bool(value: bool) -> Pixel {
        if value {
            Pixel::On
        } else {
            Pixel::Off
        }
    }

    /// Convert a bit into a pixel.
    pub fn from_bool(value: bool) -> (r: Pixel)
        ensures
            r == Pixel::spec_from_bool(value),
    {
        if value {
            Pixel::On
        } else {
            Pixel::Off
        }
    }
}

} // verus!
