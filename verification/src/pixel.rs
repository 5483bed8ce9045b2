use vstd::prelude::*;

verus! {

/// One cell of the matrix: red, green and blue intensity channels, each in
/// the full `0..=255` range.
#[derive(Clone, Copy, PartialEq, Eq, Structural, Debug)]
pub struct Pixel {
    pub r: u8,
    pub g: u8,
    pub b: u8,
}

/// The cleared state of a cell: every channel off.
pub open spec fn black() -> Pixel {
    Pixel { r: 0, g: 0, b: 0 }
}

impl Pixel {
    /// Channel `c` of this pixel: red for 0, green for 1, blue for 2.
    pub open spec fn channel(self, c: int) -> u8 {
        if c == 0 {
            self.r
        } else if c == 1 {
            self.g
        } else {
            self.b
        }
    }

    /// Build a pixel from its three channels.
    pub fn new(r: u8, g: u8, b: u8) -> (p: Pixel)
        ensures
            p == (Pixel { r, g, b }),
    {
        Pixel { r, g, b }
    }

    /// The all-off pixel, the value every cell holds after a clear.
    pub fn black() -> (p: Pixel)
        ensures
            p == black(),
    {
        Pixel { r: 0, g: 0, b: 0 }
    }
}

} // verus!
