use vstd::prelude::*;

use crate::pixel::black;
use crate::pixel::Pixel;

verus! {

/// The in-memory image of the matrix: exactly 256 pixels, conceptually a
/// 16 x 16 grid stored row-major, so coordinate `(x, y)` lives at linear
/// index `y * 16 + x`.  A buffer starts fully black and is only ever
/// overwritten, never resized.
pub struct PixelBuffer {
    cells: Vec<Pixel>,
}

impl View for PixelBuffer {
    type V = Seq<Pixel>;

    closed spec fn view(&self) -> Seq<Pixel> {
        self.cells@
    }
}

/// A buffer of exactly 256 cells, all black.
fn black_cells() -> (v: Vec<Pixel>)
    ensures
        v@.len() == 256,
        forall|i: int| 0 <= i < 256 ==> v@[i] == black(),
{
    let mut v: Vec<Pixel> = Vec::new();
    let mut i: usize = 0;
    while i < 256
        invariant
            i <= 256,
            v@.len() == i,
            forall|j: int| 0 <= j < i ==> v@[j] == black(),
        decreases 256 - i,
    {
        v.push(Pixel::black());
        i += 1;
    }
    v
}

impl PixelBuffer {
    /// Well-formed: the buffer holds one pixel per cell of the grid.
    pub open spec fn wf(&self) -> bool {
        self@.len() == 256
    }

    /// The pixel stored at `(x, y)`.
    pub open spec fn pixel_at(&self, x: int, y: int) -> Pixel {
        self@[y * 16 + x]
    }

    /// A fresh buffer: every cell black.
    pub fn new() -> (buf: PixelBuffer)
        ensures
            buf.wf(),
            forall|i: int| 0 <= i < 256 ==> buf@[i] == black(),
    {
        PixelBuffer { cells: black_cells() }
    }

    /// Overwrite the pixel at `(x, y)`.  The origin `(0, 0)` is the top-left
    /// of the grid, with `x` and `y` increasing to the right and down.
    pub fn set(&mut self, x: usize, y: usize, c: Pixel)
        requires
            old(self).wf(),
            x < 16,
            y < 16,
        ensures
            final(self).wf(),
            final(self)@ == old(self)@.update(y * 16 + x, c),
    {
        self.cells[y * 16 + x] = c;
    }

    /// Read the pixel at `(x, y)` out of the buffer.  This is a buffer read,
    /// not a hardware readback.
    pub fn get(&self, x: usize, y: usize) -> (c: Pixel)
        requires
            self.wf(),
            x < 16,
            y < 16,
        ensures
            c == self.pixel_at(x as int, y as int),
    {
        self.cells[y * 16 + x]
    }

    /// Reset every cell to black.
    pub fn clear(&mut self)
        ensures
            final(self).wf(),
            forall|i: int| 0 <= i < 256 ==> final(self)@[i] == black(),
            forall|x: int, y: int|
                0 <= x < 16 && 0 <= y < 16 ==> final(self).pixel_at(x, y) == black(),
    {
        self.cells = black_cells();
    }
}

/// Law: writing pixel `(x, y)` makes exactly that cell read back the new
/// value, and every other coordinate keeps its old value.
pub proof fn lemma_set_then_get(cells: Seq<Pixel>, x: int, y: int, p: Pixel, x2: int, y2: int)
    requires
        cells.len() == 256,
        0 <= x < 16,
        0 <= y < 16,
        0 <= x2 < 16,
        0 <= y2 < 16,
    ensures
        cells.update(y * 16 + x, p)[y * 16 + x] == p,
        x2 != x || y2 != y ==> cells.update(y * 16 + x, p)[y2 * 16 + x2] == cells[y2 * 16 + x2],
{
    if x2 != x || y2 != y {
        assert(y2 * 16 + x2 != y * 16 + x);
    }
}

} // verus!
