use vstd::prelude::*;

verus! {

/// Possible rotations of the buffer before it is sent to the matrix.
///
/// A rotation changes only the order in which the buffer is read out at
/// serialization time; it never moves the stored pixels, so `set_pixel` and
/// `get_pixel` always speak of unrotated coordinates.
#[derive(Clone, Copy, PartialEq, Eq, Structural, Debug)]
pub enum Rotate {
    /// Default rotation: row-major, top-left to bottom-right.
    RotNone,
    /// Rotate the output by 90 degrees clockwise.
    RotCW90,
    /// Rotate the output by 90 degrees counter-clockwise.
    RotCCW90,
    /// Rotate the output by 180 degrees.
    Rot180,
}

impl Rotate {
    /// The buffer cell (in row-major order, `y * 16 + x`) that feeds
    /// serialized pixel slot `i` under this rotation.
    ///
    /// - `RotNone`: slot `i` reads cell `i`.
    /// - `RotCW90`: slots walk each column `x` top to bottom while the rows
    ///   are taken bottom row first, so slot `i` reads `(x, y)` with
    ///   `x == i / 16` and `y == 15 - i % 16`.
    /// - `RotCCW90`: the columns are taken right to left and each is walked
    ///   top to bottom, so slot `i` reads `(x, y)` with `x == 15 - i / 16`
    ///   and `y == i % 16`.
    /// - `Rot180`: slot `i` reads cell `255 - i`.
    pub open spec fn source_index(self, i: int) -> int {
        match self {
            Rotate::RotNone => i,
            Rotate::RotCW90 => (15 - i % 16) * 16 + i / 16,
            Rotate::RotCCW90 => (i % 16) * 16 + (15 - i / 16),
            Rotate::Rot180 => 255 - i,
        }
    }
}

} // verus!
