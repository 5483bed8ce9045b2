use vstd::arithmetic::div_mod::lemma_fundamental_div_mod;
use vstd::arithmetic::div_mod::lemma_fundamental_div_mod_converse;
use vstd::arithmetic::div_mod::lemma_mod_bound;
use vstd::prelude::*;

use crate::buffer::PixelBuffer;
use crate::pixel::Pixel;
use crate::rotate::Rotate;

verus! {

/// The wire image of buffer `leds` under rotation `rot`: 768 bytes, three
/// channel bytes per pixel in R, G, B order, with the pixels taken in the
/// rotation's read-out order.  Byte `j` belongs to serialized pixel slot
/// `j / 3` and is channel `j % 3` of the cell that feeds that slot.
pub open spec fn serialized(leds: Seq<Pixel>, rot: Rotate) -> Seq<u8> {
    Seq::new(768, |j: int| leds[rot.source_index(j / 3)].channel(j % 3))
}

/// Byte `3 * i + c` of the serialization is channel `c` of the cell that
/// feeds serialized pixel slot `i`.
pub proof fn lemma_serialized_byte(leds: Seq<Pixel>, rot: Rotate, i: int, c: int)
    requires
        0 <= i < 256,
        0 <= c < 3,
    ensures
        serialized(leds, rot)[3 * i + c] == leds[rot.source_index(i)].channel(c),
{
    lemma_fundamental_div_mod_converse(3 * i + c, 3, i, c);
}

/// Law: the serialization always holds exactly 768 bytes (256 pixels of
/// three channel bytes each), whatever the rotation.
pub proof fn lemma_serialized_len(leds: Seq<Pixel>, rot: Rotate)
    ensures
        serialized(leds, rot).len() == 768,
{
}

/// Law: under `RotNone` the byte at offset `3 * (y * 16 + x) + c` is
/// channel `c` of the pixel at `(x, y)`.
pub proof fn lemma_serialized_none(leds: Seq<Pixel>, x: int, y: int, c: int)
    requires
        leds.len() == 256,
        0 <= x < 16,
        0 <= y < 16,
        0 <= c < 3,
    ensures
        serialized(leds, Rotate::RotNone)[3 * (y * 16 + x) + c] == leds[y * 16 + x].channel(c),
{
    lemma_serialized_byte(leds, Rotate::RotNone, y * 16 + x, c);
}

/// Law: rotating by 180 degrees reverses the pixel order exactly — slot `i`
/// of the `Rot180` serialization carries the same three channel bytes, in
/// the same R, G, B order, as slot `255 - i` of the `RotNone` serialization.
pub proof fn lemma_serialized_rot180(leds: Seq<Pixel>, i: int, c: int)
    requires
        leds.len() == 256,
        0 <= i < 256,
        0 <= c < 3,
    ensures
        serialized(leds, Rotate::Rot180)[3 * i + c]
            == serialized(leds, Rotate::RotNone)[3 * (255 - i) + c],
{
    lemma_serialized_byte(leds, Rotate::Rot180, i, c);
    lemma_serialized_byte(leds, Rotate::RotNone, 255 - i, c);
}

/// Law: the clockwise and counter-clockwise serializations of one buffer are
/// exact reverses of each other at the pixel level — slot `i` of the
/// `RotCW90` serialization carries the same three channel bytes as slot
/// `255 - i` of the `RotCCW90` serialization.
pub proof fn lemma_serialized_cw_ccw_reverse(leds: Seq<Pixel>, i: int, c: int)
    requires
        leds.len() == 256,
        0 <= i < 256,
        0 <= c < 3,
    ensures
        serialized(leds, Rotate::RotCW90)[3 * i + c]
            == serialized(leds, Rotate::RotCCW90)[3 * (255 - i) + c],
{
    lemma_serialized_byte(leds, Rotate::RotCW90, i, c);
    lemma_serialized_byte(leds, Rotate::RotCCW90, 255 - i, c);
    let a = i / 16;
    let b = i % 16;
    lemma_fundamental_div_mod(i, 16);
    lemma_mod_bound(i, 16);
    // i == 16 * a + b with 0 <= b < 16 and 0 <= i < 256 pins a into 0..16,
    // and then 255 - i == (15 - a) * 16 + (15 - b).
    assert(16 * a == i - b);
    assert(0 <= a < 16);
    lemma_fundamental_div_mod_converse(255 - i, 16, 15 - a, 15 - b);
    assert(Rotate::RotCW90.source_index(i) == (15 - b) * 16 + a);
    assert(Rotate::RotCCW90.source_index(255 - i) == (15 - b) * 16 + a);
}

impl PixelBuffer {
    /// Translate the buffer into the matrix's wire byte order under `rot`:
    /// 768 bytes, one R, G, B triple per pixel, with the pixels visited in
    /// the rotation's read-out order.
    pub fn serialize(&self, rot: Rotate) -> (arr: Vec<u8>)
        requires
            self.wf(),
        ensures
            arr@ == serialized(self@, rot),
    {
        let mut arr: Vec<u8> = Vec::new();
        match rot {
            // Row-major, top-left to bottom-right.
            Rotate::RotNone => {
                let mut y: usize = 0;
                while y < 16
                    invariant
                        self.wf(),
                        rot == Rotate::RotNone,
                        y <= 16,
                        arr@.len() == 3 * (16 * y),
                        forall|j: int| 0 <= j < arr@.len() ==> arr@[j] == serialized(self@, rot)[j],
                    decreases 16 - y,
                {
                    let mut x: usize = 0;
                    while x < 16
                        invariant
                            self.wf(),
                            rot == Rotate::RotNone,
                            y < 16,
                            x <= 16,
                            arr@.len() == 3 * (16 * y + x),
                            forall|j: int|
                                0 <= j < arr@.len() ==> arr@[j] == serialized(self@, rot)[j],
                        decreases 16 - x,
                    {
                        let p = self.get(x, y);
                        proof {
                            let slot = 16 * y as int + x as int;
                            lemma_serialized_byte(self@, rot, slot, 0);
                            lemma_serialized_byte(self@, rot, slot, 1);
                            lemma_serialized_byte(self@, rot, slot, 2);
                        }
                        arr.push(p.r);
                        arr.push(p.g);
                        arr.push(p.b);
                        x += 1;
                    }
                    y += 1;
                }
            },
            // Each column top to bottom, rows taken bottom row first.
            Rotate::RotCW90 => {
                let mut x: usize = 0;
                while x < 16
                    invariant
                        self.wf(),
                        rot == Rotate::RotCW90,
                        x <= 16,
                        arr@.len() == 3 * (16 * x),
                        forall|j: int| 0 <= j < arr@.len() ==> arr@[j] == serialized(self@, rot)[j],
                    decreases 16 - x,
                {
                    let mut yd: usize = 0;
                    while yd < 16
                        invariant
                            self.wf(),
                            rot == Rotate::RotCW90,
                            x < 16,
                            yd <= 16,
                            arr@.len() == 3 * (16 * x + yd),
                            forall|j: int|
                                0 <= j < arr@.len() ==> arr@[j] == serialized(self@, rot)[j],
                        decreases 16 - yd,
                    {
                        let y = 15 - yd;
                        let p = self.get(x, y);
                        proof {
                            let slot = 16 * x as int + yd as int;
                            lemma_fundamental_div_mod_converse(slot, 16, x as int, yd as int);
                            assert(rot.source_index(slot) == y * 16 + x);
                            lemma_serialized_byte(self@, rot, slot, 0);
                            lemma_serialized_byte(self@, rot, slot, 1);
                            lemma_serialized_byte(self@, rot, slot, 2);
                        }
                        arr.push(p.r);
                        arr.push(p.g);
                        arr.push(p.b);
                        yd += 1;
                    }
                    x += 1;
                }
            },
            // Columns taken right to left, each walked top to bottom.
            Rotate::RotCCW90 => {
                let mut xd: usize = 0;
                while xd < 16
                    invariant
                        self.wf(),
                        rot == Rotate::RotCCW90,
                        xd <= 16,
                        arr@.len() == 3 * (16 * xd),
                        forall|j: int| 0 <= j < arr@.len() ==> arr@[j] == serialized(self@, rot)[j],
                    decreases 16 - xd,
                {
                    let x = 15 - xd;
                    let mut y: usize = 0;
                    while y < 16
                        invariant
                            self.wf(),
                            rot == Rotate::RotCCW90,
                            xd < 16,
                            x == 15 - xd,
                            y <= 16,
                            arr@.len() == 3 * (16 * xd + y),
                            forall|j: int|
                                0 <= j < arr@.len() ==> arr@[j] == serialized(self@, rot)[j],
                        decreases 16 - y,
                    {
                        let p = self.get(x, y);
                        proof {
                            let slot = 16 * xd as int + y as int;
                            lemma_fundamental_div_mod_converse(slot, 16, xd as int, y as int);
                            assert(rot.source_index(slot) == y * 16 + x);
                            lemma_serialized_byte(self@, rot, slot, 0);
                            lemma_serialized_byte(self@, rot, slot, 1);
                            lemma_serialized_byte(self@, rot, slot, 2);
                        }
                        arr.push(p.r);
                        arr.push(p.g);
                        arr.push(p.b);
                        y += 1;
                    }
                    xd += 1;
                }
            },
            // Row-major in exact reverse: last buffer cell first.
            Rotate::Rot180 => {
                let mut yd: usize = 0;
                while yd < 16
                    invariant
                        self.wf(),
                        rot == Rotate::Rot180,
                        yd <= 16,
                        arr@.len() == 3 * (16 * yd),
                        forall|j: int| 0 <= j < arr@.len() ==> arr@[j] == serialized(self@, rot)[j],
                    decreases 16 - yd,
                {
                    let y = 15 - yd;
                    let mut xd: usize = 0;
                    while xd < 16
                        invariant
                            self.wf(),
                            rot == Rotate::Rot180,
                            yd < 16,
                            y == 15 - yd,
                            xd <= 16,
                            arr@.len() == 3 * (16 * yd + xd),
                            forall|j: int|
                                0 <= j < arr@.len() ==> arr@[j] == serialized(self@, rot)[j],
                        decreases 16 - xd,
                    {
                        let x = 15 - xd;
                        let p = self.get(x, y);
                        proof {
                            let slot = 16 * yd as int + xd as int;
                            assert(rot.source_index(slot) == y * 16 + x);
                            lemma_serialized_byte(self@, rot, slot, 0);
                            lemma_serialized_byte(self@, rot, slot, 1);
                            lemma_serialized_byte(self@, rot, slot, 2);
                        }
                        arr.push(p.r);
                        arr.push(p.g);
                        arr.push(p.b);
                        xd += 1;
                    }
                    yd += 1;
                }
            },
        }
        proof {
            assert(arr@ =~= serialized(self@, rot));
        }
        arr
    }
}

} // verus!
