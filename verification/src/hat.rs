use vstd::prelude::*;

use crate::buffer::lemma_set_then_get;
use crate::buffer::PixelBuffer;
use crate::error::TransportError;
use crate::pixel::black;
use crate::pixel::Pixel;
use crate::rotate::Rotate;
use crate::serialize::serialized;
use crate::transport::Transport;

verus! {

/// The start-of-frame command byte: it tells the matrix that the 768 pixel
/// data bytes follow.
pub const START_OF_FRAME: u8 = 0x72;

/// High-level access to the 16 x 16 matrix: one pixel buffer, the active
/// rotation, and exclusive ownership of the bus transport.
///
/// The buffer always holds the unrotated image; the rotation only changes
/// the read-out order used when [`UnicornHatHd::display`] serializes the
/// buffer onto the bus.
pub struct UnicornHatHd<T: Transport> {
    buffer: PixelBuffer,
    rotation: Rotate,
    port: T,
}

impl<T: Transport> UnicornHatHd<T> {
    /// The stored image, row-major.
    pub closed spec fn pixels(&self) -> Seq<Pixel> {
        self.buffer@
    }

    /// Well-formed: the buffer holds one pixel per cell of the grid.
    pub open spec fn wf(&self) -> bool {
        self.pixels().len() == 256
    }

    /// The pixel stored at `(x, y)`.
    pub open spec fn pixel_at(&self, x: int, y: int) -> Pixel {
        self.pixels()[y * 16 + x]
    }

    /// The active rotation.
    pub closed spec fn rot(&self) -> Rotate {
        self.rotation
    }

    /// The owned bus transport.
    pub closed spec fn transport(&self) -> T {
        self.port
    }

    /// Create a `UnicornHatHd` addressed by the bus device at `spi_path`
    /// (typically something like `"/dev/spidev0.0"`): open the transport
    /// there and start with a fully black buffer and no rotation.  A bus
    /// that cannot be opened or configured surfaces as a [`TransportError`];
    /// this constructor never panics.
    pub fn new(spi_path: &str) -> (r: Result<UnicornHatHd<T>, TransportError>)
        ensures
            r is Ok ==> r->Ok_0.wf(),
            r is Ok ==> forall|i: int| 0 <= i < 256 ==> r->Ok_0.pixels()[i] == black(),
            r is Ok ==> r->Ok_0.rot() == Rotate::RotNone,
            r is Ok ==> r->Ok_0.transport().written() == Seq::<u8>::empty(),
    {
        let port = T::open(spi_path)?;
        Ok(UnicornHatHd { buffer: PixelBuffer::new(), rotation: Rotate::RotNone, port })
    }

    /// Create a `UnicornHatHd` on the conventional device path
    /// `"/dev/spidev0.0"`.  An unusable default path surfaces as the same
    /// [`TransportError`] that [`UnicornHatHd::new`] reports, so only the
    /// outermost caller decides whether that failure is fatal.
    pub fn open_default() -> (r: Result<UnicornHatHd<T>, TransportError>)
        ensures
            r is Ok ==> r->Ok_0.wf(),
            r is Ok ==> forall|i: int| 0 <= i < 256 ==> r->Ok_0.pixels()[i] == black(),
            r is Ok ==> r->Ok_0.rot() == Rotate::RotNone,
            r is Ok ==> r->Ok_0.transport().written() == Seq::<u8>::empty(),
    {
        Self::new("/dev/spidev0.0")
    }

    /// Build a display around an already-open transport, with a fully black
    /// buffer and no rotation.
    pub fn from_port(port: T) -> (hat: UnicornHatHd<T>)
        ensures
            hat.wf(),
            forall|i: int| 0 <= i < 256 ==> hat.pixels()[i] == black(),
            hat.rot() == Rotate::RotNone,
            hat.transport() == port,
    {
        UnicornHatHd { buffer: PixelBuffer::new(), rotation: Rotate::RotNone, port }
    }

    /// Borrow the owned bus transport, to look at what was sent.
    pub fn port_ref(&self) -> (t: &T)
        ensures
            *t == self.transport(),
    {
        &self.port
    }

    /// Rotate the display buffer by [`Rotate`] degrees before it is sent to
    /// the matrix.
    ///
    /// This allows for different mounting orientations of the matrix without
    /// having to translate the `(x, y)` of each pixel to account for the
    /// physical rotation of the display.  Only subsequent
    /// [`UnicornHatHd::display`] calls are affected; the stored pixels do
    /// not move.
    pub fn set_rotation(&mut self, rot: Rotate)
        ensures
            final(self).rot() == rot,
            final(self).pixels() == old(self).pixels(),
            final(self).transport() == old(self).transport(),
    {
        self.rotation = rot;
    }

    /// Set an individual pixel's RGB value.
    ///
    /// The origin (`(0, 0)`) is the top-left of the display, with `x` and
    /// `y` increasing to the right, and down, respectively.  Coordinates
    /// outside the 16 x 16 grid are a caller error, ruled out by contract.
    pub fn set_pixel(&mut self, x: usize, y: usize, c: Pixel)
        requires
            old(self).wf(),
            x < 16,
            y < 16,
        ensures
            final(self).wf(),
            final(self).pixels() == old(self).pixels().update(y * 16 + x, c),
            final(self).pixel_at(x as int, y as int) == c,
            forall|x2: int, y2: int|
                0 <= x2 < 16 && 0 <= y2 < 16 && !(x2 == x && y2 == y)
                    ==> final(self).pixel_at(x2, y2) == old(self).pixel_at(x2, y2),
            final(self).rot() == old(self).rot(),
            final(self).transport() == old(self).transport(),
    {
        self.buffer.set(x, y, c);
        proof {
            assert forall|x2: int, y2: int|
                0 <= x2 < 16 && 0 <= y2 < 16 && !(x2 == x && y2 == y)
                    implies self.pixel_at(x2, y2) == old(self).pixel_at(x2, y2) by {
                lemma_set_then_get(old(self).pixels(), x as int, y as int, c, x2, y2);
            }
        }
    }

    /// Return an individual pixel's RGB value.
    ///
    /// The origin (`(0, 0)`) is the top-left of the display, with `x` and
    /// `y` increasing to the right, and down, respectively.
    ///
    /// *NOTE*: This returns what's in the display buffer, not what the
    /// physical pixel is set to.
    pub fn get_pixel(&self, x: usize, y: usize) -> (c: Pixel)
        requires
            self.wf(),
            x < 16,
            y < 16,
        ensures
            c == self.pixel_at(x as int, y as int),
    {
        self.buffer.get(x, y)
    }

    /// Clear the internal buffer of pixel states.
    ///
    /// To clear the display itself, you'll still need to call
    /// [`UnicornHatHd::display`] to update the matrix.
    pub fn clear_pixels(&mut self)
        ensures
            final(self).wf(),
            forall|i: int| 0 <= i < 256 ==> final(self).pixels()[i] == black(),
            forall|x: int, y: int|
                0 <= x < 16 && 0 <= y < 16 ==> final(self).pixel_at(x, y) == black(),
            final(self).rot() == old(self).rot(),
            final(self).transport() == old(self).transport(),
    {
        self.buffer.clear();
    }

    /// Translate the internal buffer into the wire byte order under the
    /// active rotation: 768 bytes, one R, G, B triple per pixel.
    pub fn as_array(&self) -> (arr: Vec<u8>)
        requires
            self.wf(),
        ensures
            arr@ == serialized(self.pixels(), self.rot()),
    {
        self.buffer.serialize(self.rotation)
    }

    /// Write the display buffer to the matrix: first the start-of-frame
    /// command byte, then the 768 serialized data bytes, as two sequential
    /// writes on the bus transport.
    ///
    /// Either both writes succeed, or the call fails with the transport's
    /// [`TransportError`] and no other error kind; a failed second write
    /// leaves the frame half-sent, so the bytes accepted by the bus are
    /// then either nothing or the lone command byte.  The buffer and the
    /// rotation are untouched either way, so the caller may retry the whole
    /// call.
    pub fn display(&mut self) -> (r: Result<(), TransportError>)
        requires
            old(self).wf(),
        ensures
            final(self).wf(),
            final(self).pixels() == old(self).pixels(),
            final(self).rot() == old(self).rot(),
            r is Ok ==> final(self).transport().written() == old(self).transport().written()
                + seq![START_OF_FRAME] + serialized(old(self).pixels(), old(self).rot()),
            r is Err ==> final(self).transport().written() == old(self).transport().written()
                || final(self).transport().written() == old(self).transport().written().push(
                START_OF_FRAME,
            ),
    {
        let mut cmd: Vec<u8> = Vec::new();
        cmd.push(START_OF_FRAME);
        self.port.write(&cmd)?;
        let data = self.as_array();
        self.port.write(&data)?;
        Ok(())
    }
}

} // verus!
