//! Driver library for a 16 x 16 RGB LED matrix addressed over a synchronous
//! serial bus.
//!
//! The library keeps an in-memory pixel buffer, gives pixel-level read and
//! write access, and serializes the buffer into the wire format the matrix
//! expects, applying an optional rotation at serialization time.  The bus
//! itself stands behind the [`transport::Transport`] trait, so the buffer and
//! serialization logic can be exercised without hardware.

pub mod buffer;
pub mod error;
pub mod hat;
pub mod pixel;
pub mod rotate;
pub mod serialize;
pub mod transport;

pub use buffer::PixelBuffer;
pub use error::TransportError;
pub use hat::UnicornHatHd;
pub use hat::START_OF_FRAME;
pub use pixel::Pixel;
pub use rotate::Rotate;
pub use transport::FailingTransport;
pub use transport::MemTransport;
pub use transport::Transport;
