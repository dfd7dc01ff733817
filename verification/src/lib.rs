//! A panic-free cursor library for reading untrusted byte buffers.
//!
//! An [`Input`] wraps a borrowed byte region; a [`Reader`] is a forward-only
//! cursor over an `Input`. Every operation is bounds-checked and returns a
//! value instead of trapping, and the `read_all` protocol guarantees that no
//! trailing bytes are silently left unconsumed.

pub mod endian;
pub mod input;
pub mod no_panic;
pub mod reader;

pub use input::Input;
pub use no_panic::Slice;
pub use reader::EndOfInput;
pub use reader::Reader;
