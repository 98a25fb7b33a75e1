//! A zero-copy cursor over an immutable byte buffer.
//!
//! [`BinaryFileReader`] keeps a position inside a borrowed buffer and offers
//! big-endian integer reads, raw byte runs, UTF-8 text, byte-pattern checks
//! and splitting into independent sub-cursors. Every operation either
//! succeeds and advances by exactly the number of bytes it names, or fails
//! and leaves the cursor where it was.
//!
//! What each operation returns is stated over [`window::Window`], the
//! mathematical model of a cursor; [`laws`] proves what follows for the
//! model as a whole.

pub mod decimal;
pub mod endian;
pub mod error;
pub mod laws;
pub mod reader;
pub mod utf8;
pub mod window;

pub use reader::BinaryFileReader;
