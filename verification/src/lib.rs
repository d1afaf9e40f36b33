//! Checking that a byte stream begins with an expected magic number.
//!
//! A magic number is a fixed sequence of bytes at the start of a file or
//! stream that identifies its format. [`check_magic_number`] reads exactly as
//! many bytes as the magic number is long from a [`ByteStream`] and compares
//! them with it, byte for byte. The outcome is success, an I/O failure of the
//! stream, or a mismatch that carries both sequences for diagnostics.
//!
//! - [`stream`]: the byte stream, its cursor and its one way to fail.
//! - [`check`]: the check, and the comparison it ends with.
//! - [`error`]: the failures of a check and their messages.
//! - [`render`]: how bytes are shown in a message, as text or in hexadecimal.

pub mod check;
pub mod error;
pub mod render;
pub mod stream;

pub use check::check_magic_number;
pub use check::compare_magic_number;
pub use error::CheckFailure;
pub use error::MagicNumberCheckError;
pub use error::Mismatch;
pub use error::WrongMagicNumber;
pub use stream::ByteStream;
pub use stream::StreamError;
pub use stream::StreamState;
