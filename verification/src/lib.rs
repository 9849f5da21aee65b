//! Byte sequences that can be shortened to a requested length.
//!
//! The [`Truncate`] trait is one capability — cut an object's effective
//! length down to `new_len` bytes — offered uniformly by several
//! representations: an owned growable buffer (`Vec<u8>`), a borrowed
//! read-only view (`&[u8]`), a position-tracking [`Cursor`] around any of
//! them, and a mutable reference to any of them.
//!
//! What happens when `new_len` exceeds the current length is deliberately
//! left to each representation: the in-memory representations here reject
//! such a request, while a file-backed representation may delegate to a
//! platform resize call that is free to extend the file. Each
//! implementation advertises its policy through [`Truncate::shrink_only`].

mod decimal;
mod error;
mod cursor;
mod truncate;

pub use decimal::decimal_string;
pub use decimal::decimal_digits;
pub use decimal::digit_char;
pub use error::ErrorKind;
pub use error::TruncateError;
pub use error::greater_length_message;
pub use cursor::Cursor;
pub use truncate::Truncate;
pub use truncate::truncate_post;
