//! A compact, immutable, owned UTF-8 string that occupies exactly two machine
//! words: a pointer to its bytes and their number.
//!
//! [`Str`] holds its text in a heap buffer of exactly the text's byte length,
//! with no capacity field, no terminator and no shared ownership. It compares
//! and hashes as the text it holds, so it can key a hash container and be
//! looked up by a borrowed `&str`.

pub mod bytes;
pub mod encoding;
pub mod laws;
pub mod text;

pub use text::Str;
