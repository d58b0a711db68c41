//! A codec for two-byte "simple escape" sequences of ANSI/VT terminal streams.
//!
//! After the marker byte `ESC` such a sequence holds an optional intermediate
//! byte and a final control byte.  [`Esc::parse`] turns the byte pair into a
//! typed value, [`Esc::encode_escape`] turns the value back into bytes, and a
//! pair that the table of named codes does not hold is kept verbatim.
pub mod code;
pub mod esc;
pub mod key;
pub mod laws;

pub use code::EscCode;
pub use esc::{Esc, ESC};
