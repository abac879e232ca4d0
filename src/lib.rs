//! A validated hexadecimal string whose letter case is fixed by its type.
//!
//! A `HexString<UPPER>` always holds an even number of characters, each a
//! digit `0-9` or a letter of the one case that `UPPER` selects (`a-f` when it
//! is `false`, `A-F` when it is `true`). It converts losslessly from and into
//! bytes, and between the two cases.

pub mod digits;
pub mod hex_string;
mod codec;
pub mod laws;

pub use digits::Case;
pub use hex_string::{Error, HexString, LowerHexString, UpperHexString};
