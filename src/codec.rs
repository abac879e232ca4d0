//! The calls into the `hex` crate and into std's ASCII case mapping.

use vstd::prelude::*;

use crate::digits::{bytes_of, hex_text, is_hex_any, lower_text, upper_text};
use crate::hex_string::Error;

verus! {

/// Relies on `hex::encode`: each byte becomes two lowercase digits, high nibble first.
#[verifier::external_body]
pub(crate) fn encode_lower(b: &[u8]) -> (r: String)
    ensures
        r@ == hex_text(b@, false),
{
    hex::encode(b)
}

/// Relies on `hex::encode_upper`: each byte becomes two uppercase digits, high nibble first.
#[verifier::external_body]
pub(crate) fn encode_upper(b: &[u8]) -> (r: String)
    ensures
        r@ == hex_text(b@, true),
{
    hex::encode_upper(b)
}

/// Relies on `hex::decode`: it succeeds exactly on an even number of digits of
/// either case, and turns each pair into one byte, high nibble first.
#[verifier::external_body]
pub(crate) fn decode(s: &str) -> (r: Option<Vec<u8>>)
    ensures
        r is Some <==> is_hex_any(s@),
        r is Some ==> r->0@ == bytes_of(s@),
{
    hex::decode(s).ok()
}

/// Relies on `hex::decode_to_slice`, into a buffer of `N` bytes: on an even
/// number of digits it fails with `InvalidStringLength` when they are not two
/// per byte of the buffer, and fills the buffer with the decoded bytes otherwise.
#[verifier::external_body]
pub(crate) fn decode_array<const N: usize>(s: &str) -> (r: Result<[u8; N], Error>)
    ensures
        is_hex_any(s@) ==> (r is Ok <==> s@.len() == 2 * N),
        is_hex_any(s@) && r is Ok ==> r->Ok_0@ == bytes_of(s@),
        is_hex_any(s@) && r is Err ==> r->Err_0 == Error::InvalidStringLength,
{
    let mut out = [0u8; N];
    match hex::decode_to_slice(s, &mut out) {
        Ok(()) => Ok(out),
        Err(hex::FromHexError::InvalidHexCharacter { c, index }) => Err(
            Error::InvalidHexCharacter { c, index },
        ),
        Err(hex::FromHexError::OddLength) => Err(Error::OddLength),
        Err(hex::FromHexError::InvalidStringLength) => Err(Error::InvalidStringLength),
    }
}

/// Relies on `str::make_ascii_uppercase`: `a` to `z` become `A` to `Z`, every
/// other character stays.
#[verifier::external_body]
pub(crate) fn make_upper(s: &mut String)
    ensures
        final(s)@ == upper_text(old(s)@),
{
    s.make_ascii_uppercase()
}

/// Relies on `str::make_ascii_lowercase`: `A` to `Z` become `a` to `z`, every
/// other character stays.
#[verifier::external_body]
pub(crate) fn make_lower(s: &mut String)
    ensures
        final(s)@ == lower_text(old(s)@),
{
    s.make_ascii_lowercase()
}

} // verus!
