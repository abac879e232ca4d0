//! The hex string type, its construction and its conversions.

use vstd::prelude::*;

use crate::codec;
use crate::digits::{
    bytes_of, case_of, hex_text, is_digit_of, is_hex_of, lemma_hex_of_is_hex_any,
    lemma_hex_text_valid, lemma_lower_text_valid, lemma_upper_text_valid, lower_text, rejected_at,
    upper_text, Case,
};

verus! {

/// Why a text or a decoding was refused.
#[derive(Debug, Clone, Copy, PartialEq, Eq, Structural)]
pub enum Error {
    /// A character that is no digit of the expected case, and its 0-based position.
    InvalidHexCharacter { c: char, index: usize },
    /// The text has an odd number of characters.
    OddLength,
    /// The text does not decode to the requested number of bytes.
    InvalidStringLength,
}

/// Text of hexadecimal digits of one case (`UPPER`), of even length.
#[derive(Debug)]
pub struct HexString<const UPPER: bool> {
    s: String,
}

/// A hex string with letters `a-f`.
pub type LowerHexString = HexString<false>;

/// A hex string with letters `A-F`.
pub type UpperHexString = HexString<true>;

impl<const UPPER: bool> View for HexString<UPPER> {
    type V = Seq<char>;

    closed spec fn view(&self) -> Seq<char> {
        self.s@
    }
}

fn is_digit(c: char, case: Case) -> (r: bool)
    ensures
        r == is_digit_of(c, case == Case::Upper),
{
    match case {
        Case::Lower => ('0' <= c && c <= '9') || ('a' <= c && c <= 'f'),
        Case::Upper => ('0' <= c && c <= '9') || ('A' <= c && c <= 'F'),
    }
}

impl<const UPPER: bool> HexString<UPPER> {
    #[verifier::type_invariant]
    spec fn well_formed(&self) -> bool {
        is_hex_of(self.s@, UPPER)
    }

    /// The case of this type's letters.
    pub fn case() -> (r: Case)
        ensures
            r == case_of(UPPER),
    {
        if UPPER {
            Case::Upper
        } else {
            Case::Lower
        }
    }

    /// Validates `s` and keeps it unchanged as a hex string.
    pub fn new(s: &str) -> (r: Result<Self, Error>)
        ensures
            r is Ok <==> is_hex_of(s@, UPPER),
            match r {
                Ok(h) => h@ == s@,
                Err(Error::OddLength) => s@.len() % 2 == 1,
                Err(Error::InvalidHexCharacter { c, index }) => {
                    &&& s@.len() % 2 == 0
                    &&& rejected_at(s@, UPPER, index as int)
                    &&& c == s@[index as int]
                },
                Err(Error::InvalidStringLength) => false,
            },
    {
        let n = s.unicode_len();
        if n % 2 != 0 {
            return Err(Error::OddLength);
        }
        let case = Self::case();
        let mut index: usize = 0;
        for c in it: s.chars()
            invariant
                it.seq() == s@,
                index == it.index(),
                n == s@.len(),
                n % 2 == 0,
                case == case_of(UPPER),
                forall|j: int| 0 <= j < index ==> is_digit_of(#[trigger] s@[j], UPPER),
        {
            if !is_digit(c, case) {
                return Err(Error::InvalidHexCharacter { c, index });
            }
            index = index + 1;
        }
        Ok(HexString { s: s.to_string() })
    }

    /// Wraps `s` without looking at it; the caller vouches that it is valid
    /// text of this case.
    pub fn new_unchecked(s: &str) -> (r: Self)
        requires
            is_hex_of(s@, UPPER),
        ensures
            r@ == s@,
    {
        HexString { s: s.to_string() }
    }

    /// Encodes `bytes`: two digits of this case per byte, high nibble first.
    pub fn from_bytes(bytes: &[u8]) -> (r: Self)
        ensures
            r@ == hex_text(bytes@, UPPER),
            is_hex_of(r@, UPPER),
    {
        let s = if UPPER {
            codec::encode_upper(bytes)
        } else {
            codec::encode_lower(bytes)
        };
        proof {
            lemma_hex_text_valid(bytes@, UPPER);
        }
        HexString { s }
    }

    /// The text, unchanged.
    pub fn as_str(&self) -> (r: &str)
        ensures
            r@ == self@,
    {
        self.s.as_str()
    }

    /// Decodes the text: one byte per pair of digits.
    pub fn into_bytes(self) -> (r: Vec<u8>)
        ensures
            r@ == bytes_of(self@),
            2 * r@.len() == self@.len(),
    {
        proof {
            use_type_invariant(&self);
            lemma_hex_of_is_hex_any(self.s@, UPPER);
        }
        codec::decode(self.s.as_str()).unwrap()
    }

    /// Decodes the text into exactly `N` bytes; fails with
    /// `InvalidStringLength` when it does not hold `2 * N` digits.
    pub fn try_into_array<const N: usize>(self) -> (r: Result<[u8; N], Error>)
        ensures
            r is Ok <==> self@.len() == 2 * N,
            r is Ok ==> r->Ok_0@ == bytes_of(self@),
            r is Err ==> r->Err_0 == Error::InvalidStringLength,
    {
        proof {
            use_type_invariant(&self);
            lemma_hex_of_is_hex_any(self.s@, UPPER);
        }
        codec::decode_array::<N>(self.s.as_str())
    }
}

impl HexString<false> {
    /// The same digits with `a-f` turned into `A-F`.
    pub fn to_uppercase(self) -> (r: HexString<true>)
        ensures
            r@ == upper_text(self@),
    {
        proof {
            use_type_invariant(&self);
            lemma_upper_text_valid(self.s@);
        }
        let mut s = self.s;
        codec::make_upper(&mut s);
        HexString { s }
    }
}

impl HexString<true> {
    /// The same digits with `A-F` turned into `a-f`.
    pub fn to_lowercase(self) -> (r: HexString<false>)
        ensures
            r@ == lower_text(self@),
    {
        proof {
            use_type_invariant(&self);
            lemma_lower_text_valid(self.s@);
        }
        let mut s = self.s;
        codec::make_lower(&mut s);
        HexString { s }
    }
}

impl<const UPPER: bool> PartialEq for HexString<UPPER> {
    fn eq(&self, other: &Self) -> (r: bool) {
        self.s == other.s
    }
}

impl<const UPPER: bool> vstd::std_specs::cmp::PartialEqSpecImpl for HexString<UPPER> {
    open spec fn obeys_eq_spec() -> bool {
        true
    }

    open spec fn eq_spec(&self, other: &Self) -> bool {
        self@ == other@
    }
}

impl<const UPPER: bool> Eq for HexString<UPPER> {

}

impl<const UPPER: bool> Default for HexString<UPPER> {
    /// The empty hex string.
    fn default() -> (r: Self)
        ensures
            r@ == Seq::<char>::empty(),
    {
        HexString { s: String::new() }
    }
}

impl<'a, const UPPER: bool> From<&'a [u8]> for HexString<UPPER> {
    /// Same as `HexString::from_bytes`.
    fn from(bytes: &'a [u8]) -> (r: Self)
        ensures
            r@ == hex_text(bytes@, UPPER),
            is_hex_of(r@, UPPER),
    {
        Self::from_bytes(bytes)
    }
}

impl<'a, const UPPER: bool> vstd::std_specs::convert::FromSpecImpl<&'a [u8]> for HexString<UPPER> {
    open spec fn obeys_from_spec() -> bool {
        false
    }

    open spec fn from_spec(bytes: &'a [u8]) -> Self {
        arbitrary()
    }
}

impl<const UPPER: bool> From<Vec<u8>> for HexString<UPPER> {
    /// Same as `HexString::from_bytes`.
    fn from(bytes: Vec<u8>) -> (r: Self)
        ensures
            r@ == hex_text(bytes@, UPPER),
            is_hex_of(r@, UPPER),
    {
        Self::from_bytes(bytes.as_slice())
    }
}

impl<const UPPER: bool> vstd::std_specs::convert::FromSpecImpl<Vec<u8>> for HexString<UPPER> {
    open spec fn obeys_from_spec() -> bool {
        false
    }

    open spec fn from_spec(bytes: Vec<u8>) -> Self {
        arbitrary()
    }
}

impl<const UPPER: bool, const N: usize> From<[u8; N]> for HexString<UPPER> {
    /// Same as `HexString::from_bytes`.
    fn from(bytes: [u8; N]) -> (r: Self)
        ensures
            r@ == hex_text(bytes@, UPPER),
            is_hex_of(r@, UPPER),
    {
        Self::from_bytes(bytes.as_slice())
    }
}

impl<const UPPER: bool, const N: usize> vstd::std_specs::convert::FromSpecImpl<[u8; N]> for HexString<UPPER> {
    open spec fn obeys_from_spec() -> bool {
        false
    }

    open spec fn from_spec(bytes: [u8; N]) -> Self {
        arbitrary()
    }
}

impl<const UPPER: bool> From<HexString<UPPER>> for Vec<u8> {
    /// Same as `HexString::into_bytes`.
    fn from(h: HexString<UPPER>) -> (r: Self)
        ensures
            r@ == bytes_of(h@),
            2 * r@.len() == h@.len(),
    {
        h.into_bytes()
    }
}

impl<const UPPER: bool> vstd::std_specs::convert::FromSpecImpl<HexString<UPPER>> for Vec<u8> {
    open spec fn obeys_from_spec() -> bool {
        false
    }

    open spec fn from_spec(h: HexString<UPPER>) -> Self {
        arbitrary()
    }
}

impl<const UPPER: bool, const N: usize> TryFrom<HexString<UPPER>> for [u8; N] {
    type Error = Error;

    /// Same as `HexString::try_into_array`.
    fn try_from(h: HexString<UPPER>) -> (r: Result<Self, Error>)
        ensures
            r is Ok <==> h@.len() == 2 * N,
            r is Ok ==> r->Ok_0@ == bytes_of(h@),
            r is Err ==> r->Err_0 == Error::InvalidStringLength,
    {
        h.try_into_array::<N>()
    }
}

impl<const UPPER: bool, const N: usize> vstd::std_specs::convert::TryFromSpecImpl<HexString<UPPER>> for [u8; N] {
    open spec fn obeys_try_from_spec() -> bool {
        false
    }

    open spec fn try_from_spec(h: HexString<UPPER>) -> Result<Self, Error> {
        arbitrary()
    }
}

impl<const UPPER: bool> TryFrom<String> for HexString<UPPER> {
    type Error = Error;

    /// Same as `HexString::new`: the path by which plain text from
    /// structured data becomes a hex string.
    fn try_from(s: String) -> (r: Result<Self, Error>)
        ensures
            r is Ok <==> is_hex_of(s@, UPPER),
            match r {
                Ok(h) => h@ == s@,
                Err(Error::OddLength) => s@.len() % 2 == 1,
                Err(Error::InvalidHexCharacter { c, index }) => {
                    &&& s@.len() % 2 == 0
                    &&& rejected_at(s@, UPPER, index as int)
                    &&& c == s@[index as int]
                },
                Err(Error::InvalidStringLength) => false,
            },
    {
        Self::new(s.as_str())
    }
}

impl<const UPPER: bool> vstd::std_specs::convert::TryFromSpecImpl<String> for HexString<UPPER> {
    open spec fn obeys_try_from_spec() -> bool {
        false
    }

    open spec fn try_from_spec(s: String) -> Result<Self, Error> {
        arbitrary()
    }
}

impl<const UPPER: bool> Clone for HexString<UPPER> {
    fn clone(&self) -> (r: Self)
        ensures
            r@ == self@,
    {
        proof {
            use_type_invariant(self);
        }
        HexString { s: self.s.clone() }
    }
}

} // verus!
