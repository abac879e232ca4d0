//! The mathematical model of hexadecimal text: digit classes, the text that
//! encodes a byte sequence and the bytes that a text decodes to.

use vstd::prelude::*;

verus! {

/// The letter case of a hexadecimal string.
#[derive(Debug, Clone, Copy, PartialEq, Eq, Structural)]
pub enum Case {
    /// Letters `a-f`.
    Lower,
    /// Letters `A-F`.
    Upper,
}

/// The case that a type-level flag selects.
pub open spec fn case_of(upper: bool) -> Case {
    if upper {
        Case::Upper
    } else {
        Case::Lower
    }
}

pub open spec fn is_decimal(c: char) -> bool {
    '0' <= c <= '9'
}

pub open spec fn is_lower_letter(c: char) -> bool {
    'a' <= c <= 'f'
}

pub open spec fn is_upper_letter(c: char) -> bool {
    'A' <= c <= 'F'
}

/// `c` is a hexadecimal digit of the given case.
pub open spec fn is_digit_of(c: char, upper: bool) -> bool {
    is_decimal(c) || (if upper {
        is_upper_letter(c)
    } else {
        is_lower_letter(c)
    })
}

/// `s` is valid text for a hex string of the given case.
pub open spec fn is_hex_of(s: Seq<char>, upper: bool) -> bool {
    &&& s.len() % 2 == 0
    &&& forall|i: int| 0 <= i < s.len() ==> is_digit_of(#[trigger] s[i], upper)
}

/// `index` is the first position of `s` whose character is no digit of the case.
pub open spec fn rejected_at(s: Seq<char>, upper: bool, index: int) -> bool {
    &&& 0 <= index < s.len()
    &&& !is_digit_of(s[index], upper)
    &&& forall|j: int| 0 <= j < index ==> is_digit_of(#[trigger] s[j], upper)
}

/// `s` is hexadecimal text of either case, or of both mixed, of even length.
pub open spec fn is_hex_any(s: Seq<char>) -> bool {
    &&& s.len() % 2 == 0
    &&& forall|i: int|
        0 <= i < s.len() ==> #[trigger] is_digit_of(s[i], false) || is_digit_of(s[i], true)
}

/// The digit that stands for the nibble `n` (`0 <= n < 16`) in the given case.
/// `'0'` is 48, `'A'` is 55 + 10 and `'a'` is 87 + 10.
pub open spec fn nibble_char(n: int, upper: bool) -> char {
    if n < 10 {
        ((48 + n) as u8) as char
    } else if upper {
        ((55 + n) as u8) as char
    } else {
        ((87 + n) as u8) as char
    }
}

/// The value of a hexadecimal digit of either case.
pub open spec fn digit_value(c: char) -> int {
    if is_decimal(c) {
        c as u32 - 48
    } else if is_upper_letter(c) {
        c as u32 - 55
    } else if is_lower_letter(c) {
        c as u32 - 87
    } else {
        0
    }
}

/// The text that encodes `b`: two digits per byte, high nibble first.
pub open spec fn hex_text(b: Seq<u8>, upper: bool) -> Seq<char> {
    Seq::new(
        2 * b.len(),
        |i: int|
            if i % 2 == 0 {
                nibble_char((b[i / 2] / 16) as int, upper)
            } else {
                nibble_char((b[i / 2] % 16) as int, upper)
            },
    )
}

/// The bytes that hexadecimal text `s` decodes to, one per pair of digits.
pub open spec fn bytes_of(s: Seq<char>) -> Seq<u8> {
    Seq::new(s.len() / 2, |i: int| (16 * digit_value(s[2 * i]) + digit_value(s[2 * i + 1])) as u8)
}

/// `c` with an ASCII lowercase letter mapped to its uppercase form.
pub open spec fn ascii_upper(c: char) -> char {
    if 'a' <= c <= 'z' {
        ((c as u32 - 32) as u8) as char
    } else {
        c
    }
}

/// `c` with an ASCII uppercase letter mapped to its lowercase form.
pub open spec fn ascii_lower(c: char) -> char {
    if 'A' <= c <= 'Z' {
        ((c as u32 + 32) as u8) as char
    } else {
        c
    }
}

pub open spec fn upper_text(s: Seq<char>) -> Seq<char> {
    s.map_values(|c: char| ascii_upper(c))
}

pub open spec fn lower_text(s: Seq<char>) -> Seq<char> {
    s.map_values(|c: char| ascii_lower(c))
}

/// The digit of a nibble belongs to its case and has the nibble's value.
pub proof fn lemma_nibble_char(n: int, upper: bool)
    requires
        0 <= n < 16,
    ensures
        is_digit_of(nibble_char(n, upper), upper),
        digit_value(nibble_char(n, upper)) == n,
{
}

/// The encoding of any bytes is valid text of its case.
pub proof fn lemma_hex_text_valid(b: Seq<u8>, upper: bool)
    ensures
        is_hex_of(hex_text(b, upper), upper),
{
    let s = hex_text(b, upper);
    assert forall|i: int| 0 <= i < s.len() implies is_digit_of(#[trigger] s[i], upper) by {
        lemma_nibble_char((b[i / 2] / 16) as int, upper);
        lemma_nibble_char((b[i / 2] % 16) as int, upper);
    }
}

/// Valid text of one case is hexadecimal text.
pub proof fn lemma_hex_of_is_hex_any(s: Seq<char>, upper: bool)
    requires
        is_hex_of(s, upper),
    ensures
        is_hex_any(s),
{
    assert forall|i: int| 0 <= i < s.len() implies #[trigger] is_digit_of(s[i], false)
        || is_digit_of(s[i], true) by {
        assert(is_digit_of(s[i], upper));
    }
}

/// Uppercasing valid lowercase text gives valid uppercase text.
pub proof fn lemma_upper_text_valid(s: Seq<char>)
    requires
        is_hex_of(s, false),
    ensures
        is_hex_of(upper_text(s), true),
{
    let u = upper_text(s);
    assert forall|i: int| 0 <= i < u.len() implies is_digit_of(#[trigger] u[i], true) by {
        assert(is_digit_of(s[i], false));
    }
}

/// Lowercasing valid uppercase text gives valid lowercase text.
pub proof fn lemma_lower_text_valid(s: Seq<char>)
    requires
        is_hex_of(s, true),
    ensures
        is_hex_of(lower_text(s), false),
{
    let l = lower_text(s);
    assert forall|i: int| 0 <= i < l.len() implies is_digit_of(#[trigger] l[i], false) by {
        assert(is_digit_of(s[i], true));
    }
}

} // verus!
