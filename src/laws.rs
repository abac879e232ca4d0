//! Laws that relate the operations of `HexString`, stated over the model in
//! `digits` that their contracts use.

use vstd::prelude::*;

use crate::digits::{
    bytes_of, digit_value, hex_text, is_digit_of, nibble_char, is_hex_of, is_lower_letter, is_upper_letter,
    lemma_hex_text_valid, lemma_nibble_char, lower_text, rejected_at, upper_text,
};

verus! {

/// Decoding the encoding of any bytes, in either case, gives the bytes back.
pub proof fn law_round_trip(b: Seq<u8>, upper: bool)
    ensures
        is_hex_of(hex_text(b, upper), upper),
        bytes_of(hex_text(b, upper)) == b,
{
    lemma_hex_text_valid(b, upper);
    let s = hex_text(b, upper);
    assert forall|i: int| 0 <= i < b.len() implies #[trigger] bytes_of(s)[i] == b[i] by {
        let x = b[i];
        lemma_nibble_char((x / 16) as int, upper);
        lemma_nibble_char((x % 16) as int, upper);
        assert(s[2 * i] == nibble_of(x, true, upper));
        assert(s[2 * i + 1] == nibble_of(x, false, upper));
    }
    assert(bytes_of(s) =~= b);
}

spec fn nibble_of(x: u8, high: bool, upper: bool) -> char {
    nibble_char(
        if high {
            (x / 16) as int
        } else {
            (x % 16) as int
        },
        upper,
    )
}

/// The encoding of `b` decodes into an array of `n` bytes exactly when `n` is
/// the length of `b`, and then into `b` itself.
pub proof fn law_fixed_round_trip(b: Seq<u8>, upper: bool, n: nat)
    ensures
        hex_text(b, upper).len() == 2 * n <==> n == b.len(),
        n == b.len() ==> bytes_of(hex_text(b, upper)) == b,
{
    law_round_trip(b, upper);
}

/// Valid lowercase text with a letter is no valid uppercase text: it is
/// rejected at its first letter, and only there.
pub proof fn law_lower_rejected_as_upper(s: Seq<char>, i: int)
    requires
        is_hex_of(s, false),
        0 <= i < s.len(),
        is_lower_letter(s[i]),
        forall|j: int| 0 <= j < i ==> !is_lower_letter(#[trigger] s[j]),
    ensures
        !is_hex_of(s, true),
        rejected_at(s, true, i),
        forall|k: int| rejected_at(s, true, k) ==> k == i,
{
    assert forall|j: int| 0 <= j < i implies is_digit_of(#[trigger] s[j], true) by {
        assert(is_digit_of(s[j], false));
    }
}

/// Valid uppercase text with a letter is no valid lowercase text: it is
/// rejected at its first letter, and only there.
pub proof fn law_upper_rejected_as_lower(s: Seq<char>, i: int)
    requires
        is_hex_of(s, true),
        0 <= i < s.len(),
        is_upper_letter(s[i]),
        forall|j: int| 0 <= j < i ==> !is_upper_letter(#[trigger] s[j]),
    ensures
        !is_hex_of(s, false),
        rejected_at(s, false, i),
        forall|k: int| rejected_at(s, false, k) ==> k == i,
{
    assert forall|j: int| 0 <= j < i implies is_digit_of(#[trigger] s[j], false) by {
        assert(is_digit_of(s[j], true));
    }
}

/// The empty text is valid in both cases and decodes to no bytes.
pub proof fn law_empty_accepted(upper: bool)
    ensures
        is_hex_of(Seq::<char>::empty(), upper),
        bytes_of(Seq::<char>::empty()) == Seq::<u8>::empty(),
{
    assert(bytes_of(Seq::<char>::empty()) =~= Seq::<u8>::empty());
}

/// Lowercasing uppercase text and uppercasing it again gives the text back,
/// and uppercasing it changes nothing.
pub proof fn law_upper_case_round_trip(s: Seq<char>)
    requires
        is_hex_of(s, true),
    ensures
        upper_text(lower_text(s)) == s,
        upper_text(s) == s,
{
    assert forall|i: int| 0 <= i < s.len() implies #[trigger] upper_text(lower_text(s))[i] == s[i]
        && upper_text(s)[i] == s[i] by {
        assert(is_digit_of(s[i], true));
    }
    assert(upper_text(lower_text(s)) =~= s);
    assert(upper_text(s) =~= s);
}

/// Uppercasing lowercase text and lowercasing it again gives the text back,
/// and lowercasing it changes nothing.
pub proof fn law_lower_case_round_trip(s: Seq<char>)
    requires
        is_hex_of(s, false),
    ensures
        lower_text(upper_text(s)) == s,
        lower_text(s) == s,
{
    assert forall|i: int| 0 <= i < s.len() implies #[trigger] lower_text(upper_text(s))[i] == s[i]
        && lower_text(s)[i] == s[i] by {
        assert(is_digit_of(s[i], false));
    }
    assert(lower_text(upper_text(s)) =~= s);
    assert(lower_text(s) =~= s);
}

/// Converting twice in the same direction is the same as converting once.
pub proof fn law_case_conversion_idempotent(s: Seq<char>)
    ensures
        upper_text(upper_text(s)) == upper_text(s),
        lower_text(lower_text(s)) == lower_text(s),
{
    assert(upper_text(upper_text(s)) =~= upper_text(s));
    assert(lower_text(lower_text(s)) =~= lower_text(s));
}

/// Encoding a concatenation gives the concatenation of the encodings: each
/// byte becomes its own two digits.
pub proof fn law_encoding_concat(b1: Seq<u8>, b2: Seq<u8>, upper: bool)
    ensures
        hex_text(b1 + b2, upper) == hex_text(b1, upper) + hex_text(b2, upper),
{
    let l = hex_text(b1 + b2, upper);
    let r = hex_text(b1, upper) + hex_text(b2, upper);
    assert forall|i: int| 0 <= i < l.len() implies #[trigger] l[i] == r[i] by {
        if i >= 2 * b1.len() {
            let k = i - 2 * b1.len();
            assert((i / 2) == b1.len() + k / 2);
            assert(i % 2 == k % 2);
        }
    }
    assert(l =~= r);
}

/// The digit of a case whose value is `digit_value(c)` is `c` itself.
proof fn lemma_digit_canonical(c: char, upper: bool)
    requires
        is_digit_of(c, upper),
    ensures
        0 <= digit_value(c) < 16,
        nibble_char(digit_value(c), upper) == c,
{
}

/// Valid text of a case is the encoding, in that case, of the bytes it
/// decodes to: re-encoding decoded text gives the text back.
pub proof fn law_reencode(s: Seq<char>, upper: bool)
    requires
        is_hex_of(s, upper),
    ensures
        hex_text(bytes_of(s), upper) == s,
{
    let b = bytes_of(s);
    let e = hex_text(b, upper);
    assert forall|i: int| 0 <= i < s.len() implies #[trigger] e[i] == s[i] by {
        let k = i / 2;
        let hi = s[2 * k];
        let lo = s[2 * k + 1];
        assert(is_digit_of(hi, upper));
        assert(is_digit_of(lo, upper));
        lemma_digit_canonical(hi, upper);
        lemma_digit_canonical(lo, upper);
        let x = digit_value(hi);
        let y = digit_value(lo);
        assert(b[k] == (16 * x + y) as u8);
        assert(0 <= 16 * x + y < 256) by (nonlinear_arith)
            requires
                0 <= x < 16,
                0 <= y < 16,
        ;
        assert((16 * x + y) / 16 == x && (16 * x + y) % 16 == y) by (nonlinear_arith)
            requires
                0 <= x < 16,
                0 <= y < 16,
        ;
    }
    assert(e =~= s);
}

/// Changing the case of valid text does not change the bytes it decodes to.
pub proof fn law_case_conversion_keeps_bytes(s: Seq<char>)
    ensures
        is_hex_of(s, false) ==> bytes_of(upper_text(s)) == bytes_of(s),
        is_hex_of(s, true) ==> bytes_of(lower_text(s)) == bytes_of(s),
{
    if is_hex_of(s, false) {
        assert forall|i: int| 0 <= i < s.len() implies #[trigger] digit_value(upper_text(s)[i])
            == digit_value(s[i]) by {
            assert(is_digit_of(s[i], false));
        }
        assert(bytes_of(upper_text(s)) =~= bytes_of(s));
    }
    if is_hex_of(s, true) {
        assert forall|i: int| 0 <= i < s.len() implies #[trigger] digit_value(lower_text(s)[i])
            == digit_value(s[i]) by {
            assert(is_digit_of(s[i], true));
        }
        assert(bytes_of(lower_text(s)) =~= bytes_of(s));
    }
}

} // verus!
