use std::convert::{TryFrom, TryInto};

use hexstring::{Case, Error, HexString, LowerHexString, UpperHexString};

#[test]
fn it_constructs_from_owned_str() {
    assert_eq!(
        LowerHexString::new(&"ab04ff".to_string()),
        Ok(LowerHexString::new_unchecked("ab04ff"))
    );
    assert_eq!(
        UpperHexString::new(&"AB04FF".to_string()),
        Ok(UpperHexString::new_unchecked("AB04FF"))
    );
}

#[test]
fn it_constructs_from_borrowed_str() {
    assert_eq!(
        LowerHexString::new("ab04ff"),
        Ok(LowerHexString::new_unchecked("ab04ff"))
    );
    assert_eq!(
        UpperHexString::new("AB04FF"),
        Ok(UpperHexString::new_unchecked("AB04FF"))
    );
}

#[test]
fn it_constructs_from_empty_str() {
    assert!(LowerHexString::new("").is_ok());
    assert!(UpperHexString::new("").is_ok());
}

#[test]
fn it_constructs_from_bytes() {
    assert_eq!(
        LowerHexString::from([42, 15, 5]),
        HexString::<false>::new_unchecked("2a0f05")
    );
    assert_eq!(
        UpperHexString::from([42, 15, 5]),
        HexString::<true>::new_unchecked("2A0F05")
    );
    assert_eq!(
        LowerHexString::from(vec![1, 2, 3, 4, 5]),
        HexString::<false>::new_unchecked("0102030405")
    );
    assert_eq!(
        UpperHexString::from(vec![1, 2, 3, 4, 5]),
        HexString::<true>::new_unchecked("0102030405")
    );
}

#[test]
fn it_rejects_str_with_odd_length() {
    assert_eq!(LowerHexString::new("abc"), Err(Error::OddLength));
    assert_eq!(UpperHexString::new("abcde"), Err(Error::OddLength));
}

#[test]
fn it_rejects_str_with_invalid_chars() {
    assert_eq!(
        LowerHexString::new("abcdZ109"),
        Err(Error::InvalidHexCharacter { c: 'Z', index: 4 })
    );
    assert_eq!(
        UpperHexString::new("ABVCD109"),
        Err(Error::InvalidHexCharacter { c: 'V', index: 2 })
    );
}

#[test]
fn it_constructs_from_unchecked_str() {
    let hex = LowerHexString::new_unchecked("0a0b0c0d0e");
    let bytes = Vec::from(hex);

    assert_eq!(&bytes[..], [10, 11, 12, 13, 14]);
}

#[test]
#[should_panic]
fn it_fails_to_convert_into_bytes_from_invalid_unchecked_str() {
    let hex = LowerHexString::new_unchecked("thisisnotvalid");
    let _ = Vec::from(hex);
}

#[test]
fn it_converts_into_bytes() {
    let hex = LowerHexString::new("2a1a02").unwrap();
    let bytes = Vec::from(hex);

    assert_eq!(&bytes[..], [42, 26, 2]);

    let hex = UpperHexString::new("2A1A02").unwrap();
    let bytes = Vec::from(hex);

    assert_eq!(&bytes[..], [42, 26, 2]);
}

#[test]
fn it_converts_into_fixed_array_of_bytes() {
    let bytes: [u8; 4] = LowerHexString::new("142a020a").unwrap().try_into().unwrap();

    assert_eq!(bytes, [20, 42, 2, 10]);

    let bytes: [u8; 5] = UpperHexString::new("142A020A0F")
        .unwrap()
        .try_into()
        .unwrap();

    assert_eq!(bytes, [20, 42, 2, 10, 15]);
}

#[test]
fn it_creates_upper_hex_str_from_lower_hex_str() {
    let s = "aabbccddee";
    let hex = LowerHexString::new(s).unwrap().to_uppercase();
    let expected_hex = HexString::<true>::new_unchecked("AABBCCDDEE");

    assert_ne!(s, hex.as_str());
    assert_eq!(hex, expected_hex);

    let hex = LowerHexString::new(&s.to_string()).unwrap().to_uppercase();

    assert_eq!(hex, expected_hex);
}

#[test]
fn it_creates_lower_hex_str_from_upper_str() {
    let s = "AABBCCDDEE";
    let hex = UpperHexString::new(s).unwrap().to_lowercase();
    let expected_hex = HexString::<false>::new_unchecked("aabbccddee");

    assert_ne!(s, hex.as_str());
    assert_eq!(hex, expected_hex);

    let hex = UpperHexString::new(&s.to_string()).unwrap().to_lowercase();

    assert_eq!(hex, expected_hex);
}

#[test]
fn round_trip_through_both_cases() {
    let bytes: Vec<u8> = vec![0, 1, 127, 128, 171, 255];
    let lower = LowerHexString::from_bytes(&bytes);
    assert_eq!(lower.as_str(), "00017f80abff");
    assert_eq!(lower.into_bytes(), bytes);
    let upper = UpperHexString::from_bytes(&bytes);
    assert_eq!(upper.as_str(), "00017F80ABFF");
    assert_eq!(upper.into_bytes(), bytes);
}

#[test]
fn round_trip_of_no_bytes() {
    let hex = LowerHexString::from_bytes(&[]);
    assert_eq!(hex.as_str(), "");
    assert_eq!(hex.into_bytes(), Vec::<u8>::new());
}

#[test]
fn fixed_size_round_trip_and_mismatch() {
    let bytes: [u8; 3] = [42, 15, 5];
    let exact: Result<[u8; 3], Error> = LowerHexString::from(bytes).try_into_array();
    assert_eq!(exact, Ok(bytes));
    let shorter: Result<[u8; 2], Error> = UpperHexString::from(bytes).try_into_array();
    assert_eq!(shorter, Err(Error::InvalidStringLength));
    let longer: Result<[u8; 4], Error> = LowerHexString::from(bytes).try_into();
    assert_eq!(longer, Err(Error::InvalidStringLength));
}

#[test]
fn lowercase_text_is_rejected_as_uppercase() {
    assert_eq!(
        UpperHexString::new("12ab"),
        Err(Error::InvalidHexCharacter { c: 'a', index: 2 })
    );
    assert_eq!(
        LowerHexString::new("0F0f"),
        Err(Error::InvalidHexCharacter { c: 'F', index: 1 })
    );
    assert!(LowerHexString::new("0123456789").is_ok());
    assert!(UpperHexString::new("0123456789").is_ok());
}

#[test]
fn odd_length_is_rejected_whatever_the_characters() {
    assert_eq!(LowerHexString::new("zz!"), Err(Error::OddLength));
    assert_eq!(UpperHexString::new("0"), Err(Error::OddLength));
    assert_eq!(LowerHexString::new("\u{e9}"), Err(Error::OddLength));
    assert_eq!(
        LowerHexString::new("\u{e9}\u{e9}"),
        Err(Error::InvalidHexCharacter { c: '\u{e9}', index: 0 })
    );
}

#[test]
fn rejects_separators_and_whitespace() {
    assert_eq!(
        UpperHexString::new("AB CD"),
        Err(Error::OddLength)
    );
    assert_eq!(
        UpperHexString::new("AB:CD:"),
        Err(Error::InvalidHexCharacter { c: ':', index: 2 })
    );
}

#[test]
fn empty_string_decodes_to_no_bytes() {
    assert_eq!(LowerHexString::new("").unwrap().into_bytes(), Vec::<u8>::new());
    assert_eq!(UpperHexString::new("").unwrap().into_bytes(), Vec::<u8>::new());
}

#[test]
fn case_conversion_round_trips() {
    let upper = UpperHexString::new("09AF3C").unwrap();
    let back = upper.clone().to_lowercase().to_uppercase();
    assert_eq!(back, upper);
    let lower = LowerHexString::new("09af3c").unwrap();
    assert_eq!(lower.clone().to_uppercase().to_lowercase(), lower);
    assert_eq!(lower.to_uppercase().as_str(), "09AF3C");
}

#[test]
fn case_and_default() {
    assert_eq!(LowerHexString::case(), Case::Lower);
    assert_eq!(UpperHexString::case(), Case::Upper);
    assert_eq!(LowerHexString::default().as_str(), "");
    assert_eq!(UpperHexString::default(), UpperHexString::new("").unwrap());
}

#[test]
fn plain_text_goes_through_validation() {
    assert_eq!(
        LowerHexString::try_from("abcd09".to_string()),
        Ok(LowerHexString::new_unchecked("abcd09"))
    );
    assert_eq!(
        LowerHexString::try_from("invalid hex str".to_string()),
        Err(Error::OddLength)
    );
    assert_eq!(
        UpperHexString::try_from("INVALID HEX STR!".to_string()),
        Err(Error::InvalidHexCharacter { c: 'I', index: 0 })
    );
}

#[test]
fn conversions_through_std_traits() {
    let bytes = Vec::from(LowerHexString::new("ab04ff").unwrap());
    assert_eq!(bytes, vec![0xAB, 0x04, 0xFF]);
    assert_eq!(LowerHexString::from(Vec::<u8>::new()).as_str(), "");
    assert_eq!(UpperHexString::from(Vec::<u8>::new()).as_str(), "");
    let three: Result<[u8; 3], Error> = LowerHexString::new("abcd").unwrap().try_into();
    assert_eq!(three, Err(Error::InvalidStringLength));
    let one: Result<[u8; 1], Error> = LowerHexString::new("abcd").unwrap().try_into();
    assert_eq!(one, Err(Error::InvalidStringLength));
    assert_eq!(
        UpperHexString::try_from("INVALID HEX STR".to_string()),
        Err(Error::OddLength)
    );
}

#[test]
fn encoding_concatenates_and_reencodes() {
    let whole = LowerHexString::from(vec![1u8, 171, 2, 255]);
    let first = LowerHexString::from(vec![1u8, 171]);
    let second = LowerHexString::from(vec![2u8, 255]);
    assert_eq!(
        whole.as_str(),
        format!("{}{}", first.as_str(), second.as_str())
    );
    let text = UpperHexString::new("00FFA1").unwrap();
    let again = UpperHexString::from(Vec::from(text.clone()));
    assert_eq!(again, text);
}

#[test]
fn case_conversion_keeps_decoded_bytes() {
    let lower = LowerHexString::new("c0ffee").unwrap();
    let bytes = Vec::from(lower.clone());
    assert_eq!(Vec::from(lower.to_uppercase()), bytes);
    assert_eq!(bytes, vec![0xC0, 0xFF, 0xEE]);
}
