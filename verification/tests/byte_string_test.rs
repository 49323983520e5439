use keramics::byte_string::{
    encodes_within_encoder_tables, is_utf8_character_encoding, ByteString, ByteStringError,
};
use keramics::ucs2_string::Ucs2String;
use keramics::utf16_string::Utf16String;
use keramics_encodings::CharacterEncoding;

#[test]
fn test_decode() {
    let byte_string: ByteString = ByteString::from("ASCII string");

    let code_points: Vec<u32> = byte_string.decode().unwrap();
    assert_eq!(
        code_points,
        vec![0x41, 0x53, 0x43, 0x49, 0x49, 0x20, 0x73, 0x74, 0x72, 0x69, 0x6e, 0x67]
    );
}

#[test]
fn test_encode() {
    let byte_string: ByteString = ByteString::from("ASCII string");

    let test_byte_string: ByteString = byte_string.encode(&CharacterEncoding::Iso8859_1).unwrap();
    assert_eq!(
        test_byte_string,
        ByteString {
            encoding: CharacterEncoding::Iso8859_1,
            elements: vec![0x41, 0x53, 0x43, 0x49, 0x49, 0x20, 0x73, 0x74, 0x72, 0x69, 0x6e, 0x67]
        }
    );
}

#[test]
fn test_extend() {
    let mut byte_string: ByteString = ByteString::from("ASCII");

    byte_string.extend(&ByteString::from(" string")).unwrap();
    assert_eq!(
        byte_string,
        ByteString {
            encoding: CharacterEncoding::Utf8,
            elements: vec![0x41, 0x53, 0x43, 0x49, 0x49, 0x20, 0x73, 0x74, 0x72, 0x69, 0x6e, 0x67]
        }
    );

    let mut byte_string: ByteString =
        ByteString::from_string_with_encoding(&CharacterEncoding::Iso8859_1, "ASCII").unwrap();

    byte_string.extend(&ByteString::from(" string")).unwrap();
    assert_eq!(
        byte_string,
        ByteString {
            encoding: CharacterEncoding::Iso8859_1,
            elements: vec![0x41, 0x53, 0x43, 0x49, 0x49, 0x20, 0x73, 0x74, 0x72, 0x69, 0x6e, 0x67]
        }
    );
}

#[test]
fn test_extend_from_codepoints() {
    let mut byte_string: ByteString =
        ByteString::from_string_with_encoding(&CharacterEncoding::Iso8859_1, "ASCII").unwrap();

    byte_string
        .extend_from_codepoints(&[0x20, 0x73, 0x74, 0x72, 0x69, 0x6e, 0x67])
        .unwrap();
    assert_eq!(
        byte_string,
        ByteString {
            encoding: CharacterEncoding::Iso8859_1,
            elements: vec![0x41, 0x53, 0x43, 0x49, 0x49, 0x20, 0x73, 0x74, 0x72, 0x69, 0x6e, 0x67]
        }
    );
}

#[test]
fn test_from_string_with_encoding() {
    let byte_string: ByteString =
        ByteString::from_string_with_encoding(&CharacterEncoding::Utf8, "ASCII string").unwrap();

    assert_eq!(
        byte_string,
        ByteString {
            encoding: CharacterEncoding::Utf8,
            elements: vec![0x41, 0x53, 0x43, 0x49, 0x49, 0x20, 0x73, 0x74, 0x72, 0x69, 0x6e, 0x67]
        }
    );

    let byte_string: ByteString =
        ByteString::from_string_with_encoding(&CharacterEncoding::Iso8859_1, "ASCII string")
            .unwrap();

    assert_eq!(
        byte_string,
        ByteString {
            encoding: CharacterEncoding::Iso8859_1,
            elements: vec![0x41, 0x53, 0x43, 0x49, 0x49, 0x20, 0x73, 0x74, 0x72, 0x69, 0x6e, 0x67]
        }
    );
}

#[test]
fn byte_string_test_is_empty() {
    let byte_string: ByteString = ByteString::new();
    assert_eq!(byte_string.is_empty(), true);

    let byte_string: ByteString = ByteString::from("ASCII string");
    assert_eq!(byte_string.is_empty(), false);
}

#[test]
fn byte_string_test_len() {
    let byte_string: ByteString = ByteString::new();
    assert_eq!(byte_string.len(), 0);

    let byte_string: ByteString = ByteString::from("ASCII string");
    assert_eq!(byte_string.len(), 12);
}

#[test]
fn test_read_data() {
    let mut byte_string: ByteString = ByteString::new();
    assert_eq!(
        byte_string,
        ByteString {
            encoding: CharacterEncoding::Utf8,
            elements: vec![],
        }
    );

    let test_data: [u8; 14] = [
        0x41, 0x53, 0x43, 0x49, 0x49, 0x20, 0x73, 0x74, 0x72, 0x69, 0x6e, 0x67, 0x00, 0x00,
    ];
    byte_string.read_data(&test_data);
    assert_eq!(
        byte_string,
        ByteString {
            encoding: CharacterEncoding::Utf8,
            elements: vec![0x41, 0x53, 0x43, 0x49, 0x49, 0x20, 0x73, 0x74, 0x72, 0x69, 0x6e, 0x67],
        }
    );
}

#[test]
fn test_from_u8_slice() {
    let test_data: [u8; 14] = [
        0x41, 0x53, 0x43, 0x49, 0x49, 0x20, 0x73, 0x74, 0x72, 0x69, 0x6e, 0x67, 0x00, 0x00,
    ];
    let byte_string: ByteString = ByteString::from(test_data.as_slice());

    assert_eq!(
        byte_string,
        ByteString {
            encoding: CharacterEncoding::Utf8,
            elements: vec![0x41, 0x53, 0x43, 0x49, 0x49, 0x20, 0x73, 0x74, 0x72, 0x69, 0x6e, 0x67]
        }
    );
}

#[test]
fn byte_string_test_from_str() {
    let byte_string: ByteString = ByteString::from("ASCII string");

    assert_eq!(
        byte_string,
        ByteString {
            encoding: CharacterEncoding::Utf8,
            elements: vec![0x41, 0x53, 0x43, 0x49, 0x49, 0x20, 0x73, 0x74, 0x72, 0x69, 0x6e, 0x67]
        }
    );
}

#[test]
fn byte_string_test_from_string() {
    let test_string: String = String::from("ASCII string");
    let byte_string: ByteString = ByteString::from(&test_string);

    assert_eq!(
        byte_string,
        ByteString {
            encoding: CharacterEncoding::Utf8,
            elements: vec![0x41, 0x53, 0x43, 0x49, 0x49, 0x20, 0x73, 0x74, 0x72, 0x69, 0x6e, 0x67]
        }
    );
}

#[test]
fn test_eq_u8_slice() {
    let byte_string: ByteString = ByteString::from("ASCII string");

    let test_array: [u8; 12] = [
        0x41, 0x53, 0x43, 0x49, 0x49, 0x20, 0x73, 0x74, 0x72, 0x69, 0x6e, 0x67,
    ];
    assert!(byte_string.eq(&test_array.as_slice()));
}

#[test]
fn byte_string_test_eq_str() {
    let byte_string: ByteString = ByteString::from("ASCII string");

    assert!(byte_string.eq("ASCII string"));
    assert!(byte_string.eq(&"ASCII string"));
}

#[test]
fn byte_string_test_to_string() {
    let byte_string: ByteString = ByteString {
        encoding: CharacterEncoding::Iso8859_1,
        elements: vec![0x41, 0x53, 0x43, 0x49, 0x49, 0x20, 0x73, 0x74, 0x72, 0x69, 0x6e, 0x67],
    };

    let string: String = byte_string.to_string();
    assert_eq!(string, "ASCII string");
}

#[test]
fn test_byte_string_to_string_escapes() {
    let byte_string: ByteString = ByteString::from("a\\b");
    assert_eq!(byte_string.to_string(), "a\\\\b");
}

#[test]
fn test_byte_string_from_str_stops_at_zero() {
    let byte_string: ByteString = ByteString::from("ab\0cd");
    assert_eq!(byte_string.len(), 2);
    assert!(byte_string.eq("ab"));
}

#[test]
fn test_byte_string_encode_same_encoding() {
    let byte_string: ByteString = ByteString::from("same");
    let copy: ByteString = byte_string.encode(&CharacterEncoding::Utf8).unwrap();
    assert_eq!(copy, byte_string);
}

#[test]
fn test_byte_string_unable_to_encode() {
    let result: Result<ByteString, ByteStringError> =
        ByteString::from_string_with_encoding(&CharacterEncoding::Ascii, "caf\u{e9}");
    assert_eq!(result.err(), Some(ByteStringError::UnableToEncode));

    let mut byte_string: ByteString =
        ByteString::new_with_encoding(&CharacterEncoding::Ascii);
    assert_eq!(
        byte_string.extend_from_codepoints(&[0x61, 0xe9, 0x62]),
        Err(ByteStringError::UnableToEncode)
    );
    assert!(byte_string.eq("a"));
}

#[test]
fn test_byte_string_from_ucs2_and_utf16() {
    let ucs2_string: Ucs2String = Ucs2String::from("text");
    let byte_string: ByteString =
        ByteString::from_ucs2_string_with_encoding(&CharacterEncoding::Iso8859_1, &ucs2_string)
            .unwrap();
    assert!(byte_string.eq("text"));

    let utf16_string: Utf16String = Utf16String::from("text");
    let byte_string: ByteString =
        ByteString::from_utf16_string_with_encoding(&CharacterEncoding::Iso8859_1, &utf16_string)
            .unwrap();
    assert!(byte_string.eq("text"));

    let broken: Utf16String = Utf16String::from(&[0xd800u16, 0x0041][..]);
    assert_eq!(
        ByteString::from_utf16_string_with_encoding(&CharacterEncoding::Iso8859_1, &broken).err(),
        Some(ByteStringError::UnableToDecodeUtf16)
    );
}

#[test]
fn test_byte_string_decode_invalid_utf8() {
    let byte_string: ByteString = ByteString::from(&[0xffu8, 0xfe][..]);
    assert_eq!(byte_string.decode(), Err(ByteStringError::UnableToDecode));
    assert!(byte_string.has_character_decoder());
    assert!(!byte_string.has_character_encoder());
    assert!(!byte_string.to_string().is_empty());
}

#[test]
fn test_encodes_within_encoder_tables() {
    assert!(!encodes_within_encoder_tables(&CharacterEncoding::MacTurkish, &[0x41, 0x2039]));
    assert!(!encodes_within_encoder_tables(&CharacterEncoding::MacTurkish, &[0x2044]));
    assert!(encodes_within_encoder_tables(&CharacterEncoding::MacTurkish, &[0x41, 0x2020]));
    assert!(!encodes_within_encoder_tables(&CharacterEncoding::Windows949, &[0x33e0]));
    assert!(encodes_within_encoder_tables(&CharacterEncoding::Windows949, &[0x33df]));
    assert!(encodes_within_encoder_tables(&CharacterEncoding::Iso8859_1, &[0x2039, 0x33e0]));
}

#[test]
fn test_is_utf8_character_encoding() {
    assert!(is_utf8_character_encoding(&CharacterEncoding::Utf8));
    assert!(!is_utf8_character_encoding(&CharacterEncoding::Iso8859_1));
}
