use std::cmp::Ordering;
use std::collections::HashMap;

use keramics::ucs2_string::Ucs2String;

/// Lower to upper case mappings of the ASCII letters.
fn ascii_case_mappings() -> HashMap<u16, u16> {
    (0x0061u16..=0x007a).map(|code_point| (code_point, code_point - 0x20)).collect()
}

#[test]
fn ucs2_string_test_new_with_case_folding() {
    let ucs2_string: Ucs2String = Ucs2String::from("UCS-2 string");

    let case_folding_mappings: HashMap<u16, u16> = ascii_case_mappings();

    let test_string: Ucs2String = ucs2_string.new_with_case_folding(&case_folding_mappings);

    assert_eq!(
        test_string,
        Ucs2String {
            elements: vec![
                0x0055, 0x0043, 0x0053, 0x002d, 0x0032, 0x0020, 0x0053, 0x0054, 0x0052, 0x0049,
                0x004e, 0x0047,
            ],
        }
    );
}

#[test]
fn ucs2_string_test_from_be_bytes() {
    let test_data: [u8; 28] = [
        0x00, 0x55, 0x00, 0x43, 0x00, 0x53, 0x00, 0x2d, 0x00, 0x32, 0x00, 0x20, 0x00, 0x73, 0x00,
        0x74, 0x00, 0x72, 0x00, 0x69, 0x00, 0x6e, 0x00, 0x67, 0x00, 0x00, 0x00, 0x00,
    ];
    let ucs2_string: Ucs2String = Ucs2String::from_be_bytes(&test_data);

    assert_eq!(
        ucs2_string,
        Ucs2String {
            elements: vec![
                0x0055, 0x0043, 0x0053, 0x002d, 0x0032, 0x0020, 0x0073, 0x0074, 0x0072, 0x0069,
                0x006e, 0x0067,
            ],
        }
    );
}

#[test]
fn ucs2_string_test_from_le_bytes() {
    let test_data: [u8; 28] = [
        0x55, 0x00, 0x43, 0x00, 0x53, 0x00, 0x2d, 0x00, 0x32, 0x00, 0x20, 0x00, 0x73, 0x00, 0x74,
        0x00, 0x72, 0x00, 0x69, 0x00, 0x6e, 0x00, 0x67, 0x00, 0x00, 0x00, 0x00, 0x00,
    ];
    let ucs2_string: Ucs2String = Ucs2String::from_le_bytes(&test_data);

    assert_eq!(
        ucs2_string,
        Ucs2String {
            elements: vec![
                0x0055, 0x0043, 0x0053, 0x002d, 0x0032, 0x0020, 0x0073, 0x0074, 0x0072, 0x0069,
                0x006e, 0x0067,
            ],
        }
    );
}

#[test]
fn test_from_string_with_case_folding() {
    let case_folding_mappings: HashMap<u16, u16> = ascii_case_mappings();

    let ucs2_string: Ucs2String =
        Ucs2String::from_string_with_case_folding("UCS-2 string", &case_folding_mappings);

    assert_eq!(
        ucs2_string,
        Ucs2String {
            elements: vec![
                0x0055, 0x0043, 0x0053, 0x002d, 0x0032, 0x0020, 0x0053, 0x0054, 0x0052, 0x0049,
                0x004e, 0x0047,
            ],
        }
    );
}

#[test]
fn ucs2_string_test_is_empty() {
    let ucs2_string: Ucs2String = Ucs2String::new();
    assert!(ucs2_string.is_empty());

    let ucs2_string: Ucs2String = Ucs2String::from("UCS-2 string");
    assert!(!ucs2_string.is_empty());
}

#[test]
fn ucs2_string_test_len() {
    let ucs2_string: Ucs2String = Ucs2String::new();
    assert_eq!(ucs2_string.len(), 0);

    let ucs2_string: Ucs2String = Ucs2String::from("UCS-2 string");
    assert_eq!(ucs2_string.len(), 12);
}

#[test]
fn ucs2_string_test_from_u16_slice() {
    let test_data: [u16; 14] = [
        0x0055, 0x0043, 0x0053, 0x002d, 0x0032, 0x0020, 0x0073, 0x0074, 0x0072, 0x0069, 0x006e,
        0x0067, 0x0000, 0x0000,
    ];
    let ucs2_string: Ucs2String = Ucs2String::from(test_data.as_slice());

    assert_eq!(
        ucs2_string,
        Ucs2String {
            elements: vec![
                0x0055, 0x0043, 0x0053, 0x002d, 0x0032, 0x0020, 0x0073, 0x0074, 0x0072, 0x0069,
                0x006e, 0x0067,
            ],
        }
    );
}

#[test]
fn ucs2_string_test_from_str() {
    let ucs2_string: Ucs2String = Ucs2String::from("UCS-2 string");

    assert_eq!(
        ucs2_string,
        Ucs2String {
            elements: vec![
                0x0055, 0x0043, 0x0053, 0x002d, 0x0032, 0x0020, 0x0073, 0x0074, 0x0072, 0x0069,
                0x006e, 0x0067,
            ],
        }
    );
}

#[test]
fn ucs2_string_test_from_string() {
    let test_string: String = String::from("UCS-2 string");
    let ucs2_string: Ucs2String = Ucs2String::from(&test_string);

    assert_eq!(
        ucs2_string,
        Ucs2String {
            elements: vec![
                0x0055, 0x0043, 0x0053, 0x002d, 0x0032, 0x0020, 0x0073, 0x0074, 0x0072, 0x0069,
                0x006e, 0x0067,
            ],
        }
    );
}

#[test]
fn ucs2_string_test_eq_u16_slice() {
    let ucs2_string: Ucs2String = Ucs2String::from("UCS-2 string");

    let test_array: [u16; 12] = [
        0x0055, 0x0043, 0x0053, 0x002d, 0x0032, 0x0020, 0x0073, 0x0074, 0x0072, 0x0069, 0x006e,
        0x0067,
    ];
    assert!(ucs2_string.eq(&test_array.as_slice()));
}

#[test]
fn ucs2_string_test_eq_str() {
    let ucs2_string: Ucs2String = Ucs2String::from("UCS-2 string");

    assert!(ucs2_string.eq("UCS-2 string"));
    assert!(ucs2_string.eq(&"UCS-2 string"));
}

#[test]
fn test_compare() {
    let ucs2_string: Ucs2String = Ucs2String::from("string1");

    let compare_ucs2_string: Ucs2String = Ucs2String::from("STRING1");
    assert_eq!(ucs2_string.compare(&compare_ucs2_string), Ordering::Greater);

    let compare_ucs2_string: Ucs2String = Ucs2String::from("string0");
    assert_eq!(ucs2_string.compare(&compare_ucs2_string), Ordering::Greater);

    let compare_ucs2_string: Ucs2String = Ucs2String::from("string1");
    assert_eq!(ucs2_string.compare(&compare_ucs2_string), Ordering::Equal);

    let compare_ucs2_string: Ucs2String = Ucs2String::from("string2");
    assert_eq!(ucs2_string.compare(&compare_ucs2_string), Ordering::Less);

    let compare_ucs2_string: Ucs2String = Ucs2String::from("string");
    assert_eq!(ucs2_string.compare(&compare_ucs2_string), Ordering::Greater);

    let compare_ucs2_string: Ucs2String = Ucs2String::from("string10");
    assert_eq!(ucs2_string.compare(&compare_ucs2_string), Ordering::Less);
}

#[test]
fn ucs2_string_test_read_data_le() {
    let mut ucs2_string: Ucs2String = Ucs2String::from("UCS");
    let test_data: [u8; 7] = [0x2d, 0x00, 0x32, 0x00, 0x00, 0x00, 0x41];
    ucs2_string.read_data_le(&test_data);
    assert!(ucs2_string.eq("UCS-2"));
}

#[test]
fn ucs2_string_test_from_odd_bytes() {
    let test_data: [u8; 5] = [0x00, 0x41, 0x00, 0x00, 0x42];
    let ucs2_string: Ucs2String = Ucs2String::from_be_bytes(&test_data);
    assert_eq!(ucs2_string.elements, vec![0x0041]);
}

#[test]
fn ucs2_string_test_supplementary_characters() {
    let ucs2_string: Ucs2String =
        Ucs2String::from_string_with_case_folding("a\u{1f600}", &ascii_case_mappings());
    assert_eq!(ucs2_string.elements, vec![0x0041, 0xd83d, 0xde00]);
    assert_eq!(ucs2_string.decode(), vec![0x0041, 0xd83d, 0xde00]);
}

#[test]
fn test_case_folding_without_mappings_is_plain_encoding() {
    let text: &str = "Case \u{1f600} folding";
    assert_eq!(
        Ucs2String::from_string_with_case_folding(text, &HashMap::new()),
        Ucs2String::from(text)
    );
}

#[test]
fn test_case_folding_is_folded_encoding() {
    let text: &str = "Case folding";
    let mappings: HashMap<u16, u16> = ascii_case_mappings();
    assert_eq!(
        Ucs2String::from_string_with_case_folding(text, &mappings),
        Ucs2String::from(text).new_with_case_folding(&mappings)
    );
}

#[test]
fn ucs2_string_test_to_string() {
    let ucs2_string: Ucs2String = Ucs2String {
        elements: vec![
            0x0055, 0x0043, 0x0053, 0x002d, 0x0032, 0x0020, 0x0073, 0x0074, 0x0072, 0x0069,
            0x006e, 0x0067,
        ],
    };

    let string: String = ucs2_string.to_string();
    assert_eq!(string, "UCS-2 string");

    let ucs2_string: Ucs2String = Ucs2String {
        elements: vec![
            0x0055, 0x0043, 0x0053, 0x002d, 0xd800, 0x0020, 0x0073, 0x0074, 0x0072, 0x0069,
            0x006e, 0x0067,
        ],
    };

    let string: String = ucs2_string.to_string();
    assert_eq!(string, "UCS-\\{d800} string");
}
