use keramics::uuid::{Uuid, UuidError};

#[test]
fn uuid_test_from_be_bytes() {
    let test_data: [u8; 16] = [
        0xb6, 0x1f, 0x53, 0xca, 0xa7, 0x86, 0x45, 0x28, 0x90, 0xe2, 0x55, 0xba, 0x79, 0x1a, 0x1c,
        0x4c,
    ];

    let uuid: Uuid = Uuid::from_be_bytes(&test_data);
    assert_eq!(
        uuid,
        Uuid {
            part1: 0xb61f53ca,
            part2: 0xa786,
            part3: 0x4528,
            part4: 0x90e2,
            part5: 0x55ba791a1c4c,
        }
    );
}

#[test]
fn uuid_test_from_le_bytes() {
    let test_data: [u8; 16] = [
        0xca, 0x53, 0x1f, 0xb6, 0x86, 0xa7, 0x28, 0x45, 0x90, 0xe2, 0x55, 0xba, 0x79, 0x1a, 0x1c,
        0x4c,
    ];

    let uuid: Uuid = Uuid::from_le_bytes(&test_data);
    assert_eq!(
        uuid,
        Uuid {
            part1: 0xb61f53ca,
            part2: 0xa786,
            part3: 0x4528,
            part4: 0x90e2,
            part5: 0x55ba791a1c4c,
        }
    );
}

#[test]
fn uuid_test_from_string() {
    let uuid: Uuid = Uuid::from_string("{b61f53ca-a786-4528-90e2-55ba791a1c4c}").unwrap();
    assert_eq!(
        uuid,
        Uuid {
            part1: 0xb61f53ca,
            part2: 0xa786,
            part3: 0x4528,
            part4: 0x90e2,
            part5: 0x55ba791a1c4c,
        }
    );
}

#[test]
fn uuid_test_from_string_errors() {
    assert_eq!(
        Uuid::from_string("b61f53ca-a786-4528-90e2-55ba791a1c4"),
        Err(UuidError::UnsupportedStringLength)
    );
    assert_eq!(
        Uuid::from_string("b61f53ca+a786-4528-90e2-55ba791a1c4c"),
        Err(UuidError::UnsupportedString)
    );
    assert_eq!(
        Uuid::from_string("b61f53cx-a786-4528-90e2-55ba791a1c4c"),
        Err(UuidError::UnableToParsePart(1))
    );
    assert_eq!(
        Uuid::from_string("b61f53ca-a786-4528-90e2-55ba791a1c4g"),
        Err(UuidError::UnableToParsePart(5))
    );
    assert_eq!(
        Uuid::from_string("B61F53CA-+786-4528-90E2-55BA791A1C4C"),
        Ok(Uuid { part1: 0xb61f53ca, part2: 0x786, part3: 0x4528, part4: 0x90e2, part5: 0x55ba791a1c4c })
    );
}

#[test]
fn test_is_max() {
    let uuid: Uuid = Uuid {
        part1: 0xffffffff,
        part2: 0xffff,
        part3: 0xffff,
        part4: 0xffff,
        part5: 0xffffffffffff,
    };
    assert_eq!(uuid.is_max(), true);
}

#[test]
fn test_is_not_max() {
    let uuid: Uuid = Uuid {
        part1: 0xb61f53ca,
        part2: 0xa786,
        part3: 0x4528,
        part4: 0x90e2,
        part5: 0x55ba791a1c4c,
    };
    assert_eq!(uuid.is_max(), false);
}

#[test]
fn test_is_nil() {
    let uuid: Uuid = Uuid::new();
    assert_eq!(uuid.is_nil(), true);
}

#[test]
fn test_is_not_nil() {
    let uuid: Uuid = Uuid {
        part1: 0xb61f53ca,
        part2: 0xa786,
        part3: 0x4528,
        part4: 0x90e2,
        part5: 0x55ba791a1c4c,
    };
    assert_eq!(uuid.is_nil(), false);
}

#[test]
fn uuid_test_to_string() {
    let uuid: Uuid = Uuid {
        part1: 0xb61f53ca,
        part2: 0xa786,
        part3: 0x4528,
        part4: 0x90e2,
        part5: 0x55ba791a1c4c,
    };

    let uuid_string: String = uuid.to_string();
    assert_eq!(uuid_string, "b61f53ca-a786-4528-90e2-55ba791a1c4c");

    let uuid: Uuid = Uuid { part1: 1, part2: 2, part3: 3, part4: 4, part5: 0x1_0000_0000_0000 };
    assert_eq!(uuid.to_string(), "00000001-0002-0003-0004-1000000000000");
}

#[test]
fn test_uuid_to_string_from_string_round_trip() {
    let uuids: [Uuid; 3] = [
        Uuid::new(),
        Uuid {
            part1: 0x2a4f8bd9,
            part2: 0x0c0e,
            part3: 0x4c5e,
            part4: 0x9a7d,
            part5: 0x00000000c0de,
        },
        Uuid {
            part1: 0xffffffff,
            part2: 0xffff,
            part3: 0xffff,
            part4: 0xffff,
            part5: 0xffffffffffff,
        },
    ];
    for uuid in uuids.iter() {
        let text: String = uuid.to_string();
        assert_eq!(Uuid::from_string(&text), Ok(*uuid));
        let braced: String = format!("{{{}}}", text);
        assert_eq!(Uuid::from_string(&braced), Ok(*uuid));
    }
    let too_long: Uuid = Uuid {
        part1: 0,
        part2: 0,
        part3: 0,
        part4: 0,
        part5: 0x1000000000000,
    };
    assert_eq!(
        Uuid::from_string(&too_long.to_string()),
        Err(UuidError::UnsupportedStringLength)
    );
}
