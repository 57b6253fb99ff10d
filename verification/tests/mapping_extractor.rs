use rotmg::mapping_extractor::{extract_mappings, extract_packets, extract_rc4, MappingError};
use rotmg::mappings::RC4KeyError;
use rotmg::packets::definitions::{PacketType, NUM_TYPES};

const KEY: &str = "6a39570cc9de4ec71d64821894c79332b197f92ba85ed281a023";

fn found() -> Vec<(String, u8)> {
    vec![
        ("FAILURE".to_owned(), 0),
        ("CREATE_SUCCESS".to_owned(), 101),
        ("Player_Text".to_owned(), 9),
        ("NOT_A_PACKET".to_owned(), 1),
        ("failure".to_owned(), 2),
        ("HELLO".to_owned(), 30),
    ]
}

#[test]
fn constants_are_paired_with_the_kinds_of_their_names() {
    assert_eq!(
        extract_packets(&found()),
        vec![
            (0, PacketType::Failure),
            (101, PacketType::CreateSuccess),
            (9, PacketType::PlayerText),
            (30, PacketType::Hello),
        ]
    );
    assert!(extract_packets(&vec![]).is_empty());
}

#[test]
fn the_key_that_was_found_is_the_key() {
    assert_eq!(extract_rc4(Some("abc".to_owned())).unwrap(), "abc");
    assert!(matches!(extract_rc4(None), Err(MappingError::MissingRC4)));
}

#[test]
fn the_table_is_made_from_what_was_found() {
    let table = extract_mappings(Some(KEY.to_owned()), &found()).unwrap();
    assert_eq!(table.to_internal(9), Some(PacketType::PlayerText));
    assert_eq!(table.to_internal(2), None);
    assert_eq!(table.to_game(PacketType::Failure), Some(0));
    assert_eq!(table.find_unmapped().len(), NUM_TYPES - 4);
    assert_eq!(table.rc4()[1], 0x39);
    assert!(matches!(
        extract_mappings(None, &found()).map(|_| ()),
        Err(MappingError::MissingRC4)
    ));
    assert!(matches!(
        extract_mappings(Some("00".to_owned()), &found()).map(|_| ()),
        Err(MappingError::InvalidRC4(RC4KeyError::InvalidRC4Len(_, 1)))
    ));
    assert!(matches!(
        extract_mappings(Some("0".to_owned()), &found()).map(|_| ()),
        Err(MappingError::InvalidRC4(RC4KeyError::InvalidRC4Hex(_, _)))
    ));
}
