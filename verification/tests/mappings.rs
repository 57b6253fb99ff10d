use rotmg::mappings::{HexError, Mappings, RC4KeyError, RC4_LEN};
use rotmg::packets::definitions::{PacketType, NUM_TYPES};

const KEY: &str = "6a39570cc9de4ec71d64821894c79332b197f92ba85ed281a023";

fn table() -> Mappings {
    Mappings::new(
        vec![(9, PacketType::Hello), (42, PacketType::Ping), (0, PacketType::Failure)],
        KEY,
    )
    .unwrap()
}

#[test]
fn identifiers_and_kinds_are_looked_up_both_ways() {
    let m = table();
    assert_eq!(m.to_internal(9), Some(PacketType::Hello));
    assert_eq!(m.to_internal(42), Some(PacketType::Ping));
    assert_eq!(m.to_internal(0), Some(PacketType::Failure));
    assert_eq!(m.to_internal(1), None);
    assert_eq!(m.to_game(PacketType::Hello), Some(9));
    assert_eq!(m.to_game(PacketType::Ping), Some(42));
    assert_eq!(m.to_game(PacketType::Pong), None);
    assert_eq!(m.get_map().len(), 3);
    assert_eq!(m.get_map().get_by_left(&9), Some(&PacketType::Hello.to_byte()));
}

#[test]
fn the_key_material_is_26_bytes_from_52_digits() {
    let m = table();
    assert_eq!(RC4_LEN, 26);
    assert_eq!(m.rc4().len(), 26);
    assert_eq!(&m.rc4()[..4], &[0x6a, 0x39, 0x57, 0x0c]);
    assert_eq!(m.rc4()[25], 0x23);
    let upper = Mappings::new(vec![], &KEY.to_uppercase()).unwrap();
    assert_eq!(upper.rc4(), m.rc4());
    let mixed = Mappings::new(vec![], "6A39570cc9de4ec71d64821894c79332b197f92ba85ed281a0Ff").unwrap();
    assert_eq!(mixed.rc4()[25], 0xff);
}

#[test]
fn key_material_that_is_not_hexadecimal_is_refused() {
    match Mappings::new(vec![], "zz") {
        Err(RC4KeyError::InvalidRC4Hex(text, e)) => {
            assert_eq!(text, "zz");
            assert_eq!(e, HexError::InvalidHexCharacter { c: 'z', index: 0 });
        }
        other => panic!("unexpected {:?}", other.map(|_| ())),
    }
    match Mappings::new(vec![], "0g") {
        Err(RC4KeyError::InvalidRC4Hex(_, e)) => {
            assert_eq!(e, HexError::InvalidHexCharacter { c: 'g', index: 1 });
        }
        other => panic!("unexpected {:?}", other.map(|_| ())),
    }
    match Mappings::new(vec![], "abc") {
        Err(RC4KeyError::InvalidRC4Hex(text, e)) => {
            assert_eq!(text, "abc");
            assert_eq!(e, HexError::OddLength);
        }
        other => panic!("unexpected {:?}", other.map(|_| ())),
    }
    match Mappings::new(vec![], "xyz") {
        Err(RC4KeyError::InvalidRC4Hex(_, e)) => assert_eq!(e, HexError::OddLength),
        other => panic!("unexpected {:?}", other.map(|_| ())),
    }
}

#[test]
fn key_material_of_the_wrong_length_is_refused() {
    match Mappings::new(vec![], "0011") {
        Err(RC4KeyError::InvalidRC4Len(text, len)) => {
            assert_eq!(text, "0011");
            assert_eq!(len, 2);
        }
        other => panic!("unexpected {:?}", other.map(|_| ())),
    }
    match Mappings::new(vec![], "") {
        Err(RC4KeyError::InvalidRC4Len(_, len)) => assert_eq!(len, 0),
        other => panic!("unexpected {:?}", other.map(|_| ())),
    }
    let long = format!("{}00", KEY);
    match Mappings::new(vec![], &long) {
        Err(RC4KeyError::InvalidRC4Len(_, len)) => assert_eq!(len, 27),
        other => panic!("unexpected {:?}", other.map(|_| ())),
    }
}

#[test]
fn the_unmapped_kinds_are_all_kinds_but_the_mapped_ones() {
    let m = table();
    let unmapped = m.find_unmapped();
    assert_eq!(unmapped.len(), NUM_TYPES - 3);
    for kind in PacketType::get_all_types() {
        let mapped = m.to_game(kind).is_some();
        assert_eq!(unmapped.contains(&kind), !mapped);
    }
    for pair in unmapped.windows(2) {
        assert!(pair[0].to_byte() < pair[1].to_byte());
    }
    let empty = Mappings::new(vec![], KEY).unwrap();
    assert_eq!(empty.find_unmapped(), PacketType::get_all_types());
    let all: Vec<(u8, PacketType)> = PacketType::get_all_types()
        .into_iter()
        .map(|k| (k.to_byte() + 100, k))
        .collect();
    let full = Mappings::new(all, KEY).unwrap();
    assert!(full.find_unmapped().is_empty());
    assert_eq!(full.to_internal(100), Some(PacketType::AcceptTrade));
}

#[test]
fn a_later_pair_takes_the_place_of_earlier_ones() {
    let m = Mappings::new(
        vec![
            (1, PacketType::Hello),
            (2, PacketType::Ping),
            (1, PacketType::Pong),
            (3, PacketType::Ping),
            (3, PacketType::Pong),
        ],
        KEY,
    )
    .unwrap();
    assert_eq!(m.to_internal(1), None);
    assert_eq!(m.to_internal(2), None);
    assert_eq!(m.to_internal(3), Some(PacketType::Pong));
    assert_eq!(m.to_game(PacketType::Hello), None);
    assert_eq!(m.to_game(PacketType::Ping), None);
    assert_eq!(m.to_game(PacketType::Pong), Some(3));
    assert_eq!(m.get_map().len(), 1);
    assert_eq!(m.find_unmapped().len(), NUM_TYPES - 1);
}

#[test]
fn the_two_ciphers_use_the_two_halves_of_the_key() {
    let m = table();
    let (mut first, mut second) = m.get_ciphers();
    let mut a = vec![0u8; 8];
    let mut b = vec![0u8; 8];
    first.process(&mut a);
    second.process(&mut b);
    let mut c = vec![0u8; 8];
    rotmg::rc4::Rc4::new(&m.rc4()[..13]).process(&mut c);
    let mut d = vec![0u8; 8];
    rotmg::rc4::Rc4::new(&m.rc4()[13..]).process(&mut d);
    assert_eq!(a, c);
    assert_eq!(b, d);
    assert_ne!(a, b);
}
