use rotmg::data::hex::{deserialize, serialize};
use rotmg::data::parameters::Parameters;
use rotmg::data::xml::{Object, ObjectClass, Texture};

#[test]
fn numbers_are_written_in_lower_case_hexadecimal() {
    assert_eq!(serialize(0), "0x0");
    assert_eq!(serialize(9), "0x9");
    assert_eq!(serialize(10), "0xa");
    assert_eq!(serialize(255), "0xff");
    assert_eq!(serialize(0x300), "0x300");
    assert_eq!(serialize(0xdead_beef), "0xdeadbeef");
    assert_eq!(serialize(u32::MAX), "0xffffffff");
    for v in [1u32, 15, 16, 17, 4095, 4096, 65535, 65536, 0x0123_4567, 0x89ab_cdef] {
        assert_eq!(serialize(v), format!("0x{:x}", v));
    }
}

#[test]
fn numbers_are_read_with_or_without_prefix() {
    assert_eq!(deserialize("0x10"), Some(16));
    assert_eq!(deserialize("10"), Some(16));
    assert_eq!(deserialize("0x0x10"), Some(16));
    assert_eq!(deserialize("+ff"), Some(255));
    assert_eq!(deserialize("0x+ff"), Some(255));
    assert_eq!(deserialize("FF"), Some(255));
    assert_eq!(deserialize("ffffffff"), Some(u32::MAX));
    assert_eq!(deserialize("0x00000000ffffffff"), Some(u32::MAX));
    assert_eq!(deserialize("0"), Some(0));
    assert_eq!(deserialize("0x0"), Some(0));
}

#[test]
fn texts_that_are_no_numbers_are_refused() {
    for bad in [
        "", "0x", "0xg", "100000000", "0X10", "-1", "+", "1 ", " 1", "ff.", "é", "0x+", "++1",
        "fffffffff", "+0x10",
    ] {
        assert_eq!(deserialize(bad), None, "{:?}", bad);
    }
}

#[test]
fn reading_agrees_with_the_standard_library() {
    for text in [
        "", "0", "0x", "0x0", "0x0x", "0x0x1", "x", "0x1x", "12345678", "123456789", "+", "+0",
        "+0x", "abcdef", "ABCDEF", "aBcDeF01", "0xdeadbeef", "deadbeef0", "g", "0g", "00000000001",
        "0x-1", "٣", "1٣",
    ] {
        let expected = u32::from_str_radix(text.trim_start_matches("0x"), 16).ok();
        assert_eq!(deserialize(text), expected, "{:?}", text);
    }
}

#[test]
fn what_is_written_is_read_back() {
    for v in [0u32, 1, 0xabc, 0x8000_0000, u32::MAX] {
        assert_eq!(deserialize(&serialize(v)), Some(v));
    }
}

#[test]
fn the_data_types_hold_their_fields() {
    let texture = Texture { file: "lofiObj".to_owned(), index: 0x2a };
    let object = Object {
        typ: 0x0300,
        id: "Pirate".to_owned(),
        class: ObjectClass::Character,
        texture: texture.clone(),
        size: 100,
        shadow_size: None,
        enemy: true,
        invincible: false,
        flying: false,
    };
    assert_eq!(object.clone(), object);
    assert_eq!(object.texture, texture);
    assert_ne!(ObjectClass::Wall, ObjectClass::Portal);
    let p = Parameters {
        version: "X31.2".to_owned(),
        port: 2050,
        tutorial_gameid: -1,
        nexus_gameid: -2,
        random_gameid: -3,
    };
    assert_eq!(p.clone(), p);
}
