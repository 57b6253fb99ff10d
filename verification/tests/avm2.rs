use rotmg::avm2::abcfile::AbcFile;
use rotmg::avm2::class::{Class, Instance};
use rotmg::avm2::constants::{
    ConstantPool, Multiname, MultinameKind, Namespace, NamespaceKind, NamespaceSet,
};
use rotmg::avm2::metadata::{Metadata, MetadataItem};
use rotmg::avm2::methods::{MethodInfo, OptionDetail, OptionDetailKind};
use rotmg::avm2::s24::S24;
use rotmg::avm2::traits::{ConstantKind, Trait, TraitKind, TraitSlot, TraitSlotValue};
use rotmg::avm2::{parse_counted, parse_many, FlagType, LinkError, Parse, ParseError};
use rotmg::cursor::Cursor;
use rotmg::ieee::F64;

#[test]
fn parsers_test_u32_parsing() {
    const CASES: &[(&[u8], u32)] = &[
        (&[0x9f, 0x14], 2591),
        (&[0x01], 1),
        (&[0x81, 0x4c], 9729),
        (&[0xf4, 0x05], 756),
    ];

    for case in CASES {
        let mut buffer = Cursor::new(&case.0[..]);
        assert_eq!(case.1, u32::parse_avm2(&mut buffer).unwrap());
        assert!(!buffer.has_remaining(), "no bytes should remain");
    }
}

#[test]
fn primitives_test_u32_parsing() {
    const CASES: &[(&[u8], u32)] = &[
        (&[0x9f, 0x14], 2591),
        (&[0x01], 1),
        (&[0x81, 0x4c], 9729),
        (&[0xf4, 0x05], 756),
    ];

    for case in CASES {
        let mut buffer = Cursor::new(&case.0[..]);
        assert_eq!(case.1, u32::parse_avm2(&mut buffer).unwrap());
        assert!(!buffer.has_remaining(), "no bytes should remain");
    }
}

#[test]
fn a_variable_length_integer_has_at_most_five_bytes() {
    let data = [0xff, 0xff, 0xff, 0xff, 0xff, 0x01];
    let mut cursor = Cursor::new(&data);
    assert_eq!(u32::parse_avm2(&mut cursor), Ok(0xffff_ffff));
    assert_eq!(cursor.remaining(), 1);
    let five = [0x80, 0x80, 0x80, 0x80, 0x08];
    assert_eq!(u32::parse_avm2(&mut Cursor::new(&five)), Ok(0x8000_0000));
    let cut = [0x80, 0x80, 0x80, 0x80, 0x10];
    assert_eq!(u32::parse_avm2(&mut Cursor::new(&cut)), Ok(0));
    assert_eq!(i32::parse_avm2(&mut Cursor::new(&data[..5])), Ok(-1));
    assert_eq!(i32::parse_avm2(&mut Cursor::new(&five)), Ok(i32::MIN));
    assert_eq!(i32::parse_avm2(&mut Cursor::new(&[0x7f])), Ok(127));
}

#[test]
fn a_variable_length_integer_that_is_cut_off_is_refused() {
    let empty: [u8; 0] = [];
    assert_eq!(
        u32::parse_avm2(&mut Cursor::new(&empty)),
        Err(ParseError::InsufficientBytes { remaining: 0, needed: 1 })
    );
    let data = [0x80, 0x80];
    let mut cursor = Cursor::new(&data);
    assert_eq!(
        u32::parse_avm2(&mut cursor),
        Err(ParseError::InsufficientBytes { remaining: 2, needed: 3 })
    );
    assert_eq!(cursor.remaining(), 2);
}

#[test]
fn raw_numbers_are_little_endian() {
    let data = [0x34, 0x12, 0x18, 0x2d, 0x44, 0x54, 0xfb, 0x21, 0x09, 0x40, 0x07];
    let mut cursor = Cursor::new(&data);
    assert_eq!(u16::parse_avm2(&mut cursor), Ok(0x1234));
    let pi = F64::parse_avm2(&mut cursor).unwrap();
    assert_eq!(f64::from_bits(pi.to_bits()), std::f64::consts::PI);
    assert_eq!(u8::parse_avm2(&mut cursor), Ok(7));
    assert_eq!(
        u8::parse_avm2(&mut cursor),
        Err(ParseError::InsufficientBytes { remaining: 0, needed: 1 })
    );
    assert_eq!(
        u16::parse_avm2(&mut Cursor::new(&[1])),
        Err(ParseError::InsufficientBytes { remaining: 1, needed: 2 })
    );
    assert_eq!(
        F64::parse_avm2(&mut Cursor::new(&[1, 2, 3])),
        Err(ParseError::InsufficientBytes { remaining: 3, needed: 8 })
    );
}

#[test]
fn strings_are_counted_utf8() {
    let data = [3, b'r', b'c', b'4', 2, 0xc3, 0xa9, 9];
    let mut cursor = Cursor::new(&data);
    assert_eq!(String::parse_avm2(&mut cursor), Ok("rc4".to_owned()));
    assert_eq!(String::parse_avm2(&mut cursor), Ok("é".to_owned()));
    assert_eq!(cursor.remaining(), 1);
    let bad = [2, 0xff, 0xff];
    assert_eq!(
        String::parse_avm2(&mut Cursor::new(&bad)),
        Err(ParseError::InvalidUtf8)
    );
    let short = [5, b'a', b'b'];
    let mut cut = Cursor::new(&short);
    assert_eq!(String::parse_avm2(&mut cut), Ok("ab".to_owned()));
    assert!(!cut.has_remaining());
}

#[test]
fn namespaces_and_their_kinds() {
    let data = [0x16, 0x05, 0x08, 0x00, 0x42, 0x01];
    let mut cursor = Cursor::new(&data);
    assert_eq!(
        Namespace::parse_avm2(&mut cursor),
        Ok(Namespace { kind: NamespaceKind::PackageNamespace, name_index: 5 })
    );
    assert_eq!(
        Namespace::parse_avm2(&mut cursor),
        Ok(Namespace { kind: NamespaceKind::Namespace, name_index: 0 })
    );
    assert_eq!(
        Namespace::parse_avm2(&mut cursor),
        Err(ParseError::InvalidFlag { byte: 0x42, flag_type: FlagType::NamespaceKind })
    );
    assert_eq!(cursor.remaining(), 1);
    for byte in [8u8, 5, 22, 23, 24, 25, 26] {
        let kind = NamespaceKind::from_u8(byte).unwrap();
        assert_eq!(kind.to_u8(), byte);
    }
    assert!(NamespaceKind::from_u8(0).is_err());
    assert_eq!(FlagType::NamespaceKind.name(), "NamespaceKind");
    assert_eq!(FlagType::TraitKind.name(), "TraitKind");
}

#[test]
fn every_flag_goes_back_to_its_byte() {
    for byte in 0..=255u8 {
        if let Ok(k) = MultinameKind::from_u8(byte) {
            assert_eq!(k.to_u8(), byte);
        }
        if let Ok(k) = OptionDetailKind::from_u8(byte) {
            assert_eq!(k.to_u8(), byte);
        }
        if let Ok(k) = TraitKind::from_u8(byte) {
            assert_eq!(k.to_u8(), byte);
            assert!(byte <= 6);
        }
        if let Ok(k) = ConstantKind::from_u8(byte) {
            assert_eq!(k.to_u8(), byte);
        }
    }
    assert_eq!(MultinameKind::QName.to_u8(), 0x07);
    assert_eq!(MultinameKind::Typename.to_u8(), 0x1d);
    assert_eq!(
        TraitKind::from_u8(7),
        Err(ParseError::InvalidFlag { byte: 7, flag_type: FlagType::TraitKind })
    );
}

#[test]
fn multinames_of_every_shape() {
    let data = [
        0x07, 1, 2, 0x0f, 3, 0x11, 0x09, 4, 5, 0x1b, 6, 0x1d, 7, 2, 8, 9, 0x0d, 0, 0,
    ];
    let mut cursor = Cursor::new(&data);
    let names = parse_many::<Multiname>(&mut cursor, 7).unwrap();
    assert!(!cursor.has_remaining());
    assert!(matches!(
        names[0],
        Multiname::QName { kind: MultinameKind::QName, ns_idx: 1, name_idx: 2 }
    ));
    assert!(matches!(
        names[1],
        Multiname::RTQName { kind: MultinameKind::RTQName, name_idx: 3 }
    ));
    assert!(matches!(names[2], Multiname::RTQNameL { kind: MultinameKind::RTQNameL }));
    assert!(matches!(
        names[3],
        Multiname::Multiname { kind: MultinameKind::Multiname, name_idx: 4, ns_set_idx: 5 }
    ));
    assert!(matches!(
        names[4],
        Multiname::MultinameL { kind: MultinameKind::MultinameL, ns_set_idx: 6 }
    ));
    match &names[5] {
        Multiname::Typename { kind, qname_index, param_indices } => {
            assert_eq!(*kind, MultinameKind::Typename);
            assert_eq!(*qname_index, 7);
            assert_eq!(param_indices, &vec![8, 9]);
        }
        other => panic!("unexpected {:?}", other),
    }
    assert!(matches!(
        names[6],
        Multiname::QName { kind: MultinameKind::QNameA, ns_idx: 0, name_idx: 0 }
    ));
    assert_eq!(
        Multiname::parse_avm2(&mut Cursor::new(&[0x08])).map(|_| ()),
        Err(ParseError::InvalidFlag { byte: 8, flag_type: FlagType::MultinameKind })
    );
}

#[test]
fn counted_lists_stop_at_the_first_failure() {
    let data = [3, 1, 2];
    let mut cursor = Cursor::new(&data);
    assert_eq!(
        parse_counted::<u32>(&mut cursor),
        Err(ParseError::InsufficientBytes { remaining: 0, needed: 1 })
    );
    let set = [2, 4, 5, 9];
    let mut cursor = Cursor::new(&set);
    let ns = NamespaceSet::parse_avm2(&mut cursor).unwrap();
    assert_eq!(ns.namespace_indices, vec![4, 5]);
    assert_eq!(cursor.remaining(), 1);
}

fn pool_bytes() -> Vec<u8> {
    let mut b = vec![];
    b.extend_from_slice(&[3, 0x05, 0xff, 0xff, 0xff, 0xff, 0x0f]);
    b.extend_from_slice(&[2, 0x2a]);
    b.extend_from_slice(&[2, 0, 0, 0, 0, 0, 0, 0xf0, 0x3f]);
    b.extend_from_slice(&[4, 3, b'p', b'k', b'g', 3, b'F', b'o', b'o', 0]);
    b.extend_from_slice(&[3, 0x16, 1, 0x05, 0]);
    b.extend_from_slice(&[0]);
    b.extend_from_slice(&[4, 0x07, 1, 2, 0x07, 2, 0, 0x11]);
    b
}

#[test]
fn the_constant_pool_keeps_its_tables_from_index_one() {
    let bytes = pool_bytes();
    let mut cursor = Cursor::new(&bytes);
    let pool = ConstantPool::parse_avm2(&mut cursor).unwrap();
    assert!(!cursor.has_remaining());
    assert_eq!(pool.all_ints(), &[5, -1]);
    assert_eq!(pool.int_at(2), -1);
    assert_eq!(pool.all_uints(), &[42]);
    assert_eq!(pool.uint(1), 42);
    assert_eq!(f64::from_bits(pool.double(1).to_bits()), 1.0);
    assert_eq!(pool.all_doubles().len(), 1);
    assert_eq!(pool.all_strings().len(), 3);
    assert_eq!(pool.string(2), "Foo");
    assert_eq!(pool.string(3), "");
    assert_eq!(pool.all_namespaces().len(), 2);
    assert_eq!(pool.namespace(1).name_index, 1);
    assert!(pool.ns_sets().is_empty());
    assert_eq!(pool.multinames().len(), 3);
    assert_eq!(pool.multiname(1).link_qname(&pool), Ok(("pkg", "Foo")));
    assert_eq!(pool.multiname(2).link_qname(&pool), Ok(("", "*")));
    assert_eq!(pool.multiname(3).link_qname(&pool), Err(LinkError::NotQName));
    assert_eq!(pool.link_name(1), Ok(("pkg", "Foo")));
    assert_eq!(pool.link_name(0), Err(LinkError::MissingConstant));
    assert_eq!(pool.link_name(4), Err(LinkError::MissingConstant));
    assert_eq!(pool.string_at(0), Err(LinkError::MissingConstant));
    assert_eq!(pool.string_at(1), Ok("pkg"));
    let wild = Multiname::QName { kind: MultinameKind::QName, ns_idx: 0, name_idx: 1 };
    assert_eq!(wild.link_qname(&pool), Ok(("*", "pkg")));
    let far = Multiname::QName { kind: MultinameKind::QName, ns_idx: 3, name_idx: 1 };
    assert_eq!(far.link_qname(&pool), Err(LinkError::MissingConstant));
    let lost = Multiname::QName { kind: MultinameKind::QName, ns_idx: 1, name_idx: 9 };
    assert_eq!(lost.link_qname(&pool), Err(LinkError::MissingConstant));
}

#[test]
fn a_count_of_zero_is_an_empty_table() {
    let bytes = [0u8, 1, 0, 0, 0, 0, 0];
    let mut cursor = Cursor::new(&bytes);
    let pool = ConstantPool::parse_avm2(&mut cursor).unwrap();
    assert!(pool.all_ints().is_empty());
    assert!(pool.all_uints().is_empty());
    assert!(pool.all_strings().is_empty());
    assert!(pool.multinames().is_empty());
    assert!(!cursor.has_remaining());
}

#[test]
fn traits_of_every_kind() {
    let data = [
        1, 0x06, 2, 3, 4, 0x03, 5, 0x00, 6, 7, 0, 8, 0x41, 9, 10, 2, 11, 12, 13, 0x04, 14, 15, 16,
        0x25, 17, 18,
    ];
    let mut cursor = Cursor::new(&data);
    let traits = parse_many::<Trait>(&mut cursor, 5).unwrap();
    assert!(!cursor.has_remaining());
    match &traits[0] {
        Trait::Slot { name_idx, kind, attrs, data, metadata_indices } => {
            assert_eq!((*name_idx, *kind, *attrs), (1, TraitKind::Const, 0));
            assert_eq!(
                *data,
                TraitSlot {
                    slot_id: 2,
                    type_name_idx: 3,
                    value_idx: 4,
                    value_kind: Some(ConstantKind::Int)
                }
            );
            assert!(metadata_indices.is_empty());
        }
        other => panic!("unexpected {:?}", other),
    }
    assert!(traits[0].is_slot());
    match &traits[1] {
        Trait::Slot { kind, data, .. } => {
            assert_eq!(*kind, TraitKind::Slot);
            assert_eq!(data.value_idx, 0);
            assert_eq!(data.value_kind, None);
        }
        other => panic!("unexpected {:?}", other),
    }
    match &traits[2] {
        Trait::Method { name_idx, kind, attrs, data, metadata_indices } => {
            assert_eq!((*name_idx, *kind, *attrs), (8, TraitKind::Method, 4));
            assert_eq!((data.disp_id, data.method_idx), (9, 10));
            assert_eq!(metadata_indices, &vec![11, 12]);
        }
        other => panic!("unexpected {:?}", other),
    }
    assert!(!traits[2].is_slot());
    match &traits[3] {
        Trait::Class { kind, data, .. } => {
            assert_eq!(*kind, TraitKind::Class);
            assert_eq!((data.slot_id, data.class_idx), (14, 15));
        }
        other => panic!("unexpected {:?}", other),
    }
    match &traits[4] {
        Trait::Function { kind, attrs, data, .. } => {
            assert_eq!((*kind, *attrs), (TraitKind::Function, 2));
            assert_eq!((data.slot_id, data.function_idx), (17, 18));
        }
        other => panic!("unexpected {:?}", other),
    }
    assert_eq!(
        Trait::parse_avm2(&mut Cursor::new(&[1, 0x07])).map(|_| ()),
        Err(ParseError::InvalidFlag { byte: 7, flag_type: FlagType::TraitKind })
    );
    assert_eq!(
        Trait::parse_avm2(&mut Cursor::new(&[1, 0x00, 1, 1, 1, 0x02])).map(|_| ()),
        Err(ParseError::InvalidFlag { byte: 2, flag_type: FlagType::ConstantKind })
    );
}

#[test]
fn slots_are_resolved_through_the_pool() {
    let bytes = pool_bytes();
    let pool = ConstantPool::parse_avm2(&mut Cursor::new(&bytes)).unwrap();
    let slot = |value_idx: u32, value_kind: Option<ConstantKind>| Trait::Slot {
        name_idx: 1,
        kind: TraitKind::Const,
        attrs: 0,
        data: TraitSlot { slot_id: 9, type_name_idx: 0, value_idx, value_kind },
        metadata_indices: vec![],
    };
    let int = slot(1, Some(ConstantKind::Int));
    let linked = int.link_slot(&pool).unwrap();
    assert_eq!(linked.name, ("pkg", "Foo"));
    assert_eq!(linked.slot_id, 9);
    assert!(matches!(linked.value, TraitSlotValue::Int(5)));
    assert_eq!(linked.value.as_int().unwrap(), 5);
    assert!(linked.value.as_str().is_err());
    let text = slot(2, Some(ConstantKind::Utf8));
    let linked = text.link_slot(&pool).unwrap();
    assert!(matches!(linked.value, TraitSlotValue::String("Foo")));
    assert_eq!(linked.value.as_str().unwrap(), "Foo");
    assert!(linked.value.as_int().is_err());
    let other = slot(1, Some(ConstantKind::Uint));
    assert!(matches!(
        other.link_slot(&pool).unwrap().value,
        TraitSlotValue::Unresolved
    ));
    let none = slot(0, None);
    assert!(matches!(
        none.link_slot(&pool).unwrap().value,
        TraitSlotValue::Unresolved
    ));
    let far = slot(7, Some(ConstantKind::Int));
    assert_eq!(far.link_slot(&pool).map(|_| ()), Err(LinkError::MissingConstant));
    let method = Trait::Method {
        name_idx: 1,
        kind: TraitKind::Method,
        attrs: 0,
        data: rotmg::avm2::traits::TraitMethod { disp_id: 0, method_idx: 0 },
        metadata_indices: vec![],
    };
    assert_eq!(method.link_slot(&pool).map(|_| ()), Err(LinkError::NotSlot));
}

#[test]
fn method_signatures_with_and_without_options() {
    let plain = [2, 1, 3, 4, 5, 0x00, 0x77];
    let mut cursor = Cursor::new(&plain);
    let m = MethodInfo::parse_avm2(&mut cursor).unwrap();
    assert_eq!(m.return_type_idx, 1);
    assert_eq!(m.param_type_indices, vec![3, 4]);
    assert_eq!(m.name_idx, 5);
    assert_eq!(m.flags, 0);
    assert_eq!(m.options, None);
    assert_eq!(m.param_names, None);
    assert_eq!(cursor.remaining(), 1);
    let full = [1, 0, 2, 3, 0x88, 2, 7, 0x03, 8, 0x01, 9];
    let mut cursor = Cursor::new(&full);
    let m = MethodInfo::parse_avm2(&mut cursor).unwrap();
    assert_eq!(m.flags, 0x88);
    assert_eq!(
        m.options,
        Some(vec![
            OptionDetail { kind: OptionDetailKind::Int, value: 7 },
            OptionDetail { kind: OptionDetailKind::Utf8, value: 8 },
        ])
    );
    assert_eq!(m.param_names, Some(vec![9]));
    assert!(!cursor.has_remaining());
    assert_eq!(
        MethodInfo::parse_avm2(&mut Cursor::new(&[0, 0, 0, 0x08, 1, 7, 0x02])).map(|_| ()),
        Err(ParseError::InvalidFlag { byte: 2, flag_type: FlagType::OptionDetailKind })
    );
}

#[test]
fn metadata_records() {
    let data = [4, 2, 1, 2, 3, 4];
    let mut cursor = Cursor::new(&data);
    let m = Metadata::parse_avm2(&mut cursor).unwrap();
    assert_eq!(m.name_idx, 4);
    assert_eq!(
        m.items,
        vec![
            MetadataItem { key_idx: 1, value_idx: 2 },
            MetadataItem { key_idx: 3, value_idx: 4 },
        ]
    );
}

#[test]
fn instances_and_classes() {
    let data = [1, 2, 0x09, 3, 2, 4, 5, 6, 0, 7, 1, 1, 0x01, 0, 0];
    let mut cursor = Cursor::new(&data);
    let i = Instance::parse_avm2(&mut cursor).unwrap();
    assert_eq!((i.name_idx, i.super_name_idx, i.flags), (1, 2, 9));
    assert_eq!(i.protected_ns_idx, Some(3));
    assert_eq!(i.interface_indices, vec![4, 5]);
    assert_eq!(i.iinit_idx, 6);
    assert!(i.traits.is_empty());
    let c = Class::parse_avm2(&mut cursor).unwrap();
    assert_eq!(c.cinit_idx, 7);
    assert_eq!(c.traits.len(), 1);
    assert!(!cursor.has_remaining());
    let bare = [1, 0, 0x00, 0, 0, 0];
    let i = Instance::parse_avm2(&mut Cursor::new(&bare)).unwrap();
    assert_eq!(i.protected_ns_idx, None);
}

#[test]
fn the_signed_24_bit_number_is_looked_at_and_not_taken() {
    let data = [1, 2, 3, 4];
    let mut cursor = Cursor::new(&data);
    let n = S24::parse_avm2(&mut cursor).unwrap();
    assert_eq!(n.0, [1, 2, 3]);
    assert_eq!(cursor.remaining(), 4);
    assert_eq!(
        S24::parse_avm2(&mut Cursor::new(&[1, 2])).map(|n| n.0),
        Err(ParseError::InsufficientBytes { remaining: 2, needed: 3 })
    );
}

#[test]
fn a_container_is_read_up_to_its_classes() {
    let mut bytes = vec![16, 0, 46, 0];
    bytes.extend_from_slice(&pool_bytes());
    bytes.extend_from_slice(&[1, 0, 0, 0, 0x00]);
    bytes.extend_from_slice(&[0]);
    bytes.extend_from_slice(&[1]);
    bytes.extend_from_slice(&[1, 2, 0x00, 0, 0, 0]);
    bytes.extend_from_slice(&[0, 1, 1, 0x06, 1, 0, 2, 0x03]);
    bytes.extend_from_slice(&[0xde, 0xad]);
    let mut cursor = Cursor::new(&bytes);
    let file = AbcFile::parse_avm2(&mut cursor).unwrap();
    assert_eq!(cursor.remaining(), 2);
    assert_eq!((file.minor_version, file.major_version), (16, 46));
    assert_eq!(file.methods.len(), 1);
    assert!(file.metadata.is_empty());
    assert_eq!(file.class_count(), 1);
    assert_eq!(file.constants().all_ints(), &[5, -1]);
    let class = file.link_class(0).unwrap();
    assert_eq!(class.name, ("pkg", "Foo"));
    assert_eq!(class.super_name, Some(("", "*")));
    assert_eq!(class.consts.len(), 1);
    assert_eq!(class.consts[0].name, ("pkg", "Foo"));
    assert!(matches!(class.consts[0].value, TraitSlotValue::Int(-1)));
    let all = file.classes().unwrap();
    assert_eq!(all.len(), 1);
    assert!(file.find_class("Foo").unwrap().is_some());
    assert!(file.find_class("Bar").unwrap().is_none());
    let linked = file.instances[0].link(&file.classes[0], file.constants()).unwrap();
    assert_eq!(linked.name.1, "Foo");
    let cut = &bytes[..bytes.len() - 4];
    assert!(AbcFile::parse_avm2(&mut Cursor::new(cut)).is_err());
}
