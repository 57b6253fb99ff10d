use rotmg::avm2::traits::{LinkedTraitSlot, TraitSlotValue};
use rotmg::avm2::{LinkError, ParseError};
use rotmg::extractor::{
    find_param, first_abc, first_free, int_param, low_byte, packets_from, parameters_from,
    rc4_from, text_param, ExtractError, MovieTag, ParsedClient,
};
use rotmg::mappings::{HexError, RC4KeyError};
use rotmg::packets::definitions::{PacketType, NUM_TYPES};

const KEY: &str = "6a39570cc9de4ec71d64821894c79332b197f92ba85ed281a023";

fn u30(mut v: u32) -> Vec<u8> {
    let mut out = vec![];
    loop {
        let byte = (v & 0x7f) as u8;
        v >>= 7;
        if v == 0 {
            out.push(byte);
            return out;
        }
        out.push(byte | 0x80);
    }
}

fn strings() -> Vec<&'static str> {
    vec![
        "pkg",
        "GameServerConnection",
        "Parameters",
        "FAILURE",
        "CREATE_SUCCESS",
        "HELLO",
        "Unknown_Thing",
        "rc4",
        KEY,
        "BUILD_VERSION",
        "X31",
        "MINOR_VERSION",
        "2.0",
        "PORT",
        "TUTORIAL_GAMEID",
        "NEXUS_GAMEID",
        "RANDOM_REALM_GAMEID",
        "PLAYER_TEXT",
        "failure",
        "PING",
    ]
}

fn constant(name: u32, value: u32, kind: u8) -> Vec<u8> {
    let mut t = u30(name);
    t.push(0x06);
    t.extend(u30(1));
    t.extend(u30(0));
    t.extend(u30(value));
    t.push(kind);
    t
}

fn abc_with(ints: &[i32], port_index: u32, classes: bool) -> Vec<u8> {
    let mut b = vec![16, 0, 46, 0];
    b.extend(u30(ints.len() as u32 + 1));
    for i in ints {
        b.extend(u30(*i as u32));
    }
    b.extend(u30(0));
    b.extend(u30(0));
    let names = strings();
    b.extend(u30(names.len() as u32 + 1));
    for s in &names {
        b.extend(u30(s.len() as u32));
        b.extend_from_slice(s.as_bytes());
    }
    b.extend(u30(2));
    b.push(0x16);
    b.extend(u30(1));
    b.extend(u30(0));
    b.extend(u30(names.len() as u32 + 1));
    for i in 1..=names.len() as u32 {
        b.push(0x07);
        b.extend(u30(1));
        b.extend(u30(i));
    }
    b.extend(u30(0));
    b.extend(u30(0));
    if !classes {
        b.extend(u30(0));
        return b;
    }
    b.extend(u30(2));
    for name in [2u32, 3] {
        b.extend(u30(name));
        b.extend(u30(0));
        b.push(0);
        b.extend(u30(0));
        b.extend(u30(0));
        b.extend(u30(0));
    }
    let gsc = vec![
        constant(4, 1, 0x03),
        constant(5, 2, 0x03),
        constant(6, 3, 0x03),
        constant(7, 9, 0x03),
        constant(18, 8, 0x03),
        constant(19, 9, 0x03),
        constant(20, 11, 0x01),
    ];
    b.extend(u30(0));
    b.extend(u30(gsc.len() as u32));
    for t in gsc {
        b.extend(t);
    }
    let params = vec![
        constant(10, 11, 0x01),
        constant(12, 13, 0x01),
        constant(14, port_index, 0x03),
        constant(15, 5, 0x03),
        constant(16, 6, 0x03),
        constant(17, 7, 0x03),
    ];
    b.extend(u30(0));
    b.extend(u30(params.len() as u32));
    for t in params {
        b.extend(t);
    }
    b
}

fn abc() -> Vec<u8> {
    abc_with(&[0, 101, 30, 2050, -1, -2, -3, 300, 77], 4, true)
}

fn movie(tags: &[(u16, Vec<u8>)]) -> Vec<u8> {
    let mut body = vec![0x00, 0x00, 24, 1, 0];
    for (code, data) in tags {
        let header = (code << 6) | 0x3f;
        body.extend_from_slice(&header.to_le_bytes());
        body.extend_from_slice(&(data.len() as u32).to_le_bytes());
        body.extend_from_slice(data);
    }
    body.extend_from_slice(&[0, 0]);
    let mut swf = b"FWS".to_vec();
    swf.push(10);
    swf.extend_from_slice(&((body.len() + 8) as u32).to_le_bytes());
    swf.extend(body);
    swf
}

fn do_abc(data: &[u8]) -> Vec<u8> {
    let mut body = vec![1, 0, 0, 0];
    body.extend_from_slice(b"frame1\0");
    body.extend_from_slice(data);
    body
}

fn client() -> ParsedClient {
    ParsedClient::from_tags(&vec![MovieTag::Other, MovieTag::DoAbc(abc())]).unwrap()
}

#[test]
fn the_pairs_are_the_integer_constants_with_the_names_of_kinds() {
    let pairs = client().extract_packets().unwrap();
    assert_eq!(
        pairs,
        vec![
            (0, PacketType::Failure),
            (101, PacketType::CreateSuccess),
            (30, PacketType::Hello),
            (44, PacketType::PlayerText),
        ]
    );
}

#[test]
fn the_key_material_is_the_string_behind_the_marker() {
    let parsed = client();
    assert_eq!(parsed.extract_rc4().unwrap(), KEY);
    let strings = vec!["a".to_owned(), "rc4".to_owned(), "b".to_owned(), "rc4".to_owned()];
    assert_eq!(rc4_from(&strings).unwrap(), "b");
    let last = vec!["a".to_owned(), "rc4".to_owned()];
    assert!(matches!(rc4_from(&last), Err(ExtractError::NoRC4Found(_))));
    let none = vec!["a".to_owned(), "RC4".to_owned(), "b".to_owned()];
    assert!(matches!(rc4_from(&none), Err(ExtractError::NoRC4Found(_))));
    assert!(matches!(rc4_from(&[]), Err(ExtractError::NoRC4Found(_))));
}

#[test]
fn the_table_of_a_build_is_recovered() {
    let table = client().extract_mappings().unwrap();
    assert_eq!(table.to_internal(0), Some(PacketType::Failure));
    assert_eq!(table.to_internal(101), Some(PacketType::CreateSuccess));
    assert_eq!(table.to_internal(30), Some(PacketType::Hello));
    assert_eq!(table.to_internal(44), Some(PacketType::PlayerText));
    assert_eq!(table.to_internal(77), None);
    assert_eq!(table.to_game(PacketType::Ping), None);
    assert_eq!(table.rc4()[0], 0x6a);
    let unmapped = table.find_unmapped();
    assert_eq!(unmapped.len(), NUM_TYPES - 4);
    assert!(unmapped.contains(&PacketType::Ping));
    assert!(!unmapped.contains(&PacketType::Hello));
}

#[test]
fn the_parameters_of_a_build_are_recovered() {
    let params = client().extract_parameters().unwrap();
    assert_eq!(params.version, "X31.2.0");
    assert_eq!(params.port, 2050);
    assert_eq!(params.tutorial_gameid, -1);
    assert_eq!(params.nexus_gameid, -2);
    assert_eq!(params.random_gameid, -3);
}

#[test]
fn a_port_out_of_range_is_refused() {
    for (index, value) in [(8u32, 300i32), (5, -1)] {
        let bytes = abc_with(&[0, 101, 30, 2050, -1, -2, -3, 300, 77], index, true);
        let parsed = ParsedClient::from_tags(&vec![MovieTag::DoAbc(bytes)]).unwrap();
        match parsed.extract_parameters() {
            Ok(p) => assert_eq!((p.port as i32, value), (300, 300)),
            Err(ExtractError::InvalidPort(port)) => assert_eq!((port, value), (-1, -1)),
            Err(other) => panic!("unexpected {:?}", other),
        }
    }
    let big = abc_with(&[0, 101, 30, 65536, -1, -2, -3, 300, 77], 4, true);
    let parsed = ParsedClient::from_tags(&vec![MovieTag::DoAbc(big)]).unwrap();
    assert!(matches!(
        parsed.extract_parameters(),
        Err(ExtractError::InvalidPort(65536))
    ));
    let top = abc_with(&[0, 101, 30, 65535, -1, -2, -3, 300, 77], 4, true);
    let parsed = ParsedClient::from_tags(&vec![MovieTag::DoAbc(top)]).unwrap();
    assert_eq!(parsed.extract_parameters().unwrap().port, 65535);
}

#[test]
fn a_missing_class_is_named() {
    let bytes = abc_with(&[1], 1, false);
    let parsed = ParsedClient::from_tags(&vec![MovieTag::DoAbc(bytes)]).unwrap();
    match parsed.extract_packets() {
        Err(ExtractError::ClassNotFound(e)) => assert_eq!(e.0, "GameServerConnection"),
        other => panic!("unexpected {:?}", other),
    }
    match parsed.extract_parameters() {
        Err(ExtractError::ClassNotFound(e)) => assert_eq!(e.0, "Parameters"),
        other => panic!("unexpected {:?}", other),
    }
    match parsed.class("Nothing") {
        Err(ExtractError::ClassNotFound(e)) => assert_eq!(e.0, "Nothing"),
        other => panic!("unexpected {:?}", other.map(|c| c.name)),
    }
    assert!(matches!(
        parsed.extract_mappings().map(|_| ()),
        Err(ExtractError::ClassNotFound(_))
    ));
    assert_eq!(client().class("Parameters").unwrap().name, ("pkg", "Parameters"));
}

#[test]
fn a_constant_that_points_nowhere_fails_the_class() {
    let bytes = abc_with(&[0, 101, 30], 4, true);
    let parsed = ParsedClient::from_tags(&vec![MovieTag::DoAbc(bytes)]).unwrap();
    assert!(matches!(
        parsed.extract_packets(),
        Err(ExtractError::Link(LinkError::MissingConstant))
    ));
}

fn slot<'a>(name: &'a str, value: TraitSlotValue<'a>) -> LinkedTraitSlot<'a> {
    LinkedTraitSlot { name: ("", name), slot_id: 0, value }
}

#[test]
fn parameters_are_looked_up_by_name_and_the_last_one_counts() {
    let consts = vec![
        slot("PORT", TraitSlotValue::Int(1)),
        slot("NAME", TraitSlotValue::String("a")),
        slot("PORT", TraitSlotValue::Int(2)),
        slot("GONE", TraitSlotValue::Unresolved),
    ];
    assert!(matches!(find_param(&consts, "PORT"), Some(TraitSlotValue::Int(2))));
    assert!(find_param(&consts, "port").is_none());
    assert_eq!(int_param(&consts, "PORT").unwrap(), 2);
    assert_eq!(text_param(&consts, "NAME").unwrap(), "a");
    assert!(matches!(int_param(&consts, "NAME"), Err(ExtractError::InvalidType(_))));
    assert!(matches!(text_param(&consts, "PORT"), Err(ExtractError::InvalidType(_))));
    assert!(matches!(text_param(&consts, "GONE"), Err(ExtractError::InvalidType(_))));
    match int_param(&consts, "OTHER") {
        Err(ExtractError::ParameterNotFound(e)) => assert_eq!(e.0, "OTHER"),
        other => panic!("unexpected {:?}", other),
    }
}

#[test]
fn the_first_parameter_that_fails_decides_the_error() {
    let mut consts = vec![
        slot("BUILD_VERSION", TraitSlotValue::String("X")),
        slot("MINOR_VERSION", TraitSlotValue::String("1")),
        slot("PORT", TraitSlotValue::Int(2050)),
        slot("TUTORIAL_GAMEID", TraitSlotValue::Int(-1)),
        slot("NEXUS_GAMEID", TraitSlotValue::Int(-2)),
    ];
    match parameters_from(&consts) {
        Err(ExtractError::ParameterNotFound(e)) => assert_eq!(e.0, "RANDOM_REALM_GAMEID"),
        other => panic!("unexpected {:?}", other),
    }
    consts.push(slot("RANDOM_REALM_GAMEID", TraitSlotValue::Int(-3)));
    assert_eq!(parameters_from(&consts).unwrap().version, "X.1");
    consts[1] = slot("MINOR_VERSION", TraitSlotValue::Int(1));
    consts[2] = slot("PORT", TraitSlotValue::Int(-5));
    assert!(matches!(parameters_from(&consts), Err(ExtractError::InvalidType(_))));
    consts.remove(0);
    match parameters_from(&consts) {
        Err(ExtractError::ParameterNotFound(e)) => assert_eq!(e.0, "BUILD_VERSION"),
        other => panic!("unexpected {:?}", other),
    }
}

#[test]
fn names_are_compared_in_lower_case_and_without_underscores() {
    let consts = vec![
        slot("Accept_Trade", TraitSlotValue::Int(1)),
        slot("ACCEPTTRADE", TraitSlotValue::Int(2)),
        slot("__p_i_n_g__", TraitSlotValue::Int(258)),
        slot("PONG", TraitSlotValue::String("3")),
        slot("PO NG", TraitSlotValue::Int(4)),
        slot("VERIFYEMAIL", TraitSlotValue::Int(-1)),
        slot("pong", TraitSlotValue::Int(-256)),
    ];
    assert_eq!(
        packets_from(&consts),
        vec![
            (1, PacketType::AcceptTrade),
            (2, PacketType::Ping),
            (255, PacketType::VerifyEmail),
            (0, PacketType::Pong),
        ]
    );
    assert!(packets_from(&vec![]).is_empty());
}

#[test]
fn the_identifier_is_the_low_byte_of_the_constant() {
    assert_eq!(low_byte(0), 0);
    assert_eq!(low_byte(255), 255);
    assert_eq!(low_byte(256), 0);
    assert_eq!(low_byte(300), 44);
    assert_eq!(low_byte(-1), 255);
    assert_eq!(low_byte(-256), 0);
    assert_eq!(low_byte(-257), 255);
    assert_eq!(low_byte(i32::MAX), 255);
    assert_eq!(low_byte(i32::MIN), 0);
    for v in [-1000i32, -129, -128, -2, 1, 127, 128, 1000, 65535] {
        assert_eq!(low_byte(v), v as u8);
    }
}

#[test]
fn the_first_record_of_bytecode_is_taken() {
    let tags = vec![
        MovieTag::Other,
        MovieTag::DoAbc(vec![1]),
        MovieTag::Other,
        MovieTag::DoAbc(vec![2]),
    ];
    assert_eq!(first_abc(&tags), Some(&vec![1]));
    assert_eq!(first_abc(&vec![MovieTag::Other]), None);
    assert_eq!(first_abc(&vec![]), None);
    assert!(matches!(
        ParsedClient::from_tags(&vec![MovieTag::Other]).map(|_| ()),
        Err(ExtractError::NoBytecodeFound(_))
    ));
    assert!(matches!(
        ParsedClient::from_tags(&tags).map(|_| ()),
        Err(ExtractError::Parse(ParseError::InsufficientBytes { remaining: 1, needed: 2 }))
    ));
}

#[test]
fn key_material_that_is_no_key_fails_the_table() {
    let mut bytes = abc();
    let at = bytes.windows(KEY.len()).position(|w| w == KEY.as_bytes()).unwrap();
    bytes[at] = b'x';
    let parsed = ParsedClient::from_tags(&vec![MovieTag::DoAbc(bytes)]).unwrap();
    match parsed.extract_mappings().map(|_| ()) {
        Err(ExtractError::InvalidRc4(RC4KeyError::InvalidRC4Hex(text, e))) => {
            assert_eq!(text.len(), 52);
            assert_eq!(e, HexError::InvalidHexCharacter { c: 'x', index: 0 });
        }
        other => panic!("unexpected {:?}", other),
    }
}

#[test]
fn a_movie_is_read_down_to_its_bytecode() {
    let swf = movie(&[(9, vec![0, 0, 0]), (82, do_abc(&abc()))]);
    let parsed = ParsedClient::new(&swf).unwrap();
    assert_eq!(parsed.abc().class_count(), 2);
    let table = parsed.extract_mappings().unwrap();
    assert_eq!(table.to_internal(30), Some(PacketType::Hello));
    assert_eq!(table.find_unmapped().len(), NUM_TYPES - 4);
    assert_eq!(parsed.extract_parameters().unwrap().version, "X31.2.0");
    let bare = movie(&[(72, abc())]);
    assert_eq!(ParsedClient::new(&bare).unwrap().abc().class_count(), 2);
}

#[test]
fn a_movie_without_bytecode_has_none() {
    let swf = movie(&[(9, vec![0, 0, 0])]);
    assert!(matches!(
        ParsedClient::new(&swf).map(|_| ()),
        Err(ExtractError::NoBytecodeFound(_))
    ));
}

#[test]
fn bytes_that_are_no_movie_are_refused() {
    match ParsedClient::new(b"not a movie").map(|_| ()) {
        Err(ExtractError::ParserError(e)) => assert_eq!(e.0, "invalid SWF signature"),
        other => panic!("unexpected {:?}", other),
    }
    assert!(matches!(
        ParsedClient::new(&[]).map(|_| ()),
        Err(ExtractError::ParserError(_))
    ));
}

#[test]
fn the_first_name_that_is_free_is_found() {
    let names = vec!["a".to_owned(), "b".to_owned(), "a".to_owned()];
    assert_eq!(first_free("a", &names, &vec![false, false, false]), Some(0));
    assert_eq!(first_free("a", &names, &vec![true, false, false]), Some(2));
    assert_eq!(first_free("a", &names, &vec![true, false, true]), None);
    assert_eq!(first_free("b", &names, &vec![true, false, true]), Some(1));
    assert_eq!(first_free("c", &names, &vec![false, false, false]), None);
    assert_eq!(first_free("a", &vec![], &vec![]), None);
}

fn full_client() -> Vec<u8> {
    let kinds = PacketType::get_all_types();
    let mut names: Vec<String> = vec![
        "pkg".to_owned(),
        "GameServerConnection".to_owned(),
        "Parameters".to_owned(),
        "rc4".to_owned(),
        KEY.to_owned(),
        "BUILD_VERSION".to_owned(),
        "X32".to_owned(),
        "MINOR_VERSION".to_owned(),
        "1.0".to_owned(),
        "PORT".to_owned(),
        "TUTORIAL_GAMEID".to_owned(),
        "NEXUS_GAMEID".to_owned(),
        "RANDOM_REALM_GAMEID".to_owned(),
    ];
    let first_kind = names.len() as u32 + 1;
    for kind in &kinds {
        names.push(kind.get_name().to_uppercase());
    }
    let mut ints: Vec<i32> = (0..kinds.len() as i32).collect();
    let port = ints.len() as u32 + 1;
    ints.extend_from_slice(&[2050, -1, -2, -3]);

    let mut b = vec![16, 0, 46, 0];
    b.extend(u30(ints.len() as u32 + 1));
    for i in &ints {
        b.extend(u30(*i as u32));
    }
    b.extend(u30(0));
    b.extend(u30(0));
    b.extend(u30(names.len() as u32 + 1));
    for s in &names {
        b.extend(u30(s.len() as u32));
        b.extend_from_slice(s.as_bytes());
    }
    b.extend(u30(2));
    b.push(0x16);
    b.extend(u30(1));
    b.extend(u30(0));
    b.extend(u30(names.len() as u32 + 1));
    for i in 1..=names.len() as u32 {
        b.push(0x07);
        b.extend(u30(1));
        b.extend(u30(i));
    }
    b.extend(u30(0));
    b.extend(u30(0));
    b.extend(u30(2));
    for name in [2u32, 3] {
        b.extend(u30(name));
        b.extend(u30(0));
        b.push(0);
        b.extend(u30(0));
        b.extend(u30(0));
        b.extend(u30(0));
    }
    b.extend(u30(0));
    b.extend(u30(kinds.len() as u32));
    for k in 0..kinds.len() as u32 {
        b.extend(constant(first_kind + k, k + 1, 0x03));
    }
    let params = vec![
        constant(6, 7, 0x01),
        constant(8, 9, 0x01),
        constant(10, port, 0x03),
        constant(11, port + 1, 0x03),
        constant(12, port + 2, 0x03),
        constant(13, port + 3, 0x03),
    ];
    b.extend(u30(0));
    b.extend(u30(params.len() as u32));
    for t in params {
        b.extend(t);
    }
    movie(&[(69, vec![0, 0, 0, 0]), (82, do_abc(&b)), (1, vec![])])
}

#[test]
fn test_parse_constants() {
    let client = full_client();
    let parsed = ParsedClient::new(&client).unwrap();
    assert_eq!(parsed.abc().constants().all_strings().len(), 13 + NUM_TYPES);
    assert_eq!(parsed.abc().constants().all_ints().len(), NUM_TYPES + 4);
}

#[test]
fn test_extraction() {
    let client = full_client();
    let parsed = ParsedClient::new(&client).unwrap();
    let mappings = parsed.extract_mappings().unwrap();

    let unmapped = mappings.find_unmapped();

    if !unmapped.is_empty() {
        panic!("Missing packet mappings: {:?}", unmapped);
    }

    let params = parsed.extract_parameters().unwrap();
    assert_eq!(params.version, "X32.1.0");
    assert_eq!(params.port, 2050);
    for kind in PacketType::get_all_types() {
        assert_eq!(mappings.to_game(kind), Some(kind.to_byte()));
    }
}
