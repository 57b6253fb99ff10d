use bytes::{Bytes, BytesMut};
use rotmg::adapter::rle::RLE;
use rotmg::adapter::Error as AdapterError;
use rotmg::connection::codec::{get_ciphers, Codec, CodecError};
use rotmg::connection::policy::{
    classify_preamble, PolicyStep, POLICY_FILE, POLICY_REQUEST, POLICY_REQUEST_LEN,
};
use rotmg::connection::raw_packet::{Error, RawPacket};
use rotmg::mappings::Mappings;
use rotmg::packets::client::{Hello, PlayerText, Pong};
use rotmg::packets::definitions::{Packet, PacketType};
use rotmg::packets::server::{Failure, Ping};
use rotmg::rc4::Rc4;

const KEY: &str = "6a39570cc9de4ec71d64821894c79332b197f92ba85ed281a023";

fn table() -> Mappings {
    Mappings::new(
        vec![
            (0x2a, PacketType::Ping),
            (7, PacketType::PlayerText),
            (30, PacketType::Hello),
            (31, PacketType::Pong),
            (0, PacketType::Failure),
        ],
        KEY,
    )
    .unwrap()
}

fn say(text: &str) -> Packet {
    Packet::PlayerText(PlayerText { text: RLE::new(text.to_owned()) })
}

#[test]
fn a_frame_is_length_identifier_and_contents() {
    let m = table();
    let raw = RawPacket::from_packet(&Packet::Ping(Ping { serial: 0x01020304 }), &m).unwrap();
    assert_eq!(raw.total_len(), 9);
    assert_eq!(raw.content_len(), 4);
    assert_eq!(raw.packet_id(), 0x2a);
    assert_eq!(raw.packet_type(&m), Some(PacketType::Ping));
    assert_eq!(raw.raw_contents(), &[1, 2, 3, 4]);
    assert_eq!(&raw.into_bytes()[..], &[0, 0, 0, 9, 0x2a, 1, 2, 3, 4]);
}

#[test]
fn a_packet_comes_back_from_its_frame() {
    let m = table();
    for packet in [
        Packet::Ping(Ping { serial: 5 }),
        say("hello"),
        Packet::Pong(Pong { serial: 1, time: 2 }),
        Packet::Failure(Failure { error_id: 0, error_description: RLE::new("é".to_owned()) }),
    ] {
        let raw = RawPacket::from_packet(&packet, &m).unwrap();
        assert_eq!(raw.to_packet(&m).unwrap(), packet);
    }
}

#[test]
fn a_kind_without_identifier_cannot_be_framed() {
    let m = table();
    let packet = Packet::CancelTrade(rotmg::packets::client::CancelTrade {});
    assert!(matches!(
        RawPacket::from_packet(&packet, &m),
        Err(Error::UnmappedPacketType(PacketType::CancelTrade))
    ));
    let long = Packet::PlayerText(PlayerText { text: RLE::new("x".repeat(70000)) });
    assert!(matches!(
        RawPacket::from_packet(&long, &m),
        Err(Error::AdapterError(AdapterError::InvalidData(_)))
    ));
}

#[test]
fn an_identifier_without_kind_cannot_be_decoded() {
    let m = table();
    let raw = RawPacket::from_bytes(Bytes::from(vec![0, 0, 0, 6, 0x63, 1])).unwrap();
    assert!(matches!(raw.to_packet(&m), Err(Error::UnmappedPacketType(0x63))));
    assert_eq!(raw.packet_type(&m), None);
    assert_eq!(raw.raw_contents(), &[1]);
    let short = RawPacket::from_bytes(Bytes::from(vec![0, 0, 0, 6, 0x2a, 1])).unwrap();
    assert!(matches!(
        short.to_packet(&m),
        Err(Error::AdapterError(AdapterError::InsufficientBytes { remaining: 1, needed: 4 }))
    ));
    assert!(RawPacket::from_bytes(Bytes::from(vec![0, 0, 0, 4])).is_none());
    let header_only = RawPacket::from_bytes(Bytes::from(vec![0, 0, 0, 5, 7])).unwrap();
    assert_eq!(header_only.content_len(), 0);
    assert_eq!(header_only.raw_contents(), &[] as &[u8]);
}

#[test]
fn one_frame_is_decoded_and_taken_from_the_buffer() {
    let m = table();
    let mut keystream = [0u8; 1];
    Rc4::new(&m.rc4()[..13]).process(&mut keystream);
    let sent = 0x5au8;
    let mut src = BytesMut::from(vec![0, 0, 0, 6, 0x2a, sent]);
    let mut codec = Codec::new_as_server(&m);
    let raw = codec.decode(&mut src).unwrap().unwrap();
    assert_eq!(raw.packet_id(), 0x2a);
    assert_eq!(raw.raw_contents(), &[sent ^ keystream[0]]);
    assert_eq!(raw.total_len(), 6);
    assert!(src.is_empty());
}

#[test]
fn the_buffer_moves_on_by_the_length_of_the_frame() {
    let m = table();
    let mut src = BytesMut::from(vec![0, 0, 0, 7, 1, 2, 3, 0, 0, 0, 5, 9, 0xaa]);
    let mut codec = Codec::new_as_client(&m);
    let first = codec.decode(&mut src).unwrap().unwrap();
    assert_eq!(first.total_len(), 7);
    assert_eq!(&src[..], &[0, 0, 0, 5, 9, 0xaa]);
    let second = codec.decode(&mut src).unwrap().unwrap();
    assert_eq!(second.total_len(), 5);
    assert_eq!(second.packet_id(), 9);
    assert_eq!(&src[..], &[0xaa]);
    assert!(codec.decode(&mut src).unwrap().is_none());
    assert_eq!(&src[..], &[0xaa]);
}

#[test]
fn a_frame_that_is_not_whole_waits_for_more() {
    let m = table();
    let mut codec = Codec::new_as_server(&m);
    let mut src = BytesMut::new();
    assert!(codec.decode(&mut src).unwrap().is_none());
    src.extend_from_slice(&[0, 0, 0]);
    assert!(codec.decode(&mut src).unwrap().is_none());
    src.extend_from_slice(&[8, 1, 2]);
    assert!(codec.decode(&mut src).unwrap().is_none());
    assert_eq!(src.len(), 6);
    src.extend_from_slice(&[3, 4]);
    let raw = codec.decode(&mut src).unwrap().unwrap();
    assert_eq!(raw.total_len(), 8);
    assert!(src.is_empty());
}

#[test]
fn a_length_below_the_header_is_refused() {
    let m = table();
    let mut codec = Codec::new_as_server(&m);
    for size in 0..5u8 {
        let mut src = BytesMut::from(vec![0, 0, 0, size, 1, 2, 3]);
        assert_eq!(
            codec.decode(&mut src).map(|_| ()),
            Err(CodecError::InvalidSize(size as usize))
        );
        assert_eq!(src.len(), 7);
    }
}

#[test]
fn the_header_is_sent_in_clear() {
    let m = table();
    let mut codec = Codec::new_as_client(&m);
    let raw = RawPacket::from_packet(&say("hi"), &m).unwrap();
    let mut dst = BytesMut::new();
    codec.encode(raw, &mut dst).unwrap();
    assert_eq!(&dst[..5], &[0, 0, 0, 9, 7]);
    let mut expected = vec![0, 2, b'h', b'i'];
    Rc4::new(&m.rc4()[..13]).process(&mut expected);
    assert_eq!(&dst[5..], &expected[..]);
}

#[test]
fn what_the_server_sends_the_client_receives_in_order() {
    let m = table();
    let mut server = Codec::new_as_server(&m);
    let mut client = Codec::new_as_client(&m);
    let packets = vec![
        Packet::Ping(Ping { serial: 1 }),
        Packet::Failure(Failure { error_id: 2, error_description: RLE::new("x".to_owned()) }),
        Packet::Ping(Ping { serial: 3 }),
    ];
    let mut wire = BytesMut::new();
    for p in &packets {
        server.encode(RawPacket::from_packet(p, &m).unwrap(), &mut wire).unwrap();
    }
    let mut received = vec![];
    while let Some(raw) = client.decode(&mut wire).unwrap() {
        received.push(raw.to_packet(&m).unwrap());
    }
    assert_eq!(received, packets);
    assert!(wire.is_empty());
}

#[test]
fn what_the_client_sends_the_server_receives_in_order() {
    let m = table();
    let mut server = Codec::new_as_server(&m);
    let mut client = Codec::new_as_client(&m);
    let packets = vec![say("one"), Packet::Pong(Pong { serial: 1, time: 2 }), say("three")];
    let mut wire = BytesMut::new();
    for p in &packets {
        client.encode(RawPacket::from_packet(p, &m).unwrap(), &mut wire).unwrap();
    }
    let mut received = vec![];
    while let Some(raw) = server.decode(&mut wire).unwrap() {
        received.push(raw.to_packet(&m).unwrap());
    }
    assert_eq!(received, packets);
}

#[test]
fn two_ends_in_the_same_role_do_not_understand_each_other() {
    let m = table();
    let mut one = Codec::new_as_server(&m);
    let mut other = Codec::new_as_server(&m);
    let mut wire = BytesMut::new();
    one.encode(RawPacket::from_packet(&say("secret"), &m).unwrap(), &mut wire).unwrap();
    let raw = other.decode(&mut wire).unwrap().unwrap();
    assert_ne!(raw.to_packet(&m).ok(), Some(say("secret")));
}

#[test]
fn the_ciphers_of_a_table_are_those_of_its_halves() {
    let m = table();
    let (mut a, mut b) = get_ciphers(&m);
    let (mut c, mut d) = m.get_ciphers();
    let mut w = [0u8; 4];
    let mut x = [0u8; 4];
    let mut y = [0u8; 4];
    let mut z = [0u8; 4];
    a.process(&mut w);
    b.process(&mut x);
    c.process(&mut y);
    d.process(&mut z);
    assert_eq!(w, y);
    assert_eq!(x, z);
}

#[test]
fn the_whole_request_is_answered_with_the_policy() {
    assert_eq!(POLICY_REQUEST_LEN, 23);
    assert_eq!(&POLICY_REQUEST[..], b"<policy-file-request/>\0");
    assert_eq!(classify_preamble(b"<policy-file-request/>\0"), PolicyStep::SendPolicy);
    assert!(POLICY_FILE.contains("permitted-cross-domain-policies=\"all\""));
    assert!(POLICY_FILE.contains("<allow-access-from domain=\"*\" to-ports=\"*\"/>"));
    assert!(POLICY_FILE.starts_with("\n<?xml version=\"1.0\"?>\n"));
    assert!(POLICY_FILE.ends_with("</cross-domain-policy>\n"));
}

#[test]
fn a_start_of_the_request_asks_for_more() {
    assert_eq!(classify_preamble(b""), PolicyStep::NeedMore);
    assert_eq!(classify_preamble(b"<"), PolicyStep::NeedMore);
    assert_eq!(classify_preamble(b"<policy-file-request/>"), PolicyStep::NeedMore);
}

#[test]
fn anything_else_is_game_traffic() {
    assert_eq!(classify_preamble(&[0, 0, 0, 9, 1]), PolicyStep::GameTraffic);
    assert_eq!(classify_preamble(b"<policy-file-request/>x"), PolicyStep::GameTraffic);
    assert_eq!(classify_preamble(b"<policy-file-request/>\0\0"), PolicyStep::GameTraffic);
    assert_eq!(classify_preamble(b"<policx"), PolicyStep::GameTraffic);
    let mut greeting = vec![];
    Packet::Hello(Hello {
        build_version: RLE::new("X".to_owned()),
        game_id: 0,
        guid: RLE::new(String::new()),
        rand1: 0,
        password: RLE::new(String::new()),
        rand2: 0,
        secret: RLE::new(String::new()),
        key_time: 0,
        key: RLE::new(vec![]),
        map_json: RLE::new(String::new()),
        entry_tag: RLE::new(String::new()),
        game_net: RLE::new(String::new()),
        game_net_user_id: RLE::new(String::new()),
        play_platform: RLE::new(String::new()),
        platform_token: RLE::new(String::new()),
        user_token: RLE::new(String::new()),
    })
    .to_bytes(&mut greeting)
    .unwrap();
    assert_eq!(classify_preamble(&greeting[..23.min(greeting.len())]), PolicyStep::GameTraffic);
}
