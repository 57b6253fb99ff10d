use rotmg::adapter::rle::RLE;
use rotmg::adapter::{Adapter, Error, InvalidData};
use rotmg::cursor::Cursor;
use rotmg::ieee::F32;
use rotmg::packets::client::{AcceptTrade, CancelTrade, Hello, Move, PlayerShoot, UpdateAck};
use rotmg::packets::data::basic::{
    GroundTileData, MoveRecord, ObjectData, ObjectStatusData, QuestData, SlotObjectData,
    TradeItem, WorldPosData,
};
use rotmg::packets::data::stat::{StatData, StatType};
use rotmg::packets::definitions::{Packet, PacketData, PacketType, NUM_TYPES};
use rotmg::packets::server::{
    Damage, EnemyShoot, Failure, MapInfo, NewTick, Pic, Ping, QuestFetchResponse, Update,
};

fn text(s: &str) -> RLE<String> {
    RLE::new(s.to_owned())
}

fn pos(x: f32, y: f32) -> WorldPosData {
    WorldPosData { x: F32::from_bits(x.to_bits()), y: F32::from_bits(y.to_bits()) }
}

fn round_trip(packet: Packet) -> Vec<u8> {
    let mut bytes = vec![];
    packet.to_bytes(&mut bytes).unwrap();
    let mut cursor = Cursor::new(&bytes);
    let back = Packet::from_bytes(packet.get_type(), &mut cursor).unwrap();
    assert_eq!(back, packet);
    assert!(!cursor.has_remaining());
    bytes
}

fn hello() -> Hello {
    Hello {
        build_version: text("X31.2.0"),
        game_id: 0xfffffffe,
        guid: text("guid"),
        rand1: 1,
        password: text("pässword"),
        rand2: 2,
        secret: text(""),
        key_time: 3,
        key: RLE::new(vec![1, 2, 3]),
        map_json: RLE::new("{}".to_owned()),
        entry_tag: text("a"),
        game_net: text("b"),
        game_net_user_id: text("c"),
        play_platform: text("d"),
        platform_token: text("e"),
        user_token: text("f"),
    }
}

#[test]
fn every_tag_below_the_number_of_kinds_is_the_tag_of_its_kind() {
    assert_eq!(NUM_TYPES, 99);
    for tag in 0..=255u8 {
        match PacketType::from_byte(tag) {
            Some(kind) => {
                assert!((tag as usize) < NUM_TYPES);
                assert_eq!(kind.to_byte(), tag);
            }
            None => assert!(tag as usize >= NUM_TYPES),
        }
    }
    let all = PacketType::get_all_types();
    assert_eq!(all.len(), NUM_TYPES);
    for (i, kind) in all.iter().enumerate() {
        assert_eq!(kind.to_byte() as usize, i);
        assert_eq!(PacketType::from_byte(kind.to_byte()), Some(*kind));
    }
}

#[test]
fn kinds_have_their_names_and_sides() {
    assert_eq!(PacketType::AcceptTrade.to_byte(), 0);
    assert_eq!(PacketType::AcceptTrade.get_name(), "AcceptTrade");
    assert!(PacketType::AcceptTrade.is_client());
    assert!(!PacketType::AcceptTrade.is_server());
    assert_eq!(PacketType::AcceptArenaDeath.to_byte(), 48);
    assert!(PacketType::AcceptArenaDeath.is_client());
    assert_eq!(PacketType::AccountList.to_byte(), 49);
    assert!(PacketType::AccountList.is_server());
    assert_eq!(PacketType::VerifyEmail.to_byte(), 98);
    assert_eq!(PacketType::VerifyEmail.get_name(), "VerifyEmail");
    assert!(PacketType::VerifyEmail.is_server());
    assert_eq!(PacketType::Hello.get_name(), "Hello");
    let names = PacketType::get_name_mappings();
    assert_eq!(names.len(), NUM_TYPES);
    for (kind, name) in names {
        assert_eq!(kind.get_name(), name);
        assert_ne!(kind.is_server(), kind.is_client());
    }
}

#[test]
fn the_greeting_has_its_exact_bytes() {
    let bytes = round_trip(Packet::Hello(hello()));
    let mut expected = vec![0, 7];
    expected.extend_from_slice(b"X31.2.0");
    expected.extend_from_slice(&[0xff, 0xff, 0xff, 0xfe]);
    expected.extend_from_slice(&[0, 4]);
    expected.extend_from_slice(b"guid");
    expected.extend_from_slice(&[0, 0, 0, 1]);
    expected.extend_from_slice(&[0, 9]);
    expected.extend_from_slice("pässword".as_bytes());
    expected.extend_from_slice(&[0, 0, 0, 2, 0, 0, 0, 0, 0, 3]);
    expected.extend_from_slice(&[0, 3, 1, 2, 3]);
    expected.extend_from_slice(&[0, 0, 0, 2, b'{', b'}']);
    for c in [b'a', b'b', b'c', b'd', b'e', b'f'] {
        expected.extend_from_slice(&[0, 1, c]);
    }
    assert_eq!(bytes, expected);
}

#[test]
fn packets_without_fields_are_empty() {
    assert!(round_trip(Packet::CancelTrade(CancelTrade {})).is_empty());
    assert!(round_trip(Packet::UpdateAck(UpdateAck {})).is_empty());
}

#[test]
fn packets_of_many_shapes_round_trip() {
    round_trip(Packet::AcceptTrade(AcceptTrade {
        my_offer: RLE::new(vec![true, false, true]),
        your_offer: RLE::new(vec![]),
    }));
    round_trip(Packet::Move(Move {
        tick_id: 1,
        time: 2,
        new_pos: pos(1.5, -2.25),
        records: RLE::new(vec![MoveRecord {
            time: 3,
            x: F32::from_bits(0x7fc00001),
            y: F32::from_bits(0x80000000),
        }]),
    }));
    round_trip(Packet::PlayerShoot(PlayerShoot {
        time: 1,
        bullet_id: 2,
        container_type: 3,
        starting_pos: pos(0.0, 1.0),
        angle: F32::from_bits(3.14f32.to_bits()),
    }));
    let bytes = round_trip(Packet::Damage(Damage {
        target_id: 1,
        effects: RLE::new(vec![9, 8]),
        damage_amount: 0x0102,
        kill: true,
        armor_pierce: false,
        bullet_id: 3,
        object_id: 4,
    }));
    assert_eq!(bytes, vec![0, 0, 0, 1, 2, 9, 8, 1, 2, 1, 0, 3, 0, 0, 0, 4]);
    round_trip(Packet::Failure(Failure { error_id: 4, error_description: text("no") }));
    round_trip(Packet::Ping(Ping { serial: 77 }));
    round_trip(Packet::MapInfo(MapInfo {
        width: 1,
        height: 2,
        name: text("Nexus"),
        display_name: text("The Nexus"),
        fp: 3,
        background: 4,
        difficulty: 5,
        allow_player_teleport: true,
        show_displays: false,
        client_xml: RLE::new(vec![RLE::new("<a/>".to_owned()), RLE::new(String::new())]),
        extra_xml: RLE::new(vec![]),
    }));
    round_trip(Packet::QuestFetchResponse(QuestFetchResponse {
        quests: RLE::new(vec![QuestData {
            id: text("q"),
            name: text("n"),
            description: text("d"),
            category: 1,
            requirements: RLE::new(vec![1, 2]),
            rewards: RLE::new(vec![3]),
            completed: false,
            item_of_choice: true,
            repeatable: false,
        }]),
        next_refresh_price: 10,
    }));
}

#[test]
fn objects_with_stats_round_trip() {
    let status = ObjectStatusData {
        object_id: 7,
        pos: pos(3.0, 4.0),
        stats: RLE::new(vec![
            StatData::Integer(StatType::HP_STAT, -5),
            StatData::String(StatType::NAME_STAT, "Bob".to_owned()),
        ]),
    };
    let mut stat_bytes = vec![];
    StatData::Integer(StatType::HP_STAT, -5).put_be(&mut stat_bytes).unwrap();
    StatData::String(StatType::NAME_STAT, "Bob".to_owned())
        .put_be(&mut stat_bytes)
        .unwrap();
    assert_eq!(
        stat_bytes,
        vec![1, 0xff, 0xff, 0xff, 0xfb, 31, 0, 3, b'B', b'o', b'b']
    );
    round_trip(Packet::NewTick(NewTick {
        tick_id: 1,
        tick_time: 2,
        statuses: RLE::new(vec![status.clone()]),
    }));
    round_trip(Packet::Update(Update {
        tiles: RLE::new(vec![GroundTileData { x: 1, y: 2, tile: 3 }]),
        new_objs: RLE::new(vec![ObjectData { object_type: 0x0300, status }]),
        drops: RLE::new(vec![5, 6]),
    }));
}

#[test]
fn stat_types_and_their_bytes() {
    for byte in 0..=255u8 {
        if let Some(t) = StatType::from_byte(byte) {
            assert_eq!(t.to_byte(), byte);
            assert!(byte <= 99);
        }
    }
    assert_eq!(StatType::from_byte(23), None);
    assert_eq!(StatType::from_byte(100), None);
    assert_eq!(StatType::from_byte(255), None);
    assert_eq!(StatType::ATTACK_STAT.to_byte(), 20);
    assert_eq!(StatType::SUPPORTER_STAT.to_byte(), 99);
    assert!(StatType::NAME_STAT.is_string());
    assert!(StatType::GUILD_NAME_STAT.is_string());
    assert!(StatType::PET_NAME_STAT.is_string());
    assert!(StatType::ACCOUNT_ID_STAT.is_string());
    assert!(StatType::OWNER_ACCOUNT_ID_STAT.is_string());
    assert!(!StatType::HP_STAT.is_string());
    let unknown = [23u8, 0, 0, 0, 0];
    assert_eq!(
        StatData::get_be(&mut Cursor::new(&unknown)),
        Err(Error::InvalidData(InvalidData::UnknownStatType { byte: 23 }))
    );
}

#[test]
fn a_stat_of_the_wrong_kind_is_refused_before_anything_is_written() {
    let mut buf = vec![1u8];
    assert_eq!(
        StatData::String(StatType::HP_STAT, "x".to_owned()).put_be(&mut buf),
        Err(Error::InvalidData(InvalidData::StatNotString { stat_type: 1 }))
    );
    assert_eq!(
        StatData::Integer(StatType::NAME_STAT, 1).put_be(&mut buf),
        Err(Error::InvalidData(InvalidData::StatNotInteger { stat_type: 31 }))
    );
    assert_eq!(buf, vec![1]);
}

fn enemy_shoot(num_shots: Option<u8>, angle_inc: Option<F32>) -> EnemyShoot {
    EnemyShoot {
        bullet_id: 1,
        owner_id: 2,
        bullet_type: 3,
        starting_pos: pos(1.0, 2.0),
        angle: F32::from_bits(0x3f800000),
        damage: 100,
        num_shots,
        angle_inc,
    }
}

#[test]
fn trailing_options_round_trip_when_they_are_filled_from_the_front() {
    let inc = F32::from_bits(0x40000000);
    let none = round_trip(Packet::EnemyShoot(enemy_shoot(None, None)));
    assert_eq!(none.len(), 1 + 4 + 1 + 8 + 4 + 2);
    let one = round_trip(Packet::EnemyShoot(enemy_shoot(Some(5), None)));
    assert_eq!(one.len(), none.len() + 1);
    let both = round_trip(Packet::EnemyShoot(enemy_shoot(Some(5), Some(inc))));
    assert_eq!(both.len(), none.len() + 5);
}

#[test]
fn an_option_behind_an_empty_option_does_not_come_back() {
    let inc = F32::from_bits(0x40000000);
    let packet = enemy_shoot(None, Some(inc));
    let mut bytes = vec![];
    packet.put_be(&mut bytes).unwrap();
    let back = EnemyShoot::get_be(&mut Cursor::new(&bytes));
    assert_ne!(back, Ok(packet));
    assert_eq!(
        back,
        Err(Error::InsufficientBytes { remaining: 3, needed: 4 })
    );
}

#[test]
fn a_picture_is_its_dimensions_and_its_pixels() {
    let pic = Pic { w: 2, h: 1, bitmap_data: vec![1, 2, 3, 4, 5, 6, 7, 8] };
    let bytes = round_trip(Packet::Pic(pic));
    assert_eq!(bytes, vec![0, 0, 0, 2, 0, 0, 0, 1, 1, 2, 3, 4, 5, 6, 7, 8]);
    let empty = round_trip(Packet::Pic(Pic { w: 0, h: 9, bitmap_data: vec![] }));
    assert_eq!(empty.len(), 8);
    let short = [0u8, 0, 0, 2, 0, 0, 0, 2, 1, 2, 3];
    let mut cursor = Cursor::new(&short);
    assert_eq!(
        Pic::get_be(&mut cursor),
        Err(Error::InsufficientBytes { remaining: 3, needed: 16 })
    );
    assert_eq!(cursor.remaining(), 3);
    let huge = [0xffu8, 0xff, 0xff, 0xff, 0xff, 0xff, 0xff, 0xff];
    assert_eq!(
        Pic::get_be(&mut Cursor::new(&huge)),
        Err(Error::InsufficientBytes { remaining: 0, needed: usize::MAX })
    );
    let long = [0u8, 0, 0, 1, 0, 0, 0, 1, 1, 2, 3, 4, 5];
    let mut cursor = Cursor::new(&long);
    assert_eq!(Pic::get_be(&mut cursor).unwrap().bitmap_data, vec![1, 2, 3, 4]);
    assert_eq!(cursor.remaining(), 1);
}

#[test]
fn a_packet_is_cast_to_its_own_kind_only() {
    let packet = Packet::CancelTrade(CancelTrade {});
    assert_eq!(packet.downcast_ref::<CancelTrade>(), Ok(&CancelTrade {}));
    assert_eq!(packet.downcast_ref::<AcceptTrade>(), Err(&packet));
    assert_eq!(packet.clone().downcast::<CancelTrade>(), Ok(CancelTrade {}));
    assert_eq!(packet.clone().downcast::<Ping>(), Err(packet.clone()));
    assert_eq!(Ping { serial: 3 }.into_packet(), Packet::Ping(Ping { serial: 3 }));
    assert_eq!(Ping::packet_type(), PacketType::Ping);
    assert_eq!(Packet::Ping(Ping { serial: 3 }).get_type(), PacketType::Ping);
    assert_eq!(Ping::from_packet(Packet::Ping(Ping { serial: 3 })), Ok(Ping { serial: 3 }));
    assert_eq!(Hello::packet_type(), PacketType::Hello);
}

#[test]
fn decoding_fails_on_a_buffer_that_ends_too_soon() {
    let mut bytes = vec![];
    Packet::Hello(hello()).to_bytes(&mut bytes).unwrap();
    let cut = &bytes[..bytes.len() - 1];
    assert!(matches!(
        Packet::from_bytes(PacketType::Hello, &mut Cursor::new(cut)),
        Err(Error::InsufficientBytes { .. })
    ));
    assert_eq!(
        Packet::from_bytes(PacketType::Ping, &mut Cursor::new(&[0, 0])),
        Err(Error::InsufficientBytes { remaining: 2, needed: 4 })
    );
}

#[test]
fn encoding_keeps_what_was_written_before_a_failure() {
    let long = "x".repeat(70000);
    let packet = Failure { error_id: 1, error_description: RLE::new(long) };
    let mut buf = vec![];
    assert_eq!(
        packet.put_be(&mut buf),
        Err(Error::InvalidData(InvalidData::LengthFromUsize { len: 70000 }))
    );
    assert_eq!(buf, vec![0, 0, 0, 1]);
}

#[test]
fn composite_values_have_their_exact_bytes() {
    let mut buf = vec![];
    SlotObjectData { object_id: 1, slot_id: 2, object_type: 3 }.put_be(&mut buf).unwrap();
    TradeItem { item: 4, slot_type: 5, tradeable: true, included: false }
        .put_be(&mut buf)
        .unwrap();
    pos(1.0, -1.0).put_be(&mut buf).unwrap();
    assert_eq!(
        buf,
        vec![
            0, 0, 0, 1, 2, 0, 0, 0, 3, 0, 0, 0, 4, 0, 0, 0, 5, 1, 0, 0x3f, 0x80, 0, 0, 0xbf,
            0x80, 0, 0
        ]
    );
}
