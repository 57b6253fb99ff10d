//! The packets that the server sends.

use vstd::prelude::*;
use crate::adapter::rle::RLE;
use crate::adapter::{also, lemma_add_assoc, lemma_add_empty, wrote, Adapter, Error, Written};
use crate::cursor::{done, fail, then, Cursor, Read};
use crate::ieee::F32;
use crate::packets::data::basic::{
    GroundTileData, ObjectData, ObjectDataModel, ObjectStatusData, ObjectStatusDataModel,
    QuestData, QuestDataModel, TradeItem, WorldPosData,
};
use crate::packets::definitions::{Packet, PacketData, PacketModel, PacketType};

verus! {

/// The `AccountList` packet.
#[derive(Debug, Clone, PartialEq, Eq)]
pub struct AccountList {
    pub account_list_id: u32,
    pub account_ids: RLE<Vec<RLE<String>>>,
    pub lock_action: u32,
}

/// The model of [`AccountList`].
pub struct AccountListModel {
    pub account_list_id: u32,
    pub account_ids: Seq<Seq<char>>,
    pub lock_action: u32,
}

impl DeepView for AccountList {
    type V = AccountListModel;

    open spec fn deep_view(&self) -> AccountListModel {
        AccountListModel {
            account_list_id: self.account_list_id,
            account_ids: self.account_ids.deep_view(),
            lock_action: self.lock_action,
        }
    }
}

impl Adapter for AccountList {
    #[verifier::opaque]
    open spec fn spec_get(input: Seq<u8>) -> Read<AccountListModel, Error> {
        then(u32::spec_get(input), |account_list_id: u32, rest: Seq<u8>|
            then(RLE::<Vec<RLE<String, u16>>, u16>::spec_get(rest), |account_ids: Seq<Seq<char>>, rest: Seq<u8>|
                then(u32::spec_get(rest), |lock_action: u32, rest: Seq<u8>|
                    done(AccountListModel { account_list_id, account_ids, lock_action }, rest))))
    }

    #[verifier::opaque]
    open spec fn spec_put(value: AccountListModel) -> Written {
        also(also(u32::spec_put(value.account_list_id),
            RLE::<Vec<RLE<String, u16>>, u16>::spec_put(value.account_ids)),
            u32::spec_put(value.lock_action))
    }

    open spec fn round_trips(value: AccountListModel, rest: Seq<u8>) -> bool {
        let rest3 = rest;
        let rest2 = u32::spec_put(value.lock_action).bytes + rest3;
        let rest1 = RLE::<Vec<RLE<String, u16>>, u16>::spec_put(value.account_ids).bytes + rest2;
        &&& u32::round_trips(value.account_list_id, rest1)
        &&& RLE::<Vec<RLE<String, u16>>, u16>::round_trips(value.account_ids, rest2)
        &&& u32::round_trips(value.lock_action, rest3)
    }

    fn get_be(bytes: &mut Cursor) -> (r: Result<AccountList, Error>) {
        reveal(<AccountList as Adapter>::spec_get);
        let account_list_id = u32::get_be(bytes)?;
        let account_ids = RLE::<Vec<RLE<String, u16>>, u16>::get_be(bytes)?;
        let lock_action = u32::get_be(bytes)?;
        Ok(AccountList { account_list_id, account_ids, lock_action })
    }

    fn put_be(&self, buffer: &mut Vec<u8>) -> (r: Result<(), Error>) {
        reveal(<AccountList as Adapter>::spec_put);
        self.account_list_id.put_be(buffer)?;
        let ghost written = u32::spec_put(self.deep_view().account_list_id).bytes;
        proof {
            lemma_add_assoc(old(buffer)@, written, RLE::<Vec<RLE<String, u16>>, u16>::spec_put(self.deep_view().account_ids).bytes);
        }
        self.account_ids.put_be(buffer)?;
        let ghost written = written + RLE::<Vec<RLE<String, u16>>, u16>::spec_put(self.deep_view().account_ids).bytes;
        proof {
            lemma_add_assoc(old(buffer)@, written, u32::spec_put(self.deep_view().lock_action).bytes);
        }
        self.lock_action.put_be(buffer)?;
        Ok(())
    }

    proof fn lemma_round_trip(value: AccountListModel, rest: Seq<u8>) {
        reveal(<AccountList as Adapter>::spec_get);
        reveal(<AccountList as Adapter>::spec_put);
        let rest3 = rest;
        let rest2 = u32::spec_put(value.lock_action).bytes + rest3;
        let rest1 = RLE::<Vec<RLE<String, u16>>, u16>::spec_put(value.account_ids).bytes + rest2;
        let front1 = u32::spec_put(value.account_list_id).bytes;
        let front2 = front1 + RLE::<Vec<RLE<String, u16>>, u16>::spec_put(value.account_ids).bytes;
        lemma_add_assoc(front2, u32::spec_put(value.lock_action).bytes, rest3);
        lemma_add_assoc(front1, RLE::<Vec<RLE<String, u16>>, u16>::spec_put(value.account_ids).bytes, rest2);
        u32::lemma_round_trip(value.account_list_id, rest1);
        RLE::<Vec<RLE<String, u16>>, u16>::lemma_round_trip(value.account_ids, rest2);
        u32::lemma_round_trip(value.lock_action, rest3);
    }
}

impl PacketData for AccountList {
    open spec fn spec_packet_type() -> PacketType {
        PacketType::AccountList
    }

    open spec fn spec_wrap(value: AccountListModel) -> PacketModel {
        PacketModel::AccountList(value)
    }

    fn packet_type() -> (kind: PacketType) {
        PacketType::AccountList
    }

    fn into_packet(self) -> (packet: Packet) {
        Packet::AccountList(self)
    }

    fn from_packet(packet: Packet) -> (r: Result<AccountList, Packet>) {
        match packet {
            Packet::AccountList(v) => Ok(v),
            p => Err(p),
        }
    }

    fn from_packet_ref(packet: &Packet) -> (r: Result<&AccountList, &Packet>) {
        match packet {
            Packet::AccountList(v) => Ok(v),
            p => Err(p),
        }
    }
}

/// The `ActivePetUpdate` packet.
#[derive(Debug, Clone, Copy, PartialEq, Eq, Structural)]
pub struct ActivePetUpdate {
    pub instance_id: u32,
}

impl DeepView for ActivePetUpdate {
    type V = ActivePetUpdate;

    open spec fn deep_view(&self) -> ActivePetUpdate {
        *self
    }
}

impl Adapter for ActivePetUpdate {
    #[verifier::opaque]
    open spec fn spec_get(input: Seq<u8>) -> Read<ActivePetUpdate, Error> {
        then(u32::spec_get(input), |instance_id: u32, rest: Seq<u8>|
            done(ActivePetUpdate { instance_id }, rest))
    }

    #[verifier::opaque]
    open spec fn spec_put(value: ActivePetUpdate) -> Written {
        u32::spec_put(value.instance_id)
    }

    open spec fn round_trips(value: ActivePetUpdate, rest: Seq<u8>) -> bool {
        let rest1 = rest;
        &&& u32::round_trips(value.instance_id, rest1)
    }

    fn get_be(bytes: &mut Cursor) -> (r: Result<ActivePetUpdate, Error>) {
        reveal(<ActivePetUpdate as Adapter>::spec_get);
        let instance_id = u32::get_be(bytes)?;
        Ok(ActivePetUpdate { instance_id })
    }

    fn put_be(&self, buffer: &mut Vec<u8>) -> (r: Result<(), Error>) {
        reveal(<ActivePetUpdate as Adapter>::spec_put);
        self.instance_id.put_be(buffer)?;
        Ok(())
    }

    proof fn lemma_round_trip(value: ActivePetUpdate, rest: Seq<u8>) {
        reveal(<ActivePetUpdate as Adapter>::spec_get);
        reveal(<ActivePetUpdate as Adapter>::spec_put);
        let rest1 = rest;
        u32::lemma_round_trip(value.instance_id, rest1);
    }
}

impl PacketData for ActivePetUpdate {
    open spec fn spec_packet_type() -> PacketType {
        PacketType::ActivePetUpdate
    }

    open spec fn spec_wrap(value: ActivePetUpdate) -> PacketModel {
        PacketModel::ActivePetUpdate(value)
    }

    fn packet_type() -> (kind: PacketType) {
        PacketType::ActivePetUpdate
    }

    fn into_packet(self) -> (packet: Packet) {
        Packet::ActivePetUpdate(self)
    }

    fn from_packet(packet: Packet) -> (r: Result<ActivePetUpdate, Packet>) {
        match packet {
            Packet::ActivePetUpdate(v) => Ok(v),
            p => Err(p),
        }
    }

    fn from_packet_ref(packet: &Packet) -> (r: Result<&ActivePetUpdate, &Packet>) {
        match packet {
            Packet::ActivePetUpdate(v) => Ok(v),
            p => Err(p),
        }
    }
}

/// The `AllyShoot` packet.
#[derive(Debug, Clone, Copy, PartialEq, Eq, Structural)]
pub struct AllyShoot {
    pub bullet_id: u8,
    pub owner_id: u32,
    pub container_type: u16,
    pub angle: F32,
}

impl DeepView for AllyShoot {
    type V = AllyShoot;

    open spec fn deep_view(&self) -> AllyShoot {
        *self
    }
}

impl Adapter for AllyShoot {
    #[verifier::opaque]
    open spec fn spec_get(input: Seq<u8>) -> Read<AllyShoot, Error> {
        then(u8::spec_get(input), |bullet_id: u8, rest: Seq<u8>|
            then(u32::spec_get(rest), |owner_id: u32, rest: Seq<u8>|
                then(u16::spec_get(rest), |container_type: u16, rest: Seq<u8>|
                    then(F32::spec_get(rest), |angle: F32, rest: Seq<u8>|
                        done(AllyShoot { bullet_id, owner_id, container_type, angle }, rest)))))
    }

    #[verifier::opaque]
    open spec fn spec_put(value: AllyShoot) -> Written {
        also(also(also(u8::spec_put(value.bullet_id),
            u32::spec_put(value.owner_id)),
            u16::spec_put(value.container_type)),
            F32::spec_put(value.angle))
    }

    open spec fn round_trips(value: AllyShoot, rest: Seq<u8>) -> bool {
        let rest4 = rest;
        let rest3 = F32::spec_put(value.angle).bytes + rest4;
        let rest2 = u16::spec_put(value.container_type).bytes + rest3;
        let rest1 = u32::spec_put(value.owner_id).bytes + rest2;
        &&& u8::round_trips(value.bullet_id, rest1)
        &&& u32::round_trips(value.owner_id, rest2)
        &&& u16::round_trips(value.container_type, rest3)
        &&& F32::round_trips(value.angle, rest4)
    }

    fn get_be(bytes: &mut Cursor) -> (r: Result<AllyShoot, Error>) {
        reveal(<AllyShoot as Adapter>::spec_get);
        let bullet_id = u8::get_be(bytes)?;
        let owner_id = u32::get_be(bytes)?;
        let container_type = u16::get_be(bytes)?;
        let angle = F32::get_be(bytes)?;
        Ok(AllyShoot { bullet_id, owner_id, container_type, angle })
    }

    fn put_be(&self, buffer: &mut Vec<u8>) -> (r: Result<(), Error>) {
        reveal(<AllyShoot as Adapter>::spec_put);
        self.bullet_id.put_be(buffer)?;
        let ghost written = u8::spec_put(self.deep_view().bullet_id).bytes;
        proof {
            lemma_add_assoc(old(buffer)@, written, u32::spec_put(self.deep_view().owner_id).bytes);
        }
        self.owner_id.put_be(buffer)?;
        let ghost written = written + u32::spec_put(self.deep_view().owner_id).bytes;
        proof {
            lemma_add_assoc(old(buffer)@, written, u16::spec_put(self.deep_view().container_type).bytes);
        }
        self.container_type.put_be(buffer)?;
        let ghost written = written + u16::spec_put(self.deep_view().container_type).bytes;
        proof {
            lemma_add_assoc(old(buffer)@, written, F32::spec_put(self.deep_view().angle).bytes);
        }
        self.angle.put_be(buffer)?;
        Ok(())
    }

    proof fn lemma_round_trip(value: AllyShoot, rest: Seq<u8>) {
        reveal(<AllyShoot as Adapter>::spec_get);
        reveal(<AllyShoot as Adapter>::spec_put);
        let rest4 = rest;
        let rest3 = F32::spec_put(value.angle).bytes + rest4;
        let rest2 = u16::spec_put(value.container_type).bytes + rest3;
        let rest1 = u32::spec_put(value.owner_id).bytes + rest2;
        let front1 = u8::spec_put(value.bullet_id).bytes;
        let front2 = front1 + u32::spec_put(value.owner_id).bytes;
        let front3 = front2 + u16::spec_put(value.container_type).bytes;
        lemma_add_assoc(front3, F32::spec_put(value.angle).bytes, rest4);
        lemma_add_assoc(front2, u16::spec_put(value.container_type).bytes, rest3);
        lemma_add_assoc(front1, u32::spec_put(value.owner_id).bytes, rest2);
        u8::lemma_round_trip(value.bullet_id, rest1);
        u32::lemma_round_trip(value.owner_id, rest2);
        u16::lemma_round_trip(value.container_type, rest3);
        F32::lemma_round_trip(value.angle, rest4);
    }
}

impl PacketData for AllyShoot {
    open spec fn spec_packet_type() -> PacketType {
        PacketType::AllyShoot
    }

    open spec fn spec_wrap(value: AllyShoot) -> PacketModel {
        PacketModel::AllyShoot(value)
    }

    fn packet_type() -> (kind: PacketType) {
        PacketType::AllyShoot
    }

    fn into_packet(self) -> (packet: Packet) {
        Packet::AllyShoot(self)
    }

    fn from_packet(packet: Packet) -> (r: Result<AllyShoot, Packet>) {
        match packet {
            Packet::AllyShoot(v) => Ok(v),
            p => Err(p),
        }
    }

    fn from_packet_ref(packet: &Packet) -> (r: Result<&AllyShoot, &Packet>) {
        match packet {
            Packet::AllyShoot(v) => Ok(v),
            p => Err(p),
        }
    }
}

/// The `Aoe` packet.
#[derive(Debug, Clone, Copy, PartialEq, Eq, Structural)]
pub struct Aoe {
    pub pos: WorldPosData,
    pub radius: F32,
    pub damage: u16,
    pub effect: u8,
    pub duration: F32,
    pub orig_type: u16,
    pub color: u32,
    pub armor_pierce: bool,
}

impl DeepView for Aoe {
    type V = Aoe;

    open spec fn deep_view(&self) -> Aoe {
        *self
    }
}

impl Adapter for Aoe {
    #[verifier::opaque]
    open spec fn spec_get(input: Seq<u8>) -> Read<Aoe, Error> {
        then(WorldPosData::spec_get(input), |pos: WorldPosData, rest: Seq<u8>|
            then(F32::spec_get(rest), |radius: F32, rest: Seq<u8>|
                then(u16::spec_get(rest), |damage: u16, rest: Seq<u8>|
                    then(u8::spec_get(rest), |effect: u8, rest: Seq<u8>|
                        then(F32::spec_get(rest), |duration: F32, rest: Seq<u8>|
                            then(u16::spec_get(rest), |orig_type: u16, rest: Seq<u8>|
                                then(u32::spec_get(rest), |color: u32, rest: Seq<u8>|
                                    then(bool::spec_get(rest), |armor_pierce: bool, rest: Seq<u8>|
                                        done(Aoe { pos, radius, damage, effect, duration, orig_type, color, armor_pierce }, rest)))))))))
    }

    #[verifier::opaque]
    open spec fn spec_put(value: Aoe) -> Written {
        also(also(also(also(also(also(also(WorldPosData::spec_put(value.pos),
            F32::spec_put(value.radius)),
            u16::spec_put(value.damage)),
            u8::spec_put(value.effect)),
            F32::spec_put(value.duration)),
            u16::spec_put(value.orig_type)),
            u32::spec_put(value.color)),
            bool::spec_put(value.armor_pierce))
    }

    open spec fn round_trips(value: Aoe, rest: Seq<u8>) -> bool {
        let rest8 = rest;
        let rest7 = bool::spec_put(value.armor_pierce).bytes + rest8;
        let rest6 = u32::spec_put(value.color).bytes + rest7;
        let rest5 = u16::spec_put(value.orig_type).bytes + rest6;
        let rest4 = F32::spec_put(value.duration).bytes + rest5;
        let rest3 = u8::spec_put(value.effect).bytes + rest4;
        let rest2 = u16::spec_put(value.damage).bytes + rest3;
        let rest1 = F32::spec_put(value.radius).bytes + rest2;
        &&& WorldPosData::round_trips(value.pos, rest1)
        &&& F32::round_trips(value.radius, rest2)
        &&& u16::round_trips(value.damage, rest3)
        &&& u8::round_trips(value.effect, rest4)
        &&& F32::round_trips(value.duration, rest5)
        &&& u16::round_trips(value.orig_type, rest6)
        &&& u32::round_trips(value.color, rest7)
        &&& bool::round_trips(value.armor_pierce, rest8)
    }

    fn get_be(bytes: &mut Cursor) -> (r: Result<Aoe, Error>) {
        reveal(<Aoe as Adapter>::spec_get);
        let pos = WorldPosData::get_be(bytes)?;
        let radius = F32::get_be(bytes)?;
        let damage = u16::get_be(bytes)?;
        let effect = u8::get_be(bytes)?;
        let duration = F32::get_be(bytes)?;
        let orig_type = u16::get_be(bytes)?;
        let color = u32::get_be(bytes)?;
        let armor_pierce = bool::get_be(bytes)?;
        Ok(Aoe { pos, radius, damage, effect, duration, orig_type, color, armor_pierce })
    }

    fn put_be(&self, buffer: &mut Vec<u8>) -> (r: Result<(), Error>) {
        reveal(<Aoe as Adapter>::spec_put);
        self.pos.put_be(buffer)?;
        let ghost written = WorldPosData::spec_put(self.deep_view().pos).bytes;
        proof {
            lemma_add_assoc(old(buffer)@, written, F32::spec_put(self.deep_view().radius).bytes);
        }
        self.radius.put_be(buffer)?;
        let ghost written = written + F32::spec_put(self.deep_view().radius).bytes;
        proof {
            lemma_add_assoc(old(buffer)@, written, u16::spec_put(self.deep_view().damage).bytes);
        }
        self.damage.put_be(buffer)?;
        let ghost written = written + u16::spec_put(self.deep_view().damage).bytes;
        proof {
            lemma_add_assoc(old(buffer)@, written, u8::spec_put(self.deep_view().effect).bytes);
        }
        self.effect.put_be(buffer)?;
        let ghost written = written + u8::spec_put(self.deep_view().effect).bytes;
        proof {
            lemma_add_assoc(old(buffer)@, written, F32::spec_put(self.deep_view().duration).bytes);
        }
        self.duration.put_be(buffer)?;
        let ghost written = written + F32::spec_put(self.deep_view().duration).bytes;
        proof {
            lemma_add_assoc(old(buffer)@, written, u16::spec_put(self.deep_view().orig_type).bytes);
        }
        self.orig_type.put_be(buffer)?;
        let ghost written = written + u16::spec_put(self.deep_view().orig_type).bytes;
        proof {
            lemma_add_assoc(old(buffer)@, written, u32::spec_put(self.deep_view().color).bytes);
        }
        self.color.put_be(buffer)?;
        let ghost written = written + u32::spec_put(self.deep_view().color).bytes;
        proof {
            lemma_add_assoc(old(buffer)@, written, bool::spec_put(self.deep_view().armor_pierce).bytes);
        }
        self.armor_pierce.put_be(buffer)?;
        Ok(())
    }

    proof fn lemma_round_trip(value: Aoe, rest: Seq<u8>) {
        reveal(<Aoe as Adapter>::spec_get);
        reveal(<Aoe as Adapter>::spec_put);
        let rest8 = rest;
        let rest7 = bool::spec_put(value.armor_pierce).bytes + rest8;
        let rest6 = u32::spec_put(value.color).bytes + rest7;
        let rest5 = u16::spec_put(value.orig_type).bytes + rest6;
        let rest4 = F32::spec_put(value.duration).bytes + rest5;
        let rest3 = u8::spec_put(value.effect).bytes + rest4;
        let rest2 = u16::spec_put(value.damage).bytes + rest3;
        let rest1 = F32::spec_put(value.radius).bytes + rest2;
        let front1 = WorldPosData::spec_put(value.pos).bytes;
        let front2 = front1 + F32::spec_put(value.radius).bytes;
        let front3 = front2 + u16::spec_put(value.damage).bytes;
        let front4 = front3 + u8::spec_put(value.effect).bytes;
        let front5 = front4 + F32::spec_put(value.duration).bytes;
        let front6 = front5 + u16::spec_put(value.orig_type).bytes;
        let front7 = front6 + u32::spec_put(value.color).bytes;
        lemma_add_assoc(front7, bool::spec_put(value.armor_pierce).bytes, rest8);
        lemma_add_assoc(front6, u32::spec_put(value.color).bytes, rest7);
        lemma_add_assoc(front5, u16::spec_put(value.orig_type).bytes, rest6);
        lemma_add_assoc(front4, F32::spec_put(value.duration).bytes, rest5);
        lemma_add_assoc(front3, u8::spec_put(value.effect).bytes, rest4);
        lemma_add_assoc(front2, u16::spec_put(value.damage).bytes, rest3);
        lemma_add_assoc(front1, F32::spec_put(value.radius).bytes, rest2);
        WorldPosData::lemma_round_trip(value.pos, rest1);
        F32::lemma_round_trip(value.radius, rest2);
        u16::lemma_round_trip(value.damage, rest3);
        u8::lemma_round_trip(value.effect, rest4);
        F32::lemma_round_trip(value.duration, rest5);
        u16::lemma_round_trip(value.orig_type, rest6);
        u32::lemma_round_trip(value.color, rest7);
        bool::lemma_round_trip(value.armor_pierce, rest8);
    }
}

impl PacketData for Aoe {
    open spec fn spec_packet_type() -> PacketType {
        PacketType::Aoe
    }

    open spec fn spec_wrap(value: Aoe) -> PacketModel {
        PacketModel::Aoe(value)
    }

    fn packet_type() -> (kind: PacketType) {
        PacketType::Aoe
    }

    fn into_packet(self) -> (packet: Packet) {
        Packet::Aoe(self)
    }

    fn from_packet(packet: Packet) -> (r: Result<Aoe, Packet>) {
        match packet {
            Packet::Aoe(v) => Ok(v),
            p => Err(p),
        }
    }

    fn from_packet_ref(packet: &Packet) -> (r: Result<&Aoe, &Packet>) {
        match packet {
            Packet::Aoe(v) => Ok(v),
            p => Err(p),
        }
    }
}

/// The `ArenaDeath` packet.
#[derive(Debug, Clone, Copy, PartialEq, Eq, Structural)]
pub struct ArenaDeath {
    pub cost: u32,
}

impl DeepView for ArenaDeath {
    type V = ArenaDeath;

    open spec fn deep_view(&self) -> ArenaDeath {
        *self
    }
}

impl Adapter for ArenaDeath {
    #[verifier::opaque]
    open spec fn spec_get(input: Seq<u8>) -> Read<ArenaDeath, Error> {
        then(u32::spec_get(input), |cost: u32, rest: Seq<u8>|
            done(ArenaDeath { cost }, rest))
    }

    #[verifier::opaque]
    open spec fn spec_put(value: ArenaDeath) -> Written {
        u32::spec_put(value.cost)
    }

    open spec fn round_trips(value: ArenaDeath, rest: Seq<u8>) -> bool {
        let rest1 = rest;
        &&& u32::round_trips(value.cost, rest1)
    }

    fn get_be(bytes: &mut Cursor) -> (r: Result<ArenaDeath, Error>) {
        reveal(<ArenaDeath as Adapter>::spec_get);
        let cost = u32::get_be(bytes)?;
        Ok(ArenaDeath { cost })
    }

    fn put_be(&self, buffer: &mut Vec<u8>) -> (r: Result<(), Error>) {
        reveal(<ArenaDeath as Adapter>::spec_put);
        self.cost.put_be(buffer)?;
        Ok(())
    }

    proof fn lemma_round_trip(value: ArenaDeath, rest: Seq<u8>) {
        reveal(<ArenaDeath as Adapter>::spec_get);
        reveal(<ArenaDeath as Adapter>::spec_put);
        let rest1 = rest;
        u32::lemma_round_trip(value.cost, rest1);
    }
}

impl PacketData for ArenaDeath {
    open spec fn spec_packet_type() -> PacketType {
        PacketType::ArenaDeath
    }

    open spec fn spec_wrap(value: ArenaDeath) -> PacketModel {
        PacketModel::ArenaDeath(value)
    }

    fn packet_type() -> (kind: PacketType) {
        PacketType::ArenaDeath
    }

    fn into_packet(self) -> (packet: Packet) {
        Packet::ArenaDeath(self)
    }

    fn from_packet(packet: Packet) -> (r: Result<ArenaDeath, Packet>) {
        match packet {
            Packet::ArenaDeath(v) => Ok(v),
            p => Err(p),
        }
    }

    fn from_packet_ref(packet: &Packet) -> (r: Result<&ArenaDeath, &Packet>) {
        match packet {
            Packet::ArenaDeath(v) => Ok(v),
            p => Err(p),
        }
    }
}

/// The `BuyResult` packet.
#[derive(Debug, Clone, PartialEq, Eq)]
pub struct BuyResult {
    pub result: u32,
    pub result_string: RLE<String>,
}

/// The model of [`BuyResult`].
pub struct BuyResultModel {
    pub result: u32,
    pub result_string: Seq<char>,
}

impl DeepView for BuyResult {
    type V = BuyResultModel;

    open spec fn deep_view(&self) -> BuyResultModel {
        BuyResultModel {
            result: self.result,
            result_string: self.result_string.deep_view(),
        }
    }
}

impl Adapter for BuyResult {
    #[verifier::opaque]
    open spec fn spec_get(input: Seq<u8>) -> Read<BuyResultModel, Error> {
        then(u32::spec_get(input), |result: u32, rest: Seq<u8>|
            then(RLE::<String, u16>::spec_get(rest), |result_string: Seq<char>, rest: Seq<u8>|
                done(BuyResultModel { result, result_string }, rest)))
    }

    #[verifier::opaque]
    open spec fn spec_put(value: BuyResultModel) -> Written {
        also(u32::spec_put(value.result),
            RLE::<String, u16>::spec_put(value.result_string))
    }

    open spec fn round_trips(value: BuyResultModel, rest: Seq<u8>) -> bool {
        let rest2 = rest;
        let rest1 = RLE::<String, u16>::spec_put(value.result_string).bytes + rest2;
        &&& u32::round_trips(value.result, rest1)
        &&& RLE::<String, u16>::round_trips(value.result_string, rest2)
    }

    fn get_be(bytes: &mut Cursor) -> (r: Result<BuyResult, Error>) {
        reveal(<BuyResult as Adapter>::spec_get);
        let result = u32::get_be(bytes)?;
        let result_string = RLE::<String, u16>::get_be(bytes)?;
        Ok(BuyResult { result, result_string })
    }

    fn put_be(&self, buffer: &mut Vec<u8>) -> (r: Result<(), Error>) {
        reveal(<BuyResult as Adapter>::spec_put);
        self.result.put_be(buffer)?;
        let ghost written = u32::spec_put(self.deep_view().result).bytes;
        proof {
            lemma_add_assoc(old(buffer)@, written, RLE::<String, u16>::spec_put(self.deep_view().result_string).bytes);
        }
        self.result_string.put_be(buffer)?;
        Ok(())
    }

    proof fn lemma_round_trip(value: BuyResultModel, rest: Seq<u8>) {
        reveal(<BuyResult as Adapter>::spec_get);
        reveal(<BuyResult as Adapter>::spec_put);
        let rest2 = rest;
        let rest1 = RLE::<String, u16>::spec_put(value.result_string).bytes + rest2;
        let front1 = u32::spec_put(value.result).bytes;
        lemma_add_assoc(front1, RLE::<String, u16>::spec_put(value.result_string).bytes, rest2);
        u32::lemma_round_trip(value.result, rest1);
        RLE::<String, u16>::lemma_round_trip(value.result_string, rest2);
    }
}

impl PacketData for BuyResult {
    open spec fn spec_packet_type() -> PacketType {
        PacketType::BuyResult
    }

    open spec fn spec_wrap(value: BuyResultModel) -> PacketModel {
        PacketModel::BuyResult(value)
    }

    fn packet_type() -> (kind: PacketType) {
        PacketType::BuyResult
    }

    fn into_packet(self) -> (packet: Packet) {
        Packet::BuyResult(self)
    }

    fn from_packet(packet: Packet) -> (r: Result<BuyResult, Packet>) {
        match packet {
            Packet::BuyResult(v) => Ok(v),
            p => Err(p),
        }
    }

    fn from_packet_ref(packet: &Packet) -> (r: Result<&BuyResult, &Packet>) {
        match packet {
            Packet::BuyResult(v) => Ok(v),
            p => Err(p),
        }
    }
}

/// The `ClientStat` packet.
#[derive(Debug, Clone, PartialEq, Eq)]
pub struct ClientStat {
    pub name: RLE<String>,
    pub value: u32,
}

/// The model of [`ClientStat`].
pub struct ClientStatModel {
    pub name: Seq<char>,
    pub value: u32,
}

impl DeepView for ClientStat {
    type V = ClientStatModel;

    open spec fn deep_view(&self) -> ClientStatModel {
        ClientStatModel {
            name: self.name.deep_view(),
            value: self.value,
        }
    }
}

impl Adapter for ClientStat {
    #[verifier::opaque]
    open spec fn spec_get(input: Seq<u8>) -> Read<ClientStatModel, Error> {
        then(RLE::<String, u16>::spec_get(input), |name: Seq<char>, rest: Seq<u8>|
            then(u32::spec_get(rest), |value: u32, rest: Seq<u8>|
                done(ClientStatModel { name, value }, rest)))
    }

    #[verifier::opaque]
    open spec fn spec_put(value: ClientStatModel) -> Written {
        also(RLE::<String, u16>::spec_put(value.name),
            u32::spec_put(value.value))
    }

    open spec fn round_trips(value: ClientStatModel, rest: Seq<u8>) -> bool {
        let rest2 = rest;
        let rest1 = u32::spec_put(value.value).bytes + rest2;
        &&& RLE::<String, u16>::round_trips(value.name, rest1)
        &&& u32::round_trips(value.value, rest2)
    }

    fn get_be(bytes: &mut Cursor) -> (r: Result<ClientStat, Error>) {
        reveal(<ClientStat as Adapter>::spec_get);
        let name = RLE::<String, u16>::get_be(bytes)?;
        let value = u32::get_be(bytes)?;
        Ok(ClientStat { name, value })
    }

    fn put_be(&self, buffer: &mut Vec<u8>) -> (r: Result<(), Error>) {
        reveal(<ClientStat as Adapter>::spec_put);
        self.name.put_be(buffer)?;
        let ghost written = RLE::<String, u16>::spec_put(self.deep_view().name).bytes;
        proof {
            lemma_add_assoc(old(buffer)@, written, u32::spec_put(self.deep_view().value).bytes);
        }
        self.value.put_be(buffer)?;
        Ok(())
    }

    proof fn lemma_round_trip(value: ClientStatModel, rest: Seq<u8>) {
        reveal(<ClientStat as Adapter>::spec_get);
        reveal(<ClientStat as Adapter>::spec_put);
        let rest2 = rest;
        let rest1 = u32::spec_put(value.value).bytes + rest2;
        let front1 = RLE::<String, u16>::spec_put(value.name).bytes;
        lemma_add_assoc(front1, u32::spec_put(value.value).bytes, rest2);
        RLE::<String, u16>::lemma_round_trip(value.name, rest1);
        u32::lemma_round_trip(value.value, rest2);
    }
}

impl PacketData for ClientStat {
    open spec fn spec_packet_type() -> PacketType {
        PacketType::ClientStat
    }

    open spec fn spec_wrap(value: ClientStatModel) -> PacketModel {
        PacketModel::ClientStat(value)
    }

    fn packet_type() -> (kind: PacketType) {
        PacketType::ClientStat
    }

    fn into_packet(self) -> (packet: Packet) {
        Packet::ClientStat(self)
    }

    fn from_packet(packet: Packet) -> (r: Result<ClientStat, Packet>) {
        match packet {
            Packet::ClientStat(v) => Ok(v),
            p => Err(p),
        }
    }

    fn from_packet_ref(packet: &Packet) -> (r: Result<&ClientStat, &Packet>) {
        match packet {
            Packet::ClientStat(v) => Ok(v),
            p => Err(p),
        }
    }
}

/// The `CreateSuccess` packet.
#[derive(Debug, Clone, Copy, PartialEq, Eq, Structural)]
pub struct CreateSuccess {
    pub object_id: u32,
    pub char_id: u32,
}

impl DeepView for CreateSuccess {
    type V = CreateSuccess;

    open spec fn deep_view(&self) -> CreateSuccess {
        *self
    }
}

impl Adapter for CreateSuccess {
    #[verifier::opaque]
    open spec fn spec_get(input: Seq<u8>) -> Read<CreateSuccess, Error> {
        then(u32::spec_get(input), |object_id: u32, rest: Seq<u8>|
            then(u32::spec_get(rest), |char_id: u32, rest: Seq<u8>|
                done(CreateSuccess { object_id, char_id }, rest)))
    }

    #[verifier::opaque]
    open spec fn spec_put(value: CreateSuccess) -> Written {
        also(u32::spec_put(value.object_id),
            u32::spec_put(value.char_id))
    }

    open spec fn round_trips(value: CreateSuccess, rest: Seq<u8>) -> bool {
        let rest2 = rest;
        let rest1 = u32::spec_put(value.char_id).bytes + rest2;
        &&& u32::round_trips(value.object_id, rest1)
        &&& u32::round_trips(value.char_id, rest2)
    }

    fn get_be(bytes: &mut Cursor) -> (r: Result<CreateSuccess, Error>) {
        reveal(<CreateSuccess as Adapter>::spec_get);
        let object_id = u32::get_be(bytes)?;
        let char_id = u32::get_be(bytes)?;
        Ok(CreateSuccess { object_id, char_id })
    }

    fn put_be(&self, buffer: &mut Vec<u8>) -> (r: Result<(), Error>) {
        reveal(<CreateSuccess as Adapter>::spec_put);
        self.object_id.put_be(buffer)?;
        let ghost written = u32::spec_put(self.deep_view().object_id).bytes;
        proof {
            lemma_add_assoc(old(buffer)@, written, u32::spec_put(self.deep_view().char_id).bytes);
        }
        self.char_id.put_be(buffer)?;
        Ok(())
    }

    proof fn lemma_round_trip(value: CreateSuccess, rest: Seq<u8>) {
        reveal(<CreateSuccess as Adapter>::spec_get);
        reveal(<CreateSuccess as Adapter>::spec_put);
        let rest2 = rest;
        let rest1 = u32::spec_put(value.char_id).bytes + rest2;
        let front1 = u32::spec_put(value.object_id).bytes;
        lemma_add_assoc(front1, u32::spec_put(value.char_id).bytes, rest2);
        u32::lemma_round_trip(value.object_id, rest1);
        u32::lemma_round_trip(value.char_id, rest2);
    }
}

impl PacketData for CreateSuccess {
    open spec fn spec_packet_type() -> PacketType {
        PacketType::CreateSuccess
    }

    open spec fn spec_wrap(value: CreateSuccess) -> PacketModel {
        PacketModel::CreateSuccess(value)
    }

    fn packet_type() -> (kind: PacketType) {
        PacketType::CreateSuccess
    }

    fn into_packet(self) -> (packet: Packet) {
        Packet::CreateSuccess(self)
    }

    fn from_packet(packet: Packet) -> (r: Result<CreateSuccess, Packet>) {
        match packet {
            Packet::CreateSuccess(v) => Ok(v),
            p => Err(p),
        }
    }

    fn from_packet_ref(packet: &Packet) -> (r: Result<&CreateSuccess, &Packet>) {
        match packet {
            Packet::CreateSuccess(v) => Ok(v),
            p => Err(p),
        }
    }
}

/// The `Damage` packet.
#[derive(Debug, Clone, PartialEq, Eq)]
pub struct Damage {
    pub target_id: u32,
    pub effects: RLE<Vec<u8>, u8>,
    pub damage_amount: u16,
    pub kill: bool,
    pub armor_pierce: bool,
    pub bullet_id: u8,
    pub object_id: u32,
}

/// The model of [`Damage`].
pub struct DamageModel {
    pub target_id: u32,
    pub effects: Seq<u8>,
    pub damage_amount: u16,
    pub kill: bool,
    pub armor_pierce: bool,
    pub bullet_id: u8,
    pub object_id: u32,
}

impl DeepView for Damage {
    type V = DamageModel;

    open spec fn deep_view(&self) -> DamageModel {
        DamageModel {
            target_id: self.target_id,
            effects: self.effects.deep_view(),
            damage_amount: self.damage_amount,
            kill: self.kill,
            armor_pierce: self.armor_pierce,
            bullet_id: self.bullet_id,
            object_id: self.object_id,
        }
    }
}

impl Adapter for Damage {
    #[verifier::opaque]
    open spec fn spec_get(input: Seq<u8>) -> Read<DamageModel, Error> {
        then(u32::spec_get(input), |target_id: u32, rest: Seq<u8>|
            then(RLE::<Vec<u8>, u8>::spec_get(rest), |effects: Seq<u8>, rest: Seq<u8>|
                then(u16::spec_get(rest), |damage_amount: u16, rest: Seq<u8>|
                    then(bool::spec_get(rest), |kill: bool, rest: Seq<u8>|
                        then(bool::spec_get(rest), |armor_pierce: bool, rest: Seq<u8>|
                            then(u8::spec_get(rest), |bullet_id: u8, rest: Seq<u8>|
                                then(u32::spec_get(rest), |object_id: u32, rest: Seq<u8>|
                                    done(DamageModel { target_id, effects, damage_amount, kill, armor_pierce, bullet_id, object_id }, rest))))))))
    }

    #[verifier::opaque]
    open spec fn spec_put(value: DamageModel) -> Written {
        also(also(also(also(also(also(u32::spec_put(value.target_id),
            RLE::<Vec<u8>, u8>::spec_put(value.effects)),
            u16::spec_put(value.damage_amount)),
            bool::spec_put(value.kill)),
            bool::spec_put(value.armor_pierce)),
            u8::spec_put(value.bullet_id)),
            u32::spec_put(value.object_id))
    }

    open spec fn round_trips(value: DamageModel, rest: Seq<u8>) -> bool {
        let rest7 = rest;
        let rest6 = u32::spec_put(value.object_id).bytes + rest7;
        let rest5 = u8::spec_put(value.bullet_id).bytes + rest6;
        let rest4 = bool::spec_put(value.armor_pierce).bytes + rest5;
        let rest3 = bool::spec_put(value.kill).bytes + rest4;
        let rest2 = u16::spec_put(value.damage_amount).bytes + rest3;
        let rest1 = RLE::<Vec<u8>, u8>::spec_put(value.effects).bytes + rest2;
        &&& u32::round_trips(value.target_id, rest1)
        &&& RLE::<Vec<u8>, u8>::round_trips(value.effects, rest2)
        &&& u16::round_trips(value.damage_amount, rest3)
        &&& bool::round_trips(value.kill, rest4)
        &&& bool::round_trips(value.armor_pierce, rest5)
        &&& u8::round_trips(value.bullet_id, rest6)
        &&& u32::round_trips(value.object_id, rest7)
    }

    fn get_be(bytes: &mut Cursor) -> (r: Result<Damage, Error>) {
        reveal(<Damage as Adapter>::spec_get);
        let target_id = u32::get_be(bytes)?;
        let effects = RLE::<Vec<u8>, u8>::get_be(bytes)?;
        let damage_amount = u16::get_be(bytes)?;
        let kill = bool::get_be(bytes)?;
        let armor_pierce = bool::get_be(bytes)?;
        let bullet_id = u8::get_be(bytes)?;
        let object_id = u32::get_be(bytes)?;
        Ok(Damage { target_id, effects, damage_amount, kill, armor_pierce, bullet_id, object_id })
    }

    fn put_be(&self, buffer: &mut Vec<u8>) -> (r: Result<(), Error>) {
        reveal(<Damage as Adapter>::spec_put);
        self.target_id.put_be(buffer)?;
        let ghost written = u32::spec_put(self.deep_view().target_id).bytes;
        proof {
            lemma_add_assoc(old(buffer)@, written, RLE::<Vec<u8>, u8>::spec_put(self.deep_view().effects).bytes);
        }
        self.effects.put_be(buffer)?;
        let ghost written = written + RLE::<Vec<u8>, u8>::spec_put(self.deep_view().effects).bytes;
        proof {
            lemma_add_assoc(old(buffer)@, written, u16::spec_put(self.deep_view().damage_amount).bytes);
        }
        self.damage_amount.put_be(buffer)?;
        let ghost written = written + u16::spec_put(self.deep_view().damage_amount).bytes;
        proof {
            lemma_add_assoc(old(buffer)@, written, bool::spec_put(self.deep_view().kill).bytes);
        }
        self.kill.put_be(buffer)?;
        let ghost written = written + bool::spec_put(self.deep_view().kill).bytes;
        proof {
            lemma_add_assoc(old(buffer)@, written, bool::spec_put(self.deep_view().armor_pierce).bytes);
        }
        self.armor_pierce.put_be(buffer)?;
        let ghost written = written + bool::spec_put(self.deep_view().armor_pierce).bytes;
        proof {
            lemma_add_assoc(old(buffer)@, written, u8::spec_put(self.deep_view().bullet_id).bytes);
        }
        self.bullet_id.put_be(buffer)?;
        let ghost written = written + u8::spec_put(self.deep_view().bullet_id).bytes;
        proof {
            lemma_add_assoc(old(buffer)@, written, u32::spec_put(self.deep_view().object_id).bytes);
        }
        self.object_id.put_be(buffer)?;
        Ok(())
    }

    proof fn lemma_round_trip(value: DamageModel, rest: Seq<u8>) {
        reveal(<Damage as Adapter>::spec_get);
        reveal(<Damage as Adapter>::spec_put);
        let rest7 = rest;
        let rest6 = u32::spec_put(value.object_id).bytes + rest7;
        let rest5 = u8::spec_put(value.bullet_id).bytes + rest6;
        let rest4 = bool::spec_put(value.armor_pierce).bytes + rest5;
        let rest3 = bool::spec_put(value.kill).bytes + rest4;
        let rest2 = u16::spec_put(value.damage_amount).bytes + rest3;
        let rest1 = RLE::<Vec<u8>, u8>::spec_put(value.effects).bytes + rest2;
        let front1 = u32::spec_put(value.target_id).bytes;
        let front2 = front1 + RLE::<Vec<u8>, u8>::spec_put(value.effects).bytes;
        let front3 = front2 + u16::spec_put(value.damage_amount).bytes;
        let front4 = front3 + bool::spec_put(value.kill).bytes;
        let front5 = front4 + bool::spec_put(value.armor_pierce).bytes;
        let front6 = front5 + u8::spec_put(value.bullet_id).bytes;
        lemma_add_assoc(front6, u32::spec_put(value.object_id).bytes, rest7);
        lemma_add_assoc(front5, u8::spec_put(value.bullet_id).bytes, rest6);
        lemma_add_assoc(front4, bool::spec_put(value.armor_pierce).bytes, rest5);
        lemma_add_assoc(front3, bool::spec_put(value.kill).bytes, rest4);
        lemma_add_assoc(front2, u16::spec_put(value.damage_amount).bytes, rest3);
        lemma_add_assoc(front1, RLE::<Vec<u8>, u8>::spec_put(value.effects).bytes, rest2);
        u32::lemma_round_trip(value.target_id, rest1);
        RLE::<Vec<u8>, u8>::lemma_round_trip(value.effects, rest2);
        u16::lemma_round_trip(value.damage_amount, rest3);
        bool::lemma_round_trip(value.kill, rest4);
        bool::lemma_round_trip(value.armor_pierce, rest5);
        u8::lemma_round_trip(value.bullet_id, rest6);
        u32::lemma_round_trip(value.object_id, rest7);
    }
}

impl PacketData for Damage {
    open spec fn spec_packet_type() -> PacketType {
        PacketType::Damage
    }

    open spec fn spec_wrap(value: DamageModel) -> PacketModel {
        PacketModel::Damage(value)
    }

    fn packet_type() -> (kind: PacketType) {
        PacketType::Damage
    }

    fn into_packet(self) -> (packet: Packet) {
        Packet::Damage(self)
    }

    fn from_packet(packet: Packet) -> (r: Result<Damage, Packet>) {
        match packet {
            Packet::Damage(v) => Ok(v),
            p => Err(p),
        }
    }

    fn from_packet_ref(packet: &Packet) -> (r: Result<&Damage, &Packet>) {
        match packet {
            Packet::Damage(v) => Ok(v),
            p => Err(p),
        }
    }
}

/// The `Death` packet.
#[derive(Debug, Clone, PartialEq, Eq)]
pub struct Death {
    pub account_id: RLE<String>,
    pub char_id: u32,
    pub killed_by: RLE<String>,
    pub zombie_type: u32,
    pub zombie_id: u32,
}

/// The model of [`Death`].
pub struct DeathModel {
    pub account_id: Seq<char>,
    pub char_id: u32,
    pub killed_by: Seq<char>,
    pub zombie_type: u32,
    pub zombie_id: u32,
}

impl DeepView for Death {
    type V = DeathModel;

    open spec fn deep_view(&self) -> DeathModel {
        DeathModel {
            account_id: self.account_id.deep_view(),
            char_id: self.char_id,
            killed_by: self.killed_by.deep_view(),
            zombie_type: self.zombie_type,
            zombie_id: self.zombie_id,
        }
    }
}

impl Adapter for Death {
    #[verifier::opaque]
    open spec fn spec_get(input: Seq<u8>) -> Read<DeathModel, Error> {
        then(RLE::<String, u16>::spec_get(input), |account_id: Seq<char>, rest: Seq<u8>|
            then(u32::spec_get(rest), |char_id: u32, rest: Seq<u8>|
                then(RLE::<String, u16>::spec_get(rest), |killed_by: Seq<char>, rest: Seq<u8>|
                    then(u32::spec_get(rest), |zombie_type: u32, rest: Seq<u8>|
                        then(u32::spec_get(rest), |zombie_id: u32, rest: Seq<u8>|
                            done(DeathModel { account_id, char_id, killed_by, zombie_type, zombie_id }, rest))))))
    }

    #[verifier::opaque]
    open spec fn spec_put(value: DeathModel) -> Written {
        also(also(also(also(RLE::<String, u16>::spec_put(value.account_id),
            u32::spec_put(value.char_id)),
            RLE::<String, u16>::spec_put(value.killed_by)),
            u32::spec_put(value.zombie_type)),
            u32::spec_put(value.zombie_id))
    }

    open spec fn round_trips(value: DeathModel, rest: Seq<u8>) -> bool {
        let rest5 = rest;
        let rest4 = u32::spec_put(value.zombie_id).bytes + rest5;
        let rest3 = u32::spec_put(value.zombie_type).bytes + rest4;
        let rest2 = RLE::<String, u16>::spec_put(value.killed_by).bytes + rest3;
        let rest1 = u32::spec_put(value.char_id).bytes + rest2;
        &&& RLE::<String, u16>::round_trips(value.account_id, rest1)
        &&& u32::round_trips(value.char_id, rest2)
        &&& RLE::<String, u16>::round_trips(value.killed_by, rest3)
        &&& u32::round_trips(value.zombie_type, rest4)
        &&& u32::round_trips(value.zombie_id, rest5)
    }

    fn get_be(bytes: &mut Cursor) -> (r: Result<Death, Error>) {
        reveal(<Death as Adapter>::spec_get);
        let account_id = RLE::<String, u16>::get_be(bytes)?;
        let char_id = u32::get_be(bytes)?;
        let killed_by = RLE::<String, u16>::get_be(bytes)?;
        let zombie_type = u32::get_be(bytes)?;
        let zombie_id = u32::get_be(bytes)?;
        Ok(Death { account_id, char_id, killed_by, zombie_type, zombie_id })
    }

    fn put_be(&self, buffer: &mut Vec<u8>) -> (r: Result<(), Error>) {
        reveal(<Death as Adapter>::spec_put);
        self.account_id.put_be(buffer)?;
        let ghost written = RLE::<String, u16>::spec_put(self.deep_view().account_id).bytes;
        proof {
            lemma_add_assoc(old(buffer)@, written, u32::spec_put(self.deep_view().char_id).bytes);
        }
        self.char_id.put_be(buffer)?;
        let ghost written = written + u32::spec_put(self.deep_view().char_id).bytes;
        proof {
            lemma_add_assoc(old(buffer)@, written, RLE::<String, u16>::spec_put(self.deep_view().killed_by).bytes);
        }
        self.killed_by.put_be(buffer)?;
        let ghost written = written + RLE::<String, u16>::spec_put(self.deep_view().killed_by).bytes;
        proof {
            lemma_add_assoc(old(buffer)@, written, u32::spec_put(self.deep_view().zombie_type).bytes);
        }
        self.zombie_type.put_be(buffer)?;
        let ghost written = written + u32::spec_put(self.deep_view().zombie_type).bytes;
        proof {
            lemma_add_assoc(old(buffer)@, written, u32::spec_put(self.deep_view().zombie_id).bytes);
        }
        self.zombie_id.put_be(buffer)?;
        Ok(())
    }

    proof fn lemma_round_trip(value: DeathModel, rest: Seq<u8>) {
        reveal(<Death as Adapter>::spec_get);
        reveal(<Death as Adapter>::spec_put);
        let rest5 = rest;
        let rest4 = u32::spec_put(value.zombie_id).bytes + rest5;
        let rest3 = u32::spec_put(value.zombie_type).bytes + rest4;
        let rest2 = RLE::<String, u16>::spec_put(value.killed_by).bytes + rest3;
        let rest1 = u32::spec_put(value.char_id).bytes + rest2;
        let front1 = RLE::<String, u16>::spec_put(value.account_id).bytes;
        let front2 = front1 + u32::spec_put(value.char_id).bytes;
        let front3 = front2 + RLE::<String, u16>::spec_put(value.killed_by).bytes;
        let front4 = front3 + u32::spec_put(value.zombie_type).bytes;
        lemma_add_assoc(front4, u32::spec_put(value.zombie_id).bytes, rest5);
        lemma_add_assoc(front3, u32::spec_put(value.zombie_type).bytes, rest4);
        lemma_add_assoc(front2, RLE::<String, u16>::spec_put(value.killed_by).bytes, rest3);
        lemma_add_assoc(front1, u32::spec_put(value.char_id).bytes, rest2);
        RLE::<String, u16>::lemma_round_trip(value.account_id, rest1);
        u32::lemma_round_trip(value.char_id, rest2);
        RLE::<String, u16>::lemma_round_trip(value.killed_by, rest3);
        u32::lemma_round_trip(value.zombie_type, rest4);
        u32::lemma_round_trip(value.zombie_id, rest5);
    }
}

impl PacketData for Death {
    open spec fn spec_packet_type() -> PacketType {
        PacketType::Death
    }

    open spec fn spec_wrap(value: DeathModel) -> PacketModel {
        PacketModel::Death(value)
    }

    fn packet_type() -> (kind: PacketType) {
        PacketType::Death
    }

    fn into_packet(self) -> (packet: Packet) {
        Packet::Death(self)
    }

    fn from_packet(packet: Packet) -> (r: Result<Death, Packet>) {
        match packet {
            Packet::Death(v) => Ok(v),
            p => Err(p),
        }
    }

    fn from_packet_ref(packet: &Packet) -> (r: Result<&Death, &Packet>) {
        match packet {
            Packet::Death(v) => Ok(v),
            p => Err(p),
        }
    }
}

/// The `DeletePet` packet.
#[derive(Debug, Clone, Copy, PartialEq, Eq, Structural)]
pub struct DeletePet {
    pub pet_id: u32,
}

impl DeepView for DeletePet {
    type V = DeletePet;

    open spec fn deep_view(&self) -> DeletePet {
        *self
    }
}

impl Adapter for DeletePet {
    #[verifier::opaque]
    open spec fn spec_get(input: Seq<u8>) -> Read<DeletePet, Error> {
        then(u32::spec_get(input), |pet_id: u32, rest: Seq<u8>|
            done(DeletePet { pet_id }, rest))
    }

    #[verifier::opaque]
    open spec fn spec_put(value: DeletePet) -> Written {
        u32::spec_put(value.pet_id)
    }

    open spec fn round_trips(value: DeletePet, rest: Seq<u8>) -> bool {
        let rest1 = rest;
        &&& u32::round_trips(value.pet_id, rest1)
    }

    fn get_be(bytes: &mut Cursor) -> (r: Result<DeletePet, Error>) {
        reveal(<DeletePet as Adapter>::spec_get);
        let pet_id = u32::get_be(bytes)?;
        Ok(DeletePet { pet_id })
    }

    fn put_be(&self, buffer: &mut Vec<u8>) -> (r: Result<(), Error>) {
        reveal(<DeletePet as Adapter>::spec_put);
        self.pet_id.put_be(buffer)?;
        Ok(())
    }

    proof fn lemma_round_trip(value: DeletePet, rest: Seq<u8>) {
        reveal(<DeletePet as Adapter>::spec_get);
        reveal(<DeletePet as Adapter>::spec_put);
        let rest1 = rest;
        u32::lemma_round_trip(value.pet_id, rest1);
    }
}

impl PacketData for DeletePet {
    open spec fn spec_packet_type() -> PacketType {
        PacketType::DeletePet
    }

    open spec fn spec_wrap(value: DeletePet) -> PacketModel {
        PacketModel::DeletePet(value)
    }

    fn packet_type() -> (kind: PacketType) {
        PacketType::DeletePet
    }

    fn into_packet(self) -> (packet: Packet) {
        Packet::DeletePet(self)
    }

    fn from_packet(packet: Packet) -> (r: Result<DeletePet, Packet>) {
        match packet {
            Packet::DeletePet(v) => Ok(v),
            p => Err(p),
        }
    }

    fn from_packet_ref(packet: &Packet) -> (r: Result<&DeletePet, &Packet>) {
        match packet {
            Packet::DeletePet(v) => Ok(v),
            p => Err(p),
        }
    }
}

/// The `EnemyShoot` packet.
#[derive(Debug, Clone, PartialEq, Eq)]
pub struct EnemyShoot {
    pub bullet_id: u8,
    pub owner_id: u32,
    pub bullet_type: u8,
    pub starting_pos: WorldPosData,
    pub angle: F32,
    pub damage: u16,
    pub num_shots: Option<u8>,
    pub angle_inc: Option<F32>,
}

/// The model of [`EnemyShoot`].
pub struct EnemyShootModel {
    pub bullet_id: u8,
    pub owner_id: u32,
    pub bullet_type: u8,
    pub starting_pos: WorldPosData,
    pub angle: F32,
    pub damage: u16,
    pub num_shots: Option<u8>,
    pub angle_inc: Option<F32>,
}

impl DeepView for EnemyShoot {
    type V = EnemyShootModel;

    open spec fn deep_view(&self) -> EnemyShootModel {
        EnemyShootModel {
            bullet_id: self.bullet_id,
            owner_id: self.owner_id,
            bullet_type: self.bullet_type,
            starting_pos: self.starting_pos,
            angle: self.angle,
            damage: self.damage,
            num_shots: self.num_shots.deep_view(),
            angle_inc: self.angle_inc.deep_view(),
        }
    }
}

impl Adapter for EnemyShoot {
    #[verifier::opaque]
    open spec fn spec_get(input: Seq<u8>) -> Read<EnemyShootModel, Error> {
        then(u8::spec_get(input), |bullet_id: u8, rest: Seq<u8>|
            then(u32::spec_get(rest), |owner_id: u32, rest: Seq<u8>|
                then(u8::spec_get(rest), |bullet_type: u8, rest: Seq<u8>|
                    then(WorldPosData::spec_get(rest), |starting_pos: WorldPosData, rest: Seq<u8>|
                        then(F32::spec_get(rest), |angle: F32, rest: Seq<u8>|
                            then(u16::spec_get(rest), |damage: u16, rest: Seq<u8>|
                                then(Option::<u8>::spec_get(rest), |num_shots: Option<u8>, rest: Seq<u8>|
                                    then(Option::<F32>::spec_get(rest), |angle_inc: Option<F32>, rest: Seq<u8>|
                                        done(EnemyShootModel { bullet_id, owner_id, bullet_type, starting_pos, angle, damage, num_shots, angle_inc }, rest)))))))))
    }

    #[verifier::opaque]
    open spec fn spec_put(value: EnemyShootModel) -> Written {
        also(also(also(also(also(also(also(u8::spec_put(value.bullet_id),
            u32::spec_put(value.owner_id)),
            u8::spec_put(value.bullet_type)),
            WorldPosData::spec_put(value.starting_pos)),
            F32::spec_put(value.angle)),
            u16::spec_put(value.damage)),
            Option::<u8>::spec_put(value.num_shots)),
            Option::<F32>::spec_put(value.angle_inc))
    }

    open spec fn round_trips(value: EnemyShootModel, rest: Seq<u8>) -> bool {
        let rest8 = rest;
        let rest7 = Option::<F32>::spec_put(value.angle_inc).bytes + rest8;
        let rest6 = Option::<u8>::spec_put(value.num_shots).bytes + rest7;
        let rest5 = u16::spec_put(value.damage).bytes + rest6;
        let rest4 = F32::spec_put(value.angle).bytes + rest5;
        let rest3 = WorldPosData::spec_put(value.starting_pos).bytes + rest4;
        let rest2 = u8::spec_put(value.bullet_type).bytes + rest3;
        let rest1 = u32::spec_put(value.owner_id).bytes + rest2;
        &&& u8::round_trips(value.bullet_id, rest1)
        &&& u32::round_trips(value.owner_id, rest2)
        &&& u8::round_trips(value.bullet_type, rest3)
        &&& WorldPosData::round_trips(value.starting_pos, rest4)
        &&& F32::round_trips(value.angle, rest5)
        &&& u16::round_trips(value.damage, rest6)
        &&& Option::<u8>::round_trips(value.num_shots, rest7)
        &&& Option::<F32>::round_trips(value.angle_inc, rest8)
    }

    fn get_be(bytes: &mut Cursor) -> (r: Result<EnemyShoot, Error>) {
        reveal(<EnemyShoot as Adapter>::spec_get);
        let bullet_id = u8::get_be(bytes)?;
        let owner_id = u32::get_be(bytes)?;
        let bullet_type = u8::get_be(bytes)?;
        let starting_pos = WorldPosData::get_be(bytes)?;
        let angle = F32::get_be(bytes)?;
        let damage = u16::get_be(bytes)?;
        let num_shots = Option::<u8>::get_be(bytes)?;
        let angle_inc = Option::<F32>::get_be(bytes)?;
        Ok(EnemyShoot { bullet_id, owner_id, bullet_type, starting_pos, angle, damage, num_shots, angle_inc })
    }

    fn put_be(&self, buffer: &mut Vec<u8>) -> (r: Result<(), Error>) {
        reveal(<EnemyShoot as Adapter>::spec_put);
        self.bullet_id.put_be(buffer)?;
        let ghost written = u8::spec_put(self.deep_view().bullet_id).bytes;
        proof {
            lemma_add_assoc(old(buffer)@, written, u32::spec_put(self.deep_view().owner_id).bytes);
        }
        self.owner_id.put_be(buffer)?;
        let ghost written = written + u32::spec_put(self.deep_view().owner_id).bytes;
        proof {
            lemma_add_assoc(old(buffer)@, written, u8::spec_put(self.deep_view().bullet_type).bytes);
        }
        self.bullet_type.put_be(buffer)?;
        let ghost written = written + u8::spec_put(self.deep_view().bullet_type).bytes;
        proof {
            lemma_add_assoc(old(buffer)@, written, WorldPosData::spec_put(self.deep_view().starting_pos).bytes);
        }
        self.starting_pos.put_be(buffer)?;
        let ghost written = written + WorldPosData::spec_put(self.deep_view().starting_pos).bytes;
        proof {
            lemma_add_assoc(old(buffer)@, written, F32::spec_put(self.deep_view().angle).bytes);
        }
        self.angle.put_be(buffer)?;
        let ghost written = written + F32::spec_put(self.deep_view().angle).bytes;
        proof {
            lemma_add_assoc(old(buffer)@, written, u16::spec_put(self.deep_view().damage).bytes);
        }
        self.damage.put_be(buffer)?;
        let ghost written = written + u16::spec_put(self.deep_view().damage).bytes;
        proof {
            lemma_add_assoc(old(buffer)@, written, Option::<u8>::spec_put(self.deep_view().num_shots).bytes);
        }
        self.num_shots.put_be(buffer)?;
        let ghost written = written + Option::<u8>::spec_put(self.deep_view().num_shots).bytes;
        proof {
            lemma_add_assoc(old(buffer)@, written, Option::<F32>::spec_put(self.deep_view().angle_inc).bytes);
        }
        self.angle_inc.put_be(buffer)?;
        Ok(())
    }

    proof fn lemma_round_trip(value: EnemyShootModel, rest: Seq<u8>) {
        reveal(<EnemyShoot as Adapter>::spec_get);
        reveal(<EnemyShoot as Adapter>::spec_put);
        let rest8 = rest;
        let rest7 = Option::<F32>::spec_put(value.angle_inc).bytes + rest8;
        let rest6 = Option::<u8>::spec_put(value.num_shots).bytes + rest7;
        let rest5 = u16::spec_put(value.damage).bytes + rest6;
        let rest4 = F32::spec_put(value.angle).bytes + rest5;
        let rest3 = WorldPosData::spec_put(value.starting_pos).bytes + rest4;
        let rest2 = u8::spec_put(value.bullet_type).bytes + rest3;
        let rest1 = u32::spec_put(value.owner_id).bytes + rest2;
        let front1 = u8::spec_put(value.bullet_id).bytes;
        let front2 = front1 + u32::spec_put(value.owner_id).bytes;
        let front3 = front2 + u8::spec_put(value.bullet_type).bytes;
        let front4 = front3 + WorldPosData::spec_put(value.starting_pos).bytes;
        let front5 = front4 + F32::spec_put(value.angle).bytes;
        let front6 = front5 + u16::spec_put(value.damage).bytes;
        let front7 = front6 + Option::<u8>::spec_put(value.num_shots).bytes;
        lemma_add_assoc(front7, Option::<F32>::spec_put(value.angle_inc).bytes, rest8);
        lemma_add_assoc(front6, Option::<u8>::spec_put(value.num_shots).bytes, rest7);
        lemma_add_assoc(front5, u16::spec_put(value.damage).bytes, rest6);
        lemma_add_assoc(front4, F32::spec_put(value.angle).bytes, rest5);
        lemma_add_assoc(front3, WorldPosData::spec_put(value.starting_pos).bytes, rest4);
        lemma_add_assoc(front2, u8::spec_put(value.bullet_type).bytes, rest3);
        lemma_add_assoc(front1, u32::spec_put(value.owner_id).bytes, rest2);
        u8::lemma_round_trip(value.bullet_id, rest1);
        u32::lemma_round_trip(value.owner_id, rest2);
        u8::lemma_round_trip(value.bullet_type, rest3);
        WorldPosData::lemma_round_trip(value.starting_pos, rest4);
        F32::lemma_round_trip(value.angle, rest5);
        u16::lemma_round_trip(value.damage, rest6);
        Option::<u8>::lemma_round_trip(value.num_shots, rest7);
        Option::<F32>::lemma_round_trip(value.angle_inc, rest8);
    }
}

impl PacketData for EnemyShoot {
    open spec fn spec_packet_type() -> PacketType {
        PacketType::EnemyShoot
    }

    open spec fn spec_wrap(value: EnemyShootModel) -> PacketModel {
        PacketModel::EnemyShoot(value)
    }

    fn packet_type() -> (kind: PacketType) {
        PacketType::EnemyShoot
    }

    fn into_packet(self) -> (packet: Packet) {
        Packet::EnemyShoot(self)
    }

    fn from_packet(packet: Packet) -> (r: Result<EnemyShoot, Packet>) {
        match packet {
            Packet::EnemyShoot(v) => Ok(v),
            p => Err(p),
        }
    }

    fn from_packet_ref(packet: &Packet) -> (r: Result<&EnemyShoot, &Packet>) {
        match packet {
            Packet::EnemyShoot(v) => Ok(v),
            p => Err(p),
        }
    }
}

/// The `EvolvePet` packet.
#[derive(Debug, Clone, Copy, PartialEq, Eq, Structural)]
pub struct EvolvePet {
    pub pet_id: u32,
    pub initial_skin: u32,
    pub final_skin: u32,
}

impl DeepView for EvolvePet {
    type V = EvolvePet;

    open spec fn deep_view(&self) -> EvolvePet {
        *self
    }
}

impl Adapter for EvolvePet {
    #[verifier::opaque]
    open spec fn spec_get(input: Seq<u8>) -> Read<EvolvePet, Error> {
        then(u32::spec_get(input), |pet_id: u32, rest: Seq<u8>|
            then(u32::spec_get(rest), |initial_skin: u32, rest: Seq<u8>|
                then(u32::spec_get(rest), |final_skin: u32, rest: Seq<u8>|
                    done(EvolvePet { pet_id, initial_skin, final_skin }, rest))))
    }

    #[verifier::opaque]
    open spec fn spec_put(value: EvolvePet) -> Written {
        also(also(u32::spec_put(value.pet_id),
            u32::spec_put(value.initial_skin)),
            u32::spec_put(value.final_skin))
    }

    open spec fn round_trips(value: EvolvePet, rest: Seq<u8>) -> bool {
        let rest3 = rest;
        let rest2 = u32::spec_put(value.final_skin).bytes + rest3;
        let rest1 = u32::spec_put(value.initial_skin).bytes + rest2;
        &&& u32::round_trips(value.pet_id, rest1)
        &&& u32::round_trips(value.initial_skin, rest2)
        &&& u32::round_trips(value.final_skin, rest3)
    }

    fn get_be(bytes: &mut Cursor) -> (r: Result<EvolvePet, Error>) {
        reveal(<EvolvePet as Adapter>::spec_get);
        let pet_id = u32::get_be(bytes)?;
        let initial_skin = u32::get_be(bytes)?;
        let final_skin = u32::get_be(bytes)?;
        Ok(EvolvePet { pet_id, initial_skin, final_skin })
    }

    fn put_be(&self, buffer: &mut Vec<u8>) -> (r: Result<(), Error>) {
        reveal(<EvolvePet as Adapter>::spec_put);
        self.pet_id.put_be(buffer)?;
        let ghost written = u32::spec_put(self.deep_view().pet_id).bytes;
        proof {
            lemma_add_assoc(old(buffer)@, written, u32::spec_put(self.deep_view().initial_skin).bytes);
        }
        self.initial_skin.put_be(buffer)?;
        let ghost written = written + u32::spec_put(self.deep_view().initial_skin).bytes;
        proof {
            lemma_add_assoc(old(buffer)@, written, u32::spec_put(self.deep_view().final_skin).bytes);
        }
        self.final_skin.put_be(buffer)?;
        Ok(())
    }

    proof fn lemma_round_trip(value: EvolvePet, rest: Seq<u8>) {
        reveal(<EvolvePet as Adapter>::spec_get);
        reveal(<EvolvePet as Adapter>::spec_put);
        let rest3 = rest;
        let rest2 = u32::spec_put(value.final_skin).bytes + rest3;
        let rest1 = u32::spec_put(value.initial_skin).bytes + rest2;
        let front1 = u32::spec_put(value.pet_id).bytes;
        let front2 = front1 + u32::spec_put(value.initial_skin).bytes;
        lemma_add_assoc(front2, u32::spec_put(value.final_skin).bytes, rest3);
        lemma_add_assoc(front1, u32::spec_put(value.initial_skin).bytes, rest2);
        u32::lemma_round_trip(value.pet_id, rest1);
        u32::lemma_round_trip(value.initial_skin, rest2);
        u32::lemma_round_trip(value.final_skin, rest3);
    }
}

impl PacketData for EvolvePet {
    open spec fn spec_packet_type() -> PacketType {
        PacketType::EvolvePet
    }

    open spec fn spec_wrap(value: EvolvePet) -> PacketModel {
        PacketModel::EvolvePet(value)
    }

    fn packet_type() -> (kind: PacketType) {
        PacketType::EvolvePet
    }

    fn into_packet(self) -> (packet: Packet) {
        Packet::EvolvePet(self)
    }

    fn from_packet(packet: Packet) -> (r: Result<EvolvePet, Packet>) {
        match packet {
            Packet::EvolvePet(v) => Ok(v),
            p => Err(p),
        }
    }

    fn from_packet_ref(packet: &Packet) -> (r: Result<&EvolvePet, &Packet>) {
        match packet {
            Packet::EvolvePet(v) => Ok(v),
            p => Err(p),
        }
    }
}

/// The `Failure` packet.
#[derive(Debug, Clone, PartialEq, Eq)]
pub struct Failure {
    pub error_id: u32,
    pub error_description: RLE<String>,
}

/// The model of [`Failure`].
pub struct FailureModel {
    pub error_id: u32,
    pub error_description: Seq<char>,
}

impl DeepView for Failure {
    type V = FailureModel;

    open spec fn deep_view(&self) -> FailureModel {
        FailureModel {
            error_id: self.error_id,
            error_description: self.error_description.deep_view(),
        }
    }
}

impl Adapter for Failure {
    #[verifier::opaque]
    open spec fn spec_get(input: Seq<u8>) -> Read<FailureModel, Error> {
        then(u32::spec_get(input), |error_id: u32, rest: Seq<u8>|
            then(RLE::<String, u16>::spec_get(rest), |error_description: Seq<char>, rest: Seq<u8>|
                done(FailureModel { error_id, error_description }, rest)))
    }

    #[verifier::opaque]
    open spec fn spec_put(value: FailureModel) -> Written {
        also(u32::spec_put(value.error_id),
            RLE::<String, u16>::spec_put(value.error_description))
    }

    open spec fn round_trips(value: FailureModel, rest: Seq<u8>) -> bool {
        let rest2 = rest;
        let rest1 = RLE::<String, u16>::spec_put(value.error_description).bytes + rest2;
        &&& u32::round_trips(value.error_id, rest1)
        &&& RLE::<String, u16>::round_trips(value.error_description, rest2)
    }

    fn get_be(bytes: &mut Cursor) -> (r: Result<Failure, Error>) {
        reveal(<Failure as Adapter>::spec_get);
        let error_id = u32::get_be(bytes)?;
        let error_description = RLE::<String, u16>::get_be(bytes)?;
        Ok(Failure { error_id, error_description })
    }

    fn put_be(&self, buffer: &mut Vec<u8>) -> (r: Result<(), Error>) {
        reveal(<Failure as Adapter>::spec_put);
        self.error_id.put_be(buffer)?;
        let ghost written = u32::spec_put(self.deep_view().error_id).bytes;
        proof {
            lemma_add_assoc(old(buffer)@, written, RLE::<String, u16>::spec_put(self.deep_view().error_description).bytes);
        }
        self.error_description.put_be(buffer)?;
        Ok(())
    }

    proof fn lemma_round_trip(value: FailureModel, rest: Seq<u8>) {
        reveal(<Failure as Adapter>::spec_get);
        reveal(<Failure as Adapter>::spec_put);
        let rest2 = rest;
        let rest1 = RLE::<String, u16>::spec_put(value.error_description).bytes + rest2;
        let front1 = u32::spec_put(value.error_id).bytes;
        lemma_add_assoc(front1, RLE::<String, u16>::spec_put(value.error_description).bytes, rest2);
        u32::lemma_round_trip(value.error_id, rest1);
        RLE::<String, u16>::lemma_round_trip(value.error_description, rest2);
    }
}

impl PacketData for Failure {
    open spec fn spec_packet_type() -> PacketType {
        PacketType::Failure
    }

    open spec fn spec_wrap(value: FailureModel) -> PacketModel {
        PacketModel::Failure(value)
    }

    fn packet_type() -> (kind: PacketType) {
        PacketType::Failure
    }

    fn into_packet(self) -> (packet: Packet) {
        Packet::Failure(self)
    }

    fn from_packet(packet: Packet) -> (r: Result<Failure, Packet>) {
        match packet {
            Packet::Failure(v) => Ok(v),
            p => Err(p),
        }
    }

    fn from_packet_ref(packet: &Packet) -> (r: Result<&Failure, &Packet>) {
        match packet {
            Packet::Failure(v) => Ok(v),
            p => Err(p),
        }
    }
}

/// The `File` packet.
#[derive(Debug, Clone, PartialEq, Eq)]
pub struct File {
    pub filename: RLE<String>,
    pub file: RLE<String, u32>,
}

/// The model of [`File`].
pub struct FileModel {
    pub filename: Seq<char>,
    pub file: Seq<char>,
}

impl DeepView for File {
    type V = FileModel;

    open spec fn deep_view(&self) -> FileModel {
        FileModel {
            filename: self.filename.deep_view(),
            file: self.file.deep_view(),
        }
    }
}

impl Adapter for File {
    #[verifier::opaque]
    open spec fn spec_get(input: Seq<u8>) -> Read<FileModel, Error> {
        then(RLE::<String, u16>::spec_get(input), |filename: Seq<char>, rest: Seq<u8>|
            then(RLE::<String, u32>::spec_get(rest), |file: Seq<char>, rest: Seq<u8>|
                done(FileModel { filename, file }, rest)))
    }

    #[verifier::opaque]
    open spec fn spec_put(value: FileModel) -> Written {
        also(RLE::<String, u16>::spec_put(value.filename),
            RLE::<String, u32>::spec_put(value.file))
    }

    open spec fn round_trips(value: FileModel, rest: Seq<u8>) -> bool {
        let rest2 = rest;
        let rest1 = RLE::<String, u32>::spec_put(value.file).bytes + rest2;
        &&& RLE::<String, u16>::round_trips(value.filename, rest1)
        &&& RLE::<String, u32>::round_trips(value.file, rest2)
    }

    fn get_be(bytes: &mut Cursor) -> (r: Result<File, Error>) {
        reveal(<File as Adapter>::spec_get);
        let filename = RLE::<String, u16>::get_be(bytes)?;
        let file = RLE::<String, u32>::get_be(bytes)?;
        Ok(File { filename, file })
    }

    fn put_be(&self, buffer: &mut Vec<u8>) -> (r: Result<(), Error>) {
        reveal(<File as Adapter>::spec_put);
        self.filename.put_be(buffer)?;
        let ghost written = RLE::<String, u16>::spec_put(self.deep_view().filename).bytes;
        proof {
            lemma_add_assoc(old(buffer)@, written, RLE::<String, u32>::spec_put(self.deep_view().file).bytes);
        }
        self.file.put_be(buffer)?;
        Ok(())
    }

    proof fn lemma_round_trip(value: FileModel, rest: Seq<u8>) {
        reveal(<File as Adapter>::spec_get);
        reveal(<File as Adapter>::spec_put);
        let rest2 = rest;
        let rest1 = RLE::<String, u32>::spec_put(value.file).bytes + rest2;
        let front1 = RLE::<String, u16>::spec_put(value.filename).bytes;
        lemma_add_assoc(front1, RLE::<String, u32>::spec_put(value.file).bytes, rest2);
        RLE::<String, u16>::lemma_round_trip(value.filename, rest1);
        RLE::<String, u32>::lemma_round_trip(value.file, rest2);
    }
}

impl PacketData for File {
    open spec fn spec_packet_type() -> PacketType {
        PacketType::File
    }

    open spec fn spec_wrap(value: FileModel) -> PacketModel {
        PacketModel::File(value)
    }

    fn packet_type() -> (kind: PacketType) {
        PacketType::File
    }

    fn into_packet(self) -> (packet: Packet) {
        Packet::File(self)
    }

    fn from_packet(packet: Packet) -> (r: Result<File, Packet>) {
        match packet {
            Packet::File(v) => Ok(v),
            p => Err(p),
        }
    }

    fn from_packet_ref(packet: &Packet) -> (r: Result<&File, &Packet>) {
        match packet {
            Packet::File(v) => Ok(v),
            p => Err(p),
        }
    }
}

/// The `GlobalNotification` packet.
#[derive(Debug, Clone, PartialEq, Eq)]
pub struct GlobalNotification {
    pub notification_type: u32,
    pub text: RLE<String>,
}

/// The model of [`GlobalNotification`].
pub struct GlobalNotificationModel {
    pub notification_type: u32,
    pub text: Seq<char>,
}

impl DeepView for GlobalNotification {
    type V = GlobalNotificationModel;

    open spec fn deep_view(&self) -> GlobalNotificationModel {
        GlobalNotificationModel {
            notification_type: self.notification_type,
            text: self.text.deep_view(),
        }
    }
}

impl Adapter for GlobalNotification {
    #[verifier::opaque]
    open spec fn spec_get(input: Seq<u8>) -> Read<GlobalNotificationModel, Error> {
        then(u32::spec_get(input), |notification_type: u32, rest: Seq<u8>|
            then(RLE::<String, u16>::spec_get(rest), |text: Seq<char>, rest: Seq<u8>|
                done(GlobalNotificationModel { notification_type, text }, rest)))
    }

    #[verifier::opaque]
    open spec fn spec_put(value: GlobalNotificationModel) -> Written {
        also(u32::spec_put(value.notification_type),
            RLE::<String, u16>::spec_put(value.text))
    }

    open spec fn round_trips(value: GlobalNotificationModel, rest: Seq<u8>) -> bool {
        let rest2 = rest;
        let rest1 = RLE::<String, u16>::spec_put(value.text).bytes + rest2;
        &&& u32::round_trips(value.notification_type, rest1)
        &&& RLE::<String, u16>::round_trips(value.text, rest2)
    }

    fn get_be(bytes: &mut Cursor) -> (r: Result<GlobalNotification, Error>) {
        reveal(<GlobalNotification as Adapter>::spec_get);
        let notification_type = u32::get_be(bytes)?;
        let text = RLE::<String, u16>::get_be(bytes)?;
        Ok(GlobalNotification { notification_type, text })
    }

    fn put_be(&self, buffer: &mut Vec<u8>) -> (r: Result<(), Error>) {
        reveal(<GlobalNotification as Adapter>::spec_put);
        self.notification_type.put_be(buffer)?;
        let ghost written = u32::spec_put(self.deep_view().notification_type).bytes;
        proof {
            lemma_add_assoc(old(buffer)@, written, RLE::<String, u16>::spec_put(self.deep_view().text).bytes);
        }
        self.text.put_be(buffer)?;
        Ok(())
    }

    proof fn lemma_round_trip(value: GlobalNotificationModel, rest: Seq<u8>) {
        reveal(<GlobalNotification as Adapter>::spec_get);
        reveal(<GlobalNotification as Adapter>::spec_put);
        let rest2 = rest;
        let rest1 = RLE::<String, u16>::spec_put(value.text).bytes + rest2;
        let front1 = u32::spec_put(value.notification_type).bytes;
        lemma_add_assoc(front1, RLE::<String, u16>::spec_put(value.text).bytes, rest2);
        u32::lemma_round_trip(value.notification_type, rest1);
        RLE::<String, u16>::lemma_round_trip(value.text, rest2);
    }
}

impl PacketData for GlobalNotification {
    open spec fn spec_packet_type() -> PacketType {
        PacketType::GlobalNotification
    }

    open spec fn spec_wrap(value: GlobalNotificationModel) -> PacketModel {
        PacketModel::GlobalNotification(value)
    }

    fn packet_type() -> (kind: PacketType) {
        PacketType::GlobalNotification
    }

    fn into_packet(self) -> (packet: Packet) {
        Packet::GlobalNotification(self)
    }

    fn from_packet(packet: Packet) -> (r: Result<GlobalNotification, Packet>) {
        match packet {
            Packet::GlobalNotification(v) => Ok(v),
            p => Err(p),
        }
    }

    fn from_packet_ref(packet: &Packet) -> (r: Result<&GlobalNotification, &Packet>) {
        match packet {
            Packet::GlobalNotification(v) => Ok(v),
            p => Err(p),
        }
    }
}

/// The `Goto` packet.
#[derive(Debug, Clone, Copy, PartialEq, Eq, Structural)]
pub struct Goto {
    pub object_id: u32,
    pub pos: WorldPosData,
}

impl DeepView for Goto {
    type V = Goto;

    open spec fn deep_view(&self) -> Goto {
        *self
    }
}

impl Adapter for Goto {
    #[verifier::opaque]
    open spec fn spec_get(input: Seq<u8>) -> Read<Goto, Error> {
        then(u32::spec_get(input), |object_id: u32, rest: Seq<u8>|
            then(WorldPosData::spec_get(rest), |pos: WorldPosData, rest: Seq<u8>|
                done(Goto { object_id, pos }, rest)))
    }

    #[verifier::opaque]
    open spec fn spec_put(value: Goto) -> Written {
        also(u32::spec_put(value.object_id),
            WorldPosData::spec_put(value.pos))
    }

    open spec fn round_trips(value: Goto, rest: Seq<u8>) -> bool {
        let rest2 = rest;
        let rest1 = WorldPosData::spec_put(value.pos).bytes + rest2;
        &&& u32::round_trips(value.object_id, rest1)
        &&& WorldPosData::round_trips(value.pos, rest2)
    }

    fn get_be(bytes: &mut Cursor) -> (r: Result<Goto, Error>) {
        reveal(<Goto as Adapter>::spec_get);
        let object_id = u32::get_be(bytes)?;
        let pos = WorldPosData::get_be(bytes)?;
        Ok(Goto { object_id, pos })
    }

    fn put_be(&self, buffer: &mut Vec<u8>) -> (r: Result<(), Error>) {
        reveal(<Goto as Adapter>::spec_put);
        self.object_id.put_be(buffer)?;
        let ghost written = u32::spec_put(self.deep_view().object_id).bytes;
        proof {
            lemma_add_assoc(old(buffer)@, written, WorldPosData::spec_put(self.deep_view().pos).bytes);
        }
        self.pos.put_be(buffer)?;
        Ok(())
    }

    proof fn lemma_round_trip(value: Goto, rest: Seq<u8>) {
        reveal(<Goto as Adapter>::spec_get);
        reveal(<Goto as Adapter>::spec_put);
        let rest2 = rest;
        let rest1 = WorldPosData::spec_put(value.pos).bytes + rest2;
        let front1 = u32::spec_put(value.object_id).bytes;
        lemma_add_assoc(front1, WorldPosData::spec_put(value.pos).bytes, rest2);
        u32::lemma_round_trip(value.object_id, rest1);
        WorldPosData::lemma_round_trip(value.pos, rest2);
    }
}

impl PacketData for Goto {
    open spec fn spec_packet_type() -> PacketType {
        PacketType::Goto
    }

    open spec fn spec_wrap(value: Goto) -> PacketModel {
        PacketModel::Goto(value)
    }

    fn packet_type() -> (kind: PacketType) {
        PacketType::Goto
    }

    fn into_packet(self) -> (packet: Packet) {
        Packet::Goto(self)
    }

    fn from_packet(packet: Packet) -> (r: Result<Goto, Packet>) {
        match packet {
            Packet::Goto(v) => Ok(v),
            p => Err(p),
        }
    }

    fn from_packet_ref(packet: &Packet) -> (r: Result<&Goto, &Packet>) {
        match packet {
            Packet::Goto(v) => Ok(v),
            p => Err(p),
        }
    }
}

/// The `GuildResult` packet.
#[derive(Debug, Clone, PartialEq, Eq)]
pub struct GuildResult {
    pub success: bool,
    pub line_builder_json: RLE<String>,
}

/// The model of [`GuildResult`].
pub struct GuildResultModel {
    pub success: bool,
    pub line_builder_json: Seq<char>,
}

impl DeepView for GuildResult {
    type V = GuildResultModel;

    open spec fn deep_view(&self) -> GuildResultModel {
        GuildResultModel {
            success: self.success,
            line_builder_json: self.line_builder_json.deep_view(),
        }
    }
}

impl Adapter for GuildResult {
    #[verifier::opaque]
    open spec fn spec_get(input: Seq<u8>) -> Read<GuildResultModel, Error> {
        then(bool::spec_get(input), |success: bool, rest: Seq<u8>|
            then(RLE::<String, u16>::spec_get(rest), |line_builder_json: Seq<char>, rest: Seq<u8>|
                done(GuildResultModel { success, line_builder_json }, rest)))
    }

    #[verifier::opaque]
    open spec fn spec_put(value: GuildResultModel) -> Written {
        also(bool::spec_put(value.success),
            RLE::<String, u16>::spec_put(value.line_builder_json))
    }

    open spec fn round_trips(value: GuildResultModel, rest: Seq<u8>) -> bool {
        let rest2 = rest;
        let rest1 = RLE::<String, u16>::spec_put(value.line_builder_json).bytes + rest2;
        &&& bool::round_trips(value.success, rest1)
        &&& RLE::<String, u16>::round_trips(value.line_builder_json, rest2)
    }

    fn get_be(bytes: &mut Cursor) -> (r: Result<GuildResult, Error>) {
        reveal(<GuildResult as Adapter>::spec_get);
        let success = bool::get_be(bytes)?;
        let line_builder_json = RLE::<String, u16>::get_be(bytes)?;
        Ok(GuildResult { success, line_builder_json })
    }

    fn put_be(&self, buffer: &mut Vec<u8>) -> (r: Result<(), Error>) {
        reveal(<GuildResult as Adapter>::spec_put);
        self.success.put_be(buffer)?;
        let ghost written = bool::spec_put(self.deep_view().success).bytes;
        proof {
            lemma_add_assoc(old(buffer)@, written, RLE::<String, u16>::spec_put(self.deep_view().line_builder_json).bytes);
        }
        self.line_builder_json.put_be(buffer)?;
        Ok(())
    }

    proof fn lemma_round_trip(value: GuildResultModel, rest: Seq<u8>) {
        reveal(<GuildResult as Adapter>::spec_get);
        reveal(<GuildResult as Adapter>::spec_put);
        let rest2 = rest;
        let rest1 = RLE::<String, u16>::spec_put(value.line_builder_json).bytes + rest2;
        let front1 = bool::spec_put(value.success).bytes;
        lemma_add_assoc(front1, RLE::<String, u16>::spec_put(value.line_builder_json).bytes, rest2);
        bool::lemma_round_trip(value.success, rest1);
        RLE::<String, u16>::lemma_round_trip(value.line_builder_json, rest2);
    }
}

impl PacketData for GuildResult {
    open spec fn spec_packet_type() -> PacketType {
        PacketType::GuildResult
    }

    open spec fn spec_wrap(value: GuildResultModel) -> PacketModel {
        PacketModel::GuildResult(value)
    }

    fn packet_type() -> (kind: PacketType) {
        PacketType::GuildResult
    }

    fn into_packet(self) -> (packet: Packet) {
        Packet::GuildResult(self)
    }

    fn from_packet(packet: Packet) -> (r: Result<GuildResult, Packet>) {
        match packet {
            Packet::GuildResult(v) => Ok(v),
            p => Err(p),
        }
    }

    fn from_packet_ref(packet: &Packet) -> (r: Result<&GuildResult, &Packet>) {
        match packet {
            Packet::GuildResult(v) => Ok(v),
            p => Err(p),
        }
    }
}

/// The `HatchPet` packet.
#[derive(Debug, Clone, PartialEq, Eq)]
pub struct HatchPet {
    pub pet_name: RLE<String>,
    pub pet_skin: u32,
    pub item_type: u32,
}

/// The model of [`HatchPet`].
pub struct HatchPetModel {
    pub pet_name: Seq<char>,
    pub pet_skin: u32,
    pub item_type: u32,
}

impl DeepView for HatchPet {
    type V = HatchPetModel;

    open spec fn deep_view(&self) -> HatchPetModel {
        HatchPetModel {
            pet_name: self.pet_name.deep_view(),
            pet_skin: self.pet_skin,
            item_type: self.item_type,
        }
    }
}

impl Adapter for HatchPet {
    #[verifier::opaque]
    open spec fn spec_get(input: Seq<u8>) -> Read<HatchPetModel, Error> {
        then(RLE::<String, u16>::spec_get(input), |pet_name: Seq<char>, rest: Seq<u8>|
            then(u32::spec_get(rest), |pet_skin: u32, rest: Seq<u8>|
                then(u32::spec_get(rest), |item_type: u32, rest: Seq<u8>|
                    done(HatchPetModel { pet_name, pet_skin, item_type }, rest))))
    }

    #[verifier::opaque]
    open spec fn spec_put(value: HatchPetModel) -> Written {
        also(also(RLE::<String, u16>::spec_put(value.pet_name),
            u32::spec_put(value.pet_skin)),
            u32::spec_put(value.item_type))
    }

    open spec fn round_trips(value: HatchPetModel, rest: Seq<u8>) -> bool {
        let rest3 = rest;
        let rest2 = u32::spec_put(value.item_type).bytes + rest3;
        let rest1 = u32::spec_put(value.pet_skin).bytes + rest2;
        &&& RLE::<String, u16>::round_trips(value.pet_name, rest1)
        &&& u32::round_trips(value.pet_skin, rest2)
        &&& u32::round_trips(value.item_type, rest3)
    }

    fn get_be(bytes: &mut Cursor) -> (r: Result<HatchPet, Error>) {
        reveal(<HatchPet as Adapter>::spec_get);
        let pet_name = RLE::<String, u16>::get_be(bytes)?;
        let pet_skin = u32::get_be(bytes)?;
        let item_type = u32::get_be(bytes)?;
        Ok(HatchPet { pet_name, pet_skin, item_type })
    }

    fn put_be(&self, buffer: &mut Vec<u8>) -> (r: Result<(), Error>) {
        reveal(<HatchPet as Adapter>::spec_put);
        self.pet_name.put_be(buffer)?;
        let ghost written = RLE::<String, u16>::spec_put(self.deep_view().pet_name).bytes;
        proof {
            lemma_add_assoc(old(buffer)@, written, u32::spec_put(self.deep_view().pet_skin).bytes);
        }
        self.pet_skin.put_be(buffer)?;
        let ghost written = written + u32::spec_put(self.deep_view().pet_skin).bytes;
        proof {
            lemma_add_assoc(old(buffer)@, written, u32::spec_put(self.deep_view().item_type).bytes);
        }
        self.item_type.put_be(buffer)?;
        Ok(())
    }

    proof fn lemma_round_trip(value: HatchPetModel, rest: Seq<u8>) {
        reveal(<HatchPet as Adapter>::spec_get);
        reveal(<HatchPet as Adapter>::spec_put);
        let rest3 = rest;
        let rest2 = u32::spec_put(value.item_type).bytes + rest3;
        let rest1 = u32::spec_put(value.pet_skin).bytes + rest2;
        let front1 = RLE::<String, u16>::spec_put(value.pet_name).bytes;
        let front2 = front1 + u32::spec_put(value.pet_skin).bytes;
        lemma_add_assoc(front2, u32::spec_put(value.item_type).bytes, rest3);
        lemma_add_assoc(front1, u32::spec_put(value.pet_skin).bytes, rest2);
        RLE::<String, u16>::lemma_round_trip(value.pet_name, rest1);
        u32::lemma_round_trip(value.pet_skin, rest2);
        u32::lemma_round_trip(value.item_type, rest3);
    }
}

impl PacketData for HatchPet {
    open spec fn spec_packet_type() -> PacketType {
        PacketType::HatchPet
    }

    open spec fn spec_wrap(value: HatchPetModel) -> PacketModel {
        PacketModel::HatchPet(value)
    }

    fn packet_type() -> (kind: PacketType) {
        PacketType::HatchPet
    }

    fn into_packet(self) -> (packet: Packet) {
        Packet::HatchPet(self)
    }

    fn from_packet(packet: Packet) -> (r: Result<HatchPet, Packet>) {
        match packet {
            Packet::HatchPet(v) => Ok(v),
            p => Err(p),
        }
    }

    fn from_packet_ref(packet: &Packet) -> (r: Result<&HatchPet, &Packet>) {
        match packet {
            Packet::HatchPet(v) => Ok(v),
            p => Err(p),
        }
    }
}

/// The `InvResult` packet.
#[derive(Debug, Clone, Copy, PartialEq, Eq, Structural)]
pub struct InvResult {
    pub result: u32,
}

impl DeepView for InvResult {
    type V = InvResult;

    open spec fn deep_view(&self) -> InvResult {
        *self
    }
}

impl Adapter for InvResult {
    #[verifier::opaque]
    open spec fn spec_get(input: Seq<u8>) -> Read<InvResult, Error> {
        then(u32::spec_get(input), |result: u32, rest: Seq<u8>|
            done(InvResult { result }, rest))
    }

    #[verifier::opaque]
    open spec fn spec_put(value: InvResult) -> Written {
        u32::spec_put(value.result)
    }

    open spec fn round_trips(value: InvResult, rest: Seq<u8>) -> bool {
        let rest1 = rest;
        &&& u32::round_trips(value.result, rest1)
    }

    fn get_be(bytes: &mut Cursor) -> (r: Result<InvResult, Error>) {
        reveal(<InvResult as Adapter>::spec_get);
        let result = u32::get_be(bytes)?;
        Ok(InvResult { result })
    }

    fn put_be(&self, buffer: &mut Vec<u8>) -> (r: Result<(), Error>) {
        reveal(<InvResult as Adapter>::spec_put);
        self.result.put_be(buffer)?;
        Ok(())
    }

    proof fn lemma_round_trip(value: InvResult, rest: Seq<u8>) {
        reveal(<InvResult as Adapter>::spec_get);
        reveal(<InvResult as Adapter>::spec_put);
        let rest1 = rest;
        u32::lemma_round_trip(value.result, rest1);
    }
}

impl PacketData for InvResult {
    open spec fn spec_packet_type() -> PacketType {
        PacketType::InvResult
    }

    open spec fn spec_wrap(value: InvResult) -> PacketModel {
        PacketModel::InvResult(value)
    }

    fn packet_type() -> (kind: PacketType) {
        PacketType::InvResult
    }

    fn into_packet(self) -> (packet: Packet) {
        Packet::InvResult(self)
    }

    fn from_packet(packet: Packet) -> (r: Result<InvResult, Packet>) {
        match packet {
            Packet::InvResult(v) => Ok(v),
            p => Err(p),
        }
    }

    fn from_packet_ref(packet: &Packet) -> (r: Result<&InvResult, &Packet>) {
        match packet {
            Packet::InvResult(v) => Ok(v),
            p => Err(p),
        }
    }
}

/// The `InvitedToGuild` packet.
#[derive(Debug, Clone, PartialEq, Eq)]
pub struct InvitedToGuild {
    pub name: RLE<String>,
    pub guild_name: RLE<String>,
}

/// The model of [`InvitedToGuild`].
pub struct InvitedToGuildModel {
    pub name: Seq<char>,
    pub guild_name: Seq<char>,
}

impl DeepView for InvitedToGuild {
    type V = InvitedToGuildModel;

    open spec fn deep_view(&self) -> InvitedToGuildModel {
        InvitedToGuildModel {
            name: self.name.deep_view(),
            guild_name: self.guild_name.deep_view(),
        }
    }
}

impl Adapter for InvitedToGuild {
    #[verifier::opaque]
    open spec fn spec_get(input: Seq<u8>) -> Read<InvitedToGuildModel, Error> {
        then(RLE::<String, u16>::spec_get(input), |name: Seq<char>, rest: Seq<u8>|
            then(RLE::<String, u16>::spec_get(rest), |guild_name: Seq<char>, rest: Seq<u8>|
                done(InvitedToGuildModel { name, guild_name }, rest)))
    }

    #[verifier::opaque]
    open spec fn spec_put(value: InvitedToGuildModel) -> Written {
        also(RLE::<String, u16>::spec_put(value.name),
            RLE::<String, u16>::spec_put(value.guild_name))
    }

    open spec fn round_trips(value: InvitedToGuildModel, rest: Seq<u8>) -> bool {
        let rest2 = rest;
        let rest1 = RLE::<String, u16>::spec_put(value.guild_name).bytes + rest2;
        &&& RLE::<String, u16>::round_trips(value.name, rest1)
        &&& RLE::<String, u16>::round_trips(value.guild_name, rest2)
    }

    fn get_be(bytes: &mut Cursor) -> (r: Result<InvitedToGuild, Error>) {
        reveal(<InvitedToGuild as Adapter>::spec_get);
        let name = RLE::<String, u16>::get_be(bytes)?;
        let guild_name = RLE::<String, u16>::get_be(bytes)?;
        Ok(InvitedToGuild { name, guild_name })
    }

    fn put_be(&self, buffer: &mut Vec<u8>) -> (r: Result<(), Error>) {
        reveal(<InvitedToGuild as Adapter>::spec_put);
        self.name.put_be(buffer)?;
        let ghost written = RLE::<String, u16>::spec_put(self.deep_view().name).bytes;
        proof {
            lemma_add_assoc(old(buffer)@, written, RLE::<String, u16>::spec_put(self.deep_view().guild_name).bytes);
        }
        self.guild_name.put_be(buffer)?;
        Ok(())
    }

    proof fn lemma_round_trip(value: InvitedToGuildModel, rest: Seq<u8>) {
        reveal(<InvitedToGuild as Adapter>::spec_get);
        reveal(<InvitedToGuild as Adapter>::spec_put);
        let rest2 = rest;
        let rest1 = RLE::<String, u16>::spec_put(value.guild_name).bytes + rest2;
        let front1 = RLE::<String, u16>::spec_put(value.name).bytes;
        lemma_add_assoc(front1, RLE::<String, u16>::spec_put(value.guild_name).bytes, rest2);
        RLE::<String, u16>::lemma_round_trip(value.name, rest1);
        RLE::<String, u16>::lemma_round_trip(value.guild_name, rest2);
    }
}

impl PacketData for InvitedToGuild {
    open spec fn spec_packet_type() -> PacketType {
        PacketType::InvitedToGuild
    }

    open spec fn spec_wrap(value: InvitedToGuildModel) -> PacketModel {
        PacketModel::InvitedToGuild(value)
    }

    fn packet_type() -> (kind: PacketType) {
        PacketType::InvitedToGuild
    }

    fn into_packet(self) -> (packet: Packet) {
        Packet::InvitedToGuild(self)
    }

    fn from_packet(packet: Packet) -> (r: Result<InvitedToGuild, Packet>) {
        match packet {
            Packet::InvitedToGuild(v) => Ok(v),
            p => Err(p),
        }
    }

    fn from_packet_ref(packet: &Packet) -> (r: Result<&InvitedToGuild, &Packet>) {
        match packet {
            Packet::InvitedToGuild(v) => Ok(v),
            p => Err(p),
        }
    }
}

/// The `ImminentArenaWave` packet.
#[derive(Debug, Clone, Copy, PartialEq, Eq, Structural)]
pub struct ImminentArenaWave {
    pub current_runtime: u32,
}

impl DeepView for ImminentArenaWave {
    type V = ImminentArenaWave;

    open spec fn deep_view(&self) -> ImminentArenaWave {
        *self
    }
}

impl Adapter for ImminentArenaWave {
    #[verifier::opaque]
    open spec fn spec_get(input: Seq<u8>) -> Read<ImminentArenaWave, Error> {
        then(u32::spec_get(input), |current_runtime: u32, rest: Seq<u8>|
            done(ImminentArenaWave { current_runtime }, rest))
    }

    #[verifier::opaque]
    open spec fn spec_put(value: ImminentArenaWave) -> Written {
        u32::spec_put(value.current_runtime)
    }

    open spec fn round_trips(value: ImminentArenaWave, rest: Seq<u8>) -> bool {
        let rest1 = rest;
        &&& u32::round_trips(value.current_runtime, rest1)
    }

    fn get_be(bytes: &mut Cursor) -> (r: Result<ImminentArenaWave, Error>) {
        reveal(<ImminentArenaWave as Adapter>::spec_get);
        let current_runtime = u32::get_be(bytes)?;
        Ok(ImminentArenaWave { current_runtime })
    }

    fn put_be(&self, buffer: &mut Vec<u8>) -> (r: Result<(), Error>) {
        reveal(<ImminentArenaWave as Adapter>::spec_put);
        self.current_runtime.put_be(buffer)?;
        Ok(())
    }

    proof fn lemma_round_trip(value: ImminentArenaWave, rest: Seq<u8>) {
        reveal(<ImminentArenaWave as Adapter>::spec_get);
        reveal(<ImminentArenaWave as Adapter>::spec_put);
        let rest1 = rest;
        u32::lemma_round_trip(value.current_runtime, rest1);
    }
}

impl PacketData for ImminentArenaWave {
    open spec fn spec_packet_type() -> PacketType {
        PacketType::ImminentArenaWave
    }

    open spec fn spec_wrap(value: ImminentArenaWave) -> PacketModel {
        PacketModel::ImminentArenaWave(value)
    }

    fn packet_type() -> (kind: PacketType) {
        PacketType::ImminentArenaWave
    }

    fn into_packet(self) -> (packet: Packet) {
        Packet::ImminentArenaWave(self)
    }

    fn from_packet(packet: Packet) -> (r: Result<ImminentArenaWave, Packet>) {
        match packet {
            Packet::ImminentArenaWave(v) => Ok(v),
            p => Err(p),
        }
    }

    fn from_packet_ref(packet: &Packet) -> (r: Result<&ImminentArenaWave, &Packet>) {
        match packet {
            Packet::ImminentArenaWave(v) => Ok(v),
            p => Err(p),
        }
    }
}

/// The `KeyInfoResponse` packet.
#[derive(Debug, Clone, PartialEq, Eq)]
pub struct KeyInfoResponse {
    pub name: RLE<String>,
    pub description: RLE<String>,
    pub creator: RLE<String>,
}

/// The model of [`KeyInfoResponse`].
pub struct KeyInfoResponseModel {
    pub name: Seq<char>,
    pub description: Seq<char>,
    pub creator: Seq<char>,
}

impl DeepView for KeyInfoResponse {
    type V = KeyInfoResponseModel;

    open spec fn deep_view(&self) -> KeyInfoResponseModel {
        KeyInfoResponseModel {
            name: self.name.deep_view(),
            description: self.description.deep_view(),
            creator: self.creator.deep_view(),
        }
    }
}

impl Adapter for KeyInfoResponse {
    #[verifier::opaque]
    open spec fn spec_get(input: Seq<u8>) -> Read<KeyInfoResponseModel, Error> {
        then(RLE::<String, u16>::spec_get(input), |name: Seq<char>, rest: Seq<u8>|
            then(RLE::<String, u16>::spec_get(rest), |description: Seq<char>, rest: Seq<u8>|
                then(RLE::<String, u16>::spec_get(rest), |creator: Seq<char>, rest: Seq<u8>|
                    done(KeyInfoResponseModel { name, description, creator }, rest))))
    }

    #[verifier::opaque]
    open spec fn spec_put(value: KeyInfoResponseModel) -> Written {
        also(also(RLE::<String, u16>::spec_put(value.name),
            RLE::<String, u16>::spec_put(value.description)),
            RLE::<String, u16>::spec_put(value.creator))
    }

    open spec fn round_trips(value: KeyInfoResponseModel, rest: Seq<u8>) -> bool {
        let rest3 = rest;
        let rest2 = RLE::<String, u16>::spec_put(value.creator).bytes + rest3;
        let rest1 = RLE::<String, u16>::spec_put(value.description).bytes + rest2;
        &&& RLE::<String, u16>::round_trips(value.name, rest1)
        &&& RLE::<String, u16>::round_trips(value.description, rest2)
        &&& RLE::<String, u16>::round_trips(value.creator, rest3)
    }

    fn get_be(bytes: &mut Cursor) -> (r: Result<KeyInfoResponse, Error>) {
        reveal(<KeyInfoResponse as Adapter>::spec_get);
        let name = RLE::<String, u16>::get_be(bytes)?;
        let description = RLE::<String, u16>::get_be(bytes)?;
        let creator = RLE::<String, u16>::get_be(bytes)?;
        Ok(KeyInfoResponse { name, description, creator })
    }

    fn put_be(&self, buffer: &mut Vec<u8>) -> (r: Result<(), Error>) {
        reveal(<KeyInfoResponse as Adapter>::spec_put);
        self.name.put_be(buffer)?;
        let ghost written = RLE::<String, u16>::spec_put(self.deep_view().name).bytes;
        proof {
            lemma_add_assoc(old(buffer)@, written, RLE::<String, u16>::spec_put(self.deep_view().description).bytes);
        }
        self.description.put_be(buffer)?;
        let ghost written = written + RLE::<String, u16>::spec_put(self.deep_view().description).bytes;
        proof {
            lemma_add_assoc(old(buffer)@, written, RLE::<String, u16>::spec_put(self.deep_view().creator).bytes);
        }
        self.creator.put_be(buffer)?;
        Ok(())
    }

    proof fn lemma_round_trip(value: KeyInfoResponseModel, rest: Seq<u8>) {
        reveal(<KeyInfoResponse as Adapter>::spec_get);
        reveal(<KeyInfoResponse as Adapter>::spec_put);
        let rest3 = rest;
        let rest2 = RLE::<String, u16>::spec_put(value.creator).bytes + rest3;
        let rest1 = RLE::<String, u16>::spec_put(value.description).bytes + rest2;
        let front1 = RLE::<String, u16>::spec_put(value.name).bytes;
        let front2 = front1 + RLE::<String, u16>::spec_put(value.description).bytes;
        lemma_add_assoc(front2, RLE::<String, u16>::spec_put(value.creator).bytes, rest3);
        lemma_add_assoc(front1, RLE::<String, u16>::spec_put(value.description).bytes, rest2);
        RLE::<String, u16>::lemma_round_trip(value.name, rest1);
        RLE::<String, u16>::lemma_round_trip(value.description, rest2);
        RLE::<String, u16>::lemma_round_trip(value.creator, rest3);
    }
}

impl PacketData for KeyInfoResponse {
    open spec fn spec_packet_type() -> PacketType {
        PacketType::KeyInfoResponse
    }

    open spec fn spec_wrap(value: KeyInfoResponseModel) -> PacketModel {
        PacketModel::KeyInfoResponse(value)
    }

    fn packet_type() -> (kind: PacketType) {
        PacketType::KeyInfoResponse
    }

    fn into_packet(self) -> (packet: Packet) {
        Packet::KeyInfoResponse(self)
    }

    fn from_packet(packet: Packet) -> (r: Result<KeyInfoResponse, Packet>) {
        match packet {
            Packet::KeyInfoResponse(v) => Ok(v),
            p => Err(p),
        }
    }

    fn from_packet_ref(packet: &Packet) -> (r: Result<&KeyInfoResponse, &Packet>) {
        match packet {
            Packet::KeyInfoResponse(v) => Ok(v),
            p => Err(p),
        }
    }
}

/// The `LoginRewardMsg` packet.
#[derive(Debug, Clone, Copy, PartialEq, Eq, Structural)]
pub struct LoginRewardMsg {
    pub item_id: u32,
    pub quantity: u32,
    pub gold: u32,
}

impl DeepView for LoginRewardMsg {
    type V = LoginRewardMsg;

    open spec fn deep_view(&self) -> LoginRewardMsg {
        *self
    }
}

impl Adapter for LoginRewardMsg {
    #[verifier::opaque]
    open spec fn spec_get(input: Seq<u8>) -> Read<LoginRewardMsg, Error> {
        then(u32::spec_get(input), |item_id: u32, rest: Seq<u8>|
            then(u32::spec_get(rest), |quantity: u32, rest: Seq<u8>|
                then(u32::spec_get(rest), |gold: u32, rest: Seq<u8>|
                    done(LoginRewardMsg { item_id, quantity, gold }, rest))))
    }

    #[verifier::opaque]
    open spec fn spec_put(value: LoginRewardMsg) -> Written {
        also(also(u32::spec_put(value.item_id),
            u32::spec_put(value.quantity)),
            u32::spec_put(value.gold))
    }

    open spec fn round_trips(value: LoginRewardMsg, rest: Seq<u8>) -> bool {
        let rest3 = rest;
        let rest2 = u32::spec_put(value.gold).bytes + rest3;
        let rest1 = u32::spec_put(value.quantity).bytes + rest2;
        &&& u32::round_trips(value.item_id, rest1)
        &&& u32::round_trips(value.quantity, rest2)
        &&& u32::round_trips(value.gold, rest3)
    }

    fn get_be(bytes: &mut Cursor) -> (r: Result<LoginRewardMsg, Error>) {
        reveal(<LoginRewardMsg as Adapter>::spec_get);
        let item_id = u32::get_be(bytes)?;
        let quantity = u32::get_be(bytes)?;
        let gold = u32::get_be(bytes)?;
        Ok(LoginRewardMsg { item_id, quantity, gold })
    }

    fn put_be(&self, buffer: &mut Vec<u8>) -> (r: Result<(), Error>) {
        reveal(<LoginRewardMsg as Adapter>::spec_put);
        self.item_id.put_be(buffer)?;
        let ghost written = u32::spec_put(self.deep_view().item_id).bytes;
        proof {
            lemma_add_assoc(old(buffer)@, written, u32::spec_put(self.deep_view().quantity).bytes);
        }
        self.quantity.put_be(buffer)?;
        let ghost written = written + u32::spec_put(self.deep_view().quantity).bytes;
        proof {
            lemma_add_assoc(old(buffer)@, written, u32::spec_put(self.deep_view().gold).bytes);
        }
        self.gold.put_be(buffer)?;
        Ok(())
    }

    proof fn lemma_round_trip(value: LoginRewardMsg, rest: Seq<u8>) {
        reveal(<LoginRewardMsg as Adapter>::spec_get);
        reveal(<LoginRewardMsg as Adapter>::spec_put);
        let rest3 = rest;
        let rest2 = u32::spec_put(value.gold).bytes + rest3;
        let rest1 = u32::spec_put(value.quantity).bytes + rest2;
        let front1 = u32::spec_put(value.item_id).bytes;
        let front2 = front1 + u32::spec_put(value.quantity).bytes;
        lemma_add_assoc(front2, u32::spec_put(value.gold).bytes, rest3);
        lemma_add_assoc(front1, u32::spec_put(value.quantity).bytes, rest2);
        u32::lemma_round_trip(value.item_id, rest1);
        u32::lemma_round_trip(value.quantity, rest2);
        u32::lemma_round_trip(value.gold, rest3);
    }
}

impl PacketData for LoginRewardMsg {
    open spec fn spec_packet_type() -> PacketType {
        PacketType::LoginRewardMsg
    }

    open spec fn spec_wrap(value: LoginRewardMsg) -> PacketModel {
        PacketModel::LoginRewardMsg(value)
    }

    fn packet_type() -> (kind: PacketType) {
        PacketType::LoginRewardMsg
    }

    fn into_packet(self) -> (packet: Packet) {
        Packet::LoginRewardMsg(self)
    }

    fn from_packet(packet: Packet) -> (r: Result<LoginRewardMsg, Packet>) {
        match packet {
            Packet::LoginRewardMsg(v) => Ok(v),
            p => Err(p),
        }
    }

    fn from_packet_ref(packet: &Packet) -> (r: Result<&LoginRewardMsg, &Packet>) {
        match packet {
            Packet::LoginRewardMsg(v) => Ok(v),
            p => Err(p),
        }
    }
}

/// The `MapInfo` packet.
#[derive(Debug, Clone, PartialEq, Eq)]
pub struct MapInfo {
    pub width: u32,
    pub height: u32,
    pub name: RLE<String>,
    pub display_name: RLE<String>,
    pub fp: u32,
    pub background: u32,
    pub difficulty: u32,
    pub allow_player_teleport: bool,
    pub show_displays: bool,
    pub client_xml: RLE<Vec<RLE<String, u32>>>,
    pub extra_xml: RLE<Vec<RLE<String, u32>>>,
}

/// The model of [`MapInfo`].
pub struct MapInfoModel {
    pub width: u32,
    pub height: u32,
    pub name: Seq<char>,
    pub display_name: Seq<char>,
    pub fp: u32,
    pub background: u32,
    pub difficulty: u32,
    pub allow_player_teleport: bool,
    pub show_displays: bool,
    pub client_xml: Seq<Seq<char>>,
    pub extra_xml: Seq<Seq<char>>,
}

impl DeepView for MapInfo {
    type V = MapInfoModel;

    open spec fn deep_view(&self) -> MapInfoModel {
        MapInfoModel {
            width: self.width,
            height: self.height,
            name: self.name.deep_view(),
            display_name: self.display_name.deep_view(),
            fp: self.fp,
            background: self.background,
            difficulty: self.difficulty,
            allow_player_teleport: self.allow_player_teleport,
            show_displays: self.show_displays,
            client_xml: self.client_xml.deep_view(),
            extra_xml: self.extra_xml.deep_view(),
        }
    }
}

impl Adapter for MapInfo {
    #[verifier::opaque]
    open spec fn spec_get(input: Seq<u8>) -> Read<MapInfoModel, Error> {
        then(u32::spec_get(input), |width: u32, rest: Seq<u8>|
            then(u32::spec_get(rest), |height: u32, rest: Seq<u8>|
                then(RLE::<String, u16>::spec_get(rest), |name: Seq<char>, rest: Seq<u8>|
                    then(RLE::<String, u16>::spec_get(rest), |display_name: Seq<char>, rest: Seq<u8>|
                        then(u32::spec_get(rest), |fp: u32, rest: Seq<u8>|
                            then(u32::spec_get(rest), |background: u32, rest: Seq<u8>|
                                then(u32::spec_get(rest), |difficulty: u32, rest: Seq<u8>|
                                    then(bool::spec_get(rest), |allow_player_teleport: bool, rest: Seq<u8>|
                                        then(bool::spec_get(rest), |show_displays: bool, rest: Seq<u8>|
                                            then(RLE::<Vec<RLE<String, u32>>, u16>::spec_get(rest), |client_xml: Seq<Seq<char>>, rest: Seq<u8>|
                                                then(RLE::<Vec<RLE<String, u32>>, u16>::spec_get(rest), |extra_xml: Seq<Seq<char>>, rest: Seq<u8>|
                                                    done(MapInfoModel { width, height, name, display_name, fp, background, difficulty, allow_player_teleport, show_displays, client_xml, extra_xml }, rest))))))))))))
    }

    #[verifier::opaque]
    open spec fn spec_put(value: MapInfoModel) -> Written {
        also(also(also(also(also(also(also(also(also(also(u32::spec_put(value.width),
            u32::spec_put(value.height)),
            RLE::<String, u16>::spec_put(value.name)),
            RLE::<String, u16>::spec_put(value.display_name)),
            u32::spec_put(value.fp)),
            u32::spec_put(value.background)),
            u32::spec_put(value.difficulty)),
            bool::spec_put(value.allow_player_teleport)),
            bool::spec_put(value.show_displays)),
            RLE::<Vec<RLE<String, u32>>, u16>::spec_put(value.client_xml)),
            RLE::<Vec<RLE<String, u32>>, u16>::spec_put(value.extra_xml))
    }

    open spec fn round_trips(value: MapInfoModel, rest: Seq<u8>) -> bool {
        let rest11 = rest;
        let rest10 = RLE::<Vec<RLE<String, u32>>, u16>::spec_put(value.extra_xml).bytes + rest11;
        let rest9 = RLE::<Vec<RLE<String, u32>>, u16>::spec_put(value.client_xml).bytes + rest10;
        let rest8 = bool::spec_put(value.show_displays).bytes + rest9;
        let rest7 = bool::spec_put(value.allow_player_teleport).bytes + rest8;
        let rest6 = u32::spec_put(value.difficulty).bytes + rest7;
        let rest5 = u32::spec_put(value.background).bytes + rest6;
        let rest4 = u32::spec_put(value.fp).bytes + rest5;
        let rest3 = RLE::<String, u16>::spec_put(value.display_name).bytes + rest4;
        let rest2 = RLE::<String, u16>::spec_put(value.name).bytes + rest3;
        let rest1 = u32::spec_put(value.height).bytes + rest2;
        &&& u32::round_trips(value.width, rest1)
        &&& u32::round_trips(value.height, rest2)
        &&& RLE::<String, u16>::round_trips(value.name, rest3)
        &&& RLE::<String, u16>::round_trips(value.display_name, rest4)
        &&& u32::round_trips(value.fp, rest5)
        &&& u32::round_trips(value.background, rest6)
        &&& u32::round_trips(value.difficulty, rest7)
        &&& bool::round_trips(value.allow_player_teleport, rest8)
        &&& bool::round_trips(value.show_displays, rest9)
        &&& RLE::<Vec<RLE<String, u32>>, u16>::round_trips(value.client_xml, rest10)
        &&& RLE::<Vec<RLE<String, u32>>, u16>::round_trips(value.extra_xml, rest11)
    }

    fn get_be(bytes: &mut Cursor) -> (r: Result<MapInfo, Error>) {
        reveal(<MapInfo as Adapter>::spec_get);
        let width = u32::get_be(bytes)?;
        let height = u32::get_be(bytes)?;
        let name = RLE::<String, u16>::get_be(bytes)?;
        let display_name = RLE::<String, u16>::get_be(bytes)?;
        let fp = u32::get_be(bytes)?;
        let background = u32::get_be(bytes)?;
        let difficulty = u32::get_be(bytes)?;
        let allow_player_teleport = bool::get_be(bytes)?;
        let show_displays = bool::get_be(bytes)?;
        let client_xml = RLE::<Vec<RLE<String, u32>>, u16>::get_be(bytes)?;
        let extra_xml = RLE::<Vec<RLE<String, u32>>, u16>::get_be(bytes)?;
        Ok(MapInfo { width, height, name, display_name, fp, background, difficulty, allow_player_teleport, show_displays, client_xml, extra_xml })
    }

    fn put_be(&self, buffer: &mut Vec<u8>) -> (r: Result<(), Error>) {
        reveal(<MapInfo as Adapter>::spec_put);
        self.width.put_be(buffer)?;
        let ghost written = u32::spec_put(self.deep_view().width).bytes;
        proof {
            lemma_add_assoc(old(buffer)@, written, u32::spec_put(self.deep_view().height).bytes);
        }
        self.height.put_be(buffer)?;
        let ghost written = written + u32::spec_put(self.deep_view().height).bytes;
        proof {
            lemma_add_assoc(old(buffer)@, written, RLE::<String, u16>::spec_put(self.deep_view().name).bytes);
        }
        self.name.put_be(buffer)?;
        let ghost written = written + RLE::<String, u16>::spec_put(self.deep_view().name).bytes;
        proof {
            lemma_add_assoc(old(buffer)@, written, RLE::<String, u16>::spec_put(self.deep_view().display_name).bytes);
        }
        self.display_name.put_be(buffer)?;
        let ghost written = written + RLE::<String, u16>::spec_put(self.deep_view().display_name).bytes;
        proof {
            lemma_add_assoc(old(buffer)@, written, u32::spec_put(self.deep_view().fp).bytes);
        }
        self.fp.put_be(buffer)?;
        let ghost written = written + u32::spec_put(self.deep_view().fp).bytes;
        proof {
            lemma_add_assoc(old(buffer)@, written, u32::spec_put(self.deep_view().background).bytes);
        }
        self.background.put_be(buffer)?;
        let ghost written = written + u32::spec_put(self.deep_view().background).bytes;
        proof {
            lemma_add_assoc(old(buffer)@, written, u32::spec_put(self.deep_view().difficulty).bytes);
        }
        self.difficulty.put_be(buffer)?;
        let ghost written = written + u32::spec_put(self.deep_view().difficulty).bytes;
        proof {
            lemma_add_assoc(old(buffer)@, written, bool::spec_put(self.deep_view().allow_player_teleport).bytes);
        }
        self.allow_player_teleport.put_be(buffer)?;
        let ghost written = written + bool::spec_put(self.deep_view().allow_player_teleport).bytes;
        proof {
            lemma_add_assoc(old(buffer)@, written, bool::spec_put(self.deep_view().show_displays).bytes);
        }
        self.show_displays.put_be(buffer)?;
        let ghost written = written + bool::spec_put(self.deep_view().show_displays).bytes;
        proof {
            lemma_add_assoc(old(buffer)@, written, RLE::<Vec<RLE<String, u32>>, u16>::spec_put(self.deep_view().client_xml).bytes);
        }
        self.client_xml.put_be(buffer)?;
        let ghost written = written + RLE::<Vec<RLE<String, u32>>, u16>::spec_put(self.deep_view().client_xml).bytes;
        proof {
            lemma_add_assoc(old(buffer)@, written, RLE::<Vec<RLE<String, u32>>, u16>::spec_put(self.deep_view().extra_xml).bytes);
        }
        self.extra_xml.put_be(buffer)?;
        Ok(())
    }

    proof fn lemma_round_trip(value: MapInfoModel, rest: Seq<u8>) {
        reveal(<MapInfo as Adapter>::spec_get);
        reveal(<MapInfo as Adapter>::spec_put);
        let rest11 = rest;
        let rest10 = RLE::<Vec<RLE<String, u32>>, u16>::spec_put(value.extra_xml).bytes + rest11;
        let rest9 = RLE::<Vec<RLE<String, u32>>, u16>::spec_put(value.client_xml).bytes + rest10;
        let rest8 = bool::spec_put(value.show_displays).bytes + rest9;
        let rest7 = bool::spec_put(value.allow_player_teleport).bytes + rest8;
        let rest6 = u32::spec_put(value.difficulty).bytes + rest7;
        let rest5 = u32::spec_put(value.background).bytes + rest6;
        let rest4 = u32::spec_put(value.fp).bytes + rest5;
        let rest3 = RLE::<String, u16>::spec_put(value.display_name).bytes + rest4;
        let rest2 = RLE::<String, u16>::spec_put(value.name).bytes + rest3;
        let rest1 = u32::spec_put(value.height).bytes + rest2;
        let front1 = u32::spec_put(value.width).bytes;
        let front2 = front1 + u32::spec_put(value.height).bytes;
        let front3 = front2 + RLE::<String, u16>::spec_put(value.name).bytes;
        let front4 = front3 + RLE::<String, u16>::spec_put(value.display_name).bytes;
        let front5 = front4 + u32::spec_put(value.fp).bytes;
        let front6 = front5 + u32::spec_put(value.background).bytes;
        let front7 = front6 + u32::spec_put(value.difficulty).bytes;
        let front8 = front7 + bool::spec_put(value.allow_player_teleport).bytes;
        let front9 = front8 + bool::spec_put(value.show_displays).bytes;
        let front10 = front9 + RLE::<Vec<RLE<String, u32>>, u16>::spec_put(value.client_xml).bytes;
        lemma_add_assoc(front10, RLE::<Vec<RLE<String, u32>>, u16>::spec_put(value.extra_xml).bytes, rest11);
        lemma_add_assoc(front9, RLE::<Vec<RLE<String, u32>>, u16>::spec_put(value.client_xml).bytes, rest10);
        lemma_add_assoc(front8, bool::spec_put(value.show_displays).bytes, rest9);
        lemma_add_assoc(front7, bool::spec_put(value.allow_player_teleport).bytes, rest8);
        lemma_add_assoc(front6, u32::spec_put(value.difficulty).bytes, rest7);
        lemma_add_assoc(front5, u32::spec_put(value.background).bytes, rest6);
        lemma_add_assoc(front4, u32::spec_put(value.fp).bytes, rest5);
        lemma_add_assoc(front3, RLE::<String, u16>::spec_put(value.display_name).bytes, rest4);
        lemma_add_assoc(front2, RLE::<String, u16>::spec_put(value.name).bytes, rest3);
        lemma_add_assoc(front1, u32::spec_put(value.height).bytes, rest2);
        u32::lemma_round_trip(value.width, rest1);
        u32::lemma_round_trip(value.height, rest2);
        RLE::<String, u16>::lemma_round_trip(value.name, rest3);
        RLE::<String, u16>::lemma_round_trip(value.display_name, rest4);
        u32::lemma_round_trip(value.fp, rest5);
        u32::lemma_round_trip(value.background, rest6);
        u32::lemma_round_trip(value.difficulty, rest7);
        bool::lemma_round_trip(value.allow_player_teleport, rest8);
        bool::lemma_round_trip(value.show_displays, rest9);
        RLE::<Vec<RLE<String, u32>>, u16>::lemma_round_trip(value.client_xml, rest10);
        RLE::<Vec<RLE<String, u32>>, u16>::lemma_round_trip(value.extra_xml, rest11);
    }
}

impl PacketData for MapInfo {
    open spec fn spec_packet_type() -> PacketType {
        PacketType::MapInfo
    }

    open spec fn spec_wrap(value: MapInfoModel) -> PacketModel {
        PacketModel::MapInfo(value)
    }

    fn packet_type() -> (kind: PacketType) {
        PacketType::MapInfo
    }

    fn into_packet(self) -> (packet: Packet) {
        Packet::MapInfo(self)
    }

    fn from_packet(packet: Packet) -> (r: Result<MapInfo, Packet>) {
        match packet {
            Packet::MapInfo(v) => Ok(v),
            p => Err(p),
        }
    }

    fn from_packet_ref(packet: &Packet) -> (r: Result<&MapInfo, &Packet>) {
        match packet {
            Packet::MapInfo(v) => Ok(v),
            p => Err(p),
        }
    }
}

/// The `NameResult` packet.
#[derive(Debug, Clone, PartialEq, Eq)]
pub struct NameResult {
    pub success: bool,
    pub error_text: RLE<String>,
}

/// The model of [`NameResult`].
pub struct NameResultModel {
    pub success: bool,
    pub error_text: Seq<char>,
}

impl DeepView for NameResult {
    type V = NameResultModel;

    open spec fn deep_view(&self) -> NameResultModel {
        NameResultModel {
            success: self.success,
            error_text: self.error_text.deep_view(),
        }
    }
}

impl Adapter for NameResult {
    #[verifier::opaque]
    open spec fn spec_get(input: Seq<u8>) -> Read<NameResultModel, Error> {
        then(bool::spec_get(input), |success: bool, rest: Seq<u8>|
            then(RLE::<String, u16>::spec_get(rest), |error_text: Seq<char>, rest: Seq<u8>|
                done(NameResultModel { success, error_text }, rest)))
    }

    #[verifier::opaque]
    open spec fn spec_put(value: NameResultModel) -> Written {
        also(bool::spec_put(value.success),
            RLE::<String, u16>::spec_put(value.error_text))
    }

    open spec fn round_trips(value: NameResultModel, rest: Seq<u8>) -> bool {
        let rest2 = rest;
        let rest1 = RLE::<String, u16>::spec_put(value.error_text).bytes + rest2;
        &&& bool::round_trips(value.success, rest1)
        &&& RLE::<String, u16>::round_trips(value.error_text, rest2)
    }

    fn get_be(bytes: &mut Cursor) -> (r: Result<NameResult, Error>) {
        reveal(<NameResult as Adapter>::spec_get);
        let success = bool::get_be(bytes)?;
        let error_text = RLE::<String, u16>::get_be(bytes)?;
        Ok(NameResult { success, error_text })
    }

    fn put_be(&self, buffer: &mut Vec<u8>) -> (r: Result<(), Error>) {
        reveal(<NameResult as Adapter>::spec_put);
        self.success.put_be(buffer)?;
        let ghost written = bool::spec_put(self.deep_view().success).bytes;
        proof {
            lemma_add_assoc(old(buffer)@, written, RLE::<String, u16>::spec_put(self.deep_view().error_text).bytes);
        }
        self.error_text.put_be(buffer)?;
        Ok(())
    }

    proof fn lemma_round_trip(value: NameResultModel, rest: Seq<u8>) {
        reveal(<NameResult as Adapter>::spec_get);
        reveal(<NameResult as Adapter>::spec_put);
        let rest2 = rest;
        let rest1 = RLE::<String, u16>::spec_put(value.error_text).bytes + rest2;
        let front1 = bool::spec_put(value.success).bytes;
        lemma_add_assoc(front1, RLE::<String, u16>::spec_put(value.error_text).bytes, rest2);
        bool::lemma_round_trip(value.success, rest1);
        RLE::<String, u16>::lemma_round_trip(value.error_text, rest2);
    }
}

impl PacketData for NameResult {
    open spec fn spec_packet_type() -> PacketType {
        PacketType::NameResult
    }

    open spec fn spec_wrap(value: NameResultModel) -> PacketModel {
        PacketModel::NameResult(value)
    }

    fn packet_type() -> (kind: PacketType) {
        PacketType::NameResult
    }

    fn into_packet(self) -> (packet: Packet) {
        Packet::NameResult(self)
    }

    fn from_packet(packet: Packet) -> (r: Result<NameResult, Packet>) {
        match packet {
            Packet::NameResult(v) => Ok(v),
            p => Err(p),
        }
    }

    fn from_packet_ref(packet: &Packet) -> (r: Result<&NameResult, &Packet>) {
        match packet {
            Packet::NameResult(v) => Ok(v),
            p => Err(p),
        }
    }
}

/// The `NewAbility` packet.
#[derive(Debug, Clone, Copy, PartialEq, Eq, Structural)]
pub struct NewAbility {
    pub typ: u32,
}

impl DeepView for NewAbility {
    type V = NewAbility;

    open spec fn deep_view(&self) -> NewAbility {
        *self
    }
}

impl Adapter for NewAbility {
    #[verifier::opaque]
    open spec fn spec_get(input: Seq<u8>) -> Read<NewAbility, Error> {
        then(u32::spec_get(input), |typ: u32, rest: Seq<u8>|
            done(NewAbility { typ }, rest))
    }

    #[verifier::opaque]
    open spec fn spec_put(value: NewAbility) -> Written {
        u32::spec_put(value.typ)
    }

    open spec fn round_trips(value: NewAbility, rest: Seq<u8>) -> bool {
        let rest1 = rest;
        &&& u32::round_trips(value.typ, rest1)
    }

    fn get_be(bytes: &mut Cursor) -> (r: Result<NewAbility, Error>) {
        reveal(<NewAbility as Adapter>::spec_get);
        let typ = u32::get_be(bytes)?;
        Ok(NewAbility { typ })
    }

    fn put_be(&self, buffer: &mut Vec<u8>) -> (r: Result<(), Error>) {
        reveal(<NewAbility as Adapter>::spec_put);
        self.typ.put_be(buffer)?;
        Ok(())
    }

    proof fn lemma_round_trip(value: NewAbility, rest: Seq<u8>) {
        reveal(<NewAbility as Adapter>::spec_get);
        reveal(<NewAbility as Adapter>::spec_put);
        let rest1 = rest;
        u32::lemma_round_trip(value.typ, rest1);
    }
}

impl PacketData for NewAbility {
    open spec fn spec_packet_type() -> PacketType {
        PacketType::NewAbility
    }

    open spec fn spec_wrap(value: NewAbility) -> PacketModel {
        PacketModel::NewAbility(value)
    }

    fn packet_type() -> (kind: PacketType) {
        PacketType::NewAbility
    }

    fn into_packet(self) -> (packet: Packet) {
        Packet::NewAbility(self)
    }

    fn from_packet(packet: Packet) -> (r: Result<NewAbility, Packet>) {
        match packet {
            Packet::NewAbility(v) => Ok(v),
            p => Err(p),
        }
    }

    fn from_packet_ref(packet: &Packet) -> (r: Result<&NewAbility, &Packet>) {
        match packet {
            Packet::NewAbility(v) => Ok(v),
            p => Err(p),
        }
    }
}

/// The `NewTick` packet.
#[derive(Debug, Clone, PartialEq, Eq)]
pub struct NewTick {
    pub tick_id: u32,
    pub tick_time: u32,
    pub statuses: RLE<Vec<ObjectStatusData>>,
}

/// The model of [`NewTick`].
pub struct NewTickModel {
    pub tick_id: u32,
    pub tick_time: u32,
    pub statuses: Seq<ObjectStatusDataModel>,
}

impl DeepView for NewTick {
    type V = NewTickModel;

    open spec fn deep_view(&self) -> NewTickModel {
        NewTickModel {
            tick_id: self.tick_id,
            tick_time: self.tick_time,
            statuses: self.statuses.deep_view(),
        }
    }
}

impl Adapter for NewTick {
    #[verifier::opaque]
    open spec fn spec_get(input: Seq<u8>) -> Read<NewTickModel, Error> {
        then(u32::spec_get(input), |tick_id: u32, rest: Seq<u8>|
            then(u32::spec_get(rest), |tick_time: u32, rest: Seq<u8>|
                then(RLE::<Vec<ObjectStatusData>, u16>::spec_get(rest), |statuses: Seq<ObjectStatusDataModel>, rest: Seq<u8>|
                    done(NewTickModel { tick_id, tick_time, statuses }, rest))))
    }

    #[verifier::opaque]
    open spec fn spec_put(value: NewTickModel) -> Written {
        also(also(u32::spec_put(value.tick_id),
            u32::spec_put(value.tick_time)),
            RLE::<Vec<ObjectStatusData>, u16>::spec_put(value.statuses))
    }

    open spec fn round_trips(value: NewTickModel, rest: Seq<u8>) -> bool {
        let rest3 = rest;
        let rest2 = RLE::<Vec<ObjectStatusData>, u16>::spec_put(value.statuses).bytes + rest3;
        let rest1 = u32::spec_put(value.tick_time).bytes + rest2;
        &&& u32::round_trips(value.tick_id, rest1)
        &&& u32::round_trips(value.tick_time, rest2)
        &&& RLE::<Vec<ObjectStatusData>, u16>::round_trips(value.statuses, rest3)
    }

    fn get_be(bytes: &mut Cursor) -> (r: Result<NewTick, Error>) {
        reveal(<NewTick as Adapter>::spec_get);
        let tick_id = u32::get_be(bytes)?;
        let tick_time = u32::get_be(bytes)?;
        let statuses = RLE::<Vec<ObjectStatusData>, u16>::get_be(bytes)?;
        Ok(NewTick { tick_id, tick_time, statuses })
    }

    fn put_be(&self, buffer: &mut Vec<u8>) -> (r: Result<(), Error>) {
        reveal(<NewTick as Adapter>::spec_put);
        self.tick_id.put_be(buffer)?;
        let ghost written = u32::spec_put(self.deep_view().tick_id).bytes;
        proof {
            lemma_add_assoc(old(buffer)@, written, u32::spec_put(self.deep_view().tick_time).bytes);
        }
        self.tick_time.put_be(buffer)?;
        let ghost written = written + u32::spec_put(self.deep_view().tick_time).bytes;
        proof {
            lemma_add_assoc(old(buffer)@, written, RLE::<Vec<ObjectStatusData>, u16>::spec_put(self.deep_view().statuses).bytes);
        }
        self.statuses.put_be(buffer)?;
        Ok(())
    }

    proof fn lemma_round_trip(value: NewTickModel, rest: Seq<u8>) {
        reveal(<NewTick as Adapter>::spec_get);
        reveal(<NewTick as Adapter>::spec_put);
        let rest3 = rest;
        let rest2 = RLE::<Vec<ObjectStatusData>, u16>::spec_put(value.statuses).bytes + rest3;
        let rest1 = u32::spec_put(value.tick_time).bytes + rest2;
        let front1 = u32::spec_put(value.tick_id).bytes;
        let front2 = front1 + u32::spec_put(value.tick_time).bytes;
        lemma_add_assoc(front2, RLE::<Vec<ObjectStatusData>, u16>::spec_put(value.statuses).bytes, rest3);
        lemma_add_assoc(front1, u32::spec_put(value.tick_time).bytes, rest2);
        u32::lemma_round_trip(value.tick_id, rest1);
        u32::lemma_round_trip(value.tick_time, rest2);
        RLE::<Vec<ObjectStatusData>, u16>::lemma_round_trip(value.statuses, rest3);
    }
}

impl PacketData for NewTick {
    open spec fn spec_packet_type() -> PacketType {
        PacketType::NewTick
    }

    open spec fn spec_wrap(value: NewTickModel) -> PacketModel {
        PacketModel::NewTick(value)
    }

    fn packet_type() -> (kind: PacketType) {
        PacketType::NewTick
    }

    fn into_packet(self) -> (packet: Packet) {
        Packet::NewTick(self)
    }

    fn from_packet(packet: Packet) -> (r: Result<NewTick, Packet>) {
        match packet {
            Packet::NewTick(v) => Ok(v),
            p => Err(p),
        }
    }

    fn from_packet_ref(packet: &Packet) -> (r: Result<&NewTick, &Packet>) {
        match packet {
            Packet::NewTick(v) => Ok(v),
            p => Err(p),
        }
    }
}

/// The `Notification` packet.
#[derive(Debug, Clone, PartialEq, Eq)]
pub struct Notification {
    pub object_id: u32,
    pub message: RLE<String>,
    pub color: u32,
}

/// The model of [`Notification`].
pub struct NotificationModel {
    pub object_id: u32,
    pub message: Seq<char>,
    pub color: u32,
}

impl DeepView for Notification {
    type V = NotificationModel;

    open spec fn deep_view(&self) -> NotificationModel {
        NotificationModel {
            object_id: self.object_id,
            message: self.message.deep_view(),
            color: self.color,
        }
    }
}

impl Adapter for Notification {
    #[verifier::opaque]
    open spec fn spec_get(input: Seq<u8>) -> Read<NotificationModel, Error> {
        then(u32::spec_get(input), |object_id: u32, rest: Seq<u8>|
            then(RLE::<String, u16>::spec_get(rest), |message: Seq<char>, rest: Seq<u8>|
                then(u32::spec_get(rest), |color: u32, rest: Seq<u8>|
                    done(NotificationModel { object_id, message, color }, rest))))
    }

    #[verifier::opaque]
    open spec fn spec_put(value: NotificationModel) -> Written {
        also(also(u32::spec_put(value.object_id),
            RLE::<String, u16>::spec_put(value.message)),
            u32::spec_put(value.color))
    }

    open spec fn round_trips(value: NotificationModel, rest: Seq<u8>) -> bool {
        let rest3 = rest;
        let rest2 = u32::spec_put(value.color).bytes + rest3;
        let rest1 = RLE::<String, u16>::spec_put(value.message).bytes + rest2;
        &&& u32::round_trips(value.object_id, rest1)
        &&& RLE::<String, u16>::round_trips(value.message, rest2)
        &&& u32::round_trips(value.color, rest3)
    }

    fn get_be(bytes: &mut Cursor) -> (r: Result<Notification, Error>) {
        reveal(<Notification as Adapter>::spec_get);
        let object_id = u32::get_be(bytes)?;
        let message = RLE::<String, u16>::get_be(bytes)?;
        let color = u32::get_be(bytes)?;
        Ok(Notification { object_id, message, color })
    }

    fn put_be(&self, buffer: &mut Vec<u8>) -> (r: Result<(), Error>) {
        reveal(<Notification as Adapter>::spec_put);
        self.object_id.put_be(buffer)?;
        let ghost written = u32::spec_put(self.deep_view().object_id).bytes;
        proof {
            lemma_add_assoc(old(buffer)@, written, RLE::<String, u16>::spec_put(self.deep_view().message).bytes);
        }
        self.message.put_be(buffer)?;
        let ghost written = written + RLE::<String, u16>::spec_put(self.deep_view().message).bytes;
        proof {
            lemma_add_assoc(old(buffer)@, written, u32::spec_put(self.deep_view().color).bytes);
        }
        self.color.put_be(buffer)?;
        Ok(())
    }

    proof fn lemma_round_trip(value: NotificationModel, rest: Seq<u8>) {
        reveal(<Notification as Adapter>::spec_get);
        reveal(<Notification as Adapter>::spec_put);
        let rest3 = rest;
        let rest2 = u32::spec_put(value.color).bytes + rest3;
        let rest1 = RLE::<String, u16>::spec_put(value.message).bytes + rest2;
        let front1 = u32::spec_put(value.object_id).bytes;
        let front2 = front1 + RLE::<String, u16>::spec_put(value.message).bytes;
        lemma_add_assoc(front2, u32::spec_put(value.color).bytes, rest3);
        lemma_add_assoc(front1, RLE::<String, u16>::spec_put(value.message).bytes, rest2);
        u32::lemma_round_trip(value.object_id, rest1);
        RLE::<String, u16>::lemma_round_trip(value.message, rest2);
        u32::lemma_round_trip(value.color, rest3);
    }
}

impl PacketData for Notification {
    open spec fn spec_packet_type() -> PacketType {
        PacketType::Notification
    }

    open spec fn spec_wrap(value: NotificationModel) -> PacketModel {
        PacketModel::Notification(value)
    }

    fn packet_type() -> (kind: PacketType) {
        PacketType::Notification
    }

    fn into_packet(self) -> (packet: Packet) {
        Packet::Notification(self)
    }

    fn from_packet(packet: Packet) -> (r: Result<Notification, Packet>) {
        match packet {
            Packet::Notification(v) => Ok(v),
            p => Err(p),
        }
    }

    fn from_packet_ref(packet: &Packet) -> (r: Result<&Notification, &Packet>) {
        match packet {
            Packet::Notification(v) => Ok(v),
            p => Err(p),
        }
    }
}

/// The `PasswordPrompt` packet.
#[derive(Debug, Clone, Copy, PartialEq, Eq, Structural)]
pub struct PasswordPrompt {
    pub clean_password_status: u32,
}

impl DeepView for PasswordPrompt {
    type V = PasswordPrompt;

    open spec fn deep_view(&self) -> PasswordPrompt {
        *self
    }
}

impl Adapter for PasswordPrompt {
    #[verifier::opaque]
    open spec fn spec_get(input: Seq<u8>) -> Read<PasswordPrompt, Error> {
        then(u32::spec_get(input), |clean_password_status: u32, rest: Seq<u8>|
            done(PasswordPrompt { clean_password_status }, rest))
    }

    #[verifier::opaque]
    open spec fn spec_put(value: PasswordPrompt) -> Written {
        u32::spec_put(value.clean_password_status)
    }

    open spec fn round_trips(value: PasswordPrompt, rest: Seq<u8>) -> bool {
        let rest1 = rest;
        &&& u32::round_trips(value.clean_password_status, rest1)
    }

    fn get_be(bytes: &mut Cursor) -> (r: Result<PasswordPrompt, Error>) {
        reveal(<PasswordPrompt as Adapter>::spec_get);
        let clean_password_status = u32::get_be(bytes)?;
        Ok(PasswordPrompt { clean_password_status })
    }

    fn put_be(&self, buffer: &mut Vec<u8>) -> (r: Result<(), Error>) {
        reveal(<PasswordPrompt as Adapter>::spec_put);
        self.clean_password_status.put_be(buffer)?;
        Ok(())
    }

    proof fn lemma_round_trip(value: PasswordPrompt, rest: Seq<u8>) {
        reveal(<PasswordPrompt as Adapter>::spec_get);
        reveal(<PasswordPrompt as Adapter>::spec_put);
        let rest1 = rest;
        u32::lemma_round_trip(value.clean_password_status, rest1);
    }
}

impl PacketData for PasswordPrompt {
    open spec fn spec_packet_type() -> PacketType {
        PacketType::PasswordPrompt
    }

    open spec fn spec_wrap(value: PasswordPrompt) -> PacketModel {
        PacketModel::PasswordPrompt(value)
    }

    fn packet_type() -> (kind: PacketType) {
        PacketType::PasswordPrompt
    }

    fn into_packet(self) -> (packet: Packet) {
        Packet::PasswordPrompt(self)
    }

    fn from_packet(packet: Packet) -> (r: Result<PasswordPrompt, Packet>) {
        match packet {
            Packet::PasswordPrompt(v) => Ok(v),
            p => Err(p),
        }
    }

    fn from_packet_ref(packet: &Packet) -> (r: Result<&PasswordPrompt, &Packet>) {
        match packet {
            Packet::PasswordPrompt(v) => Ok(v),
            p => Err(p),
        }
    }
}

/// The `PetYardUpdate` packet.
#[derive(Debug, Clone, Copy, PartialEq, Eq, Structural)]
pub struct PetYardUpdate {
    pub typ: u32,
}

impl DeepView for PetYardUpdate {
    type V = PetYardUpdate;

    open spec fn deep_view(&self) -> PetYardUpdate {
        *self
    }
}

impl Adapter for PetYardUpdate {
    #[verifier::opaque]
    open spec fn spec_get(input: Seq<u8>) -> Read<PetYardUpdate, Error> {
        then(u32::spec_get(input), |typ: u32, rest: Seq<u8>|
            done(PetYardUpdate { typ }, rest))
    }

    #[verifier::opaque]
    open spec fn spec_put(value: PetYardUpdate) -> Written {
        u32::spec_put(value.typ)
    }

    open spec fn round_trips(value: PetYardUpdate, rest: Seq<u8>) -> bool {
        let rest1 = rest;
        &&& u32::round_trips(value.typ, rest1)
    }

    fn get_be(bytes: &mut Cursor) -> (r: Result<PetYardUpdate, Error>) {
        reveal(<PetYardUpdate as Adapter>::spec_get);
        let typ = u32::get_be(bytes)?;
        Ok(PetYardUpdate { typ })
    }

    fn put_be(&self, buffer: &mut Vec<u8>) -> (r: Result<(), Error>) {
        reveal(<PetYardUpdate as Adapter>::spec_put);
        self.typ.put_be(buffer)?;
        Ok(())
    }

    proof fn lemma_round_trip(value: PetYardUpdate, rest: Seq<u8>) {
        reveal(<PetYardUpdate as Adapter>::spec_get);
        reveal(<PetYardUpdate as Adapter>::spec_put);
        let rest1 = rest;
        u32::lemma_round_trip(value.typ, rest1);
    }
}

impl PacketData for PetYardUpdate {
    open spec fn spec_packet_type() -> PacketType {
        PacketType::PetYardUpdate
    }

    open spec fn spec_wrap(value: PetYardUpdate) -> PacketModel {
        PacketModel::PetYardUpdate(value)
    }

    fn packet_type() -> (kind: PacketType) {
        PacketType::PetYardUpdate
    }

    fn into_packet(self) -> (packet: Packet) {
        Packet::PetYardUpdate(self)
    }

    fn from_packet(packet: Packet) -> (r: Result<PetYardUpdate, Packet>) {
        match packet {
            Packet::PetYardUpdate(v) => Ok(v),
            p => Err(p),
        }
    }

    fn from_packet_ref(packet: &Packet) -> (r: Result<&PetYardUpdate, &Packet>) {
        match packet {
            Packet::PetYardUpdate(v) => Ok(v),
            p => Err(p),
        }
    }
}

/// The `Pic` packet: a picture of `w` by `h` pixels of four bytes each. The
/// pixels follow the two dimensions without a length prefix.
#[derive(Debug, Clone, PartialEq, Eq)]
pub struct Pic {
    pub w: u32,
    pub h: u32,
    pub bitmap_data: Vec<u8>,
}

/// The model of [`Pic`].
pub struct PicModel {
    pub w: u32,
    pub h: u32,
    pub bitmap_data: Seq<u8>,
}

impl DeepView for Pic {
    type V = PicModel;

    open spec fn deep_view(&self) -> PicModel {
        PicModel { w: self.w, h: self.h, bitmap_data: self.bitmap_data@ }
    }
}

/// The number of bytes of a picture of `w` by `h` pixels.
pub open spec fn bitmap_len(w: u32, h: u32) -> nat {
    (4 * (w * h)) as nat
}

/// What decoding the pixels of a picture of `w` by `h` pixels does.
pub open spec fn spec_get_bitmap(w: u32, h: u32, input: Seq<u8>) -> Read<PicModel, Error> {
    if input.len() >= bitmap_len(w, h) {
        Read {
            rest: input.skip(bitmap_len(w, h) as int),
            result: Ok(PicModel { w, h, bitmap_data: input.take(bitmap_len(w, h) as int) }),
        }
    } else {
        fail(
            Error::InsufficientBytes {
                remaining: input.len() as usize,
                needed: if bitmap_len(w, h) <= usize::MAX {
                    bitmap_len(w, h) as usize
                } else {
                    usize::MAX
                },
            },
            input,
        )
    }
}

impl Adapter for Pic {
    #[verifier::opaque]
    open spec fn spec_get(input: Seq<u8>) -> Read<PicModel, Error> {
        then(u32::spec_get(input), |w: u32, rest: Seq<u8>|
            then(u32::spec_get(rest), |h: u32, rest: Seq<u8>| spec_get_bitmap(w, h, rest)))
    }

    #[verifier::opaque]
    open spec fn spec_put(value: PicModel) -> Written {
        also(also(u32::spec_put(value.w), u32::spec_put(value.h)), wrote(value.bitmap_data))
    }

    open spec fn round_trips(value: PicModel, rest: Seq<u8>) -> bool {
        value.bitmap_data.len() == bitmap_len(value.w, value.h)
    }

    fn get_be(bytes: &mut Cursor) -> (r: Result<Pic, Error>) {
        reveal(<Pic as Adapter>::spec_get);
        let w: u32 = u32::get_be(bytes)?;
        let h: u32 = u32::get_be(bytes)?;
        assert(w * h <= 0xffff_ffff * 0xffff_ffff) by (nonlinear_arith)
            requires
                0 <= w <= 0xffff_ffff,
                0 <= h <= 0xffff_ffff,
        ;
        let pixels: u128 = (w as u128) * (h as u128);
        let needed: u128 = 4 * pixels;
        let remaining = bytes.remaining();
        if remaining as u128 >= needed {
            let bitmap_data = bytes.take(needed as usize);
            Ok(Pic { w, h, bitmap_data })
        } else {
            Err(
                Error::InsufficientBytes {
                    remaining,
                    needed: if needed <= usize::MAX as u128 {
                        needed as usize
                    } else {
                        usize::MAX
                    },
                },
            )
        }
    }

    fn put_be(&self, buffer: &mut Vec<u8>) -> (r: Result<(), Error>) {
        reveal(<Pic as Adapter>::spec_put);
        self.w.put_be(buffer)?;
        let ghost written = u32::spec_put(self.w).bytes;
        proof {
            lemma_add_assoc(old(buffer)@, written, u32::spec_put(self.h).bytes);
        }
        self.h.put_be(buffer)?;
        let ghost written = written + u32::spec_put(self.h).bytes;
        proof {
            lemma_add_assoc(old(buffer)@, written, self.bitmap_data@);
        }
        let ghost before = buffer@;
        buffer.extend_from_slice(self.bitmap_data.as_slice());
        assert(buffer@ =~= before + self.bitmap_data@);
        Ok(())
    }

    proof fn lemma_round_trip(value: PicModel, rest: Seq<u8>) {
        reveal(<Pic as Adapter>::spec_get);
        reveal(<Pic as Adapter>::spec_put);
        let rest2 = value.bitmap_data + rest;
        let rest1 = u32::spec_put(value.h).bytes + rest2;
        let front1 = u32::spec_put(value.w).bytes;
        let front2 = front1 + u32::spec_put(value.h).bytes;
        lemma_add_assoc(front2, value.bitmap_data, rest);
        lemma_add_assoc(front1, u32::spec_put(value.h).bytes, rest2);
        u32::lemma_round_trip(value.w, rest1);
        u32::lemma_round_trip(value.h, rest2);
        assert(rest2.take(value.bitmap_data.len() as int) =~= value.bitmap_data);
        assert(rest2.skip(value.bitmap_data.len() as int) =~= rest);
    }
}

impl PacketData for Pic {
    open spec fn spec_packet_type() -> PacketType {
        PacketType::Pic
    }

    open spec fn spec_wrap(value: PicModel) -> PacketModel {
        PacketModel::Pic(value)
    }

    fn packet_type() -> (kind: PacketType) {
        PacketType::Pic
    }

    fn into_packet(self) -> (packet: Packet) {
        Packet::Pic(self)
    }

    fn from_packet(packet: Packet) -> (r: Result<Pic, Packet>) {
        match packet {
            Packet::Pic(v) => Ok(v),
            p => Err(p),
        }
    }

    fn from_packet_ref(packet: &Packet) -> (r: Result<&Pic, &Packet>) {
        match packet {
            Packet::Pic(v) => Ok(v),
            p => Err(p),
        }
    }
}

/// The `Ping` packet.
#[derive(Debug, Clone, Copy, PartialEq, Eq, Structural)]
pub struct Ping {
    pub serial: u32,
}

impl DeepView for Ping {
    type V = Ping;

    open spec fn deep_view(&self) -> Ping {
        *self
    }
}

impl Adapter for Ping {
    #[verifier::opaque]
    open spec fn spec_get(input: Seq<u8>) -> Read<Ping, Error> {
        then(u32::spec_get(input), |serial: u32, rest: Seq<u8>|
            done(Ping { serial }, rest))
    }

    #[verifier::opaque]
    open spec fn spec_put(value: Ping) -> Written {
        u32::spec_put(value.serial)
    }

    open spec fn round_trips(value: Ping, rest: Seq<u8>) -> bool {
        let rest1 = rest;
        &&& u32::round_trips(value.serial, rest1)
    }

    fn get_be(bytes: &mut Cursor) -> (r: Result<Ping, Error>) {
        reveal(<Ping as Adapter>::spec_get);
        let serial = u32::get_be(bytes)?;
        Ok(Ping { serial })
    }

    fn put_be(&self, buffer: &mut Vec<u8>) -> (r: Result<(), Error>) {
        reveal(<Ping as Adapter>::spec_put);
        self.serial.put_be(buffer)?;
        Ok(())
    }

    proof fn lemma_round_trip(value: Ping, rest: Seq<u8>) {
        reveal(<Ping as Adapter>::spec_get);
        reveal(<Ping as Adapter>::spec_put);
        let rest1 = rest;
        u32::lemma_round_trip(value.serial, rest1);
    }
}

impl PacketData for Ping {
    open spec fn spec_packet_type() -> PacketType {
        PacketType::Ping
    }

    open spec fn spec_wrap(value: Ping) -> PacketModel {
        PacketModel::Ping(value)
    }

    fn packet_type() -> (kind: PacketType) {
        PacketType::Ping
    }

    fn into_packet(self) -> (packet: Packet) {
        Packet::Ping(self)
    }

    fn from_packet(packet: Packet) -> (r: Result<Ping, Packet>) {
        match packet {
            Packet::Ping(v) => Ok(v),
            p => Err(p),
        }
    }

    fn from_packet_ref(packet: &Packet) -> (r: Result<&Ping, &Packet>) {
        match packet {
            Packet::Ping(v) => Ok(v),
            p => Err(p),
        }
    }
}

/// The `PlaySound` packet.
#[derive(Debug, Clone, Copy, PartialEq, Eq, Structural)]
pub struct PlaySound {
    pub owner_id: u32,
    pub sound_id: u8,
}

impl DeepView for PlaySound {
    type V = PlaySound;

    open spec fn deep_view(&self) -> PlaySound {
        *self
    }
}

impl Adapter for PlaySound {
    #[verifier::opaque]
    open spec fn spec_get(input: Seq<u8>) -> Read<PlaySound, Error> {
        then(u32::spec_get(input), |owner_id: u32, rest: Seq<u8>|
            then(u8::spec_get(rest), |sound_id: u8, rest: Seq<u8>|
                done(PlaySound { owner_id, sound_id }, rest)))
    }

    #[verifier::opaque]
    open spec fn spec_put(value: PlaySound) -> Written {
        also(u32::spec_put(value.owner_id),
            u8::spec_put(value.sound_id))
    }

    open spec fn round_trips(value: PlaySound, rest: Seq<u8>) -> bool {
        let rest2 = rest;
        let rest1 = u8::spec_put(value.sound_id).bytes + rest2;
        &&& u32::round_trips(value.owner_id, rest1)
        &&& u8::round_trips(value.sound_id, rest2)
    }

    fn get_be(bytes: &mut Cursor) -> (r: Result<PlaySound, Error>) {
        reveal(<PlaySound as Adapter>::spec_get);
        let owner_id = u32::get_be(bytes)?;
        let sound_id = u8::get_be(bytes)?;
        Ok(PlaySound { owner_id, sound_id })
    }

    fn put_be(&self, buffer: &mut Vec<u8>) -> (r: Result<(), Error>) {
        reveal(<PlaySound as Adapter>::spec_put);
        self.owner_id.put_be(buffer)?;
        let ghost written = u32::spec_put(self.deep_view().owner_id).bytes;
        proof {
            lemma_add_assoc(old(buffer)@, written, u8::spec_put(self.deep_view().sound_id).bytes);
        }
        self.sound_id.put_be(buffer)?;
        Ok(())
    }

    proof fn lemma_round_trip(value: PlaySound, rest: Seq<u8>) {
        reveal(<PlaySound as Adapter>::spec_get);
        reveal(<PlaySound as Adapter>::spec_put);
        let rest2 = rest;
        let rest1 = u8::spec_put(value.sound_id).bytes + rest2;
        let front1 = u32::spec_put(value.owner_id).bytes;
        lemma_add_assoc(front1, u8::spec_put(value.sound_id).bytes, rest2);
        u32::lemma_round_trip(value.owner_id, rest1);
        u8::lemma_round_trip(value.sound_id, rest2);
    }
}

impl PacketData for PlaySound {
    open spec fn spec_packet_type() -> PacketType {
        PacketType::PlaySound
    }

    open spec fn spec_wrap(value: PlaySound) -> PacketModel {
        PacketModel::PlaySound(value)
    }

    fn packet_type() -> (kind: PacketType) {
        PacketType::PlaySound
    }

    fn into_packet(self) -> (packet: Packet) {
        Packet::PlaySound(self)
    }

    fn from_packet(packet: Packet) -> (r: Result<PlaySound, Packet>) {
        match packet {
            Packet::PlaySound(v) => Ok(v),
            p => Err(p),
        }
    }

    fn from_packet_ref(packet: &Packet) -> (r: Result<&PlaySound, &Packet>) {
        match packet {
            Packet::PlaySound(v) => Ok(v),
            p => Err(p),
        }
    }
}

/// The `QuestObjId` packet.
#[derive(Debug, Clone, Copy, PartialEq, Eq, Structural)]
pub struct QuestObjId {
    pub object_id: u32,
}

impl DeepView for QuestObjId {
    type V = QuestObjId;

    open spec fn deep_view(&self) -> QuestObjId {
        *self
    }
}

impl Adapter for QuestObjId {
    #[verifier::opaque]
    open spec fn spec_get(input: Seq<u8>) -> Read<QuestObjId, Error> {
        then(u32::spec_get(input), |object_id: u32, rest: Seq<u8>|
            done(QuestObjId { object_id }, rest))
    }

    #[verifier::opaque]
    open spec fn spec_put(value: QuestObjId) -> Written {
        u32::spec_put(value.object_id)
    }

    open spec fn round_trips(value: QuestObjId, rest: Seq<u8>) -> bool {
        let rest1 = rest;
        &&& u32::round_trips(value.object_id, rest1)
    }

    fn get_be(bytes: &mut Cursor) -> (r: Result<QuestObjId, Error>) {
        reveal(<QuestObjId as Adapter>::spec_get);
        let object_id = u32::get_be(bytes)?;
        Ok(QuestObjId { object_id })
    }

    fn put_be(&self, buffer: &mut Vec<u8>) -> (r: Result<(), Error>) {
        reveal(<QuestObjId as Adapter>::spec_put);
        self.object_id.put_be(buffer)?;
        Ok(())
    }

    proof fn lemma_round_trip(value: QuestObjId, rest: Seq<u8>) {
        reveal(<QuestObjId as Adapter>::spec_get);
        reveal(<QuestObjId as Adapter>::spec_put);
        let rest1 = rest;
        u32::lemma_round_trip(value.object_id, rest1);
    }
}

impl PacketData for QuestObjId {
    open spec fn spec_packet_type() -> PacketType {
        PacketType::QuestObjId
    }

    open spec fn spec_wrap(value: QuestObjId) -> PacketModel {
        PacketModel::QuestObjId(value)
    }

    fn packet_type() -> (kind: PacketType) {
        PacketType::QuestObjId
    }

    fn into_packet(self) -> (packet: Packet) {
        Packet::QuestObjId(self)
    }

    fn from_packet(packet: Packet) -> (r: Result<QuestObjId, Packet>) {
        match packet {
            Packet::QuestObjId(v) => Ok(v),
            p => Err(p),
        }
    }

    fn from_packet_ref(packet: &Packet) -> (r: Result<&QuestObjId, &Packet>) {
        match packet {
            Packet::QuestObjId(v) => Ok(v),
            p => Err(p),
        }
    }
}

/// The `QuestFetchResponse` packet.
#[derive(Debug, Clone, PartialEq, Eq)]
pub struct QuestFetchResponse {
    pub quests: RLE<Vec<QuestData>>,
    pub next_refresh_price: u32,
}

/// The model of [`QuestFetchResponse`].
pub struct QuestFetchResponseModel {
    pub quests: Seq<QuestDataModel>,
    pub next_refresh_price: u32,
}

impl DeepView for QuestFetchResponse {
    type V = QuestFetchResponseModel;

    open spec fn deep_view(&self) -> QuestFetchResponseModel {
        QuestFetchResponseModel {
            quests: self.quests.deep_view(),
            next_refresh_price: self.next_refresh_price,
        }
    }
}

impl Adapter for QuestFetchResponse {
    #[verifier::opaque]
    open spec fn spec_get(input: Seq<u8>) -> Read<QuestFetchResponseModel, Error> {
        then(RLE::<Vec<QuestData>, u16>::spec_get(input), |quests: Seq<QuestDataModel>, rest: Seq<u8>|
            then(u32::spec_get(rest), |next_refresh_price: u32, rest: Seq<u8>|
                done(QuestFetchResponseModel { quests, next_refresh_price }, rest)))
    }

    #[verifier::opaque]
    open spec fn spec_put(value: QuestFetchResponseModel) -> Written {
        also(RLE::<Vec<QuestData>, u16>::spec_put(value.quests),
            u32::spec_put(value.next_refresh_price))
    }

    open spec fn round_trips(value: QuestFetchResponseModel, rest: Seq<u8>) -> bool {
        let rest2 = rest;
        let rest1 = u32::spec_put(value.next_refresh_price).bytes + rest2;
        &&& RLE::<Vec<QuestData>, u16>::round_trips(value.quests, rest1)
        &&& u32::round_trips(value.next_refresh_price, rest2)
    }

    fn get_be(bytes: &mut Cursor) -> (r: Result<QuestFetchResponse, Error>) {
        reveal(<QuestFetchResponse as Adapter>::spec_get);
        let quests = RLE::<Vec<QuestData>, u16>::get_be(bytes)?;
        let next_refresh_price = u32::get_be(bytes)?;
        Ok(QuestFetchResponse { quests, next_refresh_price })
    }

    fn put_be(&self, buffer: &mut Vec<u8>) -> (r: Result<(), Error>) {
        reveal(<QuestFetchResponse as Adapter>::spec_put);
        self.quests.put_be(buffer)?;
        let ghost written = RLE::<Vec<QuestData>, u16>::spec_put(self.deep_view().quests).bytes;
        proof {
            lemma_add_assoc(old(buffer)@, written, u32::spec_put(self.deep_view().next_refresh_price).bytes);
        }
        self.next_refresh_price.put_be(buffer)?;
        Ok(())
    }

    proof fn lemma_round_trip(value: QuestFetchResponseModel, rest: Seq<u8>) {
        reveal(<QuestFetchResponse as Adapter>::spec_get);
        reveal(<QuestFetchResponse as Adapter>::spec_put);
        let rest2 = rest;
        let rest1 = u32::spec_put(value.next_refresh_price).bytes + rest2;
        let front1 = RLE::<Vec<QuestData>, u16>::spec_put(value.quests).bytes;
        lemma_add_assoc(front1, u32::spec_put(value.next_refresh_price).bytes, rest2);
        RLE::<Vec<QuestData>, u16>::lemma_round_trip(value.quests, rest1);
        u32::lemma_round_trip(value.next_refresh_price, rest2);
    }
}

impl PacketData for QuestFetchResponse {
    open spec fn spec_packet_type() -> PacketType {
        PacketType::QuestFetchResponse
    }

    open spec fn spec_wrap(value: QuestFetchResponseModel) -> PacketModel {
        PacketModel::QuestFetchResponse(value)
    }

    fn packet_type() -> (kind: PacketType) {
        PacketType::QuestFetchResponse
    }

    fn into_packet(self) -> (packet: Packet) {
        Packet::QuestFetchResponse(self)
    }

    fn from_packet(packet: Packet) -> (r: Result<QuestFetchResponse, Packet>) {
        match packet {
            Packet::QuestFetchResponse(v) => Ok(v),
            p => Err(p),
        }
    }

    fn from_packet_ref(packet: &Packet) -> (r: Result<&QuestFetchResponse, &Packet>) {
        match packet {
            Packet::QuestFetchResponse(v) => Ok(v),
            p => Err(p),
        }
    }
}

/// The `QuestRedeemResponse` packet.
#[derive(Debug, Clone, PartialEq, Eq)]
pub struct QuestRedeemResponse {
    pub ok: bool,
    pub message: RLE<String>,
}

/// The model of [`QuestRedeemResponse`].
pub struct QuestRedeemResponseModel {
    pub ok: bool,
    pub message: Seq<char>,
}

impl DeepView for QuestRedeemResponse {
    type V = QuestRedeemResponseModel;

    open spec fn deep_view(&self) -> QuestRedeemResponseModel {
        QuestRedeemResponseModel {
            ok: self.ok,
            message: self.message.deep_view(),
        }
    }
}

impl Adapter for QuestRedeemResponse {
    #[verifier::opaque]
    open spec fn spec_get(input: Seq<u8>) -> Read<QuestRedeemResponseModel, Error> {
        then(bool::spec_get(input), |ok: bool, rest: Seq<u8>|
            then(RLE::<String, u16>::spec_get(rest), |message: Seq<char>, rest: Seq<u8>|
                done(QuestRedeemResponseModel { ok, message }, rest)))
    }

    #[verifier::opaque]
    open spec fn spec_put(value: QuestRedeemResponseModel) -> Written {
        also(bool::spec_put(value.ok),
            RLE::<String, u16>::spec_put(value.message))
    }

    open spec fn round_trips(value: QuestRedeemResponseModel, rest: Seq<u8>) -> bool {
        let rest2 = rest;
        let rest1 = RLE::<String, u16>::spec_put(value.message).bytes + rest2;
        &&& bool::round_trips(value.ok, rest1)
        &&& RLE::<String, u16>::round_trips(value.message, rest2)
    }

    fn get_be(bytes: &mut Cursor) -> (r: Result<QuestRedeemResponse, Error>) {
        reveal(<QuestRedeemResponse as Adapter>::spec_get);
        let ok = bool::get_be(bytes)?;
        let message = RLE::<String, u16>::get_be(bytes)?;
        Ok(QuestRedeemResponse { ok, message })
    }

    fn put_be(&self, buffer: &mut Vec<u8>) -> (r: Result<(), Error>) {
        reveal(<QuestRedeemResponse as Adapter>::spec_put);
        self.ok.put_be(buffer)?;
        let ghost written = bool::spec_put(self.deep_view().ok).bytes;
        proof {
            lemma_add_assoc(old(buffer)@, written, RLE::<String, u16>::spec_put(self.deep_view().message).bytes);
        }
        self.message.put_be(buffer)?;
        Ok(())
    }

    proof fn lemma_round_trip(value: QuestRedeemResponseModel, rest: Seq<u8>) {
        reveal(<QuestRedeemResponse as Adapter>::spec_get);
        reveal(<QuestRedeemResponse as Adapter>::spec_put);
        let rest2 = rest;
        let rest1 = RLE::<String, u16>::spec_put(value.message).bytes + rest2;
        let front1 = bool::spec_put(value.ok).bytes;
        lemma_add_assoc(front1, RLE::<String, u16>::spec_put(value.message).bytes, rest2);
        bool::lemma_round_trip(value.ok, rest1);
        RLE::<String, u16>::lemma_round_trip(value.message, rest2);
    }
}

impl PacketData for QuestRedeemResponse {
    open spec fn spec_packet_type() -> PacketType {
        PacketType::QuestRedeemResponse
    }

    open spec fn spec_wrap(value: QuestRedeemResponseModel) -> PacketModel {
        PacketModel::QuestRedeemResponse(value)
    }

    fn packet_type() -> (kind: PacketType) {
        PacketType::QuestRedeemResponse
    }

    fn into_packet(self) -> (packet: Packet) {
        Packet::QuestRedeemResponse(self)
    }

    fn from_packet(packet: Packet) -> (r: Result<QuestRedeemResponse, Packet>) {
        match packet {
            Packet::QuestRedeemResponse(v) => Ok(v),
            p => Err(p),
        }
    }

    fn from_packet_ref(packet: &Packet) -> (r: Result<&QuestRedeemResponse, &Packet>) {
        match packet {
            Packet::QuestRedeemResponse(v) => Ok(v),
            p => Err(p),
        }
    }
}

/// The `RealmHeroLeftMsg` packet.
#[derive(Debug, Clone, Copy, PartialEq, Eq, Structural)]
pub struct RealmHeroLeftMsg {
    pub number_of_realm_heroes: u32,
}

impl DeepView for RealmHeroLeftMsg {
    type V = RealmHeroLeftMsg;

    open spec fn deep_view(&self) -> RealmHeroLeftMsg {
        *self
    }
}

impl Adapter for RealmHeroLeftMsg {
    #[verifier::opaque]
    open spec fn spec_get(input: Seq<u8>) -> Read<RealmHeroLeftMsg, Error> {
        then(u32::spec_get(input), |number_of_realm_heroes: u32, rest: Seq<u8>|
            done(RealmHeroLeftMsg { number_of_realm_heroes }, rest))
    }

    #[verifier::opaque]
    open spec fn spec_put(value: RealmHeroLeftMsg) -> Written {
        u32::spec_put(value.number_of_realm_heroes)
    }

    open spec fn round_trips(value: RealmHeroLeftMsg, rest: Seq<u8>) -> bool {
        let rest1 = rest;
        &&& u32::round_trips(value.number_of_realm_heroes, rest1)
    }

    fn get_be(bytes: &mut Cursor) -> (r: Result<RealmHeroLeftMsg, Error>) {
        reveal(<RealmHeroLeftMsg as Adapter>::spec_get);
        let number_of_realm_heroes = u32::get_be(bytes)?;
        Ok(RealmHeroLeftMsg { number_of_realm_heroes })
    }

    fn put_be(&self, buffer: &mut Vec<u8>) -> (r: Result<(), Error>) {
        reveal(<RealmHeroLeftMsg as Adapter>::spec_put);
        self.number_of_realm_heroes.put_be(buffer)?;
        Ok(())
    }

    proof fn lemma_round_trip(value: RealmHeroLeftMsg, rest: Seq<u8>) {
        reveal(<RealmHeroLeftMsg as Adapter>::spec_get);
        reveal(<RealmHeroLeftMsg as Adapter>::spec_put);
        let rest1 = rest;
        u32::lemma_round_trip(value.number_of_realm_heroes, rest1);
    }
}

impl PacketData for RealmHeroLeftMsg {
    open spec fn spec_packet_type() -> PacketType {
        PacketType::RealmHeroLeftMsg
    }

    open spec fn spec_wrap(value: RealmHeroLeftMsg) -> PacketModel {
        PacketModel::RealmHeroLeftMsg(value)
    }

    fn packet_type() -> (kind: PacketType) {
        PacketType::RealmHeroLeftMsg
    }

    fn into_packet(self) -> (packet: Packet) {
        Packet::RealmHeroLeftMsg(self)
    }

    fn from_packet(packet: Packet) -> (r: Result<RealmHeroLeftMsg, Packet>) {
        match packet {
            Packet::RealmHeroLeftMsg(v) => Ok(v),
            p => Err(p),
        }
    }

    fn from_packet_ref(packet: &Packet) -> (r: Result<&RealmHeroLeftMsg, &Packet>) {
        match packet {
            Packet::RealmHeroLeftMsg(v) => Ok(v),
            p => Err(p),
        }
    }
}

/// The `Reconnect` packet.
#[derive(Debug, Clone, PartialEq, Eq)]
pub struct Reconnect {
    pub name: RLE<String>,
    pub host: RLE<String>,
    pub stats: RLE<String>,
    pub port: u32,
    pub game_id: u32,
    pub key_time: u32,
    pub is_from_arena: bool,
    pub key: RLE<Vec<u8>>,
}

/// The model of [`Reconnect`].
pub struct ReconnectModel {
    pub name: Seq<char>,
    pub host: Seq<char>,
    pub stats: Seq<char>,
    pub port: u32,
    pub game_id: u32,
    pub key_time: u32,
    pub is_from_arena: bool,
    pub key: Seq<u8>,
}

impl DeepView for Reconnect {
    type V = ReconnectModel;

    open spec fn deep_view(&self) -> ReconnectModel {
        ReconnectModel {
            name: self.name.deep_view(),
            host: self.host.deep_view(),
            stats: self.stats.deep_view(),
            port: self.port,
            game_id: self.game_id,
            key_time: self.key_time,
            is_from_arena: self.is_from_arena,
            key: self.key.deep_view(),
        }
    }
}

impl Adapter for Reconnect {
    #[verifier::opaque]
    open spec fn spec_get(input: Seq<u8>) -> Read<ReconnectModel, Error> {
        then(RLE::<String, u16>::spec_get(input), |name: Seq<char>, rest: Seq<u8>|
            then(RLE::<String, u16>::spec_get(rest), |host: Seq<char>, rest: Seq<u8>|
                then(RLE::<String, u16>::spec_get(rest), |stats: Seq<char>, rest: Seq<u8>|
                    then(u32::spec_get(rest), |port: u32, rest: Seq<u8>|
                        then(u32::spec_get(rest), |game_id: u32, rest: Seq<u8>|
                            then(u32::spec_get(rest), |key_time: u32, rest: Seq<u8>|
                                then(bool::spec_get(rest), |is_from_arena: bool, rest: Seq<u8>|
                                    then(RLE::<Vec<u8>, u16>::spec_get(rest), |key: Seq<u8>, rest: Seq<u8>|
                                        done(ReconnectModel { name, host, stats, port, game_id, key_time, is_from_arena, key }, rest)))))))))
    }

    #[verifier::opaque]
    open spec fn spec_put(value: ReconnectModel) -> Written {
        also(also(also(also(also(also(also(RLE::<String, u16>::spec_put(value.name),
            RLE::<String, u16>::spec_put(value.host)),
            RLE::<String, u16>::spec_put(value.stats)),
            u32::spec_put(value.port)),
            u32::spec_put(value.game_id)),
            u32::spec_put(value.key_time)),
            bool::spec_put(value.is_from_arena)),
            RLE::<Vec<u8>, u16>::spec_put(value.key))
    }

    open spec fn round_trips(value: ReconnectModel, rest: Seq<u8>) -> bool {
        let rest8 = rest;
        let rest7 = RLE::<Vec<u8>, u16>::spec_put(value.key).bytes + rest8;
        let rest6 = bool::spec_put(value.is_from_arena).bytes + rest7;
        let rest5 = u32::spec_put(value.key_time).bytes + rest6;
        let rest4 = u32::spec_put(value.game_id).bytes + rest5;
        let rest3 = u32::spec_put(value.port).bytes + rest4;
        let rest2 = RLE::<String, u16>::spec_put(value.stats).bytes + rest3;
        let rest1 = RLE::<String, u16>::spec_put(value.host).bytes + rest2;
        &&& RLE::<String, u16>::round_trips(value.name, rest1)
        &&& RLE::<String, u16>::round_trips(value.host, rest2)
        &&& RLE::<String, u16>::round_trips(value.stats, rest3)
        &&& u32::round_trips(value.port, rest4)
        &&& u32::round_trips(value.game_id, rest5)
        &&& u32::round_trips(value.key_time, rest6)
        &&& bool::round_trips(value.is_from_arena, rest7)
        &&& RLE::<Vec<u8>, u16>::round_trips(value.key, rest8)
    }

    fn get_be(bytes: &mut Cursor) -> (r: Result<Reconnect, Error>) {
        reveal(<Reconnect as Adapter>::spec_get);
        let name = RLE::<String, u16>::get_be(bytes)?;
        let host = RLE::<String, u16>::get_be(bytes)?;
        let stats = RLE::<String, u16>::get_be(bytes)?;
        let port = u32::get_be(bytes)?;
        let game_id = u32::get_be(bytes)?;
        let key_time = u32::get_be(bytes)?;
        let is_from_arena = bool::get_be(bytes)?;
        let key = RLE::<Vec<u8>, u16>::get_be(bytes)?;
        Ok(Reconnect { name, host, stats, port, game_id, key_time, is_from_arena, key })
    }

    fn put_be(&self, buffer: &mut Vec<u8>) -> (r: Result<(), Error>) {
        reveal(<Reconnect as Adapter>::spec_put);
        self.name.put_be(buffer)?;
        let ghost written = RLE::<String, u16>::spec_put(self.deep_view().name).bytes;
        proof {
            lemma_add_assoc(old(buffer)@, written, RLE::<String, u16>::spec_put(self.deep_view().host).bytes);
        }
        self.host.put_be(buffer)?;
        let ghost written = written + RLE::<String, u16>::spec_put(self.deep_view().host).bytes;
        proof {
            lemma_add_assoc(old(buffer)@, written, RLE::<String, u16>::spec_put(self.deep_view().stats).bytes);
        }
        self.stats.put_be(buffer)?;
        let ghost written = written + RLE::<String, u16>::spec_put(self.deep_view().stats).bytes;
        proof {
            lemma_add_assoc(old(buffer)@, written, u32::spec_put(self.deep_view().port).bytes);
        }
        self.port.put_be(buffer)?;
        let ghost written = written + u32::spec_put(self.deep_view().port).bytes;
        proof {
            lemma_add_assoc(old(buffer)@, written, u32::spec_put(self.deep_view().game_id).bytes);
        }
        self.game_id.put_be(buffer)?;
        let ghost written = written + u32::spec_put(self.deep_view().game_id).bytes;
        proof {
            lemma_add_assoc(old(buffer)@, written, u32::spec_put(self.deep_view().key_time).bytes);
        }
        self.key_time.put_be(buffer)?;
        let ghost written = written + u32::spec_put(self.deep_view().key_time).bytes;
        proof {
            lemma_add_assoc(old(buffer)@, written, bool::spec_put(self.deep_view().is_from_arena).bytes);
        }
        self.is_from_arena.put_be(buffer)?;
        let ghost written = written + bool::spec_put(self.deep_view().is_from_arena).bytes;
        proof {
            lemma_add_assoc(old(buffer)@, written, RLE::<Vec<u8>, u16>::spec_put(self.deep_view().key).bytes);
        }
        self.key.put_be(buffer)?;
        Ok(())
    }

    proof fn lemma_round_trip(value: ReconnectModel, rest: Seq<u8>) {
        reveal(<Reconnect as Adapter>::spec_get);
        reveal(<Reconnect as Adapter>::spec_put);
        let rest8 = rest;
        let rest7 = RLE::<Vec<u8>, u16>::spec_put(value.key).bytes + rest8;
        let rest6 = bool::spec_put(value.is_from_arena).bytes + rest7;
        let rest5 = u32::spec_put(value.key_time).bytes + rest6;
        let rest4 = u32::spec_put(value.game_id).bytes + rest5;
        let rest3 = u32::spec_put(value.port).bytes + rest4;
        let rest2 = RLE::<String, u16>::spec_put(value.stats).bytes + rest3;
        let rest1 = RLE::<String, u16>::spec_put(value.host).bytes + rest2;
        let front1 = RLE::<String, u16>::spec_put(value.name).bytes;
        let front2 = front1 + RLE::<String, u16>::spec_put(value.host).bytes;
        let front3 = front2 + RLE::<String, u16>::spec_put(value.stats).bytes;
        let front4 = front3 + u32::spec_put(value.port).bytes;
        let front5 = front4 + u32::spec_put(value.game_id).bytes;
        let front6 = front5 + u32::spec_put(value.key_time).bytes;
        let front7 = front6 + bool::spec_put(value.is_from_arena).bytes;
        lemma_add_assoc(front7, RLE::<Vec<u8>, u16>::spec_put(value.key).bytes, rest8);
        lemma_add_assoc(front6, bool::spec_put(value.is_from_arena).bytes, rest7);
        lemma_add_assoc(front5, u32::spec_put(value.key_time).bytes, rest6);
        lemma_add_assoc(front4, u32::spec_put(value.game_id).bytes, rest5);
        lemma_add_assoc(front3, u32::spec_put(value.port).bytes, rest4);
        lemma_add_assoc(front2, RLE::<String, u16>::spec_put(value.stats).bytes, rest3);
        lemma_add_assoc(front1, RLE::<String, u16>::spec_put(value.host).bytes, rest2);
        RLE::<String, u16>::lemma_round_trip(value.name, rest1);
        RLE::<String, u16>::lemma_round_trip(value.host, rest2);
        RLE::<String, u16>::lemma_round_trip(value.stats, rest3);
        u32::lemma_round_trip(value.port, rest4);
        u32::lemma_round_trip(value.game_id, rest5);
        u32::lemma_round_trip(value.key_time, rest6);
        bool::lemma_round_trip(value.is_from_arena, rest7);
        RLE::<Vec<u8>, u16>::lemma_round_trip(value.key, rest8);
    }
}

impl PacketData for Reconnect {
    open spec fn spec_packet_type() -> PacketType {
        PacketType::Reconnect
    }

    open spec fn spec_wrap(value: ReconnectModel) -> PacketModel {
        PacketModel::Reconnect(value)
    }

    fn packet_type() -> (kind: PacketType) {
        PacketType::Reconnect
    }

    fn into_packet(self) -> (packet: Packet) {
        Packet::Reconnect(self)
    }

    fn from_packet(packet: Packet) -> (r: Result<Reconnect, Packet>) {
        match packet {
            Packet::Reconnect(v) => Ok(v),
            p => Err(p),
        }
    }

    fn from_packet_ref(packet: &Packet) -> (r: Result<&Reconnect, &Packet>) {
        match packet {
            Packet::Reconnect(v) => Ok(v),
            p => Err(p),
        }
    }
}

/// The `ReskinUnlock` packet.
#[derive(Debug, Clone, Copy, PartialEq, Eq, Structural)]
pub struct ReskinUnlock {
    pub skin_id: u32,
    pub is_pet_skin: u32,
}

impl DeepView for ReskinUnlock {
    type V = ReskinUnlock;

    open spec fn deep_view(&self) -> ReskinUnlock {
        *self
    }
}

impl Adapter for ReskinUnlock {
    #[verifier::opaque]
    open spec fn spec_get(input: Seq<u8>) -> Read<ReskinUnlock, Error> {
        then(u32::spec_get(input), |skin_id: u32, rest: Seq<u8>|
            then(u32::spec_get(rest), |is_pet_skin: u32, rest: Seq<u8>|
                done(ReskinUnlock { skin_id, is_pet_skin }, rest)))
    }

    #[verifier::opaque]
    open spec fn spec_put(value: ReskinUnlock) -> Written {
        also(u32::spec_put(value.skin_id),
            u32::spec_put(value.is_pet_skin))
    }

    open spec fn round_trips(value: ReskinUnlock, rest: Seq<u8>) -> bool {
        let rest2 = rest;
        let rest1 = u32::spec_put(value.is_pet_skin).bytes + rest2;
        &&& u32::round_trips(value.skin_id, rest1)
        &&& u32::round_trips(value.is_pet_skin, rest2)
    }

    fn get_be(bytes: &mut Cursor) -> (r: Result<ReskinUnlock, Error>) {
        reveal(<ReskinUnlock as Adapter>::spec_get);
        let skin_id = u32::get_be(bytes)?;
        let is_pet_skin = u32::get_be(bytes)?;
        Ok(ReskinUnlock { skin_id, is_pet_skin })
    }

    fn put_be(&self, buffer: &mut Vec<u8>) -> (r: Result<(), Error>) {
        reveal(<ReskinUnlock as Adapter>::spec_put);
        self.skin_id.put_be(buffer)?;
        let ghost written = u32::spec_put(self.deep_view().skin_id).bytes;
        proof {
            lemma_add_assoc(old(buffer)@, written, u32::spec_put(self.deep_view().is_pet_skin).bytes);
        }
        self.is_pet_skin.put_be(buffer)?;
        Ok(())
    }

    proof fn lemma_round_trip(value: ReskinUnlock, rest: Seq<u8>) {
        reveal(<ReskinUnlock as Adapter>::spec_get);
        reveal(<ReskinUnlock as Adapter>::spec_put);
        let rest2 = rest;
        let rest1 = u32::spec_put(value.is_pet_skin).bytes + rest2;
        let front1 = u32::spec_put(value.skin_id).bytes;
        lemma_add_assoc(front1, u32::spec_put(value.is_pet_skin).bytes, rest2);
        u32::lemma_round_trip(value.skin_id, rest1);
        u32::lemma_round_trip(value.is_pet_skin, rest2);
    }
}

impl PacketData for ReskinUnlock {
    open spec fn spec_packet_type() -> PacketType {
        PacketType::ReskinUnlock
    }

    open spec fn spec_wrap(value: ReskinUnlock) -> PacketModel {
        PacketModel::ReskinUnlock(value)
    }

    fn packet_type() -> (kind: PacketType) {
        PacketType::ReskinUnlock
    }

    fn into_packet(self) -> (packet: Packet) {
        Packet::ReskinUnlock(self)
    }

    fn from_packet(packet: Packet) -> (r: Result<ReskinUnlock, Packet>) {
        match packet {
            Packet::ReskinUnlock(v) => Ok(v),
            p => Err(p),
        }
    }

    fn from_packet_ref(packet: &Packet) -> (r: Result<&ReskinUnlock, &Packet>) {
        match packet {
            Packet::ReskinUnlock(v) => Ok(v),
            p => Err(p),
        }
    }
}

/// The `ServerPlayerShoot` packet.
#[derive(Debug, Clone, Copy, PartialEq, Eq, Structural)]
pub struct ServerPlayerShoot {
    pub bullet_id: u8,
    pub owner_id: u32,
    pub container_type: u32,
    pub starting_pos: WorldPosData,
    pub angle: F32,
    pub damage: u16,
}

impl DeepView for ServerPlayerShoot {
    type V = ServerPlayerShoot;

    open spec fn deep_view(&self) -> ServerPlayerShoot {
        *self
    }
}

impl Adapter for ServerPlayerShoot {
    #[verifier::opaque]
    open spec fn spec_get(input: Seq<u8>) -> Read<ServerPlayerShoot, Error> {
        then(u8::spec_get(input), |bullet_id: u8, rest: Seq<u8>|
            then(u32::spec_get(rest), |owner_id: u32, rest: Seq<u8>|
                then(u32::spec_get(rest), |container_type: u32, rest: Seq<u8>|
                    then(WorldPosData::spec_get(rest), |starting_pos: WorldPosData, rest: Seq<u8>|
                        then(F32::spec_get(rest), |angle: F32, rest: Seq<u8>|
                            then(u16::spec_get(rest), |damage: u16, rest: Seq<u8>|
                                done(ServerPlayerShoot { bullet_id, owner_id, container_type, starting_pos, angle, damage }, rest)))))))
    }

    #[verifier::opaque]
    open spec fn spec_put(value: ServerPlayerShoot) -> Written {
        also(also(also(also(also(u8::spec_put(value.bullet_id),
            u32::spec_put(value.owner_id)),
            u32::spec_put(value.container_type)),
            WorldPosData::spec_put(value.starting_pos)),
            F32::spec_put(value.angle)),
            u16::spec_put(value.damage))
    }

    open spec fn round_trips(value: ServerPlayerShoot, rest: Seq<u8>) -> bool {
        let rest6 = rest;
        let rest5 = u16::spec_put(value.damage).bytes + rest6;
        let rest4 = F32::spec_put(value.angle).bytes + rest5;
        let rest3 = WorldPosData::spec_put(value.starting_pos).bytes + rest4;
        let rest2 = u32::spec_put(value.container_type).bytes + rest3;
        let rest1 = u32::spec_put(value.owner_id).bytes + rest2;
        &&& u8::round_trips(value.bullet_id, rest1)
        &&& u32::round_trips(value.owner_id, rest2)
        &&& u32::round_trips(value.container_type, rest3)
        &&& WorldPosData::round_trips(value.starting_pos, rest4)
        &&& F32::round_trips(value.angle, rest5)
        &&& u16::round_trips(value.damage, rest6)
    }

    fn get_be(bytes: &mut Cursor) -> (r: Result<ServerPlayerShoot, Error>) {
        reveal(<ServerPlayerShoot as Adapter>::spec_get);
        let bullet_id = u8::get_be(bytes)?;
        let owner_id = u32::get_be(bytes)?;
        let container_type = u32::get_be(bytes)?;
        let starting_pos = WorldPosData::get_be(bytes)?;
        let angle = F32::get_be(bytes)?;
        let damage = u16::get_be(bytes)?;
        Ok(ServerPlayerShoot { bullet_id, owner_id, container_type, starting_pos, angle, damage })
    }

    fn put_be(&self, buffer: &mut Vec<u8>) -> (r: Result<(), Error>) {
        reveal(<ServerPlayerShoot as Adapter>::spec_put);
        self.bullet_id.put_be(buffer)?;
        let ghost written = u8::spec_put(self.deep_view().bullet_id).bytes;
        proof {
            lemma_add_assoc(old(buffer)@, written, u32::spec_put(self.deep_view().owner_id).bytes);
        }
        self.owner_id.put_be(buffer)?;
        let ghost written = written + u32::spec_put(self.deep_view().owner_id).bytes;
        proof {
            lemma_add_assoc(old(buffer)@, written, u32::spec_put(self.deep_view().container_type).bytes);
        }
        self.container_type.put_be(buffer)?;
        let ghost written = written + u32::spec_put(self.deep_view().container_type).bytes;
        proof {
            lemma_add_assoc(old(buffer)@, written, WorldPosData::spec_put(self.deep_view().starting_pos).bytes);
        }
        self.starting_pos.put_be(buffer)?;
        let ghost written = written + WorldPosData::spec_put(self.deep_view().starting_pos).bytes;
        proof {
            lemma_add_assoc(old(buffer)@, written, F32::spec_put(self.deep_view().angle).bytes);
        }
        self.angle.put_be(buffer)?;
        let ghost written = written + F32::spec_put(self.deep_view().angle).bytes;
        proof {
            lemma_add_assoc(old(buffer)@, written, u16::spec_put(self.deep_view().damage).bytes);
        }
        self.damage.put_be(buffer)?;
        Ok(())
    }

    proof fn lemma_round_trip(value: ServerPlayerShoot, rest: Seq<u8>) {
        reveal(<ServerPlayerShoot as Adapter>::spec_get);
        reveal(<ServerPlayerShoot as Adapter>::spec_put);
        let rest6 = rest;
        let rest5 = u16::spec_put(value.damage).bytes + rest6;
        let rest4 = F32::spec_put(value.angle).bytes + rest5;
        let rest3 = WorldPosData::spec_put(value.starting_pos).bytes + rest4;
        let rest2 = u32::spec_put(value.container_type).bytes + rest3;
        let rest1 = u32::spec_put(value.owner_id).bytes + rest2;
        let front1 = u8::spec_put(value.bullet_id).bytes;
        let front2 = front1 + u32::spec_put(value.owner_id).bytes;
        let front3 = front2 + u32::spec_put(value.container_type).bytes;
        let front4 = front3 + WorldPosData::spec_put(value.starting_pos).bytes;
        let front5 = front4 + F32::spec_put(value.angle).bytes;
        lemma_add_assoc(front5, u16::spec_put(value.damage).bytes, rest6);
        lemma_add_assoc(front4, F32::spec_put(value.angle).bytes, rest5);
        lemma_add_assoc(front3, WorldPosData::spec_put(value.starting_pos).bytes, rest4);
        lemma_add_assoc(front2, u32::spec_put(value.container_type).bytes, rest3);
        lemma_add_assoc(front1, u32::spec_put(value.owner_id).bytes, rest2);
        u8::lemma_round_trip(value.bullet_id, rest1);
        u32::lemma_round_trip(value.owner_id, rest2);
        u32::lemma_round_trip(value.container_type, rest3);
        WorldPosData::lemma_round_trip(value.starting_pos, rest4);
        F32::lemma_round_trip(value.angle, rest5);
        u16::lemma_round_trip(value.damage, rest6);
    }
}

impl PacketData for ServerPlayerShoot {
    open spec fn spec_packet_type() -> PacketType {
        PacketType::ServerPlayerShoot
    }

    open spec fn spec_wrap(value: ServerPlayerShoot) -> PacketModel {
        PacketModel::ServerPlayerShoot(value)
    }

    fn packet_type() -> (kind: PacketType) {
        PacketType::ServerPlayerShoot
    }

    fn into_packet(self) -> (packet: Packet) {
        Packet::ServerPlayerShoot(self)
    }

    fn from_packet(packet: Packet) -> (r: Result<ServerPlayerShoot, Packet>) {
        match packet {
            Packet::ServerPlayerShoot(v) => Ok(v),
            p => Err(p),
        }
    }

    fn from_packet_ref(packet: &Packet) -> (r: Result<&ServerPlayerShoot, &Packet>) {
        match packet {
            Packet::ServerPlayerShoot(v) => Ok(v),
            p => Err(p),
        }
    }
}

/// The `ShowEffect` packet.
#[derive(Debug, Clone, Copy, PartialEq, Eq, Structural)]
pub struct ShowEffect {
    pub effect_type: u8,
    pub target_object_id: u32,
    pub pos1: WorldPosData,
    pub pos2: WorldPosData,
    pub color: u32,
    pub duration: F32,
}

impl DeepView for ShowEffect {
    type V = ShowEffect;

    open spec fn deep_view(&self) -> ShowEffect {
        *self
    }
}

impl Adapter for ShowEffect {
    #[verifier::opaque]
    open spec fn spec_get(input: Seq<u8>) -> Read<ShowEffect, Error> {
        then(u8::spec_get(input), |effect_type: u8, rest: Seq<u8>|
            then(u32::spec_get(rest), |target_object_id: u32, rest: Seq<u8>|
                then(WorldPosData::spec_get(rest), |pos1: WorldPosData, rest: Seq<u8>|
                    then(WorldPosData::spec_get(rest), |pos2: WorldPosData, rest: Seq<u8>|
                        then(u32::spec_get(rest), |color: u32, rest: Seq<u8>|
                            then(F32::spec_get(rest), |duration: F32, rest: Seq<u8>|
                                done(ShowEffect { effect_type, target_object_id, pos1, pos2, color, duration }, rest)))))))
    }

    #[verifier::opaque]
    open spec fn spec_put(value: ShowEffect) -> Written {
        also(also(also(also(also(u8::spec_put(value.effect_type),
            u32::spec_put(value.target_object_id)),
            WorldPosData::spec_put(value.pos1)),
            WorldPosData::spec_put(value.pos2)),
            u32::spec_put(value.color)),
            F32::spec_put(value.duration))
    }

    open spec fn round_trips(value: ShowEffect, rest: Seq<u8>) -> bool {
        let rest6 = rest;
        let rest5 = F32::spec_put(value.duration).bytes + rest6;
        let rest4 = u32::spec_put(value.color).bytes + rest5;
        let rest3 = WorldPosData::spec_put(value.pos2).bytes + rest4;
        let rest2 = WorldPosData::spec_put(value.pos1).bytes + rest3;
        let rest1 = u32::spec_put(value.target_object_id).bytes + rest2;
        &&& u8::round_trips(value.effect_type, rest1)
        &&& u32::round_trips(value.target_object_id, rest2)
        &&& WorldPosData::round_trips(value.pos1, rest3)
        &&& WorldPosData::round_trips(value.pos2, rest4)
        &&& u32::round_trips(value.color, rest5)
        &&& F32::round_trips(value.duration, rest6)
    }

    fn get_be(bytes: &mut Cursor) -> (r: Result<ShowEffect, Error>) {
        reveal(<ShowEffect as Adapter>::spec_get);
        let effect_type = u8::get_be(bytes)?;
        let target_object_id = u32::get_be(bytes)?;
        let pos1 = WorldPosData::get_be(bytes)?;
        let pos2 = WorldPosData::get_be(bytes)?;
        let color = u32::get_be(bytes)?;
        let duration = F32::get_be(bytes)?;
        Ok(ShowEffect { effect_type, target_object_id, pos1, pos2, color, duration })
    }

    fn put_be(&self, buffer: &mut Vec<u8>) -> (r: Result<(), Error>) {
        reveal(<ShowEffect as Adapter>::spec_put);
        self.effect_type.put_be(buffer)?;
        let ghost written = u8::spec_put(self.deep_view().effect_type).bytes;
        proof {
            lemma_add_assoc(old(buffer)@, written, u32::spec_put(self.deep_view().target_object_id).bytes);
        }
        self.target_object_id.put_be(buffer)?;
        let ghost written = written + u32::spec_put(self.deep_view().target_object_id).bytes;
        proof {
            lemma_add_assoc(old(buffer)@, written, WorldPosData::spec_put(self.deep_view().pos1).bytes);
        }
        self.pos1.put_be(buffer)?;
        let ghost written = written + WorldPosData::spec_put(self.deep_view().pos1).bytes;
        proof {
            lemma_add_assoc(old(buffer)@, written, WorldPosData::spec_put(self.deep_view().pos2).bytes);
        }
        self.pos2.put_be(buffer)?;
        let ghost written = written + WorldPosData::spec_put(self.deep_view().pos2).bytes;
        proof {
            lemma_add_assoc(old(buffer)@, written, u32::spec_put(self.deep_view().color).bytes);
        }
        self.color.put_be(buffer)?;
        let ghost written = written + u32::spec_put(self.deep_view().color).bytes;
        proof {
            lemma_add_assoc(old(buffer)@, written, F32::spec_put(self.deep_view().duration).bytes);
        }
        self.duration.put_be(buffer)?;
        Ok(())
    }

    proof fn lemma_round_trip(value: ShowEffect, rest: Seq<u8>) {
        reveal(<ShowEffect as Adapter>::spec_get);
        reveal(<ShowEffect as Adapter>::spec_put);
        let rest6 = rest;
        let rest5 = F32::spec_put(value.duration).bytes + rest6;
        let rest4 = u32::spec_put(value.color).bytes + rest5;
        let rest3 = WorldPosData::spec_put(value.pos2).bytes + rest4;
        let rest2 = WorldPosData::spec_put(value.pos1).bytes + rest3;
        let rest1 = u32::spec_put(value.target_object_id).bytes + rest2;
        let front1 = u8::spec_put(value.effect_type).bytes;
        let front2 = front1 + u32::spec_put(value.target_object_id).bytes;
        let front3 = front2 + WorldPosData::spec_put(value.pos1).bytes;
        let front4 = front3 + WorldPosData::spec_put(value.pos2).bytes;
        let front5 = front4 + u32::spec_put(value.color).bytes;
        lemma_add_assoc(front5, F32::spec_put(value.duration).bytes, rest6);
        lemma_add_assoc(front4, u32::spec_put(value.color).bytes, rest5);
        lemma_add_assoc(front3, WorldPosData::spec_put(value.pos2).bytes, rest4);
        lemma_add_assoc(front2, WorldPosData::spec_put(value.pos1).bytes, rest3);
        lemma_add_assoc(front1, u32::spec_put(value.target_object_id).bytes, rest2);
        u8::lemma_round_trip(value.effect_type, rest1);
        u32::lemma_round_trip(value.target_object_id, rest2);
        WorldPosData::lemma_round_trip(value.pos1, rest3);
        WorldPosData::lemma_round_trip(value.pos2, rest4);
        u32::lemma_round_trip(value.color, rest5);
        F32::lemma_round_trip(value.duration, rest6);
    }
}

impl PacketData for ShowEffect {
    open spec fn spec_packet_type() -> PacketType {
        PacketType::ShowEffect
    }

    open spec fn spec_wrap(value: ShowEffect) -> PacketModel {
        PacketModel::ShowEffect(value)
    }

    fn packet_type() -> (kind: PacketType) {
        PacketType::ShowEffect
    }

    fn into_packet(self) -> (packet: Packet) {
        Packet::ShowEffect(self)
    }

    fn from_packet(packet: Packet) -> (r: Result<ShowEffect, Packet>) {
        match packet {
            Packet::ShowEffect(v) => Ok(v),
            p => Err(p),
        }
    }

    fn from_packet_ref(packet: &Packet) -> (r: Result<&ShowEffect, &Packet>) {
        match packet {
            Packet::ShowEffect(v) => Ok(v),
            p => Err(p),
        }
    }
}

/// The `Text` packet.
#[derive(Debug, Clone, PartialEq, Eq)]
pub struct Text {
    pub name: RLE<String>,
    pub object_id: u32,
    pub num_stars: u32,
    pub bubble_time: u8,
    pub recipient: RLE<String>,
    pub text: RLE<String>,
    pub clean_text: RLE<String>,
    pub is_supporter: bool,
}

/// The model of [`Text`].
pub struct TextModel {
    pub name: Seq<char>,
    pub object_id: u32,
    pub num_stars: u32,
    pub bubble_time: u8,
    pub recipient: Seq<char>,
    pub text: Seq<char>,
    pub clean_text: Seq<char>,
    pub is_supporter: bool,
}

impl DeepView for Text {
    type V = TextModel;

    open spec fn deep_view(&self) -> TextModel {
        TextModel {
            name: self.name.deep_view(),
            object_id: self.object_id,
            num_stars: self.num_stars,
            bubble_time: self.bubble_time,
            recipient: self.recipient.deep_view(),
            text: self.text.deep_view(),
            clean_text: self.clean_text.deep_view(),
            is_supporter: self.is_supporter,
        }
    }
}

impl Adapter for Text {
    #[verifier::opaque]
    open spec fn spec_get(input: Seq<u8>) -> Read<TextModel, Error> {
        then(RLE::<String, u16>::spec_get(input), |name: Seq<char>, rest: Seq<u8>|
            then(u32::spec_get(rest), |object_id: u32, rest: Seq<u8>|
                then(u32::spec_get(rest), |num_stars: u32, rest: Seq<u8>|
                    then(u8::spec_get(rest), |bubble_time: u8, rest: Seq<u8>|
                        then(RLE::<String, u16>::spec_get(rest), |recipient: Seq<char>, rest: Seq<u8>|
                            then(RLE::<String, u16>::spec_get(rest), |text: Seq<char>, rest: Seq<u8>|
                                then(RLE::<String, u16>::spec_get(rest), |clean_text: Seq<char>, rest: Seq<u8>|
                                    then(bool::spec_get(rest), |is_supporter: bool, rest: Seq<u8>|
                                        done(TextModel { name, object_id, num_stars, bubble_time, recipient, text, clean_text, is_supporter }, rest)))))))))
    }

    #[verifier::opaque]
    open spec fn spec_put(value: TextModel) -> Written {
        also(also(also(also(also(also(also(RLE::<String, u16>::spec_put(value.name),
            u32::spec_put(value.object_id)),
            u32::spec_put(value.num_stars)),
            u8::spec_put(value.bubble_time)),
            RLE::<String, u16>::spec_put(value.recipient)),
            RLE::<String, u16>::spec_put(value.text)),
            RLE::<String, u16>::spec_put(value.clean_text)),
            bool::spec_put(value.is_supporter))
    }

    open spec fn round_trips(value: TextModel, rest: Seq<u8>) -> bool {
        let rest8 = rest;
        let rest7 = bool::spec_put(value.is_supporter).bytes + rest8;
        let rest6 = RLE::<String, u16>::spec_put(value.clean_text).bytes + rest7;
        let rest5 = RLE::<String, u16>::spec_put(value.text).bytes + rest6;
        let rest4 = RLE::<String, u16>::spec_put(value.recipient).bytes + rest5;
        let rest3 = u8::spec_put(value.bubble_time).bytes + rest4;
        let rest2 = u32::spec_put(value.num_stars).bytes + rest3;
        let rest1 = u32::spec_put(value.object_id).bytes + rest2;
        &&& RLE::<String, u16>::round_trips(value.name, rest1)
        &&& u32::round_trips(value.object_id, rest2)
        &&& u32::round_trips(value.num_stars, rest3)
        &&& u8::round_trips(value.bubble_time, rest4)
        &&& RLE::<String, u16>::round_trips(value.recipient, rest5)
        &&& RLE::<String, u16>::round_trips(value.text, rest6)
        &&& RLE::<String, u16>::round_trips(value.clean_text, rest7)
        &&& bool::round_trips(value.is_supporter, rest8)
    }

    fn get_be(bytes: &mut Cursor) -> (r: Result<Text, Error>) {
        reveal(<Text as Adapter>::spec_get);
        let name = RLE::<String, u16>::get_be(bytes)?;
        let object_id = u32::get_be(bytes)?;
        let num_stars = u32::get_be(bytes)?;
        let bubble_time = u8::get_be(bytes)?;
        let recipient = RLE::<String, u16>::get_be(bytes)?;
        let text = RLE::<String, u16>::get_be(bytes)?;
        let clean_text = RLE::<String, u16>::get_be(bytes)?;
        let is_supporter = bool::get_be(bytes)?;
        Ok(Text { name, object_id, num_stars, bubble_time, recipient, text, clean_text, is_supporter })
    }

    fn put_be(&self, buffer: &mut Vec<u8>) -> (r: Result<(), Error>) {
        reveal(<Text as Adapter>::spec_put);
        self.name.put_be(buffer)?;
        let ghost written = RLE::<String, u16>::spec_put(self.deep_view().name).bytes;
        proof {
            lemma_add_assoc(old(buffer)@, written, u32::spec_put(self.deep_view().object_id).bytes);
        }
        self.object_id.put_be(buffer)?;
        let ghost written = written + u32::spec_put(self.deep_view().object_id).bytes;
        proof {
            lemma_add_assoc(old(buffer)@, written, u32::spec_put(self.deep_view().num_stars).bytes);
        }
        self.num_stars.put_be(buffer)?;
        let ghost written = written + u32::spec_put(self.deep_view().num_stars).bytes;
        proof {
            lemma_add_assoc(old(buffer)@, written, u8::spec_put(self.deep_view().bubble_time).bytes);
        }
        self.bubble_time.put_be(buffer)?;
        let ghost written = written + u8::spec_put(self.deep_view().bubble_time).bytes;
        proof {
            lemma_add_assoc(old(buffer)@, written, RLE::<String, u16>::spec_put(self.deep_view().recipient).bytes);
        }
        self.recipient.put_be(buffer)?;
        let ghost written = written + RLE::<String, u16>::spec_put(self.deep_view().recipient).bytes;
        proof {
            lemma_add_assoc(old(buffer)@, written, RLE::<String, u16>::spec_put(self.deep_view().text).bytes);
        }
        self.text.put_be(buffer)?;
        let ghost written = written + RLE::<String, u16>::spec_put(self.deep_view().text).bytes;
        proof {
            lemma_add_assoc(old(buffer)@, written, RLE::<String, u16>::spec_put(self.deep_view().clean_text).bytes);
        }
        self.clean_text.put_be(buffer)?;
        let ghost written = written + RLE::<String, u16>::spec_put(self.deep_view().clean_text).bytes;
        proof {
            lemma_add_assoc(old(buffer)@, written, bool::spec_put(self.deep_view().is_supporter).bytes);
        }
        self.is_supporter.put_be(buffer)?;
        Ok(())
    }

    proof fn lemma_round_trip(value: TextModel, rest: Seq<u8>) {
        reveal(<Text as Adapter>::spec_get);
        reveal(<Text as Adapter>::spec_put);
        let rest8 = rest;
        let rest7 = bool::spec_put(value.is_supporter).bytes + rest8;
        let rest6 = RLE::<String, u16>::spec_put(value.clean_text).bytes + rest7;
        let rest5 = RLE::<String, u16>::spec_put(value.text).bytes + rest6;
        let rest4 = RLE::<String, u16>::spec_put(value.recipient).bytes + rest5;
        let rest3 = u8::spec_put(value.bubble_time).bytes + rest4;
        let rest2 = u32::spec_put(value.num_stars).bytes + rest3;
        let rest1 = u32::spec_put(value.object_id).bytes + rest2;
        let front1 = RLE::<String, u16>::spec_put(value.name).bytes;
        let front2 = front1 + u32::spec_put(value.object_id).bytes;
        let front3 = front2 + u32::spec_put(value.num_stars).bytes;
        let front4 = front3 + u8::spec_put(value.bubble_time).bytes;
        let front5 = front4 + RLE::<String, u16>::spec_put(value.recipient).bytes;
        let front6 = front5 + RLE::<String, u16>::spec_put(value.text).bytes;
        let front7 = front6 + RLE::<String, u16>::spec_put(value.clean_text).bytes;
        lemma_add_assoc(front7, bool::spec_put(value.is_supporter).bytes, rest8);
        lemma_add_assoc(front6, RLE::<String, u16>::spec_put(value.clean_text).bytes, rest7);
        lemma_add_assoc(front5, RLE::<String, u16>::spec_put(value.text).bytes, rest6);
        lemma_add_assoc(front4, RLE::<String, u16>::spec_put(value.recipient).bytes, rest5);
        lemma_add_assoc(front3, u8::spec_put(value.bubble_time).bytes, rest4);
        lemma_add_assoc(front2, u32::spec_put(value.num_stars).bytes, rest3);
        lemma_add_assoc(front1, u32::spec_put(value.object_id).bytes, rest2);
        RLE::<String, u16>::lemma_round_trip(value.name, rest1);
        u32::lemma_round_trip(value.object_id, rest2);
        u32::lemma_round_trip(value.num_stars, rest3);
        u8::lemma_round_trip(value.bubble_time, rest4);
        RLE::<String, u16>::lemma_round_trip(value.recipient, rest5);
        RLE::<String, u16>::lemma_round_trip(value.text, rest6);
        RLE::<String, u16>::lemma_round_trip(value.clean_text, rest7);
        bool::lemma_round_trip(value.is_supporter, rest8);
    }
}

impl PacketData for Text {
    open spec fn spec_packet_type() -> PacketType {
        PacketType::Text
    }

    open spec fn spec_wrap(value: TextModel) -> PacketModel {
        PacketModel::Text(value)
    }

    fn packet_type() -> (kind: PacketType) {
        PacketType::Text
    }

    fn into_packet(self) -> (packet: Packet) {
        Packet::Text(self)
    }

    fn from_packet(packet: Packet) -> (r: Result<Text, Packet>) {
        match packet {
            Packet::Text(v) => Ok(v),
            p => Err(p),
        }
    }

    fn from_packet_ref(packet: &Packet) -> (r: Result<&Text, &Packet>) {
        match packet {
            Packet::Text(v) => Ok(v),
            p => Err(p),
        }
    }
}

/// The `TradeAccepted` packet.
#[derive(Debug, Clone, PartialEq, Eq)]
pub struct TradeAccepted {
    pub my_offer: RLE<Vec<bool>>,
    pub your_offer: RLE<Vec<bool>>,
}

/// The model of [`TradeAccepted`].
pub struct TradeAcceptedModel {
    pub my_offer: Seq<bool>,
    pub your_offer: Seq<bool>,
}

impl DeepView for TradeAccepted {
    type V = TradeAcceptedModel;

    open spec fn deep_view(&self) -> TradeAcceptedModel {
        TradeAcceptedModel {
            my_offer: self.my_offer.deep_view(),
            your_offer: self.your_offer.deep_view(),
        }
    }
}

impl Adapter for TradeAccepted {
    #[verifier::opaque]
    open spec fn spec_get(input: Seq<u8>) -> Read<TradeAcceptedModel, Error> {
        then(RLE::<Vec<bool>, u16>::spec_get(input), |my_offer: Seq<bool>, rest: Seq<u8>|
            then(RLE::<Vec<bool>, u16>::spec_get(rest), |your_offer: Seq<bool>, rest: Seq<u8>|
                done(TradeAcceptedModel { my_offer, your_offer }, rest)))
    }

    #[verifier::opaque]
    open spec fn spec_put(value: TradeAcceptedModel) -> Written {
        also(RLE::<Vec<bool>, u16>::spec_put(value.my_offer),
            RLE::<Vec<bool>, u16>::spec_put(value.your_offer))
    }

    open spec fn round_trips(value: TradeAcceptedModel, rest: Seq<u8>) -> bool {
        let rest2 = rest;
        let rest1 = RLE::<Vec<bool>, u16>::spec_put(value.your_offer).bytes + rest2;
        &&& RLE::<Vec<bool>, u16>::round_trips(value.my_offer, rest1)
        &&& RLE::<Vec<bool>, u16>::round_trips(value.your_offer, rest2)
    }

    fn get_be(bytes: &mut Cursor) -> (r: Result<TradeAccepted, Error>) {
        reveal(<TradeAccepted as Adapter>::spec_get);
        let my_offer = RLE::<Vec<bool>, u16>::get_be(bytes)?;
        let your_offer = RLE::<Vec<bool>, u16>::get_be(bytes)?;
        Ok(TradeAccepted { my_offer, your_offer })
    }

    fn put_be(&self, buffer: &mut Vec<u8>) -> (r: Result<(), Error>) {
        reveal(<TradeAccepted as Adapter>::spec_put);
        self.my_offer.put_be(buffer)?;
        let ghost written = RLE::<Vec<bool>, u16>::spec_put(self.deep_view().my_offer).bytes;
        proof {
            lemma_add_assoc(old(buffer)@, written, RLE::<Vec<bool>, u16>::spec_put(self.deep_view().your_offer).bytes);
        }
        self.your_offer.put_be(buffer)?;
        Ok(())
    }

    proof fn lemma_round_trip(value: TradeAcceptedModel, rest: Seq<u8>) {
        reveal(<TradeAccepted as Adapter>::spec_get);
        reveal(<TradeAccepted as Adapter>::spec_put);
        let rest2 = rest;
        let rest1 = RLE::<Vec<bool>, u16>::spec_put(value.your_offer).bytes + rest2;
        let front1 = RLE::<Vec<bool>, u16>::spec_put(value.my_offer).bytes;
        lemma_add_assoc(front1, RLE::<Vec<bool>, u16>::spec_put(value.your_offer).bytes, rest2);
        RLE::<Vec<bool>, u16>::lemma_round_trip(value.my_offer, rest1);
        RLE::<Vec<bool>, u16>::lemma_round_trip(value.your_offer, rest2);
    }
}

impl PacketData for TradeAccepted {
    open spec fn spec_packet_type() -> PacketType {
        PacketType::TradeAccepted
    }

    open spec fn spec_wrap(value: TradeAcceptedModel) -> PacketModel {
        PacketModel::TradeAccepted(value)
    }

    fn packet_type() -> (kind: PacketType) {
        PacketType::TradeAccepted
    }

    fn into_packet(self) -> (packet: Packet) {
        Packet::TradeAccepted(self)
    }

    fn from_packet(packet: Packet) -> (r: Result<TradeAccepted, Packet>) {
        match packet {
            Packet::TradeAccepted(v) => Ok(v),
            p => Err(p),
        }
    }

    fn from_packet_ref(packet: &Packet) -> (r: Result<&TradeAccepted, &Packet>) {
        match packet {
            Packet::TradeAccepted(v) => Ok(v),
            p => Err(p),
        }
    }
}

/// The `TradeChanged` packet.
#[derive(Debug, Clone, PartialEq, Eq)]
pub struct TradeChanged {
    pub offer: RLE<Vec<bool>>,
}

/// The model of [`TradeChanged`].
pub struct TradeChangedModel {
    pub offer: Seq<bool>,
}

impl DeepView for TradeChanged {
    type V = TradeChangedModel;

    open spec fn deep_view(&self) -> TradeChangedModel {
        TradeChangedModel {
            offer: self.offer.deep_view(),
        }
    }
}

impl Adapter for TradeChanged {
    #[verifier::opaque]
    open spec fn spec_get(input: Seq<u8>) -> Read<TradeChangedModel, Error> {
        then(RLE::<Vec<bool>, u16>::spec_get(input), |offer: Seq<bool>, rest: Seq<u8>|
            done(TradeChangedModel { offer }, rest))
    }

    #[verifier::opaque]
    open spec fn spec_put(value: TradeChangedModel) -> Written {
        RLE::<Vec<bool>, u16>::spec_put(value.offer)
    }

    open spec fn round_trips(value: TradeChangedModel, rest: Seq<u8>) -> bool {
        let rest1 = rest;
        &&& RLE::<Vec<bool>, u16>::round_trips(value.offer, rest1)
    }

    fn get_be(bytes: &mut Cursor) -> (r: Result<TradeChanged, Error>) {
        reveal(<TradeChanged as Adapter>::spec_get);
        let offer = RLE::<Vec<bool>, u16>::get_be(bytes)?;
        Ok(TradeChanged { offer })
    }

    fn put_be(&self, buffer: &mut Vec<u8>) -> (r: Result<(), Error>) {
        reveal(<TradeChanged as Adapter>::spec_put);
        self.offer.put_be(buffer)?;
        Ok(())
    }

    proof fn lemma_round_trip(value: TradeChangedModel, rest: Seq<u8>) {
        reveal(<TradeChanged as Adapter>::spec_get);
        reveal(<TradeChanged as Adapter>::spec_put);
        let rest1 = rest;
        RLE::<Vec<bool>, u16>::lemma_round_trip(value.offer, rest1);
    }
}

impl PacketData for TradeChanged {
    open spec fn spec_packet_type() -> PacketType {
        PacketType::TradeChanged
    }

    open spec fn spec_wrap(value: TradeChangedModel) -> PacketModel {
        PacketModel::TradeChanged(value)
    }

    fn packet_type() -> (kind: PacketType) {
        PacketType::TradeChanged
    }

    fn into_packet(self) -> (packet: Packet) {
        Packet::TradeChanged(self)
    }

    fn from_packet(packet: Packet) -> (r: Result<TradeChanged, Packet>) {
        match packet {
            Packet::TradeChanged(v) => Ok(v),
            p => Err(p),
        }
    }

    fn from_packet_ref(packet: &Packet) -> (r: Result<&TradeChanged, &Packet>) {
        match packet {
            Packet::TradeChanged(v) => Ok(v),
            p => Err(p),
        }
    }
}

/// The `TradeDone` packet.
#[derive(Debug, Clone, PartialEq, Eq)]
pub struct TradeDone {
    pub code: u32,
    pub description: RLE<String>,
}

/// The model of [`TradeDone`].
pub struct TradeDoneModel {
    pub code: u32,
    pub description: Seq<char>,
}

impl DeepView for TradeDone {
    type V = TradeDoneModel;

    open spec fn deep_view(&self) -> TradeDoneModel {
        TradeDoneModel {
            code: self.code,
            description: self.description.deep_view(),
        }
    }
}

impl Adapter for TradeDone {
    #[verifier::opaque]
    open spec fn spec_get(input: Seq<u8>) -> Read<TradeDoneModel, Error> {
        then(u32::spec_get(input), |code: u32, rest: Seq<u8>|
            then(RLE::<String, u16>::spec_get(rest), |description: Seq<char>, rest: Seq<u8>|
                done(TradeDoneModel { code, description }, rest)))
    }

    #[verifier::opaque]
    open spec fn spec_put(value: TradeDoneModel) -> Written {
        also(u32::spec_put(value.code),
            RLE::<String, u16>::spec_put(value.description))
    }

    open spec fn round_trips(value: TradeDoneModel, rest: Seq<u8>) -> bool {
        let rest2 = rest;
        let rest1 = RLE::<String, u16>::spec_put(value.description).bytes + rest2;
        &&& u32::round_trips(value.code, rest1)
        &&& RLE::<String, u16>::round_trips(value.description, rest2)
    }

    fn get_be(bytes: &mut Cursor) -> (r: Result<TradeDone, Error>) {
        reveal(<TradeDone as Adapter>::spec_get);
        let code = u32::get_be(bytes)?;
        let description = RLE::<String, u16>::get_be(bytes)?;
        Ok(TradeDone { code, description })
    }

    fn put_be(&self, buffer: &mut Vec<u8>) -> (r: Result<(), Error>) {
        reveal(<TradeDone as Adapter>::spec_put);
        self.code.put_be(buffer)?;
        let ghost written = u32::spec_put(self.deep_view().code).bytes;
        proof {
            lemma_add_assoc(old(buffer)@, written, RLE::<String, u16>::spec_put(self.deep_view().description).bytes);
        }
        self.description.put_be(buffer)?;
        Ok(())
    }

    proof fn lemma_round_trip(value: TradeDoneModel, rest: Seq<u8>) {
        reveal(<TradeDone as Adapter>::spec_get);
        reveal(<TradeDone as Adapter>::spec_put);
        let rest2 = rest;
        let rest1 = RLE::<String, u16>::spec_put(value.description).bytes + rest2;
        let front1 = u32::spec_put(value.code).bytes;
        lemma_add_assoc(front1, RLE::<String, u16>::spec_put(value.description).bytes, rest2);
        u32::lemma_round_trip(value.code, rest1);
        RLE::<String, u16>::lemma_round_trip(value.description, rest2);
    }
}

impl PacketData for TradeDone {
    open spec fn spec_packet_type() -> PacketType {
        PacketType::TradeDone
    }

    open spec fn spec_wrap(value: TradeDoneModel) -> PacketModel {
        PacketModel::TradeDone(value)
    }

    fn packet_type() -> (kind: PacketType) {
        PacketType::TradeDone
    }

    fn into_packet(self) -> (packet: Packet) {
        Packet::TradeDone(self)
    }

    fn from_packet(packet: Packet) -> (r: Result<TradeDone, Packet>) {
        match packet {
            Packet::TradeDone(v) => Ok(v),
            p => Err(p),
        }
    }

    fn from_packet_ref(packet: &Packet) -> (r: Result<&TradeDone, &Packet>) {
        match packet {
            Packet::TradeDone(v) => Ok(v),
            p => Err(p),
        }
    }
}

/// The `TradeRequested` packet.
#[derive(Debug, Clone, PartialEq, Eq)]
pub struct TradeRequested {
    pub name: RLE<String>,
}

/// The model of [`TradeRequested`].
pub struct TradeRequestedModel {
    pub name: Seq<char>,
}

impl DeepView for TradeRequested {
    type V = TradeRequestedModel;

    open spec fn deep_view(&self) -> TradeRequestedModel {
        TradeRequestedModel {
            name: self.name.deep_view(),
        }
    }
}

impl Adapter for TradeRequested {
    #[verifier::opaque]
    open spec fn spec_get(input: Seq<u8>) -> Read<TradeRequestedModel, Error> {
        then(RLE::<String, u16>::spec_get(input), |name: Seq<char>, rest: Seq<u8>|
            done(TradeRequestedModel { name }, rest))
    }

    #[verifier::opaque]
    open spec fn spec_put(value: TradeRequestedModel) -> Written {
        RLE::<String, u16>::spec_put(value.name)
    }

    open spec fn round_trips(value: TradeRequestedModel, rest: Seq<u8>) -> bool {
        let rest1 = rest;
        &&& RLE::<String, u16>::round_trips(value.name, rest1)
    }

    fn get_be(bytes: &mut Cursor) -> (r: Result<TradeRequested, Error>) {
        reveal(<TradeRequested as Adapter>::spec_get);
        let name = RLE::<String, u16>::get_be(bytes)?;
        Ok(TradeRequested { name })
    }

    fn put_be(&self, buffer: &mut Vec<u8>) -> (r: Result<(), Error>) {
        reveal(<TradeRequested as Adapter>::spec_put);
        self.name.put_be(buffer)?;
        Ok(())
    }

    proof fn lemma_round_trip(value: TradeRequestedModel, rest: Seq<u8>) {
        reveal(<TradeRequested as Adapter>::spec_get);
        reveal(<TradeRequested as Adapter>::spec_put);
        let rest1 = rest;
        RLE::<String, u16>::lemma_round_trip(value.name, rest1);
    }
}

impl PacketData for TradeRequested {
    open spec fn spec_packet_type() -> PacketType {
        PacketType::TradeRequested
    }

    open spec fn spec_wrap(value: TradeRequestedModel) -> PacketModel {
        PacketModel::TradeRequested(value)
    }

    fn packet_type() -> (kind: PacketType) {
        PacketType::TradeRequested
    }

    fn into_packet(self) -> (packet: Packet) {
        Packet::TradeRequested(self)
    }

    fn from_packet(packet: Packet) -> (r: Result<TradeRequested, Packet>) {
        match packet {
            Packet::TradeRequested(v) => Ok(v),
            p => Err(p),
        }
    }

    fn from_packet_ref(packet: &Packet) -> (r: Result<&TradeRequested, &Packet>) {
        match packet {
            Packet::TradeRequested(v) => Ok(v),
            p => Err(p),
        }
    }
}

/// The `TradeStart` packet.
#[derive(Debug, Clone, PartialEq, Eq)]
pub struct TradeStart {
    pub my_items: RLE<Vec<TradeItem>>,
    pub your_name: RLE<String>,
    pub your_items: RLE<Vec<TradeItem>>,
}

/// The model of [`TradeStart`].
pub struct TradeStartModel {
    pub my_items: Seq<TradeItem>,
    pub your_name: Seq<char>,
    pub your_items: Seq<TradeItem>,
}

impl DeepView for TradeStart {
    type V = TradeStartModel;

    open spec fn deep_view(&self) -> TradeStartModel {
        TradeStartModel {
            my_items: self.my_items.deep_view(),
            your_name: self.your_name.deep_view(),
            your_items: self.your_items.deep_view(),
        }
    }
}

impl Adapter for TradeStart {
    #[verifier::opaque]
    open spec fn spec_get(input: Seq<u8>) -> Read<TradeStartModel, Error> {
        then(RLE::<Vec<TradeItem>, u16>::spec_get(input), |my_items: Seq<TradeItem>, rest: Seq<u8>|
            then(RLE::<String, u16>::spec_get(rest), |your_name: Seq<char>, rest: Seq<u8>|
                then(RLE::<Vec<TradeItem>, u16>::spec_get(rest), |your_items: Seq<TradeItem>, rest: Seq<u8>|
                    done(TradeStartModel { my_items, your_name, your_items }, rest))))
    }

    #[verifier::opaque]
    open spec fn spec_put(value: TradeStartModel) -> Written {
        also(also(RLE::<Vec<TradeItem>, u16>::spec_put(value.my_items),
            RLE::<String, u16>::spec_put(value.your_name)),
            RLE::<Vec<TradeItem>, u16>::spec_put(value.your_items))
    }

    open spec fn round_trips(value: TradeStartModel, rest: Seq<u8>) -> bool {
        let rest3 = rest;
        let rest2 = RLE::<Vec<TradeItem>, u16>::spec_put(value.your_items).bytes + rest3;
        let rest1 = RLE::<String, u16>::spec_put(value.your_name).bytes + rest2;
        &&& RLE::<Vec<TradeItem>, u16>::round_trips(value.my_items, rest1)
        &&& RLE::<String, u16>::round_trips(value.your_name, rest2)
        &&& RLE::<Vec<TradeItem>, u16>::round_trips(value.your_items, rest3)
    }

    fn get_be(bytes: &mut Cursor) -> (r: Result<TradeStart, Error>) {
        reveal(<TradeStart as Adapter>::spec_get);
        let my_items = RLE::<Vec<TradeItem>, u16>::get_be(bytes)?;
        let your_name = RLE::<String, u16>::get_be(bytes)?;
        let your_items = RLE::<Vec<TradeItem>, u16>::get_be(bytes)?;
        Ok(TradeStart { my_items, your_name, your_items })
    }

    fn put_be(&self, buffer: &mut Vec<u8>) -> (r: Result<(), Error>) {
        reveal(<TradeStart as Adapter>::spec_put);
        self.my_items.put_be(buffer)?;
        let ghost written = RLE::<Vec<TradeItem>, u16>::spec_put(self.deep_view().my_items).bytes;
        proof {
            lemma_add_assoc(old(buffer)@, written, RLE::<String, u16>::spec_put(self.deep_view().your_name).bytes);
        }
        self.your_name.put_be(buffer)?;
        let ghost written = written + RLE::<String, u16>::spec_put(self.deep_view().your_name).bytes;
        proof {
            lemma_add_assoc(old(buffer)@, written, RLE::<Vec<TradeItem>, u16>::spec_put(self.deep_view().your_items).bytes);
        }
        self.your_items.put_be(buffer)?;
        Ok(())
    }

    proof fn lemma_round_trip(value: TradeStartModel, rest: Seq<u8>) {
        reveal(<TradeStart as Adapter>::spec_get);
        reveal(<TradeStart as Adapter>::spec_put);
        let rest3 = rest;
        let rest2 = RLE::<Vec<TradeItem>, u16>::spec_put(value.your_items).bytes + rest3;
        let rest1 = RLE::<String, u16>::spec_put(value.your_name).bytes + rest2;
        let front1 = RLE::<Vec<TradeItem>, u16>::spec_put(value.my_items).bytes;
        let front2 = front1 + RLE::<String, u16>::spec_put(value.your_name).bytes;
        lemma_add_assoc(front2, RLE::<Vec<TradeItem>, u16>::spec_put(value.your_items).bytes, rest3);
        lemma_add_assoc(front1, RLE::<String, u16>::spec_put(value.your_name).bytes, rest2);
        RLE::<Vec<TradeItem>, u16>::lemma_round_trip(value.my_items, rest1);
        RLE::<String, u16>::lemma_round_trip(value.your_name, rest2);
        RLE::<Vec<TradeItem>, u16>::lemma_round_trip(value.your_items, rest3);
    }
}

impl PacketData for TradeStart {
    open spec fn spec_packet_type() -> PacketType {
        PacketType::TradeStart
    }

    open spec fn spec_wrap(value: TradeStartModel) -> PacketModel {
        PacketModel::TradeStart(value)
    }

    fn packet_type() -> (kind: PacketType) {
        PacketType::TradeStart
    }

    fn into_packet(self) -> (packet: Packet) {
        Packet::TradeStart(self)
    }

    fn from_packet(packet: Packet) -> (r: Result<TradeStart, Packet>) {
        match packet {
            Packet::TradeStart(v) => Ok(v),
            p => Err(p),
        }
    }

    fn from_packet_ref(packet: &Packet) -> (r: Result<&TradeStart, &Packet>) {
        match packet {
            Packet::TradeStart(v) => Ok(v),
            p => Err(p),
        }
    }
}

/// The `Update` packet.
#[derive(Debug, Clone, PartialEq, Eq)]
pub struct Update {
    pub tiles: RLE<Vec<GroundTileData>>,
    pub new_objs: RLE<Vec<ObjectData>>,
    pub drops: RLE<Vec<u32>>,
}

/// The model of [`Update`].
pub struct UpdateModel {
    pub tiles: Seq<GroundTileData>,
    pub new_objs: Seq<ObjectDataModel>,
    pub drops: Seq<u32>,
}

impl DeepView for Update {
    type V = UpdateModel;

    open spec fn deep_view(&self) -> UpdateModel {
        UpdateModel {
            tiles: self.tiles.deep_view(),
            new_objs: self.new_objs.deep_view(),
            drops: self.drops.deep_view(),
        }
    }
}

impl Adapter for Update {
    #[verifier::opaque]
    open spec fn spec_get(input: Seq<u8>) -> Read<UpdateModel, Error> {
        then(RLE::<Vec<GroundTileData>, u16>::spec_get(input), |tiles: Seq<GroundTileData>, rest: Seq<u8>|
            then(RLE::<Vec<ObjectData>, u16>::spec_get(rest), |new_objs: Seq<ObjectDataModel>, rest: Seq<u8>|
                then(RLE::<Vec<u32>, u16>::spec_get(rest), |drops: Seq<u32>, rest: Seq<u8>|
                    done(UpdateModel { tiles, new_objs, drops }, rest))))
    }

    #[verifier::opaque]
    open spec fn spec_put(value: UpdateModel) -> Written {
        also(also(RLE::<Vec<GroundTileData>, u16>::spec_put(value.tiles),
            RLE::<Vec<ObjectData>, u16>::spec_put(value.new_objs)),
            RLE::<Vec<u32>, u16>::spec_put(value.drops))
    }

    open spec fn round_trips(value: UpdateModel, rest: Seq<u8>) -> bool {
        let rest3 = rest;
        let rest2 = RLE::<Vec<u32>, u16>::spec_put(value.drops).bytes + rest3;
        let rest1 = RLE::<Vec<ObjectData>, u16>::spec_put(value.new_objs).bytes + rest2;
        &&& RLE::<Vec<GroundTileData>, u16>::round_trips(value.tiles, rest1)
        &&& RLE::<Vec<ObjectData>, u16>::round_trips(value.new_objs, rest2)
        &&& RLE::<Vec<u32>, u16>::round_trips(value.drops, rest3)
    }

    fn get_be(bytes: &mut Cursor) -> (r: Result<Update, Error>) {
        reveal(<Update as Adapter>::spec_get);
        let tiles = RLE::<Vec<GroundTileData>, u16>::get_be(bytes)?;
        let new_objs = RLE::<Vec<ObjectData>, u16>::get_be(bytes)?;
        let drops = RLE::<Vec<u32>, u16>::get_be(bytes)?;
        Ok(Update { tiles, new_objs, drops })
    }

    fn put_be(&self, buffer: &mut Vec<u8>) -> (r: Result<(), Error>) {
        reveal(<Update as Adapter>::spec_put);
        self.tiles.put_be(buffer)?;
        let ghost written = RLE::<Vec<GroundTileData>, u16>::spec_put(self.deep_view().tiles).bytes;
        proof {
            lemma_add_assoc(old(buffer)@, written, RLE::<Vec<ObjectData>, u16>::spec_put(self.deep_view().new_objs).bytes);
        }
        self.new_objs.put_be(buffer)?;
        let ghost written = written + RLE::<Vec<ObjectData>, u16>::spec_put(self.deep_view().new_objs).bytes;
        proof {
            lemma_add_assoc(old(buffer)@, written, RLE::<Vec<u32>, u16>::spec_put(self.deep_view().drops).bytes);
        }
        self.drops.put_be(buffer)?;
        Ok(())
    }

    proof fn lemma_round_trip(value: UpdateModel, rest: Seq<u8>) {
        reveal(<Update as Adapter>::spec_get);
        reveal(<Update as Adapter>::spec_put);
        let rest3 = rest;
        let rest2 = RLE::<Vec<u32>, u16>::spec_put(value.drops).bytes + rest3;
        let rest1 = RLE::<Vec<ObjectData>, u16>::spec_put(value.new_objs).bytes + rest2;
        let front1 = RLE::<Vec<GroundTileData>, u16>::spec_put(value.tiles).bytes;
        let front2 = front1 + RLE::<Vec<ObjectData>, u16>::spec_put(value.new_objs).bytes;
        lemma_add_assoc(front2, RLE::<Vec<u32>, u16>::spec_put(value.drops).bytes, rest3);
        lemma_add_assoc(front1, RLE::<Vec<ObjectData>, u16>::spec_put(value.new_objs).bytes, rest2);
        RLE::<Vec<GroundTileData>, u16>::lemma_round_trip(value.tiles, rest1);
        RLE::<Vec<ObjectData>, u16>::lemma_round_trip(value.new_objs, rest2);
        RLE::<Vec<u32>, u16>::lemma_round_trip(value.drops, rest3);
    }
}

impl PacketData for Update {
    open spec fn spec_packet_type() -> PacketType {
        PacketType::Update
    }

    open spec fn spec_wrap(value: UpdateModel) -> PacketModel {
        PacketModel::Update(value)
    }

    fn packet_type() -> (kind: PacketType) {
        PacketType::Update
    }

    fn into_packet(self) -> (packet: Packet) {
        Packet::Update(self)
    }

    fn from_packet(packet: Packet) -> (r: Result<Update, Packet>) {
        match packet {
            Packet::Update(v) => Ok(v),
            p => Err(p),
        }
    }

    fn from_packet_ref(packet: &Packet) -> (r: Result<&Update, &Packet>) {
        match packet {
            Packet::Update(v) => Ok(v),
            p => Err(p),
        }
    }
}

/// The `VerifyEmail` packet.
#[derive(Debug, Clone, Copy, PartialEq, Eq, Structural)]
pub struct VerifyEmail {}

impl DeepView for VerifyEmail {
    type V = VerifyEmail;

    open spec fn deep_view(&self) -> VerifyEmail {
        *self
    }
}

impl Adapter for VerifyEmail {
    #[verifier::opaque]
    open spec fn spec_get(input: Seq<u8>) -> Read<VerifyEmail, Error> {
        done(VerifyEmail {}, input)
    }

    #[verifier::opaque]
    open spec fn spec_put(value: VerifyEmail) -> Written {
        wrote(Seq::empty())
    }

    open spec fn round_trips(value: VerifyEmail, rest: Seq<u8>) -> bool {
        true
    }

    fn get_be(bytes: &mut Cursor) -> (r: Result<VerifyEmail, Error>) {
        reveal(<VerifyEmail as Adapter>::spec_get);
        Ok(VerifyEmail {})
    }

    fn put_be(&self, buffer: &mut Vec<u8>) -> (r: Result<(), Error>) {
        reveal(<VerifyEmail as Adapter>::spec_put);
        proof {
            lemma_add_empty(buffer@);
        }
        Ok(())
    }

    proof fn lemma_round_trip(value: VerifyEmail, rest: Seq<u8>) {
        reveal(<VerifyEmail as Adapter>::spec_get);
        reveal(<VerifyEmail as Adapter>::spec_put);
        lemma_add_empty(rest);
    }
}

impl PacketData for VerifyEmail {
    open spec fn spec_packet_type() -> PacketType {
        PacketType::VerifyEmail
    }

    open spec fn spec_wrap(value: VerifyEmail) -> PacketModel {
        PacketModel::VerifyEmail(value)
    }

    fn packet_type() -> (kind: PacketType) {
        PacketType::VerifyEmail
    }

    fn into_packet(self) -> (packet: Packet) {
        Packet::VerifyEmail(self)
    }

    fn from_packet(packet: Packet) -> (r: Result<VerifyEmail, Packet>) {
        match packet {
            Packet::VerifyEmail(v) => Ok(v),
            p => Err(p),
        }
    }

    fn from_packet_ref(packet: &Packet) -> (r: Result<&VerifyEmail, &Packet>) {
        match packet {
            Packet::VerifyEmail(v) => Ok(v),
            p => Err(p),
        }
    }
}

} // verus!
