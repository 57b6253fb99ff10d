//! The packets that the client sends.

use vstd::prelude::*;
use crate::adapter::rle::RLE;
use crate::adapter::{also, lemma_add_assoc, lemma_add_empty, wrote, Adapter, Error, Written};
use crate::cursor::{done, then, Cursor, Read};
use crate::ieee::F32;
use crate::packets::data::basic::{MoveRecord, SlotObjectData, WorldPosData};
use crate::packets::definitions::{Packet, PacketData, PacketModel, PacketType};

verus! {

/// The `AcceptTrade` packet.
#[derive(Debug, Clone, PartialEq, Eq)]
pub struct AcceptTrade {
    pub my_offer: RLE<Vec<bool>>,
    pub your_offer: RLE<Vec<bool>>,
}

/// The model of [`AcceptTrade`].
pub struct AcceptTradeModel {
    pub my_offer: Seq<bool>,
    pub your_offer: Seq<bool>,
}

impl DeepView for AcceptTrade {
    type V = AcceptTradeModel;

    open spec fn deep_view(&self) -> AcceptTradeModel {
        AcceptTradeModel {
            my_offer: self.my_offer.deep_view(),
            your_offer: self.your_offer.deep_view(),
        }
    }
}

impl Adapter for AcceptTrade {
    #[verifier::opaque]
    open spec fn spec_get(input: Seq<u8>) -> Read<AcceptTradeModel, Error> {
        then(RLE::<Vec<bool>, u16>::spec_get(input), |my_offer: Seq<bool>, rest: Seq<u8>|
            then(RLE::<Vec<bool>, u16>::spec_get(rest), |your_offer: Seq<bool>, rest: Seq<u8>|
                done(AcceptTradeModel { my_offer, your_offer }, rest)))
    }

    #[verifier::opaque]
    open spec fn spec_put(value: AcceptTradeModel) -> Written {
        also(RLE::<Vec<bool>, u16>::spec_put(value.my_offer),
            RLE::<Vec<bool>, u16>::spec_put(value.your_offer))
    }

    open spec fn round_trips(value: AcceptTradeModel, rest: Seq<u8>) -> bool {
        let rest2 = rest;
        let rest1 = RLE::<Vec<bool>, u16>::spec_put(value.your_offer).bytes + rest2;
        &&& RLE::<Vec<bool>, u16>::round_trips(value.my_offer, rest1)
        &&& RLE::<Vec<bool>, u16>::round_trips(value.your_offer, rest2)
    }

    fn get_be(bytes: &mut Cursor) -> (r: Result<AcceptTrade, Error>) {
        reveal(<AcceptTrade as Adapter>::spec_get);
        let my_offer = RLE::<Vec<bool>, u16>::get_be(bytes)?;
        let your_offer = RLE::<Vec<bool>, u16>::get_be(bytes)?;
        Ok(AcceptTrade { my_offer, your_offer })
    }

    fn put_be(&self, buffer: &mut Vec<u8>) -> (r: Result<(), Error>) {
        reveal(<AcceptTrade as Adapter>::spec_put);
        self.my_offer.put_be(buffer)?;
        let ghost written = RLE::<Vec<bool>, u16>::spec_put(self.deep_view().my_offer).bytes;
        proof {
            lemma_add_assoc(old(buffer)@, written, RLE::<Vec<bool>, u16>::spec_put(self.deep_view().your_offer).bytes);
        }
        self.your_offer.put_be(buffer)?;
        Ok(())
    }

    proof fn lemma_round_trip(value: AcceptTradeModel, rest: Seq<u8>) {
        reveal(<AcceptTrade as Adapter>::spec_get);
        reveal(<AcceptTrade as Adapter>::spec_put);
        let rest2 = rest;
        let rest1 = RLE::<Vec<bool>, u16>::spec_put(value.your_offer).bytes + rest2;
        let front1 = RLE::<Vec<bool>, u16>::spec_put(value.my_offer).bytes;
        lemma_add_assoc(front1, RLE::<Vec<bool>, u16>::spec_put(value.your_offer).bytes, rest2);
        RLE::<Vec<bool>, u16>::lemma_round_trip(value.my_offer, rest1);
        RLE::<Vec<bool>, u16>::lemma_round_trip(value.your_offer, rest2);
    }
}

impl PacketData for AcceptTrade {
    open spec fn spec_packet_type() -> PacketType {
        PacketType::AcceptTrade
    }

    open spec fn spec_wrap(value: AcceptTradeModel) -> PacketModel {
        PacketModel::AcceptTrade(value)
    }

    fn packet_type() -> (kind: PacketType) {
        PacketType::AcceptTrade
    }

    fn into_packet(self) -> (packet: Packet) {
        Packet::AcceptTrade(self)
    }

    fn from_packet(packet: Packet) -> (r: Result<AcceptTrade, Packet>) {
        match packet {
            Packet::AcceptTrade(v) => Ok(v),
            p => Err(p),
        }
    }

    fn from_packet_ref(packet: &Packet) -> (r: Result<&AcceptTrade, &Packet>) {
        match packet {
            Packet::AcceptTrade(v) => Ok(v),
            p => Err(p),
        }
    }
}

/// The `ActivePetUpdateRequest` packet.
#[derive(Debug, Clone, Copy, PartialEq, Eq, Structural)]
pub struct ActivePetUpdateRequest {
    pub command_type: u8,
    pub instance_id: u32,
}

impl DeepView for ActivePetUpdateRequest {
    type V = ActivePetUpdateRequest;

    open spec fn deep_view(&self) -> ActivePetUpdateRequest {
        *self
    }
}

impl Adapter for ActivePetUpdateRequest {
    #[verifier::opaque]
    open spec fn spec_get(input: Seq<u8>) -> Read<ActivePetUpdateRequest, Error> {
        then(u8::spec_get(input), |command_type: u8, rest: Seq<u8>|
            then(u32::spec_get(rest), |instance_id: u32, rest: Seq<u8>|
                done(ActivePetUpdateRequest { command_type, instance_id }, rest)))
    }

    #[verifier::opaque]
    open spec fn spec_put(value: ActivePetUpdateRequest) -> Written {
        also(u8::spec_put(value.command_type),
            u32::spec_put(value.instance_id))
    }

    open spec fn round_trips(value: ActivePetUpdateRequest, rest: Seq<u8>) -> bool {
        let rest2 = rest;
        let rest1 = u32::spec_put(value.instance_id).bytes + rest2;
        &&& u8::round_trips(value.command_type, rest1)
        &&& u32::round_trips(value.instance_id, rest2)
    }

    fn get_be(bytes: &mut Cursor) -> (r: Result<ActivePetUpdateRequest, Error>) {
        reveal(<ActivePetUpdateRequest as Adapter>::spec_get);
        let command_type = u8::get_be(bytes)?;
        let instance_id = u32::get_be(bytes)?;
        Ok(ActivePetUpdateRequest { command_type, instance_id })
    }

    fn put_be(&self, buffer: &mut Vec<u8>) -> (r: Result<(), Error>) {
        reveal(<ActivePetUpdateRequest as Adapter>::spec_put);
        self.command_type.put_be(buffer)?;
        let ghost written = u8::spec_put(self.deep_view().command_type).bytes;
        proof {
            lemma_add_assoc(old(buffer)@, written, u32::spec_put(self.deep_view().instance_id).bytes);
        }
        self.instance_id.put_be(buffer)?;
        Ok(())
    }

    proof fn lemma_round_trip(value: ActivePetUpdateRequest, rest: Seq<u8>) {
        reveal(<ActivePetUpdateRequest as Adapter>::spec_get);
        reveal(<ActivePetUpdateRequest as Adapter>::spec_put);
        let rest2 = rest;
        let rest1 = u32::spec_put(value.instance_id).bytes + rest2;
        let front1 = u8::spec_put(value.command_type).bytes;
        lemma_add_assoc(front1, u32::spec_put(value.instance_id).bytes, rest2);
        u8::lemma_round_trip(value.command_type, rest1);
        u32::lemma_round_trip(value.instance_id, rest2);
    }
}

impl PacketData for ActivePetUpdateRequest {
    open spec fn spec_packet_type() -> PacketType {
        PacketType::ActivePetUpdateRequest
    }

    open spec fn spec_wrap(value: ActivePetUpdateRequest) -> PacketModel {
        PacketModel::ActivePetUpdateRequest(value)
    }

    fn packet_type() -> (kind: PacketType) {
        PacketType::ActivePetUpdateRequest
    }

    fn into_packet(self) -> (packet: Packet) {
        Packet::ActivePetUpdateRequest(self)
    }

    fn from_packet(packet: Packet) -> (r: Result<ActivePetUpdateRequest, Packet>) {
        match packet {
            Packet::ActivePetUpdateRequest(v) => Ok(v),
            p => Err(p),
        }
    }

    fn from_packet_ref(packet: &Packet) -> (r: Result<&ActivePetUpdateRequest, &Packet>) {
        match packet {
            Packet::ActivePetUpdateRequest(v) => Ok(v),
            p => Err(p),
        }
    }
}

/// The `AoeAck` packet.
#[derive(Debug, Clone, Copy, PartialEq, Eq, Structural)]
pub struct AoeAck {
    pub time: u32,
    pub pos: WorldPosData,
}

impl DeepView for AoeAck {
    type V = AoeAck;

    open spec fn deep_view(&self) -> AoeAck {
        *self
    }
}

impl Adapter for AoeAck {
    #[verifier::opaque]
    open spec fn spec_get(input: Seq<u8>) -> Read<AoeAck, Error> {
        then(u32::spec_get(input), |time: u32, rest: Seq<u8>|
            then(WorldPosData::spec_get(rest), |pos: WorldPosData, rest: Seq<u8>|
                done(AoeAck { time, pos }, rest)))
    }

    #[verifier::opaque]
    open spec fn spec_put(value: AoeAck) -> Written {
        also(u32::spec_put(value.time),
            WorldPosData::spec_put(value.pos))
    }

    open spec fn round_trips(value: AoeAck, rest: Seq<u8>) -> bool {
        let rest2 = rest;
        let rest1 = WorldPosData::spec_put(value.pos).bytes + rest2;
        &&& u32::round_trips(value.time, rest1)
        &&& WorldPosData::round_trips(value.pos, rest2)
    }

    fn get_be(bytes: &mut Cursor) -> (r: Result<AoeAck, Error>) {
        reveal(<AoeAck as Adapter>::spec_get);
        let time = u32::get_be(bytes)?;
        let pos = WorldPosData::get_be(bytes)?;
        Ok(AoeAck { time, pos })
    }

    fn put_be(&self, buffer: &mut Vec<u8>) -> (r: Result<(), Error>) {
        reveal(<AoeAck as Adapter>::spec_put);
        self.time.put_be(buffer)?;
        let ghost written = u32::spec_put(self.deep_view().time).bytes;
        proof {
            lemma_add_assoc(old(buffer)@, written, WorldPosData::spec_put(self.deep_view().pos).bytes);
        }
        self.pos.put_be(buffer)?;
        Ok(())
    }

    proof fn lemma_round_trip(value: AoeAck, rest: Seq<u8>) {
        reveal(<AoeAck as Adapter>::spec_get);
        reveal(<AoeAck as Adapter>::spec_put);
        let rest2 = rest;
        let rest1 = WorldPosData::spec_put(value.pos).bytes + rest2;
        let front1 = u32::spec_put(value.time).bytes;
        lemma_add_assoc(front1, WorldPosData::spec_put(value.pos).bytes, rest2);
        u32::lemma_round_trip(value.time, rest1);
        WorldPosData::lemma_round_trip(value.pos, rest2);
    }
}

impl PacketData for AoeAck {
    open spec fn spec_packet_type() -> PacketType {
        PacketType::AoeAck
    }

    open spec fn spec_wrap(value: AoeAck) -> PacketModel {
        PacketModel::AoeAck(value)
    }

    fn packet_type() -> (kind: PacketType) {
        PacketType::AoeAck
    }

    fn into_packet(self) -> (packet: Packet) {
        Packet::AoeAck(self)
    }

    fn from_packet(packet: Packet) -> (r: Result<AoeAck, Packet>) {
        match packet {
            Packet::AoeAck(v) => Ok(v),
            p => Err(p),
        }
    }

    fn from_packet_ref(packet: &Packet) -> (r: Result<&AoeAck, &Packet>) {
        match packet {
            Packet::AoeAck(v) => Ok(v),
            p => Err(p),
        }
    }
}

/// The `Buy` packet.
#[derive(Debug, Clone, Copy, PartialEq, Eq, Structural)]
pub struct Buy {
    pub object_id: u32,
    pub quantity: u32,
}

impl DeepView for Buy {
    type V = Buy;

    open spec fn deep_view(&self) -> Buy {
        *self
    }
}

impl Adapter for Buy {
    #[verifier::opaque]
    open spec fn spec_get(input: Seq<u8>) -> Read<Buy, Error> {
        then(u32::spec_get(input), |object_id: u32, rest: Seq<u8>|
            then(u32::spec_get(rest), |quantity: u32, rest: Seq<u8>|
                done(Buy { object_id, quantity }, rest)))
    }

    #[verifier::opaque]
    open spec fn spec_put(value: Buy) -> Written {
        also(u32::spec_put(value.object_id),
            u32::spec_put(value.quantity))
    }

    open spec fn round_trips(value: Buy, rest: Seq<u8>) -> bool {
        let rest2 = rest;
        let rest1 = u32::spec_put(value.quantity).bytes + rest2;
        &&& u32::round_trips(value.object_id, rest1)
        &&& u32::round_trips(value.quantity, rest2)
    }

    fn get_be(bytes: &mut Cursor) -> (r: Result<Buy, Error>) {
        reveal(<Buy as Adapter>::spec_get);
        let object_id = u32::get_be(bytes)?;
        let quantity = u32::get_be(bytes)?;
        Ok(Buy { object_id, quantity })
    }

    fn put_be(&self, buffer: &mut Vec<u8>) -> (r: Result<(), Error>) {
        reveal(<Buy as Adapter>::spec_put);
        self.object_id.put_be(buffer)?;
        let ghost written = u32::spec_put(self.deep_view().object_id).bytes;
        proof {
            lemma_add_assoc(old(buffer)@, written, u32::spec_put(self.deep_view().quantity).bytes);
        }
        self.quantity.put_be(buffer)?;
        Ok(())
    }

    proof fn lemma_round_trip(value: Buy, rest: Seq<u8>) {
        reveal(<Buy as Adapter>::spec_get);
        reveal(<Buy as Adapter>::spec_put);
        let rest2 = rest;
        let rest1 = u32::spec_put(value.quantity).bytes + rest2;
        let front1 = u32::spec_put(value.object_id).bytes;
        lemma_add_assoc(front1, u32::spec_put(value.quantity).bytes, rest2);
        u32::lemma_round_trip(value.object_id, rest1);
        u32::lemma_round_trip(value.quantity, rest2);
    }
}

impl PacketData for Buy {
    open spec fn spec_packet_type() -> PacketType {
        PacketType::Buy
    }

    open spec fn spec_wrap(value: Buy) -> PacketModel {
        PacketModel::Buy(value)
    }

    fn packet_type() -> (kind: PacketType) {
        PacketType::Buy
    }

    fn into_packet(self) -> (packet: Packet) {
        Packet::Buy(self)
    }

    fn from_packet(packet: Packet) -> (r: Result<Buy, Packet>) {
        match packet {
            Packet::Buy(v) => Ok(v),
            p => Err(p),
        }
    }

    fn from_packet_ref(packet: &Packet) -> (r: Result<&Buy, &Packet>) {
        match packet {
            Packet::Buy(v) => Ok(v),
            p => Err(p),
        }
    }
}

/// The `CancelTrade` packet.
#[derive(Debug, Clone, Copy, PartialEq, Eq, Structural)]
pub struct CancelTrade {}

impl DeepView for CancelTrade {
    type V = CancelTrade;

    open spec fn deep_view(&self) -> CancelTrade {
        *self
    }
}

impl Adapter for CancelTrade {
    #[verifier::opaque]
    open spec fn spec_get(input: Seq<u8>) -> Read<CancelTrade, Error> {
        done(CancelTrade {}, input)
    }

    #[verifier::opaque]
    open spec fn spec_put(value: CancelTrade) -> Written {
        wrote(Seq::empty())
    }

    open spec fn round_trips(value: CancelTrade, rest: Seq<u8>) -> bool {
        true
    }

    fn get_be(bytes: &mut Cursor) -> (r: Result<CancelTrade, Error>) {
        reveal(<CancelTrade as Adapter>::spec_get);
        Ok(CancelTrade {})
    }

    fn put_be(&self, buffer: &mut Vec<u8>) -> (r: Result<(), Error>) {
        reveal(<CancelTrade as Adapter>::spec_put);
        proof {
            lemma_add_empty(buffer@);
        }
        Ok(())
    }

    proof fn lemma_round_trip(value: CancelTrade, rest: Seq<u8>) {
        reveal(<CancelTrade as Adapter>::spec_get);
        reveal(<CancelTrade as Adapter>::spec_put);
        lemma_add_empty(rest);
    }
}

impl PacketData for CancelTrade {
    open spec fn spec_packet_type() -> PacketType {
        PacketType::CancelTrade
    }

    open spec fn spec_wrap(value: CancelTrade) -> PacketModel {
        PacketModel::CancelTrade(value)
    }

    fn packet_type() -> (kind: PacketType) {
        PacketType::CancelTrade
    }

    fn into_packet(self) -> (packet: Packet) {
        Packet::CancelTrade(self)
    }

    fn from_packet(packet: Packet) -> (r: Result<CancelTrade, Packet>) {
        match packet {
            Packet::CancelTrade(v) => Ok(v),
            p => Err(p),
        }
    }

    fn from_packet_ref(packet: &Packet) -> (r: Result<&CancelTrade, &Packet>) {
        match packet {
            Packet::CancelTrade(v) => Ok(v),
            p => Err(p),
        }
    }
}

/// The `ChangeGuildRank` packet.
#[derive(Debug, Clone, PartialEq, Eq)]
pub struct ChangeGuildRank {
    pub name: RLE<String>,
    pub guild_rank: u32,
}

/// The model of [`ChangeGuildRank`].
pub struct ChangeGuildRankModel {
    pub name: Seq<char>,
    pub guild_rank: u32,
}

impl DeepView for ChangeGuildRank {
    type V = ChangeGuildRankModel;

    open spec fn deep_view(&self) -> ChangeGuildRankModel {
        ChangeGuildRankModel {
            name: self.name.deep_view(),
            guild_rank: self.guild_rank,
        }
    }
}

impl Adapter for ChangeGuildRank {
    #[verifier::opaque]
    open spec fn spec_get(input: Seq<u8>) -> Read<ChangeGuildRankModel, Error> {
        then(RLE::<String, u16>::spec_get(input), |name: Seq<char>, rest: Seq<u8>|
            then(u32::spec_get(rest), |guild_rank: u32, rest: Seq<u8>|
                done(ChangeGuildRankModel { name, guild_rank }, rest)))
    }

    #[verifier::opaque]
    open spec fn spec_put(value: ChangeGuildRankModel) -> Written {
        also(RLE::<String, u16>::spec_put(value.name),
            u32::spec_put(value.guild_rank))
    }

    open spec fn round_trips(value: ChangeGuildRankModel, rest: Seq<u8>) -> bool {
        let rest2 = rest;
        let rest1 = u32::spec_put(value.guild_rank).bytes + rest2;
        &&& RLE::<String, u16>::round_trips(value.name, rest1)
        &&& u32::round_trips(value.guild_rank, rest2)
    }

    fn get_be(bytes: &mut Cursor) -> (r: Result<ChangeGuildRank, Error>) {
        reveal(<ChangeGuildRank as Adapter>::spec_get);
        let name = RLE::<String, u16>::get_be(bytes)?;
        let guild_rank = u32::get_be(bytes)?;
        Ok(ChangeGuildRank { name, guild_rank })
    }

    fn put_be(&self, buffer: &mut Vec<u8>) -> (r: Result<(), Error>) {
        reveal(<ChangeGuildRank as Adapter>::spec_put);
        self.name.put_be(buffer)?;
        let ghost written = RLE::<String, u16>::spec_put(self.deep_view().name).bytes;
        proof {
            lemma_add_assoc(old(buffer)@, written, u32::spec_put(self.deep_view().guild_rank).bytes);
        }
        self.guild_rank.put_be(buffer)?;
        Ok(())
    }

    proof fn lemma_round_trip(value: ChangeGuildRankModel, rest: Seq<u8>) {
        reveal(<ChangeGuildRank as Adapter>::spec_get);
        reveal(<ChangeGuildRank as Adapter>::spec_put);
        let rest2 = rest;
        let rest1 = u32::spec_put(value.guild_rank).bytes + rest2;
        let front1 = RLE::<String, u16>::spec_put(value.name).bytes;
        lemma_add_assoc(front1, u32::spec_put(value.guild_rank).bytes, rest2);
        RLE::<String, u16>::lemma_round_trip(value.name, rest1);
        u32::lemma_round_trip(value.guild_rank, rest2);
    }
}

impl PacketData for ChangeGuildRank {
    open spec fn spec_packet_type() -> PacketType {
        PacketType::ChangeGuildRank
    }

    open spec fn spec_wrap(value: ChangeGuildRankModel) -> PacketModel {
        PacketModel::ChangeGuildRank(value)
    }

    fn packet_type() -> (kind: PacketType) {
        PacketType::ChangeGuildRank
    }

    fn into_packet(self) -> (packet: Packet) {
        Packet::ChangeGuildRank(self)
    }

    fn from_packet(packet: Packet) -> (r: Result<ChangeGuildRank, Packet>) {
        match packet {
            Packet::ChangeGuildRank(v) => Ok(v),
            p => Err(p),
        }
    }

    fn from_packet_ref(packet: &Packet) -> (r: Result<&ChangeGuildRank, &Packet>) {
        match packet {
            Packet::ChangeGuildRank(v) => Ok(v),
            p => Err(p),
        }
    }
}

/// The `ChangeTrade` packet.
#[derive(Debug, Clone, PartialEq, Eq)]
pub struct ChangeTrade {
    pub offer: RLE<Vec<bool>>,
}

/// The model of [`ChangeTrade`].
pub struct ChangeTradeModel {
    pub offer: Seq<bool>,
}

impl DeepView for ChangeTrade {
    type V = ChangeTradeModel;

    open spec fn deep_view(&self) -> ChangeTradeModel {
        ChangeTradeModel {
            offer: self.offer.deep_view(),
        }
    }
}

impl Adapter for ChangeTrade {
    #[verifier::opaque]
    open spec fn spec_get(input: Seq<u8>) -> Read<ChangeTradeModel, Error> {
        then(RLE::<Vec<bool>, u16>::spec_get(input), |offer: Seq<bool>, rest: Seq<u8>|
            done(ChangeTradeModel { offer }, rest))
    }

    #[verifier::opaque]
    open spec fn spec_put(value: ChangeTradeModel) -> Written {
        RLE::<Vec<bool>, u16>::spec_put(value.offer)
    }

    open spec fn round_trips(value: ChangeTradeModel, rest: Seq<u8>) -> bool {
        let rest1 = rest;
        &&& RLE::<Vec<bool>, u16>::round_trips(value.offer, rest1)
    }

    fn get_be(bytes: &mut Cursor) -> (r: Result<ChangeTrade, Error>) {
        reveal(<ChangeTrade as Adapter>::spec_get);
        let offer = RLE::<Vec<bool>, u16>::get_be(bytes)?;
        Ok(ChangeTrade { offer })
    }

    fn put_be(&self, buffer: &mut Vec<u8>) -> (r: Result<(), Error>) {
        reveal(<ChangeTrade as Adapter>::spec_put);
        self.offer.put_be(buffer)?;
        Ok(())
    }

    proof fn lemma_round_trip(value: ChangeTradeModel, rest: Seq<u8>) {
        reveal(<ChangeTrade as Adapter>::spec_get);
        reveal(<ChangeTrade as Adapter>::spec_put);
        let rest1 = rest;
        RLE::<Vec<bool>, u16>::lemma_round_trip(value.offer, rest1);
    }
}

impl PacketData for ChangeTrade {
    open spec fn spec_packet_type() -> PacketType {
        PacketType::ChangeTrade
    }

    open spec fn spec_wrap(value: ChangeTradeModel) -> PacketModel {
        PacketModel::ChangeTrade(value)
    }

    fn packet_type() -> (kind: PacketType) {
        PacketType::ChangeTrade
    }

    fn into_packet(self) -> (packet: Packet) {
        Packet::ChangeTrade(self)
    }

    fn from_packet(packet: Packet) -> (r: Result<ChangeTrade, Packet>) {
        match packet {
            Packet::ChangeTrade(v) => Ok(v),
            p => Err(p),
        }
    }

    fn from_packet_ref(packet: &Packet) -> (r: Result<&ChangeTrade, &Packet>) {
        match packet {
            Packet::ChangeTrade(v) => Ok(v),
            p => Err(p),
        }
    }
}

/// The `CheckCredits` packet.
#[derive(Debug, Clone, Copy, PartialEq, Eq, Structural)]
pub struct CheckCredits {}

impl DeepView for CheckCredits {
    type V = CheckCredits;

    open spec fn deep_view(&self) -> CheckCredits {
        *self
    }
}

impl Adapter for CheckCredits {
    #[verifier::opaque]
    open spec fn spec_get(input: Seq<u8>) -> Read<CheckCredits, Error> {
        done(CheckCredits {}, input)
    }

    #[verifier::opaque]
    open spec fn spec_put(value: CheckCredits) -> Written {
        wrote(Seq::empty())
    }

    open spec fn round_trips(value: CheckCredits, rest: Seq<u8>) -> bool {
        true
    }

    fn get_be(bytes: &mut Cursor) -> (r: Result<CheckCredits, Error>) {
        reveal(<CheckCredits as Adapter>::spec_get);
        Ok(CheckCredits {})
    }

    fn put_be(&self, buffer: &mut Vec<u8>) -> (r: Result<(), Error>) {
        reveal(<CheckCredits as Adapter>::spec_put);
        proof {
            lemma_add_empty(buffer@);
        }
        Ok(())
    }

    proof fn lemma_round_trip(value: CheckCredits, rest: Seq<u8>) {
        reveal(<CheckCredits as Adapter>::spec_get);
        reveal(<CheckCredits as Adapter>::spec_put);
        lemma_add_empty(rest);
    }
}

impl PacketData for CheckCredits {
    open spec fn spec_packet_type() -> PacketType {
        PacketType::CheckCredits
    }

    open spec fn spec_wrap(value: CheckCredits) -> PacketModel {
        PacketModel::CheckCredits(value)
    }

    fn packet_type() -> (kind: PacketType) {
        PacketType::CheckCredits
    }

    fn into_packet(self) -> (packet: Packet) {
        Packet::CheckCredits(self)
    }

    fn from_packet(packet: Packet) -> (r: Result<CheckCredits, Packet>) {
        match packet {
            Packet::CheckCredits(v) => Ok(v),
            p => Err(p),
        }
    }

    fn from_packet_ref(packet: &Packet) -> (r: Result<&CheckCredits, &Packet>) {
        match packet {
            Packet::CheckCredits(v) => Ok(v),
            p => Err(p),
        }
    }
}

/// The `ChooseName` packet.
#[derive(Debug, Clone, PartialEq, Eq)]
pub struct ChooseName {
    pub name: RLE<String>,
}

/// The model of [`ChooseName`].
pub struct ChooseNameModel {
    pub name: Seq<char>,
}

impl DeepView for ChooseName {
    type V = ChooseNameModel;

    open spec fn deep_view(&self) -> ChooseNameModel {
        ChooseNameModel {
            name: self.name.deep_view(),
        }
    }
}

impl Adapter for ChooseName {
    #[verifier::opaque]
    open spec fn spec_get(input: Seq<u8>) -> Read<ChooseNameModel, Error> {
        then(RLE::<String, u16>::spec_get(input), |name: Seq<char>, rest: Seq<u8>|
            done(ChooseNameModel { name }, rest))
    }

    #[verifier::opaque]
    open spec fn spec_put(value: ChooseNameModel) -> Written {
        RLE::<String, u16>::spec_put(value.name)
    }

    open spec fn round_trips(value: ChooseNameModel, rest: Seq<u8>) -> bool {
        let rest1 = rest;
        &&& RLE::<String, u16>::round_trips(value.name, rest1)
    }

    fn get_be(bytes: &mut Cursor) -> (r: Result<ChooseName, Error>) {
        reveal(<ChooseName as Adapter>::spec_get);
        let name = RLE::<String, u16>::get_be(bytes)?;
        Ok(ChooseName { name })
    }

    fn put_be(&self, buffer: &mut Vec<u8>) -> (r: Result<(), Error>) {
        reveal(<ChooseName as Adapter>::spec_put);
        self.name.put_be(buffer)?;
        Ok(())
    }

    proof fn lemma_round_trip(value: ChooseNameModel, rest: Seq<u8>) {
        reveal(<ChooseName as Adapter>::spec_get);
        reveal(<ChooseName as Adapter>::spec_put);
        let rest1 = rest;
        RLE::<String, u16>::lemma_round_trip(value.name, rest1);
    }
}

impl PacketData for ChooseName {
    open spec fn spec_packet_type() -> PacketType {
        PacketType::ChooseName
    }

    open spec fn spec_wrap(value: ChooseNameModel) -> PacketModel {
        PacketModel::ChooseName(value)
    }

    fn packet_type() -> (kind: PacketType) {
        PacketType::ChooseName
    }

    fn into_packet(self) -> (packet: Packet) {
        Packet::ChooseName(self)
    }

    fn from_packet(packet: Packet) -> (r: Result<ChooseName, Packet>) {
        match packet {
            Packet::ChooseName(v) => Ok(v),
            p => Err(p),
        }
    }

    fn from_packet_ref(packet: &Packet) -> (r: Result<&ChooseName, &Packet>) {
        match packet {
            Packet::ChooseName(v) => Ok(v),
            p => Err(p),
        }
    }
}

/// The `ClaimLoginRewardMsg` packet.
#[derive(Debug, Clone, PartialEq, Eq)]
pub struct ClaimLoginRewardMsg {
    pub claim_key: RLE<String>,
    pub typ: RLE<String>,
}

/// The model of [`ClaimLoginRewardMsg`].
pub struct ClaimLoginRewardMsgModel {
    pub claim_key: Seq<char>,
    pub typ: Seq<char>,
}

impl DeepView for ClaimLoginRewardMsg {
    type V = ClaimLoginRewardMsgModel;

    open spec fn deep_view(&self) -> ClaimLoginRewardMsgModel {
        ClaimLoginRewardMsgModel {
            claim_key: self.claim_key.deep_view(),
            typ: self.typ.deep_view(),
        }
    }
}

impl Adapter for ClaimLoginRewardMsg {
    #[verifier::opaque]
    open spec fn spec_get(input: Seq<u8>) -> Read<ClaimLoginRewardMsgModel, Error> {
        then(RLE::<String, u16>::spec_get(input), |claim_key: Seq<char>, rest: Seq<u8>|
            then(RLE::<String, u16>::spec_get(rest), |typ: Seq<char>, rest: Seq<u8>|
                done(ClaimLoginRewardMsgModel { claim_key, typ }, rest)))
    }

    #[verifier::opaque]
    open spec fn spec_put(value: ClaimLoginRewardMsgModel) -> Written {
        also(RLE::<String, u16>::spec_put(value.claim_key),
            RLE::<String, u16>::spec_put(value.typ))
    }

    open spec fn round_trips(value: ClaimLoginRewardMsgModel, rest: Seq<u8>) -> bool {
        let rest2 = rest;
        let rest1 = RLE::<String, u16>::spec_put(value.typ).bytes + rest2;
        &&& RLE::<String, u16>::round_trips(value.claim_key, rest1)
        &&& RLE::<String, u16>::round_trips(value.typ, rest2)
    }

    fn get_be(bytes: &mut Cursor) -> (r: Result<ClaimLoginRewardMsg, Error>) {
        reveal(<ClaimLoginRewardMsg as Adapter>::spec_get);
        let claim_key = RLE::<String, u16>::get_be(bytes)?;
        let typ = RLE::<String, u16>::get_be(bytes)?;
        Ok(ClaimLoginRewardMsg { claim_key, typ })
    }

    fn put_be(&self, buffer: &mut Vec<u8>) -> (r: Result<(), Error>) {
        reveal(<ClaimLoginRewardMsg as Adapter>::spec_put);
        self.claim_key.put_be(buffer)?;
        let ghost written = RLE::<String, u16>::spec_put(self.deep_view().claim_key).bytes;
        proof {
            lemma_add_assoc(old(buffer)@, written, RLE::<String, u16>::spec_put(self.deep_view().typ).bytes);
        }
        self.typ.put_be(buffer)?;
        Ok(())
    }

    proof fn lemma_round_trip(value: ClaimLoginRewardMsgModel, rest: Seq<u8>) {
        reveal(<ClaimLoginRewardMsg as Adapter>::spec_get);
        reveal(<ClaimLoginRewardMsg as Adapter>::spec_put);
        let rest2 = rest;
        let rest1 = RLE::<String, u16>::spec_put(value.typ).bytes + rest2;
        let front1 = RLE::<String, u16>::spec_put(value.claim_key).bytes;
        lemma_add_assoc(front1, RLE::<String, u16>::spec_put(value.typ).bytes, rest2);
        RLE::<String, u16>::lemma_round_trip(value.claim_key, rest1);
        RLE::<String, u16>::lemma_round_trip(value.typ, rest2);
    }
}

impl PacketData for ClaimLoginRewardMsg {
    open spec fn spec_packet_type() -> PacketType {
        PacketType::ClaimLoginRewardMsg
    }

    open spec fn spec_wrap(value: ClaimLoginRewardMsgModel) -> PacketModel {
        PacketModel::ClaimLoginRewardMsg(value)
    }

    fn packet_type() -> (kind: PacketType) {
        PacketType::ClaimLoginRewardMsg
    }

    fn into_packet(self) -> (packet: Packet) {
        Packet::ClaimLoginRewardMsg(self)
    }

    fn from_packet(packet: Packet) -> (r: Result<ClaimLoginRewardMsg, Packet>) {
        match packet {
            Packet::ClaimLoginRewardMsg(v) => Ok(v),
            p => Err(p),
        }
    }

    fn from_packet_ref(packet: &Packet) -> (r: Result<&ClaimLoginRewardMsg, &Packet>) {
        match packet {
            Packet::ClaimLoginRewardMsg(v) => Ok(v),
            p => Err(p),
        }
    }
}

/// The `Create` packet.
#[derive(Debug, Clone, Copy, PartialEq, Eq, Structural)]
pub struct Create {
    pub class_type: u16,
    pub skin_type: u16,
}

impl DeepView for Create {
    type V = Create;

    open spec fn deep_view(&self) -> Create {
        *self
    }
}

impl Adapter for Create {
    #[verifier::opaque]
    open spec fn spec_get(input: Seq<u8>) -> Read<Create, Error> {
        then(u16::spec_get(input), |class_type: u16, rest: Seq<u8>|
            then(u16::spec_get(rest), |skin_type: u16, rest: Seq<u8>|
                done(Create { class_type, skin_type }, rest)))
    }

    #[verifier::opaque]
    open spec fn spec_put(value: Create) -> Written {
        also(u16::spec_put(value.class_type),
            u16::spec_put(value.skin_type))
    }

    open spec fn round_trips(value: Create, rest: Seq<u8>) -> bool {
        let rest2 = rest;
        let rest1 = u16::spec_put(value.skin_type).bytes + rest2;
        &&& u16::round_trips(value.class_type, rest1)
        &&& u16::round_trips(value.skin_type, rest2)
    }

    fn get_be(bytes: &mut Cursor) -> (r: Result<Create, Error>) {
        reveal(<Create as Adapter>::spec_get);
        let class_type = u16::get_be(bytes)?;
        let skin_type = u16::get_be(bytes)?;
        Ok(Create { class_type, skin_type })
    }

    fn put_be(&self, buffer: &mut Vec<u8>) -> (r: Result<(), Error>) {
        reveal(<Create as Adapter>::spec_put);
        self.class_type.put_be(buffer)?;
        let ghost written = u16::spec_put(self.deep_view().class_type).bytes;
        proof {
            lemma_add_assoc(old(buffer)@, written, u16::spec_put(self.deep_view().skin_type).bytes);
        }
        self.skin_type.put_be(buffer)?;
        Ok(())
    }

    proof fn lemma_round_trip(value: Create, rest: Seq<u8>) {
        reveal(<Create as Adapter>::spec_get);
        reveal(<Create as Adapter>::spec_put);
        let rest2 = rest;
        let rest1 = u16::spec_put(value.skin_type).bytes + rest2;
        let front1 = u16::spec_put(value.class_type).bytes;
        lemma_add_assoc(front1, u16::spec_put(value.skin_type).bytes, rest2);
        u16::lemma_round_trip(value.class_type, rest1);
        u16::lemma_round_trip(value.skin_type, rest2);
    }
}

impl PacketData for Create {
    open spec fn spec_packet_type() -> PacketType {
        PacketType::Create
    }

    open spec fn spec_wrap(value: Create) -> PacketModel {
        PacketModel::Create(value)
    }

    fn packet_type() -> (kind: PacketType) {
        PacketType::Create
    }

    fn into_packet(self) -> (packet: Packet) {
        Packet::Create(self)
    }

    fn from_packet(packet: Packet) -> (r: Result<Create, Packet>) {
        match packet {
            Packet::Create(v) => Ok(v),
            p => Err(p),
        }
    }

    fn from_packet_ref(packet: &Packet) -> (r: Result<&Create, &Packet>) {
        match packet {
            Packet::Create(v) => Ok(v),
            p => Err(p),
        }
    }
}

/// The `CreateGuild` packet.
#[derive(Debug, Clone, PartialEq, Eq)]
pub struct CreateGuild {
    pub name: RLE<String>,
}

/// The model of [`CreateGuild`].
pub struct CreateGuildModel {
    pub name: Seq<char>,
}

impl DeepView for CreateGuild {
    type V = CreateGuildModel;

    open spec fn deep_view(&self) -> CreateGuildModel {
        CreateGuildModel {
            name: self.name.deep_view(),
        }
    }
}

impl Adapter for CreateGuild {
    #[verifier::opaque]
    open spec fn spec_get(input: Seq<u8>) -> Read<CreateGuildModel, Error> {
        then(RLE::<String, u16>::spec_get(input), |name: Seq<char>, rest: Seq<u8>|
            done(CreateGuildModel { name }, rest))
    }

    #[verifier::opaque]
    open spec fn spec_put(value: CreateGuildModel) -> Written {
        RLE::<String, u16>::spec_put(value.name)
    }

    open spec fn round_trips(value: CreateGuildModel, rest: Seq<u8>) -> bool {
        let rest1 = rest;
        &&& RLE::<String, u16>::round_trips(value.name, rest1)
    }

    fn get_be(bytes: &mut Cursor) -> (r: Result<CreateGuild, Error>) {
        reveal(<CreateGuild as Adapter>::spec_get);
        let name = RLE::<String, u16>::get_be(bytes)?;
        Ok(CreateGuild { name })
    }

    fn put_be(&self, buffer: &mut Vec<u8>) -> (r: Result<(), Error>) {
        reveal(<CreateGuild as Adapter>::spec_put);
        self.name.put_be(buffer)?;
        Ok(())
    }

    proof fn lemma_round_trip(value: CreateGuildModel, rest: Seq<u8>) {
        reveal(<CreateGuild as Adapter>::spec_get);
        reveal(<CreateGuild as Adapter>::spec_put);
        let rest1 = rest;
        RLE::<String, u16>::lemma_round_trip(value.name, rest1);
    }
}

impl PacketData for CreateGuild {
    open spec fn spec_packet_type() -> PacketType {
        PacketType::CreateGuild
    }

    open spec fn spec_wrap(value: CreateGuildModel) -> PacketModel {
        PacketModel::CreateGuild(value)
    }

    fn packet_type() -> (kind: PacketType) {
        PacketType::CreateGuild
    }

    fn into_packet(self) -> (packet: Packet) {
        Packet::CreateGuild(self)
    }

    fn from_packet(packet: Packet) -> (r: Result<CreateGuild, Packet>) {
        match packet {
            Packet::CreateGuild(v) => Ok(v),
            p => Err(p),
        }
    }

    fn from_packet_ref(packet: &Packet) -> (r: Result<&CreateGuild, &Packet>) {
        match packet {
            Packet::CreateGuild(v) => Ok(v),
            p => Err(p),
        }
    }
}

/// The `EditAccountList` packet.
#[derive(Debug, Clone, Copy, PartialEq, Eq, Structural)]
pub struct EditAccountList {
    pub account_list_id: u32,
    pub add: bool,
    pub object_id: u32,
}

impl DeepView for EditAccountList {
    type V = EditAccountList;

    open spec fn deep_view(&self) -> EditAccountList {
        *self
    }
}

impl Adapter for EditAccountList {
    #[verifier::opaque]
    open spec fn spec_get(input: Seq<u8>) -> Read<EditAccountList, Error> {
        then(u32::spec_get(input), |account_list_id: u32, rest: Seq<u8>|
            then(bool::spec_get(rest), |add: bool, rest: Seq<u8>|
                then(u32::spec_get(rest), |object_id: u32, rest: Seq<u8>|
                    done(EditAccountList { account_list_id, add, object_id }, rest))))
    }

    #[verifier::opaque]
    open spec fn spec_put(value: EditAccountList) -> Written {
        also(also(u32::spec_put(value.account_list_id),
            bool::spec_put(value.add)),
            u32::spec_put(value.object_id))
    }

    open spec fn round_trips(value: EditAccountList, rest: Seq<u8>) -> bool {
        let rest3 = rest;
        let rest2 = u32::spec_put(value.object_id).bytes + rest3;
        let rest1 = bool::spec_put(value.add).bytes + rest2;
        &&& u32::round_trips(value.account_list_id, rest1)
        &&& bool::round_trips(value.add, rest2)
        &&& u32::round_trips(value.object_id, rest3)
    }

    fn get_be(bytes: &mut Cursor) -> (r: Result<EditAccountList, Error>) {
        reveal(<EditAccountList as Adapter>::spec_get);
        let account_list_id = u32::get_be(bytes)?;
        let add = bool::get_be(bytes)?;
        let object_id = u32::get_be(bytes)?;
        Ok(EditAccountList { account_list_id, add, object_id })
    }

    fn put_be(&self, buffer: &mut Vec<u8>) -> (r: Result<(), Error>) {
        reveal(<EditAccountList as Adapter>::spec_put);
        self.account_list_id.put_be(buffer)?;
        let ghost written = u32::spec_put(self.deep_view().account_list_id).bytes;
        proof {
            lemma_add_assoc(old(buffer)@, written, bool::spec_put(self.deep_view().add).bytes);
        }
        self.add.put_be(buffer)?;
        let ghost written = written + bool::spec_put(self.deep_view().add).bytes;
        proof {
            lemma_add_assoc(old(buffer)@, written, u32::spec_put(self.deep_view().object_id).bytes);
        }
        self.object_id.put_be(buffer)?;
        Ok(())
    }

    proof fn lemma_round_trip(value: EditAccountList, rest: Seq<u8>) {
        reveal(<EditAccountList as Adapter>::spec_get);
        reveal(<EditAccountList as Adapter>::spec_put);
        let rest3 = rest;
        let rest2 = u32::spec_put(value.object_id).bytes + rest3;
        let rest1 = bool::spec_put(value.add).bytes + rest2;
        let front1 = u32::spec_put(value.account_list_id).bytes;
        let front2 = front1 + bool::spec_put(value.add).bytes;
        lemma_add_assoc(front2, u32::spec_put(value.object_id).bytes, rest3);
        lemma_add_assoc(front1, bool::spec_put(value.add).bytes, rest2);
        u32::lemma_round_trip(value.account_list_id, rest1);
        bool::lemma_round_trip(value.add, rest2);
        u32::lemma_round_trip(value.object_id, rest3);
    }
}

impl PacketData for EditAccountList {
    open spec fn spec_packet_type() -> PacketType {
        PacketType::EditAccountList
    }

    open spec fn spec_wrap(value: EditAccountList) -> PacketModel {
        PacketModel::EditAccountList(value)
    }

    fn packet_type() -> (kind: PacketType) {
        PacketType::EditAccountList
    }

    fn into_packet(self) -> (packet: Packet) {
        Packet::EditAccountList(self)
    }

    fn from_packet(packet: Packet) -> (r: Result<EditAccountList, Packet>) {
        match packet {
            Packet::EditAccountList(v) => Ok(v),
            p => Err(p),
        }
    }

    fn from_packet_ref(packet: &Packet) -> (r: Result<&EditAccountList, &Packet>) {
        match packet {
            Packet::EditAccountList(v) => Ok(v),
            p => Err(p),
        }
    }
}

/// The `EnemyHit` packet.
#[derive(Debug, Clone, Copy, PartialEq, Eq, Structural)]
pub struct EnemyHit {
    pub time: u32,
    pub bullet_id: u8,
    pub target_id: u32,
    pub kill: bool,
}

impl DeepView for EnemyHit {
    type V = EnemyHit;

    open spec fn deep_view(&self) -> EnemyHit {
        *self
    }
}

impl Adapter for EnemyHit {
    #[verifier::opaque]
    open spec fn spec_get(input: Seq<u8>) -> Read<EnemyHit, Error> {
        then(u32::spec_get(input), |time: u32, rest: Seq<u8>|
            then(u8::spec_get(rest), |bullet_id: u8, rest: Seq<u8>|
                then(u32::spec_get(rest), |target_id: u32, rest: Seq<u8>|
                    then(bool::spec_get(rest), |kill: bool, rest: Seq<u8>|
                        done(EnemyHit { time, bullet_id, target_id, kill }, rest)))))
    }

    #[verifier::opaque]
    open spec fn spec_put(value: EnemyHit) -> Written {
        also(also(also(u32::spec_put(value.time),
            u8::spec_put(value.bullet_id)),
            u32::spec_put(value.target_id)),
            bool::spec_put(value.kill))
    }

    open spec fn round_trips(value: EnemyHit, rest: Seq<u8>) -> bool {
        let rest4 = rest;
        let rest3 = bool::spec_put(value.kill).bytes + rest4;
        let rest2 = u32::spec_put(value.target_id).bytes + rest3;
        let rest1 = u8::spec_put(value.bullet_id).bytes + rest2;
        &&& u32::round_trips(value.time, rest1)
        &&& u8::round_trips(value.bullet_id, rest2)
        &&& u32::round_trips(value.target_id, rest3)
        &&& bool::round_trips(value.kill, rest4)
    }

    fn get_be(bytes: &mut Cursor) -> (r: Result<EnemyHit, Error>) {
        reveal(<EnemyHit as Adapter>::spec_get);
        let time = u32::get_be(bytes)?;
        let bullet_id = u8::get_be(bytes)?;
        let target_id = u32::get_be(bytes)?;
        let kill = bool::get_be(bytes)?;
        Ok(EnemyHit { time, bullet_id, target_id, kill })
    }

    fn put_be(&self, buffer: &mut Vec<u8>) -> (r: Result<(), Error>) {
        reveal(<EnemyHit as Adapter>::spec_put);
        self.time.put_be(buffer)?;
        let ghost written = u32::spec_put(self.deep_view().time).bytes;
        proof {
            lemma_add_assoc(old(buffer)@, written, u8::spec_put(self.deep_view().bullet_id).bytes);
        }
        self.bullet_id.put_be(buffer)?;
        let ghost written = written + u8::spec_put(self.deep_view().bullet_id).bytes;
        proof {
            lemma_add_assoc(old(buffer)@, written, u32::spec_put(self.deep_view().target_id).bytes);
        }
        self.target_id.put_be(buffer)?;
        let ghost written = written + u32::spec_put(self.deep_view().target_id).bytes;
        proof {
            lemma_add_assoc(old(buffer)@, written, bool::spec_put(self.deep_view().kill).bytes);
        }
        self.kill.put_be(buffer)?;
        Ok(())
    }

    proof fn lemma_round_trip(value: EnemyHit, rest: Seq<u8>) {
        reveal(<EnemyHit as Adapter>::spec_get);
        reveal(<EnemyHit as Adapter>::spec_put);
        let rest4 = rest;
        let rest3 = bool::spec_put(value.kill).bytes + rest4;
        let rest2 = u32::spec_put(value.target_id).bytes + rest3;
        let rest1 = u8::spec_put(value.bullet_id).bytes + rest2;
        let front1 = u32::spec_put(value.time).bytes;
        let front2 = front1 + u8::spec_put(value.bullet_id).bytes;
        let front3 = front2 + u32::spec_put(value.target_id).bytes;
        lemma_add_assoc(front3, bool::spec_put(value.kill).bytes, rest4);
        lemma_add_assoc(front2, u32::spec_put(value.target_id).bytes, rest3);
        lemma_add_assoc(front1, u8::spec_put(value.bullet_id).bytes, rest2);
        u32::lemma_round_trip(value.time, rest1);
        u8::lemma_round_trip(value.bullet_id, rest2);
        u32::lemma_round_trip(value.target_id, rest3);
        bool::lemma_round_trip(value.kill, rest4);
    }
}

impl PacketData for EnemyHit {
    open spec fn spec_packet_type() -> PacketType {
        PacketType::EnemyHit
    }

    open spec fn spec_wrap(value: EnemyHit) -> PacketModel {
        PacketModel::EnemyHit(value)
    }

    fn packet_type() -> (kind: PacketType) {
        PacketType::EnemyHit
    }

    fn into_packet(self) -> (packet: Packet) {
        Packet::EnemyHit(self)
    }

    fn from_packet(packet: Packet) -> (r: Result<EnemyHit, Packet>) {
        match packet {
            Packet::EnemyHit(v) => Ok(v),
            p => Err(p),
        }
    }

    fn from_packet_ref(packet: &Packet) -> (r: Result<&EnemyHit, &Packet>) {
        match packet {
            Packet::EnemyHit(v) => Ok(v),
            p => Err(p),
        }
    }
}

/// The `EnterArena` packet.
#[derive(Debug, Clone, Copy, PartialEq, Eq, Structural)]
pub struct EnterArena {
    pub currency: u32,
}

impl DeepView for EnterArena {
    type V = EnterArena;

    open spec fn deep_view(&self) -> EnterArena {
        *self
    }
}

impl Adapter for EnterArena {
    #[verifier::opaque]
    open spec fn spec_get(input: Seq<u8>) -> Read<EnterArena, Error> {
        then(u32::spec_get(input), |currency: u32, rest: Seq<u8>|
            done(EnterArena { currency }, rest))
    }

    #[verifier::opaque]
    open spec fn spec_put(value: EnterArena) -> Written {
        u32::spec_put(value.currency)
    }

    open spec fn round_trips(value: EnterArena, rest: Seq<u8>) -> bool {
        let rest1 = rest;
        &&& u32::round_trips(value.currency, rest1)
    }

    fn get_be(bytes: &mut Cursor) -> (r: Result<EnterArena, Error>) {
        reveal(<EnterArena as Adapter>::spec_get);
        let currency = u32::get_be(bytes)?;
        Ok(EnterArena { currency })
    }

    fn put_be(&self, buffer: &mut Vec<u8>) -> (r: Result<(), Error>) {
        reveal(<EnterArena as Adapter>::spec_put);
        self.currency.put_be(buffer)?;
        Ok(())
    }

    proof fn lemma_round_trip(value: EnterArena, rest: Seq<u8>) {
        reveal(<EnterArena as Adapter>::spec_get);
        reveal(<EnterArena as Adapter>::spec_put);
        let rest1 = rest;
        u32::lemma_round_trip(value.currency, rest1);
    }
}

impl PacketData for EnterArena {
    open spec fn spec_packet_type() -> PacketType {
        PacketType::EnterArena
    }

    open spec fn spec_wrap(value: EnterArena) -> PacketModel {
        PacketModel::EnterArena(value)
    }

    fn packet_type() -> (kind: PacketType) {
        PacketType::EnterArena
    }

    fn into_packet(self) -> (packet: Packet) {
        Packet::EnterArena(self)
    }

    fn from_packet(packet: Packet) -> (r: Result<EnterArena, Packet>) {
        match packet {
            Packet::EnterArena(v) => Ok(v),
            p => Err(p),
        }
    }

    fn from_packet_ref(packet: &Packet) -> (r: Result<&EnterArena, &Packet>) {
        match packet {
            Packet::EnterArena(v) => Ok(v),
            p => Err(p),
        }
    }
}

/// The `Escape` packet.
#[derive(Debug, Clone, Copy, PartialEq, Eq, Structural)]
pub struct Escape {}

impl DeepView for Escape {
    type V = Escape;

    open spec fn deep_view(&self) -> Escape {
        *self
    }
}

impl Adapter for Escape {
    #[verifier::opaque]
    open spec fn spec_get(input: Seq<u8>) -> Read<Escape, Error> {
        done(Escape {}, input)
    }

    #[verifier::opaque]
    open spec fn spec_put(value: Escape) -> Written {
        wrote(Seq::empty())
    }

    open spec fn round_trips(value: Escape, rest: Seq<u8>) -> bool {
        true
    }

    fn get_be(bytes: &mut Cursor) -> (r: Result<Escape, Error>) {
        reveal(<Escape as Adapter>::spec_get);
        Ok(Escape {})
    }

    fn put_be(&self, buffer: &mut Vec<u8>) -> (r: Result<(), Error>) {
        reveal(<Escape as Adapter>::spec_put);
        proof {
            lemma_add_empty(buffer@);
        }
        Ok(())
    }

    proof fn lemma_round_trip(value: Escape, rest: Seq<u8>) {
        reveal(<Escape as Adapter>::spec_get);
        reveal(<Escape as Adapter>::spec_put);
        lemma_add_empty(rest);
    }
}

impl PacketData for Escape {
    open spec fn spec_packet_type() -> PacketType {
        PacketType::Escape
    }

    open spec fn spec_wrap(value: Escape) -> PacketModel {
        PacketModel::Escape(value)
    }

    fn packet_type() -> (kind: PacketType) {
        PacketType::Escape
    }

    fn into_packet(self) -> (packet: Packet) {
        Packet::Escape(self)
    }

    fn from_packet(packet: Packet) -> (r: Result<Escape, Packet>) {
        match packet {
            Packet::Escape(v) => Ok(v),
            p => Err(p),
        }
    }

    fn from_packet_ref(packet: &Packet) -> (r: Result<&Escape, &Packet>) {
        match packet {
            Packet::Escape(v) => Ok(v),
            p => Err(p),
        }
    }
}

/// The `GotoAck` packet.
#[derive(Debug, Clone, Copy, PartialEq, Eq, Structural)]
pub struct GotoAck {
    pub time: u32,
}

impl DeepView for GotoAck {
    type V = GotoAck;

    open spec fn deep_view(&self) -> GotoAck {
        *self
    }
}

impl Adapter for GotoAck {
    #[verifier::opaque]
    open spec fn spec_get(input: Seq<u8>) -> Read<GotoAck, Error> {
        then(u32::spec_get(input), |time: u32, rest: Seq<u8>|
            done(GotoAck { time }, rest))
    }

    #[verifier::opaque]
    open spec fn spec_put(value: GotoAck) -> Written {
        u32::spec_put(value.time)
    }

    open spec fn round_trips(value: GotoAck, rest: Seq<u8>) -> bool {
        let rest1 = rest;
        &&& u32::round_trips(value.time, rest1)
    }

    fn get_be(bytes: &mut Cursor) -> (r: Result<GotoAck, Error>) {
        reveal(<GotoAck as Adapter>::spec_get);
        let time = u32::get_be(bytes)?;
        Ok(GotoAck { time })
    }

    fn put_be(&self, buffer: &mut Vec<u8>) -> (r: Result<(), Error>) {
        reveal(<GotoAck as Adapter>::spec_put);
        self.time.put_be(buffer)?;
        Ok(())
    }

    proof fn lemma_round_trip(value: GotoAck, rest: Seq<u8>) {
        reveal(<GotoAck as Adapter>::spec_get);
        reveal(<GotoAck as Adapter>::spec_put);
        let rest1 = rest;
        u32::lemma_round_trip(value.time, rest1);
    }
}

impl PacketData for GotoAck {
    open spec fn spec_packet_type() -> PacketType {
        PacketType::GotoAck
    }

    open spec fn spec_wrap(value: GotoAck) -> PacketModel {
        PacketModel::GotoAck(value)
    }

    fn packet_type() -> (kind: PacketType) {
        PacketType::GotoAck
    }

    fn into_packet(self) -> (packet: Packet) {
        Packet::GotoAck(self)
    }

    fn from_packet(packet: Packet) -> (r: Result<GotoAck, Packet>) {
        match packet {
            Packet::GotoAck(v) => Ok(v),
            p => Err(p),
        }
    }

    fn from_packet_ref(packet: &Packet) -> (r: Result<&GotoAck, &Packet>) {
        match packet {
            Packet::GotoAck(v) => Ok(v),
            p => Err(p),
        }
    }
}

/// The `GroundDamage` packet.
#[derive(Debug, Clone, Copy, PartialEq, Eq, Structural)]
pub struct GroundDamage {
    pub time: u32,
    pub pos: WorldPosData,
}

impl DeepView for GroundDamage {
    type V = GroundDamage;

    open spec fn deep_view(&self) -> GroundDamage {
        *self
    }
}

impl Adapter for GroundDamage {
    #[verifier::opaque]
    open spec fn spec_get(input: Seq<u8>) -> Read<GroundDamage, Error> {
        then(u32::spec_get(input), |time: u32, rest: Seq<u8>|
            then(WorldPosData::spec_get(rest), |pos: WorldPosData, rest: Seq<u8>|
                done(GroundDamage { time, pos }, rest)))
    }

    #[verifier::opaque]
    open spec fn spec_put(value: GroundDamage) -> Written {
        also(u32::spec_put(value.time),
            WorldPosData::spec_put(value.pos))
    }

    open spec fn round_trips(value: GroundDamage, rest: Seq<u8>) -> bool {
        let rest2 = rest;
        let rest1 = WorldPosData::spec_put(value.pos).bytes + rest2;
        &&& u32::round_trips(value.time, rest1)
        &&& WorldPosData::round_trips(value.pos, rest2)
    }

    fn get_be(bytes: &mut Cursor) -> (r: Result<GroundDamage, Error>) {
        reveal(<GroundDamage as Adapter>::spec_get);
        let time = u32::get_be(bytes)?;
        let pos = WorldPosData::get_be(bytes)?;
        Ok(GroundDamage { time, pos })
    }

    fn put_be(&self, buffer: &mut Vec<u8>) -> (r: Result<(), Error>) {
        reveal(<GroundDamage as Adapter>::spec_put);
        self.time.put_be(buffer)?;
        let ghost written = u32::spec_put(self.deep_view().time).bytes;
        proof {
            lemma_add_assoc(old(buffer)@, written, WorldPosData::spec_put(self.deep_view().pos).bytes);
        }
        self.pos.put_be(buffer)?;
        Ok(())
    }

    proof fn lemma_round_trip(value: GroundDamage, rest: Seq<u8>) {
        reveal(<GroundDamage as Adapter>::spec_get);
        reveal(<GroundDamage as Adapter>::spec_put);
        let rest2 = rest;
        let rest1 = WorldPosData::spec_put(value.pos).bytes + rest2;
        let front1 = u32::spec_put(value.time).bytes;
        lemma_add_assoc(front1, WorldPosData::spec_put(value.pos).bytes, rest2);
        u32::lemma_round_trip(value.time, rest1);
        WorldPosData::lemma_round_trip(value.pos, rest2);
    }
}

impl PacketData for GroundDamage {
    open spec fn spec_packet_type() -> PacketType {
        PacketType::GroundDamage
    }

    open spec fn spec_wrap(value: GroundDamage) -> PacketModel {
        PacketModel::GroundDamage(value)
    }

    fn packet_type() -> (kind: PacketType) {
        PacketType::GroundDamage
    }

    fn into_packet(self) -> (packet: Packet) {
        Packet::GroundDamage(self)
    }

    fn from_packet(packet: Packet) -> (r: Result<GroundDamage, Packet>) {
        match packet {
            Packet::GroundDamage(v) => Ok(v),
            p => Err(p),
        }
    }

    fn from_packet_ref(packet: &Packet) -> (r: Result<&GroundDamage, &Packet>) {
        match packet {
            Packet::GroundDamage(v) => Ok(v),
            p => Err(p),
        }
    }
}

/// The `GuildInvite` packet.
#[derive(Debug, Clone, PartialEq, Eq)]
pub struct GuildInvite {
    pub name: RLE<String>,
}

/// The model of [`GuildInvite`].
pub struct GuildInviteModel {
    pub name: Seq<char>,
}

impl DeepView for GuildInvite {
    type V = GuildInviteModel;

    open spec fn deep_view(&self) -> GuildInviteModel {
        GuildInviteModel {
            name: self.name.deep_view(),
        }
    }
}

impl Adapter for GuildInvite {
    #[verifier::opaque]
    open spec fn spec_get(input: Seq<u8>) -> Read<GuildInviteModel, Error> {
        then(RLE::<String, u16>::spec_get(input), |name: Seq<char>, rest: Seq<u8>|
            done(GuildInviteModel { name }, rest))
    }

    #[verifier::opaque]
    open spec fn spec_put(value: GuildInviteModel) -> Written {
        RLE::<String, u16>::spec_put(value.name)
    }

    open spec fn round_trips(value: GuildInviteModel, rest: Seq<u8>) -> bool {
        let rest1 = rest;
        &&& RLE::<String, u16>::round_trips(value.name, rest1)
    }

    fn get_be(bytes: &mut Cursor) -> (r: Result<GuildInvite, Error>) {
        reveal(<GuildInvite as Adapter>::spec_get);
        let name = RLE::<String, u16>::get_be(bytes)?;
        Ok(GuildInvite { name })
    }

    fn put_be(&self, buffer: &mut Vec<u8>) -> (r: Result<(), Error>) {
        reveal(<GuildInvite as Adapter>::spec_put);
        self.name.put_be(buffer)?;
        Ok(())
    }

    proof fn lemma_round_trip(value: GuildInviteModel, rest: Seq<u8>) {
        reveal(<GuildInvite as Adapter>::spec_get);
        reveal(<GuildInvite as Adapter>::spec_put);
        let rest1 = rest;
        RLE::<String, u16>::lemma_round_trip(value.name, rest1);
    }
}

impl PacketData for GuildInvite {
    open spec fn spec_packet_type() -> PacketType {
        PacketType::GuildInvite
    }

    open spec fn spec_wrap(value: GuildInviteModel) -> PacketModel {
        PacketModel::GuildInvite(value)
    }

    fn packet_type() -> (kind: PacketType) {
        PacketType::GuildInvite
    }

    fn into_packet(self) -> (packet: Packet) {
        Packet::GuildInvite(self)
    }

    fn from_packet(packet: Packet) -> (r: Result<GuildInvite, Packet>) {
        match packet {
            Packet::GuildInvite(v) => Ok(v),
            p => Err(p),
        }
    }

    fn from_packet_ref(packet: &Packet) -> (r: Result<&GuildInvite, &Packet>) {
        match packet {
            Packet::GuildInvite(v) => Ok(v),
            p => Err(p),
        }
    }
}

/// The `GuildRemove` packet.
#[derive(Debug, Clone, PartialEq, Eq)]
pub struct GuildRemove {
    pub name: RLE<String>,
}

/// The model of [`GuildRemove`].
pub struct GuildRemoveModel {
    pub name: Seq<char>,
}

impl DeepView for GuildRemove {
    type V = GuildRemoveModel;

    open spec fn deep_view(&self) -> GuildRemoveModel {
        GuildRemoveModel {
            name: self.name.deep_view(),
        }
    }
}

impl Adapter for GuildRemove {
    #[verifier::opaque]
    open spec fn spec_get(input: Seq<u8>) -> Read<GuildRemoveModel, Error> {
        then(RLE::<String, u16>::spec_get(input), |name: Seq<char>, rest: Seq<u8>|
            done(GuildRemoveModel { name }, rest))
    }

    #[verifier::opaque]
    open spec fn spec_put(value: GuildRemoveModel) -> Written {
        RLE::<String, u16>::spec_put(value.name)
    }

    open spec fn round_trips(value: GuildRemoveModel, rest: Seq<u8>) -> bool {
        let rest1 = rest;
        &&& RLE::<String, u16>::round_trips(value.name, rest1)
    }

    fn get_be(bytes: &mut Cursor) -> (r: Result<GuildRemove, Error>) {
        reveal(<GuildRemove as Adapter>::spec_get);
        let name = RLE::<String, u16>::get_be(bytes)?;
        Ok(GuildRemove { name })
    }

    fn put_be(&self, buffer: &mut Vec<u8>) -> (r: Result<(), Error>) {
        reveal(<GuildRemove as Adapter>::spec_put);
        self.name.put_be(buffer)?;
        Ok(())
    }

    proof fn lemma_round_trip(value: GuildRemoveModel, rest: Seq<u8>) {
        reveal(<GuildRemove as Adapter>::spec_get);
        reveal(<GuildRemove as Adapter>::spec_put);
        let rest1 = rest;
        RLE::<String, u16>::lemma_round_trip(value.name, rest1);
    }
}

impl PacketData for GuildRemove {
    open spec fn spec_packet_type() -> PacketType {
        PacketType::GuildRemove
    }

    open spec fn spec_wrap(value: GuildRemoveModel) -> PacketModel {
        PacketModel::GuildRemove(value)
    }

    fn packet_type() -> (kind: PacketType) {
        PacketType::GuildRemove
    }

    fn into_packet(self) -> (packet: Packet) {
        Packet::GuildRemove(self)
    }

    fn from_packet(packet: Packet) -> (r: Result<GuildRemove, Packet>) {
        match packet {
            Packet::GuildRemove(v) => Ok(v),
            p => Err(p),
        }
    }

    fn from_packet_ref(packet: &Packet) -> (r: Result<&GuildRemove, &Packet>) {
        match packet {
            Packet::GuildRemove(v) => Ok(v),
            p => Err(p),
        }
    }
}

/// The `Hello` packet.
#[derive(Debug, Clone, PartialEq, Eq)]
pub struct Hello {
    pub build_version: RLE<String>,
    pub game_id: u32,
    pub guid: RLE<String>,
    pub rand1: u32,
    pub password: RLE<String>,
    pub rand2: u32,
    pub secret: RLE<String>,
    pub key_time: u32,
    pub key: RLE<Vec<u8>>,
    pub map_json: RLE<String, u32>,
    pub entry_tag: RLE<String>,
    pub game_net: RLE<String>,
    pub game_net_user_id: RLE<String>,
    pub play_platform: RLE<String>,
    pub platform_token: RLE<String>,
    pub user_token: RLE<String>,
}

/// The model of [`Hello`].
pub struct HelloModel {
    pub build_version: Seq<char>,
    pub game_id: u32,
    pub guid: Seq<char>,
    pub rand1: u32,
    pub password: Seq<char>,
    pub rand2: u32,
    pub secret: Seq<char>,
    pub key_time: u32,
    pub key: Seq<u8>,
    pub map_json: Seq<char>,
    pub entry_tag: Seq<char>,
    pub game_net: Seq<char>,
    pub game_net_user_id: Seq<char>,
    pub play_platform: Seq<char>,
    pub platform_token: Seq<char>,
    pub user_token: Seq<char>,
}

impl DeepView for Hello {
    type V = HelloModel;

    open spec fn deep_view(&self) -> HelloModel {
        HelloModel {
            build_version: self.build_version.deep_view(),
            game_id: self.game_id,
            guid: self.guid.deep_view(),
            rand1: self.rand1,
            password: self.password.deep_view(),
            rand2: self.rand2,
            secret: self.secret.deep_view(),
            key_time: self.key_time,
            key: self.key.deep_view(),
            map_json: self.map_json.deep_view(),
            entry_tag: self.entry_tag.deep_view(),
            game_net: self.game_net.deep_view(),
            game_net_user_id: self.game_net_user_id.deep_view(),
            play_platform: self.play_platform.deep_view(),
            platform_token: self.platform_token.deep_view(),
            user_token: self.user_token.deep_view(),
        }
    }
}

impl Adapter for Hello {
    #[verifier::opaque]
    open spec fn spec_get(input: Seq<u8>) -> Read<HelloModel, Error> {
        then(RLE::<String, u16>::spec_get(input), |build_version: Seq<char>, rest: Seq<u8>|
            then(u32::spec_get(rest), |game_id: u32, rest: Seq<u8>|
                then(RLE::<String, u16>::spec_get(rest), |guid: Seq<char>, rest: Seq<u8>|
                    then(u32::spec_get(rest), |rand1: u32, rest: Seq<u8>|
                        then(RLE::<String, u16>::spec_get(rest), |password: Seq<char>, rest: Seq<u8>|
                            then(u32::spec_get(rest), |rand2: u32, rest: Seq<u8>|
                                then(RLE::<String, u16>::spec_get(rest), |secret: Seq<char>, rest: Seq<u8>|
                                    then(u32::spec_get(rest), |key_time: u32, rest: Seq<u8>|
                                        then(RLE::<Vec<u8>, u16>::spec_get(rest), |key: Seq<u8>, rest: Seq<u8>|
                                            then(RLE::<String, u32>::spec_get(rest), |map_json: Seq<char>, rest: Seq<u8>|
                                                then(RLE::<String, u16>::spec_get(rest), |entry_tag: Seq<char>, rest: Seq<u8>|
                                                    then(RLE::<String, u16>::spec_get(rest), |game_net: Seq<char>, rest: Seq<u8>|
                                                        then(RLE::<String, u16>::spec_get(rest), |game_net_user_id: Seq<char>, rest: Seq<u8>|
                                                            then(RLE::<String, u16>::spec_get(rest), |play_platform: Seq<char>, rest: Seq<u8>|
                                                                then(RLE::<String, u16>::spec_get(rest), |platform_token: Seq<char>, rest: Seq<u8>|
                                                                    then(RLE::<String, u16>::spec_get(rest), |user_token: Seq<char>, rest: Seq<u8>|
                                                                        done(HelloModel { build_version, game_id, guid, rand1, password, rand2, secret, key_time, key, map_json, entry_tag, game_net, game_net_user_id, play_platform, platform_token, user_token }, rest)))))))))))))))))
    }

    #[verifier::opaque]
    open spec fn spec_put(value: HelloModel) -> Written {
        also(also(also(also(also(also(also(also(also(also(also(also(also(also(also(RLE::<String, u16>::spec_put(value.build_version),
            u32::spec_put(value.game_id)),
            RLE::<String, u16>::spec_put(value.guid)),
            u32::spec_put(value.rand1)),
            RLE::<String, u16>::spec_put(value.password)),
            u32::spec_put(value.rand2)),
            RLE::<String, u16>::spec_put(value.secret)),
            u32::spec_put(value.key_time)),
            RLE::<Vec<u8>, u16>::spec_put(value.key)),
            RLE::<String, u32>::spec_put(value.map_json)),
            RLE::<String, u16>::spec_put(value.entry_tag)),
            RLE::<String, u16>::spec_put(value.game_net)),
            RLE::<String, u16>::spec_put(value.game_net_user_id)),
            RLE::<String, u16>::spec_put(value.play_platform)),
            RLE::<String, u16>::spec_put(value.platform_token)),
            RLE::<String, u16>::spec_put(value.user_token))
    }

    open spec fn round_trips(value: HelloModel, rest: Seq<u8>) -> bool {
        let rest16 = rest;
        let rest15 = RLE::<String, u16>::spec_put(value.user_token).bytes + rest16;
        let rest14 = RLE::<String, u16>::spec_put(value.platform_token).bytes + rest15;
        let rest13 = RLE::<String, u16>::spec_put(value.play_platform).bytes + rest14;
        let rest12 = RLE::<String, u16>::spec_put(value.game_net_user_id).bytes + rest13;
        let rest11 = RLE::<String, u16>::spec_put(value.game_net).bytes + rest12;
        let rest10 = RLE::<String, u16>::spec_put(value.entry_tag).bytes + rest11;
        let rest9 = RLE::<String, u32>::spec_put(value.map_json).bytes + rest10;
        let rest8 = RLE::<Vec<u8>, u16>::spec_put(value.key).bytes + rest9;
        let rest7 = u32::spec_put(value.key_time).bytes + rest8;
        let rest6 = RLE::<String, u16>::spec_put(value.secret).bytes + rest7;
        let rest5 = u32::spec_put(value.rand2).bytes + rest6;
        let rest4 = RLE::<String, u16>::spec_put(value.password).bytes + rest5;
        let rest3 = u32::spec_put(value.rand1).bytes + rest4;
        let rest2 = RLE::<String, u16>::spec_put(value.guid).bytes + rest3;
        let rest1 = u32::spec_put(value.game_id).bytes + rest2;
        &&& RLE::<String, u16>::round_trips(value.build_version, rest1)
        &&& u32::round_trips(value.game_id, rest2)
        &&& RLE::<String, u16>::round_trips(value.guid, rest3)
        &&& u32::round_trips(value.rand1, rest4)
        &&& RLE::<String, u16>::round_trips(value.password, rest5)
        &&& u32::round_trips(value.rand2, rest6)
        &&& RLE::<String, u16>::round_trips(value.secret, rest7)
        &&& u32::round_trips(value.key_time, rest8)
        &&& RLE::<Vec<u8>, u16>::round_trips(value.key, rest9)
        &&& RLE::<String, u32>::round_trips(value.map_json, rest10)
        &&& RLE::<String, u16>::round_trips(value.entry_tag, rest11)
        &&& RLE::<String, u16>::round_trips(value.game_net, rest12)
        &&& RLE::<String, u16>::round_trips(value.game_net_user_id, rest13)
        &&& RLE::<String, u16>::round_trips(value.play_platform, rest14)
        &&& RLE::<String, u16>::round_trips(value.platform_token, rest15)
        &&& RLE::<String, u16>::round_trips(value.user_token, rest16)
    }

    fn get_be(bytes: &mut Cursor) -> (r: Result<Hello, Error>) {
        reveal(<Hello as Adapter>::spec_get);
        let build_version = RLE::<String, u16>::get_be(bytes)?;
        let game_id = u32::get_be(bytes)?;
        let guid = RLE::<String, u16>::get_be(bytes)?;
        let rand1 = u32::get_be(bytes)?;
        let password = RLE::<String, u16>::get_be(bytes)?;
        let rand2 = u32::get_be(bytes)?;
        let secret = RLE::<String, u16>::get_be(bytes)?;
        let key_time = u32::get_be(bytes)?;
        let key = RLE::<Vec<u8>, u16>::get_be(bytes)?;
        let map_json = RLE::<String, u32>::get_be(bytes)?;
        let entry_tag = RLE::<String, u16>::get_be(bytes)?;
        let game_net = RLE::<String, u16>::get_be(bytes)?;
        let game_net_user_id = RLE::<String, u16>::get_be(bytes)?;
        let play_platform = RLE::<String, u16>::get_be(bytes)?;
        let platform_token = RLE::<String, u16>::get_be(bytes)?;
        let user_token = RLE::<String, u16>::get_be(bytes)?;
        Ok(Hello { build_version, game_id, guid, rand1, password, rand2, secret, key_time, key, map_json, entry_tag, game_net, game_net_user_id, play_platform, platform_token, user_token })
    }

    fn put_be(&self, buffer: &mut Vec<u8>) -> (r: Result<(), Error>) {
        reveal(<Hello as Adapter>::spec_put);
        self.build_version.put_be(buffer)?;
        let ghost written = RLE::<String, u16>::spec_put(self.deep_view().build_version).bytes;
        proof {
            lemma_add_assoc(old(buffer)@, written, u32::spec_put(self.deep_view().game_id).bytes);
        }
        self.game_id.put_be(buffer)?;
        let ghost written = written + u32::spec_put(self.deep_view().game_id).bytes;
        proof {
            lemma_add_assoc(old(buffer)@, written, RLE::<String, u16>::spec_put(self.deep_view().guid).bytes);
        }
        self.guid.put_be(buffer)?;
        let ghost written = written + RLE::<String, u16>::spec_put(self.deep_view().guid).bytes;
        proof {
            lemma_add_assoc(old(buffer)@, written, u32::spec_put(self.deep_view().rand1).bytes);
        }
        self.rand1.put_be(buffer)?;
        let ghost written = written + u32::spec_put(self.deep_view().rand1).bytes;
        proof {
            lemma_add_assoc(old(buffer)@, written, RLE::<String, u16>::spec_put(self.deep_view().password).bytes);
        }
        self.password.put_be(buffer)?;
        let ghost written = written + RLE::<String, u16>::spec_put(self.deep_view().password).bytes;
        proof {
            lemma_add_assoc(old(buffer)@, written, u32::spec_put(self.deep_view().rand2).bytes);
        }
        self.rand2.put_be(buffer)?;
        let ghost written = written + u32::spec_put(self.deep_view().rand2).bytes;
        proof {
            lemma_add_assoc(old(buffer)@, written, RLE::<String, u16>::spec_put(self.deep_view().secret).bytes);
        }
        self.secret.put_be(buffer)?;
        let ghost written = written + RLE::<String, u16>::spec_put(self.deep_view().secret).bytes;
        proof {
            lemma_add_assoc(old(buffer)@, written, u32::spec_put(self.deep_view().key_time).bytes);
        }
        self.key_time.put_be(buffer)?;
        let ghost written = written + u32::spec_put(self.deep_view().key_time).bytes;
        proof {
            lemma_add_assoc(old(buffer)@, written, RLE::<Vec<u8>, u16>::spec_put(self.deep_view().key).bytes);
        }
        self.key.put_be(buffer)?;
        let ghost written = written + RLE::<Vec<u8>, u16>::spec_put(self.deep_view().key).bytes;
        proof {
            lemma_add_assoc(old(buffer)@, written, RLE::<String, u32>::spec_put(self.deep_view().map_json).bytes);
        }
        self.map_json.put_be(buffer)?;
        let ghost written = written + RLE::<String, u32>::spec_put(self.deep_view().map_json).bytes;
        proof {
            lemma_add_assoc(old(buffer)@, written, RLE::<String, u16>::spec_put(self.deep_view().entry_tag).bytes);
        }
        self.entry_tag.put_be(buffer)?;
        let ghost written = written + RLE::<String, u16>::spec_put(self.deep_view().entry_tag).bytes;
        proof {
            lemma_add_assoc(old(buffer)@, written, RLE::<String, u16>::spec_put(self.deep_view().game_net).bytes);
        }
        self.game_net.put_be(buffer)?;
        let ghost written = written + RLE::<String, u16>::spec_put(self.deep_view().game_net).bytes;
        proof {
            lemma_add_assoc(old(buffer)@, written, RLE::<String, u16>::spec_put(self.deep_view().game_net_user_id).bytes);
        }
        self.game_net_user_id.put_be(buffer)?;
        let ghost written = written + RLE::<String, u16>::spec_put(self.deep_view().game_net_user_id).bytes;
        proof {
            lemma_add_assoc(old(buffer)@, written, RLE::<String, u16>::spec_put(self.deep_view().play_platform).bytes);
        }
        self.play_platform.put_be(buffer)?;
        let ghost written = written + RLE::<String, u16>::spec_put(self.deep_view().play_platform).bytes;
        proof {
            lemma_add_assoc(old(buffer)@, written, RLE::<String, u16>::spec_put(self.deep_view().platform_token).bytes);
        }
        self.platform_token.put_be(buffer)?;
        let ghost written = written + RLE::<String, u16>::spec_put(self.deep_view().platform_token).bytes;
        proof {
            lemma_add_assoc(old(buffer)@, written, RLE::<String, u16>::spec_put(self.deep_view().user_token).bytes);
        }
        self.user_token.put_be(buffer)?;
        Ok(())
    }

    proof fn lemma_round_trip(value: HelloModel, rest: Seq<u8>) {
        reveal(<Hello as Adapter>::spec_get);
        reveal(<Hello as Adapter>::spec_put);
        let rest16 = rest;
        let rest15 = RLE::<String, u16>::spec_put(value.user_token).bytes + rest16;
        let rest14 = RLE::<String, u16>::spec_put(value.platform_token).bytes + rest15;
        let rest13 = RLE::<String, u16>::spec_put(value.play_platform).bytes + rest14;
        let rest12 = RLE::<String, u16>::spec_put(value.game_net_user_id).bytes + rest13;
        let rest11 = RLE::<String, u16>::spec_put(value.game_net).bytes + rest12;
        let rest10 = RLE::<String, u16>::spec_put(value.entry_tag).bytes + rest11;
        let rest9 = RLE::<String, u32>::spec_put(value.map_json).bytes + rest10;
        let rest8 = RLE::<Vec<u8>, u16>::spec_put(value.key).bytes + rest9;
        let rest7 = u32::spec_put(value.key_time).bytes + rest8;
        let rest6 = RLE::<String, u16>::spec_put(value.secret).bytes + rest7;
        let rest5 = u32::spec_put(value.rand2).bytes + rest6;
        let rest4 = RLE::<String, u16>::spec_put(value.password).bytes + rest5;
        let rest3 = u32::spec_put(value.rand1).bytes + rest4;
        let rest2 = RLE::<String, u16>::spec_put(value.guid).bytes + rest3;
        let rest1 = u32::spec_put(value.game_id).bytes + rest2;
        let front1 = RLE::<String, u16>::spec_put(value.build_version).bytes;
        let front2 = front1 + u32::spec_put(value.game_id).bytes;
        let front3 = front2 + RLE::<String, u16>::spec_put(value.guid).bytes;
        let front4 = front3 + u32::spec_put(value.rand1).bytes;
        let front5 = front4 + RLE::<String, u16>::spec_put(value.password).bytes;
        let front6 = front5 + u32::spec_put(value.rand2).bytes;
        let front7 = front6 + RLE::<String, u16>::spec_put(value.secret).bytes;
        let front8 = front7 + u32::spec_put(value.key_time).bytes;
        let front9 = front8 + RLE::<Vec<u8>, u16>::spec_put(value.key).bytes;
        let front10 = front9 + RLE::<String, u32>::spec_put(value.map_json).bytes;
        let front11 = front10 + RLE::<String, u16>::spec_put(value.entry_tag).bytes;
        let front12 = front11 + RLE::<String, u16>::spec_put(value.game_net).bytes;
        let front13 = front12 + RLE::<String, u16>::spec_put(value.game_net_user_id).bytes;
        let front14 = front13 + RLE::<String, u16>::spec_put(value.play_platform).bytes;
        let front15 = front14 + RLE::<String, u16>::spec_put(value.platform_token).bytes;
        lemma_add_assoc(front15, RLE::<String, u16>::spec_put(value.user_token).bytes, rest16);
        lemma_add_assoc(front14, RLE::<String, u16>::spec_put(value.platform_token).bytes, rest15);
        lemma_add_assoc(front13, RLE::<String, u16>::spec_put(value.play_platform).bytes, rest14);
        lemma_add_assoc(front12, RLE::<String, u16>::spec_put(value.game_net_user_id).bytes, rest13);
        lemma_add_assoc(front11, RLE::<String, u16>::spec_put(value.game_net).bytes, rest12);
        lemma_add_assoc(front10, RLE::<String, u16>::spec_put(value.entry_tag).bytes, rest11);
        lemma_add_assoc(front9, RLE::<String, u32>::spec_put(value.map_json).bytes, rest10);
        lemma_add_assoc(front8, RLE::<Vec<u8>, u16>::spec_put(value.key).bytes, rest9);
        lemma_add_assoc(front7, u32::spec_put(value.key_time).bytes, rest8);
        lemma_add_assoc(front6, RLE::<String, u16>::spec_put(value.secret).bytes, rest7);
        lemma_add_assoc(front5, u32::spec_put(value.rand2).bytes, rest6);
        lemma_add_assoc(front4, RLE::<String, u16>::spec_put(value.password).bytes, rest5);
        lemma_add_assoc(front3, u32::spec_put(value.rand1).bytes, rest4);
        lemma_add_assoc(front2, RLE::<String, u16>::spec_put(value.guid).bytes, rest3);
        lemma_add_assoc(front1, u32::spec_put(value.game_id).bytes, rest2);
        RLE::<String, u16>::lemma_round_trip(value.build_version, rest1);
        u32::lemma_round_trip(value.game_id, rest2);
        RLE::<String, u16>::lemma_round_trip(value.guid, rest3);
        u32::lemma_round_trip(value.rand1, rest4);
        RLE::<String, u16>::lemma_round_trip(value.password, rest5);
        u32::lemma_round_trip(value.rand2, rest6);
        RLE::<String, u16>::lemma_round_trip(value.secret, rest7);
        u32::lemma_round_trip(value.key_time, rest8);
        RLE::<Vec<u8>, u16>::lemma_round_trip(value.key, rest9);
        RLE::<String, u32>::lemma_round_trip(value.map_json, rest10);
        RLE::<String, u16>::lemma_round_trip(value.entry_tag, rest11);
        RLE::<String, u16>::lemma_round_trip(value.game_net, rest12);
        RLE::<String, u16>::lemma_round_trip(value.game_net_user_id, rest13);
        RLE::<String, u16>::lemma_round_trip(value.play_platform, rest14);
        RLE::<String, u16>::lemma_round_trip(value.platform_token, rest15);
        RLE::<String, u16>::lemma_round_trip(value.user_token, rest16);
    }
}

impl PacketData for Hello {
    open spec fn spec_packet_type() -> PacketType {
        PacketType::Hello
    }

    open spec fn spec_wrap(value: HelloModel) -> PacketModel {
        PacketModel::Hello(value)
    }

    fn packet_type() -> (kind: PacketType) {
        PacketType::Hello
    }

    fn into_packet(self) -> (packet: Packet) {
        Packet::Hello(self)
    }

    fn from_packet(packet: Packet) -> (r: Result<Hello, Packet>) {
        match packet {
            Packet::Hello(v) => Ok(v),
            p => Err(p),
        }
    }

    fn from_packet_ref(packet: &Packet) -> (r: Result<&Hello, &Packet>) {
        match packet {
            Packet::Hello(v) => Ok(v),
            p => Err(p),
        }
    }
}

/// The `InvDrop` packet.
#[derive(Debug, Clone, Copy, PartialEq, Eq, Structural)]
pub struct InvDrop {
    pub slot: SlotObjectData,
}

impl DeepView for InvDrop {
    type V = InvDrop;

    open spec fn deep_view(&self) -> InvDrop {
        *self
    }
}

impl Adapter for InvDrop {
    #[verifier::opaque]
    open spec fn spec_get(input: Seq<u8>) -> Read<InvDrop, Error> {
        then(SlotObjectData::spec_get(input), |slot: SlotObjectData, rest: Seq<u8>|
            done(InvDrop { slot }, rest))
    }

    #[verifier::opaque]
    open spec fn spec_put(value: InvDrop) -> Written {
        SlotObjectData::spec_put(value.slot)
    }

    open spec fn round_trips(value: InvDrop, rest: Seq<u8>) -> bool {
        let rest1 = rest;
        &&& SlotObjectData::round_trips(value.slot, rest1)
    }

    fn get_be(bytes: &mut Cursor) -> (r: Result<InvDrop, Error>) {
        reveal(<InvDrop as Adapter>::spec_get);
        let slot = SlotObjectData::get_be(bytes)?;
        Ok(InvDrop { slot })
    }

    fn put_be(&self, buffer: &mut Vec<u8>) -> (r: Result<(), Error>) {
        reveal(<InvDrop as Adapter>::spec_put);
        self.slot.put_be(buffer)?;
        Ok(())
    }

    proof fn lemma_round_trip(value: InvDrop, rest: Seq<u8>) {
        reveal(<InvDrop as Adapter>::spec_get);
        reveal(<InvDrop as Adapter>::spec_put);
        let rest1 = rest;
        SlotObjectData::lemma_round_trip(value.slot, rest1);
    }
}

impl PacketData for InvDrop {
    open spec fn spec_packet_type() -> PacketType {
        PacketType::InvDrop
    }

    open spec fn spec_wrap(value: InvDrop) -> PacketModel {
        PacketModel::InvDrop(value)
    }

    fn packet_type() -> (kind: PacketType) {
        PacketType::InvDrop
    }

    fn into_packet(self) -> (packet: Packet) {
        Packet::InvDrop(self)
    }

    fn from_packet(packet: Packet) -> (r: Result<InvDrop, Packet>) {
        match packet {
            Packet::InvDrop(v) => Ok(v),
            p => Err(p),
        }
    }

    fn from_packet_ref(packet: &Packet) -> (r: Result<&InvDrop, &Packet>) {
        match packet {
            Packet::InvDrop(v) => Ok(v),
            p => Err(p),
        }
    }
}

/// The `InvSwap` packet.
#[derive(Debug, Clone, Copy, PartialEq, Eq, Structural)]
pub struct InvSwap {
    pub time: u32,
    pub pos: WorldPosData,
    pub slot1: SlotObjectData,
    pub slot2: SlotObjectData,
}

impl DeepView for InvSwap {
    type V = InvSwap;

    open spec fn deep_view(&self) -> InvSwap {
        *self
    }
}

impl Adapter for InvSwap {
    #[verifier::opaque]
    open spec fn spec_get(input: Seq<u8>) -> Read<InvSwap, Error> {
        then(u32::spec_get(input), |time: u32, rest: Seq<u8>|
            then(WorldPosData::spec_get(rest), |pos: WorldPosData, rest: Seq<u8>|
                then(SlotObjectData::spec_get(rest), |slot1: SlotObjectData, rest: Seq<u8>|
                    then(SlotObjectData::spec_get(rest), |slot2: SlotObjectData, rest: Seq<u8>|
                        done(InvSwap { time, pos, slot1, slot2 }, rest)))))
    }

    #[verifier::opaque]
    open spec fn spec_put(value: InvSwap) -> Written {
        also(also(also(u32::spec_put(value.time),
            WorldPosData::spec_put(value.pos)),
            SlotObjectData::spec_put(value.slot1)),
            SlotObjectData::spec_put(value.slot2))
    }

    open spec fn round_trips(value: InvSwap, rest: Seq<u8>) -> bool {
        let rest4 = rest;
        let rest3 = SlotObjectData::spec_put(value.slot2).bytes + rest4;
        let rest2 = SlotObjectData::spec_put(value.slot1).bytes + rest3;
        let rest1 = WorldPosData::spec_put(value.pos).bytes + rest2;
        &&& u32::round_trips(value.time, rest1)
        &&& WorldPosData::round_trips(value.pos, rest2)
        &&& SlotObjectData::round_trips(value.slot1, rest3)
        &&& SlotObjectData::round_trips(value.slot2, rest4)
    }

    fn get_be(bytes: &mut Cursor) -> (r: Result<InvSwap, Error>) {
        reveal(<InvSwap as Adapter>::spec_get);
        let time = u32::get_be(bytes)?;
        let pos = WorldPosData::get_be(bytes)?;
        let slot1 = SlotObjectData::get_be(bytes)?;
        let slot2 = SlotObjectData::get_be(bytes)?;
        Ok(InvSwap { time, pos, slot1, slot2 })
    }

    fn put_be(&self, buffer: &mut Vec<u8>) -> (r: Result<(), Error>) {
        reveal(<InvSwap as Adapter>::spec_put);
        self.time.put_be(buffer)?;
        let ghost written = u32::spec_put(self.deep_view().time).bytes;
        proof {
            lemma_add_assoc(old(buffer)@, written, WorldPosData::spec_put(self.deep_view().pos).bytes);
        }
        self.pos.put_be(buffer)?;
        let ghost written = written + WorldPosData::spec_put(self.deep_view().pos).bytes;
        proof {
            lemma_add_assoc(old(buffer)@, written, SlotObjectData::spec_put(self.deep_view().slot1).bytes);
        }
        self.slot1.put_be(buffer)?;
        let ghost written = written + SlotObjectData::spec_put(self.deep_view().slot1).bytes;
        proof {
            lemma_add_assoc(old(buffer)@, written, SlotObjectData::spec_put(self.deep_view().slot2).bytes);
        }
        self.slot2.put_be(buffer)?;
        Ok(())
    }

    proof fn lemma_round_trip(value: InvSwap, rest: Seq<u8>) {
        reveal(<InvSwap as Adapter>::spec_get);
        reveal(<InvSwap as Adapter>::spec_put);
        let rest4 = rest;
        let rest3 = SlotObjectData::spec_put(value.slot2).bytes + rest4;
        let rest2 = SlotObjectData::spec_put(value.slot1).bytes + rest3;
        let rest1 = WorldPosData::spec_put(value.pos).bytes + rest2;
        let front1 = u32::spec_put(value.time).bytes;
        let front2 = front1 + WorldPosData::spec_put(value.pos).bytes;
        let front3 = front2 + SlotObjectData::spec_put(value.slot1).bytes;
        lemma_add_assoc(front3, SlotObjectData::spec_put(value.slot2).bytes, rest4);
        lemma_add_assoc(front2, SlotObjectData::spec_put(value.slot1).bytes, rest3);
        lemma_add_assoc(front1, WorldPosData::spec_put(value.pos).bytes, rest2);
        u32::lemma_round_trip(value.time, rest1);
        WorldPosData::lemma_round_trip(value.pos, rest2);
        SlotObjectData::lemma_round_trip(value.slot1, rest3);
        SlotObjectData::lemma_round_trip(value.slot2, rest4);
    }
}

impl PacketData for InvSwap {
    open spec fn spec_packet_type() -> PacketType {
        PacketType::InvSwap
    }

    open spec fn spec_wrap(value: InvSwap) -> PacketModel {
        PacketModel::InvSwap(value)
    }

    fn packet_type() -> (kind: PacketType) {
        PacketType::InvSwap
    }

    fn into_packet(self) -> (packet: Packet) {
        Packet::InvSwap(self)
    }

    fn from_packet(packet: Packet) -> (r: Result<InvSwap, Packet>) {
        match packet {
            Packet::InvSwap(v) => Ok(v),
            p => Err(p),
        }
    }

    fn from_packet_ref(packet: &Packet) -> (r: Result<&InvSwap, &Packet>) {
        match packet {
            Packet::InvSwap(v) => Ok(v),
            p => Err(p),
        }
    }
}

/// The `JoinGuild` packet.
#[derive(Debug, Clone, PartialEq, Eq)]
pub struct JoinGuild {
    pub guild_name: RLE<String>,
}

/// The model of [`JoinGuild`].
pub struct JoinGuildModel {
    pub guild_name: Seq<char>,
}

impl DeepView for JoinGuild {
    type V = JoinGuildModel;

    open spec fn deep_view(&self) -> JoinGuildModel {
        JoinGuildModel {
            guild_name: self.guild_name.deep_view(),
        }
    }
}

impl Adapter for JoinGuild {
    #[verifier::opaque]
    open spec fn spec_get(input: Seq<u8>) -> Read<JoinGuildModel, Error> {
        then(RLE::<String, u16>::spec_get(input), |guild_name: Seq<char>, rest: Seq<u8>|
            done(JoinGuildModel { guild_name }, rest))
    }

    #[verifier::opaque]
    open spec fn spec_put(value: JoinGuildModel) -> Written {
        RLE::<String, u16>::spec_put(value.guild_name)
    }

    open spec fn round_trips(value: JoinGuildModel, rest: Seq<u8>) -> bool {
        let rest1 = rest;
        &&& RLE::<String, u16>::round_trips(value.guild_name, rest1)
    }

    fn get_be(bytes: &mut Cursor) -> (r: Result<JoinGuild, Error>) {
        reveal(<JoinGuild as Adapter>::spec_get);
        let guild_name = RLE::<String, u16>::get_be(bytes)?;
        Ok(JoinGuild { guild_name })
    }

    fn put_be(&self, buffer: &mut Vec<u8>) -> (r: Result<(), Error>) {
        reveal(<JoinGuild as Adapter>::spec_put);
        self.guild_name.put_be(buffer)?;
        Ok(())
    }

    proof fn lemma_round_trip(value: JoinGuildModel, rest: Seq<u8>) {
        reveal(<JoinGuild as Adapter>::spec_get);
        reveal(<JoinGuild as Adapter>::spec_put);
        let rest1 = rest;
        RLE::<String, u16>::lemma_round_trip(value.guild_name, rest1);
    }
}

impl PacketData for JoinGuild {
    open spec fn spec_packet_type() -> PacketType {
        PacketType::JoinGuild
    }

    open spec fn spec_wrap(value: JoinGuildModel) -> PacketModel {
        PacketModel::JoinGuild(value)
    }

    fn packet_type() -> (kind: PacketType) {
        PacketType::JoinGuild
    }

    fn into_packet(self) -> (packet: Packet) {
        Packet::JoinGuild(self)
    }

    fn from_packet(packet: Packet) -> (r: Result<JoinGuild, Packet>) {
        match packet {
            Packet::JoinGuild(v) => Ok(v),
            p => Err(p),
        }
    }

    fn from_packet_ref(packet: &Packet) -> (r: Result<&JoinGuild, &Packet>) {
        match packet {
            Packet::JoinGuild(v) => Ok(v),
            p => Err(p),
        }
    }
}

/// The `KeyInfoRequest` packet.
#[derive(Debug, Clone, Copy, PartialEq, Eq, Structural)]
pub struct KeyInfoRequest {
    pub item_type: u32,
}

impl DeepView for KeyInfoRequest {
    type V = KeyInfoRequest;

    open spec fn deep_view(&self) -> KeyInfoRequest {
        *self
    }
}

impl Adapter for KeyInfoRequest {
    #[verifier::opaque]
    open spec fn spec_get(input: Seq<u8>) -> Read<KeyInfoRequest, Error> {
        then(u32::spec_get(input), |item_type: u32, rest: Seq<u8>|
            done(KeyInfoRequest { item_type }, rest))
    }

    #[verifier::opaque]
    open spec fn spec_put(value: KeyInfoRequest) -> Written {
        u32::spec_put(value.item_type)
    }

    open spec fn round_trips(value: KeyInfoRequest, rest: Seq<u8>) -> bool {
        let rest1 = rest;
        &&& u32::round_trips(value.item_type, rest1)
    }

    fn get_be(bytes: &mut Cursor) -> (r: Result<KeyInfoRequest, Error>) {
        reveal(<KeyInfoRequest as Adapter>::spec_get);
        let item_type = u32::get_be(bytes)?;
        Ok(KeyInfoRequest { item_type })
    }

    fn put_be(&self, buffer: &mut Vec<u8>) -> (r: Result<(), Error>) {
        reveal(<KeyInfoRequest as Adapter>::spec_put);
        self.item_type.put_be(buffer)?;
        Ok(())
    }

    proof fn lemma_round_trip(value: KeyInfoRequest, rest: Seq<u8>) {
        reveal(<KeyInfoRequest as Adapter>::spec_get);
        reveal(<KeyInfoRequest as Adapter>::spec_put);
        let rest1 = rest;
        u32::lemma_round_trip(value.item_type, rest1);
    }
}

impl PacketData for KeyInfoRequest {
    open spec fn spec_packet_type() -> PacketType {
        PacketType::KeyInfoRequest
    }

    open spec fn spec_wrap(value: KeyInfoRequest) -> PacketModel {
        PacketModel::KeyInfoRequest(value)
    }

    fn packet_type() -> (kind: PacketType) {
        PacketType::KeyInfoRequest
    }

    fn into_packet(self) -> (packet: Packet) {
        Packet::KeyInfoRequest(self)
    }

    fn from_packet(packet: Packet) -> (r: Result<KeyInfoRequest, Packet>) {
        match packet {
            Packet::KeyInfoRequest(v) => Ok(v),
            p => Err(p),
        }
    }

    fn from_packet_ref(packet: &Packet) -> (r: Result<&KeyInfoRequest, &Packet>) {
        match packet {
            Packet::KeyInfoRequest(v) => Ok(v),
            p => Err(p),
        }
    }
}

/// The `Load` packet.
#[derive(Debug, Clone, Copy, PartialEq, Eq, Structural)]
pub struct Load {
    pub char_id: u32,
    pub from_arena: bool,
}

impl DeepView for Load {
    type V = Load;

    open spec fn deep_view(&self) -> Load {
        *self
    }
}

impl Adapter for Load {
    #[verifier::opaque]
    open spec fn spec_get(input: Seq<u8>) -> Read<Load, Error> {
        then(u32::spec_get(input), |char_id: u32, rest: Seq<u8>|
            then(bool::spec_get(rest), |from_arena: bool, rest: Seq<u8>|
                done(Load { char_id, from_arena }, rest)))
    }

    #[verifier::opaque]
    open spec fn spec_put(value: Load) -> Written {
        also(u32::spec_put(value.char_id),
            bool::spec_put(value.from_arena))
    }

    open spec fn round_trips(value: Load, rest: Seq<u8>) -> bool {
        let rest2 = rest;
        let rest1 = bool::spec_put(value.from_arena).bytes + rest2;
        &&& u32::round_trips(value.char_id, rest1)
        &&& bool::round_trips(value.from_arena, rest2)
    }

    fn get_be(bytes: &mut Cursor) -> (r: Result<Load, Error>) {
        reveal(<Load as Adapter>::spec_get);
        let char_id = u32::get_be(bytes)?;
        let from_arena = bool::get_be(bytes)?;
        Ok(Load { char_id, from_arena })
    }

    fn put_be(&self, buffer: &mut Vec<u8>) -> (r: Result<(), Error>) {
        reveal(<Load as Adapter>::spec_put);
        self.char_id.put_be(buffer)?;
        let ghost written = u32::spec_put(self.deep_view().char_id).bytes;
        proof {
            lemma_add_assoc(old(buffer)@, written, bool::spec_put(self.deep_view().from_arena).bytes);
        }
        self.from_arena.put_be(buffer)?;
        Ok(())
    }

    proof fn lemma_round_trip(value: Load, rest: Seq<u8>) {
        reveal(<Load as Adapter>::spec_get);
        reveal(<Load as Adapter>::spec_put);
        let rest2 = rest;
        let rest1 = bool::spec_put(value.from_arena).bytes + rest2;
        let front1 = u32::spec_put(value.char_id).bytes;
        lemma_add_assoc(front1, bool::spec_put(value.from_arena).bytes, rest2);
        u32::lemma_round_trip(value.char_id, rest1);
        bool::lemma_round_trip(value.from_arena, rest2);
    }
}

impl PacketData for Load {
    open spec fn spec_packet_type() -> PacketType {
        PacketType::Load
    }

    open spec fn spec_wrap(value: Load) -> PacketModel {
        PacketModel::Load(value)
    }

    fn packet_type() -> (kind: PacketType) {
        PacketType::Load
    }

    fn into_packet(self) -> (packet: Packet) {
        Packet::Load(self)
    }

    fn from_packet(packet: Packet) -> (r: Result<Load, Packet>) {
        match packet {
            Packet::Load(v) => Ok(v),
            p => Err(p),
        }
    }

    fn from_packet_ref(packet: &Packet) -> (r: Result<&Load, &Packet>) {
        match packet {
            Packet::Load(v) => Ok(v),
            p => Err(p),
        }
    }
}

/// The `Move` packet.
#[derive(Debug, Clone, PartialEq, Eq)]
pub struct Move {
    pub tick_id: u32,
    pub time: u32,
    pub new_pos: WorldPosData,
    pub records: RLE<Vec<MoveRecord>>,
}

/// The model of [`Move`].
pub struct MoveModel {
    pub tick_id: u32,
    pub time: u32,
    pub new_pos: WorldPosData,
    pub records: Seq<MoveRecord>,
}

impl DeepView for Move {
    type V = MoveModel;

    open spec fn deep_view(&self) -> MoveModel {
        MoveModel {
            tick_id: self.tick_id,
            time: self.time,
            new_pos: self.new_pos,
            records: self.records.deep_view(),
        }
    }
}

impl Adapter for Move {
    #[verifier::opaque]
    open spec fn spec_get(input: Seq<u8>) -> Read<MoveModel, Error> {
        then(u32::spec_get(input), |tick_id: u32, rest: Seq<u8>|
            then(u32::spec_get(rest), |time: u32, rest: Seq<u8>|
                then(WorldPosData::spec_get(rest), |new_pos: WorldPosData, rest: Seq<u8>|
                    then(RLE::<Vec<MoveRecord>, u16>::spec_get(rest), |records: Seq<MoveRecord>, rest: Seq<u8>|
                        done(MoveModel { tick_id, time, new_pos, records }, rest)))))
    }

    #[verifier::opaque]
    open spec fn spec_put(value: MoveModel) -> Written {
        also(also(also(u32::spec_put(value.tick_id),
            u32::spec_put(value.time)),
            WorldPosData::spec_put(value.new_pos)),
            RLE::<Vec<MoveRecord>, u16>::spec_put(value.records))
    }

    open spec fn round_trips(value: MoveModel, rest: Seq<u8>) -> bool {
        let rest4 = rest;
        let rest3 = RLE::<Vec<MoveRecord>, u16>::spec_put(value.records).bytes + rest4;
        let rest2 = WorldPosData::spec_put(value.new_pos).bytes + rest3;
        let rest1 = u32::spec_put(value.time).bytes + rest2;
        &&& u32::round_trips(value.tick_id, rest1)
        &&& u32::round_trips(value.time, rest2)
        &&& WorldPosData::round_trips(value.new_pos, rest3)
        &&& RLE::<Vec<MoveRecord>, u16>::round_trips(value.records, rest4)
    }

    fn get_be(bytes: &mut Cursor) -> (r: Result<Move, Error>) {
        reveal(<Move as Adapter>::spec_get);
        let tick_id = u32::get_be(bytes)?;
        let time = u32::get_be(bytes)?;
        let new_pos = WorldPosData::get_be(bytes)?;
        let records = RLE::<Vec<MoveRecord>, u16>::get_be(bytes)?;
        Ok(Move { tick_id, time, new_pos, records })
    }

    fn put_be(&self, buffer: &mut Vec<u8>) -> (r: Result<(), Error>) {
        reveal(<Move as Adapter>::spec_put);
        self.tick_id.put_be(buffer)?;
        let ghost written = u32::spec_put(self.deep_view().tick_id).bytes;
        proof {
            lemma_add_assoc(old(buffer)@, written, u32::spec_put(self.deep_view().time).bytes);
        }
        self.time.put_be(buffer)?;
        let ghost written = written + u32::spec_put(self.deep_view().time).bytes;
        proof {
            lemma_add_assoc(old(buffer)@, written, WorldPosData::spec_put(self.deep_view().new_pos).bytes);
        }
        self.new_pos.put_be(buffer)?;
        let ghost written = written + WorldPosData::spec_put(self.deep_view().new_pos).bytes;
        proof {
            lemma_add_assoc(old(buffer)@, written, RLE::<Vec<MoveRecord>, u16>::spec_put(self.deep_view().records).bytes);
        }
        self.records.put_be(buffer)?;
        Ok(())
    }

    proof fn lemma_round_trip(value: MoveModel, rest: Seq<u8>) {
        reveal(<Move as Adapter>::spec_get);
        reveal(<Move as Adapter>::spec_put);
        let rest4 = rest;
        let rest3 = RLE::<Vec<MoveRecord>, u16>::spec_put(value.records).bytes + rest4;
        let rest2 = WorldPosData::spec_put(value.new_pos).bytes + rest3;
        let rest1 = u32::spec_put(value.time).bytes + rest2;
        let front1 = u32::spec_put(value.tick_id).bytes;
        let front2 = front1 + u32::spec_put(value.time).bytes;
        let front3 = front2 + WorldPosData::spec_put(value.new_pos).bytes;
        lemma_add_assoc(front3, RLE::<Vec<MoveRecord>, u16>::spec_put(value.records).bytes, rest4);
        lemma_add_assoc(front2, WorldPosData::spec_put(value.new_pos).bytes, rest3);
        lemma_add_assoc(front1, u32::spec_put(value.time).bytes, rest2);
        u32::lemma_round_trip(value.tick_id, rest1);
        u32::lemma_round_trip(value.time, rest2);
        WorldPosData::lemma_round_trip(value.new_pos, rest3);
        RLE::<Vec<MoveRecord>, u16>::lemma_round_trip(value.records, rest4);
    }
}

impl PacketData for Move {
    open spec fn spec_packet_type() -> PacketType {
        PacketType::Move
    }

    open spec fn spec_wrap(value: MoveModel) -> PacketModel {
        PacketModel::Move(value)
    }

    fn packet_type() -> (kind: PacketType) {
        PacketType::Move
    }

    fn into_packet(self) -> (packet: Packet) {
        Packet::Move(self)
    }

    fn from_packet(packet: Packet) -> (r: Result<Move, Packet>) {
        match packet {
            Packet::Move(v) => Ok(v),
            p => Err(p),
        }
    }

    fn from_packet_ref(packet: &Packet) -> (r: Result<&Move, &Packet>) {
        match packet {
            Packet::Move(v) => Ok(v),
            p => Err(p),
        }
    }
}

/// The `OtherHit` packet.
#[derive(Debug, Clone, Copy, PartialEq, Eq, Structural)]
pub struct OtherHit {
    pub time: u32,
    pub bullet_id: u8,
    pub object_id: u32,
    pub target_id: u32,
}

impl DeepView for OtherHit {
    type V = OtherHit;

    open spec fn deep_view(&self) -> OtherHit {
        *self
    }
}

impl Adapter for OtherHit {
    #[verifier::opaque]
    open spec fn spec_get(input: Seq<u8>) -> Read<OtherHit, Error> {
        then(u32::spec_get(input), |time: u32, rest: Seq<u8>|
            then(u8::spec_get(rest), |bullet_id: u8, rest: Seq<u8>|
                then(u32::spec_get(rest), |object_id: u32, rest: Seq<u8>|
                    then(u32::spec_get(rest), |target_id: u32, rest: Seq<u8>|
                        done(OtherHit { time, bullet_id, object_id, target_id }, rest)))))
    }

    #[verifier::opaque]
    open spec fn spec_put(value: OtherHit) -> Written {
        also(also(also(u32::spec_put(value.time),
            u8::spec_put(value.bullet_id)),
            u32::spec_put(value.object_id)),
            u32::spec_put(value.target_id))
    }

    open spec fn round_trips(value: OtherHit, rest: Seq<u8>) -> bool {
        let rest4 = rest;
        let rest3 = u32::spec_put(value.target_id).bytes + rest4;
        let rest2 = u32::spec_put(value.object_id).bytes + rest3;
        let rest1 = u8::spec_put(value.bullet_id).bytes + rest2;
        &&& u32::round_trips(value.time, rest1)
        &&& u8::round_trips(value.bullet_id, rest2)
        &&& u32::round_trips(value.object_id, rest3)
        &&& u32::round_trips(value.target_id, rest4)
    }

    fn get_be(bytes: &mut Cursor) -> (r: Result<OtherHit, Error>) {
        reveal(<OtherHit as Adapter>::spec_get);
        let time = u32::get_be(bytes)?;
        let bullet_id = u8::get_be(bytes)?;
        let object_id = u32::get_be(bytes)?;
        let target_id = u32::get_be(bytes)?;
        Ok(OtherHit { time, bullet_id, object_id, target_id })
    }

    fn put_be(&self, buffer: &mut Vec<u8>) -> (r: Result<(), Error>) {
        reveal(<OtherHit as Adapter>::spec_put);
        self.time.put_be(buffer)?;
        let ghost written = u32::spec_put(self.deep_view().time).bytes;
        proof {
            lemma_add_assoc(old(buffer)@, written, u8::spec_put(self.deep_view().bullet_id).bytes);
        }
        self.bullet_id.put_be(buffer)?;
        let ghost written = written + u8::spec_put(self.deep_view().bullet_id).bytes;
        proof {
            lemma_add_assoc(old(buffer)@, written, u32::spec_put(self.deep_view().object_id).bytes);
        }
        self.object_id.put_be(buffer)?;
        let ghost written = written + u32::spec_put(self.deep_view().object_id).bytes;
        proof {
            lemma_add_assoc(old(buffer)@, written, u32::spec_put(self.deep_view().target_id).bytes);
        }
        self.target_id.put_be(buffer)?;
        Ok(())
    }

    proof fn lemma_round_trip(value: OtherHit, rest: Seq<u8>) {
        reveal(<OtherHit as Adapter>::spec_get);
        reveal(<OtherHit as Adapter>::spec_put);
        let rest4 = rest;
        let rest3 = u32::spec_put(value.target_id).bytes + rest4;
        let rest2 = u32::spec_put(value.object_id).bytes + rest3;
        let rest1 = u8::spec_put(value.bullet_id).bytes + rest2;
        let front1 = u32::spec_put(value.time).bytes;
        let front2 = front1 + u8::spec_put(value.bullet_id).bytes;
        let front3 = front2 + u32::spec_put(value.object_id).bytes;
        lemma_add_assoc(front3, u32::spec_put(value.target_id).bytes, rest4);
        lemma_add_assoc(front2, u32::spec_put(value.object_id).bytes, rest3);
        lemma_add_assoc(front1, u8::spec_put(value.bullet_id).bytes, rest2);
        u32::lemma_round_trip(value.time, rest1);
        u8::lemma_round_trip(value.bullet_id, rest2);
        u32::lemma_round_trip(value.object_id, rest3);
        u32::lemma_round_trip(value.target_id, rest4);
    }
}

impl PacketData for OtherHit {
    open spec fn spec_packet_type() -> PacketType {
        PacketType::OtherHit
    }

    open spec fn spec_wrap(value: OtherHit) -> PacketModel {
        PacketModel::OtherHit(value)
    }

    fn packet_type() -> (kind: PacketType) {
        PacketType::OtherHit
    }

    fn into_packet(self) -> (packet: Packet) {
        Packet::OtherHit(self)
    }

    fn from_packet(packet: Packet) -> (r: Result<OtherHit, Packet>) {
        match packet {
            Packet::OtherHit(v) => Ok(v),
            p => Err(p),
        }
    }

    fn from_packet_ref(packet: &Packet) -> (r: Result<&OtherHit, &Packet>) {
        match packet {
            Packet::OtherHit(v) => Ok(v),
            p => Err(p),
        }
    }
}

/// The `PetChangeFormMsg` packet.
#[derive(Debug, Clone, Copy, PartialEq, Eq, Structural)]
pub struct PetChangeFormMsg {
    pub instance_id: u32,
    pub picked_new_pet_type: u32,
    pub item: SlotObjectData,
}

impl DeepView for PetChangeFormMsg {
    type V = PetChangeFormMsg;

    open spec fn deep_view(&self) -> PetChangeFormMsg {
        *self
    }
}

impl Adapter for PetChangeFormMsg {
    #[verifier::opaque]
    open spec fn spec_get(input: Seq<u8>) -> Read<PetChangeFormMsg, Error> {
        then(u32::spec_get(input), |instance_id: u32, rest: Seq<u8>|
            then(u32::spec_get(rest), |picked_new_pet_type: u32, rest: Seq<u8>|
                then(SlotObjectData::spec_get(rest), |item: SlotObjectData, rest: Seq<u8>|
                    done(PetChangeFormMsg { instance_id, picked_new_pet_type, item }, rest))))
    }

    #[verifier::opaque]
    open spec fn spec_put(value: PetChangeFormMsg) -> Written {
        also(also(u32::spec_put(value.instance_id),
            u32::spec_put(value.picked_new_pet_type)),
            SlotObjectData::spec_put(value.item))
    }

    open spec fn round_trips(value: PetChangeFormMsg, rest: Seq<u8>) -> bool {
        let rest3 = rest;
        let rest2 = SlotObjectData::spec_put(value.item).bytes + rest3;
        let rest1 = u32::spec_put(value.picked_new_pet_type).bytes + rest2;
        &&& u32::round_trips(value.instance_id, rest1)
        &&& u32::round_trips(value.picked_new_pet_type, rest2)
        &&& SlotObjectData::round_trips(value.item, rest3)
    }

    fn get_be(bytes: &mut Cursor) -> (r: Result<PetChangeFormMsg, Error>) {
        reveal(<PetChangeFormMsg as Adapter>::spec_get);
        let instance_id = u32::get_be(bytes)?;
        let picked_new_pet_type = u32::get_be(bytes)?;
        let item = SlotObjectData::get_be(bytes)?;
        Ok(PetChangeFormMsg { instance_id, picked_new_pet_type, item })
    }

    fn put_be(&self, buffer: &mut Vec<u8>) -> (r: Result<(), Error>) {
        reveal(<PetChangeFormMsg as Adapter>::spec_put);
        self.instance_id.put_be(buffer)?;
        let ghost written = u32::spec_put(self.deep_view().instance_id).bytes;
        proof {
            lemma_add_assoc(old(buffer)@, written, u32::spec_put(self.deep_view().picked_new_pet_type).bytes);
        }
        self.picked_new_pet_type.put_be(buffer)?;
        let ghost written = written + u32::spec_put(self.deep_view().picked_new_pet_type).bytes;
        proof {
            lemma_add_assoc(old(buffer)@, written, SlotObjectData::spec_put(self.deep_view().item).bytes);
        }
        self.item.put_be(buffer)?;
        Ok(())
    }

    proof fn lemma_round_trip(value: PetChangeFormMsg, rest: Seq<u8>) {
        reveal(<PetChangeFormMsg as Adapter>::spec_get);
        reveal(<PetChangeFormMsg as Adapter>::spec_put);
        let rest3 = rest;
        let rest2 = SlotObjectData::spec_put(value.item).bytes + rest3;
        let rest1 = u32::spec_put(value.picked_new_pet_type).bytes + rest2;
        let front1 = u32::spec_put(value.instance_id).bytes;
        let front2 = front1 + u32::spec_put(value.picked_new_pet_type).bytes;
        lemma_add_assoc(front2, SlotObjectData::spec_put(value.item).bytes, rest3);
        lemma_add_assoc(front1, u32::spec_put(value.picked_new_pet_type).bytes, rest2);
        u32::lemma_round_trip(value.instance_id, rest1);
        u32::lemma_round_trip(value.picked_new_pet_type, rest2);
        SlotObjectData::lemma_round_trip(value.item, rest3);
    }
}

impl PacketData for PetChangeFormMsg {
    open spec fn spec_packet_type() -> PacketType {
        PacketType::PetChangeFormMsg
    }

    open spec fn spec_wrap(value: PetChangeFormMsg) -> PacketModel {
        PacketModel::PetChangeFormMsg(value)
    }

    fn packet_type() -> (kind: PacketType) {
        PacketType::PetChangeFormMsg
    }

    fn into_packet(self) -> (packet: Packet) {
        Packet::PetChangeFormMsg(self)
    }

    fn from_packet(packet: Packet) -> (r: Result<PetChangeFormMsg, Packet>) {
        match packet {
            Packet::PetChangeFormMsg(v) => Ok(v),
            p => Err(p),
        }
    }

    fn from_packet_ref(packet: &Packet) -> (r: Result<&PetChangeFormMsg, &Packet>) {
        match packet {
            Packet::PetChangeFormMsg(v) => Ok(v),
            p => Err(p),
        }
    }
}

/// The `PetChangeSkinMsg` packet.
#[derive(Debug, Clone, Copy, PartialEq, Eq, Structural)]
pub struct PetChangeSkinMsg {
    pub pet_id: u32,
    pub skin_type: u32,
    pub currency: u32,
}

impl DeepView for PetChangeSkinMsg {
    type V = PetChangeSkinMsg;

    open spec fn deep_view(&self) -> PetChangeSkinMsg {
        *self
    }
}

impl Adapter for PetChangeSkinMsg {
    #[verifier::opaque]
    open spec fn spec_get(input: Seq<u8>) -> Read<PetChangeSkinMsg, Error> {
        then(u32::spec_get(input), |pet_id: u32, rest: Seq<u8>|
            then(u32::spec_get(rest), |skin_type: u32, rest: Seq<u8>|
                then(u32::spec_get(rest), |currency: u32, rest: Seq<u8>|
                    done(PetChangeSkinMsg { pet_id, skin_type, currency }, rest))))
    }

    #[verifier::opaque]
    open spec fn spec_put(value: PetChangeSkinMsg) -> Written {
        also(also(u32::spec_put(value.pet_id),
            u32::spec_put(value.skin_type)),
            u32::spec_put(value.currency))
    }

    open spec fn round_trips(value: PetChangeSkinMsg, rest: Seq<u8>) -> bool {
        let rest3 = rest;
        let rest2 = u32::spec_put(value.currency).bytes + rest3;
        let rest1 = u32::spec_put(value.skin_type).bytes + rest2;
        &&& u32::round_trips(value.pet_id, rest1)
        &&& u32::round_trips(value.skin_type, rest2)
        &&& u32::round_trips(value.currency, rest3)
    }

    fn get_be(bytes: &mut Cursor) -> (r: Result<PetChangeSkinMsg, Error>) {
        reveal(<PetChangeSkinMsg as Adapter>::spec_get);
        let pet_id = u32::get_be(bytes)?;
        let skin_type = u32::get_be(bytes)?;
        let currency = u32::get_be(bytes)?;
        Ok(PetChangeSkinMsg { pet_id, skin_type, currency })
    }

    fn put_be(&self, buffer: &mut Vec<u8>) -> (r: Result<(), Error>) {
        reveal(<PetChangeSkinMsg as Adapter>::spec_put);
        self.pet_id.put_be(buffer)?;
        let ghost written = u32::spec_put(self.deep_view().pet_id).bytes;
        proof {
            lemma_add_assoc(old(buffer)@, written, u32::spec_put(self.deep_view().skin_type).bytes);
        }
        self.skin_type.put_be(buffer)?;
        let ghost written = written + u32::spec_put(self.deep_view().skin_type).bytes;
        proof {
            lemma_add_assoc(old(buffer)@, written, u32::spec_put(self.deep_view().currency).bytes);
        }
        self.currency.put_be(buffer)?;
        Ok(())
    }

    proof fn lemma_round_trip(value: PetChangeSkinMsg, rest: Seq<u8>) {
        reveal(<PetChangeSkinMsg as Adapter>::spec_get);
        reveal(<PetChangeSkinMsg as Adapter>::spec_put);
        let rest3 = rest;
        let rest2 = u32::spec_put(value.currency).bytes + rest3;
        let rest1 = u32::spec_put(value.skin_type).bytes + rest2;
        let front1 = u32::spec_put(value.pet_id).bytes;
        let front2 = front1 + u32::spec_put(value.skin_type).bytes;
        lemma_add_assoc(front2, u32::spec_put(value.currency).bytes, rest3);
        lemma_add_assoc(front1, u32::spec_put(value.skin_type).bytes, rest2);
        u32::lemma_round_trip(value.pet_id, rest1);
        u32::lemma_round_trip(value.skin_type, rest2);
        u32::lemma_round_trip(value.currency, rest3);
    }
}

impl PacketData for PetChangeSkinMsg {
    open spec fn spec_packet_type() -> PacketType {
        PacketType::PetChangeSkinMsg
    }

    open spec fn spec_wrap(value: PetChangeSkinMsg) -> PacketModel {
        PacketModel::PetChangeSkinMsg(value)
    }

    fn packet_type() -> (kind: PacketType) {
        PacketType::PetChangeSkinMsg
    }

    fn into_packet(self) -> (packet: Packet) {
        Packet::PetChangeSkinMsg(self)
    }

    fn from_packet(packet: Packet) -> (r: Result<PetChangeSkinMsg, Packet>) {
        match packet {
            Packet::PetChangeSkinMsg(v) => Ok(v),
            p => Err(p),
        }
    }

    fn from_packet_ref(packet: &Packet) -> (r: Result<&PetChangeSkinMsg, &Packet>) {
        match packet {
            Packet::PetChangeSkinMsg(v) => Ok(v),
            p => Err(p),
        }
    }
}

/// The `PetUpgradeRequest` packet.
#[derive(Debug, Clone, PartialEq, Eq)]
pub struct PetUpgradeRequest {
    pub pet_trans_type: u8,
    pub pid_one: u32,
    pub pid_two: u32,
    pub object_id: u32,
    pub payment_trans_type: u8,
    pub slots: RLE<Vec<SlotObjectData>>,
}

/// The model of [`PetUpgradeRequest`].
pub struct PetUpgradeRequestModel {
    pub pet_trans_type: u8,
    pub pid_one: u32,
    pub pid_two: u32,
    pub object_id: u32,
    pub payment_trans_type: u8,
    pub slots: Seq<SlotObjectData>,
}

impl DeepView for PetUpgradeRequest {
    type V = PetUpgradeRequestModel;

    open spec fn deep_view(&self) -> PetUpgradeRequestModel {
        PetUpgradeRequestModel {
            pet_trans_type: self.pet_trans_type,
            pid_one: self.pid_one,
            pid_two: self.pid_two,
            object_id: self.object_id,
            payment_trans_type: self.payment_trans_type,
            slots: self.slots.deep_view(),
        }
    }
}

impl Adapter for PetUpgradeRequest {
    #[verifier::opaque]
    open spec fn spec_get(input: Seq<u8>) -> Read<PetUpgradeRequestModel, Error> {
        then(u8::spec_get(input), |pet_trans_type: u8, rest: Seq<u8>|
            then(u32::spec_get(rest), |pid_one: u32, rest: Seq<u8>|
                then(u32::spec_get(rest), |pid_two: u32, rest: Seq<u8>|
                    then(u32::spec_get(rest), |object_id: u32, rest: Seq<u8>|
                        then(u8::spec_get(rest), |payment_trans_type: u8, rest: Seq<u8>|
                            then(RLE::<Vec<SlotObjectData>, u16>::spec_get(rest), |slots: Seq<SlotObjectData>, rest: Seq<u8>|
                                done(PetUpgradeRequestModel { pet_trans_type, pid_one, pid_two, object_id, payment_trans_type, slots }, rest)))))))
    }

    #[verifier::opaque]
    open spec fn spec_put(value: PetUpgradeRequestModel) -> Written {
        also(also(also(also(also(u8::spec_put(value.pet_trans_type),
            u32::spec_put(value.pid_one)),
            u32::spec_put(value.pid_two)),
            u32::spec_put(value.object_id)),
            u8::spec_put(value.payment_trans_type)),
            RLE::<Vec<SlotObjectData>, u16>::spec_put(value.slots))
    }

    open spec fn round_trips(value: PetUpgradeRequestModel, rest: Seq<u8>) -> bool {
        let rest6 = rest;
        let rest5 = RLE::<Vec<SlotObjectData>, u16>::spec_put(value.slots).bytes + rest6;
        let rest4 = u8::spec_put(value.payment_trans_type).bytes + rest5;
        let rest3 = u32::spec_put(value.object_id).bytes + rest4;
        let rest2 = u32::spec_put(value.pid_two).bytes + rest3;
        let rest1 = u32::spec_put(value.pid_one).bytes + rest2;
        &&& u8::round_trips(value.pet_trans_type, rest1)
        &&& u32::round_trips(value.pid_one, rest2)
        &&& u32::round_trips(value.pid_two, rest3)
        &&& u32::round_trips(value.object_id, rest4)
        &&& u8::round_trips(value.payment_trans_type, rest5)
        &&& RLE::<Vec<SlotObjectData>, u16>::round_trips(value.slots, rest6)
    }

    fn get_be(bytes: &mut Cursor) -> (r: Result<PetUpgradeRequest, Error>) {
        reveal(<PetUpgradeRequest as Adapter>::spec_get);
        let pet_trans_type = u8::get_be(bytes)?;
        let pid_one = u32::get_be(bytes)?;
        let pid_two = u32::get_be(bytes)?;
        let object_id = u32::get_be(bytes)?;
        let payment_trans_type = u8::get_be(bytes)?;
        let slots = RLE::<Vec<SlotObjectData>, u16>::get_be(bytes)?;
        Ok(PetUpgradeRequest { pet_trans_type, pid_one, pid_two, object_id, payment_trans_type, slots })
    }

    fn put_be(&self, buffer: &mut Vec<u8>) -> (r: Result<(), Error>) {
        reveal(<PetUpgradeRequest as Adapter>::spec_put);
        self.pet_trans_type.put_be(buffer)?;
        let ghost written = u8::spec_put(self.deep_view().pet_trans_type).bytes;
        proof {
            lemma_add_assoc(old(buffer)@, written, u32::spec_put(self.deep_view().pid_one).bytes);
        }
        self.pid_one.put_be(buffer)?;
        let ghost written = written + u32::spec_put(self.deep_view().pid_one).bytes;
        proof {
            lemma_add_assoc(old(buffer)@, written, u32::spec_put(self.deep_view().pid_two).bytes);
        }
        self.pid_two.put_be(buffer)?;
        let ghost written = written + u32::spec_put(self.deep_view().pid_two).bytes;
        proof {
            lemma_add_assoc(old(buffer)@, written, u32::spec_put(self.deep_view().object_id).bytes);
        }
        self.object_id.put_be(buffer)?;
        let ghost written = written + u32::spec_put(self.deep_view().object_id).bytes;
        proof {
            lemma_add_assoc(old(buffer)@, written, u8::spec_put(self.deep_view().payment_trans_type).bytes);
        }
        self.payment_trans_type.put_be(buffer)?;
        let ghost written = written + u8::spec_put(self.deep_view().payment_trans_type).bytes;
        proof {
            lemma_add_assoc(old(buffer)@, written, RLE::<Vec<SlotObjectData>, u16>::spec_put(self.deep_view().slots).bytes);
        }
        self.slots.put_be(buffer)?;
        Ok(())
    }

    proof fn lemma_round_trip(value: PetUpgradeRequestModel, rest: Seq<u8>) {
        reveal(<PetUpgradeRequest as Adapter>::spec_get);
        reveal(<PetUpgradeRequest as Adapter>::spec_put);
        let rest6 = rest;
        let rest5 = RLE::<Vec<SlotObjectData>, u16>::spec_put(value.slots).bytes + rest6;
        let rest4 = u8::spec_put(value.payment_trans_type).bytes + rest5;
        let rest3 = u32::spec_put(value.object_id).bytes + rest4;
        let rest2 = u32::spec_put(value.pid_two).bytes + rest3;
        let rest1 = u32::spec_put(value.pid_one).bytes + rest2;
        let front1 = u8::spec_put(value.pet_trans_type).bytes;
        let front2 = front1 + u32::spec_put(value.pid_one).bytes;
        let front3 = front2 + u32::spec_put(value.pid_two).bytes;
        let front4 = front3 + u32::spec_put(value.object_id).bytes;
        let front5 = front4 + u8::spec_put(value.payment_trans_type).bytes;
        lemma_add_assoc(front5, RLE::<Vec<SlotObjectData>, u16>::spec_put(value.slots).bytes, rest6);
        lemma_add_assoc(front4, u8::spec_put(value.payment_trans_type).bytes, rest5);
        lemma_add_assoc(front3, u32::spec_put(value.object_id).bytes, rest4);
        lemma_add_assoc(front2, u32::spec_put(value.pid_two).bytes, rest3);
        lemma_add_assoc(front1, u32::spec_put(value.pid_one).bytes, rest2);
        u8::lemma_round_trip(value.pet_trans_type, rest1);
        u32::lemma_round_trip(value.pid_one, rest2);
        u32::lemma_round_trip(value.pid_two, rest3);
        u32::lemma_round_trip(value.object_id, rest4);
        u8::lemma_round_trip(value.payment_trans_type, rest5);
        RLE::<Vec<SlotObjectData>, u16>::lemma_round_trip(value.slots, rest6);
    }
}

impl PacketData for PetUpgradeRequest {
    open spec fn spec_packet_type() -> PacketType {
        PacketType::PetUpgradeRequest
    }

    open spec fn spec_wrap(value: PetUpgradeRequestModel) -> PacketModel {
        PacketModel::PetUpgradeRequest(value)
    }

    fn packet_type() -> (kind: PacketType) {
        PacketType::PetUpgradeRequest
    }

    fn into_packet(self) -> (packet: Packet) {
        Packet::PetUpgradeRequest(self)
    }

    fn from_packet(packet: Packet) -> (r: Result<PetUpgradeRequest, Packet>) {
        match packet {
            Packet::PetUpgradeRequest(v) => Ok(v),
            p => Err(p),
        }
    }

    fn from_packet_ref(packet: &Packet) -> (r: Result<&PetUpgradeRequest, &Packet>) {
        match packet {
            Packet::PetUpgradeRequest(v) => Ok(v),
            p => Err(p),
        }
    }
}

/// The `PlayerHit` packet.
#[derive(Debug, Clone, Copy, PartialEq, Eq, Structural)]
pub struct PlayerHit {
    pub bullet_id: u8,
    pub object_id: u32,
}

impl DeepView for PlayerHit {
    type V = PlayerHit;

    open spec fn deep_view(&self) -> PlayerHit {
        *self
    }
}

impl Adapter for PlayerHit {
    #[verifier::opaque]
    open spec fn spec_get(input: Seq<u8>) -> Read<PlayerHit, Error> {
        then(u8::spec_get(input), |bullet_id: u8, rest: Seq<u8>|
            then(u32::spec_get(rest), |object_id: u32, rest: Seq<u8>|
                done(PlayerHit { bullet_id, object_id }, rest)))
    }

    #[verifier::opaque]
    open spec fn spec_put(value: PlayerHit) -> Written {
        also(u8::spec_put(value.bullet_id),
            u32::spec_put(value.object_id))
    }

    open spec fn round_trips(value: PlayerHit, rest: Seq<u8>) -> bool {
        let rest2 = rest;
        let rest1 = u32::spec_put(value.object_id).bytes + rest2;
        &&& u8::round_trips(value.bullet_id, rest1)
        &&& u32::round_trips(value.object_id, rest2)
    }

    fn get_be(bytes: &mut Cursor) -> (r: Result<PlayerHit, Error>) {
        reveal(<PlayerHit as Adapter>::spec_get);
        let bullet_id = u8::get_be(bytes)?;
        let object_id = u32::get_be(bytes)?;
        Ok(PlayerHit { bullet_id, object_id })
    }

    fn put_be(&self, buffer: &mut Vec<u8>) -> (r: Result<(), Error>) {
        reveal(<PlayerHit as Adapter>::spec_put);
        self.bullet_id.put_be(buffer)?;
        let ghost written = u8::spec_put(self.deep_view().bullet_id).bytes;
        proof {
            lemma_add_assoc(old(buffer)@, written, u32::spec_put(self.deep_view().object_id).bytes);
        }
        self.object_id.put_be(buffer)?;
        Ok(())
    }

    proof fn lemma_round_trip(value: PlayerHit, rest: Seq<u8>) {
        reveal(<PlayerHit as Adapter>::spec_get);
        reveal(<PlayerHit as Adapter>::spec_put);
        let rest2 = rest;
        let rest1 = u32::spec_put(value.object_id).bytes + rest2;
        let front1 = u8::spec_put(value.bullet_id).bytes;
        lemma_add_assoc(front1, u32::spec_put(value.object_id).bytes, rest2);
        u8::lemma_round_trip(value.bullet_id, rest1);
        u32::lemma_round_trip(value.object_id, rest2);
    }
}

impl PacketData for PlayerHit {
    open spec fn spec_packet_type() -> PacketType {
        PacketType::PlayerHit
    }

    open spec fn spec_wrap(value: PlayerHit) -> PacketModel {
        PacketModel::PlayerHit(value)
    }

    fn packet_type() -> (kind: PacketType) {
        PacketType::PlayerHit
    }

    fn into_packet(self) -> (packet: Packet) {
        Packet::PlayerHit(self)
    }

    fn from_packet(packet: Packet) -> (r: Result<PlayerHit, Packet>) {
        match packet {
            Packet::PlayerHit(v) => Ok(v),
            p => Err(p),
        }
    }

    fn from_packet_ref(packet: &Packet) -> (r: Result<&PlayerHit, &Packet>) {
        match packet {
            Packet::PlayerHit(v) => Ok(v),
            p => Err(p),
        }
    }
}

/// The `PlayerShoot` packet.
#[derive(Debug, Clone, Copy, PartialEq, Eq, Structural)]
pub struct PlayerShoot {
    pub time: u32,
    pub bullet_id: u8,
    pub container_type: u16,
    pub starting_pos: WorldPosData,
    pub angle: F32,
}

impl DeepView for PlayerShoot {
    type V = PlayerShoot;

    open spec fn deep_view(&self) -> PlayerShoot {
        *self
    }
}

impl Adapter for PlayerShoot {
    #[verifier::opaque]
    open spec fn spec_get(input: Seq<u8>) -> Read<PlayerShoot, Error> {
        then(u32::spec_get(input), |time: u32, rest: Seq<u8>|
            then(u8::spec_get(rest), |bullet_id: u8, rest: Seq<u8>|
                then(u16::spec_get(rest), |container_type: u16, rest: Seq<u8>|
                    then(WorldPosData::spec_get(rest), |starting_pos: WorldPosData, rest: Seq<u8>|
                        then(F32::spec_get(rest), |angle: F32, rest: Seq<u8>|
                            done(PlayerShoot { time, bullet_id, container_type, starting_pos, angle }, rest))))))
    }

    #[verifier::opaque]
    open spec fn spec_put(value: PlayerShoot) -> Written {
        also(also(also(also(u32::spec_put(value.time),
            u8::spec_put(value.bullet_id)),
            u16::spec_put(value.container_type)),
            WorldPosData::spec_put(value.starting_pos)),
            F32::spec_put(value.angle))
    }

    open spec fn round_trips(value: PlayerShoot, rest: Seq<u8>) -> bool {
        let rest5 = rest;
        let rest4 = F32::spec_put(value.angle).bytes + rest5;
        let rest3 = WorldPosData::spec_put(value.starting_pos).bytes + rest4;
        let rest2 = u16::spec_put(value.container_type).bytes + rest3;
        let rest1 = u8::spec_put(value.bullet_id).bytes + rest2;
        &&& u32::round_trips(value.time, rest1)
        &&& u8::round_trips(value.bullet_id, rest2)
        &&& u16::round_trips(value.container_type, rest3)
        &&& WorldPosData::round_trips(value.starting_pos, rest4)
        &&& F32::round_trips(value.angle, rest5)
    }

    fn get_be(bytes: &mut Cursor) -> (r: Result<PlayerShoot, Error>) {
        reveal(<PlayerShoot as Adapter>::spec_get);
        let time = u32::get_be(bytes)?;
        let bullet_id = u8::get_be(bytes)?;
        let container_type = u16::get_be(bytes)?;
        let starting_pos = WorldPosData::get_be(bytes)?;
        let angle = F32::get_be(bytes)?;
        Ok(PlayerShoot { time, bullet_id, container_type, starting_pos, angle })
    }

    fn put_be(&self, buffer: &mut Vec<u8>) -> (r: Result<(), Error>) {
        reveal(<PlayerShoot as Adapter>::spec_put);
        self.time.put_be(buffer)?;
        let ghost written = u32::spec_put(self.deep_view().time).bytes;
        proof {
            lemma_add_assoc(old(buffer)@, written, u8::spec_put(self.deep_view().bullet_id).bytes);
        }
        self.bullet_id.put_be(buffer)?;
        let ghost written = written + u8::spec_put(self.deep_view().bullet_id).bytes;
        proof {
            lemma_add_assoc(old(buffer)@, written, u16::spec_put(self.deep_view().container_type).bytes);
        }
        self.container_type.put_be(buffer)?;
        let ghost written = written + u16::spec_put(self.deep_view().container_type).bytes;
        proof {
            lemma_add_assoc(old(buffer)@, written, WorldPosData::spec_put(self.deep_view().starting_pos).bytes);
        }
        self.starting_pos.put_be(buffer)?;
        let ghost written = written + WorldPosData::spec_put(self.deep_view().starting_pos).bytes;
        proof {
            lemma_add_assoc(old(buffer)@, written, F32::spec_put(self.deep_view().angle).bytes);
        }
        self.angle.put_be(buffer)?;
        Ok(())
    }

    proof fn lemma_round_trip(value: PlayerShoot, rest: Seq<u8>) {
        reveal(<PlayerShoot as Adapter>::spec_get);
        reveal(<PlayerShoot as Adapter>::spec_put);
        let rest5 = rest;
        let rest4 = F32::spec_put(value.angle).bytes + rest5;
        let rest3 = WorldPosData::spec_put(value.starting_pos).bytes + rest4;
        let rest2 = u16::spec_put(value.container_type).bytes + rest3;
        let rest1 = u8::spec_put(value.bullet_id).bytes + rest2;
        let front1 = u32::spec_put(value.time).bytes;
        let front2 = front1 + u8::spec_put(value.bullet_id).bytes;
        let front3 = front2 + u16::spec_put(value.container_type).bytes;
        let front4 = front3 + WorldPosData::spec_put(value.starting_pos).bytes;
        lemma_add_assoc(front4, F32::spec_put(value.angle).bytes, rest5);
        lemma_add_assoc(front3, WorldPosData::spec_put(value.starting_pos).bytes, rest4);
        lemma_add_assoc(front2, u16::spec_put(value.container_type).bytes, rest3);
        lemma_add_assoc(front1, u8::spec_put(value.bullet_id).bytes, rest2);
        u32::lemma_round_trip(value.time, rest1);
        u8::lemma_round_trip(value.bullet_id, rest2);
        u16::lemma_round_trip(value.container_type, rest3);
        WorldPosData::lemma_round_trip(value.starting_pos, rest4);
        F32::lemma_round_trip(value.angle, rest5);
    }
}

impl PacketData for PlayerShoot {
    open spec fn spec_packet_type() -> PacketType {
        PacketType::PlayerShoot
    }

    open spec fn spec_wrap(value: PlayerShoot) -> PacketModel {
        PacketModel::PlayerShoot(value)
    }

    fn packet_type() -> (kind: PacketType) {
        PacketType::PlayerShoot
    }

    fn into_packet(self) -> (packet: Packet) {
        Packet::PlayerShoot(self)
    }

    fn from_packet(packet: Packet) -> (r: Result<PlayerShoot, Packet>) {
        match packet {
            Packet::PlayerShoot(v) => Ok(v),
            p => Err(p),
        }
    }

    fn from_packet_ref(packet: &Packet) -> (r: Result<&PlayerShoot, &Packet>) {
        match packet {
            Packet::PlayerShoot(v) => Ok(v),
            p => Err(p),
        }
    }
}

/// The `PlayerText` packet.
#[derive(Debug, Clone, PartialEq, Eq)]
pub struct PlayerText {
    pub text: RLE<String>,
}

/// The model of [`PlayerText`].
pub struct PlayerTextModel {
    pub text: Seq<char>,
}

impl DeepView for PlayerText {
    type V = PlayerTextModel;

    open spec fn deep_view(&self) -> PlayerTextModel {
        PlayerTextModel {
            text: self.text.deep_view(),
        }
    }
}

impl Adapter for PlayerText {
    #[verifier::opaque]
    open spec fn spec_get(input: Seq<u8>) -> Read<PlayerTextModel, Error> {
        then(RLE::<String, u16>::spec_get(input), |text: Seq<char>, rest: Seq<u8>|
            done(PlayerTextModel { text }, rest))
    }

    #[verifier::opaque]
    open spec fn spec_put(value: PlayerTextModel) -> Written {
        RLE::<String, u16>::spec_put(value.text)
    }

    open spec fn round_trips(value: PlayerTextModel, rest: Seq<u8>) -> bool {
        let rest1 = rest;
        &&& RLE::<String, u16>::round_trips(value.text, rest1)
    }

    fn get_be(bytes: &mut Cursor) -> (r: Result<PlayerText, Error>) {
        reveal(<PlayerText as Adapter>::spec_get);
        let text = RLE::<String, u16>::get_be(bytes)?;
        Ok(PlayerText { text })
    }

    fn put_be(&self, buffer: &mut Vec<u8>) -> (r: Result<(), Error>) {
        reveal(<PlayerText as Adapter>::spec_put);
        self.text.put_be(buffer)?;
        Ok(())
    }

    proof fn lemma_round_trip(value: PlayerTextModel, rest: Seq<u8>) {
        reveal(<PlayerText as Adapter>::spec_get);
        reveal(<PlayerText as Adapter>::spec_put);
        let rest1 = rest;
        RLE::<String, u16>::lemma_round_trip(value.text, rest1);
    }
}

impl PacketData for PlayerText {
    open spec fn spec_packet_type() -> PacketType {
        PacketType::PlayerText
    }

    open spec fn spec_wrap(value: PlayerTextModel) -> PacketModel {
        PacketModel::PlayerText(value)
    }

    fn packet_type() -> (kind: PacketType) {
        PacketType::PlayerText
    }

    fn into_packet(self) -> (packet: Packet) {
        Packet::PlayerText(self)
    }

    fn from_packet(packet: Packet) -> (r: Result<PlayerText, Packet>) {
        match packet {
            Packet::PlayerText(v) => Ok(v),
            p => Err(p),
        }
    }

    fn from_packet_ref(packet: &Packet) -> (r: Result<&PlayerText, &Packet>) {
        match packet {
            Packet::PlayerText(v) => Ok(v),
            p => Err(p),
        }
    }
}

/// The `QuestRedeem` packet.
#[derive(Debug, Clone, PartialEq, Eq)]
pub struct QuestRedeem {
    pub quest_id: RLE<String>,
    pub item: u32,
    pub slots: RLE<Vec<SlotObjectData>>,
}

/// The model of [`QuestRedeem`].
pub struct QuestRedeemModel {
    pub quest_id: Seq<char>,
    pub item: u32,
    pub slots: Seq<SlotObjectData>,
}

impl DeepView for QuestRedeem {
    type V = QuestRedeemModel;

    open spec fn deep_view(&self) -> QuestRedeemModel {
        QuestRedeemModel {
            quest_id: self.quest_id.deep_view(),
            item: self.item,
            slots: self.slots.deep_view(),
        }
    }
}

impl Adapter for QuestRedeem {
    #[verifier::opaque]
    open spec fn spec_get(input: Seq<u8>) -> Read<QuestRedeemModel, Error> {
        then(RLE::<String, u16>::spec_get(input), |quest_id: Seq<char>, rest: Seq<u8>|
            then(u32::spec_get(rest), |item: u32, rest: Seq<u8>|
                then(RLE::<Vec<SlotObjectData>, u16>::spec_get(rest), |slots: Seq<SlotObjectData>, rest: Seq<u8>|
                    done(QuestRedeemModel { quest_id, item, slots }, rest))))
    }

    #[verifier::opaque]
    open spec fn spec_put(value: QuestRedeemModel) -> Written {
        also(also(RLE::<String, u16>::spec_put(value.quest_id),
            u32::spec_put(value.item)),
            RLE::<Vec<SlotObjectData>, u16>::spec_put(value.slots))
    }

    open spec fn round_trips(value: QuestRedeemModel, rest: Seq<u8>) -> bool {
        let rest3 = rest;
        let rest2 = RLE::<Vec<SlotObjectData>, u16>::spec_put(value.slots).bytes + rest3;
        let rest1 = u32::spec_put(value.item).bytes + rest2;
        &&& RLE::<String, u16>::round_trips(value.quest_id, rest1)
        &&& u32::round_trips(value.item, rest2)
        &&& RLE::<Vec<SlotObjectData>, u16>::round_trips(value.slots, rest3)
    }

    fn get_be(bytes: &mut Cursor) -> (r: Result<QuestRedeem, Error>) {
        reveal(<QuestRedeem as Adapter>::spec_get);
        let quest_id = RLE::<String, u16>::get_be(bytes)?;
        let item = u32::get_be(bytes)?;
        let slots = RLE::<Vec<SlotObjectData>, u16>::get_be(bytes)?;
        Ok(QuestRedeem { quest_id, item, slots })
    }

    fn put_be(&self, buffer: &mut Vec<u8>) -> (r: Result<(), Error>) {
        reveal(<QuestRedeem as Adapter>::spec_put);
        self.quest_id.put_be(buffer)?;
        let ghost written = RLE::<String, u16>::spec_put(self.deep_view().quest_id).bytes;
        proof {
            lemma_add_assoc(old(buffer)@, written, u32::spec_put(self.deep_view().item).bytes);
        }
        self.item.put_be(buffer)?;
        let ghost written = written + u32::spec_put(self.deep_view().item).bytes;
        proof {
            lemma_add_assoc(old(buffer)@, written, RLE::<Vec<SlotObjectData>, u16>::spec_put(self.deep_view().slots).bytes);
        }
        self.slots.put_be(buffer)?;
        Ok(())
    }

    proof fn lemma_round_trip(value: QuestRedeemModel, rest: Seq<u8>) {
        reveal(<QuestRedeem as Adapter>::spec_get);
        reveal(<QuestRedeem as Adapter>::spec_put);
        let rest3 = rest;
        let rest2 = RLE::<Vec<SlotObjectData>, u16>::spec_put(value.slots).bytes + rest3;
        let rest1 = u32::spec_put(value.item).bytes + rest2;
        let front1 = RLE::<String, u16>::spec_put(value.quest_id).bytes;
        let front2 = front1 + u32::spec_put(value.item).bytes;
        lemma_add_assoc(front2, RLE::<Vec<SlotObjectData>, u16>::spec_put(value.slots).bytes, rest3);
        lemma_add_assoc(front1, u32::spec_put(value.item).bytes, rest2);
        RLE::<String, u16>::lemma_round_trip(value.quest_id, rest1);
        u32::lemma_round_trip(value.item, rest2);
        RLE::<Vec<SlotObjectData>, u16>::lemma_round_trip(value.slots, rest3);
    }
}

impl PacketData for QuestRedeem {
    open spec fn spec_packet_type() -> PacketType {
        PacketType::QuestRedeem
    }

    open spec fn spec_wrap(value: QuestRedeemModel) -> PacketModel {
        PacketModel::QuestRedeem(value)
    }

    fn packet_type() -> (kind: PacketType) {
        PacketType::QuestRedeem
    }

    fn into_packet(self) -> (packet: Packet) {
        Packet::QuestRedeem(self)
    }

    fn from_packet(packet: Packet) -> (r: Result<QuestRedeem, Packet>) {
        match packet {
            Packet::QuestRedeem(v) => Ok(v),
            p => Err(p),
        }
    }

    fn from_packet_ref(packet: &Packet) -> (r: Result<&QuestRedeem, &Packet>) {
        match packet {
            Packet::QuestRedeem(v) => Ok(v),
            p => Err(p),
        }
    }
}

/// The `QuestRoomMsg` packet.
#[derive(Debug, Clone, Copy, PartialEq, Eq, Structural)]
pub struct QuestRoomMsg {}

impl DeepView for QuestRoomMsg {
    type V = QuestRoomMsg;

    open spec fn deep_view(&self) -> QuestRoomMsg {
        *self
    }
}

impl Adapter for QuestRoomMsg {
    #[verifier::opaque]
    open spec fn spec_get(input: Seq<u8>) -> Read<QuestRoomMsg, Error> {
        done(QuestRoomMsg {}, input)
    }

    #[verifier::opaque]
    open spec fn spec_put(value: QuestRoomMsg) -> Written {
        wrote(Seq::empty())
    }

    open spec fn round_trips(value: QuestRoomMsg, rest: Seq<u8>) -> bool {
        true
    }

    fn get_be(bytes: &mut Cursor) -> (r: Result<QuestRoomMsg, Error>) {
        reveal(<QuestRoomMsg as Adapter>::spec_get);
        Ok(QuestRoomMsg {})
    }

    fn put_be(&self, buffer: &mut Vec<u8>) -> (r: Result<(), Error>) {
        reveal(<QuestRoomMsg as Adapter>::spec_put);
        proof {
            lemma_add_empty(buffer@);
        }
        Ok(())
    }

    proof fn lemma_round_trip(value: QuestRoomMsg, rest: Seq<u8>) {
        reveal(<QuestRoomMsg as Adapter>::spec_get);
        reveal(<QuestRoomMsg as Adapter>::spec_put);
        lemma_add_empty(rest);
    }
}

impl PacketData for QuestRoomMsg {
    open spec fn spec_packet_type() -> PacketType {
        PacketType::QuestRoomMsg
    }

    open spec fn spec_wrap(value: QuestRoomMsg) -> PacketModel {
        PacketModel::QuestRoomMsg(value)
    }

    fn packet_type() -> (kind: PacketType) {
        PacketType::QuestRoomMsg
    }

    fn into_packet(self) -> (packet: Packet) {
        Packet::QuestRoomMsg(self)
    }

    fn from_packet(packet: Packet) -> (r: Result<QuestRoomMsg, Packet>) {
        match packet {
            Packet::QuestRoomMsg(v) => Ok(v),
            p => Err(p),
        }
    }

    fn from_packet_ref(packet: &Packet) -> (r: Result<&QuestRoomMsg, &Packet>) {
        match packet {
            Packet::QuestRoomMsg(v) => Ok(v),
            p => Err(p),
        }
    }
}

/// The `Pong` packet.
#[derive(Debug, Clone, Copy, PartialEq, Eq, Structural)]
pub struct Pong {
    pub serial: u32,
    pub time: u32,
}

impl DeepView for Pong {
    type V = Pong;

    open spec fn deep_view(&self) -> Pong {
        *self
    }
}

impl Adapter for Pong {
    #[verifier::opaque]
    open spec fn spec_get(input: Seq<u8>) -> Read<Pong, Error> {
        then(u32::spec_get(input), |serial: u32, rest: Seq<u8>|
            then(u32::spec_get(rest), |time: u32, rest: Seq<u8>|
                done(Pong { serial, time }, rest)))
    }

    #[verifier::opaque]
    open spec fn spec_put(value: Pong) -> Written {
        also(u32::spec_put(value.serial),
            u32::spec_put(value.time))
    }

    open spec fn round_trips(value: Pong, rest: Seq<u8>) -> bool {
        let rest2 = rest;
        let rest1 = u32::spec_put(value.time).bytes + rest2;
        &&& u32::round_trips(value.serial, rest1)
        &&& u32::round_trips(value.time, rest2)
    }

    fn get_be(bytes: &mut Cursor) -> (r: Result<Pong, Error>) {
        reveal(<Pong as Adapter>::spec_get);
        let serial = u32::get_be(bytes)?;
        let time = u32::get_be(bytes)?;
        Ok(Pong { serial, time })
    }

    fn put_be(&self, buffer: &mut Vec<u8>) -> (r: Result<(), Error>) {
        reveal(<Pong as Adapter>::spec_put);
        self.serial.put_be(buffer)?;
        let ghost written = u32::spec_put(self.deep_view().serial).bytes;
        proof {
            lemma_add_assoc(old(buffer)@, written, u32::spec_put(self.deep_view().time).bytes);
        }
        self.time.put_be(buffer)?;
        Ok(())
    }

    proof fn lemma_round_trip(value: Pong, rest: Seq<u8>) {
        reveal(<Pong as Adapter>::spec_get);
        reveal(<Pong as Adapter>::spec_put);
        let rest2 = rest;
        let rest1 = u32::spec_put(value.time).bytes + rest2;
        let front1 = u32::spec_put(value.serial).bytes;
        lemma_add_assoc(front1, u32::spec_put(value.time).bytes, rest2);
        u32::lemma_round_trip(value.serial, rest1);
        u32::lemma_round_trip(value.time, rest2);
    }
}

impl PacketData for Pong {
    open spec fn spec_packet_type() -> PacketType {
        PacketType::Pong
    }

    open spec fn spec_wrap(value: Pong) -> PacketModel {
        PacketModel::Pong(value)
    }

    fn packet_type() -> (kind: PacketType) {
        PacketType::Pong
    }

    fn into_packet(self) -> (packet: Packet) {
        Packet::Pong(self)
    }

    fn from_packet(packet: Packet) -> (r: Result<Pong, Packet>) {
        match packet {
            Packet::Pong(v) => Ok(v),
            p => Err(p),
        }
    }

    fn from_packet_ref(packet: &Packet) -> (r: Result<&Pong, &Packet>) {
        match packet {
            Packet::Pong(v) => Ok(v),
            p => Err(p),
        }
    }
}

/// The `RequestTrade` packet.
#[derive(Debug, Clone, PartialEq, Eq)]
pub struct RequestTrade {
    pub name: RLE<String>,
}

/// The model of [`RequestTrade`].
pub struct RequestTradeModel {
    pub name: Seq<char>,
}

impl DeepView for RequestTrade {
    type V = RequestTradeModel;

    open spec fn deep_view(&self) -> RequestTradeModel {
        RequestTradeModel {
            name: self.name.deep_view(),
        }
    }
}

impl Adapter for RequestTrade {
    #[verifier::opaque]
    open spec fn spec_get(input: Seq<u8>) -> Read<RequestTradeModel, Error> {
        then(RLE::<String, u16>::spec_get(input), |name: Seq<char>, rest: Seq<u8>|
            done(RequestTradeModel { name }, rest))
    }

    #[verifier::opaque]
    open spec fn spec_put(value: RequestTradeModel) -> Written {
        RLE::<String, u16>::spec_put(value.name)
    }

    open spec fn round_trips(value: RequestTradeModel, rest: Seq<u8>) -> bool {
        let rest1 = rest;
        &&& RLE::<String, u16>::round_trips(value.name, rest1)
    }

    fn get_be(bytes: &mut Cursor) -> (r: Result<RequestTrade, Error>) {
        reveal(<RequestTrade as Adapter>::spec_get);
        let name = RLE::<String, u16>::get_be(bytes)?;
        Ok(RequestTrade { name })
    }

    fn put_be(&self, buffer: &mut Vec<u8>) -> (r: Result<(), Error>) {
        reveal(<RequestTrade as Adapter>::spec_put);
        self.name.put_be(buffer)?;
        Ok(())
    }

    proof fn lemma_round_trip(value: RequestTradeModel, rest: Seq<u8>) {
        reveal(<RequestTrade as Adapter>::spec_get);
        reveal(<RequestTrade as Adapter>::spec_put);
        let rest1 = rest;
        RLE::<String, u16>::lemma_round_trip(value.name, rest1);
    }
}

impl PacketData for RequestTrade {
    open spec fn spec_packet_type() -> PacketType {
        PacketType::RequestTrade
    }

    open spec fn spec_wrap(value: RequestTradeModel) -> PacketModel {
        PacketModel::RequestTrade(value)
    }

    fn packet_type() -> (kind: PacketType) {
        PacketType::RequestTrade
    }

    fn into_packet(self) -> (packet: Packet) {
        Packet::RequestTrade(self)
    }

    fn from_packet(packet: Packet) -> (r: Result<RequestTrade, Packet>) {
        match packet {
            Packet::RequestTrade(v) => Ok(v),
            p => Err(p),
        }
    }

    fn from_packet_ref(packet: &Packet) -> (r: Result<&RequestTrade, &Packet>) {
        match packet {
            Packet::RequestTrade(v) => Ok(v),
            p => Err(p),
        }
    }
}

/// The `ResetDailyQuests` packet.
#[derive(Debug, Clone, Copy, PartialEq, Eq, Structural)]
pub struct ResetDailyQuests {}

impl DeepView for ResetDailyQuests {
    type V = ResetDailyQuests;

    open spec fn deep_view(&self) -> ResetDailyQuests {
        *self
    }
}

impl Adapter for ResetDailyQuests {
    #[verifier::opaque]
    open spec fn spec_get(input: Seq<u8>) -> Read<ResetDailyQuests, Error> {
        done(ResetDailyQuests {}, input)
    }

    #[verifier::opaque]
    open spec fn spec_put(value: ResetDailyQuests) -> Written {
        wrote(Seq::empty())
    }

    open spec fn round_trips(value: ResetDailyQuests, rest: Seq<u8>) -> bool {
        true
    }

    fn get_be(bytes: &mut Cursor) -> (r: Result<ResetDailyQuests, Error>) {
        reveal(<ResetDailyQuests as Adapter>::spec_get);
        Ok(ResetDailyQuests {})
    }

    fn put_be(&self, buffer: &mut Vec<u8>) -> (r: Result<(), Error>) {
        reveal(<ResetDailyQuests as Adapter>::spec_put);
        proof {
            lemma_add_empty(buffer@);
        }
        Ok(())
    }

    proof fn lemma_round_trip(value: ResetDailyQuests, rest: Seq<u8>) {
        reveal(<ResetDailyQuests as Adapter>::spec_get);
        reveal(<ResetDailyQuests as Adapter>::spec_put);
        lemma_add_empty(rest);
    }
}

impl PacketData for ResetDailyQuests {
    open spec fn spec_packet_type() -> PacketType {
        PacketType::ResetDailyQuests
    }

    open spec fn spec_wrap(value: ResetDailyQuests) -> PacketModel {
        PacketModel::ResetDailyQuests(value)
    }

    fn packet_type() -> (kind: PacketType) {
        PacketType::ResetDailyQuests
    }

    fn into_packet(self) -> (packet: Packet) {
        Packet::ResetDailyQuests(self)
    }

    fn from_packet(packet: Packet) -> (r: Result<ResetDailyQuests, Packet>) {
        match packet {
            Packet::ResetDailyQuests(v) => Ok(v),
            p => Err(p),
        }
    }

    fn from_packet_ref(packet: &Packet) -> (r: Result<&ResetDailyQuests, &Packet>) {
        match packet {
            Packet::ResetDailyQuests(v) => Ok(v),
            p => Err(p),
        }
    }
}

/// The `Reskin` packet.
#[derive(Debug, Clone, Copy, PartialEq, Eq, Structural)]
pub struct Reskin {
    pub skin_id: u32,
}

impl DeepView for Reskin {
    type V = Reskin;

    open spec fn deep_view(&self) -> Reskin {
        *self
    }
}

impl Adapter for Reskin {
    #[verifier::opaque]
    open spec fn spec_get(input: Seq<u8>) -> Read<Reskin, Error> {
        then(u32::spec_get(input), |skin_id: u32, rest: Seq<u8>|
            done(Reskin { skin_id }, rest))
    }

    #[verifier::opaque]
    open spec fn spec_put(value: Reskin) -> Written {
        u32::spec_put(value.skin_id)
    }

    open spec fn round_trips(value: Reskin, rest: Seq<u8>) -> bool {
        let rest1 = rest;
        &&& u32::round_trips(value.skin_id, rest1)
    }

    fn get_be(bytes: &mut Cursor) -> (r: Result<Reskin, Error>) {
        reveal(<Reskin as Adapter>::spec_get);
        let skin_id = u32::get_be(bytes)?;
        Ok(Reskin { skin_id })
    }

    fn put_be(&self, buffer: &mut Vec<u8>) -> (r: Result<(), Error>) {
        reveal(<Reskin as Adapter>::spec_put);
        self.skin_id.put_be(buffer)?;
        Ok(())
    }

    proof fn lemma_round_trip(value: Reskin, rest: Seq<u8>) {
        reveal(<Reskin as Adapter>::spec_get);
        reveal(<Reskin as Adapter>::spec_put);
        let rest1 = rest;
        u32::lemma_round_trip(value.skin_id, rest1);
    }
}

impl PacketData for Reskin {
    open spec fn spec_packet_type() -> PacketType {
        PacketType::Reskin
    }

    open spec fn spec_wrap(value: Reskin) -> PacketModel {
        PacketModel::Reskin(value)
    }

    fn packet_type() -> (kind: PacketType) {
        PacketType::Reskin
    }

    fn into_packet(self) -> (packet: Packet) {
        Packet::Reskin(self)
    }

    fn from_packet(packet: Packet) -> (r: Result<Reskin, Packet>) {
        match packet {
            Packet::Reskin(v) => Ok(v),
            p => Err(p),
        }
    }

    fn from_packet_ref(packet: &Packet) -> (r: Result<&Reskin, &Packet>) {
        match packet {
            Packet::Reskin(v) => Ok(v),
            p => Err(p),
        }
    }
}

/// The `SetCondition` packet.
#[derive(Debug, Clone, Copy, PartialEq, Eq, Structural)]
pub struct SetCondition {
    pub effect: u8,
    pub duration: F32,
}

impl DeepView for SetCondition {
    type V = SetCondition;

    open spec fn deep_view(&self) -> SetCondition {
        *self
    }
}

impl Adapter for SetCondition {
    #[verifier::opaque]
    open spec fn spec_get(input: Seq<u8>) -> Read<SetCondition, Error> {
        then(u8::spec_get(input), |effect: u8, rest: Seq<u8>|
            then(F32::spec_get(rest), |duration: F32, rest: Seq<u8>|
                done(SetCondition { effect, duration }, rest)))
    }

    #[verifier::opaque]
    open spec fn spec_put(value: SetCondition) -> Written {
        also(u8::spec_put(value.effect),
            F32::spec_put(value.duration))
    }

    open spec fn round_trips(value: SetCondition, rest: Seq<u8>) -> bool {
        let rest2 = rest;
        let rest1 = F32::spec_put(value.duration).bytes + rest2;
        &&& u8::round_trips(value.effect, rest1)
        &&& F32::round_trips(value.duration, rest2)
    }

    fn get_be(bytes: &mut Cursor) -> (r: Result<SetCondition, Error>) {
        reveal(<SetCondition as Adapter>::spec_get);
        let effect = u8::get_be(bytes)?;
        let duration = F32::get_be(bytes)?;
        Ok(SetCondition { effect, duration })
    }

    fn put_be(&self, buffer: &mut Vec<u8>) -> (r: Result<(), Error>) {
        reveal(<SetCondition as Adapter>::spec_put);
        self.effect.put_be(buffer)?;
        let ghost written = u8::spec_put(self.deep_view().effect).bytes;
        proof {
            lemma_add_assoc(old(buffer)@, written, F32::spec_put(self.deep_view().duration).bytes);
        }
        self.duration.put_be(buffer)?;
        Ok(())
    }

    proof fn lemma_round_trip(value: SetCondition, rest: Seq<u8>) {
        reveal(<SetCondition as Adapter>::spec_get);
        reveal(<SetCondition as Adapter>::spec_put);
        let rest2 = rest;
        let rest1 = F32::spec_put(value.duration).bytes + rest2;
        let front1 = u8::spec_put(value.effect).bytes;
        lemma_add_assoc(front1, F32::spec_put(value.duration).bytes, rest2);
        u8::lemma_round_trip(value.effect, rest1);
        F32::lemma_round_trip(value.duration, rest2);
    }
}

impl PacketData for SetCondition {
    open spec fn spec_packet_type() -> PacketType {
        PacketType::SetCondition
    }

    open spec fn spec_wrap(value: SetCondition) -> PacketModel {
        PacketModel::SetCondition(value)
    }

    fn packet_type() -> (kind: PacketType) {
        PacketType::SetCondition
    }

    fn into_packet(self) -> (packet: Packet) {
        Packet::SetCondition(self)
    }

    fn from_packet(packet: Packet) -> (r: Result<SetCondition, Packet>) {
        match packet {
            Packet::SetCondition(v) => Ok(v),
            p => Err(p),
        }
    }

    fn from_packet_ref(packet: &Packet) -> (r: Result<&SetCondition, &Packet>) {
        match packet {
            Packet::SetCondition(v) => Ok(v),
            p => Err(p),
        }
    }
}

/// The `ShootAck` packet.
#[derive(Debug, Clone, Copy, PartialEq, Eq, Structural)]
pub struct ShootAck {
    pub time: u32,
}

impl DeepView for ShootAck {
    type V = ShootAck;

    open spec fn deep_view(&self) -> ShootAck {
        *self
    }
}

impl Adapter for ShootAck {
    #[verifier::opaque]
    open spec fn spec_get(input: Seq<u8>) -> Read<ShootAck, Error> {
        then(u32::spec_get(input), |time: u32, rest: Seq<u8>|
            done(ShootAck { time }, rest))
    }

    #[verifier::opaque]
    open spec fn spec_put(value: ShootAck) -> Written {
        u32::spec_put(value.time)
    }

    open spec fn round_trips(value: ShootAck, rest: Seq<u8>) -> bool {
        let rest1 = rest;
        &&& u32::round_trips(value.time, rest1)
    }

    fn get_be(bytes: &mut Cursor) -> (r: Result<ShootAck, Error>) {
        reveal(<ShootAck as Adapter>::spec_get);
        let time = u32::get_be(bytes)?;
        Ok(ShootAck { time })
    }

    fn put_be(&self, buffer: &mut Vec<u8>) -> (r: Result<(), Error>) {
        reveal(<ShootAck as Adapter>::spec_put);
        self.time.put_be(buffer)?;
        Ok(())
    }

    proof fn lemma_round_trip(value: ShootAck, rest: Seq<u8>) {
        reveal(<ShootAck as Adapter>::spec_get);
        reveal(<ShootAck as Adapter>::spec_put);
        let rest1 = rest;
        u32::lemma_round_trip(value.time, rest1);
    }
}

impl PacketData for ShootAck {
    open spec fn spec_packet_type() -> PacketType {
        PacketType::ShootAck
    }

    open spec fn spec_wrap(value: ShootAck) -> PacketModel {
        PacketModel::ShootAck(value)
    }

    fn packet_type() -> (kind: PacketType) {
        PacketType::ShootAck
    }

    fn into_packet(self) -> (packet: Packet) {
        Packet::ShootAck(self)
    }

    fn from_packet(packet: Packet) -> (r: Result<ShootAck, Packet>) {
        match packet {
            Packet::ShootAck(v) => Ok(v),
            p => Err(p),
        }
    }

    fn from_packet_ref(packet: &Packet) -> (r: Result<&ShootAck, &Packet>) {
        match packet {
            Packet::ShootAck(v) => Ok(v),
            p => Err(p),
        }
    }
}

/// The `SquareHit` packet.
#[derive(Debug, Clone, Copy, PartialEq, Eq, Structural)]
pub struct SquareHit {
    pub time: u32,
    pub bullet_id: u8,
    pub object_id: u32,
}

impl DeepView for SquareHit {
    type V = SquareHit;

    open spec fn deep_view(&self) -> SquareHit {
        *self
    }
}

impl Adapter for SquareHit {
    #[verifier::opaque]
    open spec fn spec_get(input: Seq<u8>) -> Read<SquareHit, Error> {
        then(u32::spec_get(input), |time: u32, rest: Seq<u8>|
            then(u8::spec_get(rest), |bullet_id: u8, rest: Seq<u8>|
                then(u32::spec_get(rest), |object_id: u32, rest: Seq<u8>|
                    done(SquareHit { time, bullet_id, object_id }, rest))))
    }

    #[verifier::opaque]
    open spec fn spec_put(value: SquareHit) -> Written {
        also(also(u32::spec_put(value.time),
            u8::spec_put(value.bullet_id)),
            u32::spec_put(value.object_id))
    }

    open spec fn round_trips(value: SquareHit, rest: Seq<u8>) -> bool {
        let rest3 = rest;
        let rest2 = u32::spec_put(value.object_id).bytes + rest3;
        let rest1 = u8::spec_put(value.bullet_id).bytes + rest2;
        &&& u32::round_trips(value.time, rest1)
        &&& u8::round_trips(value.bullet_id, rest2)
        &&& u32::round_trips(value.object_id, rest3)
    }

    fn get_be(bytes: &mut Cursor) -> (r: Result<SquareHit, Error>) {
        reveal(<SquareHit as Adapter>::spec_get);
        let time = u32::get_be(bytes)?;
        let bullet_id = u8::get_be(bytes)?;
        let object_id = u32::get_be(bytes)?;
        Ok(SquareHit { time, bullet_id, object_id })
    }

    fn put_be(&self, buffer: &mut Vec<u8>) -> (r: Result<(), Error>) {
        reveal(<SquareHit as Adapter>::spec_put);
        self.time.put_be(buffer)?;
        let ghost written = u32::spec_put(self.deep_view().time).bytes;
        proof {
            lemma_add_assoc(old(buffer)@, written, u8::spec_put(self.deep_view().bullet_id).bytes);
        }
        self.bullet_id.put_be(buffer)?;
        let ghost written = written + u8::spec_put(self.deep_view().bullet_id).bytes;
        proof {
            lemma_add_assoc(old(buffer)@, written, u32::spec_put(self.deep_view().object_id).bytes);
        }
        self.object_id.put_be(buffer)?;
        Ok(())
    }

    proof fn lemma_round_trip(value: SquareHit, rest: Seq<u8>) {
        reveal(<SquareHit as Adapter>::spec_get);
        reveal(<SquareHit as Adapter>::spec_put);
        let rest3 = rest;
        let rest2 = u32::spec_put(value.object_id).bytes + rest3;
        let rest1 = u8::spec_put(value.bullet_id).bytes + rest2;
        let front1 = u32::spec_put(value.time).bytes;
        let front2 = front1 + u8::spec_put(value.bullet_id).bytes;
        lemma_add_assoc(front2, u32::spec_put(value.object_id).bytes, rest3);
        lemma_add_assoc(front1, u8::spec_put(value.bullet_id).bytes, rest2);
        u32::lemma_round_trip(value.time, rest1);
        u8::lemma_round_trip(value.bullet_id, rest2);
        u32::lemma_round_trip(value.object_id, rest3);
    }
}

impl PacketData for SquareHit {
    open spec fn spec_packet_type() -> PacketType {
        PacketType::SquareHit
    }

    open spec fn spec_wrap(value: SquareHit) -> PacketModel {
        PacketModel::SquareHit(value)
    }

    fn packet_type() -> (kind: PacketType) {
        PacketType::SquareHit
    }

    fn into_packet(self) -> (packet: Packet) {
        Packet::SquareHit(self)
    }

    fn from_packet(packet: Packet) -> (r: Result<SquareHit, Packet>) {
        match packet {
            Packet::SquareHit(v) => Ok(v),
            p => Err(p),
        }
    }

    fn from_packet_ref(packet: &Packet) -> (r: Result<&SquareHit, &Packet>) {
        match packet {
            Packet::SquareHit(v) => Ok(v),
            p => Err(p),
        }
    }
}

/// The `Teleport` packet.
#[derive(Debug, Clone, Copy, PartialEq, Eq, Structural)]
pub struct Teleport {
    pub object_id: u32,
}

impl DeepView for Teleport {
    type V = Teleport;

    open spec fn deep_view(&self) -> Teleport {
        *self
    }
}

impl Adapter for Teleport {
    #[verifier::opaque]
    open spec fn spec_get(input: Seq<u8>) -> Read<Teleport, Error> {
        then(u32::spec_get(input), |object_id: u32, rest: Seq<u8>|
            done(Teleport { object_id }, rest))
    }

    #[verifier::opaque]
    open spec fn spec_put(value: Teleport) -> Written {
        u32::spec_put(value.object_id)
    }

    open spec fn round_trips(value: Teleport, rest: Seq<u8>) -> bool {
        let rest1 = rest;
        &&& u32::round_trips(value.object_id, rest1)
    }

    fn get_be(bytes: &mut Cursor) -> (r: Result<Teleport, Error>) {
        reveal(<Teleport as Adapter>::spec_get);
        let object_id = u32::get_be(bytes)?;
        Ok(Teleport { object_id })
    }

    fn put_be(&self, buffer: &mut Vec<u8>) -> (r: Result<(), Error>) {
        reveal(<Teleport as Adapter>::spec_put);
        self.object_id.put_be(buffer)?;
        Ok(())
    }

    proof fn lemma_round_trip(value: Teleport, rest: Seq<u8>) {
        reveal(<Teleport as Adapter>::spec_get);
        reveal(<Teleport as Adapter>::spec_put);
        let rest1 = rest;
        u32::lemma_round_trip(value.object_id, rest1);
    }
}

impl PacketData for Teleport {
    open spec fn spec_packet_type() -> PacketType {
        PacketType::Teleport
    }

    open spec fn spec_wrap(value: Teleport) -> PacketModel {
        PacketModel::Teleport(value)
    }

    fn packet_type() -> (kind: PacketType) {
        PacketType::Teleport
    }

    fn into_packet(self) -> (packet: Packet) {
        Packet::Teleport(self)
    }

    fn from_packet(packet: Packet) -> (r: Result<Teleport, Packet>) {
        match packet {
            Packet::Teleport(v) => Ok(v),
            p => Err(p),
        }
    }

    fn from_packet_ref(packet: &Packet) -> (r: Result<&Teleport, &Packet>) {
        match packet {
            Packet::Teleport(v) => Ok(v),
            p => Err(p),
        }
    }
}

/// The `UpdateAck` packet.
#[derive(Debug, Clone, Copy, PartialEq, Eq, Structural)]
pub struct UpdateAck {}

impl DeepView for UpdateAck {
    type V = UpdateAck;

    open spec fn deep_view(&self) -> UpdateAck {
        *self
    }
}

impl Adapter for UpdateAck {
    #[verifier::opaque]
    open spec fn spec_get(input: Seq<u8>) -> Read<UpdateAck, Error> {
        done(UpdateAck {}, input)
    }

    #[verifier::opaque]
    open spec fn spec_put(value: UpdateAck) -> Written {
        wrote(Seq::empty())
    }

    open spec fn round_trips(value: UpdateAck, rest: Seq<u8>) -> bool {
        true
    }

    fn get_be(bytes: &mut Cursor) -> (r: Result<UpdateAck, Error>) {
        reveal(<UpdateAck as Adapter>::spec_get);
        Ok(UpdateAck {})
    }

    fn put_be(&self, buffer: &mut Vec<u8>) -> (r: Result<(), Error>) {
        reveal(<UpdateAck as Adapter>::spec_put);
        proof {
            lemma_add_empty(buffer@);
        }
        Ok(())
    }

    proof fn lemma_round_trip(value: UpdateAck, rest: Seq<u8>) {
        reveal(<UpdateAck as Adapter>::spec_get);
        reveal(<UpdateAck as Adapter>::spec_put);
        lemma_add_empty(rest);
    }
}

impl PacketData for UpdateAck {
    open spec fn spec_packet_type() -> PacketType {
        PacketType::UpdateAck
    }

    open spec fn spec_wrap(value: UpdateAck) -> PacketModel {
        PacketModel::UpdateAck(value)
    }

    fn packet_type() -> (kind: PacketType) {
        PacketType::UpdateAck
    }

    fn into_packet(self) -> (packet: Packet) {
        Packet::UpdateAck(self)
    }

    fn from_packet(packet: Packet) -> (r: Result<UpdateAck, Packet>) {
        match packet {
            Packet::UpdateAck(v) => Ok(v),
            p => Err(p),
        }
    }

    fn from_packet_ref(packet: &Packet) -> (r: Result<&UpdateAck, &Packet>) {
        match packet {
            Packet::UpdateAck(v) => Ok(v),
            p => Err(p),
        }
    }
}

/// The `UseItem` packet.
#[derive(Debug, Clone, Copy, PartialEq, Eq, Structural)]
pub struct UseItem {
    pub time: u32,
    pub slot: SlotObjectData,
    pub pos: WorldPosData,
    pub use_type: u32,
}

impl DeepView for UseItem {
    type V = UseItem;

    open spec fn deep_view(&self) -> UseItem {
        *self
    }
}

impl Adapter for UseItem {
    #[verifier::opaque]
    open spec fn spec_get(input: Seq<u8>) -> Read<UseItem, Error> {
        then(u32::spec_get(input), |time: u32, rest: Seq<u8>|
            then(SlotObjectData::spec_get(rest), |slot: SlotObjectData, rest: Seq<u8>|
                then(WorldPosData::spec_get(rest), |pos: WorldPosData, rest: Seq<u8>|
                    then(u32::spec_get(rest), |use_type: u32, rest: Seq<u8>|
                        done(UseItem { time, slot, pos, use_type }, rest)))))
    }

    #[verifier::opaque]
    open spec fn spec_put(value: UseItem) -> Written {
        also(also(also(u32::spec_put(value.time),
            SlotObjectData::spec_put(value.slot)),
            WorldPosData::spec_put(value.pos)),
            u32::spec_put(value.use_type))
    }

    open spec fn round_trips(value: UseItem, rest: Seq<u8>) -> bool {
        let rest4 = rest;
        let rest3 = u32::spec_put(value.use_type).bytes + rest4;
        let rest2 = WorldPosData::spec_put(value.pos).bytes + rest3;
        let rest1 = SlotObjectData::spec_put(value.slot).bytes + rest2;
        &&& u32::round_trips(value.time, rest1)
        &&& SlotObjectData::round_trips(value.slot, rest2)
        &&& WorldPosData::round_trips(value.pos, rest3)
        &&& u32::round_trips(value.use_type, rest4)
    }

    fn get_be(bytes: &mut Cursor) -> (r: Result<UseItem, Error>) {
        reveal(<UseItem as Adapter>::spec_get);
        let time = u32::get_be(bytes)?;
        let slot = SlotObjectData::get_be(bytes)?;
        let pos = WorldPosData::get_be(bytes)?;
        let use_type = u32::get_be(bytes)?;
        Ok(UseItem { time, slot, pos, use_type })
    }

    fn put_be(&self, buffer: &mut Vec<u8>) -> (r: Result<(), Error>) {
        reveal(<UseItem as Adapter>::spec_put);
        self.time.put_be(buffer)?;
        let ghost written = u32::spec_put(self.deep_view().time).bytes;
        proof {
            lemma_add_assoc(old(buffer)@, written, SlotObjectData::spec_put(self.deep_view().slot).bytes);
        }
        self.slot.put_be(buffer)?;
        let ghost written = written + SlotObjectData::spec_put(self.deep_view().slot).bytes;
        proof {
            lemma_add_assoc(old(buffer)@, written, WorldPosData::spec_put(self.deep_view().pos).bytes);
        }
        self.pos.put_be(buffer)?;
        let ghost written = written + WorldPosData::spec_put(self.deep_view().pos).bytes;
        proof {
            lemma_add_assoc(old(buffer)@, written, u32::spec_put(self.deep_view().use_type).bytes);
        }
        self.use_type.put_be(buffer)?;
        Ok(())
    }

    proof fn lemma_round_trip(value: UseItem, rest: Seq<u8>) {
        reveal(<UseItem as Adapter>::spec_get);
        reveal(<UseItem as Adapter>::spec_put);
        let rest4 = rest;
        let rest3 = u32::spec_put(value.use_type).bytes + rest4;
        let rest2 = WorldPosData::spec_put(value.pos).bytes + rest3;
        let rest1 = SlotObjectData::spec_put(value.slot).bytes + rest2;
        let front1 = u32::spec_put(value.time).bytes;
        let front2 = front1 + SlotObjectData::spec_put(value.slot).bytes;
        let front3 = front2 + WorldPosData::spec_put(value.pos).bytes;
        lemma_add_assoc(front3, u32::spec_put(value.use_type).bytes, rest4);
        lemma_add_assoc(front2, WorldPosData::spec_put(value.pos).bytes, rest3);
        lemma_add_assoc(front1, SlotObjectData::spec_put(value.slot).bytes, rest2);
        u32::lemma_round_trip(value.time, rest1);
        SlotObjectData::lemma_round_trip(value.slot, rest2);
        WorldPosData::lemma_round_trip(value.pos, rest3);
        u32::lemma_round_trip(value.use_type, rest4);
    }
}

impl PacketData for UseItem {
    open spec fn spec_packet_type() -> PacketType {
        PacketType::UseItem
    }

    open spec fn spec_wrap(value: UseItem) -> PacketModel {
        PacketModel::UseItem(value)
    }

    fn packet_type() -> (kind: PacketType) {
        PacketType::UseItem
    }

    fn into_packet(self) -> (packet: Packet) {
        Packet::UseItem(self)
    }

    fn from_packet(packet: Packet) -> (r: Result<UseItem, Packet>) {
        match packet {
            Packet::UseItem(v) => Ok(v),
            p => Err(p),
        }
    }

    fn from_packet_ref(packet: &Packet) -> (r: Result<&UseItem, &Packet>) {
        match packet {
            Packet::UseItem(v) => Ok(v),
            p => Err(p),
        }
    }
}

/// The `UsePortal` packet.
#[derive(Debug, Clone, Copy, PartialEq, Eq, Structural)]
pub struct UsePortal {
    pub object_id: u32,
}

impl DeepView for UsePortal {
    type V = UsePortal;

    open spec fn deep_view(&self) -> UsePortal {
        *self
    }
}

impl Adapter for UsePortal {
    #[verifier::opaque]
    open spec fn spec_get(input: Seq<u8>) -> Read<UsePortal, Error> {
        then(u32::spec_get(input), |object_id: u32, rest: Seq<u8>|
            done(UsePortal { object_id }, rest))
    }

    #[verifier::opaque]
    open spec fn spec_put(value: UsePortal) -> Written {
        u32::spec_put(value.object_id)
    }

    open spec fn round_trips(value: UsePortal, rest: Seq<u8>) -> bool {
        let rest1 = rest;
        &&& u32::round_trips(value.object_id, rest1)
    }

    fn get_be(bytes: &mut Cursor) -> (r: Result<UsePortal, Error>) {
        reveal(<UsePortal as Adapter>::spec_get);
        let object_id = u32::get_be(bytes)?;
        Ok(UsePortal { object_id })
    }

    fn put_be(&self, buffer: &mut Vec<u8>) -> (r: Result<(), Error>) {
        reveal(<UsePortal as Adapter>::spec_put);
        self.object_id.put_be(buffer)?;
        Ok(())
    }

    proof fn lemma_round_trip(value: UsePortal, rest: Seq<u8>) {
        reveal(<UsePortal as Adapter>::spec_get);
        reveal(<UsePortal as Adapter>::spec_put);
        let rest1 = rest;
        u32::lemma_round_trip(value.object_id, rest1);
    }
}

impl PacketData for UsePortal {
    open spec fn spec_packet_type() -> PacketType {
        PacketType::UsePortal
    }

    open spec fn spec_wrap(value: UsePortal) -> PacketModel {
        PacketModel::UsePortal(value)
    }

    fn packet_type() -> (kind: PacketType) {
        PacketType::UsePortal
    }

    fn into_packet(self) -> (packet: Packet) {
        Packet::UsePortal(self)
    }

    fn from_packet(packet: Packet) -> (r: Result<UsePortal, Packet>) {
        match packet {
            Packet::UsePortal(v) => Ok(v),
            p => Err(p),
        }
    }

    fn from_packet_ref(packet: &Packet) -> (r: Result<&UsePortal, &Packet>) {
        match packet {
            Packet::UsePortal(v) => Ok(v),
            p => Err(p),
        }
    }
}

/// The `QuestFetchAsk` packet.
#[derive(Debug, Clone, Copy, PartialEq, Eq, Structural)]
pub struct QuestFetchAsk {}

impl DeepView for QuestFetchAsk {
    type V = QuestFetchAsk;

    open spec fn deep_view(&self) -> QuestFetchAsk {
        *self
    }
}

impl Adapter for QuestFetchAsk {
    #[verifier::opaque]
    open spec fn spec_get(input: Seq<u8>) -> Read<QuestFetchAsk, Error> {
        done(QuestFetchAsk {}, input)
    }

    #[verifier::opaque]
    open spec fn spec_put(value: QuestFetchAsk) -> Written {
        wrote(Seq::empty())
    }

    open spec fn round_trips(value: QuestFetchAsk, rest: Seq<u8>) -> bool {
        true
    }

    fn get_be(bytes: &mut Cursor) -> (r: Result<QuestFetchAsk, Error>) {
        reveal(<QuestFetchAsk as Adapter>::spec_get);
        Ok(QuestFetchAsk {})
    }

    fn put_be(&self, buffer: &mut Vec<u8>) -> (r: Result<(), Error>) {
        reveal(<QuestFetchAsk as Adapter>::spec_put);
        proof {
            lemma_add_empty(buffer@);
        }
        Ok(())
    }

    proof fn lemma_round_trip(value: QuestFetchAsk, rest: Seq<u8>) {
        reveal(<QuestFetchAsk as Adapter>::spec_get);
        reveal(<QuestFetchAsk as Adapter>::spec_put);
        lemma_add_empty(rest);
    }
}

impl PacketData for QuestFetchAsk {
    open spec fn spec_packet_type() -> PacketType {
        PacketType::QuestFetchAsk
    }

    open spec fn spec_wrap(value: QuestFetchAsk) -> PacketModel {
        PacketModel::QuestFetchAsk(value)
    }

    fn packet_type() -> (kind: PacketType) {
        PacketType::QuestFetchAsk
    }

    fn into_packet(self) -> (packet: Packet) {
        Packet::QuestFetchAsk(self)
    }

    fn from_packet(packet: Packet) -> (r: Result<QuestFetchAsk, Packet>) {
        match packet {
            Packet::QuestFetchAsk(v) => Ok(v),
            p => Err(p),
        }
    }

    fn from_packet_ref(packet: &Packet) -> (r: Result<&QuestFetchAsk, &Packet>) {
        match packet {
            Packet::QuestFetchAsk(v) => Ok(v),
            p => Err(p),
        }
    }
}

/// The `AcceptArenaDeath` packet.
#[derive(Debug, Clone, Copy, PartialEq, Eq, Structural)]
pub struct AcceptArenaDeath {}

impl DeepView for AcceptArenaDeath {
    type V = AcceptArenaDeath;

    open spec fn deep_view(&self) -> AcceptArenaDeath {
        *self
    }
}

impl Adapter for AcceptArenaDeath {
    #[verifier::opaque]
    open spec fn spec_get(input: Seq<u8>) -> Read<AcceptArenaDeath, Error> {
        done(AcceptArenaDeath {}, input)
    }

    #[verifier::opaque]
    open spec fn spec_put(value: AcceptArenaDeath) -> Written {
        wrote(Seq::empty())
    }

    open spec fn round_trips(value: AcceptArenaDeath, rest: Seq<u8>) -> bool {
        true
    }

    fn get_be(bytes: &mut Cursor) -> (r: Result<AcceptArenaDeath, Error>) {
        reveal(<AcceptArenaDeath as Adapter>::spec_get);
        Ok(AcceptArenaDeath {})
    }

    fn put_be(&self, buffer: &mut Vec<u8>) -> (r: Result<(), Error>) {
        reveal(<AcceptArenaDeath as Adapter>::spec_put);
        proof {
            lemma_add_empty(buffer@);
        }
        Ok(())
    }

    proof fn lemma_round_trip(value: AcceptArenaDeath, rest: Seq<u8>) {
        reveal(<AcceptArenaDeath as Adapter>::spec_get);
        reveal(<AcceptArenaDeath as Adapter>::spec_put);
        lemma_add_empty(rest);
    }
}

impl PacketData for AcceptArenaDeath {
    open spec fn spec_packet_type() -> PacketType {
        PacketType::AcceptArenaDeath
    }

    open spec fn spec_wrap(value: AcceptArenaDeath) -> PacketModel {
        PacketModel::AcceptArenaDeath(value)
    }

    fn packet_type() -> (kind: PacketType) {
        PacketType::AcceptArenaDeath
    }

    fn into_packet(self) -> (packet: Packet) {
        Packet::AcceptArenaDeath(self)
    }

    fn from_packet(packet: Packet) -> (r: Result<AcceptArenaDeath, Packet>) {
        match packet {
            Packet::AcceptArenaDeath(v) => Ok(v),
            p => Err(p),
        }
    }

    fn from_packet_ref(packet: &Packet) -> (r: Result<&AcceptArenaDeath, &Packet>) {
        match packet {
            Packet::AcceptArenaDeath(v) => Ok(v),
            p => Err(p),
        }
    }
}

} // verus!
