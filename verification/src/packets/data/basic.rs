//! The composite values that packets are made of.

use vstd::prelude::*;
use crate::adapter::rle::RLE;
use crate::adapter::{also, lemma_add_assoc, Adapter, Error, Written};
use crate::cursor::{done, then, Cursor, Read};
use crate::ieee::F32;
use crate::packets::data::stat::{StatData, StatDataModel};

verus! {

/// A position in the world.
#[derive(Debug, Clone, Copy, PartialEq, Eq, Structural)]
pub struct WorldPosData {
    pub x: F32,
    pub y: F32,
}

impl DeepView for WorldPosData {
    type V = WorldPosData;

    open spec fn deep_view(&self) -> WorldPosData {
        *self
    }
}

impl Adapter for WorldPosData {
    #[verifier::opaque]
    open spec fn spec_get(input: Seq<u8>) -> Read<WorldPosData, Error> {
        then(F32::spec_get(input), |x: F32, rest: Seq<u8>|
            then(F32::spec_get(rest), |y: F32, rest: Seq<u8>|
                done(WorldPosData { x, y }, rest)))
    }

    #[verifier::opaque]
    open spec fn spec_put(value: WorldPosData) -> Written {
        also(F32::spec_put(value.x),
            F32::spec_put(value.y))
    }

    open spec fn round_trips(value: WorldPosData, rest: Seq<u8>) -> bool {
        let rest2 = rest;
        let rest1 = F32::spec_put(value.y).bytes + rest2;
        &&& F32::round_trips(value.x, rest1)
        &&& F32::round_trips(value.y, rest2)
    }

    fn get_be(bytes: &mut Cursor) -> (r: Result<WorldPosData, Error>) {
        reveal(<WorldPosData as Adapter>::spec_get);
        let x = F32::get_be(bytes)?;
        let y = F32::get_be(bytes)?;
        Ok(WorldPosData { x, y })
    }

    fn put_be(&self, buffer: &mut Vec<u8>) -> (r: Result<(), Error>) {
        reveal(<WorldPosData as Adapter>::spec_put);
        self.x.put_be(buffer)?;
        let ghost written = F32::spec_put(self.deep_view().x).bytes;
        proof {
            lemma_add_assoc(old(buffer)@, written, F32::spec_put(self.deep_view().y).bytes);
        }
        self.y.put_be(buffer)?;
        Ok(())
    }

    proof fn lemma_round_trip(value: WorldPosData, rest: Seq<u8>) {
        reveal(<WorldPosData as Adapter>::spec_get);
        reveal(<WorldPosData as Adapter>::spec_put);
        let rest2 = rest;
        let rest1 = F32::spec_put(value.y).bytes + rest2;
        let front1 = F32::spec_put(value.x).bytes;
        lemma_add_assoc(front1, F32::spec_put(value.y).bytes, rest2);
        F32::lemma_round_trip(value.x, rest1);
        F32::lemma_round_trip(value.y, rest2);
    }
}

/// A ground tile: its place on the map and its kind.
#[derive(Debug, Clone, Copy, PartialEq, Eq, Structural)]
pub struct GroundTileData {
    pub x: u16,
    pub y: u16,
    pub tile: u16,
}

impl DeepView for GroundTileData {
    type V = GroundTileData;

    open spec fn deep_view(&self) -> GroundTileData {
        *self
    }
}

impl Adapter for GroundTileData {
    #[verifier::opaque]
    open spec fn spec_get(input: Seq<u8>) -> Read<GroundTileData, Error> {
        then(u16::spec_get(input), |x: u16, rest: Seq<u8>|
            then(u16::spec_get(rest), |y: u16, rest: Seq<u8>|
                then(u16::spec_get(rest), |tile: u16, rest: Seq<u8>|
                    done(GroundTileData { x, y, tile }, rest))))
    }

    #[verifier::opaque]
    open spec fn spec_put(value: GroundTileData) -> Written {
        also(also(u16::spec_put(value.x),
            u16::spec_put(value.y)),
            u16::spec_put(value.tile))
    }

    open spec fn round_trips(value: GroundTileData, rest: Seq<u8>) -> bool {
        let rest3 = rest;
        let rest2 = u16::spec_put(value.tile).bytes + rest3;
        let rest1 = u16::spec_put(value.y).bytes + rest2;
        &&& u16::round_trips(value.x, rest1)
        &&& u16::round_trips(value.y, rest2)
        &&& u16::round_trips(value.tile, rest3)
    }

    fn get_be(bytes: &mut Cursor) -> (r: Result<GroundTileData, Error>) {
        reveal(<GroundTileData as Adapter>::spec_get);
        let x = u16::get_be(bytes)?;
        let y = u16::get_be(bytes)?;
        let tile = u16::get_be(bytes)?;
        Ok(GroundTileData { x, y, tile })
    }

    fn put_be(&self, buffer: &mut Vec<u8>) -> (r: Result<(), Error>) {
        reveal(<GroundTileData as Adapter>::spec_put);
        self.x.put_be(buffer)?;
        let ghost written = u16::spec_put(self.deep_view().x).bytes;
        proof {
            lemma_add_assoc(old(buffer)@, written, u16::spec_put(self.deep_view().y).bytes);
        }
        self.y.put_be(buffer)?;
        let ghost written = written + u16::spec_put(self.deep_view().y).bytes;
        proof {
            lemma_add_assoc(old(buffer)@, written, u16::spec_put(self.deep_view().tile).bytes);
        }
        self.tile.put_be(buffer)?;
        Ok(())
    }

    proof fn lemma_round_trip(value: GroundTileData, rest: Seq<u8>) {
        reveal(<GroundTileData as Adapter>::spec_get);
        reveal(<GroundTileData as Adapter>::spec_put);
        let rest3 = rest;
        let rest2 = u16::spec_put(value.tile).bytes + rest3;
        let rest1 = u16::spec_put(value.y).bytes + rest2;
        let front1 = u16::spec_put(value.x).bytes;
        let front2 = front1 + u16::spec_put(value.y).bytes;
        lemma_add_assoc(front2, u16::spec_put(value.tile).bytes, rest3);
        lemma_add_assoc(front1, u16::spec_put(value.y).bytes, rest2);
        u16::lemma_round_trip(value.x, rest1);
        u16::lemma_round_trip(value.y, rest2);
        u16::lemma_round_trip(value.tile, rest3);
    }
}

/// A position at a point in time.
#[derive(Debug, Clone, Copy, PartialEq, Eq, Structural)]
pub struct MoveRecord {
    pub time: u32,
    pub x: F32,
    pub y: F32,
}

impl DeepView for MoveRecord {
    type V = MoveRecord;

    open spec fn deep_view(&self) -> MoveRecord {
        *self
    }
}

impl Adapter for MoveRecord {
    #[verifier::opaque]
    open spec fn spec_get(input: Seq<u8>) -> Read<MoveRecord, Error> {
        then(u32::spec_get(input), |time: u32, rest: Seq<u8>|
            then(F32::spec_get(rest), |x: F32, rest: Seq<u8>|
                then(F32::spec_get(rest), |y: F32, rest: Seq<u8>|
                    done(MoveRecord { time, x, y }, rest))))
    }

    #[verifier::opaque]
    open spec fn spec_put(value: MoveRecord) -> Written {
        also(also(u32::spec_put(value.time),
            F32::spec_put(value.x)),
            F32::spec_put(value.y))
    }

    open spec fn round_trips(value: MoveRecord, rest: Seq<u8>) -> bool {
        let rest3 = rest;
        let rest2 = F32::spec_put(value.y).bytes + rest3;
        let rest1 = F32::spec_put(value.x).bytes + rest2;
        &&& u32::round_trips(value.time, rest1)
        &&& F32::round_trips(value.x, rest2)
        &&& F32::round_trips(value.y, rest3)
    }

    fn get_be(bytes: &mut Cursor) -> (r: Result<MoveRecord, Error>) {
        reveal(<MoveRecord as Adapter>::spec_get);
        let time = u32::get_be(bytes)?;
        let x = F32::get_be(bytes)?;
        let y = F32::get_be(bytes)?;
        Ok(MoveRecord { time, x, y })
    }

    fn put_be(&self, buffer: &mut Vec<u8>) -> (r: Result<(), Error>) {
        reveal(<MoveRecord as Adapter>::spec_put);
        self.time.put_be(buffer)?;
        let ghost written = u32::spec_put(self.deep_view().time).bytes;
        proof {
            lemma_add_assoc(old(buffer)@, written, F32::spec_put(self.deep_view().x).bytes);
        }
        self.x.put_be(buffer)?;
        let ghost written = written + F32::spec_put(self.deep_view().x).bytes;
        proof {
            lemma_add_assoc(old(buffer)@, written, F32::spec_put(self.deep_view().y).bytes);
        }
        self.y.put_be(buffer)?;
        Ok(())
    }

    proof fn lemma_round_trip(value: MoveRecord, rest: Seq<u8>) {
        reveal(<MoveRecord as Adapter>::spec_get);
        reveal(<MoveRecord as Adapter>::spec_put);
        let rest3 = rest;
        let rest2 = F32::spec_put(value.y).bytes + rest3;
        let rest1 = F32::spec_put(value.x).bytes + rest2;
        let front1 = u32::spec_put(value.time).bytes;
        let front2 = front1 + F32::spec_put(value.x).bytes;
        lemma_add_assoc(front2, F32::spec_put(value.y).bytes, rest3);
        lemma_add_assoc(front1, F32::spec_put(value.x).bytes, rest2);
        u32::lemma_round_trip(value.time, rest1);
        F32::lemma_round_trip(value.x, rest2);
        F32::lemma_round_trip(value.y, rest3);
    }
}

/// A reference to a slot of an object.
#[derive(Debug, Clone, Copy, PartialEq, Eq, Structural)]
pub struct SlotObjectData {
    pub object_id: u32,
    pub slot_id: u8,
    pub object_type: u32,
}

impl DeepView for SlotObjectData {
    type V = SlotObjectData;

    open spec fn deep_view(&self) -> SlotObjectData {
        *self
    }
}

impl Adapter for SlotObjectData {
    #[verifier::opaque]
    open spec fn spec_get(input: Seq<u8>) -> Read<SlotObjectData, Error> {
        then(u32::spec_get(input), |object_id: u32, rest: Seq<u8>|
            then(u8::spec_get(rest), |slot_id: u8, rest: Seq<u8>|
                then(u32::spec_get(rest), |object_type: u32, rest: Seq<u8>|
                    done(SlotObjectData { object_id, slot_id, object_type }, rest))))
    }

    #[verifier::opaque]
    open spec fn spec_put(value: SlotObjectData) -> Written {
        also(also(u32::spec_put(value.object_id),
            u8::spec_put(value.slot_id)),
            u32::spec_put(value.object_type))
    }

    open spec fn round_trips(value: SlotObjectData, rest: Seq<u8>) -> bool {
        let rest3 = rest;
        let rest2 = u32::spec_put(value.object_type).bytes + rest3;
        let rest1 = u8::spec_put(value.slot_id).bytes + rest2;
        &&& u32::round_trips(value.object_id, rest1)
        &&& u8::round_trips(value.slot_id, rest2)
        &&& u32::round_trips(value.object_type, rest3)
    }

    fn get_be(bytes: &mut Cursor) -> (r: Result<SlotObjectData, Error>) {
        reveal(<SlotObjectData as Adapter>::spec_get);
        let object_id = u32::get_be(bytes)?;
        let slot_id = u8::get_be(bytes)?;
        let object_type = u32::get_be(bytes)?;
        Ok(SlotObjectData { object_id, slot_id, object_type })
    }

    fn put_be(&self, buffer: &mut Vec<u8>) -> (r: Result<(), Error>) {
        reveal(<SlotObjectData as Adapter>::spec_put);
        self.object_id.put_be(buffer)?;
        let ghost written = u32::spec_put(self.deep_view().object_id).bytes;
        proof {
            lemma_add_assoc(old(buffer)@, written, u8::spec_put(self.deep_view().slot_id).bytes);
        }
        self.slot_id.put_be(buffer)?;
        let ghost written = written + u8::spec_put(self.deep_view().slot_id).bytes;
        proof {
            lemma_add_assoc(old(buffer)@, written, u32::spec_put(self.deep_view().object_type).bytes);
        }
        self.object_type.put_be(buffer)?;
        Ok(())
    }

    proof fn lemma_round_trip(value: SlotObjectData, rest: Seq<u8>) {
        reveal(<SlotObjectData as Adapter>::spec_get);
        reveal(<SlotObjectData as Adapter>::spec_put);
        let rest3 = rest;
        let rest2 = u32::spec_put(value.object_type).bytes + rest3;
        let rest1 = u8::spec_put(value.slot_id).bytes + rest2;
        let front1 = u32::spec_put(value.object_id).bytes;
        let front2 = front1 + u8::spec_put(value.slot_id).bytes;
        lemma_add_assoc(front2, u32::spec_put(value.object_type).bytes, rest3);
        lemma_add_assoc(front1, u8::spec_put(value.slot_id).bytes, rest2);
        u32::lemma_round_trip(value.object_id, rest1);
        u8::lemma_round_trip(value.slot_id, rest2);
        u32::lemma_round_trip(value.object_type, rest3);
    }
}

/// An item that is offered in a trade.
#[derive(Debug, Clone, Copy, PartialEq, Eq, Structural)]
pub struct TradeItem {
    pub item: u32,
    pub slot_type: u32,
    pub tradeable: bool,
    pub included: bool,
}

impl DeepView for TradeItem {
    type V = TradeItem;

    open spec fn deep_view(&self) -> TradeItem {
        *self
    }
}

impl Adapter for TradeItem {
    #[verifier::opaque]
    open spec fn spec_get(input: Seq<u8>) -> Read<TradeItem, Error> {
        then(u32::spec_get(input), |item: u32, rest: Seq<u8>|
            then(u32::spec_get(rest), |slot_type: u32, rest: Seq<u8>|
                then(bool::spec_get(rest), |tradeable: bool, rest: Seq<u8>|
                    then(bool::spec_get(rest), |included: bool, rest: Seq<u8>|
                        done(TradeItem { item, slot_type, tradeable, included }, rest)))))
    }

    #[verifier::opaque]
    open spec fn spec_put(value: TradeItem) -> Written {
        also(also(also(u32::spec_put(value.item),
            u32::spec_put(value.slot_type)),
            bool::spec_put(value.tradeable)),
            bool::spec_put(value.included))
    }

    open spec fn round_trips(value: TradeItem, rest: Seq<u8>) -> bool {
        let rest4 = rest;
        let rest3 = bool::spec_put(value.included).bytes + rest4;
        let rest2 = bool::spec_put(value.tradeable).bytes + rest3;
        let rest1 = u32::spec_put(value.slot_type).bytes + rest2;
        &&& u32::round_trips(value.item, rest1)
        &&& u32::round_trips(value.slot_type, rest2)
        &&& bool::round_trips(value.tradeable, rest3)
        &&& bool::round_trips(value.included, rest4)
    }

    fn get_be(bytes: &mut Cursor) -> (r: Result<TradeItem, Error>) {
        reveal(<TradeItem as Adapter>::spec_get);
        let item = u32::get_be(bytes)?;
        let slot_type = u32::get_be(bytes)?;
        let tradeable = bool::get_be(bytes)?;
        let included = bool::get_be(bytes)?;
        Ok(TradeItem { item, slot_type, tradeable, included })
    }

    fn put_be(&self, buffer: &mut Vec<u8>) -> (r: Result<(), Error>) {
        reveal(<TradeItem as Adapter>::spec_put);
        self.item.put_be(buffer)?;
        let ghost written = u32::spec_put(self.deep_view().item).bytes;
        proof {
            lemma_add_assoc(old(buffer)@, written, u32::spec_put(self.deep_view().slot_type).bytes);
        }
        self.slot_type.put_be(buffer)?;
        let ghost written = written + u32::spec_put(self.deep_view().slot_type).bytes;
        proof {
            lemma_add_assoc(old(buffer)@, written, bool::spec_put(self.deep_view().tradeable).bytes);
        }
        self.tradeable.put_be(buffer)?;
        let ghost written = written + bool::spec_put(self.deep_view().tradeable).bytes;
        proof {
            lemma_add_assoc(old(buffer)@, written, bool::spec_put(self.deep_view().included).bytes);
        }
        self.included.put_be(buffer)?;
        Ok(())
    }

    proof fn lemma_round_trip(value: TradeItem, rest: Seq<u8>) {
        reveal(<TradeItem as Adapter>::spec_get);
        reveal(<TradeItem as Adapter>::spec_put);
        let rest4 = rest;
        let rest3 = bool::spec_put(value.included).bytes + rest4;
        let rest2 = bool::spec_put(value.tradeable).bytes + rest3;
        let rest1 = u32::spec_put(value.slot_type).bytes + rest2;
        let front1 = u32::spec_put(value.item).bytes;
        let front2 = front1 + u32::spec_put(value.slot_type).bytes;
        let front3 = front2 + bool::spec_put(value.tradeable).bytes;
        lemma_add_assoc(front3, bool::spec_put(value.included).bytes, rest4);
        lemma_add_assoc(front2, bool::spec_put(value.tradeable).bytes, rest3);
        lemma_add_assoc(front1, u32::spec_put(value.slot_type).bytes, rest2);
        u32::lemma_round_trip(value.item, rest1);
        u32::lemma_round_trip(value.slot_type, rest2);
        bool::lemma_round_trip(value.tradeable, rest3);
        bool::lemma_round_trip(value.included, rest4);
    }
}

/// The state of an object: where it is and what its stats are.
#[derive(Debug, Clone, PartialEq, Eq)]
pub struct ObjectStatusData {
    pub object_id: u32,
    pub pos: WorldPosData,
    pub stats: RLE<Vec<StatData>>,
}

/// The model of [`ObjectStatusData`].
pub struct ObjectStatusDataModel {
    pub object_id: u32,
    pub pos: WorldPosData,
    pub stats: Seq<StatDataModel>,
}

impl DeepView for ObjectStatusData {
    type V = ObjectStatusDataModel;

    open spec fn deep_view(&self) -> ObjectStatusDataModel {
        ObjectStatusDataModel {
            object_id: self.object_id,
            pos: self.pos,
            stats: self.stats.deep_view(),
        }
    }
}

impl Adapter for ObjectStatusData {
    #[verifier::opaque]
    open spec fn spec_get(input: Seq<u8>) -> Read<ObjectStatusDataModel, Error> {
        then(u32::spec_get(input), |object_id: u32, rest: Seq<u8>|
            then(WorldPosData::spec_get(rest), |pos: WorldPosData, rest: Seq<u8>|
                then(RLE::<Vec<StatData>, u16>::spec_get(rest), |stats: Seq<StatDataModel>, rest: Seq<u8>|
                    done(ObjectStatusDataModel { object_id, pos, stats }, rest))))
    }

    #[verifier::opaque]
    open spec fn spec_put(value: ObjectStatusDataModel) -> Written {
        also(also(u32::spec_put(value.object_id),
            WorldPosData::spec_put(value.pos)),
            RLE::<Vec<StatData>, u16>::spec_put(value.stats))
    }

    open spec fn round_trips(value: ObjectStatusDataModel, rest: Seq<u8>) -> bool {
        let rest3 = rest;
        let rest2 = RLE::<Vec<StatData>, u16>::spec_put(value.stats).bytes + rest3;
        let rest1 = WorldPosData::spec_put(value.pos).bytes + rest2;
        &&& u32::round_trips(value.object_id, rest1)
        &&& WorldPosData::round_trips(value.pos, rest2)
        &&& RLE::<Vec<StatData>, u16>::round_trips(value.stats, rest3)
    }

    fn get_be(bytes: &mut Cursor) -> (r: Result<ObjectStatusData, Error>) {
        reveal(<ObjectStatusData as Adapter>::spec_get);
        let object_id = u32::get_be(bytes)?;
        let pos = WorldPosData::get_be(bytes)?;
        let stats = RLE::<Vec<StatData>, u16>::get_be(bytes)?;
        Ok(ObjectStatusData { object_id, pos, stats })
    }

    fn put_be(&self, buffer: &mut Vec<u8>) -> (r: Result<(), Error>) {
        reveal(<ObjectStatusData as Adapter>::spec_put);
        self.object_id.put_be(buffer)?;
        let ghost written = u32::spec_put(self.deep_view().object_id).bytes;
        proof {
            lemma_add_assoc(old(buffer)@, written, WorldPosData::spec_put(self.deep_view().pos).bytes);
        }
        self.pos.put_be(buffer)?;
        let ghost written = written + WorldPosData::spec_put(self.deep_view().pos).bytes;
        proof {
            lemma_add_assoc(old(buffer)@, written, RLE::<Vec<StatData>, u16>::spec_put(self.deep_view().stats).bytes);
        }
        self.stats.put_be(buffer)?;
        Ok(())
    }

    proof fn lemma_round_trip(value: ObjectStatusDataModel, rest: Seq<u8>) {
        reveal(<ObjectStatusData as Adapter>::spec_get);
        reveal(<ObjectStatusData as Adapter>::spec_put);
        let rest3 = rest;
        let rest2 = RLE::<Vec<StatData>, u16>::spec_put(value.stats).bytes + rest3;
        let rest1 = WorldPosData::spec_put(value.pos).bytes + rest2;
        let front1 = u32::spec_put(value.object_id).bytes;
        let front2 = front1 + WorldPosData::spec_put(value.pos).bytes;
        lemma_add_assoc(front2, RLE::<Vec<StatData>, u16>::spec_put(value.stats).bytes, rest3);
        lemma_add_assoc(front1, WorldPosData::spec_put(value.pos).bytes, rest2);
        u32::lemma_round_trip(value.object_id, rest1);
        WorldPosData::lemma_round_trip(value.pos, rest2);
        RLE::<Vec<StatData>, u16>::lemma_round_trip(value.stats, rest3);
    }
}

/// An object: its type and its state.
#[derive(Debug, Clone, PartialEq, Eq)]
pub struct ObjectData {
    pub object_type: u16,
    pub status: ObjectStatusData,
}

/// The model of [`ObjectData`].
pub struct ObjectDataModel {
    pub object_type: u16,
    pub status: ObjectStatusDataModel,
}

impl DeepView for ObjectData {
    type V = ObjectDataModel;

    open spec fn deep_view(&self) -> ObjectDataModel {
        ObjectDataModel {
            object_type: self.object_type,
            status: self.status.deep_view(),
        }
    }
}

impl Adapter for ObjectData {
    #[verifier::opaque]
    open spec fn spec_get(input: Seq<u8>) -> Read<ObjectDataModel, Error> {
        then(u16::spec_get(input), |object_type: u16, rest: Seq<u8>|
            then(ObjectStatusData::spec_get(rest), |status: ObjectStatusDataModel, rest: Seq<u8>|
                done(ObjectDataModel { object_type, status }, rest)))
    }

    #[verifier::opaque]
    open spec fn spec_put(value: ObjectDataModel) -> Written {
        also(u16::spec_put(value.object_type),
            ObjectStatusData::spec_put(value.status))
    }

    open spec fn round_trips(value: ObjectDataModel, rest: Seq<u8>) -> bool {
        let rest2 = rest;
        let rest1 = ObjectStatusData::spec_put(value.status).bytes + rest2;
        &&& u16::round_trips(value.object_type, rest1)
        &&& ObjectStatusData::round_trips(value.status, rest2)
    }

    fn get_be(bytes: &mut Cursor) -> (r: Result<ObjectData, Error>) {
        reveal(<ObjectData as Adapter>::spec_get);
        let object_type = u16::get_be(bytes)?;
        let status = ObjectStatusData::get_be(bytes)?;
        Ok(ObjectData { object_type, status })
    }

    fn put_be(&self, buffer: &mut Vec<u8>) -> (r: Result<(), Error>) {
        reveal(<ObjectData as Adapter>::spec_put);
        self.object_type.put_be(buffer)?;
        let ghost written = u16::spec_put(self.deep_view().object_type).bytes;
        proof {
            lemma_add_assoc(old(buffer)@, written, ObjectStatusData::spec_put(self.deep_view().status).bytes);
        }
        self.status.put_be(buffer)?;
        Ok(())
    }

    proof fn lemma_round_trip(value: ObjectDataModel, rest: Seq<u8>) {
        reveal(<ObjectData as Adapter>::spec_get);
        reveal(<ObjectData as Adapter>::spec_put);
        let rest2 = rest;
        let rest1 = ObjectStatusData::spec_put(value.status).bytes + rest2;
        let front1 = u16::spec_put(value.object_type).bytes;
        lemma_add_assoc(front1, ObjectStatusData::spec_put(value.status).bytes, rest2);
        u16::lemma_round_trip(value.object_type, rest1);
        ObjectStatusData::lemma_round_trip(value.status, rest2);
    }
}

/// A quest.
#[derive(Debug, Clone, PartialEq, Eq)]
pub struct QuestData {
    pub id: RLE<String>,
    pub name: RLE<String>,
    pub description: RLE<String>,
    pub category: u32,
    pub requirements: RLE<Vec<u32>>,
    pub rewards: RLE<Vec<u32>>,
    pub completed: bool,
    pub item_of_choice: bool,
    pub repeatable: bool,
}

/// The model of [`QuestData`].
pub struct QuestDataModel {
    pub id: Seq<char>,
    pub name: Seq<char>,
    pub description: Seq<char>,
    pub category: u32,
    pub requirements: Seq<u32>,
    pub rewards: Seq<u32>,
    pub completed: bool,
    pub item_of_choice: bool,
    pub repeatable: bool,
}

impl DeepView for QuestData {
    type V = QuestDataModel;

    open spec fn deep_view(&self) -> QuestDataModel {
        QuestDataModel {
            id: self.id.deep_view(),
            name: self.name.deep_view(),
            description: self.description.deep_view(),
            category: self.category,
            requirements: self.requirements.deep_view(),
            rewards: self.rewards.deep_view(),
            completed: self.completed,
            item_of_choice: self.item_of_choice,
            repeatable: self.repeatable,
        }
    }
}

impl Adapter for QuestData {
    #[verifier::opaque]
    open spec fn spec_get(input: Seq<u8>) -> Read<QuestDataModel, Error> {
        then(RLE::<String, u16>::spec_get(input), |id: Seq<char>, rest: Seq<u8>|
            then(RLE::<String, u16>::spec_get(rest), |name: Seq<char>, rest: Seq<u8>|
                then(RLE::<String, u16>::spec_get(rest), |description: Seq<char>, rest: Seq<u8>|
                    then(u32::spec_get(rest), |category: u32, rest: Seq<u8>|
                        then(RLE::<Vec<u32>, u16>::spec_get(rest), |requirements: Seq<u32>, rest: Seq<u8>|
                            then(RLE::<Vec<u32>, u16>::spec_get(rest), |rewards: Seq<u32>, rest: Seq<u8>|
                                then(bool::spec_get(rest), |completed: bool, rest: Seq<u8>|
                                    then(bool::spec_get(rest), |item_of_choice: bool, rest: Seq<u8>|
                                        then(bool::spec_get(rest), |repeatable: bool, rest: Seq<u8>|
                                            done(QuestDataModel { id, name, description, category, requirements, rewards, completed, item_of_choice, repeatable }, rest))))))))))
    }

    #[verifier::opaque]
    open spec fn spec_put(value: QuestDataModel) -> Written {
        also(also(also(also(also(also(also(also(RLE::<String, u16>::spec_put(value.id),
            RLE::<String, u16>::spec_put(value.name)),
            RLE::<String, u16>::spec_put(value.description)),
            u32::spec_put(value.category)),
            RLE::<Vec<u32>, u16>::spec_put(value.requirements)),
            RLE::<Vec<u32>, u16>::spec_put(value.rewards)),
            bool::spec_put(value.completed)),
            bool::spec_put(value.item_of_choice)),
            bool::spec_put(value.repeatable))
    }

    open spec fn round_trips(value: QuestDataModel, rest: Seq<u8>) -> bool {
        let rest9 = rest;
        let rest8 = bool::spec_put(value.repeatable).bytes + rest9;
        let rest7 = bool::spec_put(value.item_of_choice).bytes + rest8;
        let rest6 = bool::spec_put(value.completed).bytes + rest7;
        let rest5 = RLE::<Vec<u32>, u16>::spec_put(value.rewards).bytes + rest6;
        let rest4 = RLE::<Vec<u32>, u16>::spec_put(value.requirements).bytes + rest5;
        let rest3 = u32::spec_put(value.category).bytes + rest4;
        let rest2 = RLE::<String, u16>::spec_put(value.description).bytes + rest3;
        let rest1 = RLE::<String, u16>::spec_put(value.name).bytes + rest2;
        &&& RLE::<String, u16>::round_trips(value.id, rest1)
        &&& RLE::<String, u16>::round_trips(value.name, rest2)
        &&& RLE::<String, u16>::round_trips(value.description, rest3)
        &&& u32::round_trips(value.category, rest4)
        &&& RLE::<Vec<u32>, u16>::round_trips(value.requirements, rest5)
        &&& RLE::<Vec<u32>, u16>::round_trips(value.rewards, rest6)
        &&& bool::round_trips(value.completed, rest7)
        &&& bool::round_trips(value.item_of_choice, rest8)
        &&& bool::round_trips(value.repeatable, rest9)
    }

    fn get_be(bytes: &mut Cursor) -> (r: Result<QuestData, Error>) {
        reveal(<QuestData as Adapter>::spec_get);
        let id = RLE::<String, u16>::get_be(bytes)?;
        let name = RLE::<String, u16>::get_be(bytes)?;
        let description = RLE::<String, u16>::get_be(bytes)?;
        let category = u32::get_be(bytes)?;
        let requirements = RLE::<Vec<u32>, u16>::get_be(bytes)?;
        let rewards = RLE::<Vec<u32>, u16>::get_be(bytes)?;
        let completed = bool::get_be(bytes)?;
        let item_of_choice = bool::get_be(bytes)?;
        let repeatable = bool::get_be(bytes)?;
        Ok(QuestData { id, name, description, category, requirements, rewards, completed, item_of_choice, repeatable })
    }

    fn put_be(&self, buffer: &mut Vec<u8>) -> (r: Result<(), Error>) {
        reveal(<QuestData as Adapter>::spec_put);
        self.id.put_be(buffer)?;
        let ghost written = RLE::<String, u16>::spec_put(self.deep_view().id).bytes;
        proof {
            lemma_add_assoc(old(buffer)@, written, RLE::<String, u16>::spec_put(self.deep_view().name).bytes);
        }
        self.name.put_be(buffer)?;
        let ghost written = written + RLE::<String, u16>::spec_put(self.deep_view().name).bytes;
        proof {
            lemma_add_assoc(old(buffer)@, written, RLE::<String, u16>::spec_put(self.deep_view().description).bytes);
        }
        self.description.put_be(buffer)?;
        let ghost written = written + RLE::<String, u16>::spec_put(self.deep_view().description).bytes;
        proof {
            lemma_add_assoc(old(buffer)@, written, u32::spec_put(self.deep_view().category).bytes);
        }
        self.category.put_be(buffer)?;
        let ghost written = written + u32::spec_put(self.deep_view().category).bytes;
        proof {
            lemma_add_assoc(old(buffer)@, written, RLE::<Vec<u32>, u16>::spec_put(self.deep_view().requirements).bytes);
        }
        self.requirements.put_be(buffer)?;
        let ghost written = written + RLE::<Vec<u32>, u16>::spec_put(self.deep_view().requirements).bytes;
        proof {
            lemma_add_assoc(old(buffer)@, written, RLE::<Vec<u32>, u16>::spec_put(self.deep_view().rewards).bytes);
        }
        self.rewards.put_be(buffer)?;
        let ghost written = written + RLE::<Vec<u32>, u16>::spec_put(self.deep_view().rewards).bytes;
        proof {
            lemma_add_assoc(old(buffer)@, written, bool::spec_put(self.deep_view().completed).bytes);
        }
        self.completed.put_be(buffer)?;
        let ghost written = written + bool::spec_put(self.deep_view().completed).bytes;
        proof {
            lemma_add_assoc(old(buffer)@, written, bool::spec_put(self.deep_view().item_of_choice).bytes);
        }
        self.item_of_choice.put_be(buffer)?;
        let ghost written = written + bool::spec_put(self.deep_view().item_of_choice).bytes;
        proof {
            lemma_add_assoc(old(buffer)@, written, bool::spec_put(self.deep_view().repeatable).bytes);
        }
        self.repeatable.put_be(buffer)?;
        Ok(())
    }

    proof fn lemma_round_trip(value: QuestDataModel, rest: Seq<u8>) {
        reveal(<QuestData as Adapter>::spec_get);
        reveal(<QuestData as Adapter>::spec_put);
        let rest9 = rest;
        let rest8 = bool::spec_put(value.repeatable).bytes + rest9;
        let rest7 = bool::spec_put(value.item_of_choice).bytes + rest8;
        let rest6 = bool::spec_put(value.completed).bytes + rest7;
        let rest5 = RLE::<Vec<u32>, u16>::spec_put(value.rewards).bytes + rest6;
        let rest4 = RLE::<Vec<u32>, u16>::spec_put(value.requirements).bytes + rest5;
        let rest3 = u32::spec_put(value.category).bytes + rest4;
        let rest2 = RLE::<String, u16>::spec_put(value.description).bytes + rest3;
        let rest1 = RLE::<String, u16>::spec_put(value.name).bytes + rest2;
        let front1 = RLE::<String, u16>::spec_put(value.id).bytes;
        let front2 = front1 + RLE::<String, u16>::spec_put(value.name).bytes;
        let front3 = front2 + RLE::<String, u16>::spec_put(value.description).bytes;
        let front4 = front3 + u32::spec_put(value.category).bytes;
        let front5 = front4 + RLE::<Vec<u32>, u16>::spec_put(value.requirements).bytes;
        let front6 = front5 + RLE::<Vec<u32>, u16>::spec_put(value.rewards).bytes;
        let front7 = front6 + bool::spec_put(value.completed).bytes;
        let front8 = front7 + bool::spec_put(value.item_of_choice).bytes;
        lemma_add_assoc(front8, bool::spec_put(value.repeatable).bytes, rest9);
        lemma_add_assoc(front7, bool::spec_put(value.item_of_choice).bytes, rest8);
        lemma_add_assoc(front6, bool::spec_put(value.completed).bytes, rest7);
        lemma_add_assoc(front5, RLE::<Vec<u32>, u16>::spec_put(value.rewards).bytes, rest6);
        lemma_add_assoc(front4, RLE::<Vec<u32>, u16>::spec_put(value.requirements).bytes, rest5);
        lemma_add_assoc(front3, u32::spec_put(value.category).bytes, rest4);
        lemma_add_assoc(front2, RLE::<String, u16>::spec_put(value.description).bytes, rest3);
        lemma_add_assoc(front1, RLE::<String, u16>::spec_put(value.name).bytes, rest2);
        RLE::<String, u16>::lemma_round_trip(value.id, rest1);
        RLE::<String, u16>::lemma_round_trip(value.name, rest2);
        RLE::<String, u16>::lemma_round_trip(value.description, rest3);
        u32::lemma_round_trip(value.category, rest4);
        RLE::<Vec<u32>, u16>::lemma_round_trip(value.requirements, rest5);
        RLE::<Vec<u32>, u16>::lemma_round_trip(value.rewards, rest6);
        bool::lemma_round_trip(value.completed, rest7);
        bool::lemma_round_trip(value.item_of_choice, rest8);
        bool::lemma_round_trip(value.repeatable, rest9);
    }
}

} // verus!
