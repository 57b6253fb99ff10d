//! Stats: the numbered properties of an object, each a number or a text.

use vstd::prelude::*;
use crate::adapter::rle::{lemma_rle_view, RLE};
use crate::adapter::{
    also, lemma_add_assoc, lemma_add_empty, lemma_skip_first, refused, Adapter, Error, InvalidData,
    Written,
};
use crate::cursor::{done, fail, then, Cursor, Read};

verus! {

broadcast use {
    lemma_add_assoc,
    lemma_add_empty,
    lemma_skip_first,
    lemma_rle_view,
};

/// The type of a stat. Its wire form is one byte.
#[derive(Debug, PartialEq, Eq, PartialOrd, Ord, Clone, Copy, Hash, Structural)]
#[allow(non_camel_case_types)]
pub enum StatType {
    MAX_HP_STAT,
    HP_STAT,
    SIZE_STAT,
    MAX_MP_STAT,
    MP_STAT,
    NEXT_LEVEL_EXP_STAT,
    EXP_STAT,
    LEVEL_STAT,
    ATTACK_STAT,
    DEFENSE_STAT,
    SPEED_STAT,
    INVENTORY_0_STAT,
    INVENTORY_1_STAT,
    INVENTORY_2_STAT,
    INVENTORY_3_STAT,
    INVENTORY_4_STAT,
    INVENTORY_5_STAT,
    INVENTORY_6_STAT,
    INVENTORY_7_STAT,
    INVENTORY_8_STAT,
    INVENTORY_9_STAT,
    INVENTORY_10_STAT,
    INVENTORY_11_STAT,
    VITALITY_STAT,
    WISDOM_STAT,
    DEXTERITY_STAT,
    CONDITION_STAT,
    NUM_STARS_STAT,
    NAME_STAT,
    TEX1_STAT,
    TEX2_STAT,
    MERCHANDISE_TYPE_STAT,
    CREDITS_STAT,
    MERCHANDISE_PRICE_STAT,
    ACTIVE_STAT,
    ACCOUNT_ID_STAT,
    FAME_STAT,
    MERCHANDISE_CURRENCY_STAT,
    CONNECT_STAT,
    MERCHANDISE_COUNT_STAT,
    MERCHANDISE_MINS_LEFT_STAT,
    MERCHANDISE_DISCOUNT_STAT,
    MERCHANDISE_RANK_REQ_STAT,
    MAX_HP_BOOST_STAT,
    MAX_MP_BOOST_STAT,
    ATTACK_BOOST_STAT,
    DEFENSE_BOOST_STAT,
    SPEED_BOOST_STAT,
    VITALITY_BOOST_STAT,
    WISDOM_BOOST_STAT,
    DEXTERITY_BOOST_STAT,
    OWNER_ACCOUNT_ID_STAT,
    RANK_REQUIRED_STAT,
    NAME_CHOSEN_STAT,
    CURR_FAME_STAT,
    NEXT_CLASS_QUEST_FAME_STAT,
    LEGENDARY_RANK_STAT,
    SINK_LEVEL_STAT,
    ALT_TEXTURE_STAT,
    GUILD_NAME_STAT,
    GUILD_RANK_STAT,
    BREATH_STAT,
    XP_BOOSTED_STAT,
    XP_TIMER_STAT,
    LD_TIMER_STAT,
    LT_TIMER_STAT,
    HEALTH_POTION_STACK_STAT,
    MAGIC_POTION_STACK_STAT,
    BACKPACK_0_STAT,
    BACKPACK_1_STAT,
    BACKPACK_2_STAT,
    BACKPACK_3_STAT,
    BACKPACK_4_STAT,
    BACKPACK_5_STAT,
    BACKPACK_6_STAT,
    BACKPACK_7_STAT,
    HASBACKPACK_STAT,
    TEXTURE_STAT,
    PET_INSTANCEID_STAT,
    PET_NAME_STAT,
    PET_TYPE_STAT,
    PET_RARITY_STAT,
    PET_MAXABILITYPOWER_STAT,
    PET_FAMILY_STAT,
    PET_FIRSTABILITY_POINT_STAT,
    PET_SECONDABILITY_POINT_STAT,
    PET_THIRDABILITY_POINT_STAT,
    PET_FIRSTABILITY_POWER_STAT,
    PET_SECONDABILITY_POWER_STAT,
    PET_THIRDABILITY_POWER_STAT,
    PET_FIRSTABILITY_TYPE_STAT,
    PET_SECONDABILITY_TYPE_STAT,
    PET_THIRDABILITY_TYPE_STAT,
    NEW_CON_STAT,
    FORTUNE_TOKEN_STAT,
    SUPPORTER_POINTS_STAT,
    SUPPORTER_STAT,
}

impl StatType {
    /// The stat type whose wire form is `byte`, if there is one.
    #[verifier::opaque]
    pub open spec fn spec_from_byte(byte: u8) -> Option<StatType> {
        if byte == 0 {
            Some(StatType::MAX_HP_STAT)
        } else if byte == 1 {
            Some(StatType::HP_STAT)
        } else if byte == 2 {
            Some(StatType::SIZE_STAT)
        } else if byte == 3 {
            Some(StatType::MAX_MP_STAT)
        } else if byte == 4 {
            Some(StatType::MP_STAT)
        } else if byte == 5 {
            Some(StatType::NEXT_LEVEL_EXP_STAT)
        } else if byte == 6 {
            Some(StatType::EXP_STAT)
        } else if byte == 7 {
            Some(StatType::LEVEL_STAT)
        } else if byte == 8 {
            Some(StatType::INVENTORY_0_STAT)
        } else if byte == 9 {
            Some(StatType::INVENTORY_1_STAT)
        } else if byte == 10 {
            Some(StatType::INVENTORY_2_STAT)
        } else if byte == 11 {
            Some(StatType::INVENTORY_3_STAT)
        } else if byte == 12 {
            Some(StatType::INVENTORY_4_STAT)
        } else if byte == 13 {
            Some(StatType::INVENTORY_5_STAT)
        } else if byte == 14 {
            Some(StatType::INVENTORY_6_STAT)
        } else if byte == 15 {
            Some(StatType::INVENTORY_7_STAT)
        } else if byte == 16 {
            Some(StatType::INVENTORY_8_STAT)
        } else if byte == 17 {
            Some(StatType::INVENTORY_9_STAT)
        } else if byte == 18 {
            Some(StatType::INVENTORY_10_STAT)
        } else if byte == 19 {
            Some(StatType::INVENTORY_11_STAT)
        } else if byte == 20 {
            Some(StatType::ATTACK_STAT)
        } else if byte == 21 {
            Some(StatType::DEFENSE_STAT)
        } else if byte == 22 {
            Some(StatType::SPEED_STAT)
        } else if byte == 26 {
            Some(StatType::VITALITY_STAT)
        } else if byte == 27 {
            Some(StatType::WISDOM_STAT)
        } else if byte == 28 {
            Some(StatType::DEXTERITY_STAT)
        } else if byte == 29 {
            Some(StatType::CONDITION_STAT)
        } else if byte == 30 {
            Some(StatType::NUM_STARS_STAT)
        } else if byte == 31 {
            Some(StatType::NAME_STAT)
        } else if byte == 32 {
            Some(StatType::TEX1_STAT)
        } else if byte == 33 {
            Some(StatType::TEX2_STAT)
        } else if byte == 34 {
            Some(StatType::MERCHANDISE_TYPE_STAT)
        } else if byte == 35 {
            Some(StatType::CREDITS_STAT)
        } else if byte == 36 {
            Some(StatType::MERCHANDISE_PRICE_STAT)
        } else if byte == 37 {
            Some(StatType::ACTIVE_STAT)
        } else if byte == 38 {
            Some(StatType::ACCOUNT_ID_STAT)
        } else if byte == 39 {
            Some(StatType::FAME_STAT)
        } else if byte == 40 {
            Some(StatType::MERCHANDISE_CURRENCY_STAT)
        } else if byte == 41 {
            Some(StatType::CONNECT_STAT)
        } else if byte == 42 {
            Some(StatType::MERCHANDISE_COUNT_STAT)
        } else if byte == 43 {
            Some(StatType::MERCHANDISE_MINS_LEFT_STAT)
        } else if byte == 44 {
            Some(StatType::MERCHANDISE_DISCOUNT_STAT)
        } else if byte == 45 {
            Some(StatType::MERCHANDISE_RANK_REQ_STAT)
        } else if byte == 46 {
            Some(StatType::MAX_HP_BOOST_STAT)
        } else if byte == 47 {
            Some(StatType::MAX_MP_BOOST_STAT)
        } else if byte == 48 {
            Some(StatType::ATTACK_BOOST_STAT)
        } else if byte == 49 {
            Some(StatType::DEFENSE_BOOST_STAT)
        } else if byte == 50 {
            Some(StatType::SPEED_BOOST_STAT)
        } else if byte == 51 {
            Some(StatType::VITALITY_BOOST_STAT)
        } else if byte == 52 {
            Some(StatType::WISDOM_BOOST_STAT)
        } else if byte == 53 {
            Some(StatType::DEXTERITY_BOOST_STAT)
        } else if byte == 54 {
            Some(StatType::OWNER_ACCOUNT_ID_STAT)
        } else if byte == 55 {
            Some(StatType::RANK_REQUIRED_STAT)
        } else if byte == 56 {
            Some(StatType::NAME_CHOSEN_STAT)
        } else if byte == 57 {
            Some(StatType::CURR_FAME_STAT)
        } else if byte == 58 {
            Some(StatType::NEXT_CLASS_QUEST_FAME_STAT)
        } else if byte == 59 {
            Some(StatType::LEGENDARY_RANK_STAT)
        } else if byte == 60 {
            Some(StatType::SINK_LEVEL_STAT)
        } else if byte == 61 {
            Some(StatType::ALT_TEXTURE_STAT)
        } else if byte == 62 {
            Some(StatType::GUILD_NAME_STAT)
        } else if byte == 63 {
            Some(StatType::GUILD_RANK_STAT)
        } else if byte == 64 {
            Some(StatType::BREATH_STAT)
        } else if byte == 65 {
            Some(StatType::XP_BOOSTED_STAT)
        } else if byte == 66 {
            Some(StatType::XP_TIMER_STAT)
        } else if byte == 67 {
            Some(StatType::LD_TIMER_STAT)
        } else if byte == 68 {
            Some(StatType::LT_TIMER_STAT)
        } else if byte == 69 {
            Some(StatType::HEALTH_POTION_STACK_STAT)
        } else if byte == 70 {
            Some(StatType::MAGIC_POTION_STACK_STAT)
        } else if byte == 71 {
            Some(StatType::BACKPACK_0_STAT)
        } else if byte == 72 {
            Some(StatType::BACKPACK_1_STAT)
        } else if byte == 73 {
            Some(StatType::BACKPACK_2_STAT)
        } else if byte == 74 {
            Some(StatType::BACKPACK_3_STAT)
        } else if byte == 75 {
            Some(StatType::BACKPACK_4_STAT)
        } else if byte == 76 {
            Some(StatType::BACKPACK_5_STAT)
        } else if byte == 77 {
            Some(StatType::BACKPACK_6_STAT)
        } else if byte == 78 {
            Some(StatType::BACKPACK_7_STAT)
        } else if byte == 79 {
            Some(StatType::HASBACKPACK_STAT)
        } else if byte == 80 {
            Some(StatType::TEXTURE_STAT)
        } else if byte == 81 {
            Some(StatType::PET_INSTANCEID_STAT)
        } else if byte == 82 {
            Some(StatType::PET_NAME_STAT)
        } else if byte == 83 {
            Some(StatType::PET_TYPE_STAT)
        } else if byte == 84 {
            Some(StatType::PET_RARITY_STAT)
        } else if byte == 85 {
            Some(StatType::PET_MAXABILITYPOWER_STAT)
        } else if byte == 86 {
            Some(StatType::PET_FAMILY_STAT)
        } else if byte == 87 {
            Some(StatType::PET_FIRSTABILITY_POINT_STAT)
        } else if byte == 88 {
            Some(StatType::PET_SECONDABILITY_POINT_STAT)
        } else if byte == 89 {
            Some(StatType::PET_THIRDABILITY_POINT_STAT)
        } else if byte == 90 {
            Some(StatType::PET_FIRSTABILITY_POWER_STAT)
        } else if byte == 91 {
            Some(StatType::PET_SECONDABILITY_POWER_STAT)
        } else if byte == 92 {
            Some(StatType::PET_THIRDABILITY_POWER_STAT)
        } else if byte == 93 {
            Some(StatType::PET_FIRSTABILITY_TYPE_STAT)
        } else if byte == 94 {
            Some(StatType::PET_SECONDABILITY_TYPE_STAT)
        } else if byte == 95 {
            Some(StatType::PET_THIRDABILITY_TYPE_STAT)
        } else if byte == 96 {
            Some(StatType::NEW_CON_STAT)
        } else if byte == 97 {
            Some(StatType::FORTUNE_TOKEN_STAT)
        } else if byte == 98 {
            Some(StatType::SUPPORTER_POINTS_STAT)
        } else if byte == 99 {
            Some(StatType::SUPPORTER_STAT)
        } else {
            None
        }
    }

    /// The wire form of the stat type.
    #[verifier::opaque]
    pub open spec fn spec_to_byte(self) -> u8 {
        match self {
            StatType::MAX_HP_STAT => 0,
            StatType::HP_STAT => 1,
            StatType::SIZE_STAT => 2,
            StatType::MAX_MP_STAT => 3,
            StatType::MP_STAT => 4,
            StatType::NEXT_LEVEL_EXP_STAT => 5,
            StatType::EXP_STAT => 6,
            StatType::LEVEL_STAT => 7,
            StatType::ATTACK_STAT => 20,
            StatType::DEFENSE_STAT => 21,
            StatType::SPEED_STAT => 22,
            StatType::INVENTORY_0_STAT => 8,
            StatType::INVENTORY_1_STAT => 9,
            StatType::INVENTORY_2_STAT => 10,
            StatType::INVENTORY_3_STAT => 11,
            StatType::INVENTORY_4_STAT => 12,
            StatType::INVENTORY_5_STAT => 13,
            StatType::INVENTORY_6_STAT => 14,
            StatType::INVENTORY_7_STAT => 15,
            StatType::INVENTORY_8_STAT => 16,
            StatType::INVENTORY_9_STAT => 17,
            StatType::INVENTORY_10_STAT => 18,
            StatType::INVENTORY_11_STAT => 19,
            StatType::VITALITY_STAT => 26,
            StatType::WISDOM_STAT => 27,
            StatType::DEXTERITY_STAT => 28,
            StatType::CONDITION_STAT => 29,
            StatType::NUM_STARS_STAT => 30,
            StatType::NAME_STAT => 31,
            StatType::TEX1_STAT => 32,
            StatType::TEX2_STAT => 33,
            StatType::MERCHANDISE_TYPE_STAT => 34,
            StatType::CREDITS_STAT => 35,
            StatType::MERCHANDISE_PRICE_STAT => 36,
            StatType::ACTIVE_STAT => 37,
            StatType::ACCOUNT_ID_STAT => 38,
            StatType::FAME_STAT => 39,
            StatType::MERCHANDISE_CURRENCY_STAT => 40,
            StatType::CONNECT_STAT => 41,
            StatType::MERCHANDISE_COUNT_STAT => 42,
            StatType::MERCHANDISE_MINS_LEFT_STAT => 43,
            StatType::MERCHANDISE_DISCOUNT_STAT => 44,
            StatType::MERCHANDISE_RANK_REQ_STAT => 45,
            StatType::MAX_HP_BOOST_STAT => 46,
            StatType::MAX_MP_BOOST_STAT => 47,
            StatType::ATTACK_BOOST_STAT => 48,
            StatType::DEFENSE_BOOST_STAT => 49,
            StatType::SPEED_BOOST_STAT => 50,
            StatType::VITALITY_BOOST_STAT => 51,
            StatType::WISDOM_BOOST_STAT => 52,
            StatType::DEXTERITY_BOOST_STAT => 53,
            StatType::OWNER_ACCOUNT_ID_STAT => 54,
            StatType::RANK_REQUIRED_STAT => 55,
            StatType::NAME_CHOSEN_STAT => 56,
            StatType::CURR_FAME_STAT => 57,
            StatType::NEXT_CLASS_QUEST_FAME_STAT => 58,
            StatType::LEGENDARY_RANK_STAT => 59,
            StatType::SINK_LEVEL_STAT => 60,
            StatType::ALT_TEXTURE_STAT => 61,
            StatType::GUILD_NAME_STAT => 62,
            StatType::GUILD_RANK_STAT => 63,
            StatType::BREATH_STAT => 64,
            StatType::XP_BOOSTED_STAT => 65,
            StatType::XP_TIMER_STAT => 66,
            StatType::LD_TIMER_STAT => 67,
            StatType::LT_TIMER_STAT => 68,
            StatType::HEALTH_POTION_STACK_STAT => 69,
            StatType::MAGIC_POTION_STACK_STAT => 70,
            StatType::BACKPACK_0_STAT => 71,
            StatType::BACKPACK_1_STAT => 72,
            StatType::BACKPACK_2_STAT => 73,
            StatType::BACKPACK_3_STAT => 74,
            StatType::BACKPACK_4_STAT => 75,
            StatType::BACKPACK_5_STAT => 76,
            StatType::BACKPACK_6_STAT => 77,
            StatType::BACKPACK_7_STAT => 78,
            StatType::HASBACKPACK_STAT => 79,
            StatType::TEXTURE_STAT => 80,
            StatType::PET_INSTANCEID_STAT => 81,
            StatType::PET_NAME_STAT => 82,
            StatType::PET_TYPE_STAT => 83,
            StatType::PET_RARITY_STAT => 84,
            StatType::PET_MAXABILITYPOWER_STAT => 85,
            StatType::PET_FAMILY_STAT => 86,
            StatType::PET_FIRSTABILITY_POINT_STAT => 87,
            StatType::PET_SECONDABILITY_POINT_STAT => 88,
            StatType::PET_THIRDABILITY_POINT_STAT => 89,
            StatType::PET_FIRSTABILITY_POWER_STAT => 90,
            StatType::PET_SECONDABILITY_POWER_STAT => 91,
            StatType::PET_THIRDABILITY_POWER_STAT => 92,
            StatType::PET_FIRSTABILITY_TYPE_STAT => 93,
            StatType::PET_SECONDABILITY_TYPE_STAT => 94,
            StatType::PET_THIRDABILITY_TYPE_STAT => 95,
            StatType::NEW_CON_STAT => 96,
            StatType::FORTUNE_TOKEN_STAT => 97,
            StatType::SUPPORTER_POINTS_STAT => 98,
            StatType::SUPPORTER_STAT => 99,
        }
    }

    /// Whether stats of this type hold a text; the others hold a number.
    pub open spec fn spec_is_string(self) -> bool {
        match self {
            StatType::NAME_STAT
            | StatType::ACCOUNT_ID_STAT
            | StatType::OWNER_ACCOUNT_ID_STAT
            | StatType::GUILD_NAME_STAT
            | StatType::PET_NAME_STAT => true,
            _ => false,
        }
    }

    /// Looks up the stat type with the given wire form.
    pub fn from_byte(byte: u8) -> (r: Option<StatType>)
        ensures
            r == StatType::spec_from_byte(byte),
    {
        reveal(StatType::spec_from_byte);
        if byte == 0 {
            Some(StatType::MAX_HP_STAT)
        } else if byte == 1 {
            Some(StatType::HP_STAT)
        } else if byte == 2 {
            Some(StatType::SIZE_STAT)
        } else if byte == 3 {
            Some(StatType::MAX_MP_STAT)
        } else if byte == 4 {
            Some(StatType::MP_STAT)
        } else if byte == 5 {
            Some(StatType::NEXT_LEVEL_EXP_STAT)
        } else if byte == 6 {
            Some(StatType::EXP_STAT)
        } else if byte == 7 {
            Some(StatType::LEVEL_STAT)
        } else if byte == 8 {
            Some(StatType::INVENTORY_0_STAT)
        } else if byte == 9 {
            Some(StatType::INVENTORY_1_STAT)
        } else if byte == 10 {
            Some(StatType::INVENTORY_2_STAT)
        } else if byte == 11 {
            Some(StatType::INVENTORY_3_STAT)
        } else if byte == 12 {
            Some(StatType::INVENTORY_4_STAT)
        } else if byte == 13 {
            Some(StatType::INVENTORY_5_STAT)
        } else if byte == 14 {
            Some(StatType::INVENTORY_6_STAT)
        } else if byte == 15 {
            Some(StatType::INVENTORY_7_STAT)
        } else if byte == 16 {
            Some(StatType::INVENTORY_8_STAT)
        } else if byte == 17 {
            Some(StatType::INVENTORY_9_STAT)
        } else if byte == 18 {
            Some(StatType::INVENTORY_10_STAT)
        } else if byte == 19 {
            Some(StatType::INVENTORY_11_STAT)
        } else if byte == 20 {
            Some(StatType::ATTACK_STAT)
        } else if byte == 21 {
            Some(StatType::DEFENSE_STAT)
        } else if byte == 22 {
            Some(StatType::SPEED_STAT)
        } else if byte == 26 {
            Some(StatType::VITALITY_STAT)
        } else if byte == 27 {
            Some(StatType::WISDOM_STAT)
        } else if byte == 28 {
            Some(StatType::DEXTERITY_STAT)
        } else if byte == 29 {
            Some(StatType::CONDITION_STAT)
        } else if byte == 30 {
            Some(StatType::NUM_STARS_STAT)
        } else if byte == 31 {
            Some(StatType::NAME_STAT)
        } else if byte == 32 {
            Some(StatType::TEX1_STAT)
        } else if byte == 33 {
            Some(StatType::TEX2_STAT)
        } else if byte == 34 {
            Some(StatType::MERCHANDISE_TYPE_STAT)
        } else if byte == 35 {
            Some(StatType::CREDITS_STAT)
        } else if byte == 36 {
            Some(StatType::MERCHANDISE_PRICE_STAT)
        } else if byte == 37 {
            Some(StatType::ACTIVE_STAT)
        } else if byte == 38 {
            Some(StatType::ACCOUNT_ID_STAT)
        } else if byte == 39 {
            Some(StatType::FAME_STAT)
        } else if byte == 40 {
            Some(StatType::MERCHANDISE_CURRENCY_STAT)
        } else if byte == 41 {
            Some(StatType::CONNECT_STAT)
        } else if byte == 42 {
            Some(StatType::MERCHANDISE_COUNT_STAT)
        } else if byte == 43 {
            Some(StatType::MERCHANDISE_MINS_LEFT_STAT)
        } else if byte == 44 {
            Some(StatType::MERCHANDISE_DISCOUNT_STAT)
        } else if byte == 45 {
            Some(StatType::MERCHANDISE_RANK_REQ_STAT)
        } else if byte == 46 {
            Some(StatType::MAX_HP_BOOST_STAT)
        } else if byte == 47 {
            Some(StatType::MAX_MP_BOOST_STAT)
        } else if byte == 48 {
            Some(StatType::ATTACK_BOOST_STAT)
        } else if byte == 49 {
            Some(StatType::DEFENSE_BOOST_STAT)
        } else if byte == 50 {
            Some(StatType::SPEED_BOOST_STAT)
        } else if byte == 51 {
            Some(StatType::VITALITY_BOOST_STAT)
        } else if byte == 52 {
            Some(StatType::WISDOM_BOOST_STAT)
        } else if byte == 53 {
            Some(StatType::DEXTERITY_BOOST_STAT)
        } else if byte == 54 {
            Some(StatType::OWNER_ACCOUNT_ID_STAT)
        } else if byte == 55 {
            Some(StatType::RANK_REQUIRED_STAT)
        } else if byte == 56 {
            Some(StatType::NAME_CHOSEN_STAT)
        } else if byte == 57 {
            Some(StatType::CURR_FAME_STAT)
        } else if byte == 58 {
            Some(StatType::NEXT_CLASS_QUEST_FAME_STAT)
        } else if byte == 59 {
            Some(StatType::LEGENDARY_RANK_STAT)
        } else if byte == 60 {
            Some(StatType::SINK_LEVEL_STAT)
        } else if byte == 61 {
            Some(StatType::ALT_TEXTURE_STAT)
        } else if byte == 62 {
            Some(StatType::GUILD_NAME_STAT)
        } else if byte == 63 {
            Some(StatType::GUILD_RANK_STAT)
        } else if byte == 64 {
            Some(StatType::BREATH_STAT)
        } else if byte == 65 {
            Some(StatType::XP_BOOSTED_STAT)
        } else if byte == 66 {
            Some(StatType::XP_TIMER_STAT)
        } else if byte == 67 {
            Some(StatType::LD_TIMER_STAT)
        } else if byte == 68 {
            Some(StatType::LT_TIMER_STAT)
        } else if byte == 69 {
            Some(StatType::HEALTH_POTION_STACK_STAT)
        } else if byte == 70 {
            Some(StatType::MAGIC_POTION_STACK_STAT)
        } else if byte == 71 {
            Some(StatType::BACKPACK_0_STAT)
        } else if byte == 72 {
            Some(StatType::BACKPACK_1_STAT)
        } else if byte == 73 {
            Some(StatType::BACKPACK_2_STAT)
        } else if byte == 74 {
            Some(StatType::BACKPACK_3_STAT)
        } else if byte == 75 {
            Some(StatType::BACKPACK_4_STAT)
        } else if byte == 76 {
            Some(StatType::BACKPACK_5_STAT)
        } else if byte == 77 {
            Some(StatType::BACKPACK_6_STAT)
        } else if byte == 78 {
            Some(StatType::BACKPACK_7_STAT)
        } else if byte == 79 {
            Some(StatType::HASBACKPACK_STAT)
        } else if byte == 80 {
            Some(StatType::TEXTURE_STAT)
        } else if byte == 81 {
            Some(StatType::PET_INSTANCEID_STAT)
        } else if byte == 82 {
            Some(StatType::PET_NAME_STAT)
        } else if byte == 83 {
            Some(StatType::PET_TYPE_STAT)
        } else if byte == 84 {
            Some(StatType::PET_RARITY_STAT)
        } else if byte == 85 {
            Some(StatType::PET_MAXABILITYPOWER_STAT)
        } else if byte == 86 {
            Some(StatType::PET_FAMILY_STAT)
        } else if byte == 87 {
            Some(StatType::PET_FIRSTABILITY_POINT_STAT)
        } else if byte == 88 {
            Some(StatType::PET_SECONDABILITY_POINT_STAT)
        } else if byte == 89 {
            Some(StatType::PET_THIRDABILITY_POINT_STAT)
        } else if byte == 90 {
            Some(StatType::PET_FIRSTABILITY_POWER_STAT)
        } else if byte == 91 {
            Some(StatType::PET_SECONDABILITY_POWER_STAT)
        } else if byte == 92 {
            Some(StatType::PET_THIRDABILITY_POWER_STAT)
        } else if byte == 93 {
            Some(StatType::PET_FIRSTABILITY_TYPE_STAT)
        } else if byte == 94 {
            Some(StatType::PET_SECONDABILITY_TYPE_STAT)
        } else if byte == 95 {
            Some(StatType::PET_THIRDABILITY_TYPE_STAT)
        } else if byte == 96 {
            Some(StatType::NEW_CON_STAT)
        } else if byte == 97 {
            Some(StatType::FORTUNE_TOKEN_STAT)
        } else if byte == 98 {
            Some(StatType::SUPPORTER_POINTS_STAT)
        } else if byte == 99 {
            Some(StatType::SUPPORTER_STAT)
        } else {
            None
        }
    }

    /// The wire form of the stat type.
    pub fn to_byte(self) -> (byte: u8)
        ensures
            byte == self.spec_to_byte(),
    {
        reveal(StatType::spec_to_byte);
        match self {
            StatType::MAX_HP_STAT => 0,
            StatType::HP_STAT => 1,
            StatType::SIZE_STAT => 2,
            StatType::MAX_MP_STAT => 3,
            StatType::MP_STAT => 4,
            StatType::NEXT_LEVEL_EXP_STAT => 5,
            StatType::EXP_STAT => 6,
            StatType::LEVEL_STAT => 7,
            StatType::ATTACK_STAT => 20,
            StatType::DEFENSE_STAT => 21,
            StatType::SPEED_STAT => 22,
            StatType::INVENTORY_0_STAT => 8,
            StatType::INVENTORY_1_STAT => 9,
            StatType::INVENTORY_2_STAT => 10,
            StatType::INVENTORY_3_STAT => 11,
            StatType::INVENTORY_4_STAT => 12,
            StatType::INVENTORY_5_STAT => 13,
            StatType::INVENTORY_6_STAT => 14,
            StatType::INVENTORY_7_STAT => 15,
            StatType::INVENTORY_8_STAT => 16,
            StatType::INVENTORY_9_STAT => 17,
            StatType::INVENTORY_10_STAT => 18,
            StatType::INVENTORY_11_STAT => 19,
            StatType::VITALITY_STAT => 26,
            StatType::WISDOM_STAT => 27,
            StatType::DEXTERITY_STAT => 28,
            StatType::CONDITION_STAT => 29,
            StatType::NUM_STARS_STAT => 30,
            StatType::NAME_STAT => 31,
            StatType::TEX1_STAT => 32,
            StatType::TEX2_STAT => 33,
            StatType::MERCHANDISE_TYPE_STAT => 34,
            StatType::CREDITS_STAT => 35,
            StatType::MERCHANDISE_PRICE_STAT => 36,
            StatType::ACTIVE_STAT => 37,
            StatType::ACCOUNT_ID_STAT => 38,
            StatType::FAME_STAT => 39,
            StatType::MERCHANDISE_CURRENCY_STAT => 40,
            StatType::CONNECT_STAT => 41,
            StatType::MERCHANDISE_COUNT_STAT => 42,
            StatType::MERCHANDISE_MINS_LEFT_STAT => 43,
            StatType::MERCHANDISE_DISCOUNT_STAT => 44,
            StatType::MERCHANDISE_RANK_REQ_STAT => 45,
            StatType::MAX_HP_BOOST_STAT => 46,
            StatType::MAX_MP_BOOST_STAT => 47,
            StatType::ATTACK_BOOST_STAT => 48,
            StatType::DEFENSE_BOOST_STAT => 49,
            StatType::SPEED_BOOST_STAT => 50,
            StatType::VITALITY_BOOST_STAT => 51,
            StatType::WISDOM_BOOST_STAT => 52,
            StatType::DEXTERITY_BOOST_STAT => 53,
            StatType::OWNER_ACCOUNT_ID_STAT => 54,
            StatType::RANK_REQUIRED_STAT => 55,
            StatType::NAME_CHOSEN_STAT => 56,
            StatType::CURR_FAME_STAT => 57,
            StatType::NEXT_CLASS_QUEST_FAME_STAT => 58,
            StatType::LEGENDARY_RANK_STAT => 59,
            StatType::SINK_LEVEL_STAT => 60,
            StatType::ALT_TEXTURE_STAT => 61,
            StatType::GUILD_NAME_STAT => 62,
            StatType::GUILD_RANK_STAT => 63,
            StatType::BREATH_STAT => 64,
            StatType::XP_BOOSTED_STAT => 65,
            StatType::XP_TIMER_STAT => 66,
            StatType::LD_TIMER_STAT => 67,
            StatType::LT_TIMER_STAT => 68,
            StatType::HEALTH_POTION_STACK_STAT => 69,
            StatType::MAGIC_POTION_STACK_STAT => 70,
            StatType::BACKPACK_0_STAT => 71,
            StatType::BACKPACK_1_STAT => 72,
            StatType::BACKPACK_2_STAT => 73,
            StatType::BACKPACK_3_STAT => 74,
            StatType::BACKPACK_4_STAT => 75,
            StatType::BACKPACK_5_STAT => 76,
            StatType::BACKPACK_6_STAT => 77,
            StatType::BACKPACK_7_STAT => 78,
            StatType::HASBACKPACK_STAT => 79,
            StatType::TEXTURE_STAT => 80,
            StatType::PET_INSTANCEID_STAT => 81,
            StatType::PET_NAME_STAT => 82,
            StatType::PET_TYPE_STAT => 83,
            StatType::PET_RARITY_STAT => 84,
            StatType::PET_MAXABILITYPOWER_STAT => 85,
            StatType::PET_FAMILY_STAT => 86,
            StatType::PET_FIRSTABILITY_POINT_STAT => 87,
            StatType::PET_SECONDABILITY_POINT_STAT => 88,
            StatType::PET_THIRDABILITY_POINT_STAT => 89,
            StatType::PET_FIRSTABILITY_POWER_STAT => 90,
            StatType::PET_SECONDABILITY_POWER_STAT => 91,
            StatType::PET_THIRDABILITY_POWER_STAT => 92,
            StatType::PET_FIRSTABILITY_TYPE_STAT => 93,
            StatType::PET_SECONDABILITY_TYPE_STAT => 94,
            StatType::PET_THIRDABILITY_TYPE_STAT => 95,
            StatType::NEW_CON_STAT => 96,
            StatType::FORTUNE_TOKEN_STAT => 97,
            StatType::SUPPORTER_POINTS_STAT => 98,
            StatType::SUPPORTER_STAT => 99,
        }
    }

    /// Whether stats of this type hold a text.
    pub fn is_string(self) -> (b: bool)
        ensures
            b == self.spec_is_string(),
    {
        match self {
            StatType::NAME_STAT
            | StatType::ACCOUNT_ID_STAT
            | StatType::OWNER_ACCOUNT_ID_STAT
            | StatType::GUILD_NAME_STAT
            | StatType::PET_NAME_STAT => true,
            _ => false,
        }
    }

    /// Looking up the wire form of a stat type gives the stat type back.
    pub proof fn lemma_from_byte_to_byte(stat_type: StatType)
        ensures
            StatType::spec_from_byte(stat_type.spec_to_byte()) == Some(stat_type),
    {
        reveal(StatType::spec_from_byte);
        reveal(StatType::spec_to_byte);
    }
}

impl DeepView for StatType {
    type V = StatType;

    open spec fn deep_view(&self) -> StatType {
        *self
    }
}

impl Adapter for StatType {
    #[verifier::opaque]
    open spec fn spec_get(input: Seq<u8>) -> Read<StatType, Error> {
        then(u8::spec_get(input), |byte: u8, rest: Seq<u8>|
            match StatType::spec_from_byte(byte) {
                Some(stat_type) => done(stat_type, rest),
                None => fail(Error::InvalidData(InvalidData::UnknownStatType { byte }), rest),
            })
    }

    #[verifier::opaque]
    open spec fn spec_put(value: StatType) -> Written {
        u8::spec_put(value.spec_to_byte())
    }

    open spec fn round_trips(value: StatType, rest: Seq<u8>) -> bool {
        true
    }

    fn get_be(bytes: &mut Cursor) -> (r: Result<StatType, Error>) {
        reveal(<StatType as Adapter>::spec_get);
        let byte: u8 = u8::get_be(bytes)?;
        match StatType::from_byte(byte) {
            Some(stat_type) => Ok(stat_type),
            None => Err(Error::InvalidData(InvalidData::UnknownStatType { byte })),
        }
    }

    fn put_be(&self, buffer: &mut Vec<u8>) -> (r: Result<(), Error>) {
        reveal(<StatType as Adapter>::spec_put);
        self.to_byte().put_be(buffer)
    }

    proof fn lemma_round_trip(value: StatType, rest: Seq<u8>) {
        reveal(<StatType as Adapter>::spec_get);
        reveal(<StatType as Adapter>::spec_put);
        StatType::lemma_from_byte_to_byte(value);
        u8::lemma_round_trip(value.spec_to_byte(), rest);
    }
}

/// A stat: its type and its value, a text or a number as the type calls for.
#[derive(Debug, PartialEq, Eq, Clone)]
pub enum StatData {
    String(StatType, String),
    Integer(StatType, i32),
}

/// The model of [`StatData`].
pub enum StatDataModel {
    String(StatType, Seq<char>),
    Integer(StatType, i32),
}

impl DeepView for StatData {
    type V = StatDataModel;

    open spec fn deep_view(&self) -> StatDataModel {
        match *self {
            StatData::String(stat_type, text) => StatDataModel::String(stat_type, text@),
            StatData::Integer(stat_type, number) => StatDataModel::Integer(stat_type, number),
        }
    }
}

/// A stat is the byte of its type followed by a length-prefixed text or a
/// 32-bit number, as the type calls for. A stat whose value is of the other
/// kind is refused before anything is written.
impl Adapter for StatData {
    #[verifier::opaque]
    open spec fn spec_get(input: Seq<u8>) -> Read<StatDataModel, Error> {
        then(StatType::spec_get(input), |stat_type: StatType, rest: Seq<u8>|
            if stat_type.spec_is_string() {
                then(RLE::<String, u16>::spec_get(rest), |text: Seq<char>, rest: Seq<u8>|
                    done(StatDataModel::String(stat_type, text), rest))
            } else {
                then(i32::spec_get(rest), |number: i32, rest: Seq<u8>|
                    done(StatDataModel::Integer(stat_type, number), rest))
            })
    }

    #[verifier::opaque]
    open spec fn spec_put(value: StatDataModel) -> Written {
        match value {
            StatDataModel::String(stat_type, text) => {
                if stat_type.spec_is_string() {
                    also(StatType::spec_put(stat_type), RLE::<String, u16>::spec_put(text))
                } else {
                    refused(
                        Error::InvalidData(
                            InvalidData::StatNotString { stat_type: stat_type.spec_to_byte() },
                        ),
                    )
                }
            },
            StatDataModel::Integer(stat_type, number) => {
                if !stat_type.spec_is_string() {
                    also(StatType::spec_put(stat_type), i32::spec_put(number))
                } else {
                    refused(
                        Error::InvalidData(
                            InvalidData::StatNotInteger { stat_type: stat_type.spec_to_byte() },
                        ),
                    )
                }
            },
        }
    }

    open spec fn round_trips(value: StatDataModel, rest: Seq<u8>) -> bool {
        match value {
            StatDataModel::String(stat_type, text) => RLE::<String, u16>::round_trips(text, rest),
            StatDataModel::Integer(stat_type, number) => true,
        }
    }

    fn get_be(bytes: &mut Cursor) -> (r: Result<StatData, Error>) {
        reveal(<StatData as Adapter>::spec_get);
        let stat_type = StatType::get_be(bytes)?;
        if stat_type.is_string() {
            let text = RLE::<String, u16>::get_be(bytes)?;
            Ok(StatData::String(stat_type, text.unwrap()))
        } else {
            let number: i32 = i32::get_be(bytes)?;
            Ok(StatData::Integer(stat_type, number))
        }
    }

    fn put_be(&self, buffer: &mut Vec<u8>) -> (r: Result<(), Error>) {
        reveal(<StatData as Adapter>::spec_put);
        match self {
            StatData::String(stat_type, text) => {
                if stat_type.is_string() {
                    stat_type.put_be(buffer)?;
                    RLE::<String, u16>::new(text.clone()).put_be(buffer)
                } else {
                    Err(
                        Error::InvalidData(
                            InvalidData::StatNotString { stat_type: stat_type.to_byte() },
                        ),
                    )
                }
            },
            StatData::Integer(stat_type, number) => {
                if !stat_type.is_string() {
                    stat_type.put_be(buffer)?;
                    number.put_be(buffer)
                } else {
                    Err(
                        Error::InvalidData(
                            InvalidData::StatNotInteger { stat_type: stat_type.to_byte() },
                        ),
                    )
                }
            },
        }
    }

    proof fn lemma_round_trip(value: StatDataModel, rest: Seq<u8>) {
        reveal(<StatData as Adapter>::spec_get);
        reveal(<StatData as Adapter>::spec_put);
        match value {
            StatDataModel::String(stat_type, text) => {
                let tail = RLE::<String, u16>::spec_put(text).bytes + rest;
                StatType::lemma_round_trip(stat_type, tail);
                RLE::<String, u16>::lemma_round_trip(text, rest);
            },
            StatDataModel::Integer(stat_type, number) => {
                let tail = i32::spec_put(number).bytes + rest;
                StatType::lemma_round_trip(stat_type, tail);
                i32::lemma_round_trip(number, rest);
            },
        }
    }
}

} // verus!
