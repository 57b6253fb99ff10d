//! The objects that the data files of the client describe.

use vstd::prelude::*;

verus! {

/// A picture in a sprite sheet: the name of the sheet and the index of the
/// picture in it.
#[derive(Debug, Clone, PartialEq, Eq)]
pub struct Texture {
    pub file: String,
    pub index: u32,
}

/// The class of behaviour of an object.
#[derive(Debug, Clone, Copy, PartialEq, Eq, Hash, Structural)]
pub enum ObjectClass {
    ArenaGuard,
    ArenaPortal,
    CaveWall,
    Character,
    CharacterChanger,
    ClosedGiftChest,
    ClosedVaultChest,
    ConnectedWall,
    Container,
    DailyLoginRewards,
    DoubleWall,
    Dye,
    Equipment,
    FortuneGround,
    FortuneTeller,
    GameObject,
    GuildBoard,
    GuildChronicle,
    GuildHallPortal,
    GuildMerchant,
    GuildRegister,
    Merchant,
    MoneyChanger,
    MysteryBoxGround,
    NameChanger,
    OneWayContainer,
    Pet,
    PetAbility,
    PetBehavior,
    PetSkin,
    PetUpgrader,
    Player,
    Portal,
    Projectile,
    QuestRewards,
    ReskinVendor,
    Sign,
    Skin,
    SpiderWeb,
    Stalagmite,
    Wall,
    YardUpgrader,
}

/// An object of the game.
#[derive(Debug, Clone, PartialEq, Eq)]
pub struct Object {
    pub typ: u32,
    pub id: String,
    pub class: ObjectClass,
    pub texture: Texture,
    pub size: i32,
    pub shadow_size: Option<i32>,
    pub enemy: bool,
    pub invincible: bool,
    pub flying: bool,
}

} // verus!
