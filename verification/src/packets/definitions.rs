//! The registry of packets: every kind of packet with its tag, its side and
//! its name, the packet of any kind, and the conversions that are chosen by
//! kind.

use vstd::prelude::*;
use crate::adapter::{appended, lemma_add_empty, Adapter, Error, Written};
use crate::cursor::{agrees, done, then, Cursor, Read};
use crate::packets::client::{
    AcceptTrade, AcceptTradeModel, ActivePetUpdateRequest, AoeAck, Buy, CancelTrade,
    ChangeGuildRank, ChangeGuildRankModel, ChangeTrade, ChangeTradeModel, CheckCredits, ChooseName,
    ChooseNameModel, ClaimLoginRewardMsg, ClaimLoginRewardMsgModel, Create, CreateGuild,
    CreateGuildModel, EditAccountList, EnemyHit, EnterArena, Escape, GotoAck, GroundDamage,
    GuildInvite, GuildInviteModel, GuildRemove, GuildRemoveModel, Hello, HelloModel, InvDrop,
    InvSwap, JoinGuild, JoinGuildModel, KeyInfoRequest, Load, Move, MoveModel, OtherHit,
    PetChangeFormMsg, PetChangeSkinMsg, PetUpgradeRequest, PetUpgradeRequestModel, PlayerHit,
    PlayerShoot, PlayerText, PlayerTextModel, QuestRedeem, QuestRedeemModel, QuestRoomMsg, Pong,
    RequestTrade, RequestTradeModel, ResetDailyQuests, Reskin, SetCondition, ShootAck, SquareHit,
    Teleport, UpdateAck, UseItem, UsePortal, QuestFetchAsk, AcceptArenaDeath,
};
use crate::packets::server::{
    AccountList, AccountListModel, ActivePetUpdate, AllyShoot, Aoe, ArenaDeath, BuyResult,
    BuyResultModel, ClientStat, ClientStatModel, CreateSuccess, Damage, DamageModel, Death,
    DeathModel, DeletePet, EnemyShoot, EnemyShootModel, EvolvePet, Failure, FailureModel, File,
    FileModel, GlobalNotification, GlobalNotificationModel, Goto, GuildResult, GuildResultModel,
    HatchPet, HatchPetModel, InvResult, InvitedToGuild, InvitedToGuildModel, ImminentArenaWave,
    KeyInfoResponse, KeyInfoResponseModel, LoginRewardMsg, MapInfo, MapInfoModel, NameResult,
    NameResultModel, NewAbility, NewTick, NewTickModel, Notification, NotificationModel,
    PasswordPrompt, PetYardUpdate, Pic, PicModel, Ping, PlaySound, QuestObjId, QuestFetchResponse,
    QuestFetchResponseModel, QuestRedeemResponse, QuestRedeemResponseModel, RealmHeroLeftMsg,
    Reconnect, ReconnectModel, ReskinUnlock, ServerPlayerShoot, ShowEffect, Text, TextModel,
    TradeAccepted, TradeAcceptedModel, TradeChanged, TradeChangedModel, TradeDone, TradeDoneModel,
    TradeRequested, TradeRequestedModel, TradeStart, TradeStartModel, Update, UpdateModel,
    VerifyEmail,
};

verus! {

/// The kind of a packet. The tag of a kind is its place in this list, which
/// does not change from one build of the game to the next; it is not the
/// identifier that the game puts on the wire.
#[derive(Debug, PartialEq, Eq, PartialOrd, Ord, Hash, Clone, Copy, Structural)]
pub enum PacketType {
    AcceptTrade,
    ActivePetUpdateRequest,
    AoeAck,
    Buy,
    CancelTrade,
    ChangeGuildRank,
    ChangeTrade,
    CheckCredits,
    ChooseName,
    ClaimLoginRewardMsg,
    Create,
    CreateGuild,
    EditAccountList,
    EnemyHit,
    EnterArena,
    Escape,
    GotoAck,
    GroundDamage,
    GuildInvite,
    GuildRemove,
    Hello,
    InvDrop,
    InvSwap,
    JoinGuild,
    KeyInfoRequest,
    Load,
    Move,
    OtherHit,
    PetChangeFormMsg,
    PetChangeSkinMsg,
    PetUpgradeRequest,
    PlayerHit,
    PlayerShoot,
    PlayerText,
    QuestRedeem,
    QuestRoomMsg,
    Pong,
    RequestTrade,
    ResetDailyQuests,
    Reskin,
    SetCondition,
    ShootAck,
    SquareHit,
    Teleport,
    UpdateAck,
    UseItem,
    UsePortal,
    QuestFetchAsk,
    AcceptArenaDeath,
    AccountList,
    ActivePetUpdate,
    AllyShoot,
    Aoe,
    ArenaDeath,
    BuyResult,
    ClientStat,
    CreateSuccess,
    Damage,
    Death,
    DeletePet,
    EnemyShoot,
    EvolvePet,
    Failure,
    File,
    GlobalNotification,
    Goto,
    GuildResult,
    HatchPet,
    InvResult,
    InvitedToGuild,
    ImminentArenaWave,
    KeyInfoResponse,
    LoginRewardMsg,
    MapInfo,
    NameResult,
    NewAbility,
    NewTick,
    Notification,
    PasswordPrompt,
    PetYardUpdate,
    Pic,
    Ping,
    PlaySound,
    QuestObjId,
    QuestFetchResponse,
    QuestRedeemResponse,
    RealmHeroLeftMsg,
    Reconnect,
    ReskinUnlock,
    ServerPlayerShoot,
    ShowEffect,
    Text,
    TradeAccepted,
    TradeChanged,
    TradeDone,
    TradeRequested,
    TradeStart,
    Update,
    VerifyEmail,
}

/// The number of kinds of packet.
pub const NUM_TYPES: usize = 99;

/// The number of kinds that the client sends. They come first.
pub const NUM_CLIENT_TYPES: u8 = 49;

impl PacketType {
    /// The tag of the kind.
    #[verifier::opaque]
    pub open spec fn spec_to_byte(self) -> u8 {
        match self {
            PacketType::AcceptTrade => 0,
            PacketType::ActivePetUpdateRequest => 1,
            PacketType::AoeAck => 2,
            PacketType::Buy => 3,
            PacketType::CancelTrade => 4,
            PacketType::ChangeGuildRank => 5,
            PacketType::ChangeTrade => 6,
            PacketType::CheckCredits => 7,
            PacketType::ChooseName => 8,
            PacketType::ClaimLoginRewardMsg => 9,
            PacketType::Create => 10,
            PacketType::CreateGuild => 11,
            PacketType::EditAccountList => 12,
            PacketType::EnemyHit => 13,
            PacketType::EnterArena => 14,
            PacketType::Escape => 15,
            PacketType::GotoAck => 16,
            PacketType::GroundDamage => 17,
            PacketType::GuildInvite => 18,
            PacketType::GuildRemove => 19,
            PacketType::Hello => 20,
            PacketType::InvDrop => 21,
            PacketType::InvSwap => 22,
            PacketType::JoinGuild => 23,
            PacketType::KeyInfoRequest => 24,
            PacketType::Load => 25,
            PacketType::Move => 26,
            PacketType::OtherHit => 27,
            PacketType::PetChangeFormMsg => 28,
            PacketType::PetChangeSkinMsg => 29,
            PacketType::PetUpgradeRequest => 30,
            PacketType::PlayerHit => 31,
            PacketType::PlayerShoot => 32,
            PacketType::PlayerText => 33,
            PacketType::QuestRedeem => 34,
            PacketType::QuestRoomMsg => 35,
            PacketType::Pong => 36,
            PacketType::RequestTrade => 37,
            PacketType::ResetDailyQuests => 38,
            PacketType::Reskin => 39,
            PacketType::SetCondition => 40,
            PacketType::ShootAck => 41,
            PacketType::SquareHit => 42,
            PacketType::Teleport => 43,
            PacketType::UpdateAck => 44,
            PacketType::UseItem => 45,
            PacketType::UsePortal => 46,
            PacketType::QuestFetchAsk => 47,
            PacketType::AcceptArenaDeath => 48,
            PacketType::AccountList => 49,
            PacketType::ActivePetUpdate => 50,
            PacketType::AllyShoot => 51,
            PacketType::Aoe => 52,
            PacketType::ArenaDeath => 53,
            PacketType::BuyResult => 54,
            PacketType::ClientStat => 55,
            PacketType::CreateSuccess => 56,
            PacketType::Damage => 57,
            PacketType::Death => 58,
            PacketType::DeletePet => 59,
            PacketType::EnemyShoot => 60,
            PacketType::EvolvePet => 61,
            PacketType::Failure => 62,
            PacketType::File => 63,
            PacketType::GlobalNotification => 64,
            PacketType::Goto => 65,
            PacketType::GuildResult => 66,
            PacketType::HatchPet => 67,
            PacketType::InvResult => 68,
            PacketType::InvitedToGuild => 69,
            PacketType::ImminentArenaWave => 70,
            PacketType::KeyInfoResponse => 71,
            PacketType::LoginRewardMsg => 72,
            PacketType::MapInfo => 73,
            PacketType::NameResult => 74,
            PacketType::NewAbility => 75,
            PacketType::NewTick => 76,
            PacketType::Notification => 77,
            PacketType::PasswordPrompt => 78,
            PacketType::PetYardUpdate => 79,
            PacketType::Pic => 80,
            PacketType::Ping => 81,
            PacketType::PlaySound => 82,
            PacketType::QuestObjId => 83,
            PacketType::QuestFetchResponse => 84,
            PacketType::QuestRedeemResponse => 85,
            PacketType::RealmHeroLeftMsg => 86,
            PacketType::Reconnect => 87,
            PacketType::ReskinUnlock => 88,
            PacketType::ServerPlayerShoot => 89,
            PacketType::ShowEffect => 90,
            PacketType::Text => 91,
            PacketType::TradeAccepted => 92,
            PacketType::TradeChanged => 93,
            PacketType::TradeDone => 94,
            PacketType::TradeRequested => 95,
            PacketType::TradeStart => 96,
            PacketType::Update => 97,
            PacketType::VerifyEmail => 98,
        }
    }

    /// The kind with the given tag, if there is one.
    #[verifier::opaque]
    pub open spec fn spec_from_byte(byte: u8) -> Option<PacketType> {
        if byte == 0 {
            Some(PacketType::AcceptTrade)
        } else if byte == 1 {
            Some(PacketType::ActivePetUpdateRequest)
        } else if byte == 2 {
            Some(PacketType::AoeAck)
        } else if byte == 3 {
            Some(PacketType::Buy)
        } else if byte == 4 {
            Some(PacketType::CancelTrade)
        } else if byte == 5 {
            Some(PacketType::ChangeGuildRank)
        } else if byte == 6 {
            Some(PacketType::ChangeTrade)
        } else if byte == 7 {
            Some(PacketType::CheckCredits)
        } else if byte == 8 {
            Some(PacketType::ChooseName)
        } else if byte == 9 {
            Some(PacketType::ClaimLoginRewardMsg)
        } else if byte == 10 {
            Some(PacketType::Create)
        } else if byte == 11 {
            Some(PacketType::CreateGuild)
        } else if byte == 12 {
            Some(PacketType::EditAccountList)
        } else if byte == 13 {
            Some(PacketType::EnemyHit)
        } else if byte == 14 {
            Some(PacketType::EnterArena)
        } else if byte == 15 {
            Some(PacketType::Escape)
        } else if byte == 16 {
            Some(PacketType::GotoAck)
        } else if byte == 17 {
            Some(PacketType::GroundDamage)
        } else if byte == 18 {
            Some(PacketType::GuildInvite)
        } else if byte == 19 {
            Some(PacketType::GuildRemove)
        } else if byte == 20 {
            Some(PacketType::Hello)
        } else if byte == 21 {
            Some(PacketType::InvDrop)
        } else if byte == 22 {
            Some(PacketType::InvSwap)
        } else if byte == 23 {
            Some(PacketType::JoinGuild)
        } else if byte == 24 {
            Some(PacketType::KeyInfoRequest)
        } else if byte == 25 {
            Some(PacketType::Load)
        } else if byte == 26 {
            Some(PacketType::Move)
        } else if byte == 27 {
            Some(PacketType::OtherHit)
        } else if byte == 28 {
            Some(PacketType::PetChangeFormMsg)
        } else if byte == 29 {
            Some(PacketType::PetChangeSkinMsg)
        } else if byte == 30 {
            Some(PacketType::PetUpgradeRequest)
        } else if byte == 31 {
            Some(PacketType::PlayerHit)
        } else if byte == 32 {
            Some(PacketType::PlayerShoot)
        } else if byte == 33 {
            Some(PacketType::PlayerText)
        } else if byte == 34 {
            Some(PacketType::QuestRedeem)
        } else if byte == 35 {
            Some(PacketType::QuestRoomMsg)
        } else if byte == 36 {
            Some(PacketType::Pong)
        } else if byte == 37 {
            Some(PacketType::RequestTrade)
        } else if byte == 38 {
            Some(PacketType::ResetDailyQuests)
        } else if byte == 39 {
            Some(PacketType::Reskin)
        } else if byte == 40 {
            Some(PacketType::SetCondition)
        } else if byte == 41 {
            Some(PacketType::ShootAck)
        } else if byte == 42 {
            Some(PacketType::SquareHit)
        } else if byte == 43 {
            Some(PacketType::Teleport)
        } else if byte == 44 {
            Some(PacketType::UpdateAck)
        } else if byte == 45 {
            Some(PacketType::UseItem)
        } else if byte == 46 {
            Some(PacketType::UsePortal)
        } else if byte == 47 {
            Some(PacketType::QuestFetchAsk)
        } else if byte == 48 {
            Some(PacketType::AcceptArenaDeath)
        } else if byte == 49 {
            Some(PacketType::AccountList)
        } else if byte == 50 {
            Some(PacketType::ActivePetUpdate)
        } else if byte == 51 {
            Some(PacketType::AllyShoot)
        } else if byte == 52 {
            Some(PacketType::Aoe)
        } else if byte == 53 {
            Some(PacketType::ArenaDeath)
        } else if byte == 54 {
            Some(PacketType::BuyResult)
        } else if byte == 55 {
            Some(PacketType::ClientStat)
        } else if byte == 56 {
            Some(PacketType::CreateSuccess)
        } else if byte == 57 {
            Some(PacketType::Damage)
        } else if byte == 58 {
            Some(PacketType::Death)
        } else if byte == 59 {
            Some(PacketType::DeletePet)
        } else if byte == 60 {
            Some(PacketType::EnemyShoot)
        } else if byte == 61 {
            Some(PacketType::EvolvePet)
        } else if byte == 62 {
            Some(PacketType::Failure)
        } else if byte == 63 {
            Some(PacketType::File)
        } else if byte == 64 {
            Some(PacketType::GlobalNotification)
        } else if byte == 65 {
            Some(PacketType::Goto)
        } else if byte == 66 {
            Some(PacketType::GuildResult)
        } else if byte == 67 {
            Some(PacketType::HatchPet)
        } else if byte == 68 {
            Some(PacketType::InvResult)
        } else if byte == 69 {
            Some(PacketType::InvitedToGuild)
        } else if byte == 70 {
            Some(PacketType::ImminentArenaWave)
        } else if byte == 71 {
            Some(PacketType::KeyInfoResponse)
        } else if byte == 72 {
            Some(PacketType::LoginRewardMsg)
        } else if byte == 73 {
            Some(PacketType::MapInfo)
        } else if byte == 74 {
            Some(PacketType::NameResult)
        } else if byte == 75 {
            Some(PacketType::NewAbility)
        } else if byte == 76 {
            Some(PacketType::NewTick)
        } else if byte == 77 {
            Some(PacketType::Notification)
        } else if byte == 78 {
            Some(PacketType::PasswordPrompt)
        } else if byte == 79 {
            Some(PacketType::PetYardUpdate)
        } else if byte == 80 {
            Some(PacketType::Pic)
        } else if byte == 81 {
            Some(PacketType::Ping)
        } else if byte == 82 {
            Some(PacketType::PlaySound)
        } else if byte == 83 {
            Some(PacketType::QuestObjId)
        } else if byte == 84 {
            Some(PacketType::QuestFetchResponse)
        } else if byte == 85 {
            Some(PacketType::QuestRedeemResponse)
        } else if byte == 86 {
            Some(PacketType::RealmHeroLeftMsg)
        } else if byte == 87 {
            Some(PacketType::Reconnect)
        } else if byte == 88 {
            Some(PacketType::ReskinUnlock)
        } else if byte == 89 {
            Some(PacketType::ServerPlayerShoot)
        } else if byte == 90 {
            Some(PacketType::ShowEffect)
        } else if byte == 91 {
            Some(PacketType::Text)
        } else if byte == 92 {
            Some(PacketType::TradeAccepted)
        } else if byte == 93 {
            Some(PacketType::TradeChanged)
        } else if byte == 94 {
            Some(PacketType::TradeDone)
        } else if byte == 95 {
            Some(PacketType::TradeRequested)
        } else if byte == 96 {
            Some(PacketType::TradeStart)
        } else if byte == 97 {
            Some(PacketType::Update)
        } else if byte == 98 {
            Some(PacketType::VerifyEmail)
        } else {
            None
        }
    }

    /// The name of the kind, as it is written in this list.
    pub open spec fn spec_name(self) -> Seq<char> {
        match self {
            PacketType::AcceptTrade => "AcceptTrade"@,
            PacketType::ActivePetUpdateRequest => "ActivePetUpdateRequest"@,
            PacketType::AoeAck => "AoeAck"@,
            PacketType::Buy => "Buy"@,
            PacketType::CancelTrade => "CancelTrade"@,
            PacketType::ChangeGuildRank => "ChangeGuildRank"@,
            PacketType::ChangeTrade => "ChangeTrade"@,
            PacketType::CheckCredits => "CheckCredits"@,
            PacketType::ChooseName => "ChooseName"@,
            PacketType::ClaimLoginRewardMsg => "ClaimLoginRewardMsg"@,
            PacketType::Create => "Create"@,
            PacketType::CreateGuild => "CreateGuild"@,
            PacketType::EditAccountList => "EditAccountList"@,
            PacketType::EnemyHit => "EnemyHit"@,
            PacketType::EnterArena => "EnterArena"@,
            PacketType::Escape => "Escape"@,
            PacketType::GotoAck => "GotoAck"@,
            PacketType::GroundDamage => "GroundDamage"@,
            PacketType::GuildInvite => "GuildInvite"@,
            PacketType::GuildRemove => "GuildRemove"@,
            PacketType::Hello => "Hello"@,
            PacketType::InvDrop => "InvDrop"@,
            PacketType::InvSwap => "InvSwap"@,
            PacketType::JoinGuild => "JoinGuild"@,
            PacketType::KeyInfoRequest => "KeyInfoRequest"@,
            PacketType::Load => "Load"@,
            PacketType::Move => "Move"@,
            PacketType::OtherHit => "OtherHit"@,
            PacketType::PetChangeFormMsg => "PetChangeFormMsg"@,
            PacketType::PetChangeSkinMsg => "PetChangeSkinMsg"@,
            PacketType::PetUpgradeRequest => "PetUpgradeRequest"@,
            PacketType::PlayerHit => "PlayerHit"@,
            PacketType::PlayerShoot => "PlayerShoot"@,
            PacketType::PlayerText => "PlayerText"@,
            PacketType::QuestRedeem => "QuestRedeem"@,
            PacketType::QuestRoomMsg => "QuestRoomMsg"@,
            PacketType::Pong => "Pong"@,
            PacketType::RequestTrade => "RequestTrade"@,
            PacketType::ResetDailyQuests => "ResetDailyQuests"@,
            PacketType::Reskin => "Reskin"@,
            PacketType::SetCondition => "SetCondition"@,
            PacketType::ShootAck => "ShootAck"@,
            PacketType::SquareHit => "SquareHit"@,
            PacketType::Teleport => "Teleport"@,
            PacketType::UpdateAck => "UpdateAck"@,
            PacketType::UseItem => "UseItem"@,
            PacketType::UsePortal => "UsePortal"@,
            PacketType::QuestFetchAsk => "QuestFetchAsk"@,
            PacketType::AcceptArenaDeath => "AcceptArenaDeath"@,
            PacketType::AccountList => "AccountList"@,
            PacketType::ActivePetUpdate => "ActivePetUpdate"@,
            PacketType::AllyShoot => "AllyShoot"@,
            PacketType::Aoe => "Aoe"@,
            PacketType::ArenaDeath => "ArenaDeath"@,
            PacketType::BuyResult => "BuyResult"@,
            PacketType::ClientStat => "ClientStat"@,
            PacketType::CreateSuccess => "CreateSuccess"@,
            PacketType::Damage => "Damage"@,
            PacketType::Death => "Death"@,
            PacketType::DeletePet => "DeletePet"@,
            PacketType::EnemyShoot => "EnemyShoot"@,
            PacketType::EvolvePet => "EvolvePet"@,
            PacketType::Failure => "Failure"@,
            PacketType::File => "File"@,
            PacketType::GlobalNotification => "GlobalNotification"@,
            PacketType::Goto => "Goto"@,
            PacketType::GuildResult => "GuildResult"@,
            PacketType::HatchPet => "HatchPet"@,
            PacketType::InvResult => "InvResult"@,
            PacketType::InvitedToGuild => "InvitedToGuild"@,
            PacketType::ImminentArenaWave => "ImminentArenaWave"@,
            PacketType::KeyInfoResponse => "KeyInfoResponse"@,
            PacketType::LoginRewardMsg => "LoginRewardMsg"@,
            PacketType::MapInfo => "MapInfo"@,
            PacketType::NameResult => "NameResult"@,
            PacketType::NewAbility => "NewAbility"@,
            PacketType::NewTick => "NewTick"@,
            PacketType::Notification => "Notification"@,
            PacketType::PasswordPrompt => "PasswordPrompt"@,
            PacketType::PetYardUpdate => "PetYardUpdate"@,
            PacketType::Pic => "Pic"@,
            PacketType::Ping => "Ping"@,
            PacketType::PlaySound => "PlaySound"@,
            PacketType::QuestObjId => "QuestObjId"@,
            PacketType::QuestFetchResponse => "QuestFetchResponse"@,
            PacketType::QuestRedeemResponse => "QuestRedeemResponse"@,
            PacketType::RealmHeroLeftMsg => "RealmHeroLeftMsg"@,
            PacketType::Reconnect => "Reconnect"@,
            PacketType::ReskinUnlock => "ReskinUnlock"@,
            PacketType::ServerPlayerShoot => "ServerPlayerShoot"@,
            PacketType::ShowEffect => "ShowEffect"@,
            PacketType::Text => "Text"@,
            PacketType::TradeAccepted => "TradeAccepted"@,
            PacketType::TradeChanged => "TradeChanged"@,
            PacketType::TradeDone => "TradeDone"@,
            PacketType::TradeRequested => "TradeRequested"@,
            PacketType::TradeStart => "TradeStart"@,
            PacketType::Update => "Update"@,
            PacketType::VerifyEmail => "VerifyEmail"@,
        }
    }

    /// Whether the server sends packets of this kind.
    pub open spec fn spec_is_server(self) -> bool {
        self.spec_to_byte() >= NUM_CLIENT_TYPES
    }

    /// The tag of the kind.
    pub fn to_byte(self) -> (byte: u8)
        ensures
            byte == self.spec_to_byte(),
            byte < NUM_TYPES,
    {
        reveal(PacketType::spec_to_byte);
        match self {
            PacketType::AcceptTrade => 0,
            PacketType::ActivePetUpdateRequest => 1,
            PacketType::AoeAck => 2,
            PacketType::Buy => 3,
            PacketType::CancelTrade => 4,
            PacketType::ChangeGuildRank => 5,
            PacketType::ChangeTrade => 6,
            PacketType::CheckCredits => 7,
            PacketType::ChooseName => 8,
            PacketType::ClaimLoginRewardMsg => 9,
            PacketType::Create => 10,
            PacketType::CreateGuild => 11,
            PacketType::EditAccountList => 12,
            PacketType::EnemyHit => 13,
            PacketType::EnterArena => 14,
            PacketType::Escape => 15,
            PacketType::GotoAck => 16,
            PacketType::GroundDamage => 17,
            PacketType::GuildInvite => 18,
            PacketType::GuildRemove => 19,
            PacketType::Hello => 20,
            PacketType::InvDrop => 21,
            PacketType::InvSwap => 22,
            PacketType::JoinGuild => 23,
            PacketType::KeyInfoRequest => 24,
            PacketType::Load => 25,
            PacketType::Move => 26,
            PacketType::OtherHit => 27,
            PacketType::PetChangeFormMsg => 28,
            PacketType::PetChangeSkinMsg => 29,
            PacketType::PetUpgradeRequest => 30,
            PacketType::PlayerHit => 31,
            PacketType::PlayerShoot => 32,
            PacketType::PlayerText => 33,
            PacketType::QuestRedeem => 34,
            PacketType::QuestRoomMsg => 35,
            PacketType::Pong => 36,
            PacketType::RequestTrade => 37,
            PacketType::ResetDailyQuests => 38,
            PacketType::Reskin => 39,
            PacketType::SetCondition => 40,
            PacketType::ShootAck => 41,
            PacketType::SquareHit => 42,
            PacketType::Teleport => 43,
            PacketType::UpdateAck => 44,
            PacketType::UseItem => 45,
            PacketType::UsePortal => 46,
            PacketType::QuestFetchAsk => 47,
            PacketType::AcceptArenaDeath => 48,
            PacketType::AccountList => 49,
            PacketType::ActivePetUpdate => 50,
            PacketType::AllyShoot => 51,
            PacketType::Aoe => 52,
            PacketType::ArenaDeath => 53,
            PacketType::BuyResult => 54,
            PacketType::ClientStat => 55,
            PacketType::CreateSuccess => 56,
            PacketType::Damage => 57,
            PacketType::Death => 58,
            PacketType::DeletePet => 59,
            PacketType::EnemyShoot => 60,
            PacketType::EvolvePet => 61,
            PacketType::Failure => 62,
            PacketType::File => 63,
            PacketType::GlobalNotification => 64,
            PacketType::Goto => 65,
            PacketType::GuildResult => 66,
            PacketType::HatchPet => 67,
            PacketType::InvResult => 68,
            PacketType::InvitedToGuild => 69,
            PacketType::ImminentArenaWave => 70,
            PacketType::KeyInfoResponse => 71,
            PacketType::LoginRewardMsg => 72,
            PacketType::MapInfo => 73,
            PacketType::NameResult => 74,
            PacketType::NewAbility => 75,
            PacketType::NewTick => 76,
            PacketType::Notification => 77,
            PacketType::PasswordPrompt => 78,
            PacketType::PetYardUpdate => 79,
            PacketType::Pic => 80,
            PacketType::Ping => 81,
            PacketType::PlaySound => 82,
            PacketType::QuestObjId => 83,
            PacketType::QuestFetchResponse => 84,
            PacketType::QuestRedeemResponse => 85,
            PacketType::RealmHeroLeftMsg => 86,
            PacketType::Reconnect => 87,
            PacketType::ReskinUnlock => 88,
            PacketType::ServerPlayerShoot => 89,
            PacketType::ShowEffect => 90,
            PacketType::Text => 91,
            PacketType::TradeAccepted => 92,
            PacketType::TradeChanged => 93,
            PacketType::TradeDone => 94,
            PacketType::TradeRequested => 95,
            PacketType::TradeStart => 96,
            PacketType::Update => 97,
            PacketType::VerifyEmail => 98,
        }
    }

    /// Looks up the kind with the given tag.
    pub fn from_byte(byte: u8) -> (kind: Option<PacketType>)
        ensures
            kind == PacketType::spec_from_byte(byte),
            kind is Some <==> byte < NUM_TYPES,
            kind is Some ==> kind->0.spec_to_byte() == byte,
    {
        reveal(PacketType::spec_from_byte);
        reveal(PacketType::spec_to_byte);
        if byte == 0 {
            Some(PacketType::AcceptTrade)
        } else if byte == 1 {
            Some(PacketType::ActivePetUpdateRequest)
        } else if byte == 2 {
            Some(PacketType::AoeAck)
        } else if byte == 3 {
            Some(PacketType::Buy)
        } else if byte == 4 {
            Some(PacketType::CancelTrade)
        } else if byte == 5 {
            Some(PacketType::ChangeGuildRank)
        } else if byte == 6 {
            Some(PacketType::ChangeTrade)
        } else if byte == 7 {
            Some(PacketType::CheckCredits)
        } else if byte == 8 {
            Some(PacketType::ChooseName)
        } else if byte == 9 {
            Some(PacketType::ClaimLoginRewardMsg)
        } else if byte == 10 {
            Some(PacketType::Create)
        } else if byte == 11 {
            Some(PacketType::CreateGuild)
        } else if byte == 12 {
            Some(PacketType::EditAccountList)
        } else if byte == 13 {
            Some(PacketType::EnemyHit)
        } else if byte == 14 {
            Some(PacketType::EnterArena)
        } else if byte == 15 {
            Some(PacketType::Escape)
        } else if byte == 16 {
            Some(PacketType::GotoAck)
        } else if byte == 17 {
            Some(PacketType::GroundDamage)
        } else if byte == 18 {
            Some(PacketType::GuildInvite)
        } else if byte == 19 {
            Some(PacketType::GuildRemove)
        } else if byte == 20 {
            Some(PacketType::Hello)
        } else if byte == 21 {
            Some(PacketType::InvDrop)
        } else if byte == 22 {
            Some(PacketType::InvSwap)
        } else if byte == 23 {
            Some(PacketType::JoinGuild)
        } else if byte == 24 {
            Some(PacketType::KeyInfoRequest)
        } else if byte == 25 {
            Some(PacketType::Load)
        } else if byte == 26 {
            Some(PacketType::Move)
        } else if byte == 27 {
            Some(PacketType::OtherHit)
        } else if byte == 28 {
            Some(PacketType::PetChangeFormMsg)
        } else if byte == 29 {
            Some(PacketType::PetChangeSkinMsg)
        } else if byte == 30 {
            Some(PacketType::PetUpgradeRequest)
        } else if byte == 31 {
            Some(PacketType::PlayerHit)
        } else if byte == 32 {
            Some(PacketType::PlayerShoot)
        } else if byte == 33 {
            Some(PacketType::PlayerText)
        } else if byte == 34 {
            Some(PacketType::QuestRedeem)
        } else if byte == 35 {
            Some(PacketType::QuestRoomMsg)
        } else if byte == 36 {
            Some(PacketType::Pong)
        } else if byte == 37 {
            Some(PacketType::RequestTrade)
        } else if byte == 38 {
            Some(PacketType::ResetDailyQuests)
        } else if byte == 39 {
            Some(PacketType::Reskin)
        } else if byte == 40 {
            Some(PacketType::SetCondition)
        } else if byte == 41 {
            Some(PacketType::ShootAck)
        } else if byte == 42 {
            Some(PacketType::SquareHit)
        } else if byte == 43 {
            Some(PacketType::Teleport)
        } else if byte == 44 {
            Some(PacketType::UpdateAck)
        } else if byte == 45 {
            Some(PacketType::UseItem)
        } else if byte == 46 {
            Some(PacketType::UsePortal)
        } else if byte == 47 {
            Some(PacketType::QuestFetchAsk)
        } else if byte == 48 {
            Some(PacketType::AcceptArenaDeath)
        } else if byte == 49 {
            Some(PacketType::AccountList)
        } else if byte == 50 {
            Some(PacketType::ActivePetUpdate)
        } else if byte == 51 {
            Some(PacketType::AllyShoot)
        } else if byte == 52 {
            Some(PacketType::Aoe)
        } else if byte == 53 {
            Some(PacketType::ArenaDeath)
        } else if byte == 54 {
            Some(PacketType::BuyResult)
        } else if byte == 55 {
            Some(PacketType::ClientStat)
        } else if byte == 56 {
            Some(PacketType::CreateSuccess)
        } else if byte == 57 {
            Some(PacketType::Damage)
        } else if byte == 58 {
            Some(PacketType::Death)
        } else if byte == 59 {
            Some(PacketType::DeletePet)
        } else if byte == 60 {
            Some(PacketType::EnemyShoot)
        } else if byte == 61 {
            Some(PacketType::EvolvePet)
        } else if byte == 62 {
            Some(PacketType::Failure)
        } else if byte == 63 {
            Some(PacketType::File)
        } else if byte == 64 {
            Some(PacketType::GlobalNotification)
        } else if byte == 65 {
            Some(PacketType::Goto)
        } else if byte == 66 {
            Some(PacketType::GuildResult)
        } else if byte == 67 {
            Some(PacketType::HatchPet)
        } else if byte == 68 {
            Some(PacketType::InvResult)
        } else if byte == 69 {
            Some(PacketType::InvitedToGuild)
        } else if byte == 70 {
            Some(PacketType::ImminentArenaWave)
        } else if byte == 71 {
            Some(PacketType::KeyInfoResponse)
        } else if byte == 72 {
            Some(PacketType::LoginRewardMsg)
        } else if byte == 73 {
            Some(PacketType::MapInfo)
        } else if byte == 74 {
            Some(PacketType::NameResult)
        } else if byte == 75 {
            Some(PacketType::NewAbility)
        } else if byte == 76 {
            Some(PacketType::NewTick)
        } else if byte == 77 {
            Some(PacketType::Notification)
        } else if byte == 78 {
            Some(PacketType::PasswordPrompt)
        } else if byte == 79 {
            Some(PacketType::PetYardUpdate)
        } else if byte == 80 {
            Some(PacketType::Pic)
        } else if byte == 81 {
            Some(PacketType::Ping)
        } else if byte == 82 {
            Some(PacketType::PlaySound)
        } else if byte == 83 {
            Some(PacketType::QuestObjId)
        } else if byte == 84 {
            Some(PacketType::QuestFetchResponse)
        } else if byte == 85 {
            Some(PacketType::QuestRedeemResponse)
        } else if byte == 86 {
            Some(PacketType::RealmHeroLeftMsg)
        } else if byte == 87 {
            Some(PacketType::Reconnect)
        } else if byte == 88 {
            Some(PacketType::ReskinUnlock)
        } else if byte == 89 {
            Some(PacketType::ServerPlayerShoot)
        } else if byte == 90 {
            Some(PacketType::ShowEffect)
        } else if byte == 91 {
            Some(PacketType::Text)
        } else if byte == 92 {
            Some(PacketType::TradeAccepted)
        } else if byte == 93 {
            Some(PacketType::TradeChanged)
        } else if byte == 94 {
            Some(PacketType::TradeDone)
        } else if byte == 95 {
            Some(PacketType::TradeRequested)
        } else if byte == 96 {
            Some(PacketType::TradeStart)
        } else if byte == 97 {
            Some(PacketType::Update)
        } else if byte == 98 {
            Some(PacketType::VerifyEmail)
        } else {
            None
        }
    }

    /// The name of the kind.
    pub fn get_name(self) -> (name: &'static str)
        ensures
            name@ == self.spec_name(),
    {
        match self {
            PacketType::AcceptTrade => "AcceptTrade",
            PacketType::ActivePetUpdateRequest => "ActivePetUpdateRequest",
            PacketType::AoeAck => "AoeAck",
            PacketType::Buy => "Buy",
            PacketType::CancelTrade => "CancelTrade",
            PacketType::ChangeGuildRank => "ChangeGuildRank",
            PacketType::ChangeTrade => "ChangeTrade",
            PacketType::CheckCredits => "CheckCredits",
            PacketType::ChooseName => "ChooseName",
            PacketType::ClaimLoginRewardMsg => "ClaimLoginRewardMsg",
            PacketType::Create => "Create",
            PacketType::CreateGuild => "CreateGuild",
            PacketType::EditAccountList => "EditAccountList",
            PacketType::EnemyHit => "EnemyHit",
            PacketType::EnterArena => "EnterArena",
            PacketType::Escape => "Escape",
            PacketType::GotoAck => "GotoAck",
            PacketType::GroundDamage => "GroundDamage",
            PacketType::GuildInvite => "GuildInvite",
            PacketType::GuildRemove => "GuildRemove",
            PacketType::Hello => "Hello",
            PacketType::InvDrop => "InvDrop",
            PacketType::InvSwap => "InvSwap",
            PacketType::JoinGuild => "JoinGuild",
            PacketType::KeyInfoRequest => "KeyInfoRequest",
            PacketType::Load => "Load",
            PacketType::Move => "Move",
            PacketType::OtherHit => "OtherHit",
            PacketType::PetChangeFormMsg => "PetChangeFormMsg",
            PacketType::PetChangeSkinMsg => "PetChangeSkinMsg",
            PacketType::PetUpgradeRequest => "PetUpgradeRequest",
            PacketType::PlayerHit => "PlayerHit",
            PacketType::PlayerShoot => "PlayerShoot",
            PacketType::PlayerText => "PlayerText",
            PacketType::QuestRedeem => "QuestRedeem",
            PacketType::QuestRoomMsg => "QuestRoomMsg",
            PacketType::Pong => "Pong",
            PacketType::RequestTrade => "RequestTrade",
            PacketType::ResetDailyQuests => "ResetDailyQuests",
            PacketType::Reskin => "Reskin",
            PacketType::SetCondition => "SetCondition",
            PacketType::ShootAck => "ShootAck",
            PacketType::SquareHit => "SquareHit",
            PacketType::Teleport => "Teleport",
            PacketType::UpdateAck => "UpdateAck",
            PacketType::UseItem => "UseItem",
            PacketType::UsePortal => "UsePortal",
            PacketType::QuestFetchAsk => "QuestFetchAsk",
            PacketType::AcceptArenaDeath => "AcceptArenaDeath",
            PacketType::AccountList => "AccountList",
            PacketType::ActivePetUpdate => "ActivePetUpdate",
            PacketType::AllyShoot => "AllyShoot",
            PacketType::Aoe => "Aoe",
            PacketType::ArenaDeath => "ArenaDeath",
            PacketType::BuyResult => "BuyResult",
            PacketType::ClientStat => "ClientStat",
            PacketType::CreateSuccess => "CreateSuccess",
            PacketType::Damage => "Damage",
            PacketType::Death => "Death",
            PacketType::DeletePet => "DeletePet",
            PacketType::EnemyShoot => "EnemyShoot",
            PacketType::EvolvePet => "EvolvePet",
            PacketType::Failure => "Failure",
            PacketType::File => "File",
            PacketType::GlobalNotification => "GlobalNotification",
            PacketType::Goto => "Goto",
            PacketType::GuildResult => "GuildResult",
            PacketType::HatchPet => "HatchPet",
            PacketType::InvResult => "InvResult",
            PacketType::InvitedToGuild => "InvitedToGuild",
            PacketType::ImminentArenaWave => "ImminentArenaWave",
            PacketType::KeyInfoResponse => "KeyInfoResponse",
            PacketType::LoginRewardMsg => "LoginRewardMsg",
            PacketType::MapInfo => "MapInfo",
            PacketType::NameResult => "NameResult",
            PacketType::NewAbility => "NewAbility",
            PacketType::NewTick => "NewTick",
            PacketType::Notification => "Notification",
            PacketType::PasswordPrompt => "PasswordPrompt",
            PacketType::PetYardUpdate => "PetYardUpdate",
            PacketType::Pic => "Pic",
            PacketType::Ping => "Ping",
            PacketType::PlaySound => "PlaySound",
            PacketType::QuestObjId => "QuestObjId",
            PacketType::QuestFetchResponse => "QuestFetchResponse",
            PacketType::QuestRedeemResponse => "QuestRedeemResponse",
            PacketType::RealmHeroLeftMsg => "RealmHeroLeftMsg",
            PacketType::Reconnect => "Reconnect",
            PacketType::ReskinUnlock => "ReskinUnlock",
            PacketType::ServerPlayerShoot => "ServerPlayerShoot",
            PacketType::ShowEffect => "ShowEffect",
            PacketType::Text => "Text",
            PacketType::TradeAccepted => "TradeAccepted",
            PacketType::TradeChanged => "TradeChanged",
            PacketType::TradeDone => "TradeDone",
            PacketType::TradeRequested => "TradeRequested",
            PacketType::TradeStart => "TradeStart",
            PacketType::Update => "Update",
            PacketType::VerifyEmail => "VerifyEmail",
        }
    }

    /// Whether the server sends packets of this kind.
    pub fn is_server(self) -> (b: bool)
        ensures
            b == self.spec_is_server(),
    {
        self.to_byte() >= NUM_CLIENT_TYPES
    }

    /// Whether the client sends packets of this kind.
    pub fn is_client(self) -> (b: bool)
        ensures
            b == !self.spec_is_server(),
    {
        self.to_byte() < NUM_CLIENT_TYPES
    }

    /// All kinds, in the order of their tags.
    pub fn get_all_types() -> (all: Vec<PacketType>)
        ensures
            all@ == all_types(),
    {
        let mut all: Vec<PacketType> = Vec::new();
        let mut tag: u8 = 0;
        while (tag as usize) < NUM_TYPES
            invariant
                tag <= NUM_TYPES,
                all@ == Seq::new(tag as nat, |i: int| PacketType::spec_from_byte(i as u8)->0),
            decreases NUM_TYPES - tag,
        {
            match PacketType::from_byte(tag) {
                Some(kind) => {
                    all.push(kind);
                },
                None => {},
            }
            assert(all@ =~= Seq::new(
                (tag + 1) as nat,
                |i: int| PacketType::spec_from_byte(i as u8)->0,
            ));
            tag += 1;
        }
        all
    }

    /// All kinds with their names, in the order of their tags.
    pub fn get_name_mappings() -> (all: Vec<(PacketType, &'static str)>)
        ensures
            all@.len() == NUM_TYPES,
            forall|i: int|
                0 <= i < NUM_TYPES ==> (#[trigger] all@[i]).0 == all_types()[i] && all@[i].1@
                    == all_types()[i].spec_name(),
    {
        let kinds = PacketType::get_all_types();
        let mut all: Vec<(PacketType, &'static str)> = Vec::new();
        let mut k: usize = 0;
        while k < kinds.len()
            invariant
                k <= kinds@.len(),
                kinds@ == all_types(),
                all@.len() == k,
                forall|i: int|
                    0 <= i < k ==> (#[trigger] all@[i]).0 == all_types()[i] && all@[i].1@
                        == all_types()[i].spec_name(),
            decreases kinds@.len() - k,
        {
            let kind = kinds[k];
            all.push((kind, kind.get_name()));
            k += 1;
        }
        all
    }

    /// Looking up the tag of a kind gives the kind back, and the tag is below
    /// the number of kinds.
    pub proof fn lemma_from_byte_to_byte(kind: PacketType)
        ensures
            PacketType::spec_from_byte(kind.spec_to_byte()) == Some(kind),
            kind.spec_to_byte() < NUM_TYPES,
    {
        reveal(PacketType::spec_from_byte);
        reveal(PacketType::spec_to_byte);
    }

    /// A tag below the number of kinds is the tag of the kind that is looked
    /// up with it, and no other tag has a kind.
    pub proof fn lemma_to_byte_from_byte(byte: u8)
        ensures
            byte < NUM_TYPES <==> PacketType::spec_from_byte(byte) is Some,
            byte < NUM_TYPES ==> PacketType::spec_from_byte(byte)->0.spec_to_byte() == byte,
    {
        reveal(PacketType::spec_from_byte);
        reveal(PacketType::spec_to_byte);
    }
}

/// All kinds, in the order of their tags.
pub open spec fn all_types() -> Seq<PacketType> {
    Seq::new(NUM_TYPES as nat, |i: int| PacketType::spec_from_byte(i as u8)->0)
}

/// Every kind is in the list of all kinds, at the place of its tag.
pub proof fn lemma_all_types_complete(kind: PacketType)
    ensures
        all_types()[kind.spec_to_byte() as int] == kind,
        all_types().contains(kind),
{
    PacketType::lemma_from_byte_to_byte(kind);
}

impl DeepView for PacketType {
    type V = PacketType;

    open spec fn deep_view(&self) -> PacketType {
        *self
    }
}

/// A packet of any kind, from either side.
#[derive(Debug, PartialEq, Eq, Clone)]
pub enum Packet {
    AcceptTrade(AcceptTrade),
    ActivePetUpdateRequest(ActivePetUpdateRequest),
    AoeAck(AoeAck),
    Buy(Buy),
    CancelTrade(CancelTrade),
    ChangeGuildRank(ChangeGuildRank),
    ChangeTrade(ChangeTrade),
    CheckCredits(CheckCredits),
    ChooseName(ChooseName),
    ClaimLoginRewardMsg(ClaimLoginRewardMsg),
    Create(Create),
    CreateGuild(CreateGuild),
    EditAccountList(EditAccountList),
    EnemyHit(EnemyHit),
    EnterArena(EnterArena),
    Escape(Escape),
    GotoAck(GotoAck),
    GroundDamage(GroundDamage),
    GuildInvite(GuildInvite),
    GuildRemove(GuildRemove),
    Hello(Hello),
    InvDrop(InvDrop),
    InvSwap(InvSwap),
    JoinGuild(JoinGuild),
    KeyInfoRequest(KeyInfoRequest),
    Load(Load),
    Move(Move),
    OtherHit(OtherHit),
    PetChangeFormMsg(PetChangeFormMsg),
    PetChangeSkinMsg(PetChangeSkinMsg),
    PetUpgradeRequest(PetUpgradeRequest),
    PlayerHit(PlayerHit),
    PlayerShoot(PlayerShoot),
    PlayerText(PlayerText),
    QuestRedeem(QuestRedeem),
    QuestRoomMsg(QuestRoomMsg),
    Pong(Pong),
    RequestTrade(RequestTrade),
    ResetDailyQuests(ResetDailyQuests),
    Reskin(Reskin),
    SetCondition(SetCondition),
    ShootAck(ShootAck),
    SquareHit(SquareHit),
    Teleport(Teleport),
    UpdateAck(UpdateAck),
    UseItem(UseItem),
    UsePortal(UsePortal),
    QuestFetchAsk(QuestFetchAsk),
    AcceptArenaDeath(AcceptArenaDeath),
    AccountList(AccountList),
    ActivePetUpdate(ActivePetUpdate),
    AllyShoot(AllyShoot),
    Aoe(Aoe),
    ArenaDeath(ArenaDeath),
    BuyResult(BuyResult),
    ClientStat(ClientStat),
    CreateSuccess(CreateSuccess),
    Damage(Damage),
    Death(Death),
    DeletePet(DeletePet),
    EnemyShoot(EnemyShoot),
    EvolvePet(EvolvePet),
    Failure(Failure),
    File(File),
    GlobalNotification(GlobalNotification),
    Goto(Goto),
    GuildResult(GuildResult),
    HatchPet(HatchPet),
    InvResult(InvResult),
    InvitedToGuild(InvitedToGuild),
    ImminentArenaWave(ImminentArenaWave),
    KeyInfoResponse(KeyInfoResponse),
    LoginRewardMsg(LoginRewardMsg),
    MapInfo(MapInfo),
    NameResult(NameResult),
    NewAbility(NewAbility),
    NewTick(NewTick),
    Notification(Notification),
    PasswordPrompt(PasswordPrompt),
    PetYardUpdate(PetYardUpdate),
    Pic(Pic),
    Ping(Ping),
    PlaySound(PlaySound),
    QuestObjId(QuestObjId),
    QuestFetchResponse(QuestFetchResponse),
    QuestRedeemResponse(QuestRedeemResponse),
    RealmHeroLeftMsg(RealmHeroLeftMsg),
    Reconnect(Reconnect),
    ReskinUnlock(ReskinUnlock),
    ServerPlayerShoot(ServerPlayerShoot),
    ShowEffect(ShowEffect),
    Text(Text),
    TradeAccepted(TradeAccepted),
    TradeChanged(TradeChanged),
    TradeDone(TradeDone),
    TradeRequested(TradeRequested),
    TradeStart(TradeStart),
    Update(Update),
    VerifyEmail(VerifyEmail),
}

/// The model of a [`Packet`].
pub enum PacketModel {
    AcceptTrade(AcceptTradeModel),
    ActivePetUpdateRequest(ActivePetUpdateRequest),
    AoeAck(AoeAck),
    Buy(Buy),
    CancelTrade(CancelTrade),
    ChangeGuildRank(ChangeGuildRankModel),
    ChangeTrade(ChangeTradeModel),
    CheckCredits(CheckCredits),
    ChooseName(ChooseNameModel),
    ClaimLoginRewardMsg(ClaimLoginRewardMsgModel),
    Create(Create),
    CreateGuild(CreateGuildModel),
    EditAccountList(EditAccountList),
    EnemyHit(EnemyHit),
    EnterArena(EnterArena),
    Escape(Escape),
    GotoAck(GotoAck),
    GroundDamage(GroundDamage),
    GuildInvite(GuildInviteModel),
    GuildRemove(GuildRemoveModel),
    Hello(HelloModel),
    InvDrop(InvDrop),
    InvSwap(InvSwap),
    JoinGuild(JoinGuildModel),
    KeyInfoRequest(KeyInfoRequest),
    Load(Load),
    Move(MoveModel),
    OtherHit(OtherHit),
    PetChangeFormMsg(PetChangeFormMsg),
    PetChangeSkinMsg(PetChangeSkinMsg),
    PetUpgradeRequest(PetUpgradeRequestModel),
    PlayerHit(PlayerHit),
    PlayerShoot(PlayerShoot),
    PlayerText(PlayerTextModel),
    QuestRedeem(QuestRedeemModel),
    QuestRoomMsg(QuestRoomMsg),
    Pong(Pong),
    RequestTrade(RequestTradeModel),
    ResetDailyQuests(ResetDailyQuests),
    Reskin(Reskin),
    SetCondition(SetCondition),
    ShootAck(ShootAck),
    SquareHit(SquareHit),
    Teleport(Teleport),
    UpdateAck(UpdateAck),
    UseItem(UseItem),
    UsePortal(UsePortal),
    QuestFetchAsk(QuestFetchAsk),
    AcceptArenaDeath(AcceptArenaDeath),
    AccountList(AccountListModel),
    ActivePetUpdate(ActivePetUpdate),
    AllyShoot(AllyShoot),
    Aoe(Aoe),
    ArenaDeath(ArenaDeath),
    BuyResult(BuyResultModel),
    ClientStat(ClientStatModel),
    CreateSuccess(CreateSuccess),
    Damage(DamageModel),
    Death(DeathModel),
    DeletePet(DeletePet),
    EnemyShoot(EnemyShootModel),
    EvolvePet(EvolvePet),
    Failure(FailureModel),
    File(FileModel),
    GlobalNotification(GlobalNotificationModel),
    Goto(Goto),
    GuildResult(GuildResultModel),
    HatchPet(HatchPetModel),
    InvResult(InvResult),
    InvitedToGuild(InvitedToGuildModel),
    ImminentArenaWave(ImminentArenaWave),
    KeyInfoResponse(KeyInfoResponseModel),
    LoginRewardMsg(LoginRewardMsg),
    MapInfo(MapInfoModel),
    NameResult(NameResultModel),
    NewAbility(NewAbility),
    NewTick(NewTickModel),
    Notification(NotificationModel),
    PasswordPrompt(PasswordPrompt),
    PetYardUpdate(PetYardUpdate),
    Pic(PicModel),
    Ping(Ping),
    PlaySound(PlaySound),
    QuestObjId(QuestObjId),
    QuestFetchResponse(QuestFetchResponseModel),
    QuestRedeemResponse(QuestRedeemResponseModel),
    RealmHeroLeftMsg(RealmHeroLeftMsg),
    Reconnect(ReconnectModel),
    ReskinUnlock(ReskinUnlock),
    ServerPlayerShoot(ServerPlayerShoot),
    ShowEffect(ShowEffect),
    Text(TextModel),
    TradeAccepted(TradeAcceptedModel),
    TradeChanged(TradeChangedModel),
    TradeDone(TradeDoneModel),
    TradeRequested(TradeRequestedModel),
    TradeStart(TradeStartModel),
    Update(UpdateModel),
    VerifyEmail(VerifyEmail),
}

impl DeepView for Packet {
    type V = PacketModel;

    open spec fn deep_view(&self) -> PacketModel {
        match *self {
            Packet::AcceptTrade(v) => PacketModel::AcceptTrade(v.deep_view()),
            Packet::ActivePetUpdateRequest(v) => PacketModel::ActivePetUpdateRequest(v),
            Packet::AoeAck(v) => PacketModel::AoeAck(v),
            Packet::Buy(v) => PacketModel::Buy(v),
            Packet::CancelTrade(v) => PacketModel::CancelTrade(v),
            Packet::ChangeGuildRank(v) => PacketModel::ChangeGuildRank(v.deep_view()),
            Packet::ChangeTrade(v) => PacketModel::ChangeTrade(v.deep_view()),
            Packet::CheckCredits(v) => PacketModel::CheckCredits(v),
            Packet::ChooseName(v) => PacketModel::ChooseName(v.deep_view()),
            Packet::ClaimLoginRewardMsg(v) => PacketModel::ClaimLoginRewardMsg(v.deep_view()),
            Packet::Create(v) => PacketModel::Create(v),
            Packet::CreateGuild(v) => PacketModel::CreateGuild(v.deep_view()),
            Packet::EditAccountList(v) => PacketModel::EditAccountList(v),
            Packet::EnemyHit(v) => PacketModel::EnemyHit(v),
            Packet::EnterArena(v) => PacketModel::EnterArena(v),
            Packet::Escape(v) => PacketModel::Escape(v),
            Packet::GotoAck(v) => PacketModel::GotoAck(v),
            Packet::GroundDamage(v) => PacketModel::GroundDamage(v),
            Packet::GuildInvite(v) => PacketModel::GuildInvite(v.deep_view()),
            Packet::GuildRemove(v) => PacketModel::GuildRemove(v.deep_view()),
            Packet::Hello(v) => PacketModel::Hello(v.deep_view()),
            Packet::InvDrop(v) => PacketModel::InvDrop(v),
            Packet::InvSwap(v) => PacketModel::InvSwap(v),
            Packet::JoinGuild(v) => PacketModel::JoinGuild(v.deep_view()),
            Packet::KeyInfoRequest(v) => PacketModel::KeyInfoRequest(v),
            Packet::Load(v) => PacketModel::Load(v),
            Packet::Move(v) => PacketModel::Move(v.deep_view()),
            Packet::OtherHit(v) => PacketModel::OtherHit(v),
            Packet::PetChangeFormMsg(v) => PacketModel::PetChangeFormMsg(v),
            Packet::PetChangeSkinMsg(v) => PacketModel::PetChangeSkinMsg(v),
            Packet::PetUpgradeRequest(v) => PacketModel::PetUpgradeRequest(v.deep_view()),
            Packet::PlayerHit(v) => PacketModel::PlayerHit(v),
            Packet::PlayerShoot(v) => PacketModel::PlayerShoot(v),
            Packet::PlayerText(v) => PacketModel::PlayerText(v.deep_view()),
            Packet::QuestRedeem(v) => PacketModel::QuestRedeem(v.deep_view()),
            Packet::QuestRoomMsg(v) => PacketModel::QuestRoomMsg(v),
            Packet::Pong(v) => PacketModel::Pong(v),
            Packet::RequestTrade(v) => PacketModel::RequestTrade(v.deep_view()),
            Packet::ResetDailyQuests(v) => PacketModel::ResetDailyQuests(v),
            Packet::Reskin(v) => PacketModel::Reskin(v),
            Packet::SetCondition(v) => PacketModel::SetCondition(v),
            Packet::ShootAck(v) => PacketModel::ShootAck(v),
            Packet::SquareHit(v) => PacketModel::SquareHit(v),
            Packet::Teleport(v) => PacketModel::Teleport(v),
            Packet::UpdateAck(v) => PacketModel::UpdateAck(v),
            Packet::UseItem(v) => PacketModel::UseItem(v),
            Packet::UsePortal(v) => PacketModel::UsePortal(v),
            Packet::QuestFetchAsk(v) => PacketModel::QuestFetchAsk(v),
            Packet::AcceptArenaDeath(v) => PacketModel::AcceptArenaDeath(v),
            Packet::AccountList(v) => PacketModel::AccountList(v.deep_view()),
            Packet::ActivePetUpdate(v) => PacketModel::ActivePetUpdate(v),
            Packet::AllyShoot(v) => PacketModel::AllyShoot(v),
            Packet::Aoe(v) => PacketModel::Aoe(v),
            Packet::ArenaDeath(v) => PacketModel::ArenaDeath(v),
            Packet::BuyResult(v) => PacketModel::BuyResult(v.deep_view()),
            Packet::ClientStat(v) => PacketModel::ClientStat(v.deep_view()),
            Packet::CreateSuccess(v) => PacketModel::CreateSuccess(v),
            Packet::Damage(v) => PacketModel::Damage(v.deep_view()),
            Packet::Death(v) => PacketModel::Death(v.deep_view()),
            Packet::DeletePet(v) => PacketModel::DeletePet(v),
            Packet::EnemyShoot(v) => PacketModel::EnemyShoot(v.deep_view()),
            Packet::EvolvePet(v) => PacketModel::EvolvePet(v),
            Packet::Failure(v) => PacketModel::Failure(v.deep_view()),
            Packet::File(v) => PacketModel::File(v.deep_view()),
            Packet::GlobalNotification(v) => PacketModel::GlobalNotification(v.deep_view()),
            Packet::Goto(v) => PacketModel::Goto(v),
            Packet::GuildResult(v) => PacketModel::GuildResult(v.deep_view()),
            Packet::HatchPet(v) => PacketModel::HatchPet(v.deep_view()),
            Packet::InvResult(v) => PacketModel::InvResult(v),
            Packet::InvitedToGuild(v) => PacketModel::InvitedToGuild(v.deep_view()),
            Packet::ImminentArenaWave(v) => PacketModel::ImminentArenaWave(v),
            Packet::KeyInfoResponse(v) => PacketModel::KeyInfoResponse(v.deep_view()),
            Packet::LoginRewardMsg(v) => PacketModel::LoginRewardMsg(v),
            Packet::MapInfo(v) => PacketModel::MapInfo(v.deep_view()),
            Packet::NameResult(v) => PacketModel::NameResult(v.deep_view()),
            Packet::NewAbility(v) => PacketModel::NewAbility(v),
            Packet::NewTick(v) => PacketModel::NewTick(v.deep_view()),
            Packet::Notification(v) => PacketModel::Notification(v.deep_view()),
            Packet::PasswordPrompt(v) => PacketModel::PasswordPrompt(v),
            Packet::PetYardUpdate(v) => PacketModel::PetYardUpdate(v),
            Packet::Pic(v) => PacketModel::Pic(v.deep_view()),
            Packet::Ping(v) => PacketModel::Ping(v),
            Packet::PlaySound(v) => PacketModel::PlaySound(v),
            Packet::QuestObjId(v) => PacketModel::QuestObjId(v),
            Packet::QuestFetchResponse(v) => PacketModel::QuestFetchResponse(v.deep_view()),
            Packet::QuestRedeemResponse(v) => PacketModel::QuestRedeemResponse(v.deep_view()),
            Packet::RealmHeroLeftMsg(v) => PacketModel::RealmHeroLeftMsg(v),
            Packet::Reconnect(v) => PacketModel::Reconnect(v.deep_view()),
            Packet::ReskinUnlock(v) => PacketModel::ReskinUnlock(v),
            Packet::ServerPlayerShoot(v) => PacketModel::ServerPlayerShoot(v),
            Packet::ShowEffect(v) => PacketModel::ShowEffect(v),
            Packet::Text(v) => PacketModel::Text(v.deep_view()),
            Packet::TradeAccepted(v) => PacketModel::TradeAccepted(v.deep_view()),
            Packet::TradeChanged(v) => PacketModel::TradeChanged(v.deep_view()),
            Packet::TradeDone(v) => PacketModel::TradeDone(v.deep_view()),
            Packet::TradeRequested(v) => PacketModel::TradeRequested(v.deep_view()),
            Packet::TradeStart(v) => PacketModel::TradeStart(v.deep_view()),
            Packet::Update(v) => PacketModel::Update(v.deep_view()),
            Packet::VerifyEmail(v) => PacketModel::VerifyEmail(v),
        }
    }
}

impl PacketModel {
    /// The kind of the packet.
    pub open spec fn kind(self) -> PacketType {
        match self {
            PacketModel::AcceptTrade(_) => PacketType::AcceptTrade,
            PacketModel::ActivePetUpdateRequest(_) => PacketType::ActivePetUpdateRequest,
            PacketModel::AoeAck(_) => PacketType::AoeAck,
            PacketModel::Buy(_) => PacketType::Buy,
            PacketModel::CancelTrade(_) => PacketType::CancelTrade,
            PacketModel::ChangeGuildRank(_) => PacketType::ChangeGuildRank,
            PacketModel::ChangeTrade(_) => PacketType::ChangeTrade,
            PacketModel::CheckCredits(_) => PacketType::CheckCredits,
            PacketModel::ChooseName(_) => PacketType::ChooseName,
            PacketModel::ClaimLoginRewardMsg(_) => PacketType::ClaimLoginRewardMsg,
            PacketModel::Create(_) => PacketType::Create,
            PacketModel::CreateGuild(_) => PacketType::CreateGuild,
            PacketModel::EditAccountList(_) => PacketType::EditAccountList,
            PacketModel::EnemyHit(_) => PacketType::EnemyHit,
            PacketModel::EnterArena(_) => PacketType::EnterArena,
            PacketModel::Escape(_) => PacketType::Escape,
            PacketModel::GotoAck(_) => PacketType::GotoAck,
            PacketModel::GroundDamage(_) => PacketType::GroundDamage,
            PacketModel::GuildInvite(_) => PacketType::GuildInvite,
            PacketModel::GuildRemove(_) => PacketType::GuildRemove,
            PacketModel::Hello(_) => PacketType::Hello,
            PacketModel::InvDrop(_) => PacketType::InvDrop,
            PacketModel::InvSwap(_) => PacketType::InvSwap,
            PacketModel::JoinGuild(_) => PacketType::JoinGuild,
            PacketModel::KeyInfoRequest(_) => PacketType::KeyInfoRequest,
            PacketModel::Load(_) => PacketType::Load,
            PacketModel::Move(_) => PacketType::Move,
            PacketModel::OtherHit(_) => PacketType::OtherHit,
            PacketModel::PetChangeFormMsg(_) => PacketType::PetChangeFormMsg,
            PacketModel::PetChangeSkinMsg(_) => PacketType::PetChangeSkinMsg,
            PacketModel::PetUpgradeRequest(_) => PacketType::PetUpgradeRequest,
            PacketModel::PlayerHit(_) => PacketType::PlayerHit,
            PacketModel::PlayerShoot(_) => PacketType::PlayerShoot,
            PacketModel::PlayerText(_) => PacketType::PlayerText,
            PacketModel::QuestRedeem(_) => PacketType::QuestRedeem,
            PacketModel::QuestRoomMsg(_) => PacketType::QuestRoomMsg,
            PacketModel::Pong(_) => PacketType::Pong,
            PacketModel::RequestTrade(_) => PacketType::RequestTrade,
            PacketModel::ResetDailyQuests(_) => PacketType::ResetDailyQuests,
            PacketModel::Reskin(_) => PacketType::Reskin,
            PacketModel::SetCondition(_) => PacketType::SetCondition,
            PacketModel::ShootAck(_) => PacketType::ShootAck,
            PacketModel::SquareHit(_) => PacketType::SquareHit,
            PacketModel::Teleport(_) => PacketType::Teleport,
            PacketModel::UpdateAck(_) => PacketType::UpdateAck,
            PacketModel::UseItem(_) => PacketType::UseItem,
            PacketModel::UsePortal(_) => PacketType::UsePortal,
            PacketModel::QuestFetchAsk(_) => PacketType::QuestFetchAsk,
            PacketModel::AcceptArenaDeath(_) => PacketType::AcceptArenaDeath,
            PacketModel::AccountList(_) => PacketType::AccountList,
            PacketModel::ActivePetUpdate(_) => PacketType::ActivePetUpdate,
            PacketModel::AllyShoot(_) => PacketType::AllyShoot,
            PacketModel::Aoe(_) => PacketType::Aoe,
            PacketModel::ArenaDeath(_) => PacketType::ArenaDeath,
            PacketModel::BuyResult(_) => PacketType::BuyResult,
            PacketModel::ClientStat(_) => PacketType::ClientStat,
            PacketModel::CreateSuccess(_) => PacketType::CreateSuccess,
            PacketModel::Damage(_) => PacketType::Damage,
            PacketModel::Death(_) => PacketType::Death,
            PacketModel::DeletePet(_) => PacketType::DeletePet,
            PacketModel::EnemyShoot(_) => PacketType::EnemyShoot,
            PacketModel::EvolvePet(_) => PacketType::EvolvePet,
            PacketModel::Failure(_) => PacketType::Failure,
            PacketModel::File(_) => PacketType::File,
            PacketModel::GlobalNotification(_) => PacketType::GlobalNotification,
            PacketModel::Goto(_) => PacketType::Goto,
            PacketModel::GuildResult(_) => PacketType::GuildResult,
            PacketModel::HatchPet(_) => PacketType::HatchPet,
            PacketModel::InvResult(_) => PacketType::InvResult,
            PacketModel::InvitedToGuild(_) => PacketType::InvitedToGuild,
            PacketModel::ImminentArenaWave(_) => PacketType::ImminentArenaWave,
            PacketModel::KeyInfoResponse(_) => PacketType::KeyInfoResponse,
            PacketModel::LoginRewardMsg(_) => PacketType::LoginRewardMsg,
            PacketModel::MapInfo(_) => PacketType::MapInfo,
            PacketModel::NameResult(_) => PacketType::NameResult,
            PacketModel::NewAbility(_) => PacketType::NewAbility,
            PacketModel::NewTick(_) => PacketType::NewTick,
            PacketModel::Notification(_) => PacketType::Notification,
            PacketModel::PasswordPrompt(_) => PacketType::PasswordPrompt,
            PacketModel::PetYardUpdate(_) => PacketType::PetYardUpdate,
            PacketModel::Pic(_) => PacketType::Pic,
            PacketModel::Ping(_) => PacketType::Ping,
            PacketModel::PlaySound(_) => PacketType::PlaySound,
            PacketModel::QuestObjId(_) => PacketType::QuestObjId,
            PacketModel::QuestFetchResponse(_) => PacketType::QuestFetchResponse,
            PacketModel::QuestRedeemResponse(_) => PacketType::QuestRedeemResponse,
            PacketModel::RealmHeroLeftMsg(_) => PacketType::RealmHeroLeftMsg,
            PacketModel::Reconnect(_) => PacketType::Reconnect,
            PacketModel::ReskinUnlock(_) => PacketType::ReskinUnlock,
            PacketModel::ServerPlayerShoot(_) => PacketType::ServerPlayerShoot,
            PacketModel::ShowEffect(_) => PacketType::ShowEffect,
            PacketModel::Text(_) => PacketType::Text,
            PacketModel::TradeAccepted(_) => PacketType::TradeAccepted,
            PacketModel::TradeChanged(_) => PacketType::TradeChanged,
            PacketModel::TradeDone(_) => PacketType::TradeDone,
            PacketModel::TradeRequested(_) => PacketType::TradeRequested,
            PacketModel::TradeStart(_) => PacketType::TradeStart,
            PacketModel::Update(_) => PacketType::Update,
            PacketModel::VerifyEmail(_) => PacketType::VerifyEmail,
        }
    }
}

/// The contents of the packets of one kind.
pub trait PacketData: Adapter {
    /// The kind of the packets with these contents.
    spec fn spec_packet_type() -> PacketType;

    /// The packet with the given contents.
    spec fn spec_wrap(value: Self::V) -> PacketModel;

    /// The kind of the packets with these contents.
    fn packet_type() -> (kind: PacketType)
        ensures
            kind == Self::spec_packet_type(),
    ;

    /// The packet with these contents.
    fn into_packet(self) -> (packet: Packet)
        ensures
            packet.deep_view() == Self::spec_wrap(self.deep_view()),
    ;

    /// The contents of `packet`, if it is of this kind; the packet itself if
    /// it is not.
    fn from_packet(packet: Packet) -> (r: Result<Self, Packet>)
        ensures
            match r {
                Ok(contents) => packet.deep_view() == Self::spec_wrap(contents.deep_view()),
                Err(other) => other == packet && packet.deep_view().kind()
                    != Self::spec_packet_type(),
            },
    ;

    /// The contents of `packet`, if it is of this kind; the packet itself if
    /// it is not.
    fn from_packet_ref(packet: &Packet) -> (r: Result<&Self, &Packet>)
        ensures
            match r {
                Ok(contents) => packet.deep_view() == Self::spec_wrap(contents.deep_view()),
                Err(other) => other == packet && packet.deep_view().kind()
                    != Self::spec_packet_type(),
            },
    ;
}

/// What decoding the contents of a packet whose kind is that of `T` does.
#[verifier::opaque]
pub open spec fn spec_get_as<T: PacketData>(input: Seq<u8>) -> Read<PacketModel, Error> {
    then(T::spec_get(input), |v: T::V, rest: Seq<u8>| done(T::spec_wrap(v), rest))
}

/// Decodes the contents of a packet whose kind is that of `T`.
fn get_as<T: PacketData>(contents: &mut Cursor) -> (r: Result<Packet, Error>)
    ensures
        agrees(r, final(contents)@, spec_get_as::<T>(old(contents)@)),
{
    reveal(spec_get_as);
    let v = T::get_be(contents)?;
    Ok(v.into_packet())
}

/// Contents that were encoded without failure decode to the packet that
/// holds them, and no byte is left over.
proof fn lemma_get_as_round_trip<T: PacketData>(value: T::V)
    requires
        T::spec_put(value).result is Ok,
        T::round_trips(value, Seq::empty()),
    ensures
        spec_get_as::<T>(T::spec_put(value).bytes) == (Read::<PacketModel, Error> {
            rest: Seq::empty(),
            result: Ok(T::spec_wrap(value)),
        }),
{
    reveal(spec_get_as);
    lemma_add_empty(T::spec_put(value).bytes);
    T::lemma_round_trip(value, Seq::empty());
}

/// What decoding the contents of a packet of kind `kind` does.
#[verifier::opaque]
pub open spec fn spec_packet_get(kind: PacketType, input: Seq<u8>) -> Read<PacketModel, Error> {
    match kind {
        PacketType::AcceptTrade => spec_get_as::<AcceptTrade>(input),
        PacketType::ActivePetUpdateRequest => spec_get_as::<ActivePetUpdateRequest>(input),
        PacketType::AoeAck => spec_get_as::<AoeAck>(input),
        PacketType::Buy => spec_get_as::<Buy>(input),
        PacketType::CancelTrade => spec_get_as::<CancelTrade>(input),
        PacketType::ChangeGuildRank => spec_get_as::<ChangeGuildRank>(input),
        PacketType::ChangeTrade => spec_get_as::<ChangeTrade>(input),
        PacketType::CheckCredits => spec_get_as::<CheckCredits>(input),
        PacketType::ChooseName => spec_get_as::<ChooseName>(input),
        PacketType::ClaimLoginRewardMsg => spec_get_as::<ClaimLoginRewardMsg>(input),
        PacketType::Create => spec_get_as::<Create>(input),
        PacketType::CreateGuild => spec_get_as::<CreateGuild>(input),
        PacketType::EditAccountList => spec_get_as::<EditAccountList>(input),
        PacketType::EnemyHit => spec_get_as::<EnemyHit>(input),
        PacketType::EnterArena => spec_get_as::<EnterArena>(input),
        PacketType::Escape => spec_get_as::<Escape>(input),
        PacketType::GotoAck => spec_get_as::<GotoAck>(input),
        PacketType::GroundDamage => spec_get_as::<GroundDamage>(input),
        PacketType::GuildInvite => spec_get_as::<GuildInvite>(input),
        PacketType::GuildRemove => spec_get_as::<GuildRemove>(input),
        PacketType::Hello => spec_get_as::<Hello>(input),
        PacketType::InvDrop => spec_get_as::<InvDrop>(input),
        PacketType::InvSwap => spec_get_as::<InvSwap>(input),
        PacketType::JoinGuild => spec_get_as::<JoinGuild>(input),
        PacketType::KeyInfoRequest => spec_get_as::<KeyInfoRequest>(input),
        PacketType::Load => spec_get_as::<Load>(input),
        PacketType::Move => spec_get_as::<Move>(input),
        PacketType::OtherHit => spec_get_as::<OtherHit>(input),
        PacketType::PetChangeFormMsg => spec_get_as::<PetChangeFormMsg>(input),
        PacketType::PetChangeSkinMsg => spec_get_as::<PetChangeSkinMsg>(input),
        PacketType::PetUpgradeRequest => spec_get_as::<PetUpgradeRequest>(input),
        PacketType::PlayerHit => spec_get_as::<PlayerHit>(input),
        PacketType::PlayerShoot => spec_get_as::<PlayerShoot>(input),
        PacketType::PlayerText => spec_get_as::<PlayerText>(input),
        PacketType::QuestRedeem => spec_get_as::<QuestRedeem>(input),
        PacketType::QuestRoomMsg => spec_get_as::<QuestRoomMsg>(input),
        PacketType::Pong => spec_get_as::<Pong>(input),
        PacketType::RequestTrade => spec_get_as::<RequestTrade>(input),
        PacketType::ResetDailyQuests => spec_get_as::<ResetDailyQuests>(input),
        PacketType::Reskin => spec_get_as::<Reskin>(input),
        PacketType::SetCondition => spec_get_as::<SetCondition>(input),
        PacketType::ShootAck => spec_get_as::<ShootAck>(input),
        PacketType::SquareHit => spec_get_as::<SquareHit>(input),
        PacketType::Teleport => spec_get_as::<Teleport>(input),
        PacketType::UpdateAck => spec_get_as::<UpdateAck>(input),
        PacketType::UseItem => spec_get_as::<UseItem>(input),
        PacketType::UsePortal => spec_get_as::<UsePortal>(input),
        PacketType::QuestFetchAsk => spec_get_as::<QuestFetchAsk>(input),
        PacketType::AcceptArenaDeath => spec_get_as::<AcceptArenaDeath>(input),
        PacketType::AccountList => spec_get_as::<AccountList>(input),
        PacketType::ActivePetUpdate => spec_get_as::<ActivePetUpdate>(input),
        PacketType::AllyShoot => spec_get_as::<AllyShoot>(input),
        PacketType::Aoe => spec_get_as::<Aoe>(input),
        PacketType::ArenaDeath => spec_get_as::<ArenaDeath>(input),
        PacketType::BuyResult => spec_get_as::<BuyResult>(input),
        PacketType::ClientStat => spec_get_as::<ClientStat>(input),
        PacketType::CreateSuccess => spec_get_as::<CreateSuccess>(input),
        PacketType::Damage => spec_get_as::<Damage>(input),
        PacketType::Death => spec_get_as::<Death>(input),
        PacketType::DeletePet => spec_get_as::<DeletePet>(input),
        PacketType::EnemyShoot => spec_get_as::<EnemyShoot>(input),
        PacketType::EvolvePet => spec_get_as::<EvolvePet>(input),
        PacketType::Failure => spec_get_as::<Failure>(input),
        PacketType::File => spec_get_as::<File>(input),
        PacketType::GlobalNotification => spec_get_as::<GlobalNotification>(input),
        PacketType::Goto => spec_get_as::<Goto>(input),
        PacketType::GuildResult => spec_get_as::<GuildResult>(input),
        PacketType::HatchPet => spec_get_as::<HatchPet>(input),
        PacketType::InvResult => spec_get_as::<InvResult>(input),
        PacketType::InvitedToGuild => spec_get_as::<InvitedToGuild>(input),
        PacketType::ImminentArenaWave => spec_get_as::<ImminentArenaWave>(input),
        PacketType::KeyInfoResponse => spec_get_as::<KeyInfoResponse>(input),
        PacketType::LoginRewardMsg => spec_get_as::<LoginRewardMsg>(input),
        PacketType::MapInfo => spec_get_as::<MapInfo>(input),
        PacketType::NameResult => spec_get_as::<NameResult>(input),
        PacketType::NewAbility => spec_get_as::<NewAbility>(input),
        PacketType::NewTick => spec_get_as::<NewTick>(input),
        PacketType::Notification => spec_get_as::<Notification>(input),
        PacketType::PasswordPrompt => spec_get_as::<PasswordPrompt>(input),
        PacketType::PetYardUpdate => spec_get_as::<PetYardUpdate>(input),
        PacketType::Pic => spec_get_as::<Pic>(input),
        PacketType::Ping => spec_get_as::<Ping>(input),
        PacketType::PlaySound => spec_get_as::<PlaySound>(input),
        PacketType::QuestObjId => spec_get_as::<QuestObjId>(input),
        PacketType::QuestFetchResponse => spec_get_as::<QuestFetchResponse>(input),
        PacketType::QuestRedeemResponse => spec_get_as::<QuestRedeemResponse>(input),
        PacketType::RealmHeroLeftMsg => spec_get_as::<RealmHeroLeftMsg>(input),
        PacketType::Reconnect => spec_get_as::<Reconnect>(input),
        PacketType::ReskinUnlock => spec_get_as::<ReskinUnlock>(input),
        PacketType::ServerPlayerShoot => spec_get_as::<ServerPlayerShoot>(input),
        PacketType::ShowEffect => spec_get_as::<ShowEffect>(input),
        PacketType::Text => spec_get_as::<Text>(input),
        PacketType::TradeAccepted => spec_get_as::<TradeAccepted>(input),
        PacketType::TradeChanged => spec_get_as::<TradeChanged>(input),
        PacketType::TradeDone => spec_get_as::<TradeDone>(input),
        PacketType::TradeRequested => spec_get_as::<TradeRequested>(input),
        PacketType::TradeStart => spec_get_as::<TradeStart>(input),
        PacketType::Update => spec_get_as::<Update>(input),
        PacketType::VerifyEmail => spec_get_as::<VerifyEmail>(input),
    }
}

/// What encoding the contents of a packet does.
#[verifier::opaque]
pub open spec fn spec_packet_put(packet: PacketModel) -> Written {
    match packet {
        PacketModel::AcceptTrade(v) => AcceptTrade::spec_put(v),
        PacketModel::ActivePetUpdateRequest(v) => ActivePetUpdateRequest::spec_put(v),
        PacketModel::AoeAck(v) => AoeAck::spec_put(v),
        PacketModel::Buy(v) => Buy::spec_put(v),
        PacketModel::CancelTrade(v) => CancelTrade::spec_put(v),
        PacketModel::ChangeGuildRank(v) => ChangeGuildRank::spec_put(v),
        PacketModel::ChangeTrade(v) => ChangeTrade::spec_put(v),
        PacketModel::CheckCredits(v) => CheckCredits::spec_put(v),
        PacketModel::ChooseName(v) => ChooseName::spec_put(v),
        PacketModel::ClaimLoginRewardMsg(v) => ClaimLoginRewardMsg::spec_put(v),
        PacketModel::Create(v) => Create::spec_put(v),
        PacketModel::CreateGuild(v) => CreateGuild::spec_put(v),
        PacketModel::EditAccountList(v) => EditAccountList::spec_put(v),
        PacketModel::EnemyHit(v) => EnemyHit::spec_put(v),
        PacketModel::EnterArena(v) => EnterArena::spec_put(v),
        PacketModel::Escape(v) => Escape::spec_put(v),
        PacketModel::GotoAck(v) => GotoAck::spec_put(v),
        PacketModel::GroundDamage(v) => GroundDamage::spec_put(v),
        PacketModel::GuildInvite(v) => GuildInvite::spec_put(v),
        PacketModel::GuildRemove(v) => GuildRemove::spec_put(v),
        PacketModel::Hello(v) => Hello::spec_put(v),
        PacketModel::InvDrop(v) => InvDrop::spec_put(v),
        PacketModel::InvSwap(v) => InvSwap::spec_put(v),
        PacketModel::JoinGuild(v) => JoinGuild::spec_put(v),
        PacketModel::KeyInfoRequest(v) => KeyInfoRequest::spec_put(v),
        PacketModel::Load(v) => Load::spec_put(v),
        PacketModel::Move(v) => Move::spec_put(v),
        PacketModel::OtherHit(v) => OtherHit::spec_put(v),
        PacketModel::PetChangeFormMsg(v) => PetChangeFormMsg::spec_put(v),
        PacketModel::PetChangeSkinMsg(v) => PetChangeSkinMsg::spec_put(v),
        PacketModel::PetUpgradeRequest(v) => PetUpgradeRequest::spec_put(v),
        PacketModel::PlayerHit(v) => PlayerHit::spec_put(v),
        PacketModel::PlayerShoot(v) => PlayerShoot::spec_put(v),
        PacketModel::PlayerText(v) => PlayerText::spec_put(v),
        PacketModel::QuestRedeem(v) => QuestRedeem::spec_put(v),
        PacketModel::QuestRoomMsg(v) => QuestRoomMsg::spec_put(v),
        PacketModel::Pong(v) => Pong::spec_put(v),
        PacketModel::RequestTrade(v) => RequestTrade::spec_put(v),
        PacketModel::ResetDailyQuests(v) => ResetDailyQuests::spec_put(v),
        PacketModel::Reskin(v) => Reskin::spec_put(v),
        PacketModel::SetCondition(v) => SetCondition::spec_put(v),
        PacketModel::ShootAck(v) => ShootAck::spec_put(v),
        PacketModel::SquareHit(v) => SquareHit::spec_put(v),
        PacketModel::Teleport(v) => Teleport::spec_put(v),
        PacketModel::UpdateAck(v) => UpdateAck::spec_put(v),
        PacketModel::UseItem(v) => UseItem::spec_put(v),
        PacketModel::UsePortal(v) => UsePortal::spec_put(v),
        PacketModel::QuestFetchAsk(v) => QuestFetchAsk::spec_put(v),
        PacketModel::AcceptArenaDeath(v) => AcceptArenaDeath::spec_put(v),
        PacketModel::AccountList(v) => AccountList::spec_put(v),
        PacketModel::ActivePetUpdate(v) => ActivePetUpdate::spec_put(v),
        PacketModel::AllyShoot(v) => AllyShoot::spec_put(v),
        PacketModel::Aoe(v) => Aoe::spec_put(v),
        PacketModel::ArenaDeath(v) => ArenaDeath::spec_put(v),
        PacketModel::BuyResult(v) => BuyResult::spec_put(v),
        PacketModel::ClientStat(v) => ClientStat::spec_put(v),
        PacketModel::CreateSuccess(v) => CreateSuccess::spec_put(v),
        PacketModel::Damage(v) => Damage::spec_put(v),
        PacketModel::Death(v) => Death::spec_put(v),
        PacketModel::DeletePet(v) => DeletePet::spec_put(v),
        PacketModel::EnemyShoot(v) => EnemyShoot::spec_put(v),
        PacketModel::EvolvePet(v) => EvolvePet::spec_put(v),
        PacketModel::Failure(v) => Failure::spec_put(v),
        PacketModel::File(v) => File::spec_put(v),
        PacketModel::GlobalNotification(v) => GlobalNotification::spec_put(v),
        PacketModel::Goto(v) => Goto::spec_put(v),
        PacketModel::GuildResult(v) => GuildResult::spec_put(v),
        PacketModel::HatchPet(v) => HatchPet::spec_put(v),
        PacketModel::InvResult(v) => InvResult::spec_put(v),
        PacketModel::InvitedToGuild(v) => InvitedToGuild::spec_put(v),
        PacketModel::ImminentArenaWave(v) => ImminentArenaWave::spec_put(v),
        PacketModel::KeyInfoResponse(v) => KeyInfoResponse::spec_put(v),
        PacketModel::LoginRewardMsg(v) => LoginRewardMsg::spec_put(v),
        PacketModel::MapInfo(v) => MapInfo::spec_put(v),
        PacketModel::NameResult(v) => NameResult::spec_put(v),
        PacketModel::NewAbility(v) => NewAbility::spec_put(v),
        PacketModel::NewTick(v) => NewTick::spec_put(v),
        PacketModel::Notification(v) => Notification::spec_put(v),
        PacketModel::PasswordPrompt(v) => PasswordPrompt::spec_put(v),
        PacketModel::PetYardUpdate(v) => PetYardUpdate::spec_put(v),
        PacketModel::Pic(v) => Pic::spec_put(v),
        PacketModel::Ping(v) => Ping::spec_put(v),
        PacketModel::PlaySound(v) => PlaySound::spec_put(v),
        PacketModel::QuestObjId(v) => QuestObjId::spec_put(v),
        PacketModel::QuestFetchResponse(v) => QuestFetchResponse::spec_put(v),
        PacketModel::QuestRedeemResponse(v) => QuestRedeemResponse::spec_put(v),
        PacketModel::RealmHeroLeftMsg(v) => RealmHeroLeftMsg::spec_put(v),
        PacketModel::Reconnect(v) => Reconnect::spec_put(v),
        PacketModel::ReskinUnlock(v) => ReskinUnlock::spec_put(v),
        PacketModel::ServerPlayerShoot(v) => ServerPlayerShoot::spec_put(v),
        PacketModel::ShowEffect(v) => ShowEffect::spec_put(v),
        PacketModel::Text(v) => Text::spec_put(v),
        PacketModel::TradeAccepted(v) => TradeAccepted::spec_put(v),
        PacketModel::TradeChanged(v) => TradeChanged::spec_put(v),
        PacketModel::TradeDone(v) => TradeDone::spec_put(v),
        PacketModel::TradeRequested(v) => TradeRequested::spec_put(v),
        PacketModel::TradeStart(v) => TradeStart::spec_put(v),
        PacketModel::Update(v) => Update::spec_put(v),
        PacketModel::VerifyEmail(v) => VerifyEmail::spec_put(v),
    }
}

/// Whether the contents of a packet, encoded, decode to themselves when
/// nothing follows them.
pub open spec fn packet_round_trips(packet: PacketModel) -> bool {
    match packet {
        PacketModel::AcceptTrade(v) => AcceptTrade::round_trips(v, Seq::empty()),
        PacketModel::ActivePetUpdateRequest(v) => ActivePetUpdateRequest::round_trips(v, Seq::empty()),
        PacketModel::AoeAck(v) => AoeAck::round_trips(v, Seq::empty()),
        PacketModel::Buy(v) => Buy::round_trips(v, Seq::empty()),
        PacketModel::CancelTrade(v) => CancelTrade::round_trips(v, Seq::empty()),
        PacketModel::ChangeGuildRank(v) => ChangeGuildRank::round_trips(v, Seq::empty()),
        PacketModel::ChangeTrade(v) => ChangeTrade::round_trips(v, Seq::empty()),
        PacketModel::CheckCredits(v) => CheckCredits::round_trips(v, Seq::empty()),
        PacketModel::ChooseName(v) => ChooseName::round_trips(v, Seq::empty()),
        PacketModel::ClaimLoginRewardMsg(v) => ClaimLoginRewardMsg::round_trips(v, Seq::empty()),
        PacketModel::Create(v) => Create::round_trips(v, Seq::empty()),
        PacketModel::CreateGuild(v) => CreateGuild::round_trips(v, Seq::empty()),
        PacketModel::EditAccountList(v) => EditAccountList::round_trips(v, Seq::empty()),
        PacketModel::EnemyHit(v) => EnemyHit::round_trips(v, Seq::empty()),
        PacketModel::EnterArena(v) => EnterArena::round_trips(v, Seq::empty()),
        PacketModel::Escape(v) => Escape::round_trips(v, Seq::empty()),
        PacketModel::GotoAck(v) => GotoAck::round_trips(v, Seq::empty()),
        PacketModel::GroundDamage(v) => GroundDamage::round_trips(v, Seq::empty()),
        PacketModel::GuildInvite(v) => GuildInvite::round_trips(v, Seq::empty()),
        PacketModel::GuildRemove(v) => GuildRemove::round_trips(v, Seq::empty()),
        PacketModel::Hello(v) => Hello::round_trips(v, Seq::empty()),
        PacketModel::InvDrop(v) => InvDrop::round_trips(v, Seq::empty()),
        PacketModel::InvSwap(v) => InvSwap::round_trips(v, Seq::empty()),
        PacketModel::JoinGuild(v) => JoinGuild::round_trips(v, Seq::empty()),
        PacketModel::KeyInfoRequest(v) => KeyInfoRequest::round_trips(v, Seq::empty()),
        PacketModel::Load(v) => Load::round_trips(v, Seq::empty()),
        PacketModel::Move(v) => Move::round_trips(v, Seq::empty()),
        PacketModel::OtherHit(v) => OtherHit::round_trips(v, Seq::empty()),
        PacketModel::PetChangeFormMsg(v) => PetChangeFormMsg::round_trips(v, Seq::empty()),
        PacketModel::PetChangeSkinMsg(v) => PetChangeSkinMsg::round_trips(v, Seq::empty()),
        PacketModel::PetUpgradeRequest(v) => PetUpgradeRequest::round_trips(v, Seq::empty()),
        PacketModel::PlayerHit(v) => PlayerHit::round_trips(v, Seq::empty()),
        PacketModel::PlayerShoot(v) => PlayerShoot::round_trips(v, Seq::empty()),
        PacketModel::PlayerText(v) => PlayerText::round_trips(v, Seq::empty()),
        PacketModel::QuestRedeem(v) => QuestRedeem::round_trips(v, Seq::empty()),
        PacketModel::QuestRoomMsg(v) => QuestRoomMsg::round_trips(v, Seq::empty()),
        PacketModel::Pong(v) => Pong::round_trips(v, Seq::empty()),
        PacketModel::RequestTrade(v) => RequestTrade::round_trips(v, Seq::empty()),
        PacketModel::ResetDailyQuests(v) => ResetDailyQuests::round_trips(v, Seq::empty()),
        PacketModel::Reskin(v) => Reskin::round_trips(v, Seq::empty()),
        PacketModel::SetCondition(v) => SetCondition::round_trips(v, Seq::empty()),
        PacketModel::ShootAck(v) => ShootAck::round_trips(v, Seq::empty()),
        PacketModel::SquareHit(v) => SquareHit::round_trips(v, Seq::empty()),
        PacketModel::Teleport(v) => Teleport::round_trips(v, Seq::empty()),
        PacketModel::UpdateAck(v) => UpdateAck::round_trips(v, Seq::empty()),
        PacketModel::UseItem(v) => UseItem::round_trips(v, Seq::empty()),
        PacketModel::UsePortal(v) => UsePortal::round_trips(v, Seq::empty()),
        PacketModel::QuestFetchAsk(v) => QuestFetchAsk::round_trips(v, Seq::empty()),
        PacketModel::AcceptArenaDeath(v) => AcceptArenaDeath::round_trips(v, Seq::empty()),
        PacketModel::AccountList(v) => AccountList::round_trips(v, Seq::empty()),
        PacketModel::ActivePetUpdate(v) => ActivePetUpdate::round_trips(v, Seq::empty()),
        PacketModel::AllyShoot(v) => AllyShoot::round_trips(v, Seq::empty()),
        PacketModel::Aoe(v) => Aoe::round_trips(v, Seq::empty()),
        PacketModel::ArenaDeath(v) => ArenaDeath::round_trips(v, Seq::empty()),
        PacketModel::BuyResult(v) => BuyResult::round_trips(v, Seq::empty()),
        PacketModel::ClientStat(v) => ClientStat::round_trips(v, Seq::empty()),
        PacketModel::CreateSuccess(v) => CreateSuccess::round_trips(v, Seq::empty()),
        PacketModel::Damage(v) => Damage::round_trips(v, Seq::empty()),
        PacketModel::Death(v) => Death::round_trips(v, Seq::empty()),
        PacketModel::DeletePet(v) => DeletePet::round_trips(v, Seq::empty()),
        PacketModel::EnemyShoot(v) => EnemyShoot::round_trips(v, Seq::empty()),
        PacketModel::EvolvePet(v) => EvolvePet::round_trips(v, Seq::empty()),
        PacketModel::Failure(v) => Failure::round_trips(v, Seq::empty()),
        PacketModel::File(v) => File::round_trips(v, Seq::empty()),
        PacketModel::GlobalNotification(v) => GlobalNotification::round_trips(v, Seq::empty()),
        PacketModel::Goto(v) => Goto::round_trips(v, Seq::empty()),
        PacketModel::GuildResult(v) => GuildResult::round_trips(v, Seq::empty()),
        PacketModel::HatchPet(v) => HatchPet::round_trips(v, Seq::empty()),
        PacketModel::InvResult(v) => InvResult::round_trips(v, Seq::empty()),
        PacketModel::InvitedToGuild(v) => InvitedToGuild::round_trips(v, Seq::empty()),
        PacketModel::ImminentArenaWave(v) => ImminentArenaWave::round_trips(v, Seq::empty()),
        PacketModel::KeyInfoResponse(v) => KeyInfoResponse::round_trips(v, Seq::empty()),
        PacketModel::LoginRewardMsg(v) => LoginRewardMsg::round_trips(v, Seq::empty()),
        PacketModel::MapInfo(v) => MapInfo::round_trips(v, Seq::empty()),
        PacketModel::NameResult(v) => NameResult::round_trips(v, Seq::empty()),
        PacketModel::NewAbility(v) => NewAbility::round_trips(v, Seq::empty()),
        PacketModel::NewTick(v) => NewTick::round_trips(v, Seq::empty()),
        PacketModel::Notification(v) => Notification::round_trips(v, Seq::empty()),
        PacketModel::PasswordPrompt(v) => PasswordPrompt::round_trips(v, Seq::empty()),
        PacketModel::PetYardUpdate(v) => PetYardUpdate::round_trips(v, Seq::empty()),
        PacketModel::Pic(v) => Pic::round_trips(v, Seq::empty()),
        PacketModel::Ping(v) => Ping::round_trips(v, Seq::empty()),
        PacketModel::PlaySound(v) => PlaySound::round_trips(v, Seq::empty()),
        PacketModel::QuestObjId(v) => QuestObjId::round_trips(v, Seq::empty()),
        PacketModel::QuestFetchResponse(v) => QuestFetchResponse::round_trips(v, Seq::empty()),
        PacketModel::QuestRedeemResponse(v) => QuestRedeemResponse::round_trips(v, Seq::empty()),
        PacketModel::RealmHeroLeftMsg(v) => RealmHeroLeftMsg::round_trips(v, Seq::empty()),
        PacketModel::Reconnect(v) => Reconnect::round_trips(v, Seq::empty()),
        PacketModel::ReskinUnlock(v) => ReskinUnlock::round_trips(v, Seq::empty()),
        PacketModel::ServerPlayerShoot(v) => ServerPlayerShoot::round_trips(v, Seq::empty()),
        PacketModel::ShowEffect(v) => ShowEffect::round_trips(v, Seq::empty()),
        PacketModel::Text(v) => Text::round_trips(v, Seq::empty()),
        PacketModel::TradeAccepted(v) => TradeAccepted::round_trips(v, Seq::empty()),
        PacketModel::TradeChanged(v) => TradeChanged::round_trips(v, Seq::empty()),
        PacketModel::TradeDone(v) => TradeDone::round_trips(v, Seq::empty()),
        PacketModel::TradeRequested(v) => TradeRequested::round_trips(v, Seq::empty()),
        PacketModel::TradeStart(v) => TradeStart::round_trips(v, Seq::empty()),
        PacketModel::Update(v) => Update::round_trips(v, Seq::empty()),
        PacketModel::VerifyEmail(v) => VerifyEmail::round_trips(v, Seq::empty()),
    }
}

impl Packet {
    /// The kind of the packet.
    pub fn get_type(&self) -> (kind: PacketType)
        ensures
            kind == self.deep_view().kind(),
    {
        match self {
            Packet::AcceptTrade(_) => PacketType::AcceptTrade,
            Packet::ActivePetUpdateRequest(_) => PacketType::ActivePetUpdateRequest,
            Packet::AoeAck(_) => PacketType::AoeAck,
            Packet::Buy(_) => PacketType::Buy,
            Packet::CancelTrade(_) => PacketType::CancelTrade,
            Packet::ChangeGuildRank(_) => PacketType::ChangeGuildRank,
            Packet::ChangeTrade(_) => PacketType::ChangeTrade,
            Packet::CheckCredits(_) => PacketType::CheckCredits,
            Packet::ChooseName(_) => PacketType::ChooseName,
            Packet::ClaimLoginRewardMsg(_) => PacketType::ClaimLoginRewardMsg,
            Packet::Create(_) => PacketType::Create,
            Packet::CreateGuild(_) => PacketType::CreateGuild,
            Packet::EditAccountList(_) => PacketType::EditAccountList,
            Packet::EnemyHit(_) => PacketType::EnemyHit,
            Packet::EnterArena(_) => PacketType::EnterArena,
            Packet::Escape(_) => PacketType::Escape,
            Packet::GotoAck(_) => PacketType::GotoAck,
            Packet::GroundDamage(_) => PacketType::GroundDamage,
            Packet::GuildInvite(_) => PacketType::GuildInvite,
            Packet::GuildRemove(_) => PacketType::GuildRemove,
            Packet::Hello(_) => PacketType::Hello,
            Packet::InvDrop(_) => PacketType::InvDrop,
            Packet::InvSwap(_) => PacketType::InvSwap,
            Packet::JoinGuild(_) => PacketType::JoinGuild,
            Packet::KeyInfoRequest(_) => PacketType::KeyInfoRequest,
            Packet::Load(_) => PacketType::Load,
            Packet::Move(_) => PacketType::Move,
            Packet::OtherHit(_) => PacketType::OtherHit,
            Packet::PetChangeFormMsg(_) => PacketType::PetChangeFormMsg,
            Packet::PetChangeSkinMsg(_) => PacketType::PetChangeSkinMsg,
            Packet::PetUpgradeRequest(_) => PacketType::PetUpgradeRequest,
            Packet::PlayerHit(_) => PacketType::PlayerHit,
            Packet::PlayerShoot(_) => PacketType::PlayerShoot,
            Packet::PlayerText(_) => PacketType::PlayerText,
            Packet::QuestRedeem(_) => PacketType::QuestRedeem,
            Packet::QuestRoomMsg(_) => PacketType::QuestRoomMsg,
            Packet::Pong(_) => PacketType::Pong,
            Packet::RequestTrade(_) => PacketType::RequestTrade,
            Packet::ResetDailyQuests(_) => PacketType::ResetDailyQuests,
            Packet::Reskin(_) => PacketType::Reskin,
            Packet::SetCondition(_) => PacketType::SetCondition,
            Packet::ShootAck(_) => PacketType::ShootAck,
            Packet::SquareHit(_) => PacketType::SquareHit,
            Packet::Teleport(_) => PacketType::Teleport,
            Packet::UpdateAck(_) => PacketType::UpdateAck,
            Packet::UseItem(_) => PacketType::UseItem,
            Packet::UsePortal(_) => PacketType::UsePortal,
            Packet::QuestFetchAsk(_) => PacketType::QuestFetchAsk,
            Packet::AcceptArenaDeath(_) => PacketType::AcceptArenaDeath,
            Packet::AccountList(_) => PacketType::AccountList,
            Packet::ActivePetUpdate(_) => PacketType::ActivePetUpdate,
            Packet::AllyShoot(_) => PacketType::AllyShoot,
            Packet::Aoe(_) => PacketType::Aoe,
            Packet::ArenaDeath(_) => PacketType::ArenaDeath,
            Packet::BuyResult(_) => PacketType::BuyResult,
            Packet::ClientStat(_) => PacketType::ClientStat,
            Packet::CreateSuccess(_) => PacketType::CreateSuccess,
            Packet::Damage(_) => PacketType::Damage,
            Packet::Death(_) => PacketType::Death,
            Packet::DeletePet(_) => PacketType::DeletePet,
            Packet::EnemyShoot(_) => PacketType::EnemyShoot,
            Packet::EvolvePet(_) => PacketType::EvolvePet,
            Packet::Failure(_) => PacketType::Failure,
            Packet::File(_) => PacketType::File,
            Packet::GlobalNotification(_) => PacketType::GlobalNotification,
            Packet::Goto(_) => PacketType::Goto,
            Packet::GuildResult(_) => PacketType::GuildResult,
            Packet::HatchPet(_) => PacketType::HatchPet,
            Packet::InvResult(_) => PacketType::InvResult,
            Packet::InvitedToGuild(_) => PacketType::InvitedToGuild,
            Packet::ImminentArenaWave(_) => PacketType::ImminentArenaWave,
            Packet::KeyInfoResponse(_) => PacketType::KeyInfoResponse,
            Packet::LoginRewardMsg(_) => PacketType::LoginRewardMsg,
            Packet::MapInfo(_) => PacketType::MapInfo,
            Packet::NameResult(_) => PacketType::NameResult,
            Packet::NewAbility(_) => PacketType::NewAbility,
            Packet::NewTick(_) => PacketType::NewTick,
            Packet::Notification(_) => PacketType::Notification,
            Packet::PasswordPrompt(_) => PacketType::PasswordPrompt,
            Packet::PetYardUpdate(_) => PacketType::PetYardUpdate,
            Packet::Pic(_) => PacketType::Pic,
            Packet::Ping(_) => PacketType::Ping,
            Packet::PlaySound(_) => PacketType::PlaySound,
            Packet::QuestObjId(_) => PacketType::QuestObjId,
            Packet::QuestFetchResponse(_) => PacketType::QuestFetchResponse,
            Packet::QuestRedeemResponse(_) => PacketType::QuestRedeemResponse,
            Packet::RealmHeroLeftMsg(_) => PacketType::RealmHeroLeftMsg,
            Packet::Reconnect(_) => PacketType::Reconnect,
            Packet::ReskinUnlock(_) => PacketType::ReskinUnlock,
            Packet::ServerPlayerShoot(_) => PacketType::ServerPlayerShoot,
            Packet::ShowEffect(_) => PacketType::ShowEffect,
            Packet::Text(_) => PacketType::Text,
            Packet::TradeAccepted(_) => PacketType::TradeAccepted,
            Packet::TradeChanged(_) => PacketType::TradeChanged,
            Packet::TradeDone(_) => PacketType::TradeDone,
            Packet::TradeRequested(_) => PacketType::TradeRequested,
            Packet::TradeStart(_) => PacketType::TradeStart,
            Packet::Update(_) => PacketType::Update,
            Packet::VerifyEmail(_) => PacketType::VerifyEmail,
        }
    }

    /// The contents of the packet, if it is of the kind asked for; the packet
    /// itself if it is not.
    pub fn downcast<T: PacketData>(self) -> (r: Result<T, Packet>)
        ensures
            match r {
                Ok(contents) => self.deep_view() == T::spec_wrap(contents.deep_view()),
                Err(other) => other == self && self.deep_view().kind() != T::spec_packet_type(),
            },
    {
        T::from_packet(self)
    }

    /// The contents of the packet, if it is of the kind asked for; the packet
    /// itself if it is not.
    pub fn downcast_ref<T: PacketData>(&self) -> (r: Result<&T, &Packet>)
        ensures
            match r {
                Ok(contents) => self.deep_view() == T::spec_wrap(contents.deep_view()),
                Err(other) => other == self && self.deep_view().kind() != T::spec_packet_type(),
            },
    {
        T::from_packet_ref(self)
    }

    /// Decodes the contents of a packet of kind `typ`.
    pub fn from_bytes(typ: PacketType, contents: &mut Cursor) -> (r: Result<Packet, Error>)
        ensures
            agrees(r, final(contents)@, spec_packet_get(typ, old(contents)@)),
    {
        reveal(spec_packet_get);
        match typ {
            PacketType::AcceptTrade => get_as::<AcceptTrade>(contents),
            PacketType::ActivePetUpdateRequest => get_as::<ActivePetUpdateRequest>(contents),
            PacketType::AoeAck => get_as::<AoeAck>(contents),
            PacketType::Buy => get_as::<Buy>(contents),
            PacketType::CancelTrade => get_as::<CancelTrade>(contents),
            PacketType::ChangeGuildRank => get_as::<ChangeGuildRank>(contents),
            PacketType::ChangeTrade => get_as::<ChangeTrade>(contents),
            PacketType::CheckCredits => get_as::<CheckCredits>(contents),
            PacketType::ChooseName => get_as::<ChooseName>(contents),
            PacketType::ClaimLoginRewardMsg => get_as::<ClaimLoginRewardMsg>(contents),
            PacketType::Create => get_as::<Create>(contents),
            PacketType::CreateGuild => get_as::<CreateGuild>(contents),
            PacketType::EditAccountList => get_as::<EditAccountList>(contents),
            PacketType::EnemyHit => get_as::<EnemyHit>(contents),
            PacketType::EnterArena => get_as::<EnterArena>(contents),
            PacketType::Escape => get_as::<Escape>(contents),
            PacketType::GotoAck => get_as::<GotoAck>(contents),
            PacketType::GroundDamage => get_as::<GroundDamage>(contents),
            PacketType::GuildInvite => get_as::<GuildInvite>(contents),
            PacketType::GuildRemove => get_as::<GuildRemove>(contents),
            PacketType::Hello => get_as::<Hello>(contents),
            PacketType::InvDrop => get_as::<InvDrop>(contents),
            PacketType::InvSwap => get_as::<InvSwap>(contents),
            PacketType::JoinGuild => get_as::<JoinGuild>(contents),
            PacketType::KeyInfoRequest => get_as::<KeyInfoRequest>(contents),
            PacketType::Load => get_as::<Load>(contents),
            PacketType::Move => get_as::<Move>(contents),
            PacketType::OtherHit => get_as::<OtherHit>(contents),
            PacketType::PetChangeFormMsg => get_as::<PetChangeFormMsg>(contents),
            PacketType::PetChangeSkinMsg => get_as::<PetChangeSkinMsg>(contents),
            PacketType::PetUpgradeRequest => get_as::<PetUpgradeRequest>(contents),
            PacketType::PlayerHit => get_as::<PlayerHit>(contents),
            PacketType::PlayerShoot => get_as::<PlayerShoot>(contents),
            PacketType::PlayerText => get_as::<PlayerText>(contents),
            PacketType::QuestRedeem => get_as::<QuestRedeem>(contents),
            PacketType::QuestRoomMsg => get_as::<QuestRoomMsg>(contents),
            PacketType::Pong => get_as::<Pong>(contents),
            PacketType::RequestTrade => get_as::<RequestTrade>(contents),
            PacketType::ResetDailyQuests => get_as::<ResetDailyQuests>(contents),
            PacketType::Reskin => get_as::<Reskin>(contents),
            PacketType::SetCondition => get_as::<SetCondition>(contents),
            PacketType::ShootAck => get_as::<ShootAck>(contents),
            PacketType::SquareHit => get_as::<SquareHit>(contents),
            PacketType::Teleport => get_as::<Teleport>(contents),
            PacketType::UpdateAck => get_as::<UpdateAck>(contents),
            PacketType::UseItem => get_as::<UseItem>(contents),
            PacketType::UsePortal => get_as::<UsePortal>(contents),
            PacketType::QuestFetchAsk => get_as::<QuestFetchAsk>(contents),
            PacketType::AcceptArenaDeath => get_as::<AcceptArenaDeath>(contents),
            PacketType::AccountList => get_as::<AccountList>(contents),
            PacketType::ActivePetUpdate => get_as::<ActivePetUpdate>(contents),
            PacketType::AllyShoot => get_as::<AllyShoot>(contents),
            PacketType::Aoe => get_as::<Aoe>(contents),
            PacketType::ArenaDeath => get_as::<ArenaDeath>(contents),
            PacketType::BuyResult => get_as::<BuyResult>(contents),
            PacketType::ClientStat => get_as::<ClientStat>(contents),
            PacketType::CreateSuccess => get_as::<CreateSuccess>(contents),
            PacketType::Damage => get_as::<Damage>(contents),
            PacketType::Death => get_as::<Death>(contents),
            PacketType::DeletePet => get_as::<DeletePet>(contents),
            PacketType::EnemyShoot => get_as::<EnemyShoot>(contents),
            PacketType::EvolvePet => get_as::<EvolvePet>(contents),
            PacketType::Failure => get_as::<Failure>(contents),
            PacketType::File => get_as::<File>(contents),
            PacketType::GlobalNotification => get_as::<GlobalNotification>(contents),
            PacketType::Goto => get_as::<Goto>(contents),
            PacketType::GuildResult => get_as::<GuildResult>(contents),
            PacketType::HatchPet => get_as::<HatchPet>(contents),
            PacketType::InvResult => get_as::<InvResult>(contents),
            PacketType::InvitedToGuild => get_as::<InvitedToGuild>(contents),
            PacketType::ImminentArenaWave => get_as::<ImminentArenaWave>(contents),
            PacketType::KeyInfoResponse => get_as::<KeyInfoResponse>(contents),
            PacketType::LoginRewardMsg => get_as::<LoginRewardMsg>(contents),
            PacketType::MapInfo => get_as::<MapInfo>(contents),
            PacketType::NameResult => get_as::<NameResult>(contents),
            PacketType::NewAbility => get_as::<NewAbility>(contents),
            PacketType::NewTick => get_as::<NewTick>(contents),
            PacketType::Notification => get_as::<Notification>(contents),
            PacketType::PasswordPrompt => get_as::<PasswordPrompt>(contents),
            PacketType::PetYardUpdate => get_as::<PetYardUpdate>(contents),
            PacketType::Pic => get_as::<Pic>(contents),
            PacketType::Ping => get_as::<Ping>(contents),
            PacketType::PlaySound => get_as::<PlaySound>(contents),
            PacketType::QuestObjId => get_as::<QuestObjId>(contents),
            PacketType::QuestFetchResponse => get_as::<QuestFetchResponse>(contents),
            PacketType::QuestRedeemResponse => get_as::<QuestRedeemResponse>(contents),
            PacketType::RealmHeroLeftMsg => get_as::<RealmHeroLeftMsg>(contents),
            PacketType::Reconnect => get_as::<Reconnect>(contents),
            PacketType::ReskinUnlock => get_as::<ReskinUnlock>(contents),
            PacketType::ServerPlayerShoot => get_as::<ServerPlayerShoot>(contents),
            PacketType::ShowEffect => get_as::<ShowEffect>(contents),
            PacketType::Text => get_as::<Text>(contents),
            PacketType::TradeAccepted => get_as::<TradeAccepted>(contents),
            PacketType::TradeChanged => get_as::<TradeChanged>(contents),
            PacketType::TradeDone => get_as::<TradeDone>(contents),
            PacketType::TradeRequested => get_as::<TradeRequested>(contents),
            PacketType::TradeStart => get_as::<TradeStart>(contents),
            PacketType::Update => get_as::<Update>(contents),
            PacketType::VerifyEmail => get_as::<VerifyEmail>(contents),
        }
    }

    /// Encodes the contents of the packet at the end of `buf`.
    pub fn to_bytes(&self, buf: &mut Vec<u8>) -> (r: Result<(), Error>)
        ensures
            appended(r, old(buf)@, final(buf)@, spec_packet_put(self.deep_view())),
    {
        reveal(spec_packet_put);
        match self {
            Packet::AcceptTrade(v) => v.put_be(buf),
            Packet::ActivePetUpdateRequest(v) => v.put_be(buf),
            Packet::AoeAck(v) => v.put_be(buf),
            Packet::Buy(v) => v.put_be(buf),
            Packet::CancelTrade(v) => v.put_be(buf),
            Packet::ChangeGuildRank(v) => v.put_be(buf),
            Packet::ChangeTrade(v) => v.put_be(buf),
            Packet::CheckCredits(v) => v.put_be(buf),
            Packet::ChooseName(v) => v.put_be(buf),
            Packet::ClaimLoginRewardMsg(v) => v.put_be(buf),
            Packet::Create(v) => v.put_be(buf),
            Packet::CreateGuild(v) => v.put_be(buf),
            Packet::EditAccountList(v) => v.put_be(buf),
            Packet::EnemyHit(v) => v.put_be(buf),
            Packet::EnterArena(v) => v.put_be(buf),
            Packet::Escape(v) => v.put_be(buf),
            Packet::GotoAck(v) => v.put_be(buf),
            Packet::GroundDamage(v) => v.put_be(buf),
            Packet::GuildInvite(v) => v.put_be(buf),
            Packet::GuildRemove(v) => v.put_be(buf),
            Packet::Hello(v) => v.put_be(buf),
            Packet::InvDrop(v) => v.put_be(buf),
            Packet::InvSwap(v) => v.put_be(buf),
            Packet::JoinGuild(v) => v.put_be(buf),
            Packet::KeyInfoRequest(v) => v.put_be(buf),
            Packet::Load(v) => v.put_be(buf),
            Packet::Move(v) => v.put_be(buf),
            Packet::OtherHit(v) => v.put_be(buf),
            Packet::PetChangeFormMsg(v) => v.put_be(buf),
            Packet::PetChangeSkinMsg(v) => v.put_be(buf),
            Packet::PetUpgradeRequest(v) => v.put_be(buf),
            Packet::PlayerHit(v) => v.put_be(buf),
            Packet::PlayerShoot(v) => v.put_be(buf),
            Packet::PlayerText(v) => v.put_be(buf),
            Packet::QuestRedeem(v) => v.put_be(buf),
            Packet::QuestRoomMsg(v) => v.put_be(buf),
            Packet::Pong(v) => v.put_be(buf),
            Packet::RequestTrade(v) => v.put_be(buf),
            Packet::ResetDailyQuests(v) => v.put_be(buf),
            Packet::Reskin(v) => v.put_be(buf),
            Packet::SetCondition(v) => v.put_be(buf),
            Packet::ShootAck(v) => v.put_be(buf),
            Packet::SquareHit(v) => v.put_be(buf),
            Packet::Teleport(v) => v.put_be(buf),
            Packet::UpdateAck(v) => v.put_be(buf),
            Packet::UseItem(v) => v.put_be(buf),
            Packet::UsePortal(v) => v.put_be(buf),
            Packet::QuestFetchAsk(v) => v.put_be(buf),
            Packet::AcceptArenaDeath(v) => v.put_be(buf),
            Packet::AccountList(v) => v.put_be(buf),
            Packet::ActivePetUpdate(v) => v.put_be(buf),
            Packet::AllyShoot(v) => v.put_be(buf),
            Packet::Aoe(v) => v.put_be(buf),
            Packet::ArenaDeath(v) => v.put_be(buf),
            Packet::BuyResult(v) => v.put_be(buf),
            Packet::ClientStat(v) => v.put_be(buf),
            Packet::CreateSuccess(v) => v.put_be(buf),
            Packet::Damage(v) => v.put_be(buf),
            Packet::Death(v) => v.put_be(buf),
            Packet::DeletePet(v) => v.put_be(buf),
            Packet::EnemyShoot(v) => v.put_be(buf),
            Packet::EvolvePet(v) => v.put_be(buf),
            Packet::Failure(v) => v.put_be(buf),
            Packet::File(v) => v.put_be(buf),
            Packet::GlobalNotification(v) => v.put_be(buf),
            Packet::Goto(v) => v.put_be(buf),
            Packet::GuildResult(v) => v.put_be(buf),
            Packet::HatchPet(v) => v.put_be(buf),
            Packet::InvResult(v) => v.put_be(buf),
            Packet::InvitedToGuild(v) => v.put_be(buf),
            Packet::ImminentArenaWave(v) => v.put_be(buf),
            Packet::KeyInfoResponse(v) => v.put_be(buf),
            Packet::LoginRewardMsg(v) => v.put_be(buf),
            Packet::MapInfo(v) => v.put_be(buf),
            Packet::NameResult(v) => v.put_be(buf),
            Packet::NewAbility(v) => v.put_be(buf),
            Packet::NewTick(v) => v.put_be(buf),
            Packet::Notification(v) => v.put_be(buf),
            Packet::PasswordPrompt(v) => v.put_be(buf),
            Packet::PetYardUpdate(v) => v.put_be(buf),
            Packet::Pic(v) => v.put_be(buf),
            Packet::Ping(v) => v.put_be(buf),
            Packet::PlaySound(v) => v.put_be(buf),
            Packet::QuestObjId(v) => v.put_be(buf),
            Packet::QuestFetchResponse(v) => v.put_be(buf),
            Packet::QuestRedeemResponse(v) => v.put_be(buf),
            Packet::RealmHeroLeftMsg(v) => v.put_be(buf),
            Packet::Reconnect(v) => v.put_be(buf),
            Packet::ReskinUnlock(v) => v.put_be(buf),
            Packet::ServerPlayerShoot(v) => v.put_be(buf),
            Packet::ShowEffect(v) => v.put_be(buf),
            Packet::Text(v) => v.put_be(buf),
            Packet::TradeAccepted(v) => v.put_be(buf),
            Packet::TradeChanged(v) => v.put_be(buf),
            Packet::TradeDone(v) => v.put_be(buf),
            Packet::TradeRequested(v) => v.put_be(buf),
            Packet::TradeStart(v) => v.put_be(buf),
            Packet::Update(v) => v.put_be(buf),
            Packet::VerifyEmail(v) => v.put_be(buf),
        }
    }
}

/// The law of [`lemma_packet_round_trip`] for the packets of the client.
proof fn lemma_round_trip_client(packet: PacketModel)
    requires
        spec_packet_put(packet).result is Ok,
        packet_round_trips(packet),
        !packet.kind().spec_is_server(),
    ensures
        spec_packet_get(packet.kind(), spec_packet_put(packet).bytes) == (Read::<
            PacketModel,
            Error,
        > { rest: Seq::empty(), result: Ok(packet) }),
{
    reveal(spec_packet_get);
    reveal(spec_packet_put);
    reveal(PacketType::spec_to_byte);
    match packet {
        PacketModel::AcceptTrade(v) => lemma_get_as_round_trip::<AcceptTrade>(v),
        PacketModel::ActivePetUpdateRequest(v) => lemma_get_as_round_trip::<ActivePetUpdateRequest>(v),
        PacketModel::AoeAck(v) => lemma_get_as_round_trip::<AoeAck>(v),
        PacketModel::Buy(v) => lemma_get_as_round_trip::<Buy>(v),
        PacketModel::CancelTrade(v) => lemma_get_as_round_trip::<CancelTrade>(v),
        PacketModel::ChangeGuildRank(v) => lemma_get_as_round_trip::<ChangeGuildRank>(v),
        PacketModel::ChangeTrade(v) => lemma_get_as_round_trip::<ChangeTrade>(v),
        PacketModel::CheckCredits(v) => lemma_get_as_round_trip::<CheckCredits>(v),
        PacketModel::ChooseName(v) => lemma_get_as_round_trip::<ChooseName>(v),
        PacketModel::ClaimLoginRewardMsg(v) => lemma_get_as_round_trip::<ClaimLoginRewardMsg>(v),
        PacketModel::Create(v) => lemma_get_as_round_trip::<Create>(v),
        PacketModel::CreateGuild(v) => lemma_get_as_round_trip::<CreateGuild>(v),
        PacketModel::EditAccountList(v) => lemma_get_as_round_trip::<EditAccountList>(v),
        PacketModel::EnemyHit(v) => lemma_get_as_round_trip::<EnemyHit>(v),
        PacketModel::EnterArena(v) => lemma_get_as_round_trip::<EnterArena>(v),
        PacketModel::Escape(v) => lemma_get_as_round_trip::<Escape>(v),
        PacketModel::GotoAck(v) => lemma_get_as_round_trip::<GotoAck>(v),
        PacketModel::GroundDamage(v) => lemma_get_as_round_trip::<GroundDamage>(v),
        PacketModel::GuildInvite(v) => lemma_get_as_round_trip::<GuildInvite>(v),
        PacketModel::GuildRemove(v) => lemma_get_as_round_trip::<GuildRemove>(v),
        PacketModel::Hello(v) => lemma_get_as_round_trip::<Hello>(v),
        PacketModel::InvDrop(v) => lemma_get_as_round_trip::<InvDrop>(v),
        PacketModel::InvSwap(v) => lemma_get_as_round_trip::<InvSwap>(v),
        PacketModel::JoinGuild(v) => lemma_get_as_round_trip::<JoinGuild>(v),
        PacketModel::KeyInfoRequest(v) => lemma_get_as_round_trip::<KeyInfoRequest>(v),
        PacketModel::Load(v) => lemma_get_as_round_trip::<Load>(v),
        PacketModel::Move(v) => lemma_get_as_round_trip::<Move>(v),
        PacketModel::OtherHit(v) => lemma_get_as_round_trip::<OtherHit>(v),
        PacketModel::PetChangeFormMsg(v) => lemma_get_as_round_trip::<PetChangeFormMsg>(v),
        PacketModel::PetChangeSkinMsg(v) => lemma_get_as_round_trip::<PetChangeSkinMsg>(v),
        PacketModel::PetUpgradeRequest(v) => lemma_get_as_round_trip::<PetUpgradeRequest>(v),
        PacketModel::PlayerHit(v) => lemma_get_as_round_trip::<PlayerHit>(v),
        PacketModel::PlayerShoot(v) => lemma_get_as_round_trip::<PlayerShoot>(v),
        PacketModel::PlayerText(v) => lemma_get_as_round_trip::<PlayerText>(v),
        PacketModel::QuestRedeem(v) => lemma_get_as_round_trip::<QuestRedeem>(v),
        PacketModel::QuestRoomMsg(v) => lemma_get_as_round_trip::<QuestRoomMsg>(v),
        PacketModel::Pong(v) => lemma_get_as_round_trip::<Pong>(v),
        PacketModel::RequestTrade(v) => lemma_get_as_round_trip::<RequestTrade>(v),
        PacketModel::ResetDailyQuests(v) => lemma_get_as_round_trip::<ResetDailyQuests>(v),
        PacketModel::Reskin(v) => lemma_get_as_round_trip::<Reskin>(v),
        PacketModel::SetCondition(v) => lemma_get_as_round_trip::<SetCondition>(v),
        PacketModel::ShootAck(v) => lemma_get_as_round_trip::<ShootAck>(v),
        PacketModel::SquareHit(v) => lemma_get_as_round_trip::<SquareHit>(v),
        PacketModel::Teleport(v) => lemma_get_as_round_trip::<Teleport>(v),
        PacketModel::UpdateAck(v) => lemma_get_as_round_trip::<UpdateAck>(v),
        PacketModel::UseItem(v) => lemma_get_as_round_trip::<UseItem>(v),
        PacketModel::UsePortal(v) => lemma_get_as_round_trip::<UsePortal>(v),
        PacketModel::QuestFetchAsk(v) => lemma_get_as_round_trip::<QuestFetchAsk>(v),
        PacketModel::AcceptArenaDeath(v) => lemma_get_as_round_trip::<AcceptArenaDeath>(v),
        _ => {},
    }
}

/// The law of [`lemma_packet_round_trip`] for the packets of the server.
proof fn lemma_round_trip_server(packet: PacketModel)
    requires
        spec_packet_put(packet).result is Ok,
        packet_round_trips(packet),
        packet.kind().spec_is_server(),
    ensures
        spec_packet_get(packet.kind(), spec_packet_put(packet).bytes) == (Read::<
            PacketModel,
            Error,
        > { rest: Seq::empty(), result: Ok(packet) }),
{
    reveal(spec_packet_get);
    reveal(spec_packet_put);
    reveal(PacketType::spec_to_byte);
    match packet {
        PacketModel::AccountList(v) => lemma_get_as_round_trip::<AccountList>(v),
        PacketModel::ActivePetUpdate(v) => lemma_get_as_round_trip::<ActivePetUpdate>(v),
        PacketModel::AllyShoot(v) => lemma_get_as_round_trip::<AllyShoot>(v),
        PacketModel::Aoe(v) => lemma_get_as_round_trip::<Aoe>(v),
        PacketModel::ArenaDeath(v) => lemma_get_as_round_trip::<ArenaDeath>(v),
        PacketModel::BuyResult(v) => lemma_get_as_round_trip::<BuyResult>(v),
        PacketModel::ClientStat(v) => lemma_get_as_round_trip::<ClientStat>(v),
        PacketModel::CreateSuccess(v) => lemma_get_as_round_trip::<CreateSuccess>(v),
        PacketModel::Damage(v) => lemma_get_as_round_trip::<Damage>(v),
        PacketModel::Death(v) => lemma_get_as_round_trip::<Death>(v),
        PacketModel::DeletePet(v) => lemma_get_as_round_trip::<DeletePet>(v),
        PacketModel::EnemyShoot(v) => lemma_get_as_round_trip::<EnemyShoot>(v),
        PacketModel::EvolvePet(v) => lemma_get_as_round_trip::<EvolvePet>(v),
        PacketModel::Failure(v) => lemma_get_as_round_trip::<Failure>(v),
        PacketModel::File(v) => lemma_get_as_round_trip::<File>(v),
        PacketModel::GlobalNotification(v) => lemma_get_as_round_trip::<GlobalNotification>(v),
        PacketModel::Goto(v) => lemma_get_as_round_trip::<Goto>(v),
        PacketModel::GuildResult(v) => lemma_get_as_round_trip::<GuildResult>(v),
        PacketModel::HatchPet(v) => lemma_get_as_round_trip::<HatchPet>(v),
        PacketModel::InvResult(v) => lemma_get_as_round_trip::<InvResult>(v),
        PacketModel::InvitedToGuild(v) => lemma_get_as_round_trip::<InvitedToGuild>(v),
        PacketModel::ImminentArenaWave(v) => lemma_get_as_round_trip::<ImminentArenaWave>(v),
        PacketModel::KeyInfoResponse(v) => lemma_get_as_round_trip::<KeyInfoResponse>(v),
        PacketModel::LoginRewardMsg(v) => lemma_get_as_round_trip::<LoginRewardMsg>(v),
        PacketModel::MapInfo(v) => lemma_get_as_round_trip::<MapInfo>(v),
        PacketModel::NameResult(v) => lemma_get_as_round_trip::<NameResult>(v),
        PacketModel::NewAbility(v) => lemma_get_as_round_trip::<NewAbility>(v),
        PacketModel::NewTick(v) => lemma_get_as_round_trip::<NewTick>(v),
        PacketModel::Notification(v) => lemma_get_as_round_trip::<Notification>(v),
        PacketModel::PasswordPrompt(v) => lemma_get_as_round_trip::<PasswordPrompt>(v),
        PacketModel::PetYardUpdate(v) => lemma_get_as_round_trip::<PetYardUpdate>(v),
        PacketModel::Pic(v) => lemma_get_as_round_trip::<Pic>(v),
        PacketModel::Ping(v) => lemma_get_as_round_trip::<Ping>(v),
        PacketModel::PlaySound(v) => lemma_get_as_round_trip::<PlaySound>(v),
        PacketModel::QuestObjId(v) => lemma_get_as_round_trip::<QuestObjId>(v),
        PacketModel::QuestFetchResponse(v) => lemma_get_as_round_trip::<QuestFetchResponse>(v),
        PacketModel::QuestRedeemResponse(v) => lemma_get_as_round_trip::<QuestRedeemResponse>(v),
        PacketModel::RealmHeroLeftMsg(v) => lemma_get_as_round_trip::<RealmHeroLeftMsg>(v),
        PacketModel::Reconnect(v) => lemma_get_as_round_trip::<Reconnect>(v),
        PacketModel::ReskinUnlock(v) => lemma_get_as_round_trip::<ReskinUnlock>(v),
        PacketModel::ServerPlayerShoot(v) => lemma_get_as_round_trip::<ServerPlayerShoot>(v),
        PacketModel::ShowEffect(v) => lemma_get_as_round_trip::<ShowEffect>(v),
        PacketModel::Text(v) => lemma_get_as_round_trip::<Text>(v),
        PacketModel::TradeAccepted(v) => lemma_get_as_round_trip::<TradeAccepted>(v),
        PacketModel::TradeChanged(v) => lemma_get_as_round_trip::<TradeChanged>(v),
        PacketModel::TradeDone(v) => lemma_get_as_round_trip::<TradeDone>(v),
        PacketModel::TradeRequested(v) => lemma_get_as_round_trip::<TradeRequested>(v),
        PacketModel::TradeStart(v) => lemma_get_as_round_trip::<TradeStart>(v),
        PacketModel::Update(v) => lemma_get_as_round_trip::<Update>(v),
        PacketModel::VerifyEmail(v) => lemma_get_as_round_trip::<VerifyEmail>(v),
        _ => {},
    }
}

/// The contents of a packet that were encoded without failure decode, under
/// the kind of the packet, to the same contents, and no byte is left over.
pub proof fn lemma_packet_round_trip(packet: PacketModel)
    requires
        spec_packet_put(packet).result is Ok,
        packet_round_trips(packet),
    ensures
        spec_packet_get(packet.kind(), spec_packet_put(packet).bytes) == (Read::<
            PacketModel,
            Error,
        > { rest: Seq::empty(), result: Ok(packet) }),
{
    if packet.kind().spec_is_server() {
        lemma_round_trip_server(packet);
    } else {
        lemma_round_trip_client(packet);
    }
}

} // verus!
