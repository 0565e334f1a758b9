//! The records that the squad and chat extension passes, as the host lays
//! them out and as a plugin reads them.
//!
//! A raw record keeps the shape of the host's: a nullable C string is an
//! optional span of bytes (the bytes before the terminator), a pointer with
//! an explicit length is a span and a length, a function pointer is an
//! address. The numbers the host uses for an enumeration are given by the
//! `to_raw` and `from_raw` of each.

use crate::raw_structs::Callback;
use crate::timestamp::Timestamp;
use vstd::prelude::*;

verus! {

/// The role of a user in a squad.
#[derive(Copy, Clone, Debug, PartialEq, Eq, Structural)]
pub enum UserRole {
    SquadLeader,
    Lieutenant,
    Member,
    Invited,
    Applied,
    /// No role: the user has left the squad.
    NoRole,
    /// Internal only: the host never sends it.
    Invalid,
}

impl UserRole {
    /// The number that stands for the role in a raw record.
    pub open spec fn raw_value(self) -> u8 {
        match self {
            UserRole::SquadLeader => 0,
            UserRole::Lieutenant => 1,
            UserRole::Member => 2,
            UserRole::Invited => 3,
            UserRole::Applied => 4,
            UserRole::NoRole => 5,
            UserRole::Invalid => 6,
        }
    }

    /// Whether the host may send the role: every role but `Invalid`.
    pub open spec fn is_incoming(self) -> bool {
        self != UserRole::Invalid
    }

    /// The number that stands for the role in a raw record.
    pub fn to_raw(self) -> (raw: u8)
        ensures
            raw == self.raw_value(),
    {
        match self {
            UserRole::SquadLeader => 0,
            UserRole::Lieutenant => 1,
            UserRole::Member => 2,
            UserRole::Invited => 3,
            UserRole::Applied => 4,
            UserRole::NoRole => 5,
            UserRole::Invalid => 6,
        }
    }

    /// Reads a role that the host sent. `Invalid` is never read out of host
    /// data: its number is refused like any unknown one.
    pub fn from_raw(raw: u8) -> (role: Option<UserRole>)
        ensures
            role is Some <==> raw <= 5,
            role is Some ==> role->0.raw_value() == raw && role->0.is_incoming(),
    {
        match raw {
            0 => Some(UserRole::SquadLeader),
            1 => Some(UserRole::Lieutenant),
            2 => Some(UserRole::Member),
            3 => Some(UserRole::Invited),
            4 => Some(UserRole::Applied),
            5 => Some(UserRole::NoRole),
            _ => None,
        }
    }

    /// Reads the role of a raw record: the role of that number where the
    /// host has one, and `Invalid` for every other number.
    pub fn from_host(raw: u8) -> (role: UserRole)
        ensures
            raw <= 5 ==> role.raw_value() == raw,
            raw > 5 ==> role == UserRole::Invalid,
            role.is_incoming() <==> raw <= 5,
    {
        match UserRole::from_raw(raw) {
            Some(role) => role,
            None => UserRole::Invalid,
        }
    }
}

/// The language of the game client.
#[derive(Copy, Clone, Debug, PartialEq, Eq, Structural)]
pub enum Language {
    English,
    French,
    German,
    Spanish,
    Chinese,
}

impl Language {
    /// The number that stands for the language in a raw record. There is no
    /// language numbered 1.
    pub open spec fn raw_value(self) -> i32 {
        match self {
            Language::English => 0,
            Language::French => 2,
            Language::German => 3,
            Language::Spanish => 4,
            Language::Chinese => 5,
        }
    }

    /// The number that stands for the language in a raw record.
    pub fn to_raw(self) -> (raw: i32)
        ensures
            raw == self.raw_value(),
    {
        match self {
            Language::English => 0,
            Language::French => 2,
            Language::German => 3,
            Language::Spanish => 4,
            Language::Chinese => 5,
        }
    }

    /// Reads a language that the host sent.
    pub fn from_raw(raw: i32) -> (language: Option<Language>)
        ensures
            language is Some <==> raw == 0 || 2 <= raw <= 5,
            language is Some ==> language->0.raw_value() == raw,
    {
        match raw {
            0 => Some(Language::English),
            2 => Some(Language::French),
            3 => Some(Language::German),
            4 => Some(Language::Spanish),
            5 => Some(Language::Chinese),
            _ => None,
        }
    }
}

/// Whether a message went to a party or to a squad.
#[derive(Copy, Clone, Debug, Eq, Hash, PartialEq, Structural)]
#[non_exhaustive]
pub enum ChannelType {
    Party,
    Squad,
    _Reserved,
    Invalid,
}

impl ChannelType {
    /// The number that stands for the channel type in a raw record.
    pub open spec fn raw_value(self) -> u8 {
        match self {
            ChannelType::Party => 0,
            ChannelType::Squad => 1,
            ChannelType::_Reserved => 2,
            ChannelType::Invalid => 3,
        }
    }

    /// The number that stands for the channel type in a raw record.
    pub fn to_raw(self) -> (raw: u8)
        ensures
            raw == self.raw_value(),
    {
        match self {
            ChannelType::Party => 0,
            ChannelType::Squad => 1,
            ChannelType::_Reserved => 2,
            ChannelType::Invalid => 3,
        }
    }

    /// Reads a channel type that the host sent.
    pub fn from_raw(raw: u8) -> (channel_type: Option<ChannelType>)
        ensures
            channel_type is Some <==> raw <= 3,
            channel_type is Some ==> channel_type->0.raw_value() == raw,
    {
        match raw {
            0 => Some(ChannelType::Party),
            1 => Some(ChannelType::Squad),
            2 => Some(ChannelType::_Reserved),
            3 => Some(ChannelType::Invalid),
            _ => None,
        }
    }

    /// Reads the channel type of a raw record: the channel type of that
    /// number where there is one, and `Invalid` for every other number.
    pub fn from_host(raw: u8) -> (channel_type: ChannelType)
        ensures
            raw <= 3 ==> channel_type.raw_value() == raw,
            raw > 3 ==> channel_type == ChannelType::Invalid,
    {
        match ChannelType::from_raw(raw) {
            Some(channel_type) => channel_type,
            None => ChannelType::Invalid,
        }
    }
}

/// Which arm of a second-generation chat message is filled.
#[derive(Debug, Clone, Copy, PartialEq, Eq, Structural)]
#[non_exhaustive]
pub enum ChatMessageType {
    /// A party or squad message.
    Squad,
    /// A message on the NPC channel.
    NPC,
}

impl ChatMessageType {
    /// The number that stands for the tag in a raw record.
    pub open spec fn raw_value(self) -> i32 {
        match self {
            ChatMessageType::Squad => 0,
            ChatMessageType::NPC => 1,
        }
    }

    /// The number that stands for the tag in a raw record.
    pub fn to_raw(self) -> (raw: i32)
        ensures
            raw == self.raw_value(),
    {
        match self {
            ChatMessageType::Squad => 0,
            ChatMessageType::NPC => 1,
        }
    }

    /// Reads a tag that the host sent.
    pub fn from_raw(raw: i32) -> (tag: Option<ChatMessageType>)
        ensures
            tag is Some <==> 0 <= raw <= 1,
            tag is Some ==> tag->0.raw_value() == raw,
    {
        match raw {
            0 => Some(ChatMessageType::Squad),
            1 => Some(ChatMessageType::NPC),
            _ => None,
        }
    }
}

/// What a `UserInfo` or a `UserInfoOwned` says: its fields, the name as the
/// text it holds.
pub struct UserInfoView {
    pub account_name: Option<Seq<char>>,
    pub join_time: u64,
    pub role: UserRole,
    pub subgroup: u8,
    pub ready_status: bool,
}

/// A user of the squad, with a name that outlives the call it came in.
#[derive(Debug)]
pub struct UserInfoOwned {
    /// Account name, without leading ':'.
    pub account_name: Option<String>,
    /// Unix timestamp when the user joined the squad (or 0 if time could not
    /// be determined).
    pub join_time: u64,
    /// Role in squad, or `UserRole::NoRole` if the user was removed from the
    /// squad.
    pub role: UserRole,
    /// Subgroup the user is in (0 when no subgroup could be found, which is
    /// either the first subgroup or no subgroup).
    pub subgroup: u8,
    /// Whether this player is ready or not (in a squad ready check).
    pub ready_status: bool,
}

impl View for UserInfoOwned {
    type V = UserInfoView;

    open spec fn view(&self) -> UserInfoView {
        UserInfoView {
            account_name: match self.account_name {
                Some(name) => Some(name@),
                None => None,
            },
            join_time: self.join_time,
            role: self.role,
            subgroup: self.subgroup,
            ready_status: self.ready_status,
        }
    }
}

/// A user of the squad, as a plugin reads it. The name is borrowed from the
/// host and lives no longer than the call.
#[derive(Debug)]
pub struct UserInfo<'a> {
    /// Account name, without leading ':'.
    pub account_name: Option<&'a str>,
    /// Unix timestamp when the user joined the squad (or 0 if time could not
    /// be determined).
    pub join_time: u64,
    /// Role in squad, or `UserRole::NoRole` if the user was removed from the
    /// squad.
    pub role: UserRole,
    /// Subgroup the user is in (0 when no subgroup could be found, which is
    /// either the first subgroup or no subgroup).
    pub subgroup: u8,
    /// Whether this player is ready or not (in a squad ready check).
    pub ready_status: bool,
}

impl<'a> View for UserInfo<'a> {
    type V = UserInfoView;

    open spec fn view(&self) -> UserInfoView {
        UserInfoView {
            account_name: match self.account_name {
                Some(name) => Some(name@),
                None => None,
            },
            join_time: self.join_time,
            role: self.role,
            subgroup: self.subgroup,
            ready_status: self.ready_status,
        }
    }
}

impl<'a> UserInfo<'a> {
    /// Copies the name, so that the user can be kept after the call.
    pub fn to_owned(&self) -> (owned: UserInfoOwned)
        ensures
            owned@ == self@,
    {
        UserInfoOwned {
            account_name: match self.account_name {
                Some(name) => Some(name.to_owned()),
                None => None,
            },
            join_time: self.join_time,
            role: self.role,
            subgroup: self.subgroup,
            ready_status: self.ready_status,
        }
    }
}

impl<'a> From<UserInfo<'a>> for UserInfoOwned {
    fn from(user: UserInfo<'a>) -> (owned: UserInfoOwned)
        ensures
            owned@ == user@,
    {
        user.to_owned()
    }
}

/// No spec function builds a `String`, so `from_spec` cannot name the value
/// that `from` returns. What `from` returns is stated on `from` itself.
impl<'a> vstd::std_specs::convert::FromSpecImpl<UserInfo<'a>> for UserInfoOwned {
    open spec fn obeys_from_spec() -> bool {
        false
    }

    open spec fn from_spec(user: UserInfo<'a>) -> UserInfoOwned {
        arbitrary()
    }
}

/// What a `RawUserInfo` holds: its fields, the name as the bytes of the C
/// string.
pub struct RawUserInfoView {
    pub account_name: Option<Seq<u8>>,
    pub join_time: u64,
    pub role: UserRole,
    pub subgroup: u8,
    pub ready_status: bool,
}

/// A user of the squad, as the host passes it.
pub struct RawUserInfo<'a> {
    /// The bytes of the null terminated account name up to the terminator,
    /// including the leading `:`; `None` for a null pointer. Only valid for
    /// the duration of the call.
    pub account_name: Option<&'a [u8]>,
    /// Unix timestamp when the user joined the squad (or 0 if time could not
    /// be determined).
    pub join_time: u64,
    /// Role in squad, or `UserRole::NoRole` if the user was removed from the
    /// squad.
    pub role: UserRole,
    /// Subgroup the user is in (0 when no subgroup could be found, which is
    /// either the first subgroup or no subgroup).
    pub subgroup: u8,
    /// Whether this player is ready or not (in a squad ready check).
    pub ready_status: bool,
}

impl<'a> View for RawUserInfo<'a> {
    type V = RawUserInfoView;

    open spec fn view(&self) -> RawUserInfoView {
        RawUserInfoView {
            account_name: match self.account_name {
                Some(name) => Some(name@),
                None => None,
            },
            join_time: self.join_time,
            role: self.role,
            subgroup: self.subgroup,
            ready_status: self.ready_status,
        }
    }
}

/// What a `SquadMessageInfo` says: its fields, each text as the characters
/// it holds.
pub struct SquadMessageInfoView {
    pub channel_id: u32,
    pub channel_type: ChannelType,
    pub subgroup: u8,
    pub is_broadcast: bool,
    pub timestamp: Timestamp,
    pub account_name: Seq<char>,
    pub character_name: Seq<char>,
    pub text: Seq<char>,
}

/// A party or squad chat message, as a plugin reads it.
#[derive(Debug)]
pub struct SquadMessageInfo<'a> {
    /// A unique identifier for the channel this chat message was sent over.
    pub channel_id: u32,
    /// Whether the message is sent in a party or a squad.
    pub channel_type: ChannelType,
    /// The subgroup the message was sent to, or `u8::MAX` if it was sent to
    /// the entire squad.
    pub subgroup: u8,
    /// Whether this message is a broadcast or not.
    pub is_broadcast: bool,
    /// When the server received this message, with the offset the host
    /// stated it in.
    pub timestamp: Timestamp,
    /// Account name of the player that sent the message, without leading
    /// ':'.
    pub account_name: &'a str,
    /// Character name of the player that sent the message.
    pub character_name: &'a str,
    /// The content of the message.
    pub text: &'a str,
}

impl<'a> View for SquadMessageInfo<'a> {
    type V = SquadMessageInfoView;

    open spec fn view(&self) -> SquadMessageInfoView {
        SquadMessageInfoView {
            channel_id: self.channel_id,
            channel_type: self.channel_type,
            subgroup: self.subgroup,
            is_broadcast: self.is_broadcast,
            timestamp: self.timestamp,
            account_name: self.account_name@,
            character_name: self.character_name@,
            text: self.text@,
        }
    }
}

/// What an `NpcMessageInfo` says.
pub struct NpcMessageInfoView {
    pub character_name: Seq<char>,
    pub message: Seq<char>,
    pub timestamp: Timestamp,
}

/// A message on the NPC channel, as a plugin reads it.
#[derive(Debug)]
pub struct NpcMessageInfo<'a> {
    /// Character name of the NPC or the player character.
    pub character_name: &'a str,
    /// What the NPC or the player character said.
    pub message: &'a str,
    /// When it was said, in UTC.
    pub timestamp: Timestamp,
}

impl<'a> View for NpcMessageInfo<'a> {
    type V = NpcMessageInfoView;

    open spec fn view(&self) -> NpcMessageInfoView {
        NpcMessageInfoView {
            character_name: self.character_name@,
            message: self.message@,
            timestamp: self.timestamp,
        }
    }
}

/// What a `RawSquadMessageInfo` holds: each span as the bytes it reaches.
pub struct RawSquadMessageInfoView {
    pub channel_id: u32,
    pub channel_type: ChannelType,
    pub subgroup: u8,
    pub is_broadcast: u8,
    pub timestamp: Seq<u8>,
    pub timestamp_length: u64,
    pub account_name: Seq<u8>,
    pub account_name_length: u64,
    pub character_name: Seq<u8>,
    pub character_name_length: u64,
    pub text: Seq<u8>,
    pub text_length: u64,
}

impl RawSquadMessageInfoView {
    /// Every stated length lies within the span it belongs to.
    pub open spec fn wf(self) -> bool {
        &&& self.timestamp_length <= self.timestamp.len()
        &&& self.account_name_length <= self.account_name.len()
        &&& self.character_name_length <= self.character_name.len()
        &&& self.text_length <= self.text.len()
    }
}

/// A party or squad chat message, as the host passes it. Each text is a
/// span of bytes with the length that the host states for it; the length
/// does not count a terminator.
pub struct RawSquadMessageInfo<'a> {
    /// A unique identifier for the channel this chat message was sent over.
    pub channel_id: u32,
    /// Whether the message is sent in a party or a squad.
    pub channel_type: ChannelType,
    /// The subgroup the message was sent to, or 0 if it was sent to the
    /// entire squad.
    pub subgroup: u8,
    /// The lowest bit is 1 if the message is a broadcast and 0 if it is
    /// not. The upper bits are reserved and carry no meaning.
    pub is_broadcast: u8,
    /// RFC 3339 date and time at which the server received the message,
    /// e.g. "2022-07-09T11:45:24.888Z".
    pub timestamp: &'a [u8],
    pub timestamp_length: u64,
    /// Account name of the player that sent the message, including leading
    /// ':'.
    pub account_name: &'a [u8],
    pub account_name_length: u64,
    /// Character name of the player that sent the message.
    pub character_name: &'a [u8],
    pub character_name_length: u64,
    /// The content of the message.
    pub text: &'a [u8],
    pub text_length: u64,
}

impl<'a> View for RawSquadMessageInfo<'a> {
    type V = RawSquadMessageInfoView;

    open spec fn view(&self) -> RawSquadMessageInfoView {
        RawSquadMessageInfoView {
            channel_id: self.channel_id,
            channel_type: self.channel_type,
            subgroup: self.subgroup,
            is_broadcast: self.is_broadcast,
            timestamp: self.timestamp@,
            timestamp_length: self.timestamp_length,
            account_name: self.account_name@,
            account_name_length: self.account_name_length,
            character_name: self.character_name@,
            character_name_length: self.character_name_length,
            text: self.text@,
            text_length: self.text_length,
        }
    }
}

/// What a `RawNpcMessageInfo` holds.
pub struct RawNpcMessageInfoView {
    pub character_name: Seq<u8>,
    pub character_name_length: u64,
    pub message: Seq<u8>,
    pub message_length: u64,
    pub timestamp: u64,
}

impl RawNpcMessageInfoView {
    /// Every stated length lies within the span it belongs to.
    pub open spec fn wf(self) -> bool {
        &&& self.character_name_length <= self.character_name.len()
        &&& self.message_length <= self.message.len()
    }
}

/// A message on the NPC channel, as the host passes it.
pub struct RawNpcMessageInfo<'a> {
    /// Character name of the NPC or the player character.
    pub character_name: &'a [u8],
    pub character_name_length: u64,
    /// What the NPC or the player character said.
    pub message: &'a [u8],
    pub message_length: u64,
    /// Time since epoch in nanoseconds.
    pub timestamp: u64,
}

impl<'a> View for RawNpcMessageInfo<'a> {
    type V = RawNpcMessageInfoView;

    open spec fn view(&self) -> RawNpcMessageInfoView {
        RawNpcMessageInfoView {
            character_name: self.character_name@,
            character_name_length: self.character_name_length,
            message: self.message@,
            message_length: self.message_length,
            timestamp: self.timestamp,
        }
    }
}

/// What the extension tells a subscriber about itself when it asks it to
/// subscribe.
pub struct RawExtrasAddonInfo<'a> {
    /// Version of the api, incremented whenever a function signature or
    /// behavior changes in a breaking way.
    pub api_version: u32,
    /// Highest version of the subscriber info that the extension knows. The
    /// buffer it hands out has room for that version and no more.
    pub max_info_version: u32,
    /// The bytes of the version string of the extension; `None` for a null
    /// pointer.
    pub string_version: Option<&'a [u8]>,
    /// The bytes of the account name of the logged in player, including
    /// leading ':'; `None` for a null pointer. Only valid for the duration
    /// of the call.
    pub self_account_name: Option<&'a [u8]>,
    /// The address of the handle to the module of the extension.
    pub extras_handle: usize,
}

/// A second-generation chat message, as a plugin reads it.
#[derive(Debug)]
#[non_exhaustive]
pub enum ChatMessageInfo2<'a> {
    Squad(SquadMessageInfo<'a>),
    Npc(NpcMessageInfo<'a>),
}

/// What a `ChatMessageInfo2` says.
pub enum ChatMessageInfo2View {
    Squad(SquadMessageInfoView),
    Npc(NpcMessageInfoView),
}

impl<'a> View for ChatMessageInfo2<'a> {
    type V = ChatMessageInfo2View;

    open spec fn view(&self) -> ChatMessageInfo2View {
        match self {
            ChatMessageInfo2::Squad(info) => ChatMessageInfo2View::Squad(info@),
            ChatMessageInfo2::Npc(info) => ChatMessageInfo2View::Npc(info@),
        }
    }
}

/// The payload of a second-generation chat message, as the host passes it:
/// one pointer, which leads to a squad message or to an NPC message. The
/// host says which by a `ChatMessageType` beside it.
pub enum RawChatMessageInfo2<'a> {
    Squad(&'a RawSquadMessageInfo<'a>),
    Npc(&'a RawNpcMessageInfo<'a>),
}

impl<'a> RawChatMessageInfo2<'a> {
    /// The tag that names the arm that is filled.
    pub open spec fn tag(self) -> ChatMessageType {
        match self {
            RawChatMessageInfo2::Squad(_) => ChatMessageType::Squad,
            RawChatMessageInfo2::Npc(_) => ChatMessageType::NPC,
        }
    }
}

/// What every version of the subscriber info starts with.
#[derive(Clone, Copy, Debug, PartialEq, Eq, Structural)]
pub struct RawExtrasSubscriberInfoHeader {
    /// The version of the info that follows. The subscriber sets it to the
    /// version it fills in.
    pub info_version: u32,
    pub _unused1: u32,
}

/// A subscriber info of one version: the header, then what that version
/// holds.
pub struct RawExtrasSubscriberInfo<T> {
    pub header: RawExtrasSubscriberInfoHeader,
    pub content: T,
}

impl<T> core::ops::Deref for RawExtrasSubscriberInfo<T> {
    type Target = T;

    fn deref(&self) -> (content: &T)
        ensures
            *content == self.content,
    {
        &self.content
    }
}

/// The first version of the subscriber info.
pub struct InfoV1<'a> {
    /// The bytes of the name of the subscribing addon; `None` for a null
    /// pointer, which tells the extension that the subscriber failed.
    pub subscriber_name: Option<&'a [u8]>,
    /// Called whenever anything in the squad changes.
    pub squad_update_callback: Option<Callback>,
    /// Called whenever the language is changed.
    pub language_changed_callback: Option<Callback>,
    /// Called whenever a key bind is changed.
    pub key_bind_changed_callback: Option<Callback>,
}

/// The second version of the subscriber info: the first, and a callback for
/// chat messages.
pub struct InfoV2<'a> {
    /// The fields of the first version.
    pub v1: InfoV1<'a>,
    /// Called whenever a chat message is sent in the party or squad.
    pub chat_message_callback: Option<Callback>,
}

impl<'a> core::ops::Deref for InfoV2<'a> {
    type Target = InfoV1<'a>;

    fn deref(&self) -> (v1: &InfoV1<'a>)
        ensures
            *v1 == self.v1,
    {
        &self.v1
    }
}

/// The third version of the subscriber info: the second, and a callback for
/// tagged chat messages.
pub struct InfoV3<'a> {
    /// The fields of the second version.
    pub v2: InfoV2<'a>,
    /// Called on chat messages of every kind.
    pub chat_message_callback2: Option<Callback>,
}

impl<'a> core::ops::Deref for InfoV3<'a> {
    type Target = InfoV2<'a>;

    fn deref(&self) -> (v2: &InfoV2<'a>)
        ensures
            *v2 == self.v2,
    {
        &self.v2
    }
}

impl<T> core::ops::DerefMut for RawExtrasSubscriberInfo<T> {
    fn deref_mut(&mut self) -> (content: &mut T)
        ensures
            *content == old(self).content,
            final(self).header == old(self).header,
            final(self).content == *final(content),
    {
        &mut self.content
    }
}

impl<'a> core::ops::DerefMut for InfoV2<'a> {
    fn deref_mut(&mut self) -> (v1: &mut InfoV1<'a>)
        ensures
            *v1 == old(self).v1,
            final(self).chat_message_callback == old(self).chat_message_callback,
            final(self).v1 == *final(v1),
    {
        &mut self.v1
    }
}

impl<'a> core::ops::DerefMut for InfoV3<'a> {
    fn deref_mut(&mut self) -> (v2: &mut InfoV2<'a>)
        ensures
            *v2 == old(self).v2,
            final(self).chat_message_callback2 == old(self).chat_message_callback2,
            final(self).v2 == *final(v2),
    {
        &mut self.v2
    }
}

/// What an `InfoV1` holds: its fields, the name as bytes.
pub struct InfoV1View {
    pub subscriber_name: Option<Seq<u8>>,
    pub squad_update_callback: Option<Callback>,
    pub language_changed_callback: Option<Callback>,
    pub key_bind_changed_callback: Option<Callback>,
}

impl<'a> View for InfoV1<'a> {
    type V = InfoV1View;

    open spec fn view(&self) -> InfoV1View {
        InfoV1View {
            subscriber_name: match self.subscriber_name {
                Some(name) => Some(name@),
                None => None,
            },
            squad_update_callback: self.squad_update_callback,
            language_changed_callback: self.language_changed_callback,
            key_bind_changed_callback: self.key_bind_changed_callback,
        }
    }
}

/// What an `InfoV2` holds.
pub struct InfoV2View {
    pub v1: InfoV1View,
    pub chat_message_callback: Option<Callback>,
}

impl<'a> View for InfoV2<'a> {
    type V = InfoV2View;

    open spec fn view(&self) -> InfoV2View {
        InfoV2View { v1: self.v1@, chat_message_callback: self.chat_message_callback }
    }
}

/// What an `InfoV3` holds.
pub struct InfoV3View {
    pub v2: InfoV2View,
    pub chat_message_callback2: Option<Callback>,
}

impl<'a> View for InfoV3<'a> {
    type V = InfoV3View;

    open spec fn view(&self) -> InfoV3View {
        InfoV3View { v2: self.v2@, chat_message_callback2: self.chat_message_callback2 }
    }
}

impl<T: View> View for RawExtrasSubscriberInfo<T> {
    type V = RawExtrasSubscriberInfo<T::V>;

    open spec fn view(&self) -> RawExtrasSubscriberInfo<T::V> {
        RawExtrasSubscriberInfo { header: self.header, content: self.content@ }
    }
}

} // verus!
