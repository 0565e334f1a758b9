//! From raw records to the values a plugin reads.

use crate::raw_structs::{agent_of_raw, Agent, AgentView, CombatEvent, RawAgent};
use crate::text::{str_from_bytes, strip_leading_colon, text_of_bytes, without_leading_colon, COLON};
use crate::timestamp::{rfc3339_timestamp, timestamp_of_nanos, Timestamp};
use crate::unofficial_extras::raw_structs::{
    ChatMessageInfo2, ChatMessageInfo2View, ChatMessageType, NpcMessageInfo, NpcMessageInfoView,
    RawChatMessageInfo2, RawNpcMessageInfo, RawNpcMessageInfoView, RawSquadMessageInfo,
    RawSquadMessageInfoView, RawUserInfo, RawUserInfoView, SquadMessageInfo,
    SquadMessageInfoView, UserInfo, UserInfoView,
};
use vstd::prelude::*;
use vstd::string::*;
use vstd::utf8::*;

verus! {

/// What a nullable C string reads as: nothing for a null pointer, else the
/// text of its bytes.
pub open spec fn c_str_text(src: Option<Seq<u8>>) -> Option<Seq<char>> {
    match src {
        Some(bytes) => Some(text_of_bytes(bytes)),
        None => None,
    }
}

/// What a span with a stated length reads as: the text of its first `len`
/// bytes.
pub open spec fn span_text(src: Seq<u8>, len: u64) -> Seq<char> {
    text_of_bytes(src.subrange(0, len as int))
}

/// Whether the lowest bit of a flag byte is set. The other bits are
/// reserved and do not count.
pub open spec fn low_bit(flags: u8) -> bool {
    flags % 2 == 1
}

/// Reads a nullable C string of the host: `None` for a null pointer, else
/// the text of the bytes. Bytes that are no well-formed UTF-8 read as the
/// empty text.
pub fn get_str_from_pc_char<'a>(src: Option<&'a [u8]>) -> (res: Option<&'a str>)
    ensures
        optional_text(res) == c_str_text(optional_bytes(src)),
        src is Some && valid_utf8(src->0@) ==> res->0.spec_bytes() == src->0@,
{
    match src {
        Some(bytes) => Some(str_from_bytes(bytes)),
        None => None,
    }
}

/// Reads the first `len` bytes of a span as text. The length is what
/// counts: bytes of the span beyond it are not read. Bytes that are no
/// well-formed UTF-8 read as the empty text.
pub fn get_str_from_ptr_and_len<'a>(src: &'a [u8], len: u64) -> (res: &'a str)
    requires
        len <= src@.len(),
    ensures
        res@ == span_text(src@, len),
        valid_utf8(src@.subrange(0, len as int)) ==> res.spec_bytes() == src@.subrange(
            0,
            len as int,
        ),
{
    let span_len = src.len();
    assert(len <= span_len);
    let end = len as usize;
    str_from_bytes(&src[0..end])
}

/// What a `CombatEventArgs` says.
pub struct CombatEventArgsView {
    pub ev: Option<CombatEvent>,
    pub src: Option<AgentView>,
    pub dst: Option<AgentView>,
    pub skill_name: Option<Seq<char>>,
}

/// The arguments of a combat callback, as a plugin reads them.
pub struct CombatEventArgs<'a> {
    pub ev: Option<&'a CombatEvent>,
    pub src: Option<Agent<'a>>,
    pub dst: Option<Agent<'a>>,
    pub skill_name: Option<&'static str>,
}

impl<'a> View for CombatEventArgs<'a> {
    type V = CombatEventArgsView;

    open spec fn view(&self) -> CombatEventArgsView {
        CombatEventArgsView {
            ev: match self.ev {
                Some(ev) => Some(*ev),
                None => None,
            },
            src: match self.src {
                Some(agent) => Some(agent@),
                None => None,
            },
            dst: match self.dst {
                Some(agent) => Some(agent@),
                None => None,
            },
            skill_name: match self.skill_name {
                Some(name) => Some(name@),
                None => None,
            },
        }
    }
}

/// The bytes behind an optional span.
pub open spec fn optional_bytes(src: Option<&[u8]>) -> Option<Seq<u8>> {
    match src {
        Some(bytes) => Some(bytes@),
        None => None,
    }
}

/// The characters of an optional text.
pub open spec fn optional_text(text: Option<&str>) -> Option<Seq<char>> {
    match text {
        Some(text) => Some(text@),
        None => None,
    }
}

/// The agent that an optional raw agent reads as.
pub open spec fn optional_agent_of_raw(raw: Option<&RawAgent>) -> Option<AgentView> {
    match raw {
        Some(agent) => Some(agent_of_raw(agent@)),
        None => None,
    }
}

/// The arguments that the raw arguments of a combat callback read as.
pub open spec fn combat_args_of_raw(
    raw_ev: Option<&CombatEvent>,
    raw_src: Option<&RawAgent>,
    raw_dst: Option<&RawAgent>,
    raw_skill_name: Option<&[u8]>,
) -> CombatEventArgsView {
    CombatEventArgsView {
        ev: match raw_ev {
            Some(ev) => Some(*ev),
            None => None,
        },
        src: optional_agent_of_raw(raw_src),
        dst: optional_agent_of_raw(raw_dst),
        skill_name: c_str_text(optional_bytes(raw_skill_name)),
    }
}

/// Reads the raw arguments of a combat callback: the event is handed on as
/// it is, each agent that is there is read, and so is the skill name.
pub fn get_combat_args_from_raw<'a>(
    raw_ev: Option<&'a CombatEvent>,
    raw_src: Option<&'a RawAgent<'a>>,
    raw_dst: Option<&'a RawAgent<'a>>,
    raw_skill_name: Option<&'static [u8]>,
) -> (args: CombatEventArgs<'a>)
    ensures
        args@ == combat_args_of_raw(raw_ev, raw_src, raw_dst, raw_skill_name),
{
    CombatEventArgs {
        ev: raw_ev,
        src: match raw_src {
            Some(agent) => Some(Agent::from_raw(agent)),
            None => None,
        },
        dst: match raw_dst {
            Some(agent) => Some(Agent::from_raw(agent)),
            None => None,
        },
        skill_name: get_str_from_pc_char(raw_skill_name),
    }
}

/// The account name that a raw one reads as: its text, without one leading
/// `':'`.
pub open spec fn account_name_of_raw(src: Option<Seq<u8>>) -> Option<Seq<char>> {
    match src {
        Some(bytes) => Some(without_leading_colon(text_of_bytes(bytes))),
        None => None,
    }
}

/// The user that a raw user reads as.
pub open spec fn user_of_raw(raw: RawUserInfoView) -> UserInfoView {
    UserInfoView {
        account_name: account_name_of_raw(raw.account_name),
        join_time: raw.join_time,
        role: raw.role,
        subgroup: raw.subgroup,
        ready_status: raw.ready_status,
    }
}

/// Reads the account name of a raw record: `None` for a null pointer, else
/// the text of the bytes without one leading `':'`.
pub fn get_account_name<'a>(src: Option<&'a [u8]>) -> (res: Option<&'a str>)
    ensures
        optional_text(res) == account_name_of_raw(optional_bytes(src)),
        src is Some && valid_utf8(src->0@) && src->0@.len() > 0 && src->0@[0] == COLON
            ==> res->0.spec_bytes() == src->0@.subrange(1, src->0@.len() as int),
{
    match get_str_from_pc_char(src) {
        Some(name) => {
            proof {
                if name@.len() > 0 {
                    crate::text::lemma_leading_colon(name@);
                }
                if valid_utf8(src->0@) && src->0@.len() > 0 && src->0@[0] == COLON {
                    assert(encode_utf8(name@) == src->0@);
                    assert(name@.len() > 0) by {
                        if name@.len() == 0 {
                            assert(encode_utf8(name@).len() == 0);
                        }
                    }
                }
            }
            Some(strip_leading_colon(name))
        },
        None => None,
    }
}

/// Reads a raw user. Its account name loses one leading `':'`; the other
/// fields are handed on.
pub fn convert_extras_user<'a>(user: &RawUserInfo<'a>) -> (res: UserInfo<'a>)
    ensures
        res@ == user_of_raw(user@),
        user.account_name is Some && valid_utf8(user.account_name->0@)
            && user.account_name->0@.len() > 0 && user.account_name->0@[0] == COLON ==> {
            &&& res.account_name is Some
            &&& res.account_name->0.spec_bytes() == user.account_name->0@.subrange(
                1,
                user.account_name->0@.len() as int,
            )
        },
{
    UserInfo {
        account_name: get_account_name(user.account_name),
        join_time: user.join_time,
        role: user.role,
        subgroup: user.subgroup,
        ready_status: user.ready_status,
    }
}

/// The time that a raw squad message states, where chrono can read it.
pub open spec fn squad_message_timestamp(raw: RawSquadMessageInfoView) -> Option<Timestamp> {
    rfc3339_timestamp(span_text(raw.timestamp, raw.timestamp_length))
}

/// The squad message that a raw one reads as, given the time it states.
/// Of the broadcast byte only the lowest bit counts, and the account name
/// loses one leading `':'`.
pub open spec fn squad_message_of_raw(
    raw: RawSquadMessageInfoView,
    timestamp: Timestamp,
) -> SquadMessageInfoView {
    SquadMessageInfoView {
        channel_id: raw.channel_id,
        channel_type: raw.channel_type,
        subgroup: raw.subgroup,
        is_broadcast: low_bit(raw.is_broadcast),
        timestamp,
        account_name: without_leading_colon(span_text(raw.account_name, raw.account_name_length)),
        character_name: span_text(raw.character_name, raw.character_name_length),
        text: span_text(raw.text, raw.text_length),
    }
}

/// The NPC message that a raw one reads as. Its time lies the raw count of
/// nanoseconds after the epoch, in UTC.
pub open spec fn npc_message_of_raw(raw: RawNpcMessageInfoView) -> NpcMessageInfoView {
    NpcMessageInfoView {
        character_name: span_text(raw.character_name, raw.character_name_length),
        message: span_text(raw.message, raw.message_length),
        timestamp: timestamp_of_nanos(raw.timestamp as int),
    }
}

impl<'a> RawSquadMessageInfo<'a> {
    /// Whether every stated length lies within its span.
    pub fn is_wf(&self) -> (ok: bool)
        ensures
            ok == self@.wf(),
    {
        self.timestamp_length <= self.timestamp.len() as u64 && self.account_name_length
            <= self.account_name.len() as u64 && self.character_name_length
            <= self.character_name.len() as u64 && self.text_length <= self.text.len() as u64
    }
}

impl<'a> RawNpcMessageInfo<'a> {
    /// Whether every stated length lies within its span.
    pub fn is_wf(&self) -> (ok: bool)
        ensures
            ok == self@.wf(),
    {
        self.character_name_length <= self.character_name.len() as u64 && self.message_length
            <= self.message.len() as u64
    }
}

/// Reads the broadcast byte of a raw message: its lowest bit, and nothing
/// of the reserved bits above it.
pub fn is_broadcast(flags: u8) -> (res: bool)
    ensures
        res == low_bit(flags),
{
    assert(((flags & 0x01) != 0) == (flags % 2 == 1)) by (bit_vector);
    (flags & 0x01) != 0
}

/// Reads a raw squad message whose time has been read already.
pub fn squad_message_with_timestamp<'a>(
    msg: &RawSquadMessageInfo<'a>,
    timestamp: Timestamp,
) -> (res: SquadMessageInfo<'a>)
    requires
        msg@.wf(),
    ensures
        res@ == squad_message_of_raw(msg@, timestamp),
{
    let account_name = get_str_from_ptr_and_len(msg.account_name, msg.account_name_length);
    let character_name = get_str_from_ptr_and_len(msg.character_name, msg.character_name_length);
    let text = get_str_from_ptr_and_len(msg.text, msg.text_length);
    SquadMessageInfo {
        channel_id: msg.channel_id,
        channel_type: msg.channel_type,
        subgroup: msg.subgroup,
        is_broadcast: is_broadcast(msg.is_broadcast),
        timestamp,
        account_name: strip_leading_colon(account_name),
        character_name,
        text,
    }
}

/// Reads a raw squad message. A time text that chrono does not read as
/// RFC 3339 is no failure of the call: the answer is then `None`.
pub fn convert_extras_squad_chat_message<'a>(msg: &RawSquadMessageInfo<'a>) -> (res: Option<
    SquadMessageInfo<'a>,
>)
    requires
        msg@.wf(),
    ensures
        res is Some <==> squad_message_timestamp(msg@) is Some,
        res is Some ==> res->0@ == squad_message_of_raw(msg@, squad_message_timestamp(msg@)->0),
{
    let timestamp = get_str_from_ptr_and_len(msg.timestamp, msg.timestamp_length);
    match Timestamp::parse_from_rfc3339(timestamp) {
        Some(timestamp) => Some(squad_message_with_timestamp(msg, timestamp)),
        None => None,
    }
}

/// Reads a raw squad message of which nothing is known, or `None` where a
/// stated length runs past its span or the time it states is none that
/// chrono reads as RFC 3339.
pub fn try_convert_extras_squad_chat_message<'a>(msg: &RawSquadMessageInfo<'a>) -> (res: Option<
    SquadMessageInfo<'a>,
>)
    ensures
        res is Some <==> msg@.wf() && squad_message_timestamp(msg@) is Some,
        res is Some ==> res->0@ == squad_message_of_raw(msg@, squad_message_timestamp(msg@)->0),
{
    if msg.is_wf() {
        convert_extras_squad_chat_message(msg)
    } else {
        None
    }
}

/// Reads a raw NPC message.
pub fn convert_extras_npc_chat_message<'a>(msg: &RawNpcMessageInfo<'a>) -> (res: NpcMessageInfo<
    'a,
>)
    requires
        msg@.wf(),
    ensures
        res@ == npc_message_of_raw(msg@),
{
    let character_name = get_str_from_ptr_and_len(msg.character_name, msg.character_name_length);
    let message = get_str_from_ptr_and_len(msg.message, msg.message_length);
    let timestamp = Timestamp::from_raw_nanos(msg.timestamp);
    NpcMessageInfo { character_name, message, timestamp }
}

/// Whether a tagged raw message is what the host promises: the tag names
/// the arm that is filled, and the stated lengths lie within their spans.
pub open spec fn chat_message2_well_formed(
    msg_type: ChatMessageType,
    msg: RawChatMessageInfo2,
) -> bool {
    &&& msg.tag() == msg_type
    &&& match msg {
        RawChatMessageInfo2::Squad(squad) => squad@.wf(),
        RawChatMessageInfo2::Npc(npc) => npc@.wf(),
    }
}

/// Whether a tagged raw message can be read: it is well formed, and the
/// time of a squad message is one that chrono reads.
pub open spec fn chat_message2_readable(
    msg_type: ChatMessageType,
    msg: RawChatMessageInfo2,
) -> bool {
    &&& chat_message2_well_formed(msg_type, msg)
    &&& match msg {
        RawChatMessageInfo2::Squad(squad) => squad_message_timestamp(squad@) is Some,
        RawChatMessageInfo2::Npc(_) => true,
    }
}

/// The message that a tagged raw message reads as.
pub open spec fn chat_message2_of_raw(msg: RawChatMessageInfo2) -> ChatMessageInfo2View {
    match msg {
        RawChatMessageInfo2::Squad(squad) => ChatMessageInfo2View::Squad(
            squad_message_of_raw(squad@, squad_message_timestamp(squad@)->0),
        ),
        RawChatMessageInfo2::Npc(npc) => ChatMessageInfo2View::Npc(npc_message_of_raw(npc@)),
    }
}

/// Reads a tagged raw message through the arm that the tag names, which
/// must be the arm that is filled. A squad message whose time text chrono
/// does not read gives `None`; an NPC message is always read.
pub fn convert_extras_chat_message2<'a>(
    msg_type: ChatMessageType,
    msg: RawChatMessageInfo2<'a>,
) -> (res: Option<ChatMessageInfo2<'a>>)
    requires
        chat_message2_well_formed(msg_type, msg),
    ensures
        res is Some <==> chat_message2_readable(msg_type, msg),
        res is Some ==> res->0@ == chat_message2_of_raw(msg),
        res is Some ==> (msg_type == ChatMessageType::Squad <==> res->0 is Squad),
        res is Some ==> (msg_type == ChatMessageType::NPC <==> res->0 is Npc),
{
    match msg_type {
        ChatMessageType::Squad => match msg {
            RawChatMessageInfo2::Squad(squad) => match convert_extras_squad_chat_message(squad) {
                Some(info) => Some(ChatMessageInfo2::Squad(info)),
                None => None,
            },
            RawChatMessageInfo2::Npc(_) => unreached(),
        },
        ChatMessageType::NPC => match msg {
            RawChatMessageInfo2::Npc(npc) => Some(
                ChatMessageInfo2::Npc(convert_extras_npc_chat_message(npc)),
            ),
            RawChatMessageInfo2::Squad(_) => unreached(),
        },
    }
}

/// Reads a tagged raw message of which nothing is known, through the arm
/// that the tag names, or `None` where the tag names the arm that is not
/// filled, a stated length runs past its span, or the time of a squad
/// message is none that chrono reads.
pub fn try_convert_extras_chat_message2<'a>(
    msg_type: ChatMessageType,
    msg: RawChatMessageInfo2<'a>,
) -> (res: Option<ChatMessageInfo2<'a>>)
    ensures
        res is Some <==> chat_message2_readable(msg_type, msg),
        res is Some ==> res->0@ == chat_message2_of_raw(msg),
{
    let well_formed = match msg_type {
        ChatMessageType::Squad => match &msg {
            RawChatMessageInfo2::Squad(squad) => squad.is_wf(),
            RawChatMessageInfo2::Npc(_) => false,
        },
        ChatMessageType::NPC => match &msg {
            RawChatMessageInfo2::Npc(npc) => npc.is_wf(),
            RawChatMessageInfo2::Squad(_) => false,
        },
    };
    if well_formed {
        convert_extras_chat_message2(msg_type, msg)
    } else {
        None
    }
}

/// Reads every raw user of a span, in order.
pub fn convert_extras_users<'a>(users: &'a [RawUserInfo<'a>]) -> (res: Vec<UserInfo<'a>>)
    ensures
        res@.len() == users@.len(),
        forall|i: int| 0 <= i < users@.len() ==> (#[trigger] res@[i])@ == user_of_raw(users@[i]@),
{
    let mut res: Vec<UserInfo<'a>> = Vec::new();
    let mut i: usize = 0;
    while i < users.len()
        invariant
            i <= users@.len(),
            res@.len() == i,
            forall|j: int| 0 <= j < i ==> (#[trigger] res@[j])@ == user_of_raw(users@[j]@),
        decreases users@.len() - i,
    {
        res.push(convert_extras_user(&users[i]));
        i += 1;
    }
    res
}

/// The users of a squad update, read one by one as they are asked for. It
/// borrows the raw users and keeps none of them; to go over them again,
/// make a new one.
pub struct UserInfoIter<'a> {
    users: &'a [RawUserInfo<'a>],
    next: usize,
}

impl<'a> UserInfoIter<'a> {
    #[verifier::type_invariant]
    closed spec fn inv(self) -> bool {
        self.next <= self.users@.len()
    }

    /// The raw users that have not been read yet, in order.
    pub closed spec fn remaining(self) -> Seq<RawUserInfo<'a>> {
        self.users@.subrange(self.next as int, self.users@.len() as int)
    }

    /// Starts before the first raw user.
    pub fn new(users: &'a [RawUserInfo<'a>]) -> (iter: UserInfoIter<'a>)
        ensures
            iter.remaining() == users@,
    {
        assert(users@.subrange(0, users@.len() as int) == users@);
        UserInfoIter { users, next: 0 }
    }

    /// How many users are left to read.
    pub fn len(&self) -> (n: usize)
        ensures
            n == self.remaining().len(),
    {
        proof {
            use_type_invariant(self);
        }
        self.users.len() - self.next
    }

    /// Reads the next raw user, or `None` when none is left.
    pub fn next(&mut self) -> (res: Option<UserInfo<'a>>)
        ensures
            old(self).remaining().len() == 0 ==> res is None && final(self).remaining() == old(
                self,
            ).remaining(),
            old(self).remaining().len() > 0 ==> {
                &&& res is Some
                &&& res->0@ == user_of_raw(old(self).remaining()[0]@)
                &&& final(self).remaining() == old(self).remaining().drop_first()
            },
    {
        proof {
            use_type_invariant(&*self);
        }
        if self.next < self.users.len() {
            let user = convert_extras_user(&self.users[self.next]);
            self.next += 1;
            assert(self.remaining() == old(self).remaining().drop_first());
            Some(user)
        } else {
            None
        }
    }
}

/// A well-formed account name that starts with `':'` is read as the bytes
/// that follow that `':'`: one `':'` is left out, and nothing else is left
/// out or changed.
pub proof fn lemma_account_name_loses_one_colon(raw: RawUserInfoView)
    requires
        raw.account_name is Some,
        valid_utf8(raw.account_name->0),
        raw.account_name->0.len() > 0,
        raw.account_name->0[0] == COLON,
    ensures
        user_of_raw(raw).account_name is Some,
        encode_utf8(user_of_raw(raw).account_name->0) == raw.account_name->0.subrange(
            1,
            raw.account_name->0.len() as int,
        ),
{
    let bytes = raw.account_name->0;
    let chars = decode_utf8(bytes);
    decode_utf8_encode_utf8(bytes);
    if chars.len() == 0 {
        assert(encode_utf8(chars).len() == 0);
    }
    crate::text::lemma_leading_colon(chars);
}

/// Of the broadcast byte only the lowest bit is read: 0x03 is a broadcast
/// and 0x02 is none, and two bytes with the same lowest bit read the same.
pub proof fn lemma_broadcast_reads_lowest_bit(
    raw: RawSquadMessageInfoView,
    other: RawSquadMessageInfoView,
    timestamp: Timestamp,
)
    ensures
        raw.is_broadcast == 0x03 ==> squad_message_of_raw(raw, timestamp).is_broadcast,
        raw.is_broadcast == 0x02 ==> !squad_message_of_raw(raw, timestamp).is_broadcast,
        raw.is_broadcast & 0x01 == other.is_broadcast & 0x01 ==> squad_message_of_raw(
            raw,
            timestamp,
        ).is_broadcast == squad_message_of_raw(other, timestamp).is_broadcast,
{
    let a = raw.is_broadcast;
    let b = other.is_broadcast;
    assert(a & 0x01 == b & 0x01 ==> (a % 2 == 1) == (b % 2 == 1)) by (bit_vector);
}

} // verus!
