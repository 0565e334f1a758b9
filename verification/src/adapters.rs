//! What the adapters do between the host and a plugin's callbacks.
//!
//! The host calls an adapter with raw arguments. The adapter reads them and
//! hands the safe values to the callback that the plugin supplied. Each
//! function here is the body of one adapter: it takes what the host passed,
//! as plain values, and the callback.

use crate::helpers::{
    c_str_text, chat_message2_of_raw, chat_message2_readable, combat_args_of_raw,
    get_combat_args_from_raw, get_str_from_pc_char, optional_bytes, optional_text,
    squad_message_of_raw, squad_message_timestamp, try_convert_extras_chat_message2,
    try_convert_extras_squad_chat_message, CombatEventArgs, UserInfoIter,
};
use crate::raw_structs::{Agent, CombatEvent, RawAgent};
use crate::unofficial_extras::raw_structs::{
    ChatMessageInfo2, ChatMessageType, RawChatMessageInfo2, RawSquadMessageInfo, RawUserInfo,
    SquadMessageInfo,
};
use vstd::prelude::*;

verus! {

/// A key went down.
pub const WM_KEYDOWN: u32 = 0x0100;

/// A key came up.
pub const WM_KEYUP: u32 = 0x0101;

/// A key went down while Alt was held.
pub const WM_SYSKEYDOWN: u32 = 0x0104;

/// A key came up while Alt was held.
pub const WM_SYSKEYUP: u32 = 0x0105;

/// Whether a window message is one of the four key messages.
pub open spec fn is_key_message(u_msg: u32) -> bool {
    u_msg == WM_KEYDOWN || u_msg == WM_KEYUP || u_msg == WM_SYSKEYDOWN || u_msg == WM_SYSKEYUP
}

/// Whether bit 30 of the second parameter of a key message is set. The
/// host sets it when the key was down before the message was sent.
pub open spec fn previous_key_state(l_param: isize) -> bool {
    l_param & 0x4000_0000 != 0
}

/// What a key message says.
#[derive(Clone, Copy, Debug, PartialEq, Eq, Structural)]
pub struct KeyEvent {
    /// The virtual key code.
    pub key: usize,
    /// Whether the key is down now.
    pub key_down: bool,
    /// Whether the key was down before.
    pub prev_key_down: bool,
}

/// What a window message says about a key: nothing, unless it is a key
/// message.
pub open spec fn key_event_of(u_msg: u32, w_param: usize, l_param: isize) -> Option<KeyEvent> {
    if is_key_message(u_msg) {
        Some(
            KeyEvent {
                key: w_param,
                key_down: u_msg == WM_KEYDOWN || u_msg == WM_SYSKEYDOWN,
                prev_key_down: previous_key_state(l_param),
            },
        )
    } else {
        None
    }
}

/// What the host is told of a key message: the message itself where the
/// plugin lets it pass, 0 where the plugin swallows it.
pub open spec fn wnd_reply(u_msg: u32, pass: bool) -> u32 {
    if pass {
        u_msg
    } else {
        0
    }
}

/// Decodes a window message. For a key message it gives the key code, from
/// the first parameter, whether the key is down, from the message, and
/// whether it was down before, from bit 30 of the second parameter. For
/// every other message it gives `None`: the plugin is not asked.
pub fn decode_key_message(u_msg: u32, w_param: usize, l_param: isize) -> (event: Option<KeyEvent>)
    ensures
        event == key_event_of(u_msg, w_param, l_param),
        event is Some <==> is_key_message(u_msg),
        event is Some ==> event->0.prev_key_down == previous_key_state(l_param),
{
    if u_msg == WM_KEYDOWN || u_msg == WM_KEYUP || u_msg == WM_SYSKEYDOWN || u_msg == WM_SYSKEYUP {
        assert((u_msg & 1 == 0) == (u_msg == WM_KEYDOWN || u_msg == WM_SYSKEYDOWN)) by (bit_vector)
            requires
                u_msg == 0x0100 || u_msg == 0x0101 || u_msg == 0x0104 || u_msg == 0x0105,
        ;
        assert(((l_param >> 30) & 1 == 1) == (l_param & 0x4000_0000 != 0)) by (bit_vector);
        let key_down = u_msg & 1 == 0;
        let prev_key_down = (l_param >> 30) & 1 == 1;
        Some(KeyEvent { key: w_param, key_down, prev_key_down })
    } else {
        None
    }
}

/// The body of a window message adapter. A key message is decoded and put
/// before the plugin, whose answer decides between the message itself and
/// 0. Every other message is handed back as it came, and the plugin is not
/// called.
pub fn abstract_wnd<F: Fn(usize, bool, bool) -> bool>(
    u_msg: u32,
    w_param: usize,
    l_param: isize,
    safe: F,
) -> (reply: u32)
    requires
        key_event_of(u_msg, w_param, l_param) matches Some(event) ==> call_requires(
            safe,
            (event.key, event.key_down, event.prev_key_down),
        ),
    ensures
        !is_key_message(u_msg) ==> reply == u_msg,
        key_event_of(u_msg, w_param, l_param) matches Some(event) ==> exists|pass: bool|
            call_ensures(safe, (event.key, event.key_down, event.prev_key_down), pass) && reply
                == wnd_reply(u_msg, pass),
{
    match decode_key_message(u_msg, w_param, l_param) {
        Some(event) => {
            let pass = safe(event.key, event.key_down, event.prev_key_down);
            let reply = if pass {
                u_msg
            } else {
                0
            };
            assert(call_ensures(safe, (event.key, event.key_down, event.prev_key_down), pass)
                && reply == wnd_reply(u_msg, pass));
            reply
        },
        None => u_msg,
    }
}

/// The body of the render adapter: the plugin draws with the rendering
/// context, and is told whether the game is loading, which is so unless
/// the host passed 0. The context must have been set up.
pub fn abstract_imgui<U, F: Fn(&U, bool)>(ui: Option<&U>, loading: u32, safe: F)
    requires
        ui is Some,
        call_requires(safe, (ui->0, loading != 0)),
    ensures
        call_ensures(safe, (ui->0, loading != 0), ()),
{
    match ui {
        Some(ui) => safe(ui, loading != 0),
        None => unreached(),
    }
}

/// The body of the adapter for the end of the options panel: the plugin
/// draws with the rendering context. The context must have been set up.
pub fn abstract_options_end<U, F: Fn(&U)>(ui: Option<&U>, safe: F)
    requires
        ui is Some,
        call_requires(safe, (ui->0,)),
    ensures
        call_ensures(safe, (ui->0,), ()),
{
    match ui {
        Some(ui) => safe(ui),
        None => unreached(),
    }
}

/// The body of the adapter for the windows of the options panel: the
/// plugin is given the rendering context and the name of the window, read
/// as a C string, and its answer is handed back. The context must have
/// been set up.
pub fn abstract_options_windows<U, F: Fn(&U, Option<&str>) -> bool>(
    ui: Option<&U>,
    window_name: Option<&[u8]>,
    safe: F,
) -> (res: bool)
    requires
        ui is Some,
        forall|name: Option<&str>|
            optional_text(name) == c_str_text(optional_bytes(window_name)) ==> call_requires(
                safe,
                (ui->0, name),
            ),
    ensures
        exists|name: Option<&str>|
            optional_text(name) == c_str_text(optional_bytes(window_name)) && call_ensures(
                safe,
                (ui->0, name),
                res,
            ),
{
    match ui {
        Some(ui) => {
            let name = get_str_from_pc_char(window_name);
            let res = safe(ui, name);
            assert(optional_text(name) == c_str_text(optional_bytes(window_name)) && call_ensures(
                safe,
                (ui, name),
                res,
            ));
            res
        },
        None => unreached(),
    }
}

/// The body of a combat adapter: the raw arguments are read, and the
/// plugin is called with the event, the two agents, the skill name, the id
/// and the revision.
pub fn abstract_combat<'a, F>(
    ev: Option<&'a CombatEvent>,
    src: Option<&'a RawAgent<'a>>,
    dst: Option<&'a RawAgent<'a>>,
    skill_name: Option<&'static [u8]>,
    id: u64,
    revision: u64,
    safe: F,
) where
    F: Fn(
        Option<&'a CombatEvent>,
        Option<Agent<'a>>,
        Option<Agent<'a>>,
        Option<&'static str>,
        u64,
        u64,
    ),

    requires
        forall|args: CombatEventArgs<'a>|
            args@ == combat_args_of_raw(ev, src, dst, skill_name) ==> call_requires(
                safe,
                (args.ev, args.src, args.dst, args.skill_name, id, revision),
            ),
    ensures
        exists|args: CombatEventArgs<'a>|
            args@ == combat_args_of_raw(ev, src, dst, skill_name) && call_ensures(
                safe,
                (args.ev, args.src, args.dst, args.skill_name, id, revision),
                (),
            ),
{
    let args = get_combat_args_from_raw(ev, src, dst, skill_name);
    let ghost seen = args;
    safe(args.ev, args.src, args.dst, args.skill_name, id, revision);
    assert(seen@ == combat_args_of_raw(ev, src, dst, skill_name) && call_ensures(
        safe,
        (seen.ev, seen.src, seen.dst, seen.skill_name, id, revision),
        (),
    ));
}

/// The body of the squad update adapter: the plugin is given the raw users
/// of the update to read one by one, all of them and in order.
pub fn abstract_extras_squad_update<'a, F: FnOnce(UserInfoIter<'a>)>(
    users: &'a [RawUserInfo<'a>],
    safe: F,
)
    requires
        forall|iter: UserInfoIter<'a>|
            iter.remaining() == users@ ==> call_requires(safe, (iter,)),
    ensures
        exists|iter: UserInfoIter<'a>|
            iter.remaining() == users@ && call_ensures(safe, (iter,), ()),
{
    let iter = UserInfoIter::new(users);
    let ghost seen = iter;
    safe(iter);
    assert(seen.remaining() == users@ && call_ensures(safe, (seen,), ()));
}

/// The body of the chat message adapter: the raw message is read and put
/// before the plugin. Where it cannot be read, because a stated length
/// runs past its span or its time is none that chrono reads, the plugin is
/// not called and the answer is `false`. The plugin need not take any
/// message but the one that was read.
pub fn abstract_extras_chat_message<'a, F: FnOnce(&SquadMessageInfo<'a>)>(
    msg: &RawSquadMessageInfo<'a>,
    safe: F,
) -> (called: bool)
    requires
        forall|info: SquadMessageInfo<'a>|
            msg@.wf() && squad_message_timestamp(msg@) is Some && info@ == squad_message_of_raw(
                msg@,
                squad_message_timestamp(msg@)->0,
            ) ==> call_requires(safe, (&info,)),
    ensures
        called <==> msg@.wf() && squad_message_timestamp(msg@) is Some,
        called ==> exists|info: SquadMessageInfo<'a>|
            info@ == squad_message_of_raw(msg@, squad_message_timestamp(msg@)->0) && call_ensures(
                safe,
                (&info,),
                (),
            ),
{
    match try_convert_extras_squad_chat_message(msg) {
        Some(info) => {
            safe(&info);
            assert(info@ == squad_message_of_raw(msg@, squad_message_timestamp(msg@)->0)
                && call_ensures(safe, (&info,), ()));
            true
        },
        None => false,
    }
}

/// The body of the adapter for tagged chat messages: the raw message is
/// read through the arm that the tag names and put before the plugin.
/// Where it cannot be read, the plugin is not called and the answer is
/// `false`.
pub fn abstract_extras_chat_message2<'a, F: FnOnce(ChatMessageInfo2<'a>)>(
    msg_type: ChatMessageType,
    msg: RawChatMessageInfo2<'a>,
    safe: F,
) -> (called: bool)
    requires
        forall|info: ChatMessageInfo2<'a>|
            chat_message2_readable(msg_type, msg) && info@ == chat_message2_of_raw(msg)
                ==> call_requires(safe, (info,)),
    ensures
        called <==> chat_message2_readable(msg_type, msg),
        called ==> exists|info: ChatMessageInfo2<'a>|
            info@ == chat_message2_of_raw(msg) && call_ensures(safe, (info,), ()),
{
    match try_convert_extras_chat_message2(msg_type, msg) {
        Some(info) => {
            let ghost seen = info;
            safe(info);
            assert(seen@ == chat_message2_of_raw(msg) && call_ensures(safe, (seen,), ()));
            true
        },
        None => false,
    }
}

/// Whether the key was down before is read from bit 30 of the second
/// parameter and from nothing else: with the bit set it is so, with the
/// bit cleared it is not, whatever the other bits, the key and the message.
pub proof fn lemma_previous_key_state_is_bit_30(u_msg: u32, w_param: usize, l_param: isize)
    requires
        is_key_message(u_msg),
    ensures
        key_event_of(u_msg, w_param, l_param | 0x4000_0000) is Some,
        key_event_of(u_msg, w_param, l_param | 0x4000_0000)->0.prev_key_down,
        key_event_of(u_msg, w_param, l_param & !0x4000_0000) is Some,
        !key_event_of(u_msg, w_param, l_param & !0x4000_0000)->0.prev_key_down,
{
    assert((l_param | 0x4000_0000) & 0x4000_0000 != 0) by (bit_vector);
    assert((l_param & !0x4000_0000) & 0x4000_0000 == 0) by (bit_vector);
}

/// A message that is no key message says nothing about a key, so the
/// plugin is not asked about it.
pub proof fn lemma_other_messages_are_not_decoded(u_msg: u32, w_param: usize, l_param: isize)
    requires
        u_msg != WM_KEYDOWN,
        u_msg != WM_KEYUP,
        u_msg != WM_SYSKEYDOWN,
        u_msg != WM_SYSKEYUP,
    ensures
        key_event_of(u_msg, w_param, l_param) is None,
{
}

} // verus!
