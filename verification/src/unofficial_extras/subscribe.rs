//! The handshake by which a plugin subscribes to the extension.
//!
//! The extension states the version of its API and the highest version of
//! the subscriber info that it knows, and hands out a buffer with room for
//! that version. The plugin answers by filling the buffer with a
//! subscriber info of a version that both know, or by leaving the buffer
//! as it is, which tells the extension that it does not subscribe.

use crate::helpers::{
    account_name_of_raw, c_str_text, get_account_name, get_str_from_pc_char, optional_bytes,
    optional_text,
};
use crate::raw_structs::Callback;
use crate::unofficial_extras::raw_structs::{
    InfoV1, InfoV1View, InfoV2, InfoV2View, RawExtrasAddonInfo,
    RawExtrasSubscriberInfo, RawExtrasSubscriberInfoHeader,
};
use vstd::prelude::*;
use vstd::string::*;

verus! {

/// The version of the API of the extension that this handshake is written
/// for.
pub const API_VERSION: u32 = 2;

/// The version of the subscriber info that is filled in for an extension
/// that states `api_version` and `max_info_version`: none where the API is
/// another or the extension knows no version at all, else the second where
/// the extension knows it, and the first where it does not.
pub open spec fn negotiated_version(api_version: u32, max_info_version: u32) -> Option<u32> {
    if api_version != API_VERSION || max_info_version < 1 {
        None
    } else if max_info_version == 1 {
        Some(1)
    } else {
        Some(2)
    }
}

/// Picks the version of the subscriber info to fill in.
pub fn negotiate(api_version: u32, max_info_version: u32) -> (version: Option<u32>)
    ensures
        version == negotiated_version(api_version, max_info_version),
        version matches Some(v) ==> 1 <= v <= 2 && v <= max_info_version,
{
    if api_version != API_VERSION {
        return None;
    }
    if max_info_version < 1 {
        return None;
    }
    if max_info_version == 1 {
        Some(1)
    } else {
        Some(2)
    }
}

/// What is written into the buffer of the extension: a subscriber info of
/// the first or of the second version.
pub enum SubscriberInfo<'a> {
    V1(RawExtrasSubscriberInfo<InfoV1<'a>>),
    V2(RawExtrasSubscriberInfo<InfoV2<'a>>),
}

/// What a `SubscriberInfo` holds.
pub enum SubscriberInfoView {
    V1(RawExtrasSubscriberInfo<InfoV1View>),
    V2(RawExtrasSubscriberInfo<InfoV2View>),
}

impl<'a> View for SubscriberInfo<'a> {
    type V = SubscriberInfoView;

    open spec fn view(&self) -> SubscriberInfoView {
        match self {
            SubscriberInfo::V1(info) => SubscriberInfoView::V1(info@),
            SubscriberInfo::V2(info) => SubscriberInfoView::V2(info@),
        }
    }
}

impl SubscriberInfoView {
    /// The version of the subscriber info, which says how far into the
    /// buffer it reaches.
    pub open spec fn version(self) -> u32 {
        match self {
            SubscriberInfoView::V1(_) => 1,
            SubscriberInfoView::V2(_) => 2,
        }
    }

    /// The header that is written.
    pub open spec fn header(self) -> RawExtrasSubscriberInfoHeader {
        match self {
            SubscriberInfoView::V1(info) => info.header,
            SubscriberInfoView::V2(info) => info.header,
        }
    }

    /// The fields of the first version, which every version has.
    pub open spec fn v1(self) -> InfoV1View {
        match self {
            SubscriberInfoView::V1(info) => info.content,
            SubscriberInfoView::V2(info) => info.content.v1,
        }
    }
}

/// The header that is written for a version: the version, and the unused
/// word as it was in the buffer.
pub open spec fn header_for(
    version: u32,
    sub: RawExtrasSubscriberInfoHeader,
) -> RawExtrasSubscriberInfoHeader {
    RawExtrasSubscriberInfoHeader { info_version: version, _unused1: sub._unused1 }
}

/// The fields of the first version that are written: the name of the
/// plugin and its squad update callback. The plugin subscribes to neither
/// language nor key bind changes.
pub open spec fn info_v1_for(name: Seq<u8>, squad_cb: Option<Callback>) -> InfoV1View {
    InfoV1View {
        subscriber_name: Some(name),
        squad_update_callback: squad_cb,
        language_changed_callback: None,
        key_bind_changed_callback: None,
    }
}

/// What is written into the buffer, if anything: the subscriber info of
/// the negotiated version. The chat message callback is written with the
/// second version only.
pub open spec fn subscriber_info_for(
    api_version: u32,
    max_info_version: u32,
    sub: RawExtrasSubscriberInfoHeader,
    name: Seq<u8>,
    squad_cb: Option<Callback>,
    chat_cb: Option<Callback>,
) -> Option<SubscriberInfoView> {
    match negotiated_version(api_version, max_info_version) {
        None => None,
        Some(version) => if version == 1 {
            Some(
                SubscriberInfoView::V1(
                    RawExtrasSubscriberInfo {
                        header: header_for(1, sub),
                        content: info_v1_for(name, squad_cb),
                    },
                ),
            )
        } else {
            Some(
                SubscriberInfoView::V2(
                    RawExtrasSubscriberInfo {
                        header: header_for(2, sub),
                        content: InfoV2View {
                            v1: info_v1_for(name, squad_cb),
                            chat_message_callback: chat_cb,
                        },
                    },
                ),
            )
        },
    }
}

/// Answers the extension. `sub` is the header as it stands in the buffer.
/// The result is what to write into the buffer; `None` says to leave the
/// buffer as it is. What is written is never of a higher version than the
/// extension knows, so it fits the buffer.
pub fn basic_init<'a>(
    addon: &RawExtrasAddonInfo,
    sub: &RawExtrasSubscriberInfoHeader,
    name: &'a str,
    squad_cb: Option<Callback>,
    chat_cb: Option<Callback>,
) -> (info: Option<SubscriberInfo<'a>>)
    ensures
        optional_subscriber_info(info) == subscriber_info_for(
            addon.api_version,
            addon.max_info_version,
            *sub,
            name.spec_bytes(),
            squad_cb,
            chat_cb,
        ),
        info matches Some(info) ==> info@.version() <= addon.max_info_version
            && info@.header().info_version == info@.version(),
{
    match negotiate(addon.api_version, addon.max_info_version) {
        None => None,
        Some(version) => {
            let v1 = InfoV1 {
                subscriber_name: Some(name.as_bytes()),
                squad_update_callback: squad_cb,
                language_changed_callback: None,
                key_bind_changed_callback: None,
            };
            let header = RawExtrasSubscriberInfoHeader {
                info_version: version,
                _unused1: sub._unused1,
            };
            if version == 1 {
                Some(SubscriberInfo::V1(RawExtrasSubscriberInfo { header, content: v1 }))
            } else {
                Some(
                    SubscriberInfo::V2(
                        RawExtrasSubscriberInfo {
                            header,
                            content: InfoV2 { v1, chat_message_callback: chat_cb },
                        },
                    ),
                )
            }
        },
    }
}

/// What an optional `SubscriberInfo` holds.
pub open spec fn optional_subscriber_info(info: Option<SubscriberInfo>) -> Option<
    SubscriberInfoView,
> {
    match info {
        Some(info) => Some(info@),
        None => None,
    }
}

/// The body of the adapter that answers the extension for a plugin with an
/// init callback. Where a version is negotiated, the subscriber info is
/// first handed to `write`, which puts it into the buffer, and then the
/// plugin is called with the account name of the player, without one
/// leading `':'`, and with the version string of the extension. Where none
/// is negotiated, nothing is written and the plugin is not called: neither
/// `write` nor the plugin need take anything then.
pub fn abstract_extras_init<'a, 'b, W, F>(
    addon: &RawExtrasAddonInfo<'b>,
    sub: &RawExtrasSubscriberInfoHeader,
    name: &'a str,
    squad_cb: Option<Callback>,
    chat_cb: Option<Callback>,
    write: W,
    safe: F,
) -> (subscribed: bool) where
    W: FnOnce(SubscriberInfo<'a>),
    F: FnOnce(Option<&'b str>, Option<&'b str>),

    requires
        forall|info: SubscriberInfo<'a>|
            Some(info@) == subscriber_info_for(
                addon.api_version,
                addon.max_info_version,
                *sub,
                name.spec_bytes(),
                squad_cb,
                chat_cb,
            ) ==> call_requires(write, (info,)),
        negotiated_version(addon.api_version, addon.max_info_version) is Some ==> forall|
            user: Option<&'b str>,
            version: Option<&'b str>,
        |
            optional_text(user) == account_name_of_raw(optional_bytes(addon.self_account_name))
                && optional_text(version) == c_str_text(optional_bytes(addon.string_version))
                ==> call_requires(safe, (user, version)),
    ensures
        subscribed <==> negotiated_version(addon.api_version, addon.max_info_version) is Some,
        subscribed ==> exists|info: SubscriberInfo<'a>|
            Some(info@) == subscriber_info_for(
                addon.api_version,
                addon.max_info_version,
                *sub,
                name.spec_bytes(),
                squad_cb,
                chat_cb,
            ) && call_ensures(write, (info,), ()),
        subscribed ==> exists|user: Option<&'b str>, version: Option<&'b str>|
            optional_text(user) == account_name_of_raw(optional_bytes(addon.self_account_name))
                && optional_text(version) == c_str_text(optional_bytes(addon.string_version))
                && call_ensures(safe, (user, version), ()),
{
    match basic_init(addon, sub, name, squad_cb, chat_cb) {
        Some(info) => {
            let ghost written = info;
            write(info);
            assert(Some(written@) == subscriber_info_for(
                addon.api_version,
                addon.max_info_version,
                *sub,
                name.spec_bytes(),
                squad_cb,
                chat_cb,
            ) && call_ensures(write, (written,), ()));
            let user = get_account_name(addon.self_account_name);
            let version = get_str_from_pc_char(addon.string_version);
            safe(user, version);
            assert(optional_text(user) == account_name_of_raw(
                optional_bytes(addon.self_account_name),
            ) && optional_text(version) == c_str_text(optional_bytes(addon.string_version))
                && call_ensures(safe, (user, version), ()));
            true
        },
        None => false,
    }
}

/// What is written fits the buffer and says what it is. Something is
/// written exactly where the API is the one this handshake is written for
/// and the extension knows a version at all. Its version is then one that
/// the extension knows, the header states that version, the chat message
/// callback is written with the second version only, and the unused word
/// of the header stays as it was.
pub proof fn lemma_subscriber_info_fits(
    api_version: u32,
    max_info_version: u32,
    sub: RawExtrasSubscriberInfoHeader,
    name: Seq<u8>,
    squad_cb: Option<Callback>,
    chat_cb: Option<Callback>,
)
    ensures
        ({
            let written = subscriber_info_for(
                api_version,
                max_info_version,
                sub,
                name,
                squad_cb,
                chat_cb,
            );
            &&& written is Some <==> api_version == API_VERSION && max_info_version >= 1
            &&& written matches Some(info) ==> {
                &&& info.version() <= max_info_version
                &&& info.header().info_version == info.version()
                &&& info.header()._unused1 == sub._unused1
                &&& info.v1() == info_v1_for(name, squad_cb)
                &&& info is V1 <==> max_info_version == 1
                &&& info matches SubscriberInfoView::V2(v2) ==> v2.content.chat_message_callback
                    == chat_cb
            }
        }),
{
}

} // verus!
