use arcdps::raw_structs::Callback;
use arcdps::unofficial_extras::raw_structs::{
    InfoV1, InfoV2, InfoV3, RawExtrasAddonInfo, RawExtrasSubscriberInfo,
    RawExtrasSubscriberInfoHeader,
};
use arcdps::unofficial_extras::subscribe::{
    abstract_extras_init, basic_init, negotiate, SubscriberInfo, API_VERSION,
};

fn squad() -> Option<Callback> {
    Callback::new(0x1000)
}

fn chat() -> Option<Callback> {
    Callback::new(0x2000)
}
const SUPPLIED: RawExtrasSubscriberInfoHeader =
    RawExtrasSubscriberInfoHeader { info_version: 0xAAAA_AAAA, _unused1: 0x5555_5555 };

fn addon(api_version: u32, max_info_version: u32) -> RawExtrasAddonInfo<'static> {
    RawExtrasAddonInfo {
        api_version,
        max_info_version,
        string_version: Some(b"1.10.2.1"),
        self_account_name: Some(b":Player.1234"),
        extras_handle: 0x7000,
    }
}

#[test]
fn the_api_version_is_two() {
    assert_eq!(API_VERSION, 2);
}

#[test]
fn versions_are_negotiated() {
    assert_eq!(negotiate(2, 0), None);
    assert_eq!(negotiate(2, 1), Some(1));
    assert_eq!(negotiate(2, 2), Some(2));
    assert_eq!(negotiate(2, 3), Some(2));
    assert_eq!(negotiate(2, u32::MAX), Some(2));
    assert_eq!(negotiate(1, 2), None);
    assert_eq!(negotiate(3, 2), None);
    assert_eq!(negotiate(0, 0), None);
}

#[test]
fn host_that_knows_version_one_gets_version_one_only() {
    match basic_init(&addon(2, 1), &SUPPLIED, "plugin", squad(), chat()) {
        Some(SubscriberInfo::V1(info)) => {
            assert_eq!(info.header.info_version, 1);
            assert_eq!(info.header._unused1, 0x5555_5555);
            assert_eq!(info.content.subscriber_name, Some(&b"plugin"[..]));
            assert_eq!(info.content.squad_update_callback, squad());
            assert_eq!(info.content.language_changed_callback, None);
            assert_eq!(info.content.key_bind_changed_callback, None);
        },
        _ => panic!("no version 1 info"),
    }
}

#[test]
fn host_that_knows_version_two_gets_the_chat_callback() {
    for max_info_version in [2, 3, 100] {
        match basic_init(&addon(2, max_info_version), &SUPPLIED, "plugin", squad(), chat()) {
            Some(SubscriberInfo::V2(info)) => {
                assert_eq!(info.header.info_version, 2);
                assert_eq!(info.header._unused1, 0x5555_5555);
                assert_eq!(info.content.v1.subscriber_name, Some(&b"plugin"[..]));
                assert_eq!(info.content.v1.squad_update_callback, squad());
                assert_eq!(info.content.v1.language_changed_callback, None);
                assert_eq!(info.content.v1.key_bind_changed_callback, None);
                assert_eq!(info.content.chat_message_callback, chat());
            },
            _ => panic!("no version 2 info"),
        }
    }
}

#[test]
fn absent_callbacks_are_written_as_null() {
    match basic_init(&addon(2, 2), &SUPPLIED, "plugin", None, None) {
        Some(SubscriberInfo::V2(info)) => {
            assert_eq!(info.content.v1.squad_update_callback, None);
            assert_eq!(info.content.chat_message_callback, None);
        },
        _ => panic!("no version 2 info"),
    }
}

#[test]
fn other_api_version_leaves_the_buffer_untouched() {
    for api_version in [0, 1, 3, u32::MAX] {
        for max_info_version in [0, 1, 2, 3] {
            assert!(basic_init(&addon(api_version, max_info_version), &SUPPLIED, "plugin", squad(), chat())
                .is_none());
            assert!(basic_init(&addon(api_version, max_info_version), &SUPPLIED, "plugin", None, None)
                .is_none());
        }
    }
}

#[test]
fn host_that_knows_no_version_leaves_the_buffer_untouched() {
    assert!(basic_init(&addon(2, 0), &SUPPLIED, "plugin", squad(), chat()).is_none());
}

#[test]
fn init_callback_gets_account_name_and_version() {
    let mut seen = None;
    let mut written = None;
    let subscribed = abstract_extras_init(
        &addon(2, 2),
        &SUPPLIED,
        "plugin",
        squad(),
        chat(),
        |info| written = Some(info),
        |user, version| seen = Some((user, version)),
    );
    assert!(subscribed);
    match written {
        Some(SubscriberInfo::V2(info)) => {
            assert_eq!(info.header.info_version, 2);
            assert_eq!(info.content.v1.squad_update_callback, squad());
            assert_eq!(info.content.chat_message_callback, chat());
        },
        _ => panic!("no version 2 info was written"),
    }
    assert_eq!(seen, Some((Some("Player.1234"), Some("1.10.2.1"))));
}

#[test]
fn buffer_is_written_before_the_init_callback_runs() {
    let events = std::cell::RefCell::new(Vec::new());
    let subscribed = abstract_extras_init(
        &addon(2, 1),
        &SUPPLIED,
        "plugin",
        squad(),
        chat(),
        |info| {
            assert!(matches!(info, SubscriberInfo::V1(_)));
            events.borrow_mut().push("write");
        },
        |_, _| events.borrow_mut().push("init"),
    );
    assert!(subscribed);
    assert_eq!(*events.borrow(), vec!["write", "init"]);
}

#[test]
fn init_callback_gets_none_for_null_pointers() {
    let mut seen = None;
    let addon = RawExtrasAddonInfo {
        api_version: 2,
        max_info_version: 1,
        string_version: None,
        self_account_name: None,
        extras_handle: 0,
    };
    let subscribed = abstract_extras_init(
        &addon,
        &SUPPLIED,
        "plugin",
        squad(),
        chat(),
        |_| {},
        |user, version| seen = Some((user, version)),
    );
    assert!(subscribed);
    assert_eq!(seen, Some((None, None)));
}

#[test]
fn nothing_is_written_or_called_when_the_handshake_fails() {
    for (api_version, max_info_version) in [(1, 2), (3, 1), (2, 0), (0, 0)] {
        let subscribed = abstract_extras_init(
            &addon(api_version, max_info_version),
            &SUPPLIED,
            "plugin",
            squad(),
            chat(),
            |_| panic!("the buffer was written"),
            |_, _| panic!("the plugin was called"),
        );
        assert!(!subscribed);
    }
}

#[test]
fn later_versions_give_the_fields_of_earlier_ones() {
    let v1 = InfoV1 {
        subscriber_name: Some(b"plugin"),
        squad_update_callback: squad(),
        language_changed_callback: None,
        key_bind_changed_callback: None,
    };
    let v3 = InfoV3 {
        v2: InfoV2 { v1, chat_message_callback: chat() },
        chat_message_callback2: None,
    };
    let mut info = RawExtrasSubscriberInfo { header: SUPPLIED, content: v3 };
    assert_eq!(info.chat_message_callback2, None);
    assert_eq!(info.chat_message_callback, chat());
    assert_eq!(info.squad_update_callback, squad());
    assert_eq!(info.subscriber_name, Some(&b"plugin"[..]));
    info.squad_update_callback = None;
    info.chat_message_callback = None;
    info.chat_message_callback2 = chat();
    assert_eq!(info.content.v2.v1.squad_update_callback, None);
    assert_eq!(info.content.v2.chat_message_callback, None);
    assert_eq!(info.content.chat_message_callback2, chat());
    assert_eq!(info.header, SUPPLIED);
}

#[test]
fn null_pointer_is_no_callback() {
    assert_eq!(Callback::new(0), None);
    assert_eq!(Callback::new(0x1000).map(|callback| callback.addr()), Some(0x1000));
    assert_eq!(Callback::new(usize::MAX).map(|callback| callback.addr()), Some(usize::MAX));
}
