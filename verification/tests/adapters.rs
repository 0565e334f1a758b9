use arcdps::adapters::{
    abstract_combat, abstract_extras_chat_message, abstract_extras_chat_message2,
    abstract_extras_squad_update, abstract_imgui, abstract_options_end, abstract_options_windows,
};
use arcdps::raw_structs::RawAgent;
use arcdps::unofficial_extras::raw_structs::{
    ChannelType, ChatMessageInfo2, ChatMessageType, RawChatMessageInfo2, RawNpcMessageInfo,
    RawSquadMessageInfo, RawUserInfo, UserRole,
};
use std::cell::{Cell, RefCell};

struct Ui {
    id: u32,
}

fn party_message() -> RawSquadMessageInfo<'static> {
    RawSquadMessageInfo {
        channel_id: 1,
        channel_type: ChannelType::Party,
        subgroup: 0,
        is_broadcast: 0x03,
        timestamp: b"2022-07-09T11:45:24.888Z",
        timestamp_length: 24,
        account_name: b":Sender.4321",
        account_name_length: 12,
        character_name: b"Char",
        character_name_length: 4,
        text: b"hi",
        text_length: 2,
    }
}

#[test]
fn render_callback_is_told_whether_the_game_loads() {
    let ui = Ui { id: 9 };
    let seen = RefCell::new(Vec::new());
    abstract_imgui(Some(&ui), 0, |ui: &Ui, loading| seen.borrow_mut().push((ui.id, loading)));
    abstract_imgui(Some(&ui), 1, |ui: &Ui, loading| seen.borrow_mut().push((ui.id, loading)));
    abstract_imgui(Some(&ui), 7, |ui: &Ui, loading| seen.borrow_mut().push((ui.id, loading)));
    assert_eq!(*seen.borrow(), vec![(9, false), (9, true), (9, true)]);
}

#[test]
fn options_end_callback_gets_the_context() {
    let ui = Ui { id: 4 };
    let seen = Cell::new(0);
    abstract_options_end(Some(&ui), |ui: &Ui| seen.set(ui.id));
    assert_eq!(seen.get(), 4);
}

#[test]
fn options_windows_callback_gets_the_window_name() {
    let ui = Ui { id: 4 };
    let seen = RefCell::new(Vec::new());
    let shown = abstract_options_windows(Some(&ui), Some(b"squad"), |_: &Ui, name: Option<&str>| {
        seen.borrow_mut().push(name.map(str::to_owned));
        true
    });
    assert!(shown);
    let shown = abstract_options_windows(Some(&ui), None, |_: &Ui, name: Option<&str>| {
        seen.borrow_mut().push(name.map(str::to_owned));
        false
    });
    assert!(!shown);
    assert_eq!(*seen.borrow(), vec![Some("squad".to_owned()), None]);
}

#[test]
fn combat_callback_gets_the_read_arguments() {
    let src = RawAgent { name: Some(b"Source"), id: 1, prof: 2, elite: 3, self_: 1, team: 4 };
    let seen = RefCell::new(None);
    abstract_combat(None, Some(&src), None, Some(b"Skill"), 11, 22, |ev, src, dst, skill, id, rev| {
        *seen.borrow_mut() = Some((
            ev.is_none(),
            src.and_then(|a| a.name).map(str::to_owned),
            dst.is_none(),
            skill,
            id,
            rev,
        ));
    });
    assert_eq!(
        seen.into_inner(),
        Some((true, Some("Source".to_owned()), true, Some("Skill"), 11, 22))
    );
}

#[test]
fn squad_update_callback_gets_every_user_in_order() {
    let raw = [
        RawUserInfo {
            account_name: Some(b":A.1"),
            join_time: 1,
            role: UserRole::SquadLeader,
            subgroup: 1,
            ready_status: false,
        },
        RawUserInfo {
            account_name: Some(b":B.2"),
            join_time: 2,
            role: UserRole::NoRole,
            subgroup: 0,
            ready_status: true,
        },
    ];
    let mut names = Vec::new();
    abstract_extras_squad_update(&raw, |mut users| {
        while let Some(user) = users.next() {
            names.push((user.account_name.map(str::to_owned), user.role));
        }
    });
    assert_eq!(
        names,
        vec![
            (Some("A.1".to_owned()), UserRole::SquadLeader),
            (Some("B.2".to_owned()), UserRole::NoRole)
        ]
    );
}

#[test]
fn squad_update_callback_gets_no_user_of_an_empty_update() {
    let mut count = None;
    abstract_extras_squad_update(&[], |users| count = Some(users.len()));
    assert_eq!(count, Some(0));
}

#[test]
fn chat_message_callback_gets_the_read_message() {
    let mut seen = None;
    let called = abstract_extras_chat_message(&party_message(), |msg| {
        seen = Some((msg.account_name.to_owned(), msg.is_broadcast, msg.timestamp.secs));
    });
    assert!(called);
    assert_eq!(seen, Some(("Sender.4321".to_owned(), true, 1657367124)));
}

#[test]
fn chat_message_callback_is_not_called_for_an_unreadable_message() {
    let mut raw = party_message();
    raw.timestamp = b"2022-07-09";
    raw.timestamp_length = 10;
    let called = abstract_extras_chat_message(&raw, |_| panic!("the plugin was called"));
    assert!(!called);
}

#[test]
fn tagged_chat_message_callback_gets_the_arm_of_the_tag() {
    let npc = RawNpcMessageInfo {
        character_name: b"Npc",
        character_name_length: 3,
        message: b"Hello there",
        message_length: 5,
        timestamp: 2_000_000_001,
    };
    let mut seen = None;
    let called = abstract_extras_chat_message2(
        ChatMessageType::NPC,
        RawChatMessageInfo2::Npc(&npc),
        |msg| {
            if let ChatMessageInfo2::Npc(msg) = msg {
                seen = Some((msg.message.to_owned(), msg.timestamp.secs, msg.timestamp.nanos));
            }
        },
    );
    assert!(called);
    assert_eq!(seen, Some(("Hello".to_owned(), 2, 1)));

    let called = abstract_extras_chat_message2(
        ChatMessageType::Squad,
        RawChatMessageInfo2::Npc(&npc),
        |_| panic!("the plugin was called"),
    );
    assert!(!called);
}
