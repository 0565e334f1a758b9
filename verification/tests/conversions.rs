use arcdps::helpers::{
    convert_extras_chat_message2, convert_extras_npc_chat_message,
    convert_extras_squad_chat_message, convert_extras_user, convert_extras_users,
    get_combat_args_from_raw, is_broadcast, squad_message_with_timestamp,
    try_convert_extras_chat_message2, try_convert_extras_squad_chat_message, UserInfoIter,
};
use arcdps::raw_structs::{Agent, CombatEvent, RawAgent};
use arcdps::timestamp::Timestamp;
use arcdps::unofficial_extras::raw_structs::{
    ChannelType, ChatMessageInfo2, ChatMessageType, RawChatMessageInfo2, RawNpcMessageInfo,
    RawSquadMessageInfo, RawUserInfo, UserInfoOwned, UserRole,
};

fn raw_user(name: Option<&'static [u8]>, join_time: u64) -> RawUserInfo<'static> {
    RawUserInfo {
        account_name: name,
        join_time,
        role: UserRole::Member,
        subgroup: 3,
        ready_status: true,
    }
}

fn raw_squad_message(is_broadcast: u8) -> RawSquadMessageInfo<'static> {
    RawSquadMessageInfo {
        channel_id: 77,
        channel_type: ChannelType::Squad,
        subgroup: 2,
        is_broadcast,
        timestamp: b"2022-07-09T11:45:24.888Z\0",
        timestamp_length: 24,
        account_name: b":Sender.4321\0",
        account_name_length: 12,
        character_name: b"Some Character\0",
        character_name_length: 14,
        text: b"hello squad\0",
        text_length: 11,
    }
}

fn event() -> CombatEvent {
    CombatEvent {
        time: 1,
        src_agent: 2,
        dst_agent: 3,
        value: -4,
        buff_dmg: 5,
        overstack_value: 6,
        skill_id: 7,
        src_instid: 8,
        dst_instid: 9,
        src_master_instid: 10,
        dst_master_instid: 11,
        iff: 12,
        buff: 13,
        result: 14,
        is_activation: 15,
        is_buff_remove: 16,
        is_ninety: 17,
        is_fifty: 18,
        is_moving: 19,
        is_statechange: 20,
        is_flanking: 21,
        is_shields: 22,
        is_off_cycle: 23,
        pad61: 24,
        pad62: 25,
        pad63: 26,
        pad64: 27,
    }
}

#[test]
fn user_loses_exactly_one_leading_colon() {
    let user = convert_extras_user(&raw_user(Some(b":Account.1234"), 1_600_000_000));
    assert_eq!(user.account_name, Some("Account.1234"));
    assert_eq!(user.join_time, 1_600_000_000);
    assert_eq!(user.role, UserRole::Member);
    assert_eq!(user.subgroup, 3);
    assert!(user.ready_status);

    let user = convert_extras_user(&raw_user(Some(b"::Account.1234"), 0));
    assert_eq!(user.account_name, Some(":Account.1234"));
}

#[test]
fn user_without_name_has_none() {
    let user = convert_extras_user(&raw_user(None, 5));
    assert_eq!(user.account_name, None);
    assert_eq!(user.join_time, 5);
}

#[test]
fn user_name_without_colon_is_kept() {
    let user = convert_extras_user(&raw_user(Some(b"Account.1234"), 0));
    assert_eq!(user.account_name, Some("Account.1234"));
}

#[test]
fn user_can_be_kept_after_the_call() {
    let owned: UserInfoOwned = {
        let name = String::from(":Kept.9999");
        let raw = RawUserInfo {
            account_name: Some(name.as_bytes()),
            join_time: 12,
            role: UserRole::SquadLeader,
            subgroup: 1,
            ready_status: false,
        };
        convert_extras_user(&raw).into()
    };
    assert_eq!(owned.account_name.as_deref(), Some("Kept.9999"));
    assert_eq!(owned.join_time, 12);
    assert_eq!(owned.role, UserRole::SquadLeader);
    assert_eq!(owned.subgroup, 1);
    assert!(!owned.ready_status);

    let raw = raw_user(Some(b":Other.1"), 1);
    let owned = convert_extras_user(&raw).to_owned();
    assert_eq!(owned.account_name.as_deref(), Some("Other.1"));
}

#[test]
fn no_raw_users_give_no_users() {
    assert!(convert_extras_users(&[]).is_empty());
    let mut iter = UserInfoIter::new(&[]);
    assert_eq!(iter.len(), 0);
    assert!(iter.next().is_none());
    assert!(iter.next().is_none());
}

#[test]
fn raw_users_are_read_one_for_one_in_order() {
    let raw = [
        raw_user(Some(b":First.1"), 1),
        raw_user(None, 2),
        raw_user(Some(b":Third.3"), 3),
    ];
    let users = convert_extras_users(&raw);
    assert_eq!(users.len(), 3);
    assert_eq!(users[0].account_name, Some("First.1"));
    assert_eq!(users[1].account_name, None);
    assert_eq!(users[2].account_name, Some("Third.3"));
    assert_eq!(users.iter().map(|u| u.join_time).collect::<Vec<_>>(), vec![1, 2, 3]);

    let mut iter = UserInfoIter::new(&raw);
    assert_eq!(iter.len(), 3);
    assert_eq!(iter.next().unwrap().account_name, Some("First.1"));
    assert_eq!(iter.len(), 2);
    assert_eq!(iter.next().unwrap().join_time, 2);
    assert_eq!(iter.next().unwrap().account_name, Some("Third.3"));
    assert_eq!(iter.len(), 0);
    assert!(iter.next().is_none());
}

#[test]
fn only_the_lowest_bit_of_the_broadcast_byte_counts() {
    assert!(is_broadcast(0x03));
    assert!(!is_broadcast(0x02));
    assert!(is_broadcast(0x01));
    assert!(!is_broadcast(0x00));
    assert!(is_broadcast(0xFF));
    assert!(!is_broadcast(0xFE));
    assert!(convert_extras_squad_chat_message(&raw_squad_message(0x03)).unwrap().is_broadcast);
    assert!(!convert_extras_squad_chat_message(&raw_squad_message(0x02)).unwrap().is_broadcast);
}

#[test]
fn squad_message_is_read() {
    let msg = convert_extras_squad_chat_message(&raw_squad_message(0)).unwrap();
    assert_eq!(msg.channel_id, 77);
    assert_eq!(msg.channel_type, ChannelType::Squad);
    assert_eq!(msg.subgroup, 2);
    assert!(!msg.is_broadcast);
    assert_eq!(msg.timestamp, Timestamp { secs: 1657367124, nanos: 888_000_000, offset_secs: 0 });
    assert_eq!(msg.account_name, "Sender.4321");
    assert_eq!(msg.character_name, "Some Character");
    assert_eq!(msg.text, "hello squad");
}

#[test]
fn squad_message_keeps_the_offset_of_its_time() {
    let mut raw = raw_squad_message(1);
    raw.timestamp = b"2022-07-09T13:45:24+02:00";
    raw.timestamp_length = 25;
    let msg = convert_extras_squad_chat_message(&raw).unwrap();
    assert_eq!(msg.timestamp, Timestamp { secs: 1657367124, nanos: 0, offset_secs: 7200 });
}

#[test]
fn squad_message_takes_the_time_it_is_given() {
    let when = Timestamp { secs: 1, nanos: 2, offset_secs: 3 };
    let msg = squad_message_with_timestamp(&raw_squad_message(1), when);
    assert_eq!(msg.timestamp, when);
    assert_eq!(msg.account_name, "Sender.4321");
    assert!(msg.is_broadcast);
}

#[test]
fn squad_message_without_a_time_gives_none_and_no_panic() {
    let mut raw = raw_squad_message(0);
    raw.timestamp = b"";
    raw.timestamp_length = 0;
    assert!(convert_extras_squad_chat_message(&raw).is_none());
    let mut raw = raw_squad_message(0);
    raw.timestamp = b"2022-07-09 11:45:24";
    raw.timestamp_length = 19;
    assert!(convert_extras_squad_chat_message(&raw).is_none());
    let mut raw = raw_squad_message(0);
    raw.timestamp = &[0xFF, 0xFE];
    raw.timestamp_length = 2;
    assert!(convert_extras_squad_chat_message(&raw).is_none());
}

#[test]
fn tagged_squad_message_without_a_time_gives_none() {
    let mut raw = raw_squad_message(0);
    raw.timestamp = b"";
    raw.timestamp_length = 0;
    assert!(convert_extras_chat_message2(ChatMessageType::Squad, RawChatMessageInfo2::Squad(&raw))
        .is_none());
}

#[test]
fn npc_message_from_the_far_future_is_read() {
    let raw = RawNpcMessageInfo {
        character_name: b"Npc",
        character_name_length: 3,
        message: b"Hi",
        message_length: 2,
        timestamp: 1u64 << 63,
    };
    let msg = convert_extras_npc_chat_message(&raw);
    assert_eq!(
        msg.timestamp,
        Timestamp { secs: 9_223_372_036, nanos: 854_775_808, offset_secs: 0 }
    );
}

#[test]
fn squad_message_with_unreadable_time_is_refused() {
    let mut raw = raw_squad_message(0);
    raw.timestamp = b"not a time";
    raw.timestamp_length = 10;
    assert!(try_convert_extras_squad_chat_message(&raw).is_none());
    // cutting the time short makes it unreadable too
    let mut raw = raw_squad_message(0);
    raw.timestamp_length = 10;
    assert!(try_convert_extras_squad_chat_message(&raw).is_none());
}

#[test]
fn squad_message_with_overlong_length_is_refused() {
    let mut raw = raw_squad_message(0);
    raw.text_length = 13;
    assert!(!raw.is_wf());
    assert!(try_convert_extras_squad_chat_message(&raw).is_none());
    let mut raw = raw_squad_message(0);
    raw.timestamp_length = u64::MAX;
    assert!(try_convert_extras_squad_chat_message(&raw).is_none());
}

#[test]
fn readable_squad_message_is_not_refused() {
    let raw = raw_squad_message(1);
    assert!(raw.is_wf());
    let msg = try_convert_extras_squad_chat_message(&raw).unwrap();
    assert_eq!(msg.text, "hello squad");
    assert_eq!(msg.timestamp.secs, 1657367124);
}

#[test]
fn npc_message_is_read() {
    let raw = RawNpcMessageInfo {
        character_name: b"Scholar Glenna\0",
        character_name_length: 14,
        message: b"Ready? Set? Go!\0",
        message_length: 15,
        timestamp: 1_662_921_288_123_456_789,
    };
    assert!(raw.is_wf());
    let msg = convert_extras_npc_chat_message(&raw);
    assert_eq!(msg.character_name, "Scholar Glenna");
    assert_eq!(msg.message, "Ready? Set? Go!");
    assert_eq!(
        msg.timestamp,
        Timestamp { secs: 1_662_921_288, nanos: 123_456_789, offset_secs: 0 }
    );
}

#[test]
fn tagged_message_is_read_through_the_arm_of_its_tag() {
    let squad = raw_squad_message(1);
    match convert_extras_chat_message2(ChatMessageType::Squad, RawChatMessageInfo2::Squad(&squad))
    {
        Some(ChatMessageInfo2::Squad(msg)) => {
            assert_eq!(msg.account_name, "Sender.4321");
            assert!(msg.is_broadcast);
        },
        other => panic!("read as {:?}", other),
    }
    let npc = RawNpcMessageInfo {
        character_name: b"Npc",
        character_name_length: 3,
        message: b"Hi",
        message_length: 2,
        timestamp: 5,
    };
    match convert_extras_chat_message2(ChatMessageType::NPC, RawChatMessageInfo2::Npc(&npc)) {
        Some(ChatMessageInfo2::Npc(msg)) => {
            assert_eq!(msg.character_name, "Npc");
            assert_eq!(msg.message, "Hi");
            assert_eq!(msg.timestamp, Timestamp { secs: 0, nanos: 5, offset_secs: 0 });
        },
        other => panic!("read as {:?}", other),
    }
}

#[test]
fn tagged_message_with_the_wrong_tag_is_refused() {
    let squad = raw_squad_message(1);
    assert!(try_convert_extras_chat_message2(
        ChatMessageType::NPC,
        RawChatMessageInfo2::Squad(&squad)
    )
    .is_none());
    let npc = RawNpcMessageInfo {
        character_name: b"Npc",
        character_name_length: 3,
        message: b"Hi",
        message_length: 2,
        timestamp: 5,
    };
    assert!(try_convert_extras_chat_message2(ChatMessageType::Squad, RawChatMessageInfo2::Npc(&npc))
        .is_none());
    assert!(try_convert_extras_chat_message2(ChatMessageType::NPC, RawChatMessageInfo2::Npc(&npc))
        .is_some());
    let overlong = RawNpcMessageInfo { message_length: 3, ..npc };
    assert!(try_convert_extras_chat_message2(
        ChatMessageType::NPC,
        RawChatMessageInfo2::Npc(&overlong)
    )
    .is_none());
}

#[test]
fn combat_arguments_are_read() {
    let ev = event();
    let src = RawAgent { name: Some(b"Source"), id: 1, prof: 2, elite: 3, self_: 1, team: 4 };
    let dst = RawAgent { name: None, id: 5, prof: 6, elite: 7, self_: 0, team: 8 };
    let args = get_combat_args_from_raw(Some(&ev), Some(&src), Some(&dst), Some(b"Fireball"));
    assert_eq!(args.ev, Some(&ev));
    let read_src = args.src.unwrap();
    assert_eq!(read_src.name, Some("Source"));
    assert_eq!((read_src.id, read_src.prof, read_src.elite, read_src.self_, read_src.team), (1, 2, 3, 1, 4));
    let read_dst = args.dst.unwrap();
    assert_eq!(read_dst.name, None);
    assert_eq!((read_dst.id, read_dst.prof, read_dst.elite, read_dst.self_, read_dst.team), (5, 6, 7, 0, 8));
    assert_eq!(args.skill_name, Some("Fireball"));
}

#[test]
fn absent_combat_arguments_stay_absent() {
    let args = get_combat_args_from_raw(None, None, None, None);
    assert!(args.ev.is_none());
    assert!(args.src.is_none());
    assert!(args.dst.is_none());
    assert!(args.skill_name.is_none());
}

#[test]
fn agent_with_malformed_name_has_empty_name() {
    let raw = RawAgent { name: Some(&[0xFF, 0xFE]), id: 1, prof: 0, elite: 0, self_: 0, team: 0 };
    assert_eq!(Agent::from_raw(&raw).name, Some(""));
}
