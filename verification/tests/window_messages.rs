use arcdps::adapters::{
    abstract_wnd, decode_key_message, KeyEvent, WM_KEYDOWN, WM_KEYUP, WM_SYSKEYDOWN, WM_SYSKEYUP,
};
use std::cell::Cell;

const PREVIOUS_DOWN: isize = 1 << 30;

#[test]
fn key_messages_have_the_numbers_of_the_host() {
    assert_eq!(WM_KEYDOWN, 0x0100);
    assert_eq!(WM_KEYUP, 0x0101);
    assert_eq!(WM_SYSKEYDOWN, 0x0104);
    assert_eq!(WM_SYSKEYUP, 0x0105);
}

#[test]
fn key_down_message_is_decoded() {
    let event = decode_key_message(WM_KEYDOWN, 0x41, 0);
    assert_eq!(event, Some(KeyEvent { key: 0x41, key_down: true, prev_key_down: false }));
}

#[test]
fn key_up_message_is_decoded() {
    let event = decode_key_message(WM_KEYUP, 0x41, PREVIOUS_DOWN | 1);
    assert_eq!(event, Some(KeyEvent { key: 0x41, key_down: false, prev_key_down: true }));
}

#[test]
fn system_key_messages_are_decoded() {
    assert_eq!(
        decode_key_message(WM_SYSKEYDOWN, 0x12, PREVIOUS_DOWN),
        Some(KeyEvent { key: 0x12, key_down: true, prev_key_down: true })
    );
    assert_eq!(
        decode_key_message(WM_SYSKEYUP, 0x12, 0),
        Some(KeyEvent { key: 0x12, key_down: false, prev_key_down: false })
    );
}

#[test]
fn bit_30_reports_previous_key_state_for_all_key_messages() {
    for msg in [WM_KEYDOWN, WM_KEYUP, WM_SYSKEYDOWN, WM_SYSKEYUP] {
        assert!(decode_key_message(msg, 1, PREVIOUS_DOWN).unwrap().prev_key_down);
        assert!(decode_key_message(msg, 1, -1).unwrap().prev_key_down);
        assert!(!decode_key_message(msg, 1, !PREVIOUS_DOWN).unwrap().prev_key_down);
        assert!(!decode_key_message(msg, 1, PREVIOUS_DOWN << 1).unwrap().prev_key_down);
        assert!(!decode_key_message(msg, 1, PREVIOUS_DOWN >> 1).unwrap().prev_key_down);
    }
}

#[test]
fn other_messages_are_not_decoded() {
    for msg in [0, 1, 0x00FF, 0x0102, 0x0103, 0x0106, 0x0200, u32::MAX] {
        assert_eq!(decode_key_message(msg, 0x41, PREVIOUS_DOWN), None);
    }
}

#[test]
fn other_messages_pass_without_asking_the_plugin() {
    for msg in [0, 0x0102, 0x0103, 0x0200, u32::MAX] {
        let reply = abstract_wnd(msg, 7, 9, |_, _, _| panic!("the plugin was asked"));
        assert_eq!(reply, msg);
    }
}

#[test]
fn key_message_passes_where_the_plugin_says_so() {
    let seen = Cell::new(None);
    let reply = abstract_wnd(WM_KEYDOWN, 0x41, PREVIOUS_DOWN, |key, down, prev| {
        seen.set(Some((key, down, prev)));
        true
    });
    assert_eq!(reply, WM_KEYDOWN);
    assert_eq!(seen.get(), Some((0x41, true, true)));
}

#[test]
fn key_message_is_swallowed_where_the_plugin_says_so() {
    let seen = Cell::new(None);
    let reply = abstract_wnd(WM_SYSKEYUP, 0x70, 0, |key, down, prev| {
        seen.set(Some((key, down, prev)));
        false
    });
    assert_eq!(reply, 0);
    assert_eq!(seen.get(), Some((0x70, false, false)));
}
