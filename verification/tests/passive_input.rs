use codex_overlay::passive_input::{
    key_action, keycode_text, remote_scroll_action, KeyAction, PassiveInputState, COMMAND_FLAG,
    OPTION_FLAG, SHIFT_FLAG,
};

#[test]
fn maps_us_keycodes_without_platform_text_apis() {
    assert_eq!(keycode_text(0, false), Some("a"));
    assert_eq!(keycode_text(0, true), Some("A"));
    assert_eq!(keycode_text(18, true), Some("!"));
    assert_eq!(keycode_text(76, false), None);
}

#[test]
fn maps_precise_and_page_remote_scroll_shortcuts() {
    assert_eq!(remote_scroll_action(126, OPTION_FLAG), Some("step_up"));
    assert_eq!(remote_scroll_action(125, OPTION_FLAG), Some("step_down"));
    assert_eq!(
        remote_scroll_action(126, OPTION_FLAG | SHIFT_FLAG),
        Some("page_up")
    );
    assert_eq!(
        remote_scroll_action(125, OPTION_FLAG | SHIFT_FLAG),
        Some("page_down")
    );
    assert_eq!(
        remote_scroll_action(125, OPTION_FLAG | COMMAND_FLAG),
        Some("jump_bottom")
    );
    assert_eq!(remote_scroll_action(49, OPTION_FLAG), Some("toggle_follow"));
    assert_eq!(remote_scroll_action(125, 0), None);
}

#[test]
fn shifted_keys_and_special_keys_map_to_text() {
    assert_eq!(keycode_text(39, false), Some("'"));
    assert_eq!(keycode_text(39, true), Some("\""));
    assert_eq!(keycode_text(42, false), Some("\\"));
    assert_eq!(keycode_text(48, true), Some("\t"));
    assert_eq!(keycode_text(49, false), Some(" "));
    assert_eq!(keycode_text(10, false), None);
    assert_eq!(keycode_text(36, false), None);
}

#[test]
fn option_shortcuts_work_while_capture_is_off() {
    assert_eq!(
        key_action(126, OPTION_FLAG, false),
        KeyAction::RemoteScroll("step_up")
    );
    assert_eq!(
        key_action(31, OPTION_FLAG | COMMAND_FLAG, false),
        KeyAction::ShowWindow
    );
    assert_eq!(key_action(53, OPTION_FLAG, false), KeyAction::StopCapture);
    assert_eq!(key_action(0, 0, false), KeyAction::Pass);
    assert_eq!(key_action(36, 0, false), KeyAction::Pass);
}

#[test]
fn active_capture_types_submits_and_erases() {
    assert_eq!(key_action(36, 0, true), KeyAction::Submit);
    assert_eq!(key_action(76, 0, true), KeyAction::Submit);
    assert_eq!(key_action(1, OPTION_FLAG, true), KeyAction::Screenshot);
    assert_eq!(key_action(51, 0, true), KeyAction::Backspace);
    assert_eq!(key_action(56, 0, true), KeyAction::Pass);
    assert_eq!(key_action(0, SHIFT_FLAG, true), KeyAction::Text("A"));
    assert_eq!(key_action(1, 0, true), KeyAction::Text("s"));
    assert_eq!(key_action(31, OPTION_FLAG, true), KeyAction::Text("o"));
    assert_eq!(key_action(120, 0, true), KeyAction::Pass);
}

#[test]
fn passive_capture_setting_round_trips() {
    let mut state = PassiveInputState::default();
    assert!(!state.get_passive_capture());
    assert!(state.set_passive_capture(true));
    assert!(state.get_passive_capture());
    assert!(!state.get_passive_input_ready());
    state.set_ready(true);
    assert!(state.get_passive_input_ready());
    assert!(!state.set_passive_capture(false));
    assert!(!state.get_passive_capture());
}

#[test]
fn each_key_types_one_distinct_ascii_character() {
    let mut seen = Vec::new();
    for keycode in 0..=u16::MAX {
        if let Some(plain) = keycode_text(keycode, false) {
            let shifted = keycode_text(keycode, true).unwrap();
            assert_eq!(plain.chars().count(), 1);
            assert_eq!(shifted.chars().count(), 1);
            assert!(plain.is_ascii() && shifted.is_ascii());
            if plain.chars().all(|c| c.is_ascii_lowercase()) {
                assert_eq!(shifted, plain.to_ascii_uppercase());
            }
            assert!(!seen.contains(&plain), "{plain} typed twice");
            seen.push(plain);
        }
    }
    assert_eq!(seen.len(), 48);
    assert_eq!(keycode_text(49, true), keycode_text(49, false));
}
