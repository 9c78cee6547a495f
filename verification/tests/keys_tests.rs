use fcitx5_ui_rs::candidates::{Candidate, UpdateType};
use fcitx5_ui_rs::keys::{
    classify_key, forwarded_key_name, is_handled_key, modifier_prefix, KeyAction, KeyChord,
    OriginalKeymap, SpecialKey, KEY_DELETE, KEY_LEFT, KEY_RIGHT, KEY_TAB, STATE_ALT, STATE_CTRL,
    STATE_NONE, STATE_SHIFT,
};
use fcitx5_ui_rs::state::IMWindowState;

fn composing_state() -> IMWindowState {
    let mut state = IMWindowState::new();
    state.update_candidates(&[Candidate::new("1", "\u{4f60}")]);
    state.set_preedit("ni hao", 6);
    state.is_visible = true;
    state
}

fn passthrough(state: u32, keyval: u32) -> Option<SpecialKey> {
    Some(SpecialKey::Passthrough(KeyChord { state, keyval }))
}

#[test]
fn key_names_are_classified() {
    assert_eq!(classify_key("<cr>"), Some(SpecialKey::Confirm));
    assert_eq!(classify_key("<esc>"), Some(SpecialKey::Cancel));
    assert_eq!(classify_key("<bs>"), passthrough(STATE_NONE, KEY_DELETE));
    assert_eq!(classify_key("<c-w>"), passthrough(STATE_CTRL, KEY_DELETE));
    assert_eq!(classify_key("\u{8}"), passthrough(STATE_CTRL, KEY_DELETE));
    assert_eq!(classify_key("<left>"), passthrough(STATE_NONE, KEY_LEFT));
    assert_eq!(classify_key("<right>"), passthrough(STATE_NONE, KEY_RIGHT));
    assert_eq!(classify_key("<c-left>"), passthrough(STATE_CTRL, KEY_LEFT));
    assert_eq!(classify_key("<c-right>"), passthrough(STATE_CTRL, KEY_RIGHT));
    assert_eq!(classify_key("<tab>"), passthrough(STATE_NONE, KEY_TAB));
    assert_eq!(classify_key("<s-tab>"), passthrough(STATE_SHIFT, KEY_TAB));
}

#[test]
fn key_constants_have_protocol_values() {
    assert_eq!(STATE_NONE, 0);
    assert_eq!(STATE_SHIFT, 1);
    assert_eq!(STATE_CTRL, 4);
    assert_eq!(KEY_DELETE, 0xff08);
    assert_eq!(KEY_TAB, 0xff09);
    assert_eq!(KEY_LEFT, 0xff51);
    assert_eq!(KEY_RIGHT, 0xff53);
}

#[test]
fn other_names_are_not_classified() {
    assert_eq!(classify_key(""), None);
    assert_eq!(classify_key("a"), None);
    assert_eq!(classify_key("<CR>"), None);
    assert_eq!(classify_key("<cr> "), None);
    assert_eq!(classify_key("<up>"), None);
}

#[test]
fn handled_keys_ignore_case() {
    assert!(is_handled_key("<CR>"));
    assert!(is_handled_key("<Esc>"));
    assert!(is_handled_key("<BS>"));
    assert!(is_handled_key("<C-w>"));
    assert!(is_handled_key("<C-W>"));
    assert!(is_handled_key("<S-Tab>"));
    assert!(is_handled_key("<c-left>"));
    assert!(is_handled_key("\u{8}"));
    assert!(!is_handled_key("<Up>"));
    assert!(!is_handled_key("x"));
    assert!(!is_handled_key(""));
}

#[test]
fn hidden_overlay_falls_back_to_plain_key() {
    let mut state = IMWindowState::new();
    let action = state.handle_special_key(true, "<BS>", None);
    assert_eq!(action, KeyAction::FeedKeys("<BS>".to_string()));
    assert!(state.update_queue.is_empty());
}

#[test]
fn hidden_overlay_runs_original_callback() {
    let mut state = IMWindowState::new();
    let original = OriginalKeymap { has_callback: true, rhs: Some("ignored".to_string()) };
    let action = state.handle_special_key(true, "<CR>", Some(&original));
    assert_eq!(action, KeyAction::CallOriginal { fallback: "<CR>".to_string() });
}

#[test]
fn hidden_overlay_feeds_original_rhs() {
    let mut state = IMWindowState::new();
    let original = OriginalKeymap { has_callback: false, rhs: Some("<C-o>dd".to_string()) };
    let action = state.handle_special_key(false, "<Tab>", Some(&original));
    assert_eq!(action, KeyAction::FeedKeys("<C-o>dd".to_string()));
}

#[test]
fn hidden_overlay_with_empty_mapping_does_nothing() {
    let mut state = IMWindowState::new();
    let original = OriginalKeymap { has_callback: false, rhs: None };
    let action = state.handle_special_key(true, "<Tab>", Some(&original));
    assert_eq!(action, KeyAction::Nothing);
}

#[test]
fn unloaded_plugin_ignores_keys_while_visible() {
    let mut state = composing_state();
    assert_eq!(state.handle_special_key(false, "<CR>", None), KeyAction::Nothing);
    assert_eq!(state.handle_special_key(false, "<BS>", None), KeyAction::Nothing);
    assert!(state.update_queue.is_empty());
}

#[test]
fn passthrough_key_is_forwarded() {
    let mut state = composing_state();
    let action = state.handle_special_key(true, "<BS>", None);
    assert_eq!(action, KeyAction::Forward(KeyChord { state: 0, keyval: 0xff08 }));
    let action = state.handle_special_key(true, "<S-Tab>", None);
    assert_eq!(action, KeyAction::Forward(KeyChord { state: 1, keyval: 0xff09 }));
    let action = state.handle_special_key(true, "<C-Right>", None);
    assert_eq!(action, KeyAction::Forward(KeyChord { state: 4, keyval: 0xff53 }));
    assert!(state.update_queue.is_empty());
}

#[test]
fn confirm_queues_stripped_preedit() {
    let mut state = composing_state();
    assert_eq!(state.preedit_text, "ni hao\u{2502}");
    let original = OriginalKeymap { has_callback: true, rhs: None };
    let action = state.handle_special_key(true, "<CR>", Some(&original));
    assert_eq!(action, KeyAction::Commit);
    assert_eq!(state.pop_update(), Some(UpdateType::Insert("nihao".to_string())));
    assert_eq!(state.pop_update(), None);
    assert_eq!(state.preedit_text, "ni hao\u{2502}");
}

#[test]
fn confirm_on_status_indicator_feeds_return() {
    let mut state = IMWindowState::new();
    state.aux_up_str = "IM-A".to_string();
    state.is_visible = true;
    let action = state.handle_special_key(true, "<cr>", None);
    assert_eq!(action, KeyAction::FeedKeys("<CR>".to_string()));
    assert!(state.update_queue.is_empty());
}

#[test]
fn cancel_resets_context() {
    let mut state = composing_state();
    assert_eq!(state.handle_special_key(true, "<Esc>", None), KeyAction::Cancel);
    assert!(state.update_queue.is_empty());
}

#[test]
fn cancel_on_status_indicator_feeds_escape() {
    let mut state = IMWindowState::new();
    state.aux_up_str = "IM-A".to_string();
    state.is_visible = true;
    assert_eq!(
        state.handle_special_key(true, "<Esc>", None),
        KeyAction::CancelAndFeed("<Esc>".to_string())
    );
}

#[test]
fn unknown_key_does_nothing_while_visible() {
    let mut state = composing_state();
    assert_eq!(state.handle_special_key(true, "<Up>", None), KeyAction::Nothing);
    assert!(state.update_queue.is_empty());
}

#[test]
fn decide_key_takes_classification_as_given() {
    let mut state = composing_state();
    let action = state.decide_key(true, "anything", Some(SpecialKey::Confirm), None);
    assert_eq!(action, KeyAction::Commit);
    assert_eq!(state.update_queue.len(), 1);
    let action = state.decide_key(true, "<CR>", None, None);
    assert_eq!(action, KeyAction::Nothing);
    assert_eq!(state.update_queue.len(), 1);
}

#[test]
fn modifier_prefix_needs_a_single_modifier() {
    assert_eq!(STATE_ALT, 8);
    assert_eq!(modifier_prefix(STATE_CTRL), "<C-");
    assert_eq!(modifier_prefix(STATE_ALT), "<M-");
    assert_eq!(modifier_prefix(STATE_SHIFT), "<S-");
    assert_eq!(modifier_prefix(STATE_NONE), "");
    assert_eq!(modifier_prefix(STATE_CTRL | STATE_SHIFT), "");
    assert_eq!(modifier_prefix(1 << 30), "");
    assert_eq!(modifier_prefix(u32::MAX), "");
}

#[test]
fn forwarded_key_is_named_by_low_byte() {
    assert_eq!(forwarded_key_name(0x61, STATE_NONE, false), Some("a".to_string()));
    assert_eq!(forwarded_key_name(0x61, STATE_CTRL, false), Some("<C-a".to_string()));
    assert_eq!(forwarded_key_name(0x78, STATE_ALT, false), Some("<M-x".to_string()));
    assert_eq!(forwarded_key_name(0x5a, STATE_SHIFT, false), Some("<S-Z".to_string()));
    // only the low byte of the symbol counts
    assert_eq!(forwarded_key_name(0xff08, STATE_NONE, false), Some("\u{8}".to_string()));
    assert_eq!(forwarded_key_name(0x1e9, STATE_NONE, false), Some("\u{e9}".to_string()));
}

#[test]
fn forwarded_release_has_no_name() {
    assert_eq!(forwarded_key_name(0x61, STATE_NONE, true), None);
    assert_eq!(forwarded_key_name(0x61, STATE_CTRL, true), None);
}
