use fcitx5_ui_rs::candidates::{Candidate, UpdateType, UpdateVariant};
use fcitx5_ui_rs::state::IMWindowState;
use fcitx5_ui_rs::text::{insert_cursor_marker, same_text, strip_cursor_and_blanks};

fn candidates(count: usize) -> Vec<Candidate> {
    let mut list = Vec::new();
    for i in 0..count {
        list.push(Candidate::new(&format!("{}", i + 1), &format!("word{}", i)));
    }
    list
}

#[test]
fn new_state_is_empty() {
    let mut state = IMWindowState::new();
    assert!(state.candidates.is_empty());
    assert_eq!(state.selected_index, 0);
    assert_eq!(state.preedit_text, "");
    assert_eq!(state.aux_up_str, "");
    assert!(!state.has_prev);
    assert!(!state.has_next);
    assert!(!state.is_visible);
    assert!(state.update_queue.is_empty());
    assert_eq!(state.skip_next, None);
    assert_eq!(state.pop_update(), None);
}

#[test]
fn queue_returns_marks_in_order() {
    let mut state = IMWindowState::new();
    state.mark_for_show();
    state.mark_for_insert("abc".to_string());
    state.mark_for_update();
    state.mark_for_hide();
    state.mark_for_insert("".to_string());
    assert_eq!(state.pop_update(), Some(UpdateType::Show));
    assert_eq!(state.pop_update(), Some(UpdateType::Insert("abc".to_string())));
    assert_eq!(state.pop_update(), Some(UpdateType::UpdateContent));
    assert_eq!(state.pop_update(), Some(UpdateType::Hide));
    assert_eq!(state.pop_update(), Some(UpdateType::Insert(String::new())));
    assert_eq!(state.pop_update(), None);
    assert!(state.update_queue.is_empty());
}

#[test]
fn marks_after_a_pop_queue_behind_what_is_left() {
    let mut state = IMWindowState::new();
    state.mark_for_show();
    state.mark_for_hide();
    assert_eq!(state.pop_update(), Some(UpdateType::Show));
    state.mark_for_update();
    assert_eq!(state.pop_update(), Some(UpdateType::Hide));
    assert_eq!(state.pop_update(), Some(UpdateType::UpdateContent));
    assert_eq!(state.pop_update(), None);
}

#[test]
fn drain_takes_everything_in_order() {
    let mut state = IMWindowState::new();
    state.mark_for_hide();
    state.mark_for_show();
    state.mark_for_insert("x".to_string());
    let drained = state.drain_updates();
    assert_eq!(
        drained,
        vec![UpdateType::Hide, UpdateType::Show, UpdateType::Insert("x".to_string())]
    );
    assert!(state.update_queue.is_empty());
    assert!(state.drain_updates().is_empty());
}

#[test]
fn marks_do_not_touch_visibility() {
    let mut state = IMWindowState::new();
    state.mark_for_show();
    assert!(!state.is_visible);
    state.is_visible = true;
    state.mark_for_hide();
    assert!(state.is_visible);
}

#[test]
fn selection_resets_when_out_of_bounds() {
    let mut state = IMWindowState::new();
    state.selected_index = 5;
    state.update_candidates(&candidates(3));
    assert_eq!(state.selected_index, 0);
    assert_eq!(state.candidates.len(), 3);
}

#[test]
fn selection_resets_when_equal_to_length() {
    let mut state = IMWindowState::new();
    state.selected_index = 3;
    state.update_candidates(&candidates(3));
    assert_eq!(state.selected_index, 0);
}

#[test]
fn selection_is_kept_when_in_bounds() {
    let mut state = IMWindowState::new();
    state.selected_index = 2;
    state.update_candidates(&candidates(3));
    assert_eq!(state.selected_index, 2);
    assert_eq!(state.candidates[2], Candidate::new("3", "word2"));
}

#[test]
fn selection_is_unchanged_by_empty_list() {
    let mut state = IMWindowState::new();
    state.update_candidates(&candidates(4));
    state.selected_index = 3;
    state.update_candidates(&[]);
    assert_eq!(state.selected_index, 3);
    assert!(state.candidates.is_empty());

    let mut fresh = IMWindowState::new();
    fresh.update_candidates(&[]);
    assert_eq!(fresh.selected_index, 0);
}

#[test]
fn replacing_candidates_leaves_visibility_and_queue() {
    let mut state = IMWindowState::new();
    state.is_visible = true;
    state.mark_for_update();
    state.update_candidates(&candidates(2));
    assert!(state.is_visible);
    assert_eq!(state.update_queue.len(), 1);
}

#[test]
fn preedit_gets_cursor_glyph_at_offset() {
    let mut state = IMWindowState::new();
    state.set_preedit("ni", 2);
    assert_eq!(state.preedit_text, "ni\u{2502}");
    state.set_preedit("ni", 0);
    assert_eq!(state.preedit_text, "\u{2502}ni");
    state.set_preedit("ni", 1);
    assert_eq!(state.preedit_text, "n\u{2502}i");
}

#[test]
fn preedit_with_invalid_offset_has_no_glyph() {
    let mut state = IMWindowState::new();
    state.set_preedit("ni", 3);
    assert_eq!(state.preedit_text, "ni");
    state.set_preedit("ni", -1);
    assert_eq!(state.preedit_text, "ni");
    state.set_preedit("ni", i32::MAX);
    assert_eq!(state.preedit_text, "ni");
    state.set_preedit("ni", i32::MIN);
    assert_eq!(state.preedit_text, "ni");
}

#[test]
fn preedit_offset_inside_a_character_is_ignored() {
    // each of the two characters takes three bytes
    assert_eq!(insert_cursor_marker("\u{4f60}\u{597d}", 1), "\u{4f60}\u{597d}");
    assert_eq!(insert_cursor_marker("\u{4f60}\u{597d}", 2), "\u{4f60}\u{597d}");
    assert_eq!(insert_cursor_marker("\u{4f60}\u{597d}", 3), "\u{4f60}\u{2502}\u{597d}");
    assert_eq!(insert_cursor_marker("\u{4f60}\u{597d}", 6), "\u{4f60}\u{597d}\u{2502}");
    assert_eq!(insert_cursor_marker("\u{4f60}\u{597d}", 7), "\u{4f60}\u{597d}");
}

#[test]
fn empty_preedit_takes_glyph_at_zero_only() {
    assert_eq!(insert_cursor_marker("", 0), "\u{2502}");
    assert_eq!(insert_cursor_marker("", 1), "");
    assert_eq!(insert_cursor_marker("", -1), "");
}

#[test]
fn skip_filter_is_overwritten_by_later_call() {
    let mut state = IMWindowState::new();
    state.mark_for_skip_next(UpdateVariant::Insert);
    assert_eq!(state.skip_next, Some(UpdateVariant::Insert));
    state.mark_for_skip_next(UpdateVariant::Hide);
    assert_eq!(state.skip_next, Some(UpdateVariant::Hide));
    assert!(state.update_queue.is_empty());
}

#[test]
fn compact_mode_needs_aux_only() {
    let mut state = IMWindowState::new();
    assert!(!state.is_showing_current_im());
    state.aux_up_str = "IM-A".to_string();
    assert!(state.is_showing_current_im());
    state.set_preedit("n", -1);
    assert!(!state.is_showing_current_im());
    state.set_preedit("", -1);
    assert!(state.is_showing_current_im());
    state.update_candidates(&candidates(1));
    assert!(!state.is_showing_current_im());
}

#[test]
fn variant_ignores_payload() {
    assert_eq!(UpdateType::Insert("a".to_string()).variant(), UpdateVariant::Insert);
    assert_eq!(UpdateType::Insert(String::new()).variant(), UpdateVariant::Insert);
    assert_eq!(UpdateType::Show.variant(), UpdateVariant::Show);
    assert_eq!(UpdateType::Hide.variant(), UpdateVariant::Hide);
    assert_eq!(UpdateType::UpdateContent.variant(), UpdateVariant::UpdateContent);
}

#[test]
fn clones_are_equal() {
    let candidate = Candidate::new("1", "foo");
    assert_eq!(candidate.clone(), candidate);
    let update = UpdateType::Insert("foo".to_string());
    assert_eq!(update.clone(), update);
}

#[test]
fn same_text_compares_characters() {
    assert!(same_text("", ""));
    assert!(same_text("<cr>", "<cr>"));
    assert!(!same_text("<cr>", "<CR>"));
    assert!(!same_text("<cr>", "<cr"));
    assert!(!same_text("a", ""));
    assert!(same_text("\u{4f60}", "\u{4f60}"));
    assert!(!same_text("\u{4f60}", "\u{4f61}"));
}

#[test]
fn stripping_removes_spaces_and_cursor() {
    assert_eq!(strip_cursor_and_blanks("ni hao\u{2502}"), "nihao");
    assert_eq!(strip_cursor_and_blanks(" \u{2502} "), "");
    assert_eq!(strip_cursor_and_blanks(""), "");
    assert_eq!(strip_cursor_and_blanks("\u{4f60} \u{2502}\u{597d}"), "\u{4f60}\u{597d}");
    assert_eq!(strip_cursor_and_blanks("a\tb"), "a\tb");
}

#[test]
fn cloned_state_holds_the_same() {
    let mut state = IMWindowState::new();
    state.update_candidates(&candidates(2));
    state.set_preedit("ni", 2);
    state.mark_for_show();
    state.mark_for_skip_next(UpdateVariant::Hide);
    let mut copy = state.clone();
    assert_eq!(copy.candidates, state.candidates);
    assert_eq!(copy.preedit_text, state.preedit_text);
    assert_eq!(copy.skip_next, state.skip_next);
    assert_eq!(copy.pop_update(), Some(UpdateType::Show));
    assert_eq!(state.update_queue.len(), 1);
}
