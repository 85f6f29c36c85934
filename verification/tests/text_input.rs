use ryusei_gpui::text_input::{InputKeyResult, NativeTextInput};

#[test]
fn edits_unicode_by_character_not_utf8_byte() {
    let mut input = NativeTextInput::new("A围");
    assert!(input.backspace());
    assert_eq!(input.text(), "A");
    assert!(input.insert_text("棋"));
    assert_eq!(input.text(), "A棋");
}

#[test]
fn selection_replaces_and_undoes() {
    let mut input = NativeTextInput::new("comment");
    input.select_all();
    assert!(input.insert_text("note"));
    assert_eq!(input.text(), "note");
    assert!(input.undo());
    assert_eq!(input.text(), "comment");
    assert!(input.redo());
    assert_eq!(input.text(), "note");
}

#[test]
fn platform_utf16_ranges_replace_surrogate_pairs_safely() {
    let mut input = NativeTextInput::new("A😀围");
    // `😀` occupies UTF-16 indices 1..3, unlike its UTF-8 byte range.
    input.replace_utf16_range(Some(1..3), "棋");
    assert_eq!(input.text(), "A棋围");
    assert_eq!(input.text_for_utf16_range(1..2), "棋");
    assert_eq!(input.utf16_selection(), 2..2);
}

#[test]
fn key_dispatch_preserves_submit_cancel_and_navigation() {
    let mut input = NativeTextInput::new("ab");
    assert_eq!(input.handle_key("left", None), InputKeyResult::Changed);
    assert_eq!(input.handle_key("x", Some("棋")), InputKeyResult::Changed);
    assert_eq!(input.text(), "a棋b");
    assert_eq!(input.handle_key("enter", None), InputKeyResult::Submit);
    assert_eq!(input.handle_key("escape", None), InputKeyResult::Cancel);
    assert_eq!(input.handle_key("tab", None), InputKeyResult::Ignored);
}

#[test]
fn new_places_the_caret_at_the_end_in_utf16_units() {
    let input = NativeTextInput::new("A😀");
    assert_eq!(input.utf16_selection(), 3..3);
    assert_eq!(input.text_for_utf16_range(0..3), "A😀");
}

#[test]
fn utf16_offset_inside_a_surrogate_pair_rounds_down() {
    let input = NativeTextInput::new("A😀围");
    assert_eq!(input.text_for_utf16_range(2..4), "😀围");
    assert_eq!(input.text_for_utf16_range(3..1), "");
    assert_eq!(input.text_for_utf16_range(0..100), "A😀围");
}

#[test]
fn undo_restores_text_and_selection_after_backspace_and_delete() {
    let mut input = NativeTextInput::new("abc");
    assert!(input.move_left());
    assert!(input.backspace());
    assert_eq!(input.text(), "ac");
    assert_eq!(input.utf16_selection(), 1..1);
    assert!(input.delete_forward());
    assert_eq!(input.text(), "a");
    assert!(!input.delete_forward());
    assert!(input.undo());
    assert_eq!(input.text(), "ac");
    assert!(input.undo());
    assert_eq!(input.text(), "abc");
    assert_eq!(input.utf16_selection(), 2..2);
    assert!(!input.undo());
}

#[test]
fn redo_consumes_the_whole_redo_stack() {
    let mut input = NativeTextInput::new("");
    assert!(input.insert_text("a"));
    assert!(input.insert_text("b"));
    assert!(input.undo());
    assert!(input.undo());
    assert_eq!(input.text(), "");
    assert!(input.redo());
    assert_eq!(input.text(), "a");
    assert!(!input.redo());
}

#[test]
fn history_keeps_at_most_one_hundred_states() {
    let mut input = NativeTextInput::new("");
    for _ in 0..150 {
        assert!(input.insert_text("x"));
    }
    let mut undone = 0;
    while input.undo() {
        undone += 1;
    }
    assert_eq!(undone, 100);
    assert_eq!(input.text().chars().count(), 50);
}

#[test]
fn edits_discard_the_redo_stack() {
    let mut input = NativeTextInput::new("a");
    assert!(input.backspace());
    assert!(input.undo());
    assert!(input.insert_text("z"));
    assert!(!input.redo());
    assert_eq!(input.text(), "az");
}

#[test]
fn movement_stops_at_both_ends() {
    let mut input = NativeTextInput::new("ab");
    assert!(!input.move_right());
    assert!(input.move_left());
    assert!(input.move_left());
    assert!(!input.move_left());
    assert!(!input.backspace());
    assert_eq!(input.handle_key("right", None), InputKeyResult::Changed);
    assert_eq!(input.handle_key("delete", None), InputKeyResult::Changed);
    assert_eq!(input.text(), "a");
    assert_eq!(input.handle_key("backspace", None), InputKeyResult::Changed);
    assert_eq!(input.handle_key("backspace", None), InputKeyResult::Ignored);
    assert_eq!(input.handle_key("x", Some("")), InputKeyResult::Ignored);
}

#[test]
fn set_text_clears_history_and_composition() {
    let mut input = NativeTextInput::new("old");
    assert!(input.insert_text("!"));
    input.replace_marked_text(None, "か");
    input.set_text("new");
    assert_eq!(input.text(), "new");
    assert_eq!(input.utf16_selection(), 3..3);
    assert!(!input.undo());
    assert_eq!(input.marked_text_utf16_range(), None);
}

#[test]
fn composition_is_replaced_not_duplicated_and_then_committed() {
    let mut input = NativeTextInput::new("a");
    input.replace_marked_text(None, "k");
    assert_eq!(input.text(), "ak");
    assert_eq!(input.marked_text_utf16_range(), Some(1..2));
    input.replace_marked_text(None, "か");
    assert_eq!(input.text(), "aか");
    assert_eq!(input.marked_text_utf16_range(), Some(1..2));
    input.commit_marked_text(None, "蚊");
    assert_eq!(input.text(), "a蚊");
    assert_eq!(input.marked_text_utf16_range(), None);
    assert_eq!(input.utf16_selection(), 2..2);
}

#[test]
fn unmark_keeps_the_composed_text() {
    let mut input = NativeTextInput::new("");
    input.replace_marked_text(None, "😀");
    assert_eq!(input.marked_text_utf16_range(), Some(0..2));
    input.unmark_text();
    assert_eq!(input.marked_text_utf16_range(), None);
    assert_eq!(input.text(), "😀");
}

#[test]
fn replacing_an_empty_utf16_range_with_nothing_only_moves_the_selection() {
    let mut input = NativeTextInput::new("abc");
    input.replace_utf16_range(Some(1..1), "");
    assert_eq!(input.text(), "abc");
    assert_eq!(input.utf16_selection(), 1..1);
    assert!(!input.undo());
    input.replace_utf16_range(Some(0..2), "");
    assert_eq!(input.text(), "c");
    assert!(input.undo());
    assert_eq!(input.text(), "abc");
}
