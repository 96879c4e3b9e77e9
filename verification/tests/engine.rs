use modal_edit::editor::{Editor, EventOutcome, InputEvent, Mode, NamedKey, SaveStatus};
use unicode_segmentation::UnicodeSegmentation;

fn press_char(e: &mut Editor, c: char) -> EventOutcome {
    e.on_event(InputEvent::Character(c))
}

fn press_key(e: &mut Editor, k: NamedKey) -> EventOutcome {
    e.on_event(InputEvent::Named(k))
}

fn lines_of(e: &Editor) -> Vec<String> {
    let mut out = Vec::new();
    let mut i = 0;
    while i < e.line_count() {
        out.push(e.line_string(i));
        i += 1;
    }
    out
}

#[test]
fn fresh_editor_starts_at_origin_in_normal_mode() {
    let e = Editor::new("hello\nworld");
    assert_eq!(e.row, 0);
    assert_eq!(e.col, 0);
    assert_eq!(e.scroll_index, 0);
    assert!(matches!(e.mode, Mode::Normal));
    assert!(e.pending.is_none());
    assert!(e.status.is_none());
    assert_eq!(lines_of(&e), vec!["hello".to_string(), "world".to_string()]);
}

#[test]
fn empty_document_is_one_empty_line() {
    let e = Editor::new("");
    assert_eq!(e.line_count(), 1);
    assert_eq!(e.line_string(0), "");
}

#[test]
fn insert_mode_types_at_cursor() {
    let mut e = Editor::new("hello");
    assert_eq!(press_char(&mut e, 'i'), EventOutcome::Consumed);
    assert!(matches!(e.mode, Mode::Insert));
    assert_eq!(press_char(&mut e, 'X'), EventOutcome::Consumed);
    assert_eq!(lines_of(&e), vec!["Xhello".to_string()]);
    assert_eq!((e.row, e.col), (0, 1));
    assert!(matches!(e.mode, Mode::Insert));
}

#[test]
fn delete_line_command_removes_current_line() {
    let mut e = Editor::new("one\ntwo");
    assert_eq!(press_char(&mut e, 'd'), EventOutcome::Ignored);
    assert_eq!(press_char(&mut e, 'd'), EventOutcome::Consumed);
    assert_eq!(lines_of(&e), vec!["two".to_string()]);
    assert_eq!((e.row, e.col), (0, 0));
    assert!(e.pending.is_none());
}

#[test]
fn delete_line_on_sole_line_clears_it_and_keeps_one_line() {
    let mut e = Editor::new("solo");
    press_char(&mut e, 'd');
    press_char(&mut e, 'd');
    assert_eq!(lines_of(&e), vec!["".to_string()]);
    press_char(&mut e, 'd');
    press_char(&mut e, 'd');
    assert_eq!(e.line_count(), 1);
    assert_eq!(e.line_string(0), "");
    assert_eq!((e.row, e.col), (0, 0));
}

#[test]
fn delete_line_at_last_row_steps_the_row_back() {
    let mut e = Editor::new("one\ntwo");
    press_key(&mut e, NamedKey::Down);
    assert_eq!(e.row, 1);
    press_char(&mut e, 'd');
    press_char(&mut e, 'd');
    assert_eq!(lines_of(&e), vec!["one".to_string()]);
    assert_eq!(e.row, 0);
}

#[test]
fn any_unmatched_character_arms_the_delete_command() {
    let mut e = Editor::new("one\ntwo");
    assert_eq!(press_char(&mut e, 'q'), EventOutcome::Ignored);
    assert_eq!(e.pending, Some('d'));
    assert_eq!(press_char(&mut e, 'd'), EventOutcome::Consumed);
    assert_eq!(lines_of(&e), vec!["two".to_string()]);
}

#[test]
fn escape_in_normal_mode_is_a_no_op() {
    let mut e = Editor::new("ab\ncd");
    press_char(&mut e, 'q');
    let pending_before = e.pending;
    let out = press_key(&mut e, NamedKey::Escape);
    assert_eq!(out, EventOutcome::Ignored);
    assert!(matches!(e.mode, Mode::Normal));
    assert_eq!(lines_of(&e), vec!["ab".to_string(), "cd".to_string()]);
    assert_eq!((e.row, e.col), (0, 0));
    assert_eq!(e.pending, pending_before);
}

#[test]
fn escape_leaves_insert_mode() {
    let mut e = Editor::new("ab");
    press_char(&mut e, 'i');
    assert!(matches!(e.mode, Mode::Insert));
    press_key(&mut e, NamedKey::Escape);
    assert!(matches!(e.mode, Mode::Normal));
    assert_eq!(lines_of(&e), vec!["ab".to_string()]);
}

#[test]
fn backspace_at_buffer_origin_does_nothing() {
    let mut e = Editor::new("ab\ncd");
    press_char(&mut e, 'i');
    press_key(&mut e, NamedKey::Backspace);
    assert_eq!(lines_of(&e), vec!["ab".to_string(), "cd".to_string()]);
    assert_eq!((e.row, e.col), (0, 0));
}

#[test]
fn backspace_at_line_start_merges_into_previous_line() {
    let mut e = Editor::new("abc\nde");
    press_char(&mut e, 'i');
    press_key(&mut e, NamedKey::Down);
    assert_eq!((e.row, e.col), (1, 0));
    press_key(&mut e, NamedKey::Backspace);
    assert_eq!(lines_of(&e), vec!["abcde".to_string()]);
    assert_eq!((e.row, e.col), (0, 3));
}

#[test]
fn backspace_inside_a_line_removes_one_character() {
    let mut e = Editor::new("abc");
    press_char(&mut e, 'i');
    press_key(&mut e, NamedKey::End);
    assert_eq!(e.col, 3);
    press_key(&mut e, NamedKey::Backspace);
    assert_eq!(lines_of(&e), vec!["ab".to_string()]);
    assert_eq!(e.col, 2);
}

#[test]
fn enter_splits_the_line_at_the_cursor() {
    let mut e = Editor::new("abcd");
    press_char(&mut e, 'i');
    press_key(&mut e, NamedKey::Right);
    assert_eq!(e.col, 1);
    press_key(&mut e, NamedKey::Enter);
    assert_eq!(lines_of(&e), vec!["a".to_string(), "bcd".to_string()]);
    assert_eq!((e.row, e.col), (1, 0));
}

#[test]
fn tab_inserts_four_spaces_and_advances_four_columns() {
    let mut e = Editor::new("ab");
    press_char(&mut e, 'i');
    press_key(&mut e, NamedKey::Tab);
    assert_eq!(lines_of(&e), vec!["    ab".to_string()]);
    assert_eq!(e.col, 4);
}

#[test]
fn combining_cluster_moves_and_deletes_as_one_unit() {
    let mut e = Editor::new("e\u{301}abc");
    press_char(&mut e, 'i');
    press_key(&mut e, NamedKey::Right);
    assert_eq!(e.col, 1);
    press_char(&mut e, 'X');
    assert_eq!(e.line_string(0), "e\u{301}Xabc");
    assert_eq!(e.col, 2);
    press_key(&mut e, NamedKey::Backspace);
    assert_eq!(e.line_string(0), "e\u{301}abc");
    press_key(&mut e, NamedKey::Left);
    assert_eq!(e.col, 0);
    press_key(&mut e, NamedKey::Right);
    assert_eq!(e.col, 1);
    press_key(&mut e, NamedKey::Backspace);
    assert_eq!(e.line_string(0), "abc");
    assert_eq!(e.col, 0);
}

#[test]
fn cursor_grapheme_reports_the_cluster_under_the_cursor() {
    let e = Editor::new("e\u{301}x");
    assert_eq!(e.cursor_grapheme(), Some("e\u{301}".to_string()));
    let mut e2 = Editor::new("e\u{301}x");
    press_key(&mut e2, NamedKey::End);
    assert_eq!(e2.col, 2);
    assert_eq!(e2.cursor_grapheme(), None);
}

#[test]
fn cursor_stays_in_bounds_under_adversarial_movement() {
    let mut e = Editor::new("abc\nz\n\nlonger line");
    let moves = [
        NamedKey::Up,
        NamedKey::Left,
        NamedKey::End,
        NamedKey::Down,
        NamedKey::Down,
        NamedKey::Down,
        NamedKey::Down,
        NamedKey::Right,
        NamedKey::Up,
        NamedKey::End,
        NamedKey::Up,
        NamedKey::Home,
        NamedKey::Left,
    ];
    for k in moves {
        press_key(&mut e, k);
        assert!(e.row < e.line_count());
        let gc: usize = e.line_string(e.row).graphemes(true).count();
        assert!(e.col <= gc);
    }
}

#[test]
fn moving_down_clamps_the_column_to_the_shorter_line() {
    let mut e = Editor::new("abc\nz");
    press_key(&mut e, NamedKey::End);
    assert_eq!(e.col, 3);
    press_key(&mut e, NamedKey::Down);
    assert_eq!((e.row, e.col), (1, 1));
}

#[test]
fn moving_right_stops_at_the_last_glyph_and_empty_lines_pin_the_column() {
    let mut e = Editor::new("ab\n");
    press_key(&mut e, NamedKey::Right);
    assert_eq!(e.col, 1);
    press_key(&mut e, NamedKey::Right);
    assert_eq!(e.col, 1);
    press_key(&mut e, NamedKey::Down);
    assert_eq!((e.row, e.col), (1, 0));
    press_key(&mut e, NamedKey::Right);
    assert_eq!(e.col, 0);
}

#[test]
fn scrolling_follows_the_cursor_down_and_up() {
    let mut e = Editor::new("a\nb\nc\nd\ne");
    e.on_layout(10, 4);
    press_key(&mut e, NamedKey::Down);
    press_key(&mut e, NamedKey::Down);
    assert_eq!(e.scroll_index, 0);
    press_key(&mut e, NamedKey::Down);
    assert_eq!((e.row, e.scroll_index), (3, 1));
    press_key(&mut e, NamedKey::Down);
    assert_eq!((e.row, e.scroll_index), (4, 2));
    press_key(&mut e, NamedKey::Up);
    press_key(&mut e, NamedKey::Up);
    press_key(&mut e, NamedKey::Up);
    assert_eq!((e.row, e.scroll_index), (1, 1));
    press_key(&mut e, NamedKey::Up);
    assert_eq!((e.row, e.scroll_index), (0, 0));
}

#[test]
fn save_command_requests_a_save_and_the_result_sets_the_status() {
    let mut e = Editor::new("keep\nme");
    let out = press_char(&mut e, 's');
    assert_eq!(out, EventOutcome::SaveRequested);
    assert_eq!(e.serialize(), "keep\nme");
    e.report_save_result(true);
    assert_eq!(e.status, Some(SaveStatus::Saved));
    e.report_save_result(false);
    assert_eq!(e.status, Some(SaveStatus::SaveFailed));
    press_char(&mut e, 'q');
    assert!(e.status.is_none());
}

#[test]
fn quit_command_asks_the_host_to_shut_down() {
    let mut e = Editor::new("text");
    let out = press_char(&mut e, 'x');
    assert_eq!(out, EventOutcome::QuitRequested);
    assert_eq!(lines_of(&e), vec!["text".to_string()]);
}

#[test]
fn dirty_flags_drive_relayout_and_a_layout_pass_clears_them() {
    let mut e = Editor::new("ab");
    assert!(!e.needs_relayout());
    press_key(&mut e, NamedKey::Right);
    assert!(e.needs_relayout());
    e.on_layout(80, 24);
    assert!(!e.needs_relayout());
    assert_eq!((e.view_width, e.view_height), (80, 24));
    e.on_event(InputEvent::Resize);
    assert!(e.needs_relayout());
    assert!(e.resize_changed);
    e.on_layout(60, 20);
    assert!(!e.needs_relayout());
}

#[test]
fn visible_lines_window_the_buffer_at_the_scroll_index() {
    let mut e = Editor::new("a\nb\nc\nd\ne");
    assert_eq!(
        e.visible_lines(3),
        vec!["a".to_string(), "b".to_string(), "c".to_string()]
    );
    assert_eq!(e.visible_lines(99).len(), 5);
    e.on_layout(10, 3);
    for _ in 0..4 {
        press_key(&mut e, NamedKey::Down);
    }
    assert!(e.scroll_index > 0);
    let shown = e.visible_lines(3);
    assert_eq!(shown[0], e.line_string(e.scroll_index));
}
