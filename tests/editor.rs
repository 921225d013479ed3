use modal_edit::editor::{
    EditorState, Mode, Viewport, KEY_BACKSPACE, KEY_CLEAR_LINE, KEY_DOWN, KEY_ESCAPE, KEY_INSERT,
    KEY_LEFT, KEY_OPEN_BELOW, KEY_QUIT, KEY_RIGHT, KEY_UP,
};
use modal_edit::line::Line;

fn editor(lines: &[&str], rows: usize) -> EditorState {
    EditorState::new(
        lines.iter().map(|s| Line::with_string(s.to_string())).collect(),
        Viewport { cols: 80, rows },
    )
}

fn texts(state: &EditorState) -> Vec<String> {
    state.lines().lines().iter().map(|l| l.as_str().to_string()).collect()
}

fn press(state: &mut EditorState, keys: &[u8]) {
    for &k in keys {
        assert!(state.handle_keypress(k));
    }
}

fn buffer_text(state: &EditorState) -> Option<(String, String)> {
    match state.mode() {
        Mode::Navigation => None,
        Mode::Insertion { buffer } => Some((
            buffer.before().iter().collect(),
            buffer.after().iter().collect(),
        )),
    }
}

#[test]
fn empty_document_gets_one_line() {
    let state = editor(&[], 10);
    assert_eq!(texts(&state), vec![""]);
    assert_eq!((state.row(), state.col(), state.target_col()), (0, 0, 0));
    assert!(matches!(state.mode(), Mode::Navigation));
}

#[test]
fn move_left_at_column_zero_is_idempotent() {
    let mut state = editor(&["abc", "de"], 10);
    for _ in 0..5 {
        press(&mut state, &[KEY_LEFT]);
        assert_eq!((state.row(), state.col()), (0, 0));
    }
}

#[test]
fn move_up_at_row_zero_is_idempotent() {
    let mut state = editor(&["abc", "de"], 10);
    press(&mut state, &[KEY_RIGHT, KEY_RIGHT]);
    for _ in 0..5 {
        press(&mut state, &[KEY_UP]);
        assert_eq!((state.row(), state.col()), (0, 2));
    }
}

#[test]
fn move_right_stops_at_line_end() {
    let mut state = editor(&["ab"], 10);
    press(&mut state, &[KEY_RIGHT, KEY_RIGHT, KEY_RIGHT]);
    assert_eq!(state.col(), 2);
    assert_eq!(state.target_col(), 2);
}

#[test]
fn insert_escape_round_trip() {
    let mut state = editor(&["first", "abcdef"], 10);
    press(&mut state, &[KEY_DOWN, KEY_RIGHT, KEY_RIGHT]);
    assert_eq!((state.row(), state.col()), (1, 2));
    press(&mut state, &[KEY_INSERT]);
    assert_eq!(buffer_text(&state), Some(("ab".to_string(), "cdef".to_string())));
    press(&mut state, &[b'X', KEY_ESCAPE]);
    assert_eq!(texts(&state), vec!["first", "abXcdef"]);
    assert_eq!(state.row(), 1);
    assert_eq!(state.col(), 3);
    assert_eq!(state.target_col(), 3);
    assert!(matches!(state.mode(), Mode::Navigation));
}

#[test]
fn backspace_at_session_start_is_noop() {
    let mut state = editor(&["abc"], 10);
    press(&mut state, &[KEY_INSERT]);
    press(&mut state, &[KEY_BACKSPACE]);
    assert_eq!(state.col(), 0);
    assert_eq!(buffer_text(&state), Some(("".to_string(), "abc".to_string())));
    press(&mut state, &[KEY_ESCAPE]);
    assert_eq!(texts(&state), vec!["abc"]);
}

#[test]
fn backspace_deletes_before_cursor() {
    let mut state = editor(&["abc"], 10);
    press(&mut state, &[KEY_RIGHT, KEY_RIGHT, KEY_INSERT, KEY_BACKSPACE]);
    assert_eq!(state.col(), 1);
    press(&mut state, &[KEY_ESCAPE]);
    assert_eq!(texts(&state), vec!["ac"]);
    assert_eq!(state.target_col(), 1);
}

#[test]
fn control_bytes_are_ignored_in_insertion() {
    let mut state = editor(&["abc"], 10);
    press(&mut state, &[KEY_INSERT, 1, b'\n', b' ', b'~']);
    assert_eq!(state.col(), 2);
    assert_eq!(buffer_text(&state), Some((" ~".to_string(), "abc".to_string())));
}

#[test]
fn sticky_column_down_then_up() {
    let mut state = editor(&["ab", "abcdef"], 10);
    press(&mut state, &[KEY_DOWN]);
    press(&mut state, &[KEY_RIGHT, KEY_RIGHT, KEY_RIGHT, KEY_RIGHT, KEY_RIGHT]);
    assert_eq!((state.row(), state.col(), state.target_col()), (1, 5, 5));
    press(&mut state, &[KEY_UP]);
    assert_eq!((state.row(), state.col(), state.target_col()), (0, 2, 5));
    press(&mut state, &[KEY_DOWN]);
    assert_eq!((state.row(), state.col(), state.target_col()), (1, 5, 5));
    press(&mut state, &[KEY_UP]);
    assert_eq!((state.row(), state.col()), (0, 2));
}

#[test]
fn short_to_long_and_back_uses_target_column() {
    let mut state = editor(&["abc", "abcdef"], 10);
    press(&mut state, &[KEY_RIGHT, KEY_RIGHT]);
    press(&mut state, &[KEY_DOWN]);
    assert_eq!((state.row(), state.col()), (1, 2));
    press(&mut state, &[KEY_UP]);
    assert_eq!((state.row(), state.col(), state.target_col()), (0, 2, 2));
}

#[test]
fn move_down_bounded_by_viewport_and_document() {
    let mut state = editor(&["a", "b", "c", "d"], 2);
    press(&mut state, &[KEY_DOWN, KEY_DOWN, KEY_DOWN]);
    assert_eq!(state.row(), 1);
    let mut state = editor(&["a", "b"], 10);
    press(&mut state, &[KEY_DOWN, KEY_DOWN]);
    assert_eq!(state.row(), 1);
}

#[test]
fn clear_line_shifts_lines_up() {
    let mut state = editor(&["a", "bcd", "c"], 10);
    press(&mut state, &[KEY_DOWN, KEY_RIGHT, KEY_RIGHT, KEY_RIGHT, KEY_UP]);
    assert_eq!((state.row(), state.col(), state.target_col()), (0, 1, 3));
    press(&mut state, &[KEY_CLEAR_LINE]);
    assert_eq!(texts(&state), vec!["bcd", "c", ""]);
    assert_eq!((state.row(), state.col()), (0, 3));
    press(&mut state, &[KEY_CLEAR_LINE]);
    assert_eq!(texts(&state), vec!["c", "", ""]);
    assert_eq!(state.col(), 1);
}

#[test]
fn open_line_below_starts_insertion() {
    let mut state = editor(&["a", "b"], 10);
    press(&mut state, &[KEY_RIGHT, KEY_OPEN_BELOW]);
    assert_eq!((state.row(), state.col()), (1, 0));
    assert_eq!(texts(&state), vec!["a", "", "b"]);
    press(&mut state, &[b'h', b'i', KEY_ESCAPE]);
    assert_eq!(texts(&state), vec!["a", "hi", "b"]);
    assert_eq!((state.row(), state.col(), state.target_col()), (1, 2, 2));
    press(&mut state, &[KEY_DOWN, KEY_OPEN_BELOW, b'z', KEY_ESCAPE]);
    assert_eq!(texts(&state), vec!["a", "hi", "b", "z"]);
    assert_eq!(state.row(), 3);
}

#[test]
fn quit_stops_and_other_keys_are_ignored() {
    let mut state = editor(&["abc"], 10);
    assert!(state.handle_keypress(b'x'));
    assert_eq!((state.row(), state.col()), (0, 0));
    assert_eq!(texts(&state), vec!["abc"]);
    assert!(!state.handle_keypress(KEY_QUIT));
    assert!(matches!(state.mode(), Mode::Navigation));
}

#[test]
fn quit_key_is_typed_in_insertion() {
    let mut state = editor(&[""], 10);
    press(&mut state, &[KEY_INSERT, KEY_QUIT, KEY_ESCAPE]);
    assert_eq!(texts(&state), vec!["q"]);
}

#[test]
fn cursor_columns_follow_display_width() {
    let mut state = editor(&["中a文b"], 10);
    press(&mut state, &[KEY_RIGHT, KEY_RIGHT]);
    assert_eq!(state.cursor_columns(), 3);
    press(&mut state, &[KEY_INSERT]);
    assert_eq!(state.cursor_columns(), 3);
    press(&mut state, &[b'x']);
    assert_eq!(state.cursor_columns(), 4);
    press(&mut state, &[KEY_ESCAPE, KEY_RIGHT]);
    assert_eq!(state.col(), 4);
    assert_eq!(state.cursor_columns(), 6);
}

#[test]
fn current_line_and_viewport_getters() {
    let mut state = editor(&["a", "b"], 7);
    press(&mut state, &[KEY_DOWN]);
    assert_eq!(state.get_current_line().map(|l| l.as_str()), Some("b"));
    assert_eq!(state.viewport().rows, 7);
    assert_eq!(state.viewport().cols, 80);
}
