use spire::{Action, Editor, EditorMode, Error, Input, Key};

fn key(k: Key) -> Input {
    Input { key: k, ctrl: false, alt: false, shift: false }
}

fn ch(c: char) -> Input {
    key(Key::Character(c))
}

fn lines_of(e: &Editor) -> Vec<String> {
    e.textarea().get_lines()
}

fn loaded(bytes: &[u8]) -> Editor {
    let mut e = Editor::new();
    assert!(e.load_bytes(bytes).is_ok());
    e
}

fn strings(v: &[&str]) -> Vec<String> {
    v.iter().map(|s| s.to_string()).collect()
}

#[test]
fn scenario_type_into_empty_buffer() {
    let mut e = Editor::new();
    assert_eq!(e.handle_input(ch('i')), Action::ModeChanged);
    assert_eq!(e.mode(), EditorMode::Insert);
    assert_eq!(e.handle_input(ch('H')), Action::BufferMutated);
    assert_eq!(e.handle_input(ch('i')), Action::BufferMutated);
    assert_eq!(e.handle_input(key(Key::Escape)), Action::ModeChanged);
    assert_eq!(lines_of(&e), strings(&["Hi"]));
    assert_eq!(e.mode(), EditorMode::Normal);
    assert_eq!(e.textarea().cursor_position(), (0, 2));
    assert_eq!(e.save_bytes(), b"Hi\n".to_vec());
}

#[test]
fn scenario_move_right_wraps_to_next_line() {
    let mut e = loaded(b"ab\ncd");
    assert_eq!(e.handle_input(ch('l')), Action::CursorMove);
    assert_eq!(e.handle_input(key(Key::RightArrow)), Action::CursorMove);
    assert_eq!(e.textarea().cursor_position(), (0, 2));
    assert_eq!(e.handle_input(ch('l')), Action::CursorMove);
    assert_eq!(e.textarea().cursor_position(), (1, 0));
}

#[test]
fn scenario_backspace_at_start_of_non_blank_line() {
    let mut e = loaded(b"ab\ncd");
    e.handle_input(ch('j'));
    assert_eq!(e.textarea().cursor_position(), (1, 0));
    e.handle_input(ch('i'));
    assert_eq!(e.handle_input(key(Key::Backspace)), Action::BufferMutated);
    assert_eq!(e.textarea().cursor_position(), (0, 2));
    assert_eq!(lines_of(&e), strings(&["ab", "cd"]));
    assert_eq!(e.save_bytes(), b"ab\ncd\n".to_vec());
}

#[test]
fn scenario_backspace_at_start_of_blank_line() {
    let mut e = loaded(b"ab\n  \ncd");
    e.handle_input(key(Key::DownArrow));
    assert_eq!(e.textarea().cursor_position(), (1, 0));
    e.handle_input(ch('i'));
    assert_eq!(e.handle_input(key(Key::Backspace)), Action::BufferMutated);
    assert_eq!(lines_of(&e), strings(&["ab", "cd"]));
    assert_eq!(e.textarea().cursor_position(), (0, 2));
    assert_eq!(e.save_bytes(), b"ab\ncd\n".to_vec());
}

#[test]
fn scenario_insert_mode_never_quits() {
    let mut e = Editor::new();
    e.handle_input(ch('i'));
    let quit = Input { key: Key::Character('Q'), ctrl: false, alt: false, shift: true };
    assert_eq!(e.handle_input(quit), Action::BufferMutated);
    assert_eq!(lines_of(&e), strings(&["Q"]));
    e.handle_input(key(Key::Escape));
    assert_eq!(e.handle_input(quit), Action::QuitRequested);
    assert_eq!(lines_of(&e), strings(&["Q"]));
}

#[test]
fn normal_mode_q_without_shift_is_ignored() {
    let mut e = Editor::new();
    assert_eq!(e.handle_input(ch('Q')), Action::Ignored);
    assert_eq!(e.handle_input(ch('x')), Action::Ignored);
    assert_eq!(e.handle_input(key(Key::Tab)), Action::Ignored);
    assert_eq!(e.mode(), EditorMode::Normal);
}

#[test]
fn normal_mode_w_requests_save() {
    let mut e = loaded(b"x");
    assert_eq!(e.handle_input(ch('W')), Action::SaveRequested);
    assert_eq!(e.save_bytes(), b"x\n".to_vec());
}

#[test]
fn load_then_save_adds_final_newline() {
    let e = loaded(b"a\nb\nc");
    assert_eq!(lines_of(&e), strings(&["a", "b", "c"]));
    assert_eq!(e.save_bytes(), b"a\nb\nc\n".to_vec());
}

#[test]
fn load_then_save_keeps_terminated_bytes() {
    let e = loaded(b"a\n\nb\n");
    assert_eq!(lines_of(&e), strings(&["a", "", "b"]));
    assert_eq!(e.save_bytes(), b"a\n\nb\n".to_vec());
}

#[test]
fn load_utf8_text() {
    let e = loaded("é€\nx".as_bytes());
    assert_eq!(lines_of(&e), strings(&["é€", "x"]));
    assert_eq!(e.save_bytes(), "é€\nx\n".as_bytes().to_vec());
}

#[test]
fn save_twice_is_identical() {
    let mut e = loaded(b"one\ntwo");
    let first = e.save_bytes();
    let second = e.save_bytes();
    assert_eq!(first, second);
    e.handle_input(ch('j'));
    e.handle_input(ch('l'));
    e.handle_input(ch('i'));
    e.handle_input(key(Key::Escape));
    assert_eq!(e.save_bytes(), first);
}

#[test]
fn empty_file_loads_one_empty_line() {
    let e = loaded(b"");
    assert_eq!(lines_of(&e), strings(&[""]));
    assert_eq!(e.textarea().cursor_position(), (0, 0));
    assert_eq!(e.save_bytes(), b"\n".to_vec());
}

#[test]
fn new_editor_state() {
    let e = Editor::new();
    assert_eq!(e.mode(), EditorMode::Normal);
    assert_eq!(lines_of(&e), strings(&[""]));
    assert!(e.file_name().is_none());
    assert_eq!(e.status_message(), "");
}

#[test]
fn invalid_utf8_is_rejected_unchanged() {
    let mut e = loaded(b"keep");
    let r = e.load_bytes(b"ok\n\xff\xfe\nfine");
    assert!(matches!(r, Err(Error::Decode(1))));
    assert_eq!(lines_of(&e), strings(&["keep"]));
}

#[test]
fn enter_splits_line() {
    let mut e = loaded(b"abcd");
    e.handle_input(ch('l'));
    e.handle_input(ch('l'));
    e.handle_input(ch('i'));
    assert_eq!(e.handle_input(key(Key::Enter)), Action::BufferMutated);
    assert_eq!(lines_of(&e), strings(&["ab", "cd"]));
    assert_eq!(e.textarea().cursor_position(), (1, 0));
    assert_eq!(e.save_bytes(), b"ab\ncd\n".to_vec());
}

#[test]
fn backspace_deletes_previous_character() {
    let mut e = loaded(b"abc");
    e.handle_input(ch('l'));
    e.handle_input(ch('l'));
    e.handle_input(ch('i'));
    assert_eq!(e.handle_input(key(Key::Backspace)), Action::BufferMutated);
    assert_eq!(lines_of(&e), strings(&["ac"]));
    assert_eq!(e.textarea().cursor_position(), (0, 1));
}

#[test]
fn backspace_at_buffer_start_is_ignored() {
    let mut e = loaded(b"abc");
    e.handle_input(ch('i'));
    assert_eq!(e.handle_input(key(Key::Backspace)), Action::Ignored);
    assert_eq!(lines_of(&e), strings(&["abc"]));
    assert_eq!(e.textarea().cursor_position(), (0, 0));
}

#[test]
fn insert_mode_ignores_other_keys() {
    let mut e = Editor::new();
    e.handle_input(ch('i'));
    assert_eq!(e.handle_input(key(Key::Function(1))), Action::Ignored);
    assert_eq!(e.handle_input(key(Key::LeftArrow)), Action::Ignored);
    assert_eq!(e.handle_input(key(Key::Null)), Action::Ignored);
    assert_eq!(e.mode(), EditorMode::Insert);
}

#[test]
fn action_mutation_flag() {
    assert!(Action::BufferMutated.is_mutation());
    assert!(!Action::CursorMove.is_mutation());
    assert!(!Action::Ignored.is_mutation());
}

#[test]
fn mode_names_and_default() {
    assert_eq!(EditorMode::Normal.to_string(), "NORMAL");
    assert_eq!(EditorMode::Insert.to_string(), "INSERT");
    assert_eq!(EditorMode::default(), EditorMode::Normal);
}

#[test]
fn file_name_and_status() {
    let mut e = Editor::new();
    e.set_file_name(Some("notes.txt".to_string()));
    assert_eq!(e.file_name().as_deref(), Some("notes.txt"));
    e.set_status_message("saved".to_string());
    assert_eq!(e.status_message(), "saved");
}

#[test]
fn io_error_converts() {
    let err = std::io::Error::new(std::io::ErrorKind::NotFound, "gone");
    let e: Error = Error::from(err);
    assert!(matches!(e, Error::Io(ref inner) if inner.kind() == std::io::ErrorKind::NotFound));
}

#[test]
fn every_line_gets_its_own_terminator() {
    let mut e = Editor::new();
    e.handle_input(ch('i'));
    assert_eq!(e.handle_input(ch('\n')), Action::BufferMutated);
    assert_eq!(e.save_bytes(), b"\n\n".to_vec());
    e.handle_input(key(Key::Enter));
    assert_eq!(e.save_bytes(), b"\n\n\n".to_vec());
}
