use ratatui::layout::Rect;
use ratatui::style::{Color, Style};
use spire::textarea::line_is_blank;
use spire::TextArea;

fn area(v: &[&str]) -> TextArea {
    TextArea::new(v.iter().map(|s| s.to_string()).collect())
}

#[test]
fn new_with_no_lines_has_one_empty_line() {
    let t = TextArea::new(Vec::new());
    assert_eq!(t.get_lines(), vec![String::new()]);
    assert_eq!(t.cursor_position(), (0, 0));
}

#[test]
fn move_left_wraps_to_previous_line_end() {
    let mut t = area(&["abc", "d"]);
    t.move_cursor_down();
    assert_eq!(t.cursor_position(), (1, 0));
    t.move_cursor_left();
    assert_eq!(t.cursor_position(), (0, 3));
    t.move_cursor_left();
    assert_eq!(t.cursor_position(), (0, 2));
}

#[test]
fn moves_stop_at_buffer_edges() {
    let mut t = area(&["ab"]);
    t.move_cursor_left();
    t.move_cursor_up();
    assert_eq!(t.cursor_position(), (0, 0));
    t.move_cursor_to_end();
    assert_eq!(t.cursor_position(), (0, 2));
    t.move_cursor_right();
    t.move_cursor_down();
    assert_eq!(t.cursor_position(), (0, 2));
}

#[test]
fn vertical_moves_clamp_column() {
    let mut t = area(&["abcdef", "ab", "abcdef"]);
    t.move_cursor_to_end();
    t.move_cursor_down();
    assert_eq!(t.cursor_position(), (1, 2));
    t.move_cursor_down();
    assert_eq!(t.cursor_position(), (2, 2));
    t.move_cursor_to_end();
    t.move_cursor_up();
    assert_eq!(t.cursor_position(), (1, 2));
}

#[test]
fn insert_character_in_middle() {
    let mut t = area(&["ac"]);
    t.move_cursor_right();
    t.insert_character('b');
    assert_eq!(t.get_lines(), vec!["abc".to_string()]);
    assert_eq!(t.cursor_position(), (0, 2));
}

#[test]
fn insert_new_line_at_end_and_start() {
    let mut t = area(&["ab"]);
    t.move_cursor_to_end();
    t.insert_new_line();
    assert_eq!(t.get_lines(), vec!["ab".to_string(), String::new()]);
    assert_eq!(t.cursor_position(), (1, 0));
}

#[test]
fn delete_left_removes_last_blank_line() {
    let mut t = area(&["ab", "\t "]);
    t.move_cursor_down();
    t.delete_left();
    assert_eq!(t.get_lines(), vec!["ab".to_string()]);
    assert_eq!(t.cursor_position(), (0, 2));
}

#[test]
fn delete_left_with_given_blankness() {
    let mut t = area(&["ab", "cd"]);
    t.move_cursor_down();
    t.delete_left_with_blank(true);
    assert_eq!(t.get_lines(), vec!["ab".to_string()]);
    assert_eq!(t.cursor_position(), (0, 2));
    let mut u = area(&["ab", "  "]);
    u.move_cursor_down();
    u.delete_left_with_blank(false);
    assert_eq!(u.get_lines(), vec!["ab".to_string(), "  ".to_string()]);
    assert_eq!(u.cursor_position(), (0, 2));
}

#[test]
fn blank_lines() {
    assert!(line_is_blank(&[]));
    assert!(line_is_blank(&[' ', '\t', '\u{a0}', '\u{3000}', '\u{2028}']));
    assert!(!line_is_blank(&[' ', 'x']));
}

#[test]
fn cursor_coordinates_for_drawing() {
    let mut t = area(&["abc", "de"]);
    t.move_cursor_down();
    t.move_cursor_right();
    let r = Rect::new(0, 0, 10, 10);
    assert_eq!(t.get_cursor_x(r), 1);
    assert_eq!(t.get_cursor_y(r), 1);
}

#[test]
fn style_is_set() {
    let s = Style::new().fg(Color::Red);
    let t = area(&["a"]).set_style(s);
    assert!(t.style() == s);
    assert_eq!(t.get_lines(), vec!["a".to_string()]);
}
