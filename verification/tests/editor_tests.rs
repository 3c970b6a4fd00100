use msc_player::editor::InputLine;

fn typed(s: &str) -> InputLine {
    let mut line = InputLine::new();
    for c in s.chars() {
        line.enter_char(c);
    }
    line
}

#[test]
fn new_line_is_empty() {
    let line = InputLine::new();
    assert_eq!(line.text(), "");
    assert_eq!(line.char_index(), 0);
    assert_eq!(line.byte_index(), 0);
}

#[test]
fn typing_appends_and_moves_cursor() {
    let line = typed("/music");
    assert_eq!(line.text(), "/music");
    assert_eq!(line.char_index(), 6);
}

#[test]
fn typing_in_the_middle_inserts_at_cursor() {
    let mut line = typed("abd");
    line.move_cursor_left();
    line.enter_char('c');
    assert_eq!(line.text(), "abcd");
    assert_eq!(line.char_index(), 3);
}

#[test]
fn byte_index_counts_utf8_bytes() {
    let mut line = typed("çãoé");
    assert_eq!(line.byte_index(), 7);
    line.move_cursor_left();
    line.move_cursor_left();
    assert_eq!(line.char_index(), 2);
    assert_eq!(line.byte_index(), 4);
    line.enter_char('x');
    assert_eq!(line.text(), "çãxoé");
}

#[test]
fn multibyte_insert_and_delete() {
    let mut line = typed("ab");
    line.move_cursor_left();
    line.enter_char('🎵');
    assert_eq!(line.text(), "a🎵b");
    assert_eq!(line.byte_index(), 5);
    line.delete_char();
    assert_eq!(line.text(), "ab");
    assert_eq!(line.char_index(), 1);
}

#[test]
fn delete_at_start_does_nothing() {
    let mut line = typed("ab");
    line.move_cursor_left();
    line.move_cursor_left();
    line.delete_char();
    assert_eq!(line.text(), "ab");
    assert_eq!(line.char_index(), 0);
}

#[test]
fn delete_removes_char_left_of_cursor() {
    let mut line = typed("hello");
    line.move_cursor_left();
    line.delete_char();
    assert_eq!(line.text(), "helo");
    assert_eq!(line.char_index(), 3);
}

#[test]
fn cursor_stays_within_text() {
    let mut line = typed("ab");
    line.move_cursor_right();
    assert_eq!(line.char_index(), 2);
    line.move_cursor_left();
    line.move_cursor_left();
    line.move_cursor_left();
    assert_eq!(line.char_index(), 0);
}

#[test]
fn clamp_cursor_bounds_by_char_count() {
    let line = typed("ção");
    assert_eq!(line.clamp_cursor(10), 3);
    assert_eq!(line.clamp_cursor(2), 2);
    assert_eq!(line.clamp_cursor(0), 0);
}

#[test]
fn delete_undoes_enter() {
    let mut line = typed("abc");
    line.move_cursor_left();
    line.enter_char('z');
    line.delete_char();
    assert_eq!(line.text(), "abc");
    assert_eq!(line.char_index(), 2);
}
