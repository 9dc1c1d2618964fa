use vedit::editor::Editor;
use vedit::marker::Marker;
use vedit::mode::{Action, Key, Mode};

fn chars(s: &str) -> Vec<char> {
    s.chars().collect()
}

fn editor_with(text: &str) -> Editor {
    let mut e = Editor::new();
    e.load_text(&chars(text));
    e.resize(80, 24);
    e
}

fn line(e: &Editor, i: usize) -> String {
    e.buffer.line(i).iter().collect()
}

fn all_lines(e: &Editor) -> Vec<String> {
    (0..e.buffer.line_count()).map(|i| line(e, i)).collect()
}

fn press(e: &mut Editor, keys: &str) {
    for c in keys.chars() {
        e.handle_key(Key::Char(c));
    }
}

#[test]
fn move_right_clamps_at_last_character() {
    let mut e = editor_with("abc");
    assert_eq!(e.position(), (0, 0));
    press(&mut e, "lll");
    assert_eq!(e.position(), (2, 0));
    press(&mut e, "l");
    assert_eq!(e.position(), (2, 0));
    assert_eq!(e.mode, Mode::Normal);
}

#[test]
fn move_down_clamps_column_then_delete_char() {
    let mut e = editor_with("ab\ncd");
    press(&mut e, "$");
    assert_eq!(e.position(), (1, 0));
    press(&mut e, "j");
    // the column is clamped onto the shorter-or-equal line below
    assert_eq!(e.position().1, 1);
    assert!(e.position().0 <= 1);
    press(&mut e, "x");
    assert_eq!(all_lines(&e), vec!["ab", "c"]);
    assert_eq!(e.position(), (0, 1));
}

#[test]
fn delete_char_at_line_start_after_move_down() {
    let mut e = editor_with("ab\ncd");
    press(&mut e, "jx");
    assert_eq!(all_lines(&e), vec!["ab", "d"]);
    assert_eq!(e.position(), (0, 1));
}

#[test]
fn enter_at_end_of_line_opens_empty_line() {
    let mut e = editor_with("a");
    press(&mut e, "a");
    assert_eq!(e.mode, Mode::Insert);
    assert_eq!(e.position(), (1, 0));
    e.handle_key(Key::Char('\n'));
    assert_eq!(all_lines(&e), vec!["a", ""]);
    assert_eq!(e.position(), (0, 1));
}

#[test]
fn delete_middle_line_with_two_keys() {
    let mut e = editor_with("x\ny\nz");
    press(&mut e, "j");
    assert_eq!(e.position(), (0, 1));
    press(&mut e, "d");
    assert_eq!(e.mode, Mode::Spatial('d'));
    press(&mut e, "d");
    assert_eq!(all_lines(&e), vec!["x", "z"]);
    assert_eq!(e.mode, Mode::Normal);
    assert_eq!(e.position(), (0, 1));
}

#[test]
fn write_quit_command_asks_to_save_and_quit() {
    let mut e = editor_with("abc");
    assert_eq!(e.handle_key(Key::Char(':')), Action::Nothing);
    assert_eq!(e.mode, Mode::Command);
    assert_eq!(e.handle_key(Key::Char('w')), Action::Nothing);
    assert_eq!(e.handle_key(Key::Char('q')), Action::Nothing);
    assert_eq!(e.command, chars("wq"));
    assert_eq!(e.handle_key(Key::Char('\n')), Action::SaveAndQuit);
    assert_eq!(e.mode, Mode::Normal);
    assert!(e.command.is_empty());
}

#[test]
fn move_left_at_first_column_is_a_no_op_repeatedly() {
    let mut e = editor_with("abc");
    press(&mut e, "h");
    assert_eq!(e.position(), (0, 0));
    press(&mut e, "hh");
    assert_eq!(e.position(), (0, 0));
    assert_eq!(e.offset, Marker(0, 0));
}

#[test]
fn move_right_at_line_end_is_a_no_op_repeatedly() {
    let mut e = editor_with("ab");
    press(&mut e, "$");
    let before = (e.position(), e.offset, e.cursor);
    press(&mut e, "lll");
    assert_eq!((e.position(), e.offset, e.cursor), before);
}

#[test]
fn vertical_motion_clamps_column_to_destination_line() {
    let mut e = editor_with("abcdef\nxy\n\nlonger line");
    press(&mut e, "$");
    assert_eq!(e.position(), (5, 0));
    press(&mut e, "j");
    assert_eq!(e.position(), (1, 1));
    press(&mut e, "j");
    assert_eq!(e.position(), (0, 2));
    press(&mut e, "j");
    assert_eq!(e.position(), (0, 3));
    press(&mut e, "j");
    assert_eq!(e.position(), (0, 3));
    press(&mut e, "kkkk");
    assert_eq!(e.position(), (0, 0));
}

#[test]
fn arrow_keys_move_in_normal_mode() {
    let mut e = editor_with("abc\ndef");
    e.handle_key(Key::Right);
    e.handle_key(Key::Down);
    assert_eq!(e.position(), (1, 1));
    e.handle_key(Key::Left);
    e.handle_key(Key::Up);
    assert_eq!(e.position(), (0, 0));
}

#[test]
fn append_moves_past_cursor_and_escape_retreats() {
    let mut e = editor_with("abc");
    press(&mut e, "l");
    press(&mut e, "a");
    assert_eq!(e.mode, Mode::Insert);
    assert_eq!(e.position(), (2, 0));
    press(&mut e, "X");
    assert_eq!(all_lines(&e), vec!["abXc"]);
    assert_eq!(e.position(), (3, 0));
    e.handle_key(Key::Esc);
    assert_eq!(e.mode, Mode::Normal);
    assert_eq!(e.position(), (2, 0));
}

#[test]
fn append_at_end_and_insert_at_start() {
    let mut e = editor_with("abc");
    press(&mut e, "A");
    assert_eq!(e.mode, Mode::Insert);
    assert_eq!(e.position(), (3, 0));
    e.handle_key(Key::Esc);
    press(&mut e, "I");
    assert_eq!(e.mode, Mode::Insert);
    assert_eq!(e.position(), (0, 0));
}

#[test]
fn append_on_empty_line_stays_at_column_zero() {
    let mut e = editor_with("");
    press(&mut e, "a");
    assert_eq!(e.position(), (0, 0));
    press(&mut e, "hi");
    assert_eq!(all_lines(&e), vec!["hi"]);
    assert_eq!(e.position(), (2, 0));
}

#[test]
fn insert_mode_may_reach_append_position() {
    let mut e = editor_with("ab");
    press(&mut e, "i");
    e.handle_key(Key::Right);
    e.handle_key(Key::Right);
    e.handle_key(Key::Right);
    assert_eq!(e.position(), (2, 0));
}

#[test]
fn open_line_below_and_above() {
    let mut e = editor_with("a\nb");
    press(&mut e, "o");
    assert_eq!(e.mode, Mode::Insert);
    assert_eq!(all_lines(&e), vec!["a", "", "b"]);
    assert_eq!(e.position(), (0, 1));
    e.handle_key(Key::Esc);
    press(&mut e, "O");
    assert_eq!(all_lines(&e), vec!["a", "", "", "b"]);
    assert_eq!(e.position(), (0, 1));
}

#[test]
fn substitute_line_empties_it() {
    let mut e = editor_with("one\ntwo");
    press(&mut e, "jlS");
    assert_eq!(all_lines(&e), vec!["one", ""]);
    assert_eq!(e.mode, Mode::Insert);
    assert_eq!(e.position(), (0, 1));
}

#[test]
fn change_and_delete_to_end_of_line() {
    let mut e = editor_with("hello\nworld");
    press(&mut e, "llC");
    assert_eq!(all_lines(&e), vec!["he", "world"]);
    assert_eq!(e.mode, Mode::Insert);
    assert_eq!(e.position(), (2, 0));
    e.handle_key(Key::Esc);
    assert_eq!(e.position(), (1, 0));
    press(&mut e, "jllD");
    assert_eq!(all_lines(&e), vec!["he", "wor"]);
    assert_eq!(e.position(), (2, 1));
}

#[test]
fn delete_char_on_empty_line_does_nothing() {
    let mut e = editor_with("\nx");
    press(&mut e, "x");
    assert_eq!(all_lines(&e), vec!["", "x"]);
    assert_eq!(e.position(), (0, 0));
}

#[test]
fn delete_last_char_moves_cursor_back() {
    let mut e = editor_with("abc");
    press(&mut e, "$x");
    assert_eq!(all_lines(&e), vec!["ab"]);
    assert_eq!(e.position(), (1, 0));
}

#[test]
fn line_start_and_end_keys() {
    let mut e = editor_with("abcd");
    press(&mut e, "$");
    assert_eq!(e.position(), (3, 0));
    press(&mut e, "0");
    assert_eq!(e.position(), (0, 0));
}

#[test]
fn delete_line_keeps_one_line() {
    let mut e = editor_with("only");
    press(&mut e, "dd");
    assert_eq!(all_lines(&e), vec![""]);
    assert_eq!(e.buffer.line_count(), 1);
    press(&mut e, "dd");
    assert_eq!(all_lines(&e), vec![""]);
    assert_eq!(e.position(), (0, 0));
}

#[test]
fn delete_last_line_moves_cursor_up() {
    let mut e = editor_with("ab\ncdef");
    press(&mut e, "j$");
    assert_eq!(e.position(), (3, 1));
    press(&mut e, "dd");
    assert_eq!(all_lines(&e), vec!["ab"]);
    assert_eq!(e.position(), (1, 0));
}

#[test]
fn pending_operator_cancelled_by_other_key() {
    let mut e = editor_with("a\nb");
    press(&mut e, "dj");
    assert_eq!(e.mode, Mode::Normal);
    assert_eq!(all_lines(&e), vec!["a", "b"]);
    assert_eq!(e.position(), (0, 0));
}

#[test]
fn insert_characters_and_tab() {
    let mut e = editor_with("ab");
    press(&mut e, "i");
    e.handle_key(Key::Char('\t'));
    assert_eq!(all_lines(&e), vec!["    ab"]);
    assert_eq!(e.position(), (4, 0));
    press(&mut e, "x");
    assert_eq!(all_lines(&e), vec!["    xab"]);
    assert_eq!(e.position(), (5, 0));
}

#[test]
fn enter_splits_line_at_cursor() {
    let mut e = editor_with("abcd");
    press(&mut e, "lli");
    e.handle_key(Key::Char('\n'));
    assert_eq!(all_lines(&e), vec!["ab", "cd"]);
    assert_eq!(e.position(), (0, 1));
}

#[test]
fn backspace_deletes_previous_character() {
    let mut e = editor_with("abc");
    press(&mut e, "A");
    e.handle_key(Key::Backspace);
    assert_eq!(all_lines(&e), vec!["ab"]);
    assert_eq!(e.position(), (2, 0));
}

#[test]
fn backspace_at_line_start_joins_lines() {
    let mut e = editor_with("ab\ncd");
    press(&mut e, "ji");
    e.handle_key(Key::Backspace);
    assert_eq!(all_lines(&e), vec!["abcd"]);
    assert_eq!(e.position(), (2, 0));
    assert_eq!(e.mode, Mode::Insert);
}

#[test]
fn backspace_at_document_start_does_nothing() {
    let mut e = editor_with("ab");
    press(&mut e, "i");
    e.handle_key(Key::Backspace);
    assert_eq!(all_lines(&e), vec!["ab"]);
    assert_eq!(e.position(), (0, 0));
}

#[test]
fn command_escape_discards_text() {
    let mut e = editor_with("a");
    press(&mut e, ":q");
    assert_eq!(e.handle_key(Key::Esc), Action::Nothing);
    assert_eq!(e.mode, Mode::Normal);
    assert!(e.command.is_empty());
}

#[test]
fn command_backspace_removes_last_character() {
    let mut e = editor_with("a");
    press(&mut e, ":wx");
    e.handle_key(Key::Backspace);
    assert_eq!(e.command, chars("w"));
    assert_eq!(e.handle_key(Key::Char('\n')), Action::Save);
    e.handle_key(Key::Char(':'));
    e.handle_key(Key::Backspace);
    assert!(e.command.is_empty());
    assert_eq!(e.mode, Mode::Command);
}

#[test]
fn command_quit_and_unknown() {
    let mut e = editor_with("a");
    press(&mut e, ":quit");
    assert_eq!(e.handle_key(Key::Char('\n')), Action::Quit);
    press(&mut e, ":foo");
    assert_eq!(e.handle_key(Key::Char('\n')), Action::Nothing);
    assert_eq!(e.mode, Mode::Normal);
}

#[test]
fn ctrl_c_and_ctrl_z_quit_in_any_mode() {
    let mut e = editor_with("a");
    assert_eq!(e.handle_key(Key::Ctrl('c')), Action::Quit);
    press(&mut e, "i");
    assert_eq!(e.handle_key(Key::Ctrl('z')), Action::Quit);
    assert_eq!(e.mode, Mode::Insert);
}

#[test]
fn unhandled_keys_change_nothing() {
    let mut e = editor_with("abc\ndef");
    press(&mut e, "l");
    let before = (e.position(), e.offset, e.cursor, e.mode);
    press(&mut e, "zQ");
    e.handle_key(Key::Other);
    e.handle_key(Key::Ctrl('x'));
    e.handle_key(Key::Esc);
    assert_eq!((e.position(), e.offset, e.cursor, e.mode), before);
    assert_eq!(all_lines(&e), vec!["abc", "def"]);
}

fn numbered(n: usize) -> String {
    let mut s = String::new();
    for i in 0..n {
        s.push_str(&format!("line {}\n", i));
    }
    s
}

#[test]
fn moving_down_scrolls_by_one_line_at_bottom_edge() {
    let mut e = editor_with(&numbered(30));
    e.resize(80, 7);
    assert_eq!(e.size, (75, 5));
    press(&mut e, "jjjj");
    assert_eq!(e.cursor, Marker(0, 4));
    assert_eq!(e.offset, Marker(0, 0));
    press(&mut e, "j");
    assert_eq!(e.cursor, Marker(0, 4));
    assert_eq!(e.offset, Marker(0, 1));
    assert_eq!(e.position(), (0, 5));
    press(&mut e, "kkkk");
    assert_eq!(e.offset, Marker(0, 1));
    press(&mut e, "k");
    assert_eq!(e.offset, Marker(0, 0));
    assert_eq!(e.cursor, Marker(0, 0));
}

#[test]
fn moving_right_scrolls_horizontally() {
    let mut e = editor_with("abcdefghij");
    e.resize(8, 24);
    assert_eq!(e.size, (3, 22));
    press(&mut e, "lll");
    assert_eq!(e.offset, Marker(1, 0));
    assert_eq!(e.cursor, Marker(2, 0));
    press(&mut e, "0");
    assert_eq!(e.offset, Marker(0, 0));
    assert_eq!(e.cursor, Marker(0, 0));
}

#[test]
fn jump_to_last_line() {
    let mut e = editor_with(&numbered(50));
    e.resize(80, 24);
    press(&mut e, "G");
    assert_eq!(e.position(), (0, 49));
    assert_eq!(e.offset, Marker(0, 40));
    assert_eq!(e.cursor, Marker(0, 9));
}

#[test]
fn jump_in_short_viewport_scrolls_further() {
    let mut e = editor_with(&numbered(50));
    e.resize(80, 6);
    press(&mut e, "G");
    assert_eq!(e.position(), (0, 49));
    assert_eq!(e.offset, Marker(0, 46));
    assert_eq!(e.cursor, Marker(0, 3));
}

#[test]
fn half_page_down_and_up() {
    let mut e = editor_with(&numbered(100));
    e.resize(80, 22);
    assert_eq!(e.size.1, 20);
    e.handle_key(Key::Ctrl('d'));
    assert_eq!(e.position(), (0, 10));
    assert_eq!(e.offset, Marker(0, 10));
    assert_eq!(e.cursor, Marker(0, 0));
    press(&mut e, "jjj");
    e.handle_key(Key::Ctrl('d'));
    assert_eq!(e.position(), (0, 23));
    assert_eq!(e.offset, Marker(0, 20));
    e.handle_key(Key::Ctrl('u'));
    assert_eq!(e.position(), (0, 13));
    assert_eq!(e.offset, Marker(0, 10));
    e.handle_key(Key::Ctrl('u'));
    e.handle_key(Key::Ctrl('u'));
    assert_eq!(e.position(), (0, 0));
    assert_eq!(e.offset, Marker(0, 0));
}

#[test]
fn half_page_down_stops_at_last_line() {
    let mut e = editor_with("a\nb\nc");
    e.resize(80, 22);
    e.handle_key(Key::Ctrl('d'));
    assert_eq!(e.position(), (0, 2));
    assert_eq!(e.offset, Marker(0, 2));
    assert_eq!(e.cursor, Marker(0, 0));
}

#[test]
fn resize_sizes_and_screen_coordinate() {
    let mut e = editor_with("abc\ndef");
    assert_eq!(e.size, (75, 22));
    press(&mut e, "jl");
    assert_eq!(e.to_screen_coordinate(), (7, 2));
    e.resize(3, 1);
    assert_eq!(e.size, (1, 1));
    assert_eq!(e.position(), (1, 1));
    assert_eq!(e.cursor, Marker(0, 0));
    assert_eq!(e.offset, Marker(1, 1));
    assert_eq!(e.to_screen_coordinate(), (6, 1));
}

#[test]
fn visible_rows_and_slices() {
    let mut e = editor_with("abcdefgh\nxy\n\nlast");
    e.resize(9, 5);
    assert_eq!(e.size, (4, 3));
    assert_eq!(e.visible_rows(), 3);
    assert_eq!(e.visible_slice(0), chars("abcd"));
    assert_eq!(e.visible_slice(1), chars("xy"));
    assert_eq!(e.visible_slice(2), chars(""));
    press(&mut e, "$");
    assert_eq!(e.offset, Marker(4, 0));
    assert_eq!(e.visible_slice(0), chars("efgh"));
    assert_eq!(e.visible_slice(1), chars(""));
    press(&mut e, "jjj");
    assert_eq!(e.offset, Marker(0, 1));
    assert_eq!(e.visible_rows(), 3);
    assert_eq!(e.visible_slice(2), chars("last"));
}

#[test]
fn relative_numbers_count_from_cursor_row() {
    let mut e = editor_with("a\nb\nc\nd");
    press(&mut e, "jj");
    assert_eq!(e.relative_number(0), 2);
    assert_eq!(e.relative_number(2), 0);
    assert_eq!(e.relative_number(3), 1);
}

#[test]
fn load_and_save_text() {
    let mut e = editor_with("x");
    e.load_text(&chars("first\nsecond\n"));
    assert_eq!(all_lines(&e), vec!["first", "second"]);
    assert_eq!(e.position(), (0, 0));
    assert_eq!(e.save_text(), chars("first\nsecond\n"));
    press(&mut e, "A!");
    assert_eq!(e.save_text(), chars("first!\nsecond\n"));
}

#[test]
fn new_editor_has_one_empty_line() {
    let e = Editor::new();
    assert_eq!(e.buffer.line_count(), 1);
    assert_eq!(e.get_line_len(), 0);
    assert_eq!(e.mode, Mode::Normal);
    assert_eq!(e.size, (1, 1));
    assert_eq!(e.current_line(), 0);
    assert_eq!(e.current_column(), 0);
}

#[test]
fn scroll_to_and_reset_x_directly() {
    let mut e = editor_with(&numbered(40));
    e.scroll_to(25);
    assert_eq!(e.position(), (0, 25));
    assert_eq!(e.offset, Marker(0, 16));
    e.scroll_to(1000);
    assert_eq!(e.position(), (0, 39));
    e.place(3, 2);
    assert_eq!(e.position(), (3, 2));
    assert_eq!(e.offset, Marker(0, 2));
    e.reset_x();
    assert_eq!(e.position(), (0, 2));
}
