use rvim::key::Key;
use rvim::tui_renderer::{Action, EditingMode};
use rvim::viewport::compute_window;
use rvim::{FileBuffer, TuiRenderer};

fn editor_on(content: &str) -> TuiRenderer {
    TuiRenderer::new(FileBuffer::new("notes.txt".to_string(), content))
}

fn press(editor: &mut TuiRenderer, keys: &[Key]) {
    for key in keys {
        assert!(editor.accepts(*key));
        editor.handle_input(*key);
    }
}

fn lines(editor: &TuiRenderer) -> Vec<String> {
    editor.buffer().file_content().to_vec()
}

fn position(editor: &TuiRenderer) -> (usize, usize) {
    editor.cursor().position()
}

#[test]
fn new_editor_is_in_navigation_mode_at_the_origin() {
    let editor = editor_on("hello\nworld");
    assert_eq!(editor.mode(), EditingMode::Normal);
    assert_eq!(position(&editor), (0, 0));
    assert!(!editor.should_quit());
    assert_eq!(lines(&editor), ["hello", "world"]);
    assert_eq!(editor.buffer().file(), "notes.txt");
    assert!(editor.is_valid());
}

#[test]
fn two_lines_window_of_one_row_and_down_stays() {
    let mut editor = editor_on("hello\nworld");
    assert_eq!(lines(&editor), ["hello", "world"]);
    assert_eq!(position(&editor), (0, 0));
    assert_eq!(compute_window(editor.buffer().file_content().len(), 0, 1), (0, 1));
    assert_eq!(editor.handle_input(Key::Down), Action::Idle);
    assert_eq!(position(&editor), (0, 0));
    assert_eq!(editor.handle_input(Key::Char('j')), Action::Idle);
    assert_eq!(position(&editor), (0, 0));
}

#[test]
fn typing_s_behind_cat_gives_cats() {
    let mut editor = editor_on("cat");
    press(&mut editor, &[Key::Right, Key::Right, Key::Right, Key::Char('i')]);
    assert_eq!(editor.mode(), EditingMode::Insert);
    assert_eq!(position(&editor), (3, 0));
    assert_eq!(editor.handle_input(Key::Char('s')), Action::Idle);
    assert_eq!(lines(&editor), ["cats"]);
    assert_eq!(position(&editor), (4, 0));
}

#[test]
fn enter_splits_the_line_and_backspace_joins_it_again() {
    let mut editor = editor_on("abcd");
    press(&mut editor, &[Key::Right, Key::Right, Key::Char('i')]);
    assert_eq!(position(&editor), (2, 0));
    press(&mut editor, &[Key::Enter]);
    assert_eq!(lines(&editor), ["ab", "cd"]);
    assert_eq!(position(&editor), (0, 1));
    press(&mut editor, &[Key::Backspace]);
    assert_eq!(lines(&editor), ["abcd"]);
    assert_eq!(position(&editor), (2, 0));
    assert_eq!(editor.mode(), EditingMode::Insert);
}

#[test]
fn enter_then_backspace_gives_the_text_back_at_every_position() {
    let content = "first\n\nthird line\nx";
    for row in [0usize, 2] {
        let length = content.split('\n').nth(row).unwrap().chars().count();
        for column in 0..=length {
            let mut editor = editor_on(content);
            for _ in 0..row {
                press(&mut editor, &[Key::Down]);
            }
            for _ in 0..column {
                press(&mut editor, &[Key::Right]);
            }
            press(&mut editor, &[Key::Char('i')]);
            assert_eq!(position(&editor), (column, row));
            press(&mut editor, &[Key::Enter]);
            assert_eq!(position(&editor), (0, row + 1));
            assert_eq!(lines(&editor).len(), 5);
            press(&mut editor, &[Key::Backspace]);
            assert_eq!(position(&editor), (column, row));
            assert_eq!(editor.buffer().to_text(), content);
        }
    }
}

#[test]
fn insert_then_escape_keeps_the_column_or_goes_one_left() {
    let mut editor = editor_on("hello");
    press(&mut editor, &[Key::Char('i'), Key::Esc]);
    assert_eq!(editor.mode(), EditingMode::Normal);
    assert_eq!(position(&editor), (0, 0));
    press(&mut editor, &[Key::Right, Key::Right, Key::Right]);
    press(&mut editor, &[Key::Char('i'), Key::Esc]);
    assert_eq!(editor.mode(), EditingMode::Normal);
    assert_eq!(position(&editor), (2, 0));
    assert_eq!(lines(&editor), ["hello"]);
}

#[test]
fn insert_then_escape_never_moves_right_from_any_column() {
    for column in 0..=5usize {
        let mut editor = editor_on("hello");
        for _ in 0..column {
            press(&mut editor, &[Key::Char('l')]);
        }
        press(&mut editor, &[Key::Char('i'), Key::Esc]);
        let after = position(&editor).0;
        assert!(after <= column && column <= after + 1);
        assert_eq!(after, column.saturating_sub(1));
        assert_eq!(editor.mode(), EditingMode::Normal);
    }
}

#[test]
fn keys_that_stay_on_the_row_keep_the_cursor_inside_the_text() {
    let mut editor = editor_on("one\ntwo\nthree");
    let keys = [
        Key::Right,
        Key::Char('l'),
        Key::Char('l'),
        Key::Char('l'),
        Key::Left,
        Key::Char('h'),
        Key::Char('i'),
        Key::Char('x'),
        Key::Enter,
        Key::Char('y'),
        Key::Backspace,
        Key::Backspace,
        Key::Left,
        Key::Right,
        Key::Right,
        Key::Right,
        Key::Right,
        Key::Other,
        Key::Esc,
        Key::Char('q'),
    ];
    for key in keys {
        assert!(editor.is_valid());
        assert!(editor.accepts(key));
        editor.handle_input(key);
    }
    assert!(editor.is_valid());
    assert_eq!(lines(&editor), ["oxne", "two", "three"]);
    assert_eq!(position(&editor), (3, 0));
}

#[test]
fn down_from_the_only_line_leaves_the_text() {
    let mut editor = editor_on("alone");
    assert!(editor.is_valid());
    press(&mut editor, &[Key::Down]);
    assert_eq!(position(&editor), (0, 1));
    assert!(!editor.is_valid());
    assert!(!editor.accepts(Key::Right));
    assert!(!editor.accepts(Key::Char('i')));
    assert!(editor.accepts(Key::Up));
    press(&mut editor, &[Key::Up]);
    assert_eq!(position(&editor), (0, 0));
    assert!(editor.is_valid());
}

#[test]
fn down_never_reaches_the_last_line_from_above() {
    let mut editor = editor_on("a\nb\nc\nd");
    press(&mut editor, &[Key::Down]);
    assert_eq!(position(&editor), (0, 1));
    press(&mut editor, &[Key::Down]);
    assert_eq!(position(&editor), (0, 2));
    press(&mut editor, &[Key::Down]);
    assert_eq!(position(&editor), (0, 2));
    press(&mut editor, &[Key::Char('j')]);
    assert_eq!(position(&editor), (0, 2));
}

#[test]
fn down_from_the_last_line_leaves_the_text() {
    let mut editor = editor_on("ab");
    press(&mut editor, &[Key::Char('i'), Key::Right, Key::Enter]);
    assert_eq!(lines(&editor), ["a", "b"]);
    assert_eq!(position(&editor), (0, 1));
    assert!(editor.is_valid());
    press(&mut editor, &[Key::Down]);
    assert_eq!(position(&editor), (0, 2));
    assert!(!editor.is_valid());
    assert!(!editor.accepts(Key::Char('x')));
    assert!(!editor.accepts(Key::Enter));
    assert!(!editor.accepts(Key::Backspace));
    assert!(!editor.accepts(Key::Right));
    assert!(editor.accepts(Key::Left));
    assert!(editor.accepts(Key::Esc));
}

#[test]
fn up_stops_at_the_first_row() {
    let mut editor = editor_on("a\nb\nc");
    press(&mut editor, &[Key::Up]);
    assert_eq!(position(&editor), (0, 0));
    press(&mut editor, &[Key::Down, Key::Up]);
    assert_eq!(position(&editor), (0, 0));
    press(&mut editor, &[Key::Down, Key::Char('k'), Key::Char('k')]);
    assert_eq!(position(&editor), (0, 0));
}

#[test]
fn right_stops_behind_the_last_character() {
    let mut editor = editor_on("ab");
    press(&mut editor, &[Key::Right]);
    assert_eq!(position(&editor), (1, 0));
    press(&mut editor, &[Key::Right]);
    assert_eq!(position(&editor), (2, 0));
    press(&mut editor, &[Key::Right, Key::Char('l')]);
    assert_eq!(position(&editor), (2, 0));
}

#[test]
fn left_stops_at_column_zero() {
    let mut editor = editor_on("ab");
    press(&mut editor, &[Key::Left, Key::Char('h')]);
    assert_eq!(position(&editor), (0, 0));
    press(&mut editor, &[Key::Right, Key::Right, Key::Left]);
    assert_eq!(position(&editor), (1, 0));
}

#[test]
fn moving_onto_a_shorter_line_keeps_the_column() {
    let mut editor = editor_on("long line\nab\nlast");
    press(&mut editor, &[Key::Right, Key::Right, Key::Right, Key::Right, Key::Right]);
    assert!(editor.is_valid());
    press(&mut editor, &[Key::Down]);
    assert_eq!(position(&editor), (5, 1));
    assert!(!editor.is_valid());
}

#[test]
fn left_mends_a_column_behind_the_line() {
    let mut editor = editor_on("long line\nab\nlast");
    press(&mut editor, &[Key::Right, Key::Right, Key::Right, Key::Right, Key::Right, Key::Down]);
    assert_eq!(position(&editor), (5, 1));
    press(&mut editor, &[Key::Left]);
    assert_eq!(position(&editor), (1, 1));
    assert!(editor.is_valid());
    press(&mut editor, &[Key::Char('h')]);
    assert_eq!(position(&editor), (0, 1));
}

#[test]
fn right_goes_on_from_a_column_behind_the_line() {
    let mut editor = editor_on("long line\nab\nlast");
    press(&mut editor, &[Key::Right, Key::Right, Key::Right, Key::Right, Key::Right, Key::Down]);
    press(&mut editor, &[Key::Right]);
    assert_eq!(position(&editor), (6, 1));
}

#[test]
fn entering_insert_mode_pulls_the_column_back_to_the_line() {
    let mut editor = editor_on("long line\nab\nlast");
    press(&mut editor, &[Key::Right, Key::Right, Key::Right, Key::Right, Key::Right, Key::Down]);
    press(&mut editor, &[Key::Char('i')]);
    assert_eq!(editor.mode(), EditingMode::Insert);
    assert_eq!(position(&editor), (2, 1));
    assert!(editor.is_valid());
    press(&mut editor, &[Key::Char('c')]);
    assert_eq!(lines(&editor), ["long line", "abc", "last"]);
}

#[test]
fn entering_insert_mode_keeps_a_column_inside_the_line() {
    let mut editor = editor_on("hello");
    press(&mut editor, &[Key::Right, Key::Right, Key::Char('i')]);
    assert_eq!(position(&editor), (2, 0));
}

#[test]
fn left_cannot_mend_on_an_empty_line() {
    let mut editor = editor_on("abc\n\nlast");
    press(&mut editor, &[Key::Right, Key::Right, Key::Down]);
    assert_eq!(position(&editor), (2, 1));
    assert!(!editor.accepts(Key::Left));
    assert!(!editor.accepts(Key::Char('h')));
    assert!(editor.accepts(Key::Char('i')));
    press(&mut editor, &[Key::Char('i')]);
    assert_eq!(position(&editor), (0, 1));
}

#[test]
fn navigation_ignores_other_keys() {
    let mut editor = editor_on("hello\nworld\nagain");
    press(&mut editor, &[Key::Right, Key::Down]);
    for key in [Key::Enter, Key::Backspace, Key::Esc, Key::Other, Key::Char('x'), Key::Char('Q'), Key::Char(' ')] {
        assert_eq!(editor.handle_input(key), Action::Idle);
        assert_eq!(position(&editor), (1, 1));
        assert_eq!(editor.mode(), EditingMode::Normal);
        assert!(!editor.should_quit());
        assert_eq!(lines(&editor), ["hello", "world", "again"]);
    }
}

#[test]
fn navigation_never_changes_the_text() {
    let mut editor = editor_on("hello\nworld\nagain");
    for key in [Key::Char('l'), Key::Char('j'), Key::Char('h'), Key::Char('k'), Key::Right, Key::Down, Key::Left, Key::Up, Key::Char('q')] {
        editor.handle_input(key);
        assert_eq!(lines(&editor), ["hello", "world", "again"]);
    }
}

#[test]
fn quit_key_sets_the_flag_and_asks_to_save() {
    let mut editor = editor_on("hello\nworld");
    let action = editor.handle_input(Key::Char('q'));
    assert_eq!(action, Action::Save("hello\nworld".to_string()));
    assert!(editor.should_quit());
    assert_eq!(editor.mode(), EditingMode::Normal);
    assert_eq!(position(&editor), (0, 0));
    assert_eq!(editor.buffer().file(), "notes.txt");
}

#[test]
fn quit_key_saves_the_edited_text() {
    let mut editor = editor_on("helo\nworld\n");
    press(&mut editor, &[Key::Right, Key::Right, Key::Char('i'), Key::Char('l'), Key::Esc]);
    let action = editor.handle_input(Key::Char('q'));
    assert_eq!(action, Action::Save("hello\nworld\n".to_string()));
}

#[test]
fn quit_key_without_edits_saves_the_content_as_loaded() {
    for content in ["", "a", "a\n", "a\nb\n\n"] {
        let mut editor = editor_on(content);
        assert_eq!(editor.handle_input(Key::Char('q')), Action::Save(content.to_string()));
    }
}

#[test]
fn q_in_insertion_mode_is_typed() {
    let mut editor = editor_on("");
    press(&mut editor, &[Key::Char('i')]);
    assert_eq!(editor.handle_input(Key::Char('q')), Action::Idle);
    assert!(!editor.should_quit());
    assert_eq!(lines(&editor), ["q"]);
    assert_eq!(position(&editor), (1, 0));
}

#[test]
fn letters_that_move_in_navigation_are_typed_in_insertion() {
    let mut editor = editor_on("\n\n");
    press(&mut editor, &[Key::Char('i'), Key::Char('h'), Key::Char('j'), Key::Char('k'), Key::Char('l'), Key::Char('i')]);
    assert_eq!(lines(&editor), ["hjkli", "", ""]);
    assert_eq!(position(&editor), (5, 0));
}

#[test]
fn typing_in_the_middle_of_a_line() {
    let mut editor = editor_on("ct");
    press(&mut editor, &[Key::Right, Key::Char('i'), Key::Char('a')]);
    assert_eq!(lines(&editor), ["cat"]);
    assert_eq!(position(&editor), (2, 0));
}

#[test]
fn typing_counts_characters_not_bytes() {
    let mut editor = editor_on("hé");
    press(&mut editor, &[Key::Right, Key::Right, Key::Char('i'), Key::Char('l'), Key::Char('ö')]);
    assert_eq!(lines(&editor), ["hélö"]);
    assert_eq!(position(&editor), (4, 0));
    press(&mut editor, &[Key::Left, Key::Left, Key::Backspace]);
    assert_eq!(lines(&editor), ["hlö"]);
    assert_eq!(position(&editor), (1, 0));
}

#[test]
fn backspace_removes_the_character_before_the_cursor() {
    let mut editor = editor_on("cats");
    press(&mut editor, &[Key::Right, Key::Right, Key::Right, Key::Char('i'), Key::Backspace]);
    assert_eq!(lines(&editor), ["cas"]);
    assert_eq!(position(&editor), (2, 0));
}

#[test]
fn backspace_at_the_origin_does_nothing() {
    let mut editor = editor_on("cats\ndogs");
    press(&mut editor, &[Key::Char('i')]);
    assert!(editor.accepts(Key::Backspace));
    assert_eq!(editor.handle_input(Key::Backspace), Action::Idle);
    assert_eq!(lines(&editor), ["cats", "dogs"]);
    assert_eq!(position(&editor), (0, 0));
    assert_eq!(editor.mode(), EditingMode::Insert);
}

#[test]
fn backspace_in_column_zero_joins_onto_the_line_above() {
    let mut editor = editor_on("ab\ncd\nef");
    press(&mut editor, &[Key::Down, Key::Char('i'), Key::Backspace]);
    assert_eq!(lines(&editor), ["abcd", "ef"]);
    assert_eq!(position(&editor), (2, 0));
}

#[test]
fn backspace_joins_an_empty_line_away() {
    let mut editor = editor_on("ab\n\nef");
    press(&mut editor, &[Key::Down, Key::Char('i'), Key::Backspace]);
    assert_eq!(lines(&editor), ["ab", "ef"]);
    assert_eq!(position(&editor), (2, 0));
}

#[test]
fn enter_at_the_end_of_a_line_adds_an_empty_line() {
    let mut editor = editor_on("ab\ncd");
    press(&mut editor, &[Key::Right, Key::Right, Key::Char('i'), Key::Enter]);
    assert_eq!(lines(&editor), ["ab", "", "cd"]);
    assert_eq!(position(&editor), (0, 1));
}

#[test]
fn enter_at_the_start_of_a_line_pushes_it_down() {
    let mut editor = editor_on("ab\ncd");
    press(&mut editor, &[Key::Char('i'), Key::Enter]);
    assert_eq!(lines(&editor), ["", "ab", "cd"]);
    assert_eq!(position(&editor), (0, 1));
}

#[test]
fn escape_goes_one_column_left() {
    let mut editor = editor_on("abc");
    press(&mut editor, &[Key::Right, Key::Right, Key::Char('i'), Key::Char('x'), Key::Esc]);
    assert_eq!(editor.mode(), EditingMode::Normal);
    assert_eq!(position(&editor), (2, 0));
    assert_eq!(lines(&editor), ["abxc"]);
}

#[test]
fn escape_in_column_zero_stays_there() {
    let mut editor = editor_on("abc");
    press(&mut editor, &[Key::Char('i'), Key::Esc]);
    assert_eq!(editor.mode(), EditingMode::Normal);
    assert_eq!(position(&editor), (0, 0));
}

#[test]
fn arrows_move_in_insertion_mode() {
    let mut editor = editor_on("ab\ncd\nef\ngh");
    press(&mut editor, &[Key::Char('i'), Key::Right, Key::Right, Key::Right]);
    assert_eq!(position(&editor), (2, 0));
    press(&mut editor, &[Key::Down, Key::Down, Key::Down]);
    assert_eq!(position(&editor), (2, 2));
    press(&mut editor, &[Key::Up]);
    assert_eq!(position(&editor), (2, 1));
    press(&mut editor, &[Key::Left, Key::Left, Key::Left]);
    assert_eq!(position(&editor), (0, 1));
    assert_eq!(editor.mode(), EditingMode::Insert);
    assert_eq!(lines(&editor), ["ab", "cd", "ef", "gh"]);
}

#[test]
fn left_in_insertion_mode_does_not_mend() {
    let mut editor = editor_on("abcd\nx\nlast");
    press(&mut editor, &[Key::Char('i'), Key::Right, Key::Right, Key::Right, Key::Down]);
    assert_eq!(position(&editor), (3, 1));
    assert!(!editor.accepts(Key::Char('y')));
    press(&mut editor, &[Key::Left]);
    assert_eq!(position(&editor), (2, 1));
}

#[test]
fn insertion_ignores_other_keys() {
    let mut editor = editor_on("ab");
    press(&mut editor, &[Key::Right, Key::Char('i')]);
    assert_eq!(editor.handle_input(Key::Other), Action::Idle);
    assert_eq!(position(&editor), (1, 0));
    assert_eq!(editor.mode(), EditingMode::Insert);
    assert_eq!(lines(&editor), ["ab"]);
}

#[test]
fn handlers_of_both_modes_can_be_called_directly() {
    let mut editor = editor_on("ab");
    assert!(editor.insert_accepts(Key::Char('x')));
    editor.insert_ih(Key::Char('x'));
    assert_eq!(lines(&editor), ["xab"]);
    assert_eq!(editor.mode(), EditingMode::Normal);
    assert!(editor.normal_accepts(Key::Char('l')));
    assert_eq!(editor.normal_ih(Key::Char('l')), Action::Idle);
    assert_eq!(position(&editor), (2, 0));
    assert_eq!(editor.normal_ih(Key::Char('q')), Action::Save("xab".to_string()));
    assert!(editor.should_quit());
}

#[test]
fn status_label_names_the_mode() {
    let mut editor = editor_on("ab");
    assert_eq!(editor.status_label(), "NORMAL");
    press(&mut editor, &[Key::Char('i')]);
    assert_eq!(editor.status_label(), "INSERT");
    press(&mut editor, &[Key::Esc]);
    assert_eq!(editor.status_label(), "NORMAL");
}

#[test]
fn main_text_is_the_paragraph_of_buffer_and_cursor() {
    let mut editor = editor_on("one\ntwo\nthree\nfour");
    press(&mut editor, &[Key::Down, Key::Right]);
    let shown = editor.main_text(2);
    let mut cursor = rvim::Cursor::new(1, 1);
    let expected = FileBuffer::new("notes.txt".to_string(), "one\ntwo\nthree\nfour").to_paragraph(&mut cursor, 2);
    assert_eq!(shown, expected);
    assert_eq!(position(&editor), (1, 1));
}

#[test]
fn the_path_never_changes() {
    let mut editor = editor_on("a\nb");
    press(&mut editor, &[Key::Char('i'), Key::Char('x'), Key::Enter, Key::Backspace, Key::Esc, Key::Char('q')]);
    assert_eq!(editor.buffer().file(), "notes.txt");
}
