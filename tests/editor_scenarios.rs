use todo_editor::editor::{caret_after, get_title, App, InputMode, Key, MoveCursorOperation};
use todo_editor::todo::{Status, TargetMode, TodoData};

fn entry(text: &str) -> TodoData {
    TodoData { message: text.to_string(), status: Status::Todo }
}

fn texts(app: &App) -> Vec<String> {
    app.get_messages().iter().map(|e| e.message.clone()).collect()
}

fn type_text(app: &mut App, text: &str) {
    for c in text.chars() {
        assert!(!app.handle_key(Key::Char(c)));
    }
}

fn assert_wf(app: &App) {
    let n = app.get_messages().len();
    assert!(n >= 1);
    assert!(app.target_row() < n);
    let current = app.get_current_message();
    assert!(app.target_column() <= current.chars().count());
    assert_eq!(app.input(), &current);
}

#[test]
fn typing_a_line_and_committing_starts_a_new_one() {
    let mut app = App::new();
    assert_eq!(texts(&app), vec![String::new()]);
    assert_eq!(app.input_mode(), InputMode::Normal);
    app.handle_key(Key::Char('e'));
    assert_eq!(app.input_mode(), InputMode::Editing);
    type_text(&mut app, "buy milk");
    app.handle_key(Key::Enter);
    assert_eq!(texts(&app), vec!["buy milk".to_string(), String::new()]);
    assert_eq!(app.target_row(), 1);
    assert_eq!(app.target_column(), 0);
    assert_eq!(app.input_mode(), InputMode::Normal);
    assert_eq!(app.input(), "");
}

#[test]
fn deleting_the_first_of_two_entries() {
    let mut app = App::from_lists(vec![entry("a"), entry("b")], vec![]);
    assert_eq!(app.target_row(), 0);
    app.handle_key(Key::Char('r'));
    assert_eq!(texts(&app), vec!["b".to_string()]);
    assert_eq!(app.target_row(), 0);
    assert_eq!(app.input(), "b");
}

#[test]
fn deleting_the_only_entry_leaves_a_fresh_one() {
    let mut app = App::from_lists(vec![entry("x")], vec![]);
    app.handle_key(Key::Char('r'));
    assert_eq!(texts(&app), vec![String::new()]);
    assert_eq!(app.get_messages()[0].status, Status::Todo);
    assert_eq!(app.target_row(), 0);
    assert_eq!(app.target_column(), 0);
}

#[test]
fn backspace_removes_the_character_before_the_column() {
    let mut app = App::new();
    app.handle_key(Key::Char('e'));
    type_text(&mut app, "abc");
    assert_eq!(app.target_row(), 0);
    assert_eq!(app.target_column(), 3);
    app.handle_key(Key::Backspace);
    assert_eq!(texts(&app), vec!["ab".to_string()]);
    assert_eq!(app.input(), "ab");
    assert_eq!(app.target_column(), 2);
}

#[test]
fn set_done_marks_only_the_entry_under_the_cursor() {
    let mut app = App::from_lists(vec![entry("a"), entry("b")], vec![entry("c")]);
    assert_eq!(app.get_messages()[0].display_line(), "# a");
    app.handle_key(Key::Char('d'));
    assert_eq!(app.get_messages()[0].status, Status::Done);
    assert_eq!(app.get_messages()[1].status, Status::Todo);
    assert_eq!(app.get_messages()[0].display_line(), "* a");
    assert_eq!(app.get_messages()[1].display_line(), "# b");
    app.handle_key(Key::Char('t'));
    assert_eq!(app.get_messages()[0].status, Status::Todo);
}

#[test]
fn switch_key_while_editing_types_instead_of_switching() {
    let mut app = App::new();
    app.handle_key(Key::Char('e'));
    app.handle_key(Key::Char('t'));
    assert_eq!(app.target_mode(), TargetMode::Daily);
    assert_eq!(app.input_mode(), InputMode::Editing);
    assert_eq!(texts(&app), vec!["t".to_string()]);
}

#[test]
fn quit_key_ends_the_session_only_in_normal_mode() {
    let mut app = App::new();
    assert!(app.handle_key(Key::Char('q')));
    app.handle_key(Key::Char('e'));
    assert!(!app.handle_key(Key::Char('q')));
    assert_eq!(texts(&app), vec!["q".to_string()]);
}

#[test]
fn escape_returns_to_normal_mode_keeping_the_text() {
    let mut app = App::new();
    app.handle_key(Key::Char('e'));
    type_text(&mut app, "hi");
    app.handle_key(Key::Esc);
    assert_eq!(app.input_mode(), InputMode::Normal);
    assert_eq!(texts(&app), vec!["hi".to_string()]);
    assert_eq!(app.input(), "hi");
}

#[test]
fn unknown_keys_change_nothing() {
    let mut app = App::from_lists(vec![entry("a")], vec![]);
    assert!(!app.handle_key(Key::Other));
    assert!(!app.handle_key(Key::Char('z')));
    assert!(!app.handle_key(Key::Enter));
    assert!(!app.handle_key(Key::Backspace));
    assert_eq!(texts(&app), vec!["a".to_string()]);
    assert_eq!(app.input_mode(), InputMode::Normal);
    app.handle_key(Key::Char('e'));
    app.handle_key(Key::Other);
    assert_eq!(texts(&app), vec!["a".to_string()]);
    assert_eq!(app.input_mode(), InputMode::Editing);
}

#[test]
fn invariants_hold_along_a_session() {
    let mut app = App::new();
    let keys = [
        Key::Char('e'), Key::Char('a'), Key::Char('b'), Key::Enter, Key::Char('e'),
        Key::Char('c'), Key::Enter, Key::Up, Key::Up, Key::Up, Key::Right, Key::Right,
        Key::Right, Key::Char('t'), Key::Down, Key::Char('r'), Key::Char('t'),
        Key::Char('r'), Key::Char('r'), Key::Char('r'), Key::Char('r'), Key::Left,
        Key::Char('e'), Key::Backspace, Key::Char('x'), Key::Esc, Key::Char('d'),
    ];
    for k in keys {
        app.handle_key(k);
        assert_wf(&app);
    }
}

#[test]
fn navigation_keeps_the_column_before_the_last_character() {
    let mut app = App::from_lists(vec![entry("abcd"), entry("x")], vec![]);
    for _ in 0..10 {
        app.handle_key(Key::Right);
    }
    assert_eq!(app.target_column(), 3);
    app.handle_key(Key::Down);
    assert_eq!(app.target_row(), 1);
    assert_eq!(app.target_column(), 0);
    assert_eq!(app.input(), "x");
}

#[test]
fn moves_past_the_edges_are_absorbed() {
    let mut app = App::from_lists(vec![entry("ab"), entry("cd")], vec![]);
    app.move_cursor(MoveCursorOperation::Up);
    app.move_cursor(MoveCursorOperation::Left);
    assert_eq!((app.target_row(), app.target_column()), (0, 0));
    app.move_cursor(MoveCursorOperation::Down);
    app.move_cursor(MoveCursorOperation::Down);
    app.move_cursor(MoveCursorOperation::Down);
    assert_eq!(app.target_row(), 1);
    assert_eq!(app.input(), "cd");
}

#[test]
fn clamping_twice_is_clamping_once() {
    let mut app = App::from_lists(vec![entry("abc"), entry("de")], vec![]);
    app.move_cursor(MoveCursorOperation::Right);
    app.move_cursor(MoveCursorOperation::Right);
    app.clamp_row();
    app.clamp_column();
    let once = (app.target_row(), app.target_column());
    app.clamp_row();
    app.clamp_column();
    assert_eq!((app.target_row(), app.target_column()), once);
    assert_eq!(once, (0, 2));
}

#[test]
fn switching_twice_restores_the_list_and_resets_the_row() {
    let mut app = App::from_lists(vec![entry("a"), entry("b"), entry("c")], vec![entry("z")]);
    app.handle_key(Key::Down);
    app.handle_key(Key::Down);
    assert_eq!(app.target_row(), 2);
    app.handle_key(Key::Char('t'));
    assert_eq!(app.target_mode(), TargetMode::LongTerm);
    assert_eq!(texts(&app), vec!["z".to_string()]);
    assert_eq!(app.input(), "z");
    app.handle_key(Key::Char('t'));
    assert_eq!(app.target_mode(), TargetMode::Daily);
    assert_eq!(app.target_row(), 0);
    assert_eq!(app.input(), "a");
    assert_eq!(texts(&app), vec!["a".to_string(), "b".to_string(), "c".to_string()]);
}

#[test]
fn switching_clamps_the_column_to_the_new_entry() {
    let mut app = App::from_lists(vec![entry("abcdef")], vec![entry("xy")]);
    for _ in 0..4 {
        app.handle_key(Key::Right);
    }
    assert_eq!(app.target_column(), 4);
    app.change_target_mode();
    assert_eq!(app.target_column(), 1);
}

#[test]
fn committing_in_the_middle_keeps_the_row() {
    let mut app = App::from_lists(vec![entry("a"), entry("b")], vec![]);
    app.handle_key(Key::Char('e'));
    app.handle_key(Key::Char('x'));
    app.handle_key(Key::Enter);
    assert_eq!(texts(&app), vec!["xa".to_string(), "b".to_string()]);
    assert_eq!(app.target_row(), 0);
    assert_eq!(app.input_mode(), InputMode::Normal);
}

#[test]
fn backspace_at_column_zero_does_nothing() {
    let mut app = App::from_lists(vec![entry("abc")], vec![]);
    app.handle_key(Key::Char('e'));
    app.handle_key(Key::Backspace);
    assert_eq!(texts(&app), vec!["abc".to_string()]);
    assert_eq!(app.target_column(), 0);
    let mut empty = App::new();
    empty.handle_key(Key::Char('e'));
    empty.remove_char();
    assert_eq!(texts(&empty), vec![String::new()]);
}

#[test]
fn editing_counts_characters_not_bytes() {
    let mut app = App::from_lists(vec![entry("héllo")], vec![]);
    app.handle_key(Key::Right);
    app.handle_key(Key::Right);
    app.handle_key(Key::Char('e'));
    app.handle_key(Key::Char('ü'));
    assert_eq!(texts(&app), vec!["héüllo".to_string()]);
    app.handle_key(Key::Backspace);
    app.handle_key(Key::Backspace);
    assert_eq!(texts(&app), vec!["hllo".to_string()]);
    assert_eq!(app.target_column(), 1);
}

#[test]
fn push_message_appends_without_moving_the_cursor() {
    let mut app = App::from_lists(vec![entry("a")], vec![]);
    app.push_message(entry("b"));
    assert_eq!(texts(&app), vec!["a".to_string(), "b".to_string()]);
    assert_eq!(app.target_row(), 0);
    assert_eq!(app.input(), "a");
}

#[test]
fn set_message_status_on_the_current_row() {
    let mut app = App::from_lists(vec![entry("a"), entry("b")], vec![]);
    app.move_cursor(MoveCursorOperation::Down);
    app.set_message_status(Status::Done);
    assert_eq!(app.get_messages()[0].status, Status::Todo);
    assert_eq!(app.get_messages()[1].status, Status::Done);
}

#[test]
fn title_names_the_selected_list() {
    let mut app = App::default();
    assert_eq!(get_title(&app), "Daily");
    app.change_target_mode();
    assert_eq!(get_title(&app), "Long Term");
}

#[test]
fn caret_sits_after_marker_and_border() {
    let mut app = App::from_lists(vec![entry("abc"), entry("de")], vec![]);
    assert_eq!(app.caret_offset(), (3, 1));
    app.handle_key(Key::Down);
    app.handle_key(Key::Right);
    assert_eq!(app.caret_offset(), (4, 2));
}

#[test]
fn input_caret_follows_displayed_width() {
    assert_eq!(caret_after(0), 1);
    assert_eq!(caret_after(5), 6);
    assert_eq!(caret_after(usize::MAX), usize::MAX);
    let app = App::from_lists(vec![entry("abc")], vec![]);
    assert_eq!(app.input_caret_offset(), 4);
    let wide = App::from_lists(vec![entry("日本")], vec![]);
    assert_eq!(wide.input_caret_offset(), 5);
}
