use eddy::buffer::TextBuffer;
use eddy::color_pairs::{Color, ColorPairs, Colors};
use eddy::history::{HistoryAction, HistoryManager};
use eddy::logger::{DebugLog, LogLevel};
use eddy::text::{push_decimal, push_zero_padded};
use eddy::position::{Position, Size};
use eddy::settings::{EditorSettings, TabType};
use eddy::status_input::{StatusInput, LOAD_FILE_TEXT, REPLACE_TEXT, SAVE_FILE_TEXT, SEARCH_TEXT};
use eddy::status_message::StatusMessage;
use eddy::text_editor::{EditorAction, Event, KeyCode, KeyEvent, TextEditor, CONTROL, CONTROL_SHIFT, SHIFT};
use eddy::view::{CursorKey, EditMode, MarkedPart, TerminalView};
use eddy::TITLE;

fn buffer(lines: &[&str]) -> TextBuffer {
    TextBuffer::from_lines("notes.txt", lines.iter().map(|s| s.to_string()).collect())
}

fn rows_of(b: &TextBuffer) -> Vec<String> {
    (0..b.len()).map(|i| b.row(i).unwrap().as_string()).collect()
}

fn key(code: KeyCode, modifiers: u8) -> Event {
    Event::Key(KeyEvent { code, modifiers })
}

fn press(e: &mut TextEditor, ev: Event) -> EditorAction {
    assert!(e.can_handle(&ev));
    e.handle_input(ev)
}

fn last_message(e: &TextEditor) -> String {
    e.status_message.last().unwrap().get().to_string()
}

#[test]
fn history_undo_and_redo_of_added_char() {
    let mut b = buffer(&["ab"]);
    let mut h = HistoryManager::new();
    let p = Position { x: 1, y: 0 };
    b.insert(&p, 'X');
    h.add_action(HistoryAction::AddChar { char: 'X', position: p });
    h.undo(&mut b);
    assert_eq!(rows_of(&b), vec!["ab"]);
    h.redo(&mut b);
    assert_eq!(rows_of(&b), vec!["aXb"]);
    h.redo(&mut b);
    assert_eq!(rows_of(&b), vec!["aXb"]);
}

#[test]
fn history_undo_of_deleted_char() {
    let mut b = buffer(&["abc"]);
    let mut h = HistoryManager::new();
    let p = Position { x: 1, y: 0 };
    let c = b.get_char(&p);
    b.delete(&p);
    h.add_action(HistoryAction::DelChar { char: c, position: p });
    assert_eq!(rows_of(&b), vec!["ac"]);
    h.undo(&mut b);
    assert_eq!(rows_of(&b), vec!["abc"]);
    h.undo(&mut b);
    assert_eq!(rows_of(&b), vec!["abc"]);
}

#[test]
fn history_redo_after_undo_restores_text() {
    let mut b = buffer(&["abc", "de"]);
    let mut h = HistoryManager::new();
    let p = Position { x: 2, y: 0 };
    let c = b.get_char(&p);
    b.delete(&p);
    h.add_action(HistoryAction::DelChar { char: c, position: p });
    let before = rows_of(&b);
    h.undo(&mut b);
    assert_eq!(rows_of(&b), vec!["abc", "de"]);
    h.redo(&mut b);
    assert_eq!(rows_of(&b), before);
    assert_eq!(rows_of(&b), vec!["ab", "de"]);
    h.undo(&mut b);
    assert_eq!(rows_of(&b), vec!["abc", "de"]);
}

#[test]
fn history_new_action_clears_redo() {
    let mut b = buffer(&["a"]);
    let mut h = HistoryManager::new();
    h.add_action(HistoryAction::AddChar { char: 'a', position: Position { x: 0, y: 0 } });
    h.undo(&mut b);
    assert_eq!(rows_of(&b), vec![""]);
    h.add_action(HistoryAction::AddNewline { position: Position { x: 0, y: 0 } });
    h.redo(&mut b);
    assert_eq!(rows_of(&b), vec![""]);
    assert!(h.can_undo(&b));
}

#[test]
fn status_input_start_positions() {
    let mut s = StatusInput::new();
    assert!(!s.is_active());
    assert_eq!(s.get_start_pos(), 1);
    s.set_mode(EditMode::InputFind);
    assert_eq!(s.get_start_pos(), SEARCH_TEXT.len() + 1);
    assert_eq!(s.get_start_pos(), 8);
    s.set_mode(EditMode::InputReplace);
    assert_eq!(s.get_start_pos(), REPLACE_TEXT.len() + 1);
    s.set_mode(EditMode::InputLoad);
    assert_eq!(s.get_start_pos(), LOAD_FILE_TEXT.len() + 1);
    s.set_mode(EditMode::InputSaveAs);
    assert_eq!(s.get_start_pos(), 18);
    assert!(s.is_active());
    assert_eq!(s.get_mode(), EditMode::InputSaveAs);
}

#[test]
fn status_input_editing() {
    let mut s = StatusInput::new();
    s.set_mode(EditMode::InputFind);
    s.insert(0, 'a');
    s.insert(5, 'c');
    s.insert(1, 'b');
    assert_eq!(s.as_string(), "abc");
    assert_eq!(s.len(), 3);
    assert_eq!(s.get_content(), "Search: abc");
    s.delete(0);
    assert_eq!(s.as_string(), "bc");
    s.set_mode(EditMode::Normal);
    assert_eq!(s.as_string(), "");
    assert_eq!(s.get_content(), " ");
    s.insert(0, 'x');
    s.clear();
    assert_eq!(s.len(), 0);
}

#[test]
fn view_cursor_moves() {
    let b = buffer(&["abc", "de", ""]);
    let mut v = TerminalView::new(80, 12);
    assert_eq!(v.size(), Size { width: 80, height: 10 });
    assert_eq!(v.offset(), Position { x: 0, y: 1 });
    v.move_cursor(&b, CursorKey::End);
    assert_eq!(v.position(), Position { x: 3, y: 0 });
    v.move_cursor(&b, CursorKey::Down);
    assert_eq!(v.position(), Position { x: 2, y: 1 });
    v.move_cursor(&b, CursorKey::Right);
    assert_eq!(v.position(), Position { x: 0, y: 2 });
    v.move_cursor(&b, CursorKey::Left);
    assert_eq!(v.position(), Position { x: 2, y: 1 });
    v.move_cursor(&b, CursorKey::Home);
    assert_eq!(v.position(), Position { x: 0, y: 1 });
    v.move_cursor(&b, CursorKey::PageDown);
    assert_eq!(v.position(), Position { x: 0, y: 3 });
    v.move_cursor(&b, CursorKey::Down);
    assert_eq!(v.position(), Position { x: 0, y: 3 });
    v.move_cursor(&b, CursorKey::PageUp);
    assert_eq!(v.position(), Position { x: 0, y: 0 });
    v.move_cursor(&b, CursorKey::Up);
    assert_eq!(v.position(), Position { x: 0, y: 0 });
    v.move_cursor(&b, CursorKey::Left);
    assert_eq!(v.position(), Position { x: 0, y: 0 });
    v.place_cursor(Position { x: 9, y: 0 });
    v.move_cursor(&b, CursorKey::Other);
    assert_eq!(v.position(), Position { x: 3, y: 0 });
}

#[test]
fn view_marking() {
    let mut v = TerminalView::new(40, 10);
    v.place_cursor(Position { x: 2, y: 1 });
    v.start_marking();
    assert!(v.is_marking());
    v.place_cursor(Position { x: 4, y: 3 });
    v.end_marking();
    assert_eq!(v.get_marked_positions(), (Position { x: 2, y: 1 }, Position { x: 4, y: 3 }));
    assert_eq!(v.marked_part(1, 6), MarkedPart::Columns(2, 5));
    assert_eq!(v.marked_part(2, 6), MarkedPart::WholeLine);
    assert_eq!(v.marked_part(3, 6), MarkedPart::Columns(0, 4));
    assert_eq!(v.marked_part(4, 6), MarkedPart::Unmarked);
    v.reset_marking();
    assert!(!v.is_marking());
    assert_eq!(v.get_marked_positions(), (Position { x: 0, y: 0 }, Position { x: 0, y: 0 }));
    assert_eq!(v.marked_part(1, 6), MarkedPart::Unmarked);
}

#[test]
fn view_input_cursor_and_columns() {
    let mut v = TerminalView::new(10, 5);
    v.place_cursor(Position { x: 8, y: 0 });
    v.user_input_move_cursor(8, 0, CursorKey::Left);
    assert_eq!(v.position().x, 8);
    v.user_input_move_cursor(8, 3, CursorKey::Right);
    assert_eq!(v.position().x, 9);
    v.user_input_move_cursor(8, 3, CursorKey::Right);
    assert_eq!(v.position().x, 9);
    v.user_input_move_cursor(8, 3, CursorKey::Left);
    assert_eq!(v.position().x, 8);
    assert_eq!(v.visible_columns(4), (0, 9));
    v.place_cursor(Position { x: 12, y: 0 });
    assert_eq!(v.visible_columns(20), (2, 11));
    v.resize(30, 7);
    assert_eq!(v.size(), Size { width: 30, height: 5 });
}

#[test]
fn edit_mode_labels() {
    assert_eq!(EditMode::Insert.label(), "INSERT");
    assert_eq!(EditMode::Normal.label(), "NORMAL");
    assert_eq!(EditMode::InputLoad.label(), "INPUT");
    assert_eq!(EditMode::default(), EditMode::Normal);
}

#[test]
fn colour_palettes_by_count() {
    assert_eq!(ColorPairs::for_color_count(2).bg_hilite, Color::White);
    assert_eq!(ColorPairs::for_color_count(8).bg_hilite, Color::Grey);
    assert_eq!(ColorPairs::for_color_count(16).bg_hilite, Color::DarkGrey);
    assert_eq!(ColorPairs::for_color_count(255).bg_hilite, Color::AnsiValue(241));
    assert_eq!(ColorPairs::for_color_count(256).bg_hilite, Color::Rgb { r: 48, g: 48, b: 48 });
    let cp = ColorPairs::for_color_count(8);
    assert_eq!(cp.default_pair(), Colors { foreground: Some(Color::White), background: Some(Color::Black) });
    assert_eq!(cp.marker_pair(), Colors { foreground: Some(Color::Grey), background: Some(Color::White) });
    assert_eq!(cp.special_pair(), Colors::new(Color::Green, Color::Black));
    assert_eq!(cp.bar_pair(), Colors::new(Color::Black, Color::White));
    assert_eq!(cp.hilite_pair(), Colors::new(Color::White, Color::Grey));
    assert_eq!(cp.linenb_pair(), Colors::new(Color::White, Color::Grey));
    let current = ColorPairs::new();
    assert!(current == ColorPairs::for_color_count(8) || current == ColorPairs::for_color_count(256));
}

#[test]
fn logger_time_and_lines() {
    assert_eq!(DebugLog::millis_to_time(3_723_004), (1, 2, 3, 4));
    assert_eq!(DebugLog::millis_to_time(86_400_000 + 59_999), (0, 0, 59, 999));
    assert_eq!(DebugLog::log_timer(3_723_004), "[01:02:03.004]");
    assert_eq!(DebugLog::log_timer(45_296_789), "[12:34:56.789]");
    assert_eq!(DebugLog::log_level_to_str(LogLevel::Debug), "logger");
    assert_eq!(DebugLog::log_level_to_str(LogLevel::Warn), "WARNING");
    assert_eq!(
        DebugLog::format_message(LogLevel::Info, "[00:00:00.001]", "hi", "a.rs", 3, 4),
        "[00:00:00.001] INFO: hi"
    );
    assert_eq!(
        DebugLog::format_message(LogLevel::Debug, "[t]", "hi", "a.rs", 12, 40),
        "[t] logger: hi (a.rs [12:40])"
    );
    let mut s = String::new();
    push_decimal(&mut s, 0);
    push_decimal(&mut s, 907);
    assert_eq!(s, "0907");
    let mut p = String::new();
    push_zero_padded(&mut p, 7, 3);
    push_zero_padded(&mut p, 1234, 2);
    assert_eq!(p, "0071234");
    let start = std::time::Instant::now();
    let stamp = DebugLog::timer_since(&start);
    assert_eq!(stamp.len(), 14);
    assert!(stamp.starts_with("[00:00:"));
    assert!(stamp.ends_with(']'));
}

#[test]
fn settings_and_messages() {
    let s = EditorSettings::load();
    assert_eq!(s.poll_interval, 100);
    assert_eq!(s.edit_mode, EditMode::Normal);
    assert_eq!(s.tab_type, TabType::Space);
    assert_eq!(s.tab_size, 4);
    assert_eq!(s.msg_delay, 10000);
    assert_eq!(EditorSettings::default(), s);
    s.save();
    let m = StatusMessage::new("hello", 10);
    assert_eq!(m.get(), "hello");
    assert!(!m.expired_after(10_000_000));
    assert!(m.expired_after(10_000_001));
    assert!(!m.is_expired());
    assert_eq!(StatusMessage::default().get(), "");
    assert_eq!(TITLE, "Eddy");
}

#[test]
fn editor_types_and_undoes_in_normal_mode() {
    let mut e = TextEditor::new(80, 24);
    assert!(e.is_edit_mode());
    e.complete_open("a.txt", Ok(vec!["ac".to_string()]));
    assert_eq!(e.buffer.filename(), "a.txt");
    e.view.place_cursor(Position { x: 0, y: 0 });
    assert_eq!(press(&mut e, key(KeyCode::Char('b'), 0)), EditorAction::Continue);
    assert_eq!(rows_of(&e.buffer), vec!["abc"]);
    assert_eq!(e.view.position(), Position { x: 1, y: 0 });
    assert!(e.buffer.is_modified());
    press(&mut e, key(KeyCode::Char('z'), CONTROL));
    assert_eq!(rows_of(&e.buffer), vec!["ac"]);
}

#[test]
fn editor_insert_mode_overwrites() {
    let mut e = TextEditor::new(80, 24);
    e.complete_open("a.txt", Ok(vec!["abc".to_string()]));
    press(&mut e, key(KeyCode::Insert, 0));
    assert_eq!(e.current_edit_mode, EditMode::Insert);
    press(&mut e, key(KeyCode::Char('X'), 0));
    assert_eq!(rows_of(&e.buffer), vec!["Xbc"]);
    press(&mut e, key(KeyCode::Insert, 0));
    assert_eq!(e.current_edit_mode, EditMode::Normal);
}

#[test]
fn editor_enter_breaks_line_and_backspace_deletes() {
    let mut e = TextEditor::new(80, 24);
    e.complete_open("a.txt", Ok(vec!["abcd".to_string()]));
    e.view.place_cursor(Position { x: 2, y: 0 });
    press(&mut e, key(KeyCode::Enter, 0));
    assert_eq!(rows_of(&e.buffer), vec!["ab", "cd"]);
    assert_eq!(e.view.position(), Position { x: 0, y: 1 });
    press(&mut e, key(KeyCode::Backspace, 0));
    assert_eq!(rows_of(&e.buffer), vec!["abcd"]);
    assert_eq!(e.view.position(), Position { x: 2, y: 0 });
    press(&mut e, key(KeyCode::Delete, 0));
    assert_eq!(rows_of(&e.buffer), vec!["abd"]);
    press(&mut e, key(KeyCode::Char('z'), CONTROL));
    assert_eq!(rows_of(&e.buffer), vec!["abcd"]);
}

#[test]
fn editor_find_places_cursor() {
    let mut e = TextEditor::new(80, 24);
    e.complete_open("a.txt", Ok(vec!["one".to_string(), "two".to_string()]));
    press(&mut e, key(KeyCode::Char('f'), CONTROL));
    assert_eq!(e.current_edit_mode, EditMode::InputFind);
    assert!(e.status_input.is_active());
    e.view.place_cursor(Position { x: e.status_input.get_start_pos(), y: 0 });
    for c in "wo".chars() {
        press(&mut e, key(KeyCode::Char(c), 0));
    }
    assert_eq!(e.status_input.as_string(), "wo");
    e.view.place_cursor(Position { x: 0, y: 0 });
    press(&mut e, key(KeyCode::Enter, 0));
    assert_eq!(e.view.position(), Position { x: 1, y: 1 });
    assert_eq!(last_message(&e), "Found text at position 1x1.");
    assert_eq!(e.current_edit_mode, EditMode::Normal);
    press(&mut e, key(KeyCode::Char('f'), CONTROL));
    press(&mut e, key(KeyCode::Enter, 0));
    assert_eq!(last_message(&e), "Search phrase '' not found.");
}

#[test]
fn editor_copy_cut_and_mark() {
    let mut e = TextEditor::new(80, 24);
    e.complete_open("a.txt", Ok(vec!["hello".to_string()]));
    press(&mut e, key(KeyCode::Right, SHIFT));
    press(&mut e, key(KeyCode::Right, SHIFT));
    press(&mut e, key(KeyCode::Right, SHIFT));
    assert_eq!(e.view.get_marked_positions(), (Position { x: 0, y: 0 }, Position { x: 2, y: 0 }));
    match press(&mut e, key(KeyCode::Char('c'), CONTROL)) {
        EditorAction::CopyToClipboard(t) => assert_eq!(t, "hel"),
        other => panic!("unexpected {:?}", other),
    }
    match press(&mut e, key(KeyCode::Char('x'), CONTROL)) {
        EditorAction::CopyToClipboard(t) => assert_eq!(t, "hel"),
        other => panic!("unexpected {:?}", other),
    }
    assert_eq!(rows_of(&e.buffer), vec!["lo"]);
    press(&mut e, key(KeyCode::Up, 0));
    assert!(!e.view.is_marking());
}

#[test]
fn editor_commands_and_file_actions() {
    let mut e = TextEditor::new(80, 24);
    assert_eq!(press(&mut e, key(KeyCode::Char('q'), CONTROL)), EditorAction::Quit);
    press(&mut e, key(KeyCode::Char('h'), CONTROL));
    assert!(e.show_help_menu);
    press(&mut e, key(KeyCode::Char('s'), CONTROL));
    assert_eq!(e.current_edit_mode, EditMode::InputSaveAs);
    press(&mut e, key(KeyCode::Enter, 0));
    assert_eq!(last_message(&e), "Please enter a valid filename.");
    assert_eq!(e.current_edit_mode, EditMode::Normal);
    press(&mut e, key(KeyCode::Char('o'), CONTROL));
    e.view.place_cursor(Position { x: 10, y: 0 });
    press(&mut e, key(KeyCode::Char('f'), 0));
    match press(&mut e, key(KeyCode::Enter, 0)) {
        EditorAction::Open(name) => assert_eq!(name, "f"),
        other => panic!("unexpected {:?}", other),
    }
    e.complete_open("f", Err("missing".to_string()));
    assert_eq!(last_message(&e), "Failed to open file: f (missing)");
    e.complete_open("a.txt", Ok(vec!["x".to_string()]));
    assert_eq!(press(&mut e, key(KeyCode::Char('s'), CONTROL)), EditorAction::Save);
    e.complete_save(Err("denied".to_string()));
    assert_eq!(last_message(&e), "Failed to save file: denied");
    e.complete_save(Ok(()));
    assert_eq!(last_message(&e), "Successfully saved.");
    assert_eq!(press(&mut e, key(KeyCode::Char('v'), CONTROL)), EditorAction::Paste(e.view.position()));
}

#[test]
fn editor_new_file_and_save_as() {
    let mut e = TextEditor::new(80, 24);
    press(&mut e, key(KeyCode::Char('a'), 0));
    assert!(e.buffer.is_modified());
    press(&mut e, key(KeyCode::Char('n'), CONTROL));
    assert_eq!(e.current_edit_mode, EditMode::InputSaveAs);
    assert!(e.create_new_file);
    e.view.place_cursor(Position { x: 18, y: 0 });
    press(&mut e, key(KeyCode::Char('g'), 0));
    assert_eq!(press(&mut e, key(KeyCode::Enter, 0)), EditorAction::SaveAs);
    assert_eq!(e.buffer.filename(), "g");
    e.complete_save_as(Ok(()));
    assert_eq!(last_message(&e), "Successfully saved.");
    assert_eq!(e.buffer.filename(), "Untitled");
    assert!(!e.create_new_file);
    e.complete_open("b.txt", Ok(vec!["b".to_string()]));
    press(&mut e, key(KeyCode::Char('c'), 0));
    assert_eq!(press(&mut e, key(KeyCode::Char('n'), CONTROL)), EditorAction::SaveThenNew);
    e.complete_save_then_new(Err("full".to_string()));
    assert_eq!(last_message(&e), "Failed to save file: b.txt (full)");
    assert_eq!(e.buffer.len(), 0);
}

#[test]
fn editor_replace_flow_and_resize() {
    let mut e = TextEditor::new(80, 24);
    e.complete_open("a.txt", Ok(vec!["abab".to_string()]));
    press(&mut e, key(KeyCode::Char('r'), CONTROL));
    assert!(e.replace_mode);
    e.view.place_cursor(Position { x: 8, y: 0 });
    press(&mut e, key(KeyCode::Char('b'), 0));
    press(&mut e, key(KeyCode::Enter, 0));
    assert_eq!(e.current_edit_mode, EditMode::InputReplace);
    e.view.place_cursor(Position { x: 2, y: 0 });
    press(&mut e, key(KeyCode::Enter, 0));
    assert_eq!(e.view.position(), Position { x: 3, y: 0 });
    assert_eq!(last_message(&e), "Found text at position 3x0.");
    assert!(!e.replace_mode);
    press(&mut e, Event::Resize(100, 30));
    assert_eq!(e.view.size(), Size { width: 100, height: 28 });
    assert!(!e.can_handle(&Event::Resize(100, 1)));
    e.add_status_message("note");
    assert_eq!(last_message(&e), "note");
}

#[test]
fn status_bar_texts() {
    let mut e = TextEditor::new(80, 24);
    assert_eq!(e.title_text(), "Eddy - Untitled");
    e.complete_open("a.txt", Ok(vec!["x".to_string()]));
    press(&mut e, key(KeyCode::Char('y'), 0));
    assert_eq!(e.title_text(), "Eddy - a.txt [*]");
    e.view.place_cursor(Position { x: 4, y: 2 });
    assert_eq!(e.view.position_text(), "yx: ↓2 →5");
    e.view.start_marking();
    e.view.place_cursor(Position { x: 10, y: 3 });
    e.view.end_marking();
    assert_eq!(e.view.marking_text(), "[yx]: (4x2) → (10x3)");
    assert_eq!(Position { x: 12, y: 0 }.display_text(), "(12x0)");
}

#[test]
fn status_bar_layout_and_line() {
    let mut e = TextEditor::new(80, 24);
    assert_eq!(e.view.title_column(15), 32);
    assert_eq!(e.view.mode_column(), 72);
    assert_eq!(e.view.position_column(9), 61);
    assert_eq!(e.view.marking_column(9, 20), 39);
    assert_eq!(e.status_line(), None);
    assert_eq!(e.status_text(false), None);
    e.add_status_message("Hello");
    assert_eq!(e.status_text(false), Some("Hello".to_string()));
    assert_eq!(e.status_text(true), None);
    assert_eq!(e.status_line(), Some("Hello".to_string()));
    press(&mut e, key(KeyCode::Char('f'), CONTROL));
    press(&mut e, key(KeyCode::Char('a'), 0));
    assert_eq!(e.status_text(false), Some("Search: a".to_string()));
    assert_eq!(e.status_text(true), Some("Search: a".to_string()));
    assert_eq!(e.status_line(), Some("Search: a".to_string()));
}

#[test]
fn insert_key_twice_restores_mode() {
    let mut e = TextEditor::new(80, 24);
    press(&mut e, key(KeyCode::Insert, 0));
    press(&mut e, key(KeyCode::Insert, 0));
    assert_eq!(e.current_edit_mode, EditMode::Normal);
    assert_eq!(e.status_input.get_mode(), EditMode::Normal);
}

#[test]
fn prompts_return_to_the_mode_they_came_from() {
    let mut e = TextEditor::new(80, 24);
    e.complete_open("a.txt", Ok(vec!["abc".to_string()]));
    press(&mut e, key(KeyCode::Insert, 0));
    assert_eq!(e.current_edit_mode, EditMode::Insert);
    press(&mut e, key(KeyCode::Char('o'), CONTROL));
    assert_eq!(e.current_edit_mode, EditMode::InputLoad);
    press(&mut e, key(KeyCode::Enter, 0));
    assert_eq!(e.current_edit_mode, EditMode::Insert);
    assert_eq!(e.status_input.get_mode(), EditMode::Insert);
    press(&mut e, key(KeyCode::Char('f'), CONTROL));
    press(&mut e, key(KeyCode::Enter, 0));
    assert_eq!(e.current_edit_mode, EditMode::Insert);
    press(&mut e, key(KeyCode::Char('r'), CONTROL));
    press(&mut e, key(KeyCode::Enter, 0));
    assert_eq!(e.current_edit_mode, EditMode::InputReplace);
    press(&mut e, key(KeyCode::Enter, 0));
    assert_eq!(e.current_edit_mode, EditMode::Insert);
    assert_eq!(e.status_input.get_mode(), EditMode::Insert);
    assert!(!e.replace_mode);
}

#[test]
fn control_shift_redoes_and_saves_as() {
    let mut e = TextEditor::new(80, 24);
    assert_eq!(press(&mut e, key(KeyCode::Char('z'), CONTROL_SHIFT)), EditorAction::Continue);
    assert_eq!(e.buffer.len(), 0);
    assert!(!e.buffer.is_modified());
    e.complete_open("a.txt", Ok(vec!["ab".to_string()]));
    press(&mut e, key(KeyCode::Char('x'), 0));
    assert_eq!(rows_of(&e.buffer), vec!["axb"]);
    press(&mut e, key(KeyCode::Char('z'), CONTROL));
    assert_eq!(rows_of(&e.buffer), vec!["ab"]);
    press(&mut e, key(KeyCode::Char('z'), CONTROL_SHIFT));
    assert_eq!(rows_of(&e.buffer), vec!["axb"]);
    press(&mut e, key(KeyCode::Char('z'), CONTROL_SHIFT));
    assert_eq!(rows_of(&e.buffer), vec!["axb"]);
    press(&mut e, key(KeyCode::Char('q'), CONTROL_SHIFT));
    assert_eq!(rows_of(&e.buffer), vec!["axb"]);
    assert_eq!(e.current_edit_mode, EditMode::Normal);
    press(&mut e, key(KeyCode::Char('s'), CONTROL_SHIFT));
    assert_eq!(e.current_edit_mode, EditMode::InputSaveAs);
    assert_eq!(e.last_edit_mode, EditMode::Normal);
    assert_eq!(e.status_input.get_content(), "Set new filename: ");
}

#[test]
fn cut_over_rows_marks_buffer_modified() {
    let mut e = TextEditor::new(80, 24);
    e.complete_open("a.txt", Ok(vec!["hello".to_string(), "world".to_string()]));
    assert!(!e.buffer.is_modified());
    e.view.place_cursor(Position { x: 2, y: 0 });
    press(&mut e, key(KeyCode::Down, SHIFT));
    press(&mut e, key(KeyCode::Right, SHIFT));
    match press(&mut e, key(KeyCode::Char('x'), CONTROL)) {
        EditorAction::CopyToClipboard(text) => assert_eq!(text, "llowor"),
        other => panic!("unexpected {:?}", other),
    }
    assert_eq!(rows_of(&e.buffer), vec!["he", "ld"]);
    assert!(e.buffer.is_modified());
}

#[test]
fn history_undo_takes_back_only_the_last_action() {
    let mut b = buffer(&["ab"]);
    let mut h = HistoryManager::new();
    let p = Position { x: 1, y: 0 };
    b.insert(&p, 'X');
    h.add_action(HistoryAction::AddChar { char: 'X', position: p });
    let q = Position { x: 3, y: 0 };
    b.insert(&q, 'Y');
    h.add_action(HistoryAction::AddChar { char: 'Y', position: q });
    assert_eq!(rows_of(&b), vec!["aXbY"]);
    h.undo(&mut b);
    assert_eq!(rows_of(&b), vec!["aXb"]);
    h.redo(&mut b);
    assert_eq!(rows_of(&b), vec!["aXbY"]);
    h.add_action(HistoryAction::AddNewline { position: Position { x: 0, y: 1 } });
    h.redo(&mut b);
    assert_eq!(rows_of(&b), vec!["aXbY"]);
}
