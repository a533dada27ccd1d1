//! The editor: what each key does to the buffer, the cursor, the history
//! and the status bar. Reading keys, drawing, the clipboard and files are
//! left to the caller, which carries out the `EditorAction` that a key
//! asks for and reports back through the `complete_*` functions.
use vstd::prelude::*;
use vstd::string::StringExecFns;
use crate::buffer::{
    DEFAULT_FILENAME, TextBuffer, delete_range_ok, get_range_ok, insert_ok, rows_delete, rows_delete_range,
    rows_find, rows_get_range, rows_insert, rows_insert_newline,
};
use crate::history::{
    HistoryAction, HistoryManager, lemma_undo_add_char, lemma_undo_del_char, plain_char, redo_ok, redone,
    undo_ok, undo_rows, undone,
};
use crate::row::{row_insert, row_remove};
use crate::status_input::{is_input_mode, prompt, start_column};
use crate::view::{CursorKey, cursor_after, input_cursor_after, same_but_cursor};
use crate::text::{decimal, push_decimal, str_eq};
use crate::position::{Position, Size};
use crate::settings::EditorSettings;
use crate::status_input::StatusInput;
use crate::status_message::StatusMessage;
use crate::view::{EditMode, TerminalView};

verus! {

/// The modifier bit of the Shift key.
pub const SHIFT: u8 = 1;

/// The modifier bit of the Control key.
pub const CONTROL: u8 = 2;

/// The modifier bits of Control and Shift held together.
pub const CONTROL_SHIFT: u8 = 3;

/// A key, as far as the editor tells keys apart.
#[derive(Clone, Copy, Debug, PartialEq, Eq, Structural)]
pub enum KeyCode {
    Char(char),
    Backspace,
    Delete,
    Enter,
    Insert,
    Tab,
    Up,
    Down,
    Left,
    Right,
    PageUp,
    PageDown,
    Home,
    End,
    Other,
}

/// A key press: the key and the modifier keys held, as bits (Shift 1,
/// Control 2, Alt 4, Super 8, Hyper 16, Meta 32).
#[derive(Clone, Copy, Debug, PartialEq, Eq, Structural)]
pub struct KeyEvent {
    pub code: KeyCode,
    pub modifiers: u8,
}

/// What the terminal reports.
#[derive(Clone, Copy, Debug, PartialEq, Eq, Structural)]
pub enum Event {
    Key(KeyEvent),
    Resize(u16, u16),
    Other,
}

/// What the caller has to do after a key was handled.
#[derive(Debug, PartialEq, Eq)]
pub enum EditorAction {
    /// Nothing; go on reading keys.
    Continue,
    /// Leave the editor.
    Quit,
    /// Put the text on the clipboard.
    CopyToClipboard(String),
    /// Write the buffer to its file, then call `complete_save`.
    Save,
    /// Write the buffer to its file, then call `complete_save_then_new`.
    SaveThenNew,
    /// Write the buffer to its (new) file, then call `complete_save_as`.
    SaveAs,
    /// Read the named file, then call `complete_open`.
    Open(String),
    /// Paste the clipboard at the position.
    Paste(Position),
}

/// The editor's whole state.
pub struct TextEditor {
    pub config: EditorSettings,
    pub view: TerminalView,
    pub buffer: TextBuffer,
    pub history: HistoryManager,
    pub status_input: StatusInput,
    pub status_message: Vec<StatusMessage>,
    pub show_help_menu: bool,
    pub create_new_file: bool,
    pub replace_mode: bool,
    pub current_edit_mode: EditMode,
    pub last_edit_mode: EditMode,
    pub to_find: String,
    pub to_replace: String,
}

/// Which parts of the editor a step may change.
pub struct Parts {
    pub buffer: bool,
    pub view: bool,
    pub history: bool,
    pub input: bool,
    pub messages: bool,
    pub mode: bool,
    pub last_mode: bool,
    pub help: bool,
    pub create: bool,
    pub replace: bool,
    pub find_text: bool,
    pub replace_text: bool,
}

/// No part changes.
pub open spec fn none_changed() -> Parts {
    Parts {
        buffer: false,
        view: false,
        history: false,
        input: false,
        messages: false,
        mode: false,
        last_mode: false,
        help: false,
        create: false,
        replace: false,
        find_text: false,
        replace_text: false,
    }
}

/// Every part of `post` that `p` does not name is as in `pre`; the settings
/// never change.
pub open spec fn unchanged_except(pre: TextEditor, post: TextEditor, p: Parts) -> bool {
    &&& post.config == pre.config
    &&& !p.buffer ==> post.buffer == pre.buffer
    &&& !p.view ==> post.view == pre.view
    &&& !p.history ==> post.history == pre.history
    &&& !p.input ==> post.status_input == pre.status_input
    &&& !p.messages ==> post.status_message == pre.status_message
    &&& !p.mode ==> post.current_edit_mode == pre.current_edit_mode
    &&& !p.last_mode ==> post.last_edit_mode == pre.last_edit_mode
    &&& !p.help ==> post.show_help_menu == pre.show_help_menu
    &&& !p.create ==> post.create_new_file == pre.create_new_file
    &&& !p.replace ==> post.replace_mode == pre.replace_mode
    &&& !p.find_text ==> post.to_find == pre.to_find
    &&& !p.replace_text ==> post.to_replace == pre.to_replace
}

/// `post` holds the messages of `pre` and one more, `msg`, shown for the
/// configured time.
pub open spec fn pushed_message(pre: TextEditor, post: TextEditor, msg: Seq<char>) -> bool {
    let n = pre.status_message@.len();
    &&& post.status_message@.len() == n + 1
    &&& post.status_message@.take(n as int) == pre.status_message@
    &&& post.status_message@[n as int].text() == msg
    &&& post.status_message@[n as int].delay() == pre.config.msg_delay as u64
}

/// The buffer of `post` is a new, empty, unmodified one.
pub open spec fn fresh_buffer(b: TextBuffer) -> bool {
    &&& b@ == Seq::<Seq<char>>::empty()
    &&& !b.modified_flag()
    &&& b.name() == DEFAULT_FILENAME@
}

/// True when the buffer has no proper file name yet.
pub open spec fn unnamed(b: TextBuffer) -> bool {
    b.name() == DEFAULT_FILENAME@ || b.name().len() == 0
}

/// The cursor key that `c` is, or `CursorKey::Other`.
pub open spec fn cursor_key(c: KeyCode) -> CursorKey {
    match c {
        KeyCode::Up => CursorKey::Up,
        KeyCode::Down => CursorKey::Down,
        KeyCode::Left => CursorKey::Left,
        KeyCode::Right => CursorKey::Right,
        KeyCode::PageUp => CursorKey::PageUp,
        KeyCode::PageDown => CursorKey::PageDown,
        KeyCode::Home => CursorKey::Home,
        KeyCode::End => CursorKey::End,
        _ => CursorKey::Other,
    }
}

/// The cursor key that `c` is, or `CursorKey::Other`.
pub fn to_cursor_key(c: KeyCode) -> (k: CursorKey)
    ensures
        k == cursor_key(c),
{
    match c {
        KeyCode::Up => CursorKey::Up,
        KeyCode::Down => CursorKey::Down,
        KeyCode::Left => CursorKey::Left,
        KeyCode::Right => CursorKey::Right,
        KeyCode::PageUp => CursorKey::PageUp,
        KeyCode::PageDown => CursorKey::PageDown,
        KeyCode::Home => CursorKey::Home,
        KeyCode::End => CursorKey::End,
        _ => CursorKey::Other,
    }
}

/// The character of `rows` at `p`, or a space where there is none (what
/// `TextBuffer::get_char` returns).
pub open spec fn char_at(rows: Seq<Seq<char>>, p: Position) -> char {
    if p.y < rows.len() && p.x < rows[p.y as int].len() {
        rows[p.y as int][p.x as int]
    } else {
        ' '
    }
}

/// The position one column right of `p`, where typing in `Normal` mode
/// inserts.
pub open spec fn next_column(p: Position) -> Position {
    Position { x: (p.x + 1) as usize, y: p.y }
}

/// The buffer of `post` holds `rows`, is marked modified where `pre`'s was
/// or where `marks` holds, and keeps its name.
pub open spec fn buffer_now(pre: TextBuffer, post: TextBuffer, rows: Seq<Seq<char>>, marks: bool) -> bool {
    &&& post@ == rows
    &&& post.modified_flag() == (pre.modified_flag() || marks)
    &&& post.name() == pre.name()
}

/// The status bar input of `post` was switched to `mode`: its text is
/// cleared and typing starts after the mode's prompt.
pub open spec fn input_reset(post: StatusInput, mode: EditMode) -> bool {
    &&& post.text() == Seq::<char>::empty()
    &&& post.input_mode() == mode
    &&& post.start() == start_column(mode)
}

/// `post` went from the mode of `pre` into `mode`, remembering the mode it
/// left, with the status bar input switched to `mode`.
pub open spec fn entered_mode(pre: TextEditor, post: TextEditor, mode: EditMode) -> bool {
    &&& post.last_edit_mode == pre.current_edit_mode
    &&& post.current_edit_mode == mode
    &&& input_reset(post.status_input, mode)
}

/// The status bar input of `post` holds `text`, for the same mode as in
/// `pre`.
pub open spec fn input_now(pre: StatusInput, post: StatusInput, text: Seq<char>) -> bool {
    &&& post.text() == text
    &&& post.input_mode() == pre.input_mode()
    &&& post.start() == pre.start()
}

/// Where Left or Right moves the cursor in the status bar input of `e`,
/// when the input holds `len` characters.
pub open spec fn input_cursor(e: TextEditor, len: nat, k: CursorKey) -> Position {
    input_cursor_after(
        e.view.cursor(),
        e.view.area().width as nat,
        start_column(e.status_input.input_mode()),
        len,
        k,
    )
}

/// Where `k` moves the cursor of `e` over `rows`.
pub open spec fn text_cursor(e: TextEditor, rows: Seq<Seq<char>>, k: CursorKey) -> Position {
    cursor_after(rows, e.view.cursor(), e.view.area().height as nat, k)
}

/// The message that reports a match at `p`.
pub open spec fn found_message(p: (nat, nat)) -> Seq<char> {
    "Found text at position "@ + decimal(p.0) + "x"@ + decimal(p.1) + "."@
}

/// The message that reports that `phrase` was not found.
pub open spec fn not_found_message(phrase: Seq<char>) -> Seq<char> {
    "Search phrase '"@ + phrase + "' not found."@
}

/// In `post`, the search for `phrase` from the cursor of `pre` placed the
/// cursor on the match and reported it, or reported that there is none.
pub open spec fn searched(pre: TextEditor, post: TextEditor, phrase: Seq<char>) -> bool {
    match rows_find(pre.buffer@, phrase, pre.view.cursor().y as int, pre.view.cursor().x as int) {
        Some(p) => {
            &&& post.view.cursor() == (Position { x: p.0 as usize, y: p.1 as usize })
            &&& same_but_cursor(pre.view, post.view)
            &&& pushed_message(pre, post, found_message(p))
        },
        None => {
            &&& post.view == pre.view
            &&& pushed_message(pre, post, not_found_message(pre.status_input.text()))
        },
    }
}

/// What a key with Control held does.
pub open spec fn control_effect(pre: TextEditor, post: TextEditor, c: KeyCode, act: EditorAction) -> bool {
    let marked = (pre.view.mark_start(), pre.view.mark_end());
    if c == KeyCode::Char('c') {
        &&& act matches EditorAction::CopyToClipboard(t) && t@ == rows_get_range(
            pre.buffer@,
            marked.0,
            marked.1,
        )
        &&& unchanged_except(pre, post, none_changed())
    } else if c == KeyCode::Char('f') {
        &&& act == EditorAction::Continue
        &&& entered_mode(pre, post, EditMode::InputFind)
        &&& unchanged_except(
            pre,
            post,
            Parts { mode: true, last_mode: true, input: true, ..none_changed() },
        )
    } else if c == KeyCode::Char('h') {
        &&& act == EditorAction::Continue
        &&& post.show_help_menu == !pre.show_help_menu
        &&& unchanged_except(pre, post, Parts { help: true, ..none_changed() })
    } else if c == KeyCode::Char('n') {
        if pre.buffer.modified_flag() && unnamed(pre.buffer) {
            &&& act == EditorAction::Continue
            &&& entered_mode(pre, post, EditMode::InputSaveAs)
            &&& post.create_new_file
            &&& unchanged_except(
                pre,
                post,
                Parts { mode: true, last_mode: true, input: true, create: true, ..none_changed() },
            )
        } else if pre.buffer.modified_flag() {
            &&& act == EditorAction::SaveThenNew
            &&& unchanged_except(pre, post, none_changed())
        } else {
            &&& act == EditorAction::Continue
            &&& fresh_buffer(post.buffer)
            &&& post.current_edit_mode == EditMode::Normal
            &&& unchanged_except(pre, post, Parts { buffer: true, mode: true, ..none_changed() })
        }
    } else if c == KeyCode::Char('o') {
        &&& act == EditorAction::Continue
        &&& entered_mode(pre, post, EditMode::InputLoad)
        &&& unchanged_except(
            pre,
            post,
            Parts { mode: true, last_mode: true, input: true, ..none_changed() },
        )
    } else if c == KeyCode::Char('s') {
        if unnamed(pre.buffer) {
            &&& act == EditorAction::Continue
            &&& entered_mode(pre, post, EditMode::InputSaveAs)
            &&& unchanged_except(
                pre,
                post,
                Parts { mode: true, last_mode: true, input: true, ..none_changed() },
            )
        } else {
            &&& act == EditorAction::Save
            &&& unchanged_except(pre, post, none_changed())
        }
    } else if c == KeyCode::Char('q') {
        &&& act == EditorAction::Quit
        &&& unchanged_except(pre, post, none_changed())
    } else if c == KeyCode::Char('r') {
        &&& act == EditorAction::Continue
        &&& entered_mode(pre, post, EditMode::InputFind)
        &&& post.replace_mode
        &&& unchanged_except(
            pre,
            post,
            Parts { mode: true, last_mode: true, input: true, replace: true, ..none_changed() },
        )
    } else if c == KeyCode::Char('v') {
        &&& act == EditorAction::Paste(pre.view.cursor())
        &&& unchanged_except(pre, post, none_changed())
    } else if c == KeyCode::Char('x') {
        &&& act matches EditorAction::CopyToClipboard(t) && t@ == rows_get_range(
            pre.buffer@,
            marked.0,
            marked.1,
        )
        &&& buffer_now(
            pre.buffer,
            post.buffer,
            rows_delete_range(pre.buffer@, marked.0, marked.1),
            rows_delete_range(pre.buffer@, marked.0, marked.1) != pre.buffer@,
        )
        &&& unchanged_except(pre, post, Parts { buffer: true, ..none_changed() })
    } else if c == KeyCode::Char('z') {
        &&& act == EditorAction::Continue
        &&& undone(pre.history, post.history, pre.buffer, post.buffer)
        &&& unchanged_except(pre, post, Parts { buffer: true, history: true, ..none_changed() })
    } else {
        &&& act == EditorAction::Continue
        &&& unchanged_except(pre, post, none_changed())
    }
}

/// What a key with Control and Shift held does: `s` asks for a new file
/// name (save as), `z` redoes the last undone action; other keys do
/// nothing.
pub open spec fn control_shift_effect(pre: TextEditor, post: TextEditor, c: KeyCode) -> bool {
    if c == KeyCode::Char('s') {
        &&& entered_mode(pre, post, EditMode::InputSaveAs)
        &&& unchanged_except(
            pre,
            post,
            Parts { mode: true, last_mode: true, input: true, ..none_changed() },
        )
    } else if c == KeyCode::Char('z') {
        &&& redone(pre.history, post.history, pre.buffer, post.buffer)
        &&& unchanged_except(pre, post, Parts { buffer: true, history: true, ..none_changed() })
    } else {
        unchanged_except(pre, post, none_changed())
    }
}

/// What typing `ch` does where the status bar takes input: it goes in at
/// the column right of the cursor, and the cursor moves right.
pub open spec fn typed_into_input(pre: TextEditor, post: TextEditor, ch: char) -> bool {
    let text = row_insert(pre.status_input.text(), pre.view.cursor().x + 1, ch);
    &&& input_now(pre.status_input, post.status_input, text)
    &&& post.view.cursor() == input_cursor(pre, text.len(), CursorKey::Right)
    &&& same_but_cursor(pre.view, post.view)
}

/// What a key with Shift held does.
pub open spec fn shift_effect(pre: TextEditor, post: TextEditor, c: KeyCode) -> bool {
    let k = cursor_key(c);
    let cur = pre.view.cursor();
    let rows = pre.buffer@;
    match c {
        KeyCode::Up | KeyCode::Down | KeyCode::Left | KeyCode::Right => {
            &&& post.view.cursor() == text_cursor(pre, rows, k)
            &&& post.view.marking_on()
            &&& pre.view.marking_on() ==> {
                &&& post.view.mark_start() == pre.view.mark_start()
                &&& post.view.mark_end() == cur
            }
            &&& !pre.view.marking_on() ==> {
                &&& post.view.mark_start() == cur
                &&& post.view.mark_end() == pre.view.mark_end()
            }
            &&& post.view.origin() == pre.view.origin()
            &&& post.view.area() == pre.view.area()
            &&& unchanged_except(pre, post, Parts { view: true, ..none_changed() })
        },
        KeyCode::Char(ch) => {
            if pre.current_edit_mode == EditMode::Insert || pre.current_edit_mode
                == EditMode::Normal {
                let at = if pre.current_edit_mode == EditMode::Insert {
                    cur
                } else {
                    next_column(cur)
                };
                let rows1 = rows_insert(rows, at, ch);
                &&& buffer_now(pre.buffer, post.buffer, rows1, at.y <= rows.len())
                &&& post.view.cursor() == text_cursor(pre, rows1, CursorKey::Right)
                &&& same_but_cursor(pre.view, post.view)
                &&& unchanged_except(pre, post, Parts { buffer: true, view: true, ..none_changed() })
            } else {
                &&& typed_into_input(pre, post, ch)
                &&& unchanged_except(pre, post, Parts { input: true, view: true, ..none_changed() })
            }
        },
        _ => unchanged_except(pre, post, none_changed()),
    }
}

/// What Enter does: in the status bar modes it acts on the typed text and
/// goes back to the mode before; while editing it breaks the line.
pub open spec fn enter_effect(pre: TextEditor, post: TextEditor, act: EditorAction) -> bool {
    let typed = pre.status_input.text();
    let back = pre.last_edit_mode;
    match pre.current_edit_mode {
        EditMode::InputFind => {
            &&& post.to_find@ == typed
            &&& if pre.replace_mode {
                &&& act == EditorAction::Continue
                &&& post.current_edit_mode == EditMode::InputReplace
                &&& input_reset(post.status_input, EditMode::InputReplace)
                &&& unchanged_except(
                    pre,
                    post,
                    Parts { find_text: true, mode: true, input: true, ..none_changed() },
                )
            } else {
                &&& act == EditorAction::Continue
                &&& searched(pre, post, typed)
                &&& post.current_edit_mode == back
                &&& input_reset(post.status_input, back)
                &&& unchanged_except(
                    pre,
                    post,
                    Parts {
                        find_text: true,
                        mode: true,
                        input: true,
                        view: true,
                        messages: true,
                        ..none_changed()
                    },
                )
            }
        },
        EditMode::InputReplace => {
            &&& act == EditorAction::Continue
            &&& post.to_replace@ == typed
            &&& searched(pre, post, pre.to_find@)
            &&& post.current_edit_mode == back
            &&& input_reset(post.status_input, back)
            &&& !post.replace_mode
            &&& unchanged_except(
                pre,
                post,
                Parts {
                    replace_text: true,
                    mode: true,
                    input: true,
                    view: true,
                    messages: true,
                    replace: true,
                    ..none_changed()
                },
            )
        },
        EditMode::InputLoad => {
            &&& typed.len() == 0 ==> {
                &&& act == EditorAction::Continue
                &&& pushed_message(pre, post, "Please enter a valid filename."@)
            }
            &&& typed.len() != 0 ==> {
                &&& act matches EditorAction::Open(f) && f@ == typed
                &&& post.status_message == pre.status_message
            }
            &&& post.current_edit_mode == back
            &&& input_reset(post.status_input, back)
            &&& unchanged_except(
                pre,
                post,
                Parts { mode: true, input: true, messages: true, ..none_changed() },
            )
        },
        EditMode::InputSaveAs => {
            &&& typed.len() == 0 ==> {
                &&& act == EditorAction::Continue
                &&& pushed_message(pre, post, "Please enter a valid filename."@)
                &&& post.buffer == pre.buffer
            }
            &&& typed.len() != 0 ==> {
                &&& act == EditorAction::SaveAs
                &&& post.status_message == pre.status_message
                &&& post.buffer@ == pre.buffer@
                &&& post.buffer.modified_flag() == pre.buffer.modified_flag()
                &&& post.buffer.name() == typed
            }
            &&& post.current_edit_mode == back
            &&& input_reset(post.status_input, back)
            &&& unchanged_except(
                pre,
                post,
                Parts { buffer: true, mode: true, input: true, messages: true, ..none_changed() },
            )
        },
        _ => {
            let cur = pre.view.cursor();
            let rows1 = rows_insert_newline(pre.buffer@, cur);
            let moved = text_cursor(pre, rows1, CursorKey::Right);
            &&& act == EditorAction::Continue
            &&& buffer_now(pre.buffer, post.buffer, rows1, cur.y <= pre.buffer@.len())
            &&& post.view.cursor() == moved
            &&& same_but_cursor(pre.view, post.view)
            &&& post.history.undo_actions() == pre.history.undo_actions().push(
                HistoryAction::AddNewline { position: moved },
            )
            &&& post.history.redo_actions() == Seq::<HistoryAction>::empty()
            &&& unchanged_except(
                pre,
                post,
                Parts { buffer: true, view: true, history: true, ..none_changed() },
            )
        },
    }
}

/// What a key without Control or Shift (other than Enter) does.
pub open spec fn plain_effect(pre: TextEditor, post: TextEditor, c: KeyCode) -> bool {
    let editing = pre.current_edit_mode == EditMode::Insert || pre.current_edit_mode
        == EditMode::Normal;
    let cur = pre.view.cursor();
    let rows = pre.buffer@;
    let input = pre.status_input.text();
    match c {
        KeyCode::Backspace => if editing {
            let p = text_cursor(pre, rows, CursorKey::Left);
            &&& buffer_now(pre.buffer, post.buffer, rows_delete(rows, p), p.y < rows.len())
            &&& post.view.cursor() == p
            &&& same_but_cursor(pre.view, post.view)
            &&& post.history.undo_actions() == pre.history.undo_actions().push(
                HistoryAction::DelChar { char: char_at(rows, p), position: p },
            )
            &&& post.history.redo_actions() == Seq::<HistoryAction>::empty()
            &&& unchanged_except(
                pre,
                post,
                Parts { buffer: true, view: true, history: true, ..none_changed() },
            )
        } else {
            let p = input_cursor(pre, input.len(), CursorKey::Left);
            &&& post.view.cursor() == p
            &&& same_but_cursor(pre.view, post.view)
            &&& input_now(
                pre.status_input,
                post.status_input,
                row_remove(input, p.x - start_column(pre.status_input.input_mode())),
            )
            &&& unchanged_except(pre, post, Parts { view: true, input: true, ..none_changed() })
        },
        KeyCode::Char(ch) => if pre.current_edit_mode == EditMode::Insert {
            let rows1 = rows_delete(rows, cur);
            let rows2 = rows_insert(rows1, cur, ch);
            &&& buffer_now(pre.buffer, post.buffer, rows2, cur.y <= rows.len())
            &&& post.view.cursor() == text_cursor(pre, rows2, CursorKey::Right)
            &&& same_but_cursor(pre.view, post.view)
            &&& unchanged_except(pre, post, Parts { buffer: true, view: true, ..none_changed() })
        } else if pre.current_edit_mode == EditMode::Normal {
            let at = next_column(cur);
            let rows1 = rows_insert(rows, at, ch);
            &&& buffer_now(pre.buffer, post.buffer, rows1, at.y <= rows.len())
            &&& post.view.cursor() == text_cursor(pre, rows1, CursorKey::Right)
            &&& same_but_cursor(pre.view, post.view)
            &&& post.history.undo_actions() == pre.history.undo_actions().push(
                HistoryAction::AddChar { char: ch, position: at },
            )
            &&& post.history.redo_actions() == Seq::<HistoryAction>::empty()
            &&& unchanged_except(
                pre,
                post,
                Parts { buffer: true, view: true, history: true, ..none_changed() },
            )
        } else {
            &&& typed_into_input(pre, post, ch)
            &&& unchanged_except(pre, post, Parts { input: true, view: true, ..none_changed() })
        },
        KeyCode::Delete => if editing {
            &&& buffer_now(pre.buffer, post.buffer, rows_delete(rows, cur), cur.y < rows.len())
            &&& post.history.undo_actions() == pre.history.undo_actions().push(
                HistoryAction::DelChar { char: char_at(rows, cur), position: cur },
            )
            &&& post.history.redo_actions() == Seq::<HistoryAction>::empty()
            &&& unchanged_except(pre, post, Parts { buffer: true, history: true, ..none_changed() })
        } else {
            &&& input_now(pre.status_input, post.status_input, row_remove(input, cur.x as int))
            &&& unchanged_except(pre, post, Parts { input: true, ..none_changed() })
        },
        KeyCode::Insert => {
            let m = if pre.current_edit_mode == EditMode::Insert {
                EditMode::Normal
            } else if pre.current_edit_mode == EditMode::Normal {
                EditMode::Insert
            } else {
                pre.current_edit_mode
            };
            &&& post.current_edit_mode == m
            &&& input_reset(post.status_input, m)
            &&& unchanged_except(pre, post, Parts { mode: true, input: true, ..none_changed() })
        },
        KeyCode::Tab => {
            &&& buffer_now(pre.buffer, post.buffer, rows_insert(rows, cur, '\t'), cur.y <= rows.len())
            &&& unchanged_except(pre, post, Parts { buffer: true, ..none_changed() })
        },
        KeyCode::Up | KeyCode::Down | KeyCode::PageUp | KeyCode::PageDown | KeyCode::End
        | KeyCode::Home => {
            &&& post.view.cursor() == (if editing {
                text_cursor(pre, rows, cursor_key(c))
            } else {
                cur
            })
            &&& !post.view.marking_on()
            &&& pre.view.marking_on() ==> {
                &&& post.view.mark_start() == (Position { x: 0, y: 0 })
                &&& post.view.mark_end() == (Position { x: 0, y: 0 })
            }
            &&& !pre.view.marking_on() ==> {
                &&& post.view.mark_start() == pre.view.mark_start()
                &&& post.view.mark_end() == pre.view.mark_end()
            }
            &&& post.view.origin() == pre.view.origin()
            &&& post.view.area() == pre.view.area()
            &&& unchanged_except(pre, post, Parts { view: true, ..none_changed() })
        },
        KeyCode::Left | KeyCode::Right => {
            &&& post.view.cursor() == (if editing {
                text_cursor(pre, rows, cursor_key(c))
            } else {
                input_cursor(pre, input.len(), cursor_key(c))
            })
            &&& same_but_cursor(pre.view, post.view)
            &&& unchanged_except(pre, post, Parts { view: true, ..none_changed() })
        },
        _ => unchanged_except(pre, post, none_changed()),
    }
}

/// True when typing one more character into the status bar input of `e`
/// (at the column right of the cursor) cannot overflow.
pub open spec fn typing_ok(e: TextEditor) -> bool {
    &&& e.view.cursor().x < usize::MAX
    &&& e.view.area().width >= 1
    &&& start_column(e.status_input.input_mode()) + e.status_input.text().len() + 1 <= usize::MAX
}

/// The inputs on which `handle_input` does not panic: the marked region can
/// be read (and cut), an undone action can be replayed, a line break lands
/// within its row, the cursor arithmetic does not overflow, the rows can be
/// searched, and the terminal keeps room for the two bars.
pub open spec fn input_ok(e: TextEditor, event: Event) -> bool {
    let rows = e.buffer@;
    let cur = e.view.cursor();
    let editing = e.current_edit_mode == EditMode::Insert || e.current_edit_mode
        == EditMode::Normal;
    let marked = (e.view.mark_start(), e.view.mark_end());
    match event {
        Event::Key(k) => if k.modifiers == CONTROL_SHIFT {
            k.code == KeyCode::Char('z') && e.history.redo_actions().len() > 0 ==> redo_ok(
                e.history.redo_actions().last(),
                rows,
            )
        } else if k.modifiers == CONTROL {
            if k.code == KeyCode::Char('c') {
                get_range_ok(rows, marked.0, marked.1)
            } else if k.code == KeyCode::Char('x') {
                get_range_ok(rows, marked.0, marked.1) && delete_range_ok(
                    rows,
                    marked.0,
                    marked.1,
                )
            } else if k.code == KeyCode::Char('z') {
                e.history.undo_actions().len() > 0 ==> undo_ok(
                    e.history.undo_actions().last(),
                    rows,
                )
            } else {
                true
            }
        } else {
            let shift = k.modifiers == SHIFT;
            match k.code {
                KeyCode::Char(ch) => if e.current_edit_mode == EditMode::Insert {
                    if shift {
                        insert_ok(rows, cur, ch)
                    } else {
                        insert_ok(rows_delete(rows, cur), cur, ch)
                    }
                } else if e.current_edit_mode == EditMode::Normal {
                    cur.x < usize::MAX && insert_ok(rows, next_column(cur), ch)
                } else {
                    typing_ok(e)
                },
                KeyCode::Backspace => !shift && !editing ==> {
                    &&& e.view.area().width >= 1
                    &&& input_cursor(e, e.status_input.text().len(), CursorKey::Left).x
                        >= start_column(e.status_input.input_mode())
                },
                KeyCode::Enter => !shift ==> match e.current_edit_mode {
                    EditMode::InputFind => true,
                    EditMode::InputReplace => true,
                    EditMode::InputLoad => true,
                    EditMode::InputSaveAs => true,
                    _ => cur.y < rows.len() ==> cur.x <= rows[cur.y as int].len(),
                },
                KeyCode::PageDown => !shift && editing ==> cur.y + e.view.area().height
                    <= usize::MAX,
                KeyCode::Left => !shift && !editing ==> e.view.area().width >= 1,
                KeyCode::Right => !shift && !editing ==> {
                    &&& e.view.area().width >= 1
                    &&& start_column(e.status_input.input_mode()) + e.status_input.text().len()
                        <= usize::MAX
                },
                _ => true,
            }
        },
        Event::Resize(_, h) => h >= 2,
        Event::Other => true,
    }
}

impl TextEditor {
    /// A new editor for a terminal of `width` columns and `height` rows:
    /// default settings, an empty buffer and history, `Normal` mode.
    pub fn new(width: usize, height: usize) -> (e: TextEditor)
        requires
            height >= 2,
        ensures
            e.config == crate::settings::default_settings(),
            e.view.cursor() == (Position { x: 0, y: 0 }),
            e.view.origin() == (Position { x: 0, y: 1 }),
            !e.view.marking_on(),
            e.view.mark_start() == (Position { x: 0, y: 0 }),
            e.view.mark_end() == (Position { x: 0, y: 0 }),
            e.view.area().width == width,
            e.view.area().height == height - 2,
            fresh_buffer(e.buffer),
            e.history.undo_actions().len() == 0,
            e.history.redo_actions().len() == 0,
            e.status_input.text().len() == 0,
            e.status_input.input_mode() == EditMode::Normal,
            e.status_message@.len() == 0,
            !e.show_help_menu,
            !e.create_new_file,
            !e.replace_mode,
            e.current_edit_mode == EditMode::Normal,
            e.last_edit_mode == EditMode::Normal,
            e.to_find@.len() == 0,
            e.to_replace@.len() == 0,
    {
        TextEditor {
            config: EditorSettings::load(),
            view: TerminalView::new(width, height),
            buffer: TextBuffer::new(),
            history: HistoryManager::new(),
            status_input: StatusInput::new(),
            status_message: Vec::new(),
            show_help_menu: false,
            create_new_file: false,
            replace_mode: false,
            current_edit_mode: EditMode::Normal,
            last_edit_mode: EditMode::Normal,
            to_find: String::new(),
            to_replace: String::new(),
        }
    }

    /// Shows `message` in the status bar for the configured time.
    pub fn add_status_message(&mut self, message: &str)
        ensures
            pushed_message(*old(self), *final(self), message@),
            unchanged_except(*old(self), *final(self), Parts { messages: true, ..none_changed() }),
    {
        let m = StatusMessage::new(message, self.config.msg_delay as u64);
        self.status_message.push(m);
        assert(self.status_message@.take(old(self).status_message@.len() as int)
            =~= old(self).status_message@);
    }

    /// True in the modes that edit the text.
    pub fn is_edit_mode(&self) -> (b: bool)
        ensures
            b == (self.current_edit_mode == EditMode::Insert || self.current_edit_mode
                == EditMode::Normal),
    {
        self.current_edit_mode == EditMode::Insert || self.current_edit_mode == EditMode::Normal
    }

    /// After `EditorAction::Save`: on success the buffer is marked saved and
    /// "Successfully saved." is shown; on failure the error is shown.
    pub fn complete_save(&mut self, result: Result<(), String>)
        ensures
            match result {
                Ok(()) => {
                    &&& final(self).buffer@ == old(self).buffer@
                    &&& !final(self).buffer.modified_flag()
                    &&& final(self).buffer.name() == old(self).buffer.name()
                    &&& pushed_message(*old(self), *final(self), "Successfully saved."@)
                    &&& unchanged_except(
                        *old(self),
                        *final(self),
                        Parts { buffer: true, messages: true, ..none_changed() },
                    )
                },
                Err(e) => {
                    &&& pushed_message(*old(self), *final(self), "Failed to save file: "@ + e@)
                    &&& unchanged_except(
                        *old(self),
                        *final(self),
                        Parts { messages: true, ..none_changed() },
                    )
                },
            },
    {
        match result {
            Ok(()) => {
                self.buffer.set_saved();
                self.add_status_message("Successfully saved.");
            },
            Err(e) => {
                let mut msg = String::from_str("Failed to save file: ");
                msg.append(e.as_str());
                self.add_status_message(msg.as_str());
            },
        }
    }

    /// After `EditorAction::SaveThenNew`: a failure is shown with the file
    /// name; either way the editor goes on with a new, empty buffer in
    /// `Normal` mode.
    pub fn complete_save_then_new(&mut self, result: Result<(), String>)
        ensures
            fresh_buffer(final(self).buffer),
            final(self).current_edit_mode == EditMode::Normal,
            match result {
                Ok(()) => unchanged_except(
                    *old(self),
                    *final(self),
                    Parts { buffer: true, mode: true, ..none_changed() },
                ),
                Err(e) => {
                    &&& pushed_message(
                        *old(self),
                        *final(self),
                        "Failed to save file: "@ + old(self).buffer.name() + " ("@ + e@ + ")"@,
                    )
                    &&& unchanged_except(
                        *old(self),
                        *final(self),
                        Parts { buffer: true, mode: true, messages: true, ..none_changed() },
                    )
                },
            },
    {
        match result {
            Ok(()) => {},
            Err(e) => {
                let mut msg = String::from_str("Failed to save file: ");
                msg.append(self.buffer.filename());
                msg.append(" (");
                msg.append(e.as_str());
                msg.append(")");
                self.add_status_message(msg.as_str());
            },
        }
        self.buffer = TextBuffer::new();
        self.current_edit_mode = EditMode::Normal;
    }

    /// After `EditorAction::SaveAs`: on success the buffer is marked saved,
    /// "Successfully saved." is shown, and where a new file was asked for
    /// the editor goes on with a new, empty buffer; on failure the error is
    /// shown.
    pub fn complete_save_as(&mut self, result: Result<(), String>)
        ensures
            match result {
                Ok(()) => {
                    &&& pushed_message(*old(self), *final(self), "Successfully saved."@)
                    &&& old(self).create_new_file ==> fresh_buffer(final(self).buffer)
                    &&& !old(self).create_new_file ==> {
                        &&& final(self).buffer@ == old(self).buffer@
                        &&& !final(self).buffer.modified_flag()
                        &&& final(self).buffer.name() == old(self).buffer.name()
                    }
                    &&& !final(self).create_new_file
                    &&& unchanged_except(
                        *old(self),
                        *final(self),
                        Parts { buffer: true, messages: true, create: true, ..none_changed() },
                    )
                },
                Err(e) => {
                    &&& pushed_message(*old(self), *final(self), "Failed to save file: "@ + e@)
                    &&& unchanged_except(
                        *old(self),
                        *final(self),
                        Parts { messages: true, ..none_changed() },
                    )
                },
            },
    {
        match result {
            Ok(()) => {
                self.buffer.set_saved();
                self.add_status_message("Successfully saved.");
                if self.create_new_file {
                    self.buffer = TextBuffer::new();
                    self.create_new_file = false;
                }
            },
            Err(e) => {
                let mut msg = String::from_str("Failed to save file: ");
                msg.append(e.as_str());
                self.add_status_message(msg.as_str());
            },
        }
    }

    /// After `EditorAction::Open` (or when a file is given at the start):
    /// the lines read become the buffer, named `filename`; a failure is shown
    /// with the file name.
    pub fn complete_open(&mut self, filename: &str, result: Result<Vec<String>, String>)
        ensures
            match result {
                Ok(lines) => {
                    &&& final(self).buffer@.len() == lines@.len()
                    &&& forall|i: int|
                        0 <= i < lines@.len() ==> #[trigger] final(self).buffer@[i] == lines@[i]@
                    &&& !final(self).buffer.modified_flag()
                    &&& final(self).buffer.name() == filename@
                    &&& unchanged_except(
                        *old(self),
                        *final(self),
                        Parts { buffer: true, ..none_changed() },
                    )
                },
                Err(e) => {
                    &&& pushed_message(
                        *old(self),
                        *final(self),
                        "Failed to open file: "@ + filename@ + " ("@ + e@ + ")"@,
                    )
                    &&& unchanged_except(
                        *old(self),
                        *final(self),
                        Parts { messages: true, ..none_changed() },
                    )
                },
            },
    {
        match result {
            Ok(lines) => {
                self.buffer = TextBuffer::from_lines(filename, lines);
            },
            Err(e) => {
                let mut msg = String::from_str("Failed to open file: ");
                msg.append(filename);
                msg.append(" (");
                msg.append(e.as_str());
                msg.append(")");
                self.add_status_message(msg.as_str());
            },
        }
    }

    /// Switches to `mode`, remembering the mode left.
    fn enter_mode(&mut self, mode: EditMode)
        ensures
            entered_mode(*old(self), *final(self), mode),
            unchanged_except(
                *old(self),
                *final(self),
                Parts { mode: true, last_mode: true, input: true, ..none_changed() },
            ),
    {
        self.last_edit_mode = self.current_edit_mode;
        self.current_edit_mode = mode;
        self.status_input.set_mode(self.current_edit_mode);
    }

    /// True when the buffer has no proper file name yet.
    fn has_no_filename(&self) -> (b: bool)
        ensures
            b == unnamed(self.buffer),
    {
        let name = self.buffer.filename();
        str_eq(name, DEFAULT_FILENAME) || name.is_empty()
    }

    /// Handles a key pressed with Control.
    fn control_key(&mut self, code: KeyCode) -> (act: EditorAction)
        requires
            input_ok(*old(self), Event::Key(KeyEvent { code, modifiers: CONTROL })),
        ensures
            control_effect(*old(self), *final(self), code, act),
    {
        match code {
            KeyCode::Char('c') => {
                let (start, end) = self.view.get_marked_positions();
                let marked_text = self.buffer.get_range(&start, &end);
                EditorAction::CopyToClipboard(marked_text)
            },
            KeyCode::Char('f') => {
                self.enter_mode(EditMode::InputFind);
                EditorAction::Continue
            },
            KeyCode::Char('h') => {
                self.show_help_menu = !self.show_help_menu;
                EditorAction::Continue
            },
            KeyCode::Char('n') => {
                if self.buffer.is_modified() {
                    if self.has_no_filename() {
                        self.enter_mode(EditMode::InputSaveAs);
                        self.create_new_file = true;
                        EditorAction::Continue
                    } else {
                        EditorAction::SaveThenNew
                    }
                } else {
                    self.buffer = TextBuffer::new();
                    self.current_edit_mode = EditMode::Normal;
                    EditorAction::Continue
                }
            },
            KeyCode::Char('o') => {
                self.enter_mode(EditMode::InputLoad);
                EditorAction::Continue
            },
            KeyCode::Char('s') => {
                if self.has_no_filename() {
                    self.enter_mode(EditMode::InputSaveAs);
                    EditorAction::Continue
                } else {
                    EditorAction::Save
                }
            },
            KeyCode::Char('q') => EditorAction::Quit,
            KeyCode::Char('r') => {
                self.enter_mode(EditMode::InputFind);
                self.replace_mode = true;
                EditorAction::Continue
            },
            KeyCode::Char('v') => EditorAction::Paste(self.view.position()),
            KeyCode::Char('x') => {
                let (start, end) = self.view.get_marked_positions();
                let marked_text = self.buffer.get_range(&start, &end);
                self.buffer.delete_range(&start, &end);
                EditorAction::CopyToClipboard(marked_text)
            },
            KeyCode::Char('z') => {
                self.history.undo(&mut self.buffer);
                EditorAction::Continue
            },
            _ => EditorAction::Continue,
        }
    }

    /// Types `ch` into the status bar input at the column right of the
    /// cursor and moves the cursor right.
    fn type_into_input(&mut self, ch: char)
        requires
            typing_ok(*old(self)),
        ensures
            typed_into_input(*old(self), *final(self), ch),
            unchanged_except(*old(self), *final(self), Parts { input: true, view: true, ..none_changed() }),
    {
        let pos = self.view.position().x + 1;
        self.status_input.insert(pos, ch);
        let start = self.status_input.get_start_pos();
        let len = self.status_input.len();
        self.view.user_input_move_cursor(start, len, CursorKey::Right);
    }

    /// Handles a key pressed with Shift.
    fn shift_key(&mut self, code: KeyCode)
        requires
            input_ok(*old(self), Event::Key(KeyEvent { code, modifiers: SHIFT })),
        ensures
            shift_effect(*old(self), *final(self), code),
    {
        match code {
            KeyCode::Up | KeyCode::Down | KeyCode::Left | KeyCode::Right => {
                if self.view.is_marking() {
                    self.view.end_marking();
                    self.view.move_cursor(&self.buffer, to_cursor_key(code));
                } else {
                    self.view.start_marking();
                    self.view.move_cursor(&self.buffer, to_cursor_key(code));
                }
            },
            KeyCode::Char(ch) => {
                if self.current_edit_mode == EditMode::Insert {
                    let pos = self.view.position();
                    self.buffer.insert(&pos, ch);
                    self.view.move_cursor(&self.buffer, CursorKey::Right);
                } else if self.current_edit_mode == EditMode::Normal {
                    let pos = Position { x: self.view.position().x + 1, y: self.view.position().y };
                    self.buffer.insert(&pos, ch);
                    self.view.move_cursor(&self.buffer, CursorKey::Right);
                } else {
                    self.type_into_input(ch);
                }
            },
            _ => {},
        }
    }

    /// Searches `phrase` from the cursor: the cursor goes to the match and
    /// the match is reported, or the typed text is reported as not found.
    fn search_and_report(&mut self, phrase: &str)
        ensures
            searched(*old(self), *final(self), phrase@),
            unchanged_except(
                *old(self),
                *final(self),
                Parts { view: true, messages: true, ..none_changed() },
            ),
    {
        let pos = self.view.position();
        proof {
            crate::buffer::lemma_rows_find_bounds(self.buffer@, phrase@, pos.y as int, pos.x as int);
        }
        match self.buffer.find(phrase, &pos) {
            Some(p) => {
                self.view.place_cursor(p);
                let mut msg = String::from_str("Found text at position ");
                push_decimal(&mut msg, p.x as u64);
                msg.append("x");
                push_decimal(&mut msg, p.y as u64);
                msg.append(".");
                proof {
                    let q = rows_find(old(self).buffer@, phrase@, pos.y as int, pos.x as int)->0;
                    crate::buffer::lemma_row_count_fits(&old(self).buffer);
                    crate::buffer::lemma_rows_find_bounds(
                        old(self).buffer@,
                        phrase@,
                        pos.y as int,
                        pos.x as int,
                    );
                    assert(q.0 == p.x && q.1 == p.y);
                    assert(msg@ =~= found_message(q));
                }
                self.add_status_message(msg.as_str());
            },
            None => {
                let mut msg = String::from_str("Search phrase '");
                let typed = self.status_input.as_string();
                msg.append(typed.as_str());
                msg.append("' not found.");
                self.add_status_message(msg.as_str());
            },
        }
    }

    /// Goes back to the mode that was left for the status bar input.
    fn leave_input(&mut self)
        ensures
            final(self).current_edit_mode == old(self).last_edit_mode,
            input_reset(final(self).status_input, old(self).last_edit_mode),
            unchanged_except(*old(self), *final(self), Parts { mode: true, input: true, ..none_changed() }),
    {
        self.current_edit_mode = self.last_edit_mode;
        self.status_input.set_mode(self.current_edit_mode);
    }

    /// Handles Enter without Control or Shift.
    fn enter_key(&mut self) -> (act: EditorAction)
        requires
            input_ok(*old(self), Event::Key(KeyEvent { code: KeyCode::Enter, modifiers: 0 })),
        ensures
            enter_effect(*old(self), *final(self), act),
    {
        match self.current_edit_mode {
            EditMode::InputFind => {
                self.to_find = self.status_input.as_string();
                if self.replace_mode {
                    self.current_edit_mode = EditMode::InputReplace;
                    self.status_input.set_mode(self.current_edit_mode);
                } else {
                    let phrase = self.to_find.clone();
                    self.search_and_report(phrase.as_str());
                    self.leave_input();
                }
                EditorAction::Continue
            },
            EditMode::InputReplace => {
                self.to_replace = self.status_input.as_string();
                let phrase = self.to_find.clone();
                self.search_and_report(phrase.as_str());
                self.leave_input();
                self.replace_mode = false;
                EditorAction::Continue
            },
            EditMode::InputLoad => {
                let filename = self.status_input.as_string();
                let act = if filename.as_str().is_empty() {
                    self.add_status_message("Please enter a valid filename.");
                    EditorAction::Continue
                } else {
                    EditorAction::Open(filename)
                };
                self.leave_input();
                act
            },
            EditMode::InputSaveAs => {
                let filename = self.status_input.as_string();
                let act = if filename.as_str().is_empty() {
                    self.add_status_message("Please enter a valid filename.");
                    EditorAction::Continue
                } else {
                    self.buffer.new_filename(filename.as_str());
                    EditorAction::SaveAs
                };
                self.leave_input();
                act
            },
            _ => {
                let pos = self.view.position();
                self.buffer.insert_newline(&pos);
                self.view.move_cursor(&self.buffer, CursorKey::Right);
                self.history.add_action(HistoryAction::AddNewline { position: self.view.position() });
                EditorAction::Continue
            },
        }
    }

    /// Handles a key other than Enter pressed without Control or Shift.
    fn plain_key(&mut self, code: KeyCode)
        requires
            code != KeyCode::Enter,
            input_ok(*old(self), Event::Key(KeyEvent { code, modifiers: 0 })),
        ensures
            plain_effect(*old(self), *final(self), code),
    {
        match code {
            KeyCode::Backspace => {
                if self.current_edit_mode == EditMode::Insert || self.current_edit_mode
                    == EditMode::Normal {
                    self.view.move_cursor(&self.buffer, CursorKey::Left);
                    let pos = self.view.position();
                    let ch = self.buffer.get_char(&pos);
                    self.buffer.delete(&pos);
                    self.history.add_action(HistoryAction::DelChar { char: ch, position: pos });
                } else {
                    let start = self.status_input.get_start_pos();
                    let len = self.status_input.len();
                    self.view.user_input_move_cursor(start, len, CursorKey::Left);
                    let pos = self.view.position().x - self.status_input.get_start_pos();
                    self.status_input.delete(pos);
                }
            },
            KeyCode::Char(ch) => {
                if self.current_edit_mode == EditMode::Insert {
                    let pos = self.view.position();
                    self.buffer.delete(&pos);
                    self.buffer.insert(&pos, ch);
                    self.view.move_cursor(&self.buffer, CursorKey::Right);
                } else if self.current_edit_mode == EditMode::Normal {
                    let pos = Position { x: self.view.position().x + 1, y: self.view.position().y };
                    self.buffer.insert(&pos, ch);
                    self.view.move_cursor(&self.buffer, CursorKey::Right);
                    self.history.add_action(HistoryAction::AddChar { char: ch, position: pos });
                } else {
                    self.type_into_input(ch);
                }
            },
            KeyCode::Delete => {
                if self.current_edit_mode == EditMode::Insert || self.current_edit_mode
                    == EditMode::Normal {
                    let pos = self.view.position();
                    let ch = self.buffer.get_char(&pos);
                    self.buffer.delete(&pos);
                    self.history.add_action(HistoryAction::DelChar { char: ch, position: pos });
                } else {
                    self.status_input.delete(self.view.position().x);
                }
            },
            KeyCode::Insert => {
                if self.current_edit_mode == EditMode::Insert {
                    self.current_edit_mode = EditMode::Normal;
                } else if self.current_edit_mode == EditMode::Normal {
                    self.current_edit_mode = EditMode::Insert;
                }
                self.status_input.set_mode(self.current_edit_mode);
            },
            KeyCode::Tab => {
                let pos = self.view.position();
                self.buffer.insert(&pos, '\t');
            },
            KeyCode::Up | KeyCode::Down | KeyCode::PageUp | KeyCode::PageDown | KeyCode::End
            | KeyCode::Home => {
                if self.view.is_marking() {
                    self.view.reset_marking();
                }
                if self.is_edit_mode() {
                    self.view.move_cursor(&self.buffer, to_cursor_key(code));
                }
            },
            KeyCode::Left | KeyCode::Right => {
                if self.is_edit_mode() {
                    self.view.move_cursor(&self.buffer, to_cursor_key(code));
                } else {
                    let start = self.status_input.get_start_pos();
                    let len = self.status_input.len();
                    self.view.user_input_move_cursor(start, len, to_cursor_key(code));
                }
            },
            _ => {},
        }
    }

    /// True when `handle_input` of `event` cannot panic (see `input_ok`).
    pub fn can_handle(&self, event: &Event) -> (b: bool)
        ensures
            b == input_ok(*self, *event),
    {
        let cur = self.view.position();
        let editing = self.current_edit_mode == EditMode::Insert || self.current_edit_mode
            == EditMode::Normal;
        match event {
            Event::Key(k) => {
                if k.modifiers == CONTROL_SHIFT {
                    match k.code {
                        KeyCode::Char('z') => self.history.can_redo(&self.buffer),
                        _ => true,
                    }
                } else if k.modifiers == CONTROL {
                    let (start, end) = self.view.get_marked_positions();
                    match k.code {
                        KeyCode::Char('c') => self.buffer.can_get_range(&start, &end),
                        KeyCode::Char('x') => self.buffer.can_get_range(&start, &end)
                            && self.buffer.can_delete_range(&start, &end),
                        KeyCode::Char('z') => self.history.can_undo(&self.buffer),
                        _ => true,
                    }
                } else {
                    let shift = k.modifiers == SHIFT;
                    let width = self.view.size().width;
                    match k.code {
                        KeyCode::Char(ch) => {
                            if self.current_edit_mode == EditMode::Insert {
                                self.buffer.can_insert(&cur, ch)
                            } else if self.current_edit_mode == EditMode::Normal {
                                cur.x < usize::MAX && self.buffer.can_insert(
                                    &Position { x: cur.x + 1, y: cur.y },
                                    ch,
                                )
                            } else {
                                let start = self.status_input.get_start_pos();
                                let len = self.status_input.len();
                                cur.x < usize::MAX && width >= 1 && len < usize::MAX - start
                            }
                        },
                        KeyCode::Backspace => {
                            if shift || editing {
                                true
                            } else {
                                let start = self.status_input.get_start_pos();
                                let moved = if cur.x > start {
                                    cur.x - 1
                                } else {
                                    cur.x
                                };
                                width >= 1 && (if moved > width - 1 {
                                    width - 1
                                } else {
                                    moved
                                }) >= start
                            }
                        },
                        KeyCode::Enter => {
                            if shift {
                                true
                            } else {
                                match self.current_edit_mode {
                                    EditMode::InputFind => true,
                                    EditMode::InputReplace => true,
                                    EditMode::InputLoad => true,
                                    EditMode::InputSaveAs => true,
                                    _ => self.buffer.can_insert(&cur, '\n'),
                                }
                            }
                        },
                        KeyCode::PageDown => shift || !editing || cur.y <= usize::MAX
                            - self.view.size().height,
                        KeyCode::Left => shift || editing || width >= 1,
                        KeyCode::Right => {
                            if shift || editing {
                                true
                            } else {
                                let start = self.status_input.get_start_pos();
                                let len = self.status_input.len();
                                width >= 1 && len <= usize::MAX - start
                            }
                        },
                        _ => true,
                    }
                }
            },
            Event::Resize(_, h) => *h >= 2,
            Event::Other => true,
        }
    }

    /// Handles one event from the terminal and says what the caller has to
    /// do next. With Control and Shift, `s` asks for a new file name and `z`
    /// redoes; with Control, keys run commands (copy, find, help, new,
    /// open, save, quit, replace, paste, cut, undo); with Shift, arrows mark
    /// text and characters are typed; otherwise keys edit the text or the
    /// status bar input, Enter finishes an input, and a resize resizes the
    /// view.
    pub fn handle_input(&mut self, event: Event) -> (act: EditorAction)
        requires
            input_ok(*old(self), event),
        ensures
            match event {
                Event::Key(k) => if k.modifiers == CONTROL_SHIFT {
                    act == EditorAction::Continue && control_shift_effect(
                        *old(self),
                        *final(self),
                        k.code,
                    )
                } else if k.modifiers == CONTROL {
                    control_effect(*old(self), *final(self), k.code, act)
                } else if k.modifiers == SHIFT {
                    act == EditorAction::Continue && shift_effect(*old(self), *final(self), k.code)
                } else if k.code == KeyCode::Enter {
                    enter_effect(*old(self), *final(self), act)
                } else {
                    act == EditorAction::Continue && plain_effect(*old(self), *final(self), k.code)
                },
                Event::Resize(w, h) => {
                    &&& act == EditorAction::Continue
                    &&& final(self).view.area() == (Size { width: w as usize, height: (h - 2) as usize })
                    &&& final(self).view.cursor() == old(self).view.cursor()
                    &&& final(self).view.origin() == old(self).view.origin()
                    &&& final(self).view.marking_on() == old(self).view.marking_on()
                    &&& final(self).view.mark_start() == old(self).view.mark_start()
                    &&& final(self).view.mark_end() == old(self).view.mark_end()
                    &&& unchanged_except(*old(self), *final(self), Parts { view: true, ..none_changed() })
                },
                Event::Other => act == EditorAction::Continue && unchanged_except(
                    *old(self),
                    *final(self),
                    none_changed(),
                ),
            },
    {
        match event {
            Event::Key(key) => {
                if key.modifiers == CONTROL_SHIFT {
                    match key.code {
                        KeyCode::Char('s') => {
                            self.enter_mode(EditMode::InputSaveAs);
                        },
                        KeyCode::Char('z') => {
                            self.history.redo(&mut self.buffer);
                        },
                        _ => {},
                    }
                    return EditorAction::Continue;
                }
                if key.modifiers == CONTROL {
                    return self.control_key(key.code);
                }
                if key.modifiers == SHIFT {
                    self.shift_key(key.code);
                    return EditorAction::Continue;
                }
                if key.code == KeyCode::Enter {
                    return self.enter_key();
                }
                self.plain_key(key.code);
                EditorAction::Continue
            },
            Event::Resize(width, height) => {
                self.view.resize(width as usize, height as usize);
                EditorAction::Continue
            },
            Event::Other => EditorAction::Continue,
        }
    }

    /// What the left of the status bar shows, given whether the last message
    /// has expired: the input line while the status bar takes input, else
    /// the last message while it has not expired, else nothing.
    pub fn status_text(&self, message_expired: bool) -> (r: Option<String>)
        ensures
            is_input_mode(self.status_input.input_mode()) ==> (r matches Some(s) && s@ == prompt(
                self.status_input.input_mode(),
            ) + " "@ + self.status_input.text()),
            !is_input_mode(self.status_input.input_mode()) ==> (if self.status_message@.len() > 0
                && !message_expired {
                r matches Some(s) && s@ == self.status_message@.last().text()
            } else {
                r is None
            }),
    {
        if self.status_input.is_active() {
            Some(self.status_input.get_content())
        } else {
            let n = self.status_message.len();
            if n > 0 && !message_expired {
                let s = self.status_message[n - 1].get();
                Some(s.to_string())
            } else {
                None
            }
        }
    }

    /// What the left of the status bar shows now: the input line while the
    /// status bar takes input, else the last message or nothing, as the
    /// clock says whether the message has expired.
    pub fn status_line(&self) -> (r: Option<String>)
        ensures
            is_input_mode(self.status_input.input_mode()) ==> (r matches Some(s) && s@ == prompt(
                self.status_input.input_mode(),
            ) + " "@ + self.status_input.text()),
            !is_input_mode(self.status_input.input_mode()) ==> (r is None || (r matches Some(s)
                && self.status_message@.len() > 0 && s@ == self.status_message@.last().text())),
    {
        let n = self.status_message.len();
        let expired = if n > 0 {
            self.status_message[n - 1].is_expired()
        } else {
            true
        };
        self.status_text(expired)
    }

    /// The title bar text: the editor's name and the file name, with `[*]`
    /// while the buffer has unsaved changes.
    pub fn title_text(&self) -> (s: String)
        ensures
            s@ == crate::TITLE@ + " - "@ + self.buffer.name() + (if self.buffer.modified_flag() {
                " [*]"@
            } else {
                Seq::<char>::empty()
            }),
    {
        let mut s = String::from_str(crate::TITLE);
        s.append(" - ");
        s.append(self.buffer.filename());
        if self.buffer.is_modified() {
            s.append(" [*]");
        }
        s
    }
}

/// The Insert key switches between the two editing modes: pressed twice
/// while editing, it leaves the editor in the mode it started in.
pub proof fn lemma_insert_key_twice(a: TextEditor, b: TextEditor, c: TextEditor)
    requires
        a.current_edit_mode == EditMode::Insert || a.current_edit_mode == EditMode::Normal,
        plain_effect(a, b, KeyCode::Insert),
        plain_effect(b, c, KeyCode::Insert),
    ensures
        c.current_edit_mode == a.current_edit_mode,
        c.status_input.input_mode() == a.current_edit_mode,
{
}

/// Undo takes back a typed character: in `Normal` mode, typing a plain
/// character inside a row and then pressing Control+Z gives the rows back.
pub proof fn lemma_undo_typed_char(a: TextEditor, b: TextEditor, d: TextEditor, c: char, act: EditorAction)
    requires
        a.current_edit_mode == EditMode::Normal,
        plain_char(c),
        a.view.cursor().y < a.buffer@.len(),
        a.view.cursor().x < a.buffer@[a.view.cursor().y as int].len(),
        plain_effect(a, b, KeyCode::Char(c)),
        control_effect(b, d, KeyCode::Char('z'), act),
    ensures
        d.buffer@ == a.buffer@,
{
    let p = next_column(a.view.cursor());
    let action = HistoryAction::AddChar { char: c, position: p };
    assert(b.history.undo_actions().last() == action);
    lemma_undo_add_char(a.buffer@, p, c);
    assert(d.buffer@ == undo_rows(action, b.buffer@));
}

/// Undo takes back a deleted character: while editing, deleting a plain
/// character inside a row with the Delete key and then pressing Control+Z
/// gives the rows back.
pub proof fn lemma_undo_deleted_char(a: TextEditor, b: TextEditor, d: TextEditor, act: EditorAction)
    requires
        a.current_edit_mode == EditMode::Normal || a.current_edit_mode == EditMode::Insert,
        a.view.cursor().y < a.buffer@.len(),
        a.view.cursor().x < a.buffer@[a.view.cursor().y as int].len(),
        plain_char(a.buffer@[a.view.cursor().y as int][a.view.cursor().x as int]),
        plain_effect(a, b, KeyCode::Delete),
        control_effect(b, d, KeyCode::Char('z'), act),
    ensures
        d.buffer@ == a.buffer@,
{
    let p = a.view.cursor();
    let ch = a.buffer@[p.y as int][p.x as int];
    let action = HistoryAction::DelChar { char: ch, position: p };
    assert(char_at(a.buffer@, p) == ch);
    assert(b.history.undo_actions().last() == action);
    lemma_undo_del_char(a.buffer@, p);
    assert(d.buffer@ == undo_rows(action, b.buffer@));
}

/// A status bar prompt gives the mode back: opening the search (outside
/// replace mode), the file to open, or the new file name of an unnamed
/// buffer with Control, then pressing Enter, leaves the editor in the mode
/// it was in before, with the status bar input set for that mode.
pub proof fn lemma_prompt_returns_to_mode(
    a: TextEditor,
    b: TextEditor,
    c: TextEditor,
    k: char,
    act1: EditorAction,
    act2: EditorAction,
)
    requires
        (k == 'f' && !a.replace_mode) || k == 'o' || (k == 's' && unnamed(a.buffer)),
        control_effect(a, b, KeyCode::Char(k), act1),
        enter_effect(b, c, act2),
    ensures
        c.current_edit_mode == a.current_edit_mode,
        c.status_input.input_mode() == a.current_edit_mode,
        c.status_input.text().len() == 0,
{
}

/// The replace prompt gives the mode back: Control+R, Enter on the search
/// phrase and Enter on the replacement leave the editor in the mode it was
/// in before, out of replace mode.
pub proof fn lemma_replace_prompt_returns_to_mode(
    a: TextEditor,
    b: TextEditor,
    c: TextEditor,
    d: TextEditor,
    act1: EditorAction,
    act2: EditorAction,
    act3: EditorAction,
)
    requires
        control_effect(a, b, KeyCode::Char('r'), act1),
        enter_effect(b, c, act2),
        enter_effect(c, d, act3),
    ensures
        d.current_edit_mode == a.current_edit_mode,
        d.status_input.input_mode() == a.current_edit_mode,
        !d.replace_mode,
{
}

/// Typing in overwrite (`Insert`) mode replaces the character under the
/// cursor and moves the cursor one column right, so a word typed over a row
/// is written left to right.
pub proof fn lemma_overwrite_replaces_and_advances(a: TextEditor, b: TextEditor, c: char)
    requires
        a.current_edit_mode == EditMode::Insert,
        plain_char(c),
        a.view.cursor().y < a.buffer@.len(),
        a.view.cursor().x < a.buffer@[a.view.cursor().y as int].len(),
        plain_effect(a, b, KeyCode::Char(c)),
    ensures
        ({
            let (x, y) = (a.view.cursor().x as int, a.view.cursor().y as int);
            &&& b.buffer@ == a.buffer@.update(y, a.buffer@[y].update(x, c))
            &&& b.view.cursor() == (Position { x: (x + 1) as usize, y: y as usize })
            &&& b.buffer.modified_flag()
        }),
{
    let cur = a.view.cursor();
    let (x, y) = (cur.x as int, cur.y as int);
    let rows = a.buffer@;
    let row = rows[y];
    let rows1 = rows_delete(rows, cur);
    assert(rows1 == rows.update(y, row.remove(x)));
    let rows2 = rows_insert(rows1, cur, c);
    if x >= row.remove(x).len() {
        assert(row.remove(x).push(c) =~= row.update(x, c));
    } else {
        assert(row.remove(x).insert(x, c) =~= row.update(x, c));
    }
    assert(rows2 =~= rows.update(y, row.update(x, c)));
}

/// Typing in `Normal` mode inserts the character right of the cursor,
/// moves the cursor onto it, and records it for undo.
pub proof fn lemma_normal_typing_inserts_after_cursor(a: TextEditor, b: TextEditor, c: char)
    requires
        a.current_edit_mode == EditMode::Normal,
        plain_char(c),
        a.view.cursor().y < a.buffer@.len(),
        a.view.cursor().x < a.buffer@[a.view.cursor().y as int].len(),
        plain_effect(a, b, KeyCode::Char(c)),
    ensures
        ({
            let (x, y) = (a.view.cursor().x as int, a.view.cursor().y as int);
            let at = Position { x: (x + 1) as usize, y: y as usize };
            &&& b.buffer@ == a.buffer@.update(y, a.buffer@[y].insert(x + 1, c))
            &&& b.view.cursor() == at
            &&& b.history.undo_actions().last() == (HistoryAction::AddChar { char: c, position: at })
            &&& b.buffer.modified_flag()
        }),
{
    let (x, y) = (a.view.cursor().x as int, a.view.cursor().y as int);
    let rows = a.buffer@;
    let row = rows[y];
    crate::buffer::lemma_row_count_fits(&a.buffer);
    let at = next_column(a.view.cursor());
    assert(at == Position { x: (x + 1) as usize, y: y as usize });
    let rows1 = rows_insert(rows, at, c);
    if x + 1 >= row.len() {
        assert(row.push(c) =~= row.insert(x + 1, c));
    }
    assert(rows1 =~= rows.update(y, row.insert(x + 1, c)));
    assert(rows1[y].len() == row.len() + 1);
}

/// Delete while editing removes the character under the cursor, leaves the
/// cursor where it is, and records the removed character for undo.
pub proof fn lemma_delete_removes_under_cursor(a: TextEditor, b: TextEditor)
    requires
        a.current_edit_mode == EditMode::Insert || a.current_edit_mode == EditMode::Normal,
        a.view.cursor().y < a.buffer@.len(),
        a.view.cursor().x < a.buffer@[a.view.cursor().y as int].len(),
        plain_effect(a, b, KeyCode::Delete),
    ensures
        ({
            let (x, y) = (a.view.cursor().x as int, a.view.cursor().y as int);
            &&& b.buffer@ == a.buffer@.update(y, a.buffer@[y].remove(x))
            &&& b.view.cursor() == a.view.cursor()
            &&& b.history.undo_actions().last() == (HistoryAction::DelChar {
                char: a.buffer@[y][x],
                position: a.view.cursor(),
            })
        }),
{
}

/// Backspace removes the character left of the cursor and moves the cursor
/// onto its place; Control+Z then gives the rows back, because the history
/// holds the character that was removed.
pub proof fn lemma_backspace_then_undo(a: TextEditor, b: TextEditor, d: TextEditor, act: EditorAction)
    requires
        a.current_edit_mode == EditMode::Normal || a.current_edit_mode == EditMode::Insert,
        a.view.cursor().y < a.buffer@.len(),
        0 < a.view.cursor().x <= a.buffer@[a.view.cursor().y as int].len(),
        plain_char(a.buffer@[a.view.cursor().y as int][a.view.cursor().x - 1]),
        plain_effect(a, b, KeyCode::Backspace),
        control_effect(b, d, KeyCode::Char('z'), act),
    ensures
        ({
            let (x, y) = (a.view.cursor().x as int, a.view.cursor().y as int);
            &&& b.buffer@ == a.buffer@.update(y, a.buffer@[y].remove(x - 1))
            &&& b.view.cursor() == (Position { x: (x - 1) as usize, y: y as usize })
            &&& d.buffer@ == a.buffer@
        }),
{
    let cur = a.view.cursor();
    let rows = a.buffer@;
    let p = Position { x: (cur.x - 1) as usize, y: cur.y };
    assert(text_cursor(a, rows, CursorKey::Left) == p);
    let ch = rows[p.y as int][p.x as int];
    assert(char_at(rows, p) == ch);
    let action = HistoryAction::DelChar { char: ch, position: p };
    assert(b.history.undo_actions().last() == action);
    lemma_undo_del_char(rows, p);
    assert(d.buffer@ == undo_rows(action, b.buffer@));
}

/// Enter while editing breaks the row at the cursor: the part before the
/// cursor stays, the rest becomes the next row, the rows below move down by
/// one, and the cursor goes to the start of the new row.
pub proof fn lemma_enter_breaks_row(a: TextEditor, b: TextEditor, act: EditorAction)
    requires
        a.current_edit_mode == EditMode::Normal || a.current_edit_mode == EditMode::Insert,
        a.view.cursor().y < a.buffer@.len(),
        a.view.cursor().x <= a.buffer@[a.view.cursor().y as int].len(),
        enter_effect(a, b, act),
    ensures
        ({
            let (x, y) = (a.view.cursor().x as int, a.view.cursor().y as int);
            let rows = a.buffer@;
            &&& b.buffer@.len() == rows.len() + 1
            &&& b.buffer@[y] == rows[y].take(x)
            &&& b.buffer@[y + 1] == rows[y].skip(x)
            &&& forall|i: int| 0 <= i < y ==> #[trigger] b.buffer@[i] == rows[i]
            &&& forall|i: int| y < i < rows.len() ==> #[trigger] b.buffer@[i + 1] == rows[i]
            &&& b.view.cursor() == (Position { x: 0, y: (y + 1) as usize })
            &&& b.buffer.modified_flag()
        }),
{
    let (x, y) = (a.view.cursor().x as int, a.view.cursor().y as int);
    let rows = a.buffer@;
    let rows1 = rows_insert_newline(rows, a.view.cursor());
    assert(rows1[y] == rows[y].take(x));
    assert(rows1[y + 1] == rows[y].skip(x));
    assert forall|i: int| y < i < rows.len() implies #[trigger] rows1[i + 1] == rows[i] by {
        assert(rows1[i + 1] == rows.skip(y + 1)[i - y - 1]);
    }
}

/// Control+N on a buffer without unsaved changes starts a new one: no rows,
/// not modified, named `DEFAULT_FILENAME`, in `Normal` mode. With unsaved
/// changes it first asks for a file name, or asks the caller to save.
pub proof fn lemma_new_file(a: TextEditor, b: TextEditor, act: EditorAction)
    requires
        control_effect(a, b, KeyCode::Char('n'), act),
    ensures
        !a.buffer.modified_flag() ==> {
            &&& act == EditorAction::Continue
            &&& b.buffer@.len() == 0
            &&& !b.buffer.modified_flag()
            &&& b.buffer.name() == DEFAULT_FILENAME@
            &&& b.current_edit_mode == EditMode::Normal
        },
        a.buffer.modified_flag() && a.buffer.name() != DEFAULT_FILENAME@ && a.buffer.name().len()
            > 0 ==> act == EditorAction::SaveThenNew && b.buffer == a.buffer,
        a.buffer.modified_flag() && (a.buffer.name() == DEFAULT_FILENAME@
            || a.buffer.name().len() == 0) ==> {
            &&& act == EditorAction::Continue
            &&& b.current_edit_mode == EditMode::InputSaveAs
            &&& b.create_new_file
            &&& b.buffer == a.buffer
        },
{
}

} // verus!
