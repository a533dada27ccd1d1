//! The input line of the status bar, where a search phrase or a file name
//! is typed.
use vstd::prelude::*;
use vstd::string::StringExecFns;
use crate::row::{Row, row_insert, row_remove};
use crate::text::{lemma_utf8_width_is_encoding_len, utf8_width};
use crate::view::EditMode;

verus! {

/// The prompt shown while a search phrase is typed.
pub const SEARCH_TEXT: &'static str = "Search:";

/// The prompt shown while a replacement is typed.
pub const REPLACE_TEXT: &'static str = "Replace:";

/// The prompt shown while the name of a file to open is typed.
pub const LOAD_FILE_TEXT: &'static str = "Filename:";

/// The prompt shown while a new file name is typed.
pub const SAVE_FILE_TEXT: &'static str = "Set new filename:";

/// The prompt that goes with `mode`; the editing modes have none.
pub open spec fn prompt(mode: EditMode) -> Seq<char> {
    match mode {
        EditMode::InputFind => SEARCH_TEXT@,
        EditMode::InputLoad => LOAD_FILE_TEXT@,
        EditMode::InputReplace => REPLACE_TEXT@,
        EditMode::InputSaveAs => SAVE_FILE_TEXT@,
        _ => Seq::empty(),
    }
}

/// True for the modes in which the status bar takes input.
pub open spec fn is_input_mode(mode: EditMode) -> bool {
    mode != EditMode::Insert && mode != EditMode::Normal
}

/// The column where typing starts after the prompt of `mode` (the prompt's
/// length in bytes, plus one for the space after it).
pub open spec fn start_column(mode: EditMode) -> nat {
    utf8_width(prompt(mode)) + 1
}

/// The text typed into the status bar, the mode it is typed for, and the
/// column where typing starts.
#[derive(Debug)]
pub struct StatusInput {
    content: Row,
    mode: EditMode,
    position: usize,
}

impl Default for StatusInput {
    /// An empty input in `Normal` mode, as `StatusInput::new` makes it.
    fn default() -> (s: StatusInput)
        ensures
            s.text() == Seq::<char>::empty(),
            s.input_mode() == EditMode::Normal,
            s.start() == 0,
    {
        StatusInput::new()
    }
}

impl StatusInput {
    /// The characters typed so far.
    pub closed spec fn text(&self) -> Seq<char> {
        self.content@
    }

    /// The mode the input is for.
    pub closed spec fn input_mode(&self) -> EditMode {
        self.mode
    }

    /// The column where typing starts.
    pub closed spec fn start(&self) -> usize {
        self.position
    }

    /// An empty input in `Normal` mode.
    pub fn new() -> (s: StatusInput)
        ensures
            s.text() == Seq::<char>::empty(),
            s.input_mode() == EditMode::Normal,
            s.start() == 0,
    {
        StatusInput { content: Row::default(), mode: EditMode::Normal, position: 0 }
    }

    /// True when the status bar takes input, i.e. in none of the editing
    /// modes.
    pub fn is_active(&self) -> (b: bool)
        ensures
            b == is_input_mode(self.input_mode()),
    {
        self.mode != EditMode::Insert && self.mode != EditMode::Normal
    }

    /// The typed text.
    pub fn as_string(&self) -> (s: String)
        ensures
            s@ == self.text(),
    {
        self.content.as_string()
    }

    /// Switches to `mode`: the typed text is cleared and typing starts after
    /// the prompt of the new mode.
    pub fn set_mode(&mut self, mode: EditMode)
        ensures
            final(self).text() == Seq::<char>::empty(),
            final(self).input_mode() == mode,
            final(self).start() == start_column(mode),
    {
        self.clear();
        self.mode = mode;
        self.position = self.get_start_pos();
    }

    /// The mode the input is for.
    pub fn get_mode(&self) -> (m: EditMode)
        ensures
            m == self.input_mode(),
    {
        self.mode
    }

    /// The column where typing starts after the prompt of the mode.
    pub fn get_start_pos(&self) -> (n: usize)
        ensures
            n == start_column(self.input_mode()),
    {
        let x = match self.mode {
            EditMode::InputFind => SEARCH_TEXT.len(),
            EditMode::InputLoad => LOAD_FILE_TEXT.len(),
            EditMode::InputReplace => REPLACE_TEXT.len(),
            EditMode::InputSaveAs => SAVE_FILE_TEXT.len(),
            _ => 0,
        };
        proof {
            lemma_utf8_width_is_encoding_len(prompt(self.mode));
            lemma_prompt_widths();
        }
        x + 1
    }

    /// The status bar line: the prompt, a space and the typed text.
    pub fn get_content(&self) -> (s: String)
        ensures
            s@ == prompt(self.input_mode()) + " "@ + self.text(),
    {
        let p = match self.mode {
            EditMode::InputFind => SEARCH_TEXT,
            EditMode::InputLoad => LOAD_FILE_TEXT,
            EditMode::InputReplace => REPLACE_TEXT,
            EditMode::InputSaveAs => SAVE_FILE_TEXT,
            _ => "",
        };
        let mut s = String::from_str(p);
        s.append(" ");
        let typed = self.content.as_string();
        s.append(typed.as_str());
        proof {
            reveal_strlit("");
        }
        s
    }

    /// The number of typed characters.
    pub fn len(&self) -> (n: usize)
        ensures
            n == self.text().len(),
    {
        self.content.len()
    }

    /// Inserts `ch` before index `pos` of the typed text (appends it where
    /// `pos` is past the end).
    pub fn insert(&mut self, pos: usize, ch: char)
        ensures
            final(self).text() == row_insert(old(self).text(), pos as int, ch),
            final(self).input_mode() == old(self).input_mode(),
            final(self).start() == old(self).start(),
    {
        self.content.insert(pos, ch);
    }

    /// Deletes the typed character at index `pos`, if there is one.
    pub fn delete(&mut self, pos: usize)
        ensures
            final(self).text() == row_remove(old(self).text(), pos as int),
            final(self).input_mode() == old(self).input_mode(),
            final(self).start() == old(self).start(),
    {
        self.content.delete(pos);
    }

    /// Clears the typed text.
    pub fn clear(&mut self)
        ensures
            final(self).text() == Seq::<char>::empty(),
            final(self).input_mode() == old(self).input_mode(),
            final(self).start() == old(self).start(),
    {
        self.content.clear();
    }
}

/// The prompts take 7, 8, 9 and 17 bytes.
pub proof fn lemma_prompt_widths()
    ensures
        utf8_width(SEARCH_TEXT@) == 7,
        utf8_width(REPLACE_TEXT@) == 8,
        utf8_width(LOAD_FILE_TEXT@) == 9,
        utf8_width(SAVE_FILE_TEXT@) == 17,
        utf8_width(Seq::<char>::empty()) == 0,
{
    reveal_strlit("Search:");
    reveal_strlit("Replace:");
    reveal_strlit("Filename:");
    reveal_strlit("Set new filename:");
    reveal_with_fuel(utf8_width, 18);
}

} // verus!
