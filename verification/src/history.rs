//! The undo and redo history of edits.
use vstd::prelude::*;
use std::collections::VecDeque;
use crate::buffer::{TextBuffer, insert_ok, rows_delete, rows_insert, rows_insert_newline};
use crate::position::Position;

verus! {

/// One edit, as the history records it.
#[derive(Debug)]
pub enum HistoryAction {
    AddChar { char: char, position: Position },
    DelChar { char: char, position: Position },
    AddNewline { position: Position },
    DelNewline { position: Position },
}

/// The rows after doing `a` again.
pub open spec fn redo_rows(a: HistoryAction, rows: Seq<Seq<char>>) -> Seq<Seq<char>> {
    match a {
        HistoryAction::AddChar { char, position } => rows_insert(rows, position, char),
        HistoryAction::DelChar { char: _, position } => rows_delete(rows, position),
        _ => rows,
    }
}

/// The rows after taking `a` back.
pub open spec fn undo_rows(a: HistoryAction, rows: Seq<Seq<char>>) -> Seq<Seq<char>> {
    match a {
        HistoryAction::AddChar { char: _, position } => rows_delete(rows, position),
        HistoryAction::DelChar { char, position } => rows_insert(rows, position, char),
        _ => rows,
    }
}

/// Whether doing `a` again marks a buffer of `rows` modified.
pub open spec fn redo_marks(a: HistoryAction, rows: Seq<Seq<char>>) -> bool {
    match a {
        HistoryAction::AddChar { char: _, position } => position.y <= rows.len(),
        HistoryAction::DelChar { char: _, position } => position.y < rows.len(),
        _ => false,
    }
}

/// Whether taking `a` back marks a buffer of `rows` modified.
pub open spec fn undo_marks(a: HistoryAction, rows: Seq<Seq<char>>) -> bool {
    match a {
        HistoryAction::AddChar { char: _, position } => position.y < rows.len(),
        HistoryAction::DelChar { char: _, position } => position.y <= rows.len(),
        _ => false,
    }
}

/// True when doing `a` again on `rows` cannot panic.
pub open spec fn redo_ok(a: HistoryAction, rows: Seq<Seq<char>>) -> bool {
    match a {
        HistoryAction::AddChar { char, position } => insert_ok(rows, position, char),
        _ => true,
    }
}

/// True when taking `a` back on `rows` cannot panic.
pub open spec fn undo_ok(a: HistoryAction, rows: Seq<Seq<char>>) -> bool {
    match a {
        HistoryAction::DelChar { char, position } => insert_ok(rows, position, char),
        _ => true,
    }
}

impl HistoryAction {
    /// Does the action again on `buffer`: an added character is inserted, a
    /// deleted one deleted; line breaks are not replayed.
    pub fn redo(&self, buffer: &mut TextBuffer)
        requires
            redo_ok(*self, old(buffer)@),
        ensures
            final(buffer)@ == redo_rows(*self, old(buffer)@),
            final(buffer).modified_flag() == (old(buffer).modified_flag() || redo_marks(
                *self,
                old(buffer)@,
            )),
            final(buffer).name() == old(buffer).name(),
    {
        match self {
            HistoryAction::AddChar { char, position } => {
                buffer.insert(position, *char);
            },
            HistoryAction::DelChar { char: _, position } => {
                buffer.delete(position);
            },
            HistoryAction::AddNewline { position: _ } => {},
            HistoryAction::DelNewline { position: _ } => {},
        }
    }

    /// Takes the action back on `buffer`: an added character is deleted, a
    /// deleted one inserted again; line breaks are not taken back.
    pub fn undo(&self, buffer: &mut TextBuffer)
        requires
            undo_ok(*self, old(buffer)@),
        ensures
            final(buffer)@ == undo_rows(*self, old(buffer)@),
            final(buffer).modified_flag() == (old(buffer).modified_flag() || undo_marks(
                *self,
                old(buffer)@,
            )),
            final(buffer).name() == old(buffer).name(),
    {
        match self {
            HistoryAction::AddChar { char: _, position } => {
                buffer.delete(position);
            },
            HistoryAction::DelChar { char, position } => {
                buffer.insert(position, *char);
            },
            HistoryAction::AddNewline { position: _ } => {},
            HistoryAction::DelNewline { position: _ } => {},
        }
    }
}

/// `h1` and `b1` are what `HistoryManager::undo` makes of `h0` and `b0`:
/// with nothing to undo nothing changes; otherwise the last action is taken
/// back on the buffer and moves to the redo stack.
pub open spec fn undone(h0: HistoryManager, h1: HistoryManager, b0: TextBuffer, b1: TextBuffer) -> bool {
    &&& b1.name() == b0.name()
    &&& h0.undo_actions().len() == 0 ==> {
        &&& h1.undo_actions() == h0.undo_actions()
        &&& h1.redo_actions() == h0.redo_actions()
        &&& b1@ == b0@
        &&& b1.modified_flag() == b0.modified_flag()
    }
    &&& h0.undo_actions().len() > 0 ==> {
        let a = h0.undo_actions().last();
        &&& h1.undo_actions() == h0.undo_actions().drop_last()
        &&& h1.redo_actions() == h0.redo_actions().push(a)
        &&& b1@ == undo_rows(a, b0@)
        &&& b1.modified_flag() == (b0.modified_flag() || undo_marks(a, b0@))
    }
}

/// `h1` and `b1` are what `HistoryManager::redo` makes of `h0` and `b0`:
/// with nothing to redo nothing changes; otherwise the last undone action is
/// done again on the buffer and moves to the undo stack.
pub open spec fn redone(h0: HistoryManager, h1: HistoryManager, b0: TextBuffer, b1: TextBuffer) -> bool {
    &&& b1.name() == b0.name()
    &&& h0.redo_actions().len() == 0 ==> {
        &&& h1.undo_actions() == h0.undo_actions()
        &&& h1.redo_actions() == h0.redo_actions()
        &&& b1@ == b0@
        &&& b1.modified_flag() == b0.modified_flag()
    }
    &&& h0.redo_actions().len() > 0 ==> {
        let a = h0.redo_actions().last();
        &&& h1.redo_actions() == h0.redo_actions().drop_last()
        &&& h1.undo_actions() == h0.undo_actions().push(a)
        &&& b1@ == redo_rows(a, b0@)
        &&& b1.modified_flag() == (b0.modified_flag() || redo_marks(a, b0@))
    }
}

/// The actions that can be undone, oldest first, and those that can be
/// redone, in the order they were undone.
pub struct HistoryManager {
    undo_stack: VecDeque<HistoryAction>,
    redo_stack: VecDeque<HistoryAction>,
}

impl HistoryManager {
    /// The actions that can be undone; the last one is undone first.
    pub closed spec fn undo_actions(&self) -> Seq<HistoryAction> {
        self.undo_stack@
    }

    /// The actions that can be redone; the last one is redone first.
    pub closed spec fn redo_actions(&self) -> Seq<HistoryAction> {
        self.redo_stack@
    }

    /// An empty history.
    pub fn new() -> (h: HistoryManager)
        ensures
            h.undo_actions() == Seq::<HistoryAction>::empty(),
            h.redo_actions() == Seq::<HistoryAction>::empty(),
    {
        HistoryManager { undo_stack: VecDeque::new(), redo_stack: VecDeque::new() }
    }

    /// Records a new action; what could be redone is forgotten.
    pub fn add_action(&mut self, action: HistoryAction)
        ensures
            final(self).undo_actions() == old(self).undo_actions().push(action),
            final(self).redo_actions() == Seq::<HistoryAction>::empty(),
    {
        self.undo_stack.push_back(action);
        self.redo_stack.clear();
    }

    /// Takes the last action back on `buffer` and makes it the next one to
    /// redo. With nothing to undo, nothing happens.
    pub fn undo(&mut self, buffer: &mut TextBuffer)
        requires
            old(self).undo_actions().len() > 0 ==> undo_ok(
                old(self).undo_actions().last(),
                old(buffer)@,
            ),
        ensures
            undone(*old(self), *final(self), *old(buffer), *final(buffer)),
    {
        if let Some(action) = self.undo_stack.pop_back() {
            action.undo(buffer);
            self.redo_stack.push_back(action);
            assert(self.undo_actions() =~= old(self).undo_actions().drop_last());
        }
    }

    /// Does the last undone action again on `buffer` and makes it the next
    /// one to undo. With nothing to redo, nothing happens.
    pub fn redo(&mut self, buffer: &mut TextBuffer)
        requires
            old(self).redo_actions().len() > 0 ==> redo_ok(
                old(self).redo_actions().last(),
                old(buffer)@,
            ),
        ensures
            redone(*old(self), *final(self), *old(buffer), *final(buffer)),
    {
        if let Some(action) = self.redo_stack.pop_back() {
            action.redo(buffer);
            self.undo_stack.push_back(action);
            assert(self.redo_actions() =~= old(self).redo_actions().drop_last());
        }
    }

    /// True when `redo` on `buffer` cannot panic: with something to redo,
    /// doing the last undone action again must be possible.
    pub fn can_redo(&self, buffer: &TextBuffer) -> (b: bool)
        ensures
            b == (self.redo_actions().len() > 0 ==> redo_ok(
                self.redo_actions().last(),
                buffer@,
            )),
    {
        let n = self.redo_stack.len();
        if n == 0 {
            return true;
        }
        match &self.redo_stack[n - 1] {
            HistoryAction::AddChar { char, position } => buffer.can_insert(position, *char),
            _ => true,
        }
    }

    /// True when `undo` on `buffer` cannot panic: with something to undo,
    /// taking the last action back must be possible.
    pub fn can_undo(&self, buffer: &TextBuffer) -> (b: bool)
        ensures
            b == (self.undo_actions().len() > 0 ==> undo_ok(
                self.undo_actions().last(),
                buffer@,
            )),
    {
        let n = self.undo_stack.len();
        if n == 0 {
            return true;
        }
        match &self.undo_stack[n - 1] {
            HistoryAction::DelChar { char, position } => buffer.can_insert(position, *char),
            _ => true,
        }
    }
}

/// A character that `TextBuffer::insert` stores as it is: not a line
/// break and not a tab.
pub open spec fn plain_char(c: char) -> bool {
    c != '\n' && c != '\r' && c != '\t'
}

/// Taking back an added character restores the text: deleting at `at`
/// right after inserting a plain character at `at`, in an existing row and
/// at most one column past its end, gives the rows back.
pub proof fn lemma_undo_add_char(rows: Seq<Seq<char>>, at: Position, c: char)
    requires
        at.y < rows.len(),
        at.x <= rows[at.y as int].len(),
        plain_char(c),
    ensures
        undo_rows(
            HistoryAction::AddChar { char: c, position: at },
            redo_rows(HistoryAction::AddChar { char: c, position: at }, rows),
        ) == rows,
{
    let y = at.y as int;
    let inserted = rows_insert(rows, at, c);
    let row = rows[y];
    if at.x >= row.len() {
        assert(inserted[y] == row.push(c));
        assert(row.push(c).remove(at.x as int) =~= row);
    } else {
        assert(inserted[y] == row.insert(at.x as int, c));
        assert(row.insert(at.x as int, c).remove(at.x as int) =~= row);
    }
    assert(rows_delete(inserted, at) =~= rows);
}

/// Taking back a deleted character restores the text: inserting the
/// character that stood at `at`, right after deleting it, gives the rows
/// back, for a plain character inside an existing row.
pub proof fn lemma_undo_del_char(rows: Seq<Seq<char>>, at: Position)
    requires
        at.y < rows.len(),
        at.x < rows[at.y as int].len(),
        plain_char(rows[at.y as int][at.x as int]),
    ensures
        ({
            let c = rows[at.y as int][at.x as int];
            undo_rows(
                HistoryAction::DelChar { char: c, position: at },
                redo_rows(HistoryAction::DelChar { char: c, position: at }, rows),
            ) == rows
        }),
{
    let y = at.y as int;
    let row = rows[y];
    let c = row[at.x as int];
    let deleted = rows_delete(rows, at);
    assert(deleted[y] == row.remove(at.x as int));
    if at.x as int >= row.remove(at.x as int).len() {
        assert(row.remove(at.x as int).push(c) =~= row);
    } else {
        assert(row.remove(at.x as int).insert(at.x as int, c) =~= row);
    }
    assert(rows_insert(deleted, at, c) =~= rows);
}

/// True when `a` records an edit that `rows` shows as done: an added plain
/// character stands at its position, or a deleted plain character can go
/// back at its position. Line breaks are neither undone nor redone.
pub open spec fn recorded_in(a: HistoryAction, rows: Seq<Seq<char>>) -> bool {
    match a {
        HistoryAction::AddChar { char, position } => {
            &&& position.y < rows.len()
            &&& position.x < rows[position.y as int].len()
            &&& rows[position.y as int][position.x as int] == char
            &&& plain_char(char)
        },
        HistoryAction::DelChar { char, position } => {
            &&& position.y < rows.len()
            &&& position.x <= rows[position.y as int].len()
            &&& plain_char(char)
        },
        _ => true,
    }
}

/// Redo takes back an undo: after `undo` and then `redo`, both stacks are as
/// they were, and the text is as it was when the undone action is recorded
/// in it.
pub proof fn lemma_redo_after_undo(
    h0: HistoryManager,
    h1: HistoryManager,
    h2: HistoryManager,
    b0: TextBuffer,
    b1: TextBuffer,
    b2: TextBuffer,
)
    requires
        h0.undo_actions().len() > 0,
        undone(h0, h1, b0, b1),
        redone(h1, h2, b1, b2),
    ensures
        h2.undo_actions() == h0.undo_actions(),
        h2.redo_actions() == h0.redo_actions(),
        b2.name() == b0.name(),
        recorded_in(h0.undo_actions().last(), b0@) ==> b2@ == b0@,
{
    let a = h0.undo_actions().last();
    assert(h0.undo_actions().drop_last().push(a) =~= h0.undo_actions());
    assert(h0.redo_actions().push(a).drop_last() =~= h0.redo_actions());
    if recorded_in(a, b0@) {
        match a {
            HistoryAction::AddChar { char, position } => {
                lemma_undo_del_char(b0@, position);
            },
            HistoryAction::DelChar { char, position } => {
                lemma_undo_add_char(b0@, position, char);
            },
            _ => {},
        }
    }
}

/// Undo takes back exactly the last recorded action: after `add_action(a)`,
/// `undo` applies `a`'s undo to the buffer, leaves the earlier actions to
/// undo, and makes `a` the only action to redo.
pub proof fn lemma_undo_takes_back_last_action(
    h0: HistoryManager,
    h1: HistoryManager,
    h2: HistoryManager,
    b0: TextBuffer,
    b1: TextBuffer,
    a: HistoryAction,
)
    requires
        h1.undo_actions() == h0.undo_actions().push(a),
        h1.redo_actions() == Seq::<HistoryAction>::empty(),
        undone(h1, h2, b0, b1),
    ensures
        b1@ == undo_rows(a, b0@),
        b1.modified_flag() == (b0.modified_flag() || undo_marks(a, b0@)),
        b1.name() == b0.name(),
        h2.undo_actions() == h0.undo_actions(),
        h2.redo_actions() == seq![a],
{
    assert(h0.undo_actions().push(a).drop_last() =~= h0.undo_actions());
    assert(Seq::<HistoryAction>::empty().push(a) =~= seq![a]);
}

/// Nothing is redone after a new action: when the redo stack is empty, as
/// `new` and `add_action` leave it, `redo` changes neither the history nor
/// the buffer.
pub proof fn lemma_redo_without_undo_does_nothing(
    h1: HistoryManager,
    h2: HistoryManager,
    b0: TextBuffer,
    b1: TextBuffer,
)
    requires
        h1.redo_actions() == Seq::<HistoryAction>::empty(),
        redone(h1, h2, b0, b1),
    ensures
        h2.undo_actions() == h1.undo_actions(),
        h2.redo_actions() == h1.redo_actions(),
        b1@ == b0@,
        b1.modified_flag() == b0.modified_flag(),
        b1.name() == b0.name(),
{
}

/// Redo does again what undo took back: after `undo` took back action `a`,
/// `redo` applies `a` again to the buffer as it then is.
pub proof fn lemma_redo_reapplies_undone_action(
    h0: HistoryManager,
    h1: HistoryManager,
    h2: HistoryManager,
    b0: TextBuffer,
    b1: TextBuffer,
    b2: TextBuffer,
)
    requires
        h0.undo_actions().len() > 0,
        undone(h0, h1, b0, b1),
        redone(h1, h2, b1, b2),
    ensures
        b2@ == redo_rows(h0.undo_actions().last(), b1@),
        b2.modified_flag() == (b1.modified_flag() || redo_marks(h0.undo_actions().last(), b1@)),
        b2.name() == b0.name(),
{
}

/// Deleting at the end of a row takes a line break back: breaking row
/// `at.y` at a column within it and then deleting at the same position
/// joins the two halves again.
pub proof fn lemma_delete_joins_newline(rows: Seq<Seq<char>>, at: Position)
    requires
        at.y < rows.len(),
        at.x <= rows[at.y as int].len(),
    ensures
        rows_delete(rows_insert_newline(rows, at), at) == rows,
{
    let y = at.y as int;
    let split = rows_insert_newline(rows, at);
    assert(split[y] =~= rows[y].take(at.x as int));
    assert(split[y + 1] =~= rows[y].skip(at.x as int));
    assert(split[y] + split[y + 1] =~= rows[y]);
    assert(rows_delete(split, at) =~= rows);
}
} // verus!
