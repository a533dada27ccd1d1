//! The text buffer: the rows of the file being edited, its name and
//! whether it changed since it was read or written.
use vstd::prelude::*;
use vstd::string::StringExecFns;
use crate::position::Position;
use crate::row::{
    Row, is_first_match, lemma_first_match_exists, matches_at, range_end, range_ok, range_text, row_delete_range, row_find, row_insert, row_insert_str, row_remove,
};

verus! {

/// The name a buffer has before it is given one.
pub const DEFAULT_FILENAME: &'static str = "Untitled";

/// The four spaces that a tab is written as.
pub const TAB_SPACES: &'static str = "    ";

/// The rows after a line break at `at`: the row `at.y` is cut at `at.x`
/// and its tail becomes the next row; at the row just past the end an
/// empty row is appended; further down nothing happens.
pub open spec fn rows_insert_newline(rows: Seq<Seq<char>>, at: Position) -> Seq<Seq<char>> {
    let y = at.y as int;
    if y > rows.len() {
        rows
    } else if y == rows.len() {
        rows.push(Seq::empty())
    } else {
        rows.take(y) + seq![rows[y].take(at.x as int), rows[y].skip(at.x as int)] + rows.skip(
            y + 1,
        )
    }
}

/// True when inserting `c` at `at` into `rows` cannot panic: a line break
/// needs its column to lie within the row it cuts.
pub open spec fn insert_ok(rows: Seq<Seq<char>>, at: Position, c: char) -> bool {
    (c == '\n' || c == '\r') && at.y < rows.len() ==> at.x <= rows[at.y as int].len()
}

/// The rows after `TextBuffer::insert` of `c` at `at`.
pub open spec fn rows_insert(rows: Seq<Seq<char>>, at: Position, c: char) -> Seq<Seq<char>> {
    let y = at.y as int;
    if y > rows.len() {
        rows
    } else if c == '\n' || c == '\r' {
        rows_insert_newline(rows, at)
    } else if y == rows.len() {
        rows.push(seq![c])
    } else if c == '\t' {
        rows.update(y, row_insert_str(rows[y], at.x as int, seq![' ', ' ', ' ', ' ']))
    } else {
        rows.update(y, row_insert(rows[y], at.x as int, c))
    }
}

/// The rows after `TextBuffer::delete` at `at`: at the end of a row that is
/// not the last, the next row is joined to it; elsewhere the character at
/// `at` is removed, if there is one.
pub open spec fn rows_delete(rows: Seq<Seq<char>>, at: Position) -> Seq<Seq<char>> {
    let y = at.y as int;
    if y >= rows.len() {
        rows
    } else if at.x == rows[y].len() && y + 1 < rows.len() {
        rows.take(y) + seq![rows[y] + rows[y + 1]] + rows.skip(y + 2)
    } else {
        rows.update(y, row_remove(rows[y], at.x as int))
    }
}

/// `n - 1`, or 0 for 0.
pub open spec fn saturating_pred(n: nat) -> int {
    if n == 0 {
        0
    } else {
        n - 1
    }
}

/// The first and last column that `get_range` and `delete_range` take from
/// row `y` between `start` and `end` (the last one before it is cut to the
/// row), for a row of `len` characters.
pub open spec fn piece_bounds(start: Position, end: Position, y: int, len: nat) -> (int, int) {
    if y == start.y && y == end.y {
        (start.x as int, end.x as int)
    } else if y == start.y {
        (start.x as int, saturating_pred(len))
    } else if y == end.y {
        (0, end.x as int)
    } else {
        (0, saturating_pred(len))
    }
}

/// The text that `get_range` takes from row `y`.
pub open spec fn range_piece(rows: Seq<Seq<char>>, start: Position, end: Position, y: int) -> Seq<
    char,
> {
    if 0 <= y < rows.len() {
        let b = piece_bounds(start, end, y, rows[y].len());
        range_text(rows[y], b.0, b.1)
    } else {
        Seq::empty()
    }
}

/// The text of the `n` rows from `start.y` on, as `get_range` joins it.
pub open spec fn range_pieces(rows: Seq<Seq<char>>, start: Position, end: Position, n: nat) -> Seq<
    char,
>
    decreases n,
{
    if n == 0 {
        Seq::empty()
    } else {
        range_pieces(rows, start, end, (n - 1) as nat) + range_piece(
            rows,
            start,
            end,
            start.y + n - 1,
        )
    }
}

/// The text between `start` and `end`, both included, rows joined without
/// separator.
pub open spec fn rows_get_range(rows: Seq<Seq<char>>, start: Position, end: Position) -> Seq<char> {
    if start.y <= end.y {
        range_pieces(rows, start, end, (end.y - start.y + 1) as nat)
    } else {
        Seq::empty()
    }
}

/// The inputs on which `get_range` does not panic: on the first row of the
/// range the start column lies within the part of the row that is read.
pub open spec fn get_range_ok(rows: Seq<Seq<char>>, start: Position, end: Position) -> bool {
    start.y < rows.len() && start.y <= end.y ==> {
        let b = piece_bounds(start, end, start.y as int, rows[start.y as int].len());
        range_ok(rows[start.y as int], b.0, b.1)
    }
}

/// The row `y` after `delete_range` between `start` and `end`.
pub open spec fn delete_piece(row: Seq<char>, start: Position, end: Position, y: int) -> Seq<char> {
    if y == start.y && y == end.y {
        row_delete_range(row, start.x as int, end.x as int)
    } else if y == start.y {
        row_delete_range(row, start.x as int, row.len() as int)
    } else if y == end.y {
        row_delete_range(row, 0, end.x as int)
    } else {
        row_delete_range(row, 0, row.len() as int)
    }
}

/// The rows after `delete_range` between `start` and `end`: each row of the
/// range loses its part of the range; no rows are joined or removed.
pub open spec fn rows_delete_range(rows: Seq<Seq<char>>, start: Position, end: Position) -> Seq<
    Seq<char>,
> {
    Seq::new(
        rows.len(),
        |y: int|
            if start.y <= y <= end.y {
                delete_piece(rows[y], start, end, y)
            } else {
                rows[y]
            },
    )
}

/// The inputs on which `delete_range` does not panic: every row of the range
/// exists, and where the range lies in one row its start column does not
/// pass its end column by more than one.
pub open spec fn delete_range_ok(rows: Seq<Seq<char>>, start: Position, end: Position) -> bool {
    start.y <= end.y ==> {
        &&& end.y < rows.len()
        &&& start.y == end.y && start.x < rows[start.y as int].len() ==> range_ok(
            rows[start.y as int],
            start.x as int,
            end.x as int,
        )
    }
}

/// The first occurrence of `pat` from row `y`, column `x` on, as `find`
/// reports it (column, row): the first match in row `y` at or after column
/// `x`, else the first one in the rows below, searched from their start.
pub open spec fn rows_find(rows: Seq<Seq<char>>, pat: Seq<char>, y: int, x: int) -> Option<(nat, nat)>
    decreases rows.len() - y,
{
    if y < 0 || y >= rows.len() {
        None
    } else {
        match row_find(rows[y], pat, x) {
            Some(b) => Some((b, y as nat)),
            None => rows_find(rows, pat, y + 1, 0),
        }
    }
}

/// The text of `rows`, each row followed by `eol`.
pub open spec fn rows_text(rows: Seq<Seq<char>>, eol: Seq<char>) -> Seq<char>
    decreases rows.len(),
{
    if rows.len() == 0 {
        Seq::empty()
    } else {
        rows_text(rows.drop_last(), eol) + rows.last() + eol
    }
}

/// The rows of a buffer, the name of its file and whether it was modified.
pub struct TextBuffer {
    rows: Vec<Row>,
    modified: bool,
    file_name: String,
}

impl View for TextBuffer {
    type V = Seq<Seq<char>>;

    closed spec fn view(&self) -> Seq<Seq<char>> {
        self.rows@.map_values(|r: Row| r@)
    }
}

impl TextBuffer {
    /// Whether the buffer was changed since it was created, read or written.
    pub closed spec fn modified_flag(&self) -> bool {
        self.modified
    }

    /// The name of the buffer's file.
    pub closed spec fn name(&self) -> Seq<char> {
        self.file_name@
    }

    /// Creates an empty, unmodified buffer named `DEFAULT_FILENAME`.
    pub fn new() -> (b: TextBuffer)
        ensures
            b@ == Seq::<Seq<char>>::empty(),
            !b.modified_flag(),
            b.name() == DEFAULT_FILENAME@,
    {
        TextBuffer { rows: Vec::new(), modified: false, file_name: DEFAULT_FILENAME.to_owned() }
    }

    /// Creates an unmodified buffer named `file_name` with one row per line.
    pub fn from_lines(file_name: &str, lines: Vec<String>) -> (b: TextBuffer)
        ensures
            b@.len() == lines@.len(),
            forall|i: int| 0 <= i < lines@.len() ==> #[trigger] b@[i] == lines@[i]@,
            !b.modified_flag(),
            b.name() == file_name@,
    {
        let mut rows: Vec<Row> = Vec::new();
        let n = lines.len();
        let mut i: usize = 0;
        while i < n
            invariant
                n == lines@.len(),
                i <= n,
                rows@.len() == i,
                forall|k: int| 0 <= k < i ==> #[trigger] rows@[k]@ == lines@[k]@,
            decreases n - i,
        {
            rows.push(Row::new(lines[i].clone()));
            i = i + 1;
        }
        TextBuffer { rows, modified: false, file_name: file_name.to_owned() }
    }

    /// The whole text: each row followed by `eol`.
    pub fn contents(&self, eol: &str) -> (s: String)
        ensures
            s@ == rows_text(self@, eol@),
    {
        let mut s = String::new();
        let n = self.rows.len();
        let mut i: usize = 0;
        while i < n
            invariant
                n == self.rows@.len(),
                n == self@.len(),
                i <= n,
                s@ == rows_text(self@.take(i as int), eol@),
            decreases n - i,
        {
            let line = self.rows[i].as_string();
            s.append(line.as_str());
            s.append(eol);
            assert(self@.take(i + 1).drop_last() =~= self@.take(i as int));
            i = i + 1;
        }
        assert(self@.take(n as int) =~= self@);
        s
    }

    /// Records that the buffer was written to its file.
    pub fn set_saved(&mut self)
        ensures
            final(self)@ == old(self)@,
            !final(self).modified_flag(),
            final(self).name() == old(self).name(),
    {
        self.modified = false;
    }

    /// True when the buffer has no row.
    pub fn is_empty(&self) -> (b: bool)
        ensures
            b == (self@.len() == 0),
    {
        self.rows.len() == 0
    }

    /// True when the buffer was changed since it was created, read or written.
    pub fn is_modified(&self) -> (b: bool)
        ensures
            b == self.modified_flag(),
    {
        self.modified
    }

    /// The number of rows.
    pub fn len(&self) -> (n: usize)
        ensures
            n == self@.len(),
    {
        self.rows.len()
    }

    /// The name of the buffer's file.
    pub fn filename(&self) -> (s: &str)
        ensures
            s@ == self.name(),
    {
        self.file_name.as_str()
    }

    /// Gives the buffer a new file name.
    pub fn new_filename(&mut self, file_name: &str)
        ensures
            final(self)@ == old(self)@,
            final(self).modified_flag() == old(self).modified_flag(),
            final(self).name() == file_name@,
    {
        self.file_name = file_name.to_owned();
    }

    /// The row at `index`, if there is one.
    pub fn row(&self, index: usize) -> (r: Option<&Row>)
        ensures
            r is Some <==> index < self@.len(),
            r matches Some(row) ==> row@ == self@[index as int],
    {
        if index < self.rows.len() {
            Some(&self.rows[index])
        } else {
            None
        }
    }

    /// Breaks the line at `at`: the row `at.y` keeps the characters before
    /// `at.x` and the rest becomes a new row after it, which marks the buffer
    /// modified. At the row just past the end an empty row is appended,
    /// which marks it modified too; further down nothing happens.
    pub fn insert_newline(&mut self, at: &Position)
        requires
            at.y < old(self)@.len() ==> at.x <= old(self)@[at.y as int].len(),
        ensures
            final(self)@ == rows_insert_newline(old(self)@, *at),
            final(self).modified_flag() == (old(self).modified_flag() || at.y <= old(self)@.len()),
            final(self).name() == old(self).name(),
    {
        let y = at.y;
        if y > self.rows.len() {
            return;
        }
        if y == self.rows.len() {
            self.rows.push(Row::default());
            self.modified = true;
            assert(self@ =~= rows_insert_newline(old(self)@, *at));
            return;
        }
        let new_row = self.rows[y].split(at.x);
        self.rows.insert(y + 1, new_row);
        self.modified = true;
        assert(self@ =~= rows_insert_newline(old(self)@, *at));
    }

    /// Inserts `c` at `at`. A line feed or carriage return breaks the line
    /// (see `insert_newline`); at the row just past the end a new row holding
    /// `c` is appended; a tab is written as four spaces. Every insertion on a
    /// row that exists or just past the end marks the buffer modified; below
    /// that nothing happens.
    pub fn insert(&mut self, at: &Position, c: char)
        requires
            (c == '\n' || c == '\r') && at.y < old(self)@.len() ==> at.x <= old(
                self,
            )@[at.y as int].len(),
        ensures
            final(self)@ == rows_insert(old(self)@, *at, c),
            final(self).modified_flag() == (old(self).modified_flag() || at.y <= old(
                self,
            )@.len()),
            final(self).name() == old(self).name(),
    {
        let y = at.y;
        if y > self.rows.len() {
            return;
        }
        if c == '\n' || c == '\r' {
            self.insert_newline(at);
        } else if y == self.rows.len() {
            let mut row = Row::default();
            row.insert(0, c);
            self.rows.push(row);
            assert(self@ =~= rows_insert(old(self)@, *at, c));
        } else {
            if c == '\t' {
                self.rows[y].insert_str(at.x, TAB_SPACES);
                proof {
                    reveal_strlit("    ");
                    assert(TAB_SPACES@ =~= seq![' ', ' ', ' ', ' ']);
                }
            } else {
                self.rows[y].insert(at.x, c);
            }
            assert(self@ =~= rows_insert(old(self)@, *at, c));
        }
        self.modified = true;
    }

    /// Deletes at `at`: at the end of a row that is not the last, the next
    /// row is joined to it; elsewhere the character at `at` is removed, if
    /// there is one. Below the last row nothing happens; otherwise the buffer
    /// is marked modified.
    pub fn delete(&mut self, at: &Position)
        ensures
            final(self)@ == rows_delete(old(self)@, *at),
            final(self).modified_flag() == (old(self).modified_flag() || at.y < old(self)@.len()),
            final(self).name() == old(self).name(),
    {
        if at.y >= self.rows.len() {
            return;
        }
        if at.x == self.rows[at.y].len() && at.y + 1 < self.rows.len() {
            let next_row = self.rows.remove(at.y + 1);
            self.rows[at.y].add(&next_row);
            assert(self@ =~= rows_delete(old(self)@, *at));
        } else {
            self.rows[at.y].delete(at.x);
            assert(self@ =~= rows_delete(old(self)@, *at));
        }
        self.modified = true;
    }

    /// The character at `at`, or a space where there is none.
    pub fn get_char(&self, at: &Position) -> (c: char)
        ensures
            c == (if at.y < self@.len() && at.x < self@[at.y as int].len() {
                self@[at.y as int][at.x as int]
            } else {
                ' '
            }),
    {
        if at.y < self.rows.len() {
            self.rows[at.y].get_char(at.x)
        } else {
            ' '
        }
    }

    /// True when `insert` of `c` at `at` cannot panic; the same holds after
    /// `delete` at `at`.
    pub fn can_insert(&self, at: &Position, c: char) -> (b: bool)
        ensures
            b == insert_ok(self@, *at, c),
            b == insert_ok(rows_delete(self@, *at), *at, c),
    {
        if !(c == '\n' || c == '\r') || at.y >= self.rows.len() {
            return true;
        }
        let r = at.x <= self.rows[at.y].len();
        proof {
            let rows = self@;
            let y = at.y as int;
            if at.x == rows[y].len() && y + 1 < rows.len() {
                assert(rows_delete(rows, *at)[y] == rows[y] + rows[y + 1]);
            } else {
                assert(rows_delete(rows, *at)[y] == crate::row::row_remove(rows[y], at.x as int));
            }
        }
        r
    }

    /// True when `get_range` from `start` to `end` cannot panic.
    pub fn can_get_range(&self, start: &Position, end: &Position) -> (b: bool)
        ensures
            b == get_range_ok(self@, *start, *end),
    {
        if !(start.y < self.rows.len() && start.y <= end.y) {
            return true;
        }
        let len = self.rows[start.y].len();
        if len == 0 {
            return true;
        }
        let to = if start.y == end.y {
            end.x
        } else {
            len - 1
        };
        let last = if to >= len {
            len - 1
        } else {
            to
        };
        start.x <= last + 1
    }

    /// True when `delete_range` from `start` to `end` cannot panic.
    pub fn can_delete_range(&self, start: &Position, end: &Position) -> (b: bool)
        ensures
            b == delete_range_ok(self@, *start, *end),
    {
        if start.y > end.y {
            return true;
        }
        if end.y >= self.rows.len() {
            return false;
        }
        if start.y == end.y {
            let len = self.rows[start.y].len();
            if start.x < len {
                let last = if end.x >= len {
                    len - 1
                } else {
                    end.x
                };
                return start.x <= last + 1;
            }
        }
        true
    }

    /// The text between `start` and `end`, both included: from each row of
    /// the range its part, the first row from `start.x`, the last up to
    /// `end.x`, the others whole; rows past the end give nothing. Rows are
    /// joined without separator.
    pub fn get_range(&self, start: &Position, end: &Position) -> (s: String)
        requires
            get_range_ok(self@, *start, *end),
        ensures
            s@ == rows_get_range(self@, *start, *end),
    {
        let mut result = String::new();
        if start.y > end.y {
            return result;
        }
        let ghost rows = self@;
        let mut y = start.y;
        let mut done = false;
        while !done
            invariant
                rows == self@,
                get_range_ok(rows, *start, *end),
                start.y <= y <= end.y,
                result@ == range_pieces(
                    rows,
                    *start,
                    *end,
                    (y - start.y + (if done { 1int } else { 0int })) as nat,
                ),
                done ==> y == end.y,
            decreases end.y - y + (if done { 0int } else { 1int }),
        {
            let ghost before = result@;
            if y < self.rows.len() {
                let row = &self.rows[y];
                let len = row.len();
                let last = if len == 0 {
                    0
                } else {
                    len - 1
                };
                let piece = if y == start.y && y == end.y {
                    row.get_range(start.x, end.x)
                } else if y == start.y {
                    row.get_range(start.x, last)
                } else if y == end.y {
                    row.get_range(0, end.x)
                } else {
                    row.get_range(0, last)
                };
                result.append(piece.as_str());
            }
            assert(result@ =~= before + range_piece(rows, *start, *end, y as int));
            assert(range_pieces(rows, *start, *end, (y - start.y + 1) as nat) == range_pieces(
                rows,
                *start,
                *end,
                (y - start.y) as nat,
            ) + range_piece(rows, *start, *end, y as int));
            if y == end.y {
                done = true;
            } else {
                y = y + 1;
            }
        }
        result
    }

    /// Deletes the text between `start` and `end`, both included, from each
    /// row of the range: the first row from `start.x`, the last up to
    /// `end.x`, the others whole. Rows are neither joined nor removed. The
    /// buffer is marked modified where some row changed.
    pub fn delete_range(&mut self, start: &Position, end: &Position)
        requires
            delete_range_ok(old(self)@, *start, *end),
        ensures
            final(self)@ == rows_delete_range(old(self)@, *start, *end),
            final(self).modified_flag() == (old(self).modified_flag() || final(self)@ != old(
                self,
            )@),
            final(self).name() == old(self).name(),
    {
        if start.y > end.y {
            assert(self@ =~= rows_delete_range(old(self)@, *start, *end));
            return;
        }
        let ghost rows = old(self)@;
        let mut y = start.y;
        let mut done = false;
        while !done
            invariant
                rows == old(self)@,
                delete_range_ok(rows, *start, *end),
                start.y <= y <= end.y,
                end.y < rows.len(),
                self@.len() == rows.len(),
                self.modified_flag() == (old(self).modified_flag() || self@ != rows),
                self.name() == old(self).name(),
                forall|i: int|
                    0 <= i < rows.len() ==> #[trigger] self@[i] == (if start.y <= i < y || (done
                        && i == y) {
                        delete_piece(rows[i], *start, *end, i)
                    } else {
                        rows[i]
                    }),
                done ==> y == end.y,
            decreases end.y - y + (if done { 0int } else { 1int }),
        {
            let ghost prev = self@;
            assert(prev[y as int] == rows[y as int]);
            let row_len = self.rows[y].len();
            if y == start.y && y == end.y {
                self.rows[y].delete_range(start.x, end.x);
            } else if y == start.y {
                self.rows[y].delete_range(start.x, row_len);
            } else if y == end.y {
                self.rows[y].delete_range(0, end.x);
            } else {
                self.rows[y].delete_range(0, row_len);
            }
            let ghost piece = delete_piece(rows[y as int], *start, *end, y as int);
            assert(self@ =~= prev.update(y as int, piece));
            if self.rows[y].len() != row_len {
                self.modified = true;
                assert(self@[y as int] != rows[y as int]);
            } else {
                proof {
                    lemma_delete_piece_same_len(rows[y as int], *start, *end, y as int);
                }
                assert(self@ =~= prev);
            }
            if y == end.y {
                done = true;
            } else {
                y = y + 1;
            }
        }
        assert(self@ =~= rows_delete_range(rows, *start, *end));
    }

    /// Finds the first occurrence of `query` at or after `at`, row by row:
    /// the first row from column `at.x`, the following ones from their
    /// start. The result is the position (character column and row) where
    /// the occurrence starts.
    pub fn find(&self, query: &str, at: &Position) -> (r: Option<Position>)
        ensures
            r == (match rows_find(self@, query@, at.y as int, at.x as int) {
                Some(p) => Some(Position { x: p.0 as usize, y: p.1 as usize }),
                None => None,
            }),
            r matches Some(p) ==> {
                &&& at.y <= p.y < self@.len()
                &&& p.y == at.y ==> at.x <= p.x
                &&& matches_at(self@[p.y as int], query@, p.x as int)
                &&& forall|y: int, x: int|
                    #![trigger matches_at(self@[y], query@, x)]
                    at.y <= y <= p.y && (y == at.y ==> at.x <= x) && (y == p.y ==> x < p.x)
                        ==> !matches_at(self@[y], query@, x)
            },
            r is None && query@.len() > 0 ==> forall|y: int, x: int|
                #![trigger matches_at(self@[y], query@, x)]
                at.y <= y < self@.len() && (y == at.y ==> at.x <= x) ==> !matches_at(
                    self@[y],
                    query@,
                    x,
                ),
    {
        if at.y >= self.rows.len() {
            return None;
        }
        let ghost rows = self@;
        let mut x_pos = at.x;
        let mut y = at.y;
        while y < self.rows.len()
            invariant
                rows == self@,
                at.y <= y <= rows.len(),
                rows_find(rows, query@, at.y as int, at.x as int) == rows_find(
                    rows,
                    query@,
                    y as int,
                    x_pos as int,
                ),
            decreases rows.len() - y,
        {
            match self.rows[y].find(query, x_pos) {
                Some(x) => {
                    proof {
                        lemma_rows_find_bounds(rows, query@, at.y as int, at.x as int);
                        lemma_row_count_fits(self);
                    }
                    return Some(Position { x, y });
                },
                None => {},
            }
            x_pos = 0;
            y = y + 1;
        }
        proof {
            lemma_rows_find_bounds(rows, query@, at.y as int, at.x as int);
        }
        None
    }
}

/// A match found by `find` from row `y`, column `x` on is an occurrence of
/// the pattern in an existing row, at or after where the search started.
pub proof fn lemma_rows_find_bounds(rows: Seq<Seq<char>>, pat: Seq<char>, y: int, x: int)
    requires
        0 <= y,
    ensures
        rows_find(rows, pat, y, x) matches Some(p) ==> {
            &&& pat.len() > 0
            &&& y <= p.1 < rows.len()
            &&& p.1 == y ==> x <= p.0
            &&& p.0 < rows[p.1 as int].len()
            &&& matches_at(rows[p.1 as int], pat, p.0 as int)
            &&& forall|r: int, c: int|
                #![trigger matches_at(rows[r], pat, c)]
                y <= r <= p.1 && (r == y ==> x <= c) && (r == p.1 ==> c < p.0) ==> !matches_at(
                    rows[r],
                    pat,
                    c,
                )
        },
        rows_find(rows, pat, y, x) is None && pat.len() > 0 ==> forall|r: int, c: int|
            #![trigger matches_at(rows[r], pat, c)]
            y <= r < rows.len() && (r == y ==> x <= c) ==> !matches_at(rows[r], pat, c),
    decreases rows.len() - y,
{
    if 0 <= y < rows.len() {
        let row = rows[y];
        if pat.len() > 0 && exists|i: int| x <= i && #[trigger] matches_at(row, pat, i) {
            let k = choose|k: int| x <= k && #[trigger] matches_at(row, pat, k);
            lemma_first_match_exists(row, pat, x, k);
            let i = choose|i: int| is_first_match(row, pat, x, i);
            assert(is_first_match(row, pat, x, i));
        }
        lemma_rows_find_bounds(rows, pat, y + 1, 0);
        let res = rows_find(rows, pat, y, x);
        if res is Some {
            let p = res->0;
            if p.1 > y {
                assert forall|r: int, c: int|
                    #![trigger matches_at(rows[r], pat, c)]
                    y <= r <= p.1 && (r == y ==> x <= c) && (r == p.1 ==> c < p.0) implies !matches_at(
                        rows[r],
                        pat,
                        c,
                    ) by {
                    if r == y {
                        assert(!(x <= c && matches_at(row, pat, c)));
                    }
                }
            }
        }
        if rows_find(rows, pat, y, x) is None && pat.len() > 0 {
            assert forall|r: int, c: int|
                #![trigger matches_at(rows[r], pat, c)]
                y <= r < rows.len() && (r == y ==> x <= c) implies !matches_at(rows[r], pat, c) by {
                if r == y {
                    assert(!(x <= c && matches_at(row, pat, c)));
                }
            }
        }
    }
}

/// Where `delete_range` leaves a row as long as it was, the row is
/// unchanged: deleting only ever takes characters out.
pub proof fn lemma_delete_piece_same_len(row: Seq<char>, start: Position, end: Position, y: int)
    requires
        delete_piece(row, start, end, y).len() == row.len(),
        y == start.y && y == end.y && start.x < row.len() ==> range_ok(
            row,
            start.x as int,
            end.x as int,
        ),
    ensures
        delete_piece(row, start, end, y) == row,
{
    let (f, t) = if y == start.y && y == end.y {
        (start.x as int, end.x as int)
    } else if y == start.y {
        (start.x as int, row.len() as int)
    } else if y == end.y {
        (0int, end.x as int)
    } else {
        (0int, row.len() as int)
    };
    assert(delete_piece(row, start, end, y) == row_delete_range(row, f, t));
    if f < row.len() {
        let e = range_end(row.len(), t);
        assert(f <= e + 1);
        assert(row.take(f) + row.skip(e + 1) =~= row);
    }
}

/// A buffer has at most `usize::MAX` rows, each of at most `usize::MAX`
/// characters.
pub proof fn lemma_row_count_fits(b: &TextBuffer)
    ensures
        b@.len() <= usize::MAX,
        forall|i: int| 0 <= i < b@.len() ==> #[trigger] b@[i].len() <= usize::MAX,
{
    broadcast use vstd::std_specs::vec::axiom_spec_len;

    assert(b.rows.len() == b.rows@.len());
    assert forall|i: int| 0 <= i < b@.len() implies #[trigger] b@[i].len() <= usize::MAX by {
        crate::row::lemma_row_len_fits(&b.rows@[i]);
    }
}

/// A line break adds exactly one row and keeps the text: the rows joined
/// without separator are the same before and after.
pub proof fn lemma_newline_adds_one_row(rows: Seq<Seq<char>>, at: Position)
    requires
        at.y < rows.len(),
        at.x <= rows[at.y as int].len(),
    ensures
        rows_insert_newline(rows, at).len() == rows.len() + 1,
        rows_insert_newline(rows, at).flatten() == rows.flatten(),
{
    let y = at.y as int;
    let r = rows[y];
    let out = rows_insert_newline(rows, at);
    assert(rows =~= rows.take(y) + seq![r] + rows.skip(y + 1));
    assert(out =~= rows.take(y) + seq![r.take(at.x as int), r.skip(at.x as int)] + rows.skip(y + 1));
    let a = rows.take(y);
    let b = rows.skip(y + 1);
    let halves = seq![r.take(at.x as int), r.skip(at.x as int)];
    vstd::seq_lib::lemma_flatten_concat(a + seq![r], b);
    vstd::seq_lib::lemma_flatten_concat(a, seq![r]);
    vstd::seq_lib::lemma_flatten_concat(a + halves, b);
    vstd::seq_lib::lemma_flatten_concat(a, halves);
    seq![r].lemma_flatten_singleton();
    vstd::seq_lib::lemma_flatten_concat(seq![r.take(at.x as int)], seq![r.skip(at.x as int)]);
    seq![r.take(at.x as int)].lemma_flatten_singleton();
    seq![r.skip(at.x as int)].lemma_flatten_singleton();
    assert(seq![r.take(at.x as int)] + seq![r.skip(at.x as int)] =~= halves);
    assert(r.take(at.x as int) + r.skip(at.x as int) =~= r);
}

/// `delete_range` never adds or removes rows.
pub proof fn lemma_delete_range_keeps_rows(rows: Seq<Seq<char>>, start: Position, end: Position)
    ensures
        rows_delete_range(rows, start, end).len() == rows.len(),
{
}

/// The saved text holds every row, in order, each followed by `eol`: it is
/// the rows, each with `eol` appended, joined together. No row is dropped,
/// the empty ones included.
pub proof fn lemma_contents_holds_every_row(rows: Seq<Seq<char>>, eol: Seq<char>)
    ensures
        rows_text(rows, eol) == rows.map_values(|r: Seq<char>| r + eol).flatten(),
        rows_text(rows, eol).len() == rows.flatten().len() + rows.len() * eol.len(),
    decreases rows.len(),
{
    let lines = rows.map_values(|r: Seq<char>| r + eol);
    if rows.len() == 0 {
        assert(lines =~= Seq::<Seq<char>>::empty());
        assert(rows.flatten() =~= Seq::<char>::empty());
    } else {
        let init = rows.drop_last();
        let last = rows.last();
        lemma_contents_holds_every_row(init, eol);
        let init_lines = init.map_values(|r: Seq<char>| r + eol);
        assert(lines =~= init_lines + seq![last + eol]);
        vstd::seq_lib::lemma_flatten_concat(init_lines, seq![last + eol]);
        seq![last + eol].lemma_flatten_singleton();
        assert(rows =~= init + seq![last]);
        vstd::seq_lib::lemma_flatten_concat(init, seq![last]);
        seq![last].lemma_flatten_singleton();
        assert(rows.len() * eol.len() == init.len() * eol.len() + eol.len()) by (nonlinear_arith)
            requires
                rows.len() == init.len() + 1,
        ;
    }
}

/// Deleting a range within one row takes out the characters from the start
/// column through the end column, both included.
pub proof fn lemma_delete_range_in_row(rows: Seq<Seq<char>>, start: Position, end: Position)
    requires
        start.y == end.y,
        end.y < rows.len(),
        start.x <= end.x < rows[end.y as int].len(),
    ensures
        ({
            let y = start.y as int;
            let out = rows_delete_range(rows, start, end);
            &&& out.len() == rows.len()
            &&& out[y] == rows[y].take(start.x as int) + rows[y].skip(end.x + 1)
            &&& forall|i: int| 0 <= i < rows.len() && i != y ==> #[trigger] out[i] == rows[i]
        }),
{
}

/// Deleting a range over several rows cuts the first row at the start
/// column, empties the rows between, keeps of the last row what follows the
/// end column, and leaves the other rows alone; no row is removed.
pub proof fn lemma_delete_range_over_rows(rows: Seq<Seq<char>>, start: Position, end: Position)
    requires
        start.y < end.y < rows.len(),
    ensures
        ({
            let out = rows_delete_range(rows, start, end);
            let (sy, ey) = (start.y as int, end.y as int);
            &&& out.len() == rows.len()
            &&& out[sy] == rows[sy].take(
                if start.x < rows[sy].len() { start.x as int } else { rows[sy].len() as int },
            )
            &&& forall|i: int| sy < i < ey ==> #[trigger] out[i].len() == 0
            &&& out[ey] == rows[ey].skip(
                if end.x + 1 < rows[ey].len() { end.x + 1 } else { rows[ey].len() as int },
            )
            &&& forall|i: int| 0 <= i < rows.len() && (i < sy || i > ey) ==> #[trigger] out[i]
                == rows[i]
        }),
{
    let (sy, ey) = (start.y as int, end.y as int);
    let out = rows_delete_range(rows, start, end);
    let r0 = rows[sy];
    if start.x < r0.len() {
        assert(r0.skip(r0.len() as int) =~= Seq::<char>::empty());
        assert(out[sy] =~= r0.take(start.x as int));
    } else {
        assert(out[sy] =~= r0.take(r0.len() as int));
    }
    assert forall|i: int| sy < i < ey implies #[trigger] out[i].len() == 0 by {
        let r = rows[i];
        if r.len() > 0 {
            assert(r.skip(r.len() as int) =~= Seq::<char>::empty());
        }
    }
    let r1 = rows[ey];
    if r1.len() > 0 {
        assert(r1.take(0) + r1.skip(range_end(r1.len(), end.x as int) + 1) =~= r1.skip(
            if end.x + 1 < r1.len() { end.x + 1 } else { r1.len() as int },
        ));
    } else {
        assert(r1.skip(0) =~= r1);
    }
}

/// Copying a range within one row gives the characters from the start
/// column through the end column, both included.
pub proof fn lemma_get_range_in_row(rows: Seq<Seq<char>>, start: Position, end: Position)
    requires
        start.y == end.y,
        end.y < rows.len(),
        start.x <= end.x < rows[end.y as int].len(),
    ensures
        rows_get_range(rows, start, end) == rows[start.y as int].subrange(
            start.x as int,
            end.x + 1,
        ),
{
    assert(range_pieces(rows, start, end, 1) =~= range_pieces(rows, start, end, 0) + range_piece(
        rows,
        start,
        end,
        start.y as int,
    ));
}

/// The text that `range_pieces` takes from the rows before the last row of
/// a range over several rows: the first row from the start column, then the
/// rows after it whole.
proof fn lemma_range_pieces_prefix(rows: Seq<Seq<char>>, start: Position, end: Position, k: nat)
    requires
        start.y < end.y < rows.len(),
        start.x <= rows[start.y as int].len(),
        1 <= k <= end.y - start.y,
    ensures
        range_pieces(rows, start, end, k) == rows[start.y as int].skip(start.x as int) + rows.subrange(
            start.y + 1,
            start.y + k,
        ).flatten(),
    decreases k,
{
    let sy = start.y as int;
    let r0 = rows[sy];
    if k == 1 {
        assert(range_pieces(rows, start, end, 0) == Seq::<char>::empty());
        if r0.len() > 0 {
            assert(r0.subrange(start.x as int, r0.len() as int) =~= r0.skip(start.x as int));
        } else {
            assert(r0.skip(start.x as int) =~= Seq::<char>::empty());
        }
        assert(rows.subrange(sy + 1, sy + 1) =~= Seq::<Seq<char>>::empty());
        assert(r0.skip(start.x as int) + Seq::<char>::empty() =~= r0.skip(start.x as int));
    } else {
        lemma_range_pieces_prefix(rows, start, end, (k - 1) as nat);
        let y = sy + k - 1;
        let r = rows[y];
        if r.len() > 0 {
            assert(r.subrange(0, r.len() as int) =~= r);
        }
        assert(range_piece(rows, start, end, y) == r);
        let a = rows.subrange(sy + 1, sy + k - 1);
        assert(rows.subrange(sy + 1, sy + k) =~= a + seq![r]);
        vstd::seq_lib::lemma_flatten_concat(a, seq![r]);
        seq![r].lemma_flatten_singleton();
        assert(r0.skip(start.x as int) + a.flatten() + r =~= r0.skip(start.x as int) + (
        a.flatten() + r));
    }
}

/// Copying a range over several rows gives the first row from the start
/// column, the rows between whole, and the last row up to the end column,
/// joined without separator.
pub proof fn lemma_get_range_over_rows(rows: Seq<Seq<char>>, start: Position, end: Position)
    requires
        start.y < end.y < rows.len(),
        start.x <= rows[start.y as int].len(),
    ensures
        ({
            let last = rows[end.y as int];
            rows_get_range(rows, start, end) == rows[start.y as int].skip(start.x as int)
                + rows.subrange(start.y + 1, end.y as int).flatten() + last.take(
                if end.x + 1 < last.len() { end.x + 1 } else { last.len() as int },
            )
        }),
{
    let k = (end.y - start.y) as nat;
    lemma_range_pieces_prefix(rows, start, end, k);
    let last = rows[end.y as int];
    if last.len() > 0 {
        assert(last.subrange(0, range_end(last.len(), end.x as int) + 1) =~= last.take(
            if end.x + 1 < last.len() { end.x + 1 } else { last.len() as int },
        ));
    } else {
        assert(last.take(0) =~= Seq::<char>::empty());
    }
    assert(range_pieces(rows, start, end, k + 1) == range_pieces(rows, start, end, k) + range_piece(
        rows,
        start,
        end,
        end.y as int,
    ));
}

} // verus!
