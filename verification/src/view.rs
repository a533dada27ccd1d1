//! The state of the editor's view: the cursor, the marked region and the
//! size of the text area, and how keys move the cursor.
use vstd::prelude::*;
use crate::buffer::TextBuffer;
use crate::position::{Position, Size, position_text};
use crate::text::{decimal, push_decimal};
use vstd::string::StringExecFns;

verus! {

/// The modes of the editor: editing text, or typing into the status bar.
#[derive(Clone, Copy, Debug, PartialEq, Eq, PartialOrd, Structural)]
pub enum EditMode {
    InputFind,
    InputLoad,
    InputReplace,
    InputSaveAs,
    Insert,
    Normal,
}

impl Default for EditMode {
    /// `Normal` is the default mode.
    fn default() -> (m: EditMode)
        ensures
            m == EditMode::Normal,
    {
        EditMode::Normal
    }
}

/// The name under which the status bar shows `mode`.
pub open spec fn mode_label(mode: EditMode) -> Seq<char> {
    match mode {
        EditMode::Insert => "INSERT"@,
        EditMode::Normal => "NORMAL"@,
        _ => "INPUT"@,
    }
}

impl EditMode {
    /// The name under which the status bar shows the mode.
    pub fn label(&self) -> (s: &'static str)
        ensures
            s@ == mode_label(*self),
    {
        match self {
            EditMode::Insert => "INSERT",
            EditMode::Normal => "NORMAL",
            _ => "INPUT",
        }
    }
}

/// The keys that move the cursor; any other key is `Other`.
#[derive(Clone, Copy, Debug, PartialEq, Eq, Structural)]
pub enum CursorKey {
    Up,
    Down,
    Left,
    Right,
    PageUp,
    PageDown,
    Home,
    End,
    Other,
}

/// The length of row `y`, or 0 where there is no such row.
pub open spec fn row_width(rows: Seq<Seq<char>>, y: int) -> nat {
    if 0 <= y < rows.len() {
        rows[y].len()
    } else {
        0
    }
}

/// Where `key` moves the cursor from `p`, before the column is cut back to
/// the length of the row it lands on.
pub open spec fn cursor_step(rows: Seq<Seq<char>>, p: Position, page: nat, key: CursorKey) -> (
    int,
    int,
) {
    let x = p.x as int;
    let y = p.y as int;
    let width = row_width(rows, y);
    let height = rows.len() as int;
    match key {
        CursorKey::Up => (x, if y > 0 { y - 1 } else { 0 }),
        CursorKey::Down => (x, if y < height { y + 1 } else { y }),
        CursorKey::Left => if x > 0 {
            (x - 1, y)
        } else if y > 0 {
            (row_width(rows, y - 1) as int, y - 1)
        } else {
            (x, y)
        },
        CursorKey::Right => if x < width {
            (x + 1, y)
        } else if y < height {
            (0, y + 1)
        } else {
            (x, y)
        },
        CursorKey::PageUp => (x, if y > page { y - page } else { 0 }),
        CursorKey::PageDown => (x, if y + page < height { y + page } else { height }),
        CursorKey::Home => (0, y),
        CursorKey::End => (width as int, y),
        CursorKey::Other => (x, y),
    }
}

/// Where `key` moves the cursor from `p` over `rows`, with pages of `page`
/// rows: the step of `cursor_step`, with the column cut back to the length
/// of the new row (0 past the last row).
pub open spec fn cursor_after(rows: Seq<Seq<char>>, p: Position, page: nat, key: CursorKey) -> Position {
    let s = cursor_step(rows, p, page, key);
    let w = row_width(rows, s.1);
    Position { x: (if s.0 > w { w as int } else { s.0 }) as usize, y: s.1 as usize }
}

/// Where Left or Right moves the cursor in the status bar input, between
/// `min_x` and `min_x + length`, kept left of column `term_width`.
pub open spec fn input_cursor_after(
    p: Position,
    term_width: nat,
    min_x: nat,
    length: nat,
    key: CursorKey,
) -> Position {
    let x = if key == CursorKey::Left && p.x > min_x {
        p.x - 1
    } else if key == CursorKey::Right && p.x < min_x + length {
        p.x + 1
    } else {
        p.x as int
    };
    Position { x: (if x > term_width - 1 { term_width - 1 } else { x }) as usize, y: p.y }
}

/// `b` is `a` with at most the cursor moved.
pub open spec fn same_but_cursor(a: TerminalView, b: TerminalView) -> bool {
    &&& b.origin() == a.origin()
    &&& b.marking_on() == a.marking_on()
    &&& b.mark_start() == a.mark_start()
    &&& b.mark_end() == a.mark_end()
    &&& b.area() == a.area()
}

/// How the row being drawn is marked.
#[derive(Clone, Copy, Debug, PartialEq, Eq, Structural)]
pub enum MarkedPart {
    /// Nothing of the row is marked.
    Unmarked,
    /// The columns from the first through the second are marked.
    Columns(usize, usize),
    /// The whole row is marked.
    WholeLine,
}

/// The cursor, the marked region and the size of the text area.
pub struct TerminalView {
    position: Position,
    offset: Position,
    marking: bool,
    marking_start: Position,
    marking_end: Position,
    size: Size,
}

impl TerminalView {
    /// The cursor position in the text.
    pub closed spec fn cursor(&self) -> Position {
        self.position
    }

    /// Where the text area starts on the screen.
    pub closed spec fn origin(&self) -> Position {
        self.offset
    }

    /// Whether a region is being marked.
    pub closed spec fn marking_on(&self) -> bool {
        self.marking
    }

    /// The start of the marked region.
    pub closed spec fn mark_start(&self) -> Position {
        self.marking_start
    }

    /// The end of the marked region.
    pub closed spec fn mark_end(&self) -> Position {
        self.marking_end
    }

    /// The size of the text area.
    pub closed spec fn area(&self) -> Size {
        self.size
    }

    /// A view of a terminal of `width` columns and `height` rows: the cursor
    /// at the origin, the text one row below the title bar, no marking, and
    /// two rows kept for the title and the status bar.
    pub fn new(width: usize, height: usize) -> (v: TerminalView)
        requires
            height >= 2,
        ensures
            v.cursor() == (Position { x: 0, y: 0 }),
            v.origin() == (Position { x: 0, y: 1 }),
            !v.marking_on(),
            v.mark_start() == (Position { x: 0, y: 0 }),
            v.mark_end() == (Position { x: 0, y: 0 }),
            v.area() == (Size { width, height: (height - 2) as usize }),
    {
        TerminalView {
            position: Position { x: 0, y: 0 },
            offset: Position { x: 0, y: 1 },
            marking: false,
            marking_start: Position { x: 0, y: 0 },
            marking_end: Position { x: 0, y: 0 },
            size: Size { width, height: height - 2 },
        }
    }

    /// Takes the new terminal size, keeping two rows for the title and the
    /// status bar.
    pub fn resize(&mut self, width: usize, height: usize)
        requires
            height >= 2,
        ensures
            final(self).area() == (Size { width, height: (height - 2) as usize }),
            final(self).cursor() == old(self).cursor(),
            final(self).origin() == old(self).origin(),
            final(self).marking_on() == old(self).marking_on(),
            final(self).mark_start() == old(self).mark_start(),
            final(self).mark_end() == old(self).mark_end(),
    {
        self.size.width = width;
        self.size.height = height;
        self.size.height = self.size.height - 2;
    }

    /// The cursor position.
    pub fn position(&self) -> (p: Position)
        ensures
            p == self.cursor(),
    {
        self.position
    }

    /// Where the text area starts on the screen.
    pub fn offset(&self) -> (p: Position)
        ensures
            p == self.origin(),
    {
        self.offset
    }

    /// The size of the text area.
    pub fn size(&self) -> (s: Size)
        ensures
            s == self.area(),
    {
        self.size
    }

    /// Puts the cursor at `position`.
    pub fn place_cursor(&mut self, position: Position)
        ensures
            final(self).cursor() == position,
            final(self).origin() == old(self).origin(),
            final(self).marking_on() == old(self).marking_on(),
            final(self).mark_start() == old(self).mark_start(),
            final(self).mark_end() == old(self).mark_end(),
            final(self).area() == old(self).area(),
    {
        self.position = position;
    }

    /// Moves the cursor over the text of `buffer` as `key` asks (see
    /// `cursor_after`); a page is the height of the text area.
    pub fn move_cursor(&mut self, buffer: &TextBuffer, key: CursorKey)
        requires
            key == CursorKey::PageDown ==> old(self).cursor().y + old(self).area().height
                <= usize::MAX,
        ensures
            final(self).cursor() == cursor_after(
                buffer@,
                old(self).cursor(),
                old(self).area().height as nat,
                key,
            ),
            old(self).cursor().y <= buffer@.len() ==> {
                &&& final(self).cursor().y <= buffer@.len()
                &&& final(self).cursor().x <= row_width(buffer@, final(self).cursor().y as int)
            },
            final(self).origin() == old(self).origin(),
            final(self).marking_on() == old(self).marking_on(),
            final(self).mark_start() == old(self).mark_start(),
            final(self).mark_end() == old(self).mark_end(),
            final(self).area() == old(self).area(),
    {
        let term_height = self.size.height;
        let mut cursor = self.position;
        let buff_height = buffer.len();
        let mut buff_width = match buffer.row(cursor.y) {
            Some(row) => row.len(),
            None => 0,
        };
        match key {
            CursorKey::Up => {
                cursor.y = if cursor.y > 0 {
                    cursor.y - 1
                } else {
                    0
                };
            },
            CursorKey::Down => {
                if cursor.y < buff_height {
                    cursor.y = cursor.y + 1;
                }
            },
            CursorKey::Left => {
                if cursor.x > 0 {
                    cursor.x = cursor.x - 1;
                } else if cursor.y > 0 {
                    cursor.y = cursor.y - 1;
                    cursor.x = match buffer.row(cursor.y) {
                        Some(row) => row.len(),
                        None => 0,
                    };
                }
            },
            CursorKey::Right => {
                if cursor.x < buff_width {
                    cursor.x = cursor.x + 1;
                } else if cursor.y < buff_height {
                    cursor.y = cursor.y + 1;
                    cursor.x = 0;
                }
            },
            CursorKey::PageUp => {
                if cursor.y > term_height {
                    cursor.y = cursor.y - term_height;
                } else {
                    cursor.y = 0;
                }
            },
            CursorKey::PageDown => {
                if cursor.y + term_height < buff_height {
                    cursor.y = cursor.y + term_height;
                } else {
                    cursor.y = buff_height;
                }
            },
            CursorKey::Home => {
                cursor.x = 0;
            },
            CursorKey::End => {
                cursor.x = buff_width;
            },
            CursorKey::Other => {},
        }
        buff_width = match buffer.row(cursor.y) {
            Some(row) => row.len(),
            None => 0,
        };
        if cursor.x > buff_width {
            cursor.x = buff_width;
        }
        self.position = cursor;
        proof {
            crate::buffer::lemma_row_count_fits(buffer);
            if old(self).cursor().y <= buffer@.len() {
                lemma_cursor_stays_on_text(
                    buffer@,
                    old(self).cursor(),
                    old(self).area().height as nat,
                    key,
                );
            }
        }
    }

    /// Whether a region is being marked.
    pub fn is_marking(&self) -> (b: bool)
        ensures
            b == self.marking_on(),
    {
        self.marking
    }

    /// Starts marking at the cursor.
    pub fn start_marking(&mut self)
        ensures
            final(self).marking_on(),
            final(self).mark_start() == old(self).cursor(),
            final(self).mark_end() == old(self).mark_end(),
            final(self).cursor() == old(self).cursor(),
            final(self).origin() == old(self).origin(),
            final(self).area() == old(self).area(),
    {
        self.marking = true;
        self.marking_start = self.position;
    }

    /// Ends the marked region at the cursor.
    pub fn end_marking(&mut self)
        ensures
            final(self).mark_end() == old(self).cursor(),
            final(self).marking_on() == old(self).marking_on(),
            final(self).mark_start() == old(self).mark_start(),
            final(self).cursor() == old(self).cursor(),
            final(self).origin() == old(self).origin(),
            final(self).area() == old(self).area(),
    {
        self.marking_end = self.position;
    }

    /// The start and the end of the marked region.
    pub fn get_marked_positions(&self) -> (r: (Position, Position))
        ensures
            r == (self.mark_start(), self.mark_end()),
    {
        (self.marking_start, self.marking_end)
    }

    /// Stops marking and puts both ends of the region at the origin.
    pub fn reset_marking(&mut self)
        ensures
            !final(self).marking_on(),
            final(self).mark_start() == (Position { x: 0, y: 0 }),
            final(self).mark_end() == (Position { x: 0, y: 0 }),
            final(self).cursor() == old(self).cursor(),
            final(self).origin() == old(self).origin(),
            final(self).area() == old(self).area(),
    {
        self.marking = false;
        self.marking_start = Position { x: 0, y: 0 };
        self.marking_end = Position { x: 0, y: 0 };
    }

    /// Moves the cursor in the status bar input: Left stops at `min_x`,
    /// Right at `min_x + length`, and the cursor stays left of the last
    /// column of the terminal.
    pub fn user_input_move_cursor(&mut self, min_x: usize, length: usize, key: CursorKey)
        requires
            old(self).area().width >= 1,
            key == CursorKey::Right ==> min_x + length <= usize::MAX,
        ensures
            final(self).cursor() == input_cursor_after(
                old(self).cursor(),
                old(self).area().width as nat,
                min_x as nat,
                length as nat,
                key,
            ),
            final(self).origin() == old(self).origin(),
            final(self).marking_on() == old(self).marking_on(),
            final(self).mark_start() == old(self).mark_start(),
            final(self).mark_end() == old(self).mark_end(),
            final(self).area() == old(self).area(),
    {
        let term_width = self.size.width;
        let mut cursor = self.position;
        if key == CursorKey::Left && cursor.x > min_x {
            cursor.x = cursor.x - 1;
        } else if key == CursorKey::Right && cursor.x < min_x + length {
            cursor.x = cursor.x + 1;
        }
        if cursor.x > term_width - 1 {
            cursor.x = term_width - 1;
        }
        self.position = cursor;
    }

    /// The first and last column of a row of `row_len` characters that fit
    /// in the text area: the row scrolls when it is at least as wide as the
    /// area and the cursor has moved past the right edge.
    pub fn visible_columns(&self, row_len: usize) -> (r: (usize, usize))
        requires
            self.area().width >= 1,
            self.origin().x + self.cursor().x + self.area().width <= usize::MAX,
        ensures
            ({
                let w = self.area().width as int;
                let shifted = self.origin().x + self.cursor().x;
                let start = if row_len >= w && shifted >= w {
                    shifted - w
                } else {
                    self.origin().x as int
                };
                r == (start as usize, (start + w - 1) as usize)
            }),
    {
        let width = self.size.width;
        let shifted = self.offset.x + self.position.x;
        let start = if row_len >= width && shifted >= width {
            shifted - width
        } else {
            self.offset.x
        };
        (start, start + width - 1)
    }

    /// The column where a title `title_len` columns wide starts, centred on
    /// the title bar.
    pub fn title_column(&self, title_len: usize) -> (x: usize)
        requires
            title_len <= self.area().width,
        ensures
            x == (self.area().width - title_len) / 2,
    {
        (self.size.width - title_len) / 2
    }

    /// The column of the status bar where the mode is shown.
    pub fn mode_column(&self) -> (x: usize)
        requires
            8 <= self.area().width,
        ensures
            x == self.area().width - 8,
    {
        self.size.width - 8
    }

    /// The column of the status bar where the cursor text, `pos_len`
    /// characters long, is shown.
    pub fn position_column(&self, pos_len: usize) -> (x: usize)
        requires
            pos_len + 10 <= self.area().width,
        ensures
            x == self.area().width - pos_len - 10,
    {
        self.size.width - pos_len - 10
    }

    /// The column of the status bar where the marking text, `mark_len`
    /// characters long, is shown left of a cursor text of `pos_len`
    /// characters.
    pub fn marking_column(&self, pos_len: usize, mark_len: usize) -> (x: usize)
        requires
            mark_len + pos_len + 12 <= self.area().width,
        ensures
            x == self.area().width - mark_len - pos_len - 12,
    {
        self.size.width - mark_len - pos_len - 12
    }

    /// The cursor as the status bar shows it: the row, then the column
    /// counted from 1.
    pub fn position_text(&self) -> (s: String)
        requires
            self.cursor().x < usize::MAX,
        ensures
            s@ == "yx: ↓"@ + decimal(self.cursor().y as nat) + " →"@ + decimal(
                (self.cursor().x + 1) as nat,
            ),
    {
        let mut s = String::from_str("yx: ↓");
        push_decimal(&mut s, self.position.y as u64);
        s.append(" →");
        push_decimal(&mut s, (self.position.x + 1) as u64);
        s
    }

    /// The marked region as the status bar shows it.
    pub fn marking_text(&self) -> (s: String)
        ensures
            s@ == "[yx]: "@ + position_text(self.mark_start()) + " → "@ + position_text(
                self.mark_end(),
            ),
    {
        let mut s = String::from_str("[yx]: ");
        s.append(self.marking_start.display_text().as_str());
        s.append(" → ");
        s.append(self.marking_end.display_text().as_str());
        s
    }

    /// How row `y`, drawn as a line of `line_len` characters, is marked:
    /// on the first and last row of the region from the start and up to
    /// the end column, on the rows between as a whole.
    pub fn marked_part(&self, y: usize, line_len: usize) -> (m: MarkedPart)
        ensures
            m == (if !self.marking_on() {
                MarkedPart::Unmarked
            } else if y == self.mark_start().y && y == self.mark_end().y {
                MarkedPart::Columns(self.mark_start().x, self.mark_end().x)
            } else if y == self.mark_start().y {
                MarkedPart::Columns(
                    self.mark_start().x,
                    (if line_len == 0 { 0 } else { line_len - 1 }) as usize,
                )
            } else if y == self.mark_end().y {
                MarkedPart::Columns(0, self.mark_end().x)
            } else if y > self.mark_start().y && y < self.mark_end().y {
                MarkedPart::WholeLine
            } else {
                MarkedPart::Unmarked
            }),
    {
        if !self.marking {
            MarkedPart::Unmarked
        } else if y == self.marking_start.y && y == self.marking_end.y {
            MarkedPart::Columns(self.marking_start.x, self.marking_end.x)
        } else if y == self.marking_start.y {
            let last = if line_len == 0 {
                0
            } else {
                line_len - 1
            };
            MarkedPart::Columns(self.marking_start.x, last)
        } else if y == self.marking_end.y {
            MarkedPart::Columns(0, self.marking_end.x)
        } else if y > self.marking_start.y && y < self.marking_end.y {
            MarkedPart::WholeLine
        } else {
            MarkedPart::Unmarked
        }
    }
}

/// Moving the cursor keeps it on the text: the column never passes the end
/// of the row the cursor lands on, and a cursor at most one row past the
/// last row stays so.
pub proof fn lemma_cursor_stays_on_text(rows: Seq<Seq<char>>, p: Position, page: nat, key: CursorKey)
    requires
        p.y <= rows.len(),
        key == CursorKey::PageDown ==> p.y + page <= usize::MAX,
        rows.len() <= usize::MAX,
    ensures
        ({
            let q = cursor_after(rows, p, page, key);
            &&& q.x <= row_width(rows, q.y as int)
            &&& q.y <= rows.len()
        }),
{
}

/// The vertical keys move the cursor by rows and keep its column, cut back
/// to the length of the row it lands on: Up goes one row up (row 0 stays),
/// Down one row down (at most to the row just past the last), PageUp and
/// PageDown by `page` rows (at most to row 0 and to the row just past the
/// last).
pub proof fn lemma_vertical_keys(rows: Seq<Seq<char>>, p: Position, page: nat, key: CursorKey)
    requires
        rows.len() <= usize::MAX,
        forall|i: int| 0 <= i < rows.len() ==> #[trigger] rows[i].len() <= usize::MAX,
        key == CursorKey::Up || key == CursorKey::Down || key == CursorKey::PageUp || key
            == CursorKey::PageDown,
        key == CursorKey::PageDown ==> p.y + page <= usize::MAX,
    ensures
        ({
            let q = cursor_after(rows, p, page, key);
            let len_of_row = |r: int| if 0 <= r < rows.len() { rows[r].len() as int } else { 0int };
            let y = p.y as int;
            let n = rows.len() as int;
            &&& key == CursorKey::Up ==> q.y == (if y > 0 { y - 1 } else { 0 })
            &&& key == CursorKey::Down ==> q.y == (if y < n { y + 1 } else { y })
            &&& key == CursorKey::PageUp ==> q.y == (if y > page { y - page } else { 0 })
            &&& key == CursorKey::PageDown ==> q.y == (if y + page < n { y + page } else { n })
            &&& q.x == (if p.x <= len_of_row(q.y as int) {
                p.x as int
            } else {
                len_of_row(q.y as int)
            })
        }),
{
}

/// The horizontal keys: Left goes one column left, or from the start of a
/// row to the end of the row above; Right goes one column right, or from
/// the end of a row to the start of the next; Home goes to column 0 and End
/// to the end of the row. The row changes only where Left or Right cross a
/// row boundary.
pub proof fn lemma_horizontal_keys(rows: Seq<Seq<char>>, p: Position, page: nat)
    requires
        rows.len() <= usize::MAX,
        forall|i: int| 0 <= i < rows.len() ==> #[trigger] rows[i].len() <= usize::MAX,
        p.y < rows.len() ==> p.x <= rows[p.y as int].len(),
        p.y >= rows.len() ==> p.x == 0,
    ensures
        ({
            let len_of_row = |r: int| if 0 <= r < rows.len() { rows[r].len() as int } else { 0int };
            let x = p.x as int;
            let y = p.y as int;
            let w = len_of_row(y);
            let left = cursor_after(rows, p, page, CursorKey::Left);
            let right = cursor_after(rows, p, page, CursorKey::Right);
            let home = cursor_after(rows, p, page, CursorKey::Home);
            let end = cursor_after(rows, p, page, CursorKey::End);
            &&& x > 0 ==> left.x == x - 1 && left.y == y
            &&& x == 0 && y > 0 ==> left.x == len_of_row(y - 1) && left.y == y - 1
            &&& x == 0 && y == 0 ==> left.x == 0 && left.y == 0
            &&& x < w ==> right.x == x + 1 && right.y == y
            &&& x == w && y < rows.len() ==> right.x == 0 && right.y == y + 1
            &&& x == w && y >= rows.len() ==> right.x == 0 && right.y == y
            &&& home.x == 0 && home.y == y
            &&& end.x == w && end.y == y
        }),
{
}

} // verus!
