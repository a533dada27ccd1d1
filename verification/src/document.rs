//! A document held as whole lines, with counts of its rows, characters and
//! words.
use vstd::prelude::*;
use vstd::string::StrSliceExecFns;
use crate::text::chars_of;

verus! {

/// The characters that `char::is_ascii_whitespace` accepts: space,
/// horizontal tab, line feed, form feed and carriage return.
pub open spec fn is_ascii_space(c: char) -> bool {
    c == ' ' || c == '\t' || c == '\n' || c == '\x0C' || c == '\r'
}

/// How many characters of `s` are ASCII whitespace.
pub open spec fn count_spaces(s: Seq<char>) -> nat
    decreases s.len(),
{
    if s.len() == 0 {
        0
    } else {
        count_spaces(s.drop_last()) + (if is_ascii_space(s.last()) { 1nat } else { 0nat })
    }
}

/// The whitespace characters of `line`, the rough word count that a line
/// adds.
pub fn count_ascii_whitespace(line: &str) -> (n: usize)
    ensures
        n == count_spaces(line@),
        n <= line@.len(),
{
    let chars = chars_of(line);
    let len = chars.len();
    let mut n: usize = 0;
    let mut i: usize = 0;
    while i < len
        invariant
            len == chars@.len(),
            chars@ == line@,
            i <= len,
            n == count_spaces(chars@.take(i as int)),
            n <= i,
        decreases len - i,
    {
        let c = chars[i];
        assert(chars@.take(i + 1).drop_last() =~= chars@.take(i as int));
        if c == ' ' || c == '\t' || c == '\n' || c == '\x0C' || c == '\r' {
            n = n + 1;
        }
        i = i + 1;
    }
    assert(chars@.take(len as int) =~= chars@);
    n
}

/// The lines of a document, their number, their total number of characters, a
/// rough word count (the whitespace characters), and the file name.
#[derive(Debug)]
pub struct Document {
    content: Vec<String>,
    rows: usize,
    chars: usize,
    words: usize,
    filename: String,
}

impl Default for Document {
    /// An empty document with an empty name.
    fn default() -> (d: Document)
        ensures
            d.lines().len() == 0,
            d.row_count() == 0,
            d.char_count() == 0,
            d.word_count() == 0,
            d.name() == Seq::<char>::empty(),
            d.well_counted(),
    {
        Document { content: Vec::new(), rows: 0, chars: 0, words: 0, filename: String::new() }
    }
}

impl Document {
    /// The counters agree with the lines: the row count is the number of
    /// stored lines, and the word count is at most the character count.
    /// `new` and `default` make documents so, and every method keeps them so.
    pub open spec fn well_counted(&self) -> bool {
        &&& self.row_count() == self.lines().len()
        &&& self.word_count() <= self.char_count()
    }

    /// The lines, in order.
    pub closed spec fn lines(&self) -> Seq<Seq<char>> {
        self.content@.map_values(|s: String| s@)
    }

    /// The number of lines added.
    pub closed spec fn row_count(&self) -> nat {
        self.rows as nat
    }

    /// The total number of characters in the lines.
    pub closed spec fn char_count(&self) -> nat {
        self.chars as nat
    }

    /// The number of whitespace characters in the lines.
    pub closed spec fn word_count(&self) -> nat {
        self.words as nat
    }

    /// The name of the document's file.
    pub closed spec fn name(&self) -> Seq<char> {
        self.filename@
    }

    /// An empty document named `<Untitled>`.
    pub fn new() -> (d: Document)
        ensures
            d.lines().len() == 0,
            d.row_count() == 0,
            d.char_count() == 0,
            d.word_count() == 0,
            d.name() == "<Untitled>"@,
            d.well_counted(),
    {
        Document {
            content: Vec::new(),
            rows: 0,
            chars: 0,
            words: 0,
            filename: "<Untitled>".to_owned(),
        }
    }

    /// Gives the document the name of the file it was read from or written
    /// to.
    pub fn set_filename(&mut self, filename: &str)
        ensures
            final(self).name() == filename@,
            final(self).lines() == old(self).lines(),
            final(self).row_count() == old(self).row_count(),
            final(self).char_count() == old(self).char_count(),
            final(self).word_count() == old(self).word_count(),
            old(self).well_counted() ==> final(self).well_counted(),
    {
        self.filename = filename.to_owned();
    }

    /// Adds a line read from the file, counting it in the rows, its
    /// characters and its whitespace characters. The document's counters
    /// must agree with its lines, as they do for every document made by
    /// `new` or `default` and changed only by these methods.
    pub fn add_line(&mut self, line: String)
        requires
            old(self).well_counted(),
            old(self).char_count() + line@.len() <= usize::MAX,
            old(self).row_count() + 1 <= usize::MAX,
        ensures
            final(self).lines() == old(self).lines().push(line@),
            final(self).row_count() == old(self).row_count() + 1,
            final(self).char_count() == old(self).char_count() + line@.len(),
            final(self).word_count() == old(self).word_count() + count_spaces(line@),
            final(self).name() == old(self).name(),
            final(self).well_counted(),
    {
        let spaces = count_ascii_whitespace(line.as_str());
        let n = line.as_str().unicode_len();
        self.chars = self.chars + n;
        self.words = self.words + spaces;
        self.content.push(line);
        self.rows = self.rows + 1;
        assert(self.lines() =~= old(self).lines().push(line@));
    }

    /// The line at `row`, if there is one.
    pub fn content(&self, row: usize) -> (r: Option<&String>)
        ensures
            r is Some <==> row < self.lines().len(),
            r matches Some(s) ==> s@ == self.lines()[row as int],
    {
        if row < self.content.len() {
            Some(&self.content[row])
        } else {
            None
        }
    }

    /// The total number of characters in the lines, whitespace included.
    pub fn chars(&self) -> (n: usize)
        ensures
            n == self.char_count(),
    {
        self.chars
    }

    /// The number of lines added.
    pub fn rows(&self) -> (n: usize)
        ensures
            n == self.row_count(),
    {
        self.rows
    }

    /// The text written to the document's file: its lines one after the
    /// other, without separators.
    pub fn text(&self) -> (s: String)
        ensures
            s@ == self.lines().flatten(),
    {
        let mut s = String::new();
        let n = self.content.len();
        let mut i: usize = 0;
        while i < n
            invariant
                n == self.lines().len(),
                i <= n,
                s@ == self.lines().take(i as int).flatten(),
            decreases n - i,
        {
            let ghost before = self.lines().take(i as int);
            let line = &self.content[i];
            s.append(line.as_str());
            proof {
                let l = self.lines()[i as int];
                assert(self.lines().take(i + 1) =~= before + seq![l]);
                vstd::seq_lib::lemma_flatten_concat(before, seq![l]);
                seq![l].lemma_flatten_singleton();
            }
            i = i + 1;
        }
        assert(self.lines().take(n as int) =~= self.lines());
        s
    }
}

} // verus!
