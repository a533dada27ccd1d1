//! A single row of text, held as a vector of characters.
use vstd::prelude::*;
use crate::text::{chars_of, string_of, string_push};

verus! {

/// True when `pat` occurs in `text` starting at character index `i`.
pub open spec fn matches_at(text: Seq<char>, pat: Seq<char>, i: int) -> bool {
    &&& 0 <= i
    &&& i + pat.len() <= text.len()
    &&& text.subrange(i, i + pat.len()) == pat
}

/// True when `i` is the first index, at or after `from`, at which `pat`
/// occurs in `text`.
pub open spec fn is_first_match(text: Seq<char>, pat: Seq<char>, from: int, i: int) -> bool {
    &&& from <= i
    &&& matches_at(text, pat, i)
    &&& forall|j: int| from <= j < i ==> !#[trigger] matches_at(text, pat, j)
}

/// Where some index at or after `from` matches, the least one is a first
/// match.
pub proof fn lemma_first_match_exists(text: Seq<char>, pat: Seq<char>, from: int, k: int)
    requires
        from <= k,
        matches_at(text, pat, k),
    ensures
        exists|i: int| is_first_match(text, pat, from, i),
    decreases k - from,
{
    if exists|j: int| from <= j < k && #[trigger] matches_at(text, pat, j) {
        let j = choose|j: int| from <= j < k && #[trigger] matches_at(text, pat, j);
        lemma_first_match_exists(text, pat, from, j);
    } else {
        assert(is_first_match(text, pat, from, k));
    }
}

/// A first match is unique.
pub proof fn lemma_first_match_unique(text: Seq<char>, pat: Seq<char>, from: int, i: int, j: int)
    requires
        is_first_match(text, pat, from, i),
        is_first_match(text, pat, from, j),
    ensures
        i == j,
{
    if i < j {
        assert(!matches_at(text, pat, i));
    } else if j < i {
        assert(!matches_at(text, pat, j));
    }
}

/// The last index of the range that `get_range` and `delete_range` work on:
/// `to`, cut back to the last character of a row of `len` characters.
pub open spec fn range_end(len: nat, to: int) -> int {
    if to >= len {
        len - 1
    } else {
        to
    }
}

/// The characters of `s` from `from` through `to`, as `Row::get_range`
/// returns them.
pub open spec fn range_text(s: Seq<char>, from: int, to: int) -> Seq<char> {
    if s.len() == 0 {
        Seq::empty()
    } else {
        s.subrange(from, range_end(s.len(), to) + 1)
    }
}

/// The inputs on which `Row::get_range` (and `delete_range`, once it gets
/// past its early returns) does not panic: the slice from `from` through the
/// end index must exist.
pub open spec fn range_ok(s: Seq<char>, from: int, to: int) -> bool {
    s.len() > 0 ==> from <= range_end(s.len(), to) + 1
}

/// The characters of `s` with `c` inserted before index `at`, or appended
/// where `at` is past the last character.
pub open spec fn row_insert(s: Seq<char>, at: int, c: char) -> Seq<char> {
    if at >= s.len() {
        s.push(c)
    } else {
        s.insert(at, c)
    }
}

/// The characters of `s` with `t` inserted before index `at`, or appended
/// where `at` is past the last character.
pub open spec fn row_insert_str(s: Seq<char>, at: int, t: Seq<char>) -> Seq<char> {
    let k = if at >= s.len() { s.len() as int } else { at };
    s.take(k) + t + s.skip(k)
}

/// The characters of `s` without the one at index `at`, if there is one.
pub open spec fn row_remove(s: Seq<char>, at: int) -> Seq<char> {
    if at >= s.len() {
        s
    } else {
        s.remove(at)
    }
}

/// The characters of `s` without those from `from` through `to`, as
/// `Row::delete_range` leaves them.
pub open spec fn row_delete_range(s: Seq<char>, from: int, to: int) -> Seq<char> {
    if from >= s.len() {
        s
    } else {
        s.take(from) + s.skip(range_end(s.len(), to) + 1)
    }
}

/// What `Row::find` returns for the characters `s`: the character index of
/// the first occurrence of `pat` at or after index `from`, or `None` where
/// there is none or `pat` is empty.
pub open spec fn row_find(s: Seq<char>, pat: Seq<char>, from: int) -> Option<nat> {
    if pat.len() > 0 && exists|i: int| from <= i && #[trigger] matches_at(s, pat, i) {
        Some((choose|i: int| is_first_match(s, pat, from, i)) as nat)
    } else {
        None
    }
}

/// A row of text.
#[derive(Debug)]
pub struct Row {
    content: Vec<char>,
}

impl View for Row {
    type V = Seq<char>;

    closed spec fn view(&self) -> Seq<char> {
        self.content@
    }
}

impl Default for Row {
    /// An empty row.
    fn default() -> (r: Row)
        ensures
            r@ == Seq::<char>::empty(),
    {
        Row { content: Vec::new() }
    }
}

impl Row {
    /// Creates a row holding the characters of `content`.
    pub fn new(content: String) -> (r: Row)
        ensures
            r@ == content@,
    {
        Row { content: chars_of(content.as_str()) }
    }

    /// The number of characters in the row.
    pub fn len(&self) -> (n: usize)
        ensures
            n == self@.len(),
    {
        self.content.len()
    }

    /// True when the row holds no character.
    pub fn is_empty(&self) -> (b: bool)
        ensures
            b == (self@.len() == 0),
    {
        self.content.len() == 0
    }

    /// Removes all characters of the row.
    pub fn clear(&mut self)
        ensures
            final(self)@ == Seq::<char>::empty(),
    {
        self.content.clear();
    }

    /// The row as a string.
    pub fn as_string(&self) -> (s: String)
        ensures
            s@ == self@,
    {
        string_of(self.content.as_slice())
    }

    /// The character at `index`, or a space where the row is shorter.
    pub fn get_char(&self, index: usize) -> (c: char)
        ensures
            c == (if index < self@.len() { self@[index as int] } else { ' ' }),
    {
        if index < self.content.len() {
            self.content[index]
        } else {
            ' '
        }
    }

    /// The characters from `from` through `to`, both included; `to` is cut
    /// back to the last character, and an empty row gives an empty string.
    pub fn get_range(&self, from: usize, to: usize) -> (s: String)
        requires
            range_ok(self@, from as int, to as int),
        ensures
            s@ == range_text(self@, from as int, to as int),
    {
        if self.content.len() == 0 {
            return String::new();
        }
        let end = if to >= self.content.len() {
            self.content.len() - 1
        } else {
            to
        };
        let n = self.content.len();
        let mut s = String::new();
        let mut i = from;
        while i <= end
            invariant
                from <= i <= end + 1,
                end < n,
                n == self@.len(),
                s@ == self@.subrange(from as int, i as int),
            decreases end + 1 - i,
        {
            string_push(&mut s, self.content[i]);
            assert(self@.subrange(from as int, i as int).push(self@[i as int])
                =~= self@.subrange(from as int, i + 1));
            i = i + 1;
        }
        s
    }

    /// Appends the characters of `row` to this row.
    pub fn add(&mut self, row: &Row)
        ensures
            final(self)@ == old(self)@ + row@,
    {
        let n = row.content.len();
        let mut i: usize = 0;
        while i < n
            invariant
                n == row@.len(),
                i <= n,
                self@ == old(self)@ + row@.take(i as int),
            decreases n - i,
        {
            self.content.push(row.content[i]);
            assert(old(self)@ + row@.take(i + 1) =~= (old(self)@ + row@.take(i as int)).push(
                row@[i as int],
            ));
            i = i + 1;
        }
        assert(row@.take(n as int) =~= row@);
    }

    /// Appends the characters of `s` to this row.
    pub fn append(&mut self, s: &str)
        ensures
            final(self)@ == old(self)@ + s@,
    {
        let chars = chars_of(s);
        let n = chars.len();
        let mut i: usize = 0;
        while i < n
            invariant
                n == chars@.len(),
                chars@ == s@,
                i <= n,
                self@ == old(self)@ + chars@.take(i as int),
            decreases n - i,
        {
            self.content.push(chars[i]);
            assert(old(self)@ + chars@.take(i + 1) =~= (old(self)@ + chars@.take(i as int)).push(
                chars@[i as int],
            ));
            i = i + 1;
        }
        assert(chars@.take(n as int) =~= chars@);
    }

    /// Inserts `ch` before index `at`; where `at` is past the last
    /// character, `ch` is appended.
    pub fn insert(&mut self, at: usize, ch: char)
        ensures
            final(self)@ == row_insert(old(self)@, at as int, ch),
    {
        if at >= self.content.len() {
            self.content.push(ch);
            return;
        }
        self.content.insert(at, ch);
    }

    /// Inserts the characters of `s` before index `at`; where `at` is past
    /// the last character, they are appended.
    pub fn insert_str(&mut self, at: usize, s: &str)
        ensures
            final(self)@ == row_insert_str(old(self)@, at as int, s@),
    {
        if at >= self.content.len() {
            self.append(s);
            proof {
                assert(old(self)@.take(old(self)@.len() as int) =~= old(self)@);
                assert(old(self)@.skip(old(self)@.len() as int) =~= Seq::<char>::empty());
                assert(old(self)@ + s@ + Seq::<char>::empty() =~= old(self)@ + s@);
            }
            return;
        }
        let chars = chars_of(s);
        let n = chars.len();
        let mut i: usize = 0;
        while i < n
            invariant
                n == chars@.len(),
                chars@ == s@,
                at < old(self)@.len(),
                i <= n,
                self@ == old(self)@.take(at as int) + chars@.take(i as int) + old(self)@.skip(
                    at as int,
                ),
            decreases n - i,
        {
            let cur_len = self.content.len();
            assert(at + i <= cur_len);
            self.content.insert(at + i, chars[i]);
            assert(self@ =~= old(self)@.take(at as int) + chars@.take(i + 1) + old(self)@.skip(
                at as int,
            ));
            i = i + 1;
        }
        assert(chars@.take(n as int) =~= chars@);
    }

    /// Cuts the row at index `at`: the row keeps the characters before `at`
    /// and the rest is returned as a new row.
    pub fn split(&mut self, at: usize) -> (rest: Row)
        requires
            at <= old(self)@.len(),
        ensures
            final(self)@ == old(self)@.take(at as int),
            rest@ == old(self)@.skip(at as int),
    {
        let tail = self.content.split_off(at);
        Row { content: tail }
    }

    /// Deletes the character at index `at`, if there is one.
    pub fn delete(&mut self, at: usize)
        ensures
            final(self)@ == row_remove(old(self)@, at as int),
    {
        if at >= self.content.len() {
            return;
        }
        self.content.remove(at);
    }

    /// Deletes the characters from `from` through `to`, both included; `to`
    /// is cut back to the last character. Nothing happens on an empty row or
    /// where `from` is past the last character.
    pub fn delete_range(&mut self, from: usize, to: usize)
        requires
            from < old(self)@.len() ==> range_ok(old(self)@, from as int, to as int),
        ensures
            final(self)@ == row_delete_range(old(self)@, from as int, to as int),
    {
        if self.content.len() == 0 {
            return;
        }
        if from >= self.content.len() {
            return;
        }
        let len = self.content.len();
        let end = if to >= len {
            len - 1
        } else {
            to
        };
        let mut kept: Vec<char> = Vec::new();
        let mut i: usize = 0;
        while i < len
            invariant
                len == self@.len(),
                self@ == old(self)@,
                from <= end + 1,
                end < len,
                i <= len,
                kept@ == (if i <= from {
                    self@.take(i as int)
                } else if i <= end + 1 {
                    self@.take(from as int)
                } else {
                    self@.take(from as int) + self@.subrange(end + 1, i as int)
                }),
            decreases len - i,
        {
            if i < from || i > end {
                kept.push(self.content[i]);
            }
            proof {
                if i < from {
                    assert(self@.take(i as int).push(self@[i as int]) =~= self@.take(i + 1));
                } else if i == end + 1 {
                    assert(self@.take(from as int).push(self@[i as int]) =~= self@.take(
                        from as int,
                    ) + self@.subrange(end + 1, i + 1));
                } else if i > end + 1 {
                    assert((self@.take(from as int) + self@.subrange(end + 1, i as int)).push(
                        self@[i as int],
                    ) =~= self@.take(from as int) + self@.subrange(end + 1, i + 1));
                }
            }
            i = i + 1;
        }
        proof {
            if len <= end + 1 {
                assert(self@.skip(end + 1) =~= Seq::<char>::empty());
                assert(kept@ =~= self@.take(from as int) + self@.skip(end + 1));
            } else {
                assert(self@.subrange(end + 1, len as int) =~= self@.skip(end + 1));
            }
        }
        self.content = kept;
    }

    /// Finds the first occurrence of `to_find` in the row at or after
    /// character index `from`, and returns the index where it starts; an
    /// empty `to_find` is never found.
    pub fn find(&self, to_find: &str, from: usize) -> (r: Option<usize>)
        ensures
            r == (match row_find(self@, to_find@, from as int) {
                Some(i) => Some(i as usize),
                None => None,
            }),
            r matches Some(i) ==> is_first_match(self@, to_find@, from as int, i as int),
            r is None ==> to_find@.len() == 0 || forall|j: int|
                from <= j ==> !#[trigger] matches_at(self@, to_find@, j),
    {
        let pat = chars_of(to_find);
        let len = self.content.len();
        let plen = pat.len();
        if plen == 0 {
            return None;
        }
        let mut i: usize = from;
        while i < len
            invariant
                len == self@.len(),
                pat@ == to_find@,
                plen == pat@.len(),
                plen > 0,
                from <= i,
                forall|j: int| from <= j < i ==> !#[trigger] matches_at(self@, pat@, j),
            decreases len - i,
        {
            // Compare the pattern with the row at index i.
            let mut k: usize = 0;
            let mut ok = plen <= len - i;
            while ok && k < plen
                invariant
                    len == self@.len(),
                    i < len,
                    plen == pat@.len(),
                    k <= plen,
                    ok ==> i + plen <= len,
                    ok ==> forall|m: int| 0 <= m < k ==> self@[i + m] == pat@[m],
                    !ok ==> !matches_at(self@, pat@, i as int),
                decreases plen - k,
            {
                if self.content[i + k] != pat[k] {
                    ok = false;
                    assert(self@.subrange(i as int, i + plen)[k as int] != pat@[k as int]);
                }
                k = k + 1;
            }
            if ok {
                proof {
                    assert(self@.subrange(i as int, i + plen) =~= pat@);
                    assert(is_first_match(self@, pat@, from as int, i as int));
                    let c = choose|c: int| is_first_match(self@, pat@, from as int, c);
                    lemma_first_match_unique(self@, pat@, from as int, c, i as int);
                }
                return Some(i);
            }
            i = i + 1;
        }
        assert(forall|j: int| from <= j ==> !#[trigger] matches_at(self@, pat@, j));
        None
    }
}

/// A row holds at most `usize::MAX` characters.
pub proof fn lemma_row_len_fits(r: &Row)
    ensures
        r@.len() <= usize::MAX,
{
    broadcast use vstd::std_specs::vec::axiom_spec_len;

    assert(r.content.len() == r.content@.len());
}

/// Joining the two halves of a split row gives the row back: `add` undoes
/// `split`.
pub proof fn lemma_add_undoes_split(s: Seq<char>, at: int)
    requires
        0 <= at <= s.len(),
    ensures
        s.take(at) + s.skip(at) == s,
{
    assert(s.take(at) + s.skip(at) =~= s);
}

} // verus!
