use eddy::buffer::{TextBuffer, DEFAULT_FILENAME};
use eddy::document::{count_ascii_whitespace, Document};
use eddy::position::{Position, Size};
use eddy::row::Row;
use eddy::text::{chars_of, str_eq, string_of};

fn row(s: &str) -> Row {
    Row::new(s.to_string())
}

fn buffer(lines: &[&str]) -> TextBuffer {
    TextBuffer::from_lines("notes.txt", lines.iter().map(|s| s.to_string()).collect())
}

fn rows_of(b: &TextBuffer) -> Vec<String> {
    (0..b.len()).map(|i| b.row(i).unwrap().as_string()).collect()
}

#[test]
fn position_add_and_sub() {
    let a = Position { x: 3, y: 4 };
    let b = Position { x: 1, y: 2 };
    assert_eq!(a + b, Position { x: 4, y: 6 });
    assert_eq!(a - b, Position { x: 2, y: 2 });
    assert_eq!(Position::new(7, 8), Position { x: 7, y: 8 });
    assert_eq!(Size::new(80, 24), Size { width: 80, height: 24 });
}

#[test]
fn row_basics() {
    let r = row("héllo");
    assert_eq!(r.len(), 5);
    assert!(!r.is_empty());
    assert_eq!(r.as_string(), "héllo");
    assert_eq!(r.get_char(1), 'é');
    assert_eq!(r.get_char(9), ' ');
    let mut e = Row::default();
    assert!(e.is_empty());
    e.append("ab");
    assert_eq!(e.as_string(), "ab");
    e.clear();
    assert_eq!(e.len(), 0);
    assert!(e.is_empty());
}

#[test]
fn row_get_range_cuts_at_end() {
    let r = row("abcdef");
    assert_eq!(r.get_range(1, 3), "bcd");
    assert_eq!(r.get_range(2, 100), "cdef");
    assert_eq!(r.get_range(6, 100), "");
    assert_eq!(Row::default().get_range(3, 9), "");
}

#[test]
fn row_insert_and_delete() {
    let mut r = row("ace");
    r.insert(1, 'b');
    assert_eq!(r.as_string(), "abce");
    r.insert(99, 'f');
    assert_eq!(r.as_string(), "abcef");
    r.insert(3, 'd');
    assert_eq!(r.as_string(), "abcdef");
    r.delete(0);
    assert_eq!(r.as_string(), "bcdef");
    r.delete(10);
    assert_eq!(r.as_string(), "bcdef");
    assert_eq!(r.len(), 5);
}

#[test]
fn row_insert_str_inside_and_at_end() {
    let mut r = row("ab");
    r.insert_str(1, "XY");
    assert_eq!(r.as_string(), "aXYb");
    r.insert_str(4, "zz");
    assert_eq!(r.as_string(), "aXYbzz");
    assert_eq!(r.len(), 6);
    r.insert_str(100, "!");
    assert_eq!(r.as_string(), "aXYbzz!");
    assert_eq!(r.len(), 7);
}

#[test]
fn row_split_and_add_restore() {
    let mut r = row("hello world");
    let rest = r.split(5);
    assert_eq!(r.as_string(), "hello");
    assert_eq!(rest.as_string(), " world");
    r.add(&rest);
    assert_eq!(r.as_string(), "hello world");
    let mut s = row("abc");
    let tail = s.split(3);
    assert_eq!(s.as_string(), "abc");
    assert!(tail.is_empty());
}

#[test]
fn row_delete_range_cases() {
    let mut r = row("abcdef");
    r.delete_range(1, 2);
    assert_eq!(r.as_string(), "adef");
    r.delete_range(2, 99);
    assert_eq!(r.as_string(), "ad");
    r.delete_range(5, 9);
    assert_eq!(r.as_string(), "ad");
    r.delete_range(1, 0);
    assert_eq!(r.as_string(), "ad");
    let mut e = Row::default();
    e.delete_range(0, 3);
    assert!(e.is_empty());
}

#[test]
fn row_find_reports_char_index_of_first_match() {
    let r = row("abcabc");
    assert_eq!(r.find("c", 3), Some(5));
    assert_eq!(r.find("c", 0), Some(2));
    assert_eq!(r.find("ca", 0), Some(2));
    assert_eq!(r.find("ca", 1), Some(2));
    assert_eq!(r.find("abc", 1), Some(3));
    assert_eq!(r.find("abc", 3), Some(3));
    assert_eq!(r.find("x", 0), None);
    assert_eq!(r.find("zz", 0), None);
    assert_eq!(r.find("", 0), None);
    assert_eq!(r.find("c", 6), None);
    assert_eq!(r.find("bca", 2), None);
    let u = row("äöx");
    assert_eq!(u.find("x", 0), Some(2));
    assert_eq!(u.find("ö", 0), Some(1));
}

#[test]
fn text_helpers() {
    assert_eq!(chars_of("aé"), vec!['a', 'é']);
    assert_eq!(string_of(&['x', 'y']), "xy");
    assert!(str_eq("abc", "abc"));
    assert!(!str_eq("abc", "abd"));
    assert!(!str_eq("ab", "abc"));
}

#[test]
fn buffer_new_and_names() {
    let mut b = TextBuffer::new();
    assert!(b.is_empty());
    assert!(!b.is_modified());
    assert_eq!(b.len(), 0);
    assert_eq!(b.filename(), DEFAULT_FILENAME);
    assert_eq!(b.filename(), "Untitled");
    b.new_filename("a.txt");
    assert_eq!(b.filename(), "a.txt");
    assert!(b.row(0).is_none());
}

#[test]
fn buffer_from_lines_and_contents() {
    let b = buffer(&["one", "two"]);
    assert_eq!(b.len(), 2);
    assert!(!b.is_modified());
    assert_eq!(b.filename(), "notes.txt");
    assert_eq!(b.contents("\n"), "one\ntwo\n");
    assert_eq!(b.contents("\r\n"), "one\r\ntwo\r\n");
    assert_eq!(TextBuffer::new().contents("\n"), "");
}

#[test]
fn buffer_insert_cases() {
    let mut b = buffer(&["ab"]);
    b.insert(&Position { x: 1, y: 0 }, 'X');
    assert_eq!(rows_of(&b), vec!["aXb"]);
    assert!(b.is_modified());
    b.insert(&Position { x: 0, y: 0 }, '\t');
    assert_eq!(rows_of(&b), vec!["    aXb"]);
    b.insert(&Position { x: 5, y: 1 }, 'n');
    assert_eq!(rows_of(&b), vec!["    aXb", "n"]);
    b.insert(&Position { x: 0, y: 5 }, 'q');
    assert_eq!(rows_of(&b), vec!["    aXb", "n"]);
    b.insert(&Position { x: 4, y: 0 }, '\n');
    assert_eq!(rows_of(&b), vec!["    ", "aXb", "n"]);
}

#[test]
fn buffer_insert_far_past_end_changes_nothing() {
    let mut b = buffer(&["ab"]);
    b.insert(&Position { x: 0, y: 3 }, 'z');
    assert!(!b.is_modified());
    b.insert_newline(&Position { x: 0, y: 2 });
    assert_eq!(rows_of(&b), vec!["ab"]);
    assert!(!b.is_modified());
    b.insert_newline(&Position { x: 0, y: 1 });
    assert_eq!(rows_of(&b), vec!["ab", ""]);
    assert!(b.is_modified());
    b.insert_newline(&Position { x: 1, y: 0 });
    assert_eq!(rows_of(&b), vec!["a", "b", ""]);
    assert!(b.is_modified());
}

#[test]
fn buffer_delete_joins_rows() {
    let mut b = buffer(&["ab", "cd"]);
    b.delete(&Position { x: 2, y: 0 });
    assert_eq!(rows_of(&b), vec!["abcd"]);
    b.delete(&Position { x: 0, y: 0 });
    assert_eq!(rows_of(&b), vec!["bcd"]);
    b.delete(&Position { x: 3, y: 0 });
    assert_eq!(rows_of(&b), vec!["bcd"]);
    b.delete(&Position { x: 0, y: 4 });
    assert_eq!(rows_of(&b), vec!["bcd"]);
    assert!(b.is_modified());
}

#[test]
fn buffer_get_char() {
    let b = buffer(&["ab"]);
    assert_eq!(b.get_char(&Position { x: 1, y: 0 }), 'b');
    assert_eq!(b.get_char(&Position { x: 2, y: 0 }), ' ');
    assert_eq!(b.get_char(&Position { x: 0, y: 1 }), ' ');
}

#[test]
fn buffer_get_range_over_rows() {
    let b = buffer(&["hello", "big", "world"]);
    let s = Position { x: 2, y: 0 };
    let e = Position { x: 2, y: 2 };
    assert_eq!(b.get_range(&s, &e), "llobigwor");
    assert_eq!(b.get_range(&Position { x: 1, y: 1 }, &Position { x: 1, y: 1 }), "i");
    assert_eq!(b.get_range(&Position { x: 1, y: 2 }, &Position { x: 0, y: 1 }), "");
    assert_eq!(b.get_range(&Position { x: 0, y: 2 }, &Position { x: 9, y: 7 }), "world");
}

#[test]
fn buffer_delete_range_over_rows() {
    let mut b = buffer(&["hello", "big", "world"]);
    b.delete_range(&Position { x: 2, y: 0 }, &Position { x: 2, y: 2 });
    assert_eq!(rows_of(&b), vec!["he", "", "ld"]);
    assert!(b.is_modified());
    let mut c = buffer(&["abcdef"]);
    c.delete_range(&Position { x: 1, y: 0 }, &Position { x: 3, y: 0 });
    assert_eq!(rows_of(&c), vec!["aef"]);
    assert!(c.is_modified());
    let mut d = buffer(&["ab", "cd"]);
    d.delete_range(&Position { x: 1, y: 0 }, &Position { x: 0, y: 0 });
    assert_eq!(rows_of(&d), vec!["ab", "cd"]);
    assert!(!d.is_modified());
    d.delete_range(&Position { x: 5, y: 0 }, &Position { x: 0, y: 1 });
    assert_eq!(rows_of(&d), vec!["ab", "d"]);
    assert!(d.is_modified());
}

#[test]
fn buffer_find_across_rows() {
    let b = buffer(&["abc", "xbcx", "bc"]);
    assert_eq!(b.find("bc", &Position { x: 0, y: 0 }), Some(Position { x: 1, y: 0 }));
    assert_eq!(b.find("bc", &Position { x: 2, y: 0 }), Some(Position { x: 1, y: 1 }));
    assert_eq!(b.find("bc", &Position { x: 2, y: 1 }), Some(Position { x: 0, y: 2 }));
    assert_eq!(b.find("x", &Position { x: 1, y: 1 }), Some(Position { x: 3, y: 1 }));
    let c = buffer(&["abcabc"]);
    assert_eq!(c.find("c", &Position { x: 3, y: 0 }), Some(Position { x: 5, y: 0 }));
    assert_eq!(b.find("zz", &Position { x: 0, y: 0 }), None);
    assert_eq!(b.find("bc", &Position { x: 0, y: 3 }), None);
}

#[test]
fn buffer_checks() {
    let b = buffer(&["abc", "de"]);
    assert!(b.can_insert(&Position { x: 3, y: 0 }, '\n'));
    assert!(!b.can_insert(&Position { x: 4, y: 0 }, '\n'));
    assert!(b.can_insert(&Position { x: 9, y: 0 }, 'a'));
    assert!(b.can_get_range(&Position { x: 3, y: 0 }, &Position { x: 0, y: 1 }));
    assert!(!b.can_get_range(&Position { x: 4, y: 0 }, &Position { x: 0, y: 1 }));
    assert!(b.can_delete_range(&Position { x: 0, y: 0 }, &Position { x: 1, y: 1 }));
    assert!(!b.can_delete_range(&Position { x: 0, y: 0 }, &Position { x: 1, y: 2 }));
    assert!(!b.can_delete_range(&Position { x: 2, y: 0 }, &Position { x: 0, y: 0 }));
}

#[test]
fn buffer_set_saved_clears_modified() {
    let mut b = buffer(&["a"]);
    b.insert(&Position { x: 0, y: 0 }, 'b');
    assert!(b.is_modified());
    b.set_saved();
    assert!(!b.is_modified());
    assert_eq!(rows_of(&b), vec!["ba"]);
}

#[test]
fn document_counts_lines() {
    let mut d = Document::new();
    assert_eq!(d.rows(), 0);
    assert_eq!(d.chars(), 0);
    d.add_line("a b\tc".to_string());
    d.add_line("äh".to_string());
    assert_eq!(d.rows(), 2);
    assert_eq!(d.chars(), 7);
    let mut e1 = Document::new();
    e1.add_line("é".to_string());
    assert_eq!(e1.chars(), 1);
    assert_eq!(d.content(1).unwrap(), "äh");
    assert_eq!(d.text(), "a b\tcäh");
    assert_eq!(Document::new().text(), "");
    assert!(d.content(2).is_none());
    assert_eq!(count_ascii_whitespace(" x \r\n"), 4);
    d.set_filename("f.txt");
    assert_eq!(d.rows(), 2);
    let e = Document::default();
    assert_eq!(e.rows(), 0);
}
