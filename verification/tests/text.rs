use jjkk::buffer::TextBuffer;
use jjkk::text::{
    char_is_whitespace, chars_of, contains, decimal, find, is_blank_text, joined, lines, rfind,
    same_text, trim,
};

#[test]
fn whitespace_covers_the_unicode_property() {
    for c in [' ', '\t', '\n', '\r', '\u{0b}', '\u{0c}', '\u{85}', '\u{a0}', '\u{1680}', '\u{2000}',
        '\u{200a}', '\u{2028}', '\u{2029}', '\u{202f}', '\u{205f}', '\u{3000}']
    {
        assert!(char_is_whitespace(c), "{:?}", c);
        assert!(c.is_whitespace());
    }
    for c in ['a', '0', '\u{200b}', '\u{feff}', '\u{1c}', '\u{180e}', '_'] {
        assert!(!char_is_whitespace(c), "{:?}", c);
        assert!(!c.is_whitespace());
    }
}

#[test]
fn whitespace_agrees_with_std_on_every_char() {
    let mut code: u32 = 0;
    while code <= 0x10ffff {
        if let Some(c) = char::from_u32(code) {
            assert_eq!(char_is_whitespace(c), c.is_whitespace(), "U+{:04X}", code);
        }
        code += 1;
    }
}

#[test]
fn trim_removes_both_ends_only() {
    assert_eq!(trim("  hello world \n"), "hello world");
    assert_eq!(trim("hello"), "hello");
    assert_eq!(trim(""), "");
    assert_eq!(trim(" \t\r\n"), "");
    assert_eq!(trim("\u{3000}caf\u{e9} au lait\u{a0}"), "caf\u{e9} au lait");
    assert_eq!(trim(" a "), " a ".trim());
}

#[test]
fn blank_text_is_empty_or_whitespace() {
    assert!(is_blank_text(""));
    assert!(is_blank_text("   "));
    assert!(is_blank_text("\n\t \u{2003}"));
    assert!(!is_blank_text(" x "));
    assert!(!is_blank_text("\u{200b}"));
}

#[test]
fn contains_finds_runs_of_characters() {
    assert!(contains("main-2", "main"));
    assert!(contains("main", "main"));
    assert!(contains("main", ""));
    assert!(contains("", ""));
    assert!(!contains("", "a"));
    assert!(!contains("dev", "main"));
    assert!(contains("xxmain", "main"));
    assert!(!contains("mai", "main"));
    assert!(contains("na\u{ef}ve caf\u{e9}", "\u{ef}ve c"));
    assert!(!contains("aab", "aba"));
    assert!(contains("aaab", "aab"));
}

#[test]
fn chars_of_gives_the_characters_in_order() {
    assert_eq!(chars_of("a\u{e9}\u{4e16}"), vec!['a', '\u{e9}', '\u{4e16}']);
    assert_eq!(chars_of(""), Vec::<char>::new());
}

#[test]
fn joined_puts_one_text_after_the_other() {
    assert_eq!(joined("Failed to fetch: ", "no route"), "Failed to fetch: no route");
    assert_eq!(joined("", ""), "");
    assert_eq!(joined("a", ""), "a");
}

#[test]
fn decimal_writes_numbers_without_leading_zeros() {
    assert_eq!(decimal(0), "0");
    assert_eq!(decimal(7), "7");
    assert_eq!(decimal(10), "10");
    assert_eq!(decimal(1234567890), "1234567890");
    assert_eq!(decimal(usize::MAX), usize::MAX.to_string());
}

#[test]
fn find_and_rfind_count_characters_not_bytes() {
    assert_eq!(find("a:b:c", ':'), Some(1));
    assert_eq!(rfind("a:b:c", ':'), Some(3));
    assert_eq!(find("\u{e9}\u{e9}:x", ':'), Some(2));
    assert_eq!(rfind("<\u{4e16}<\u{4e16}", '<'), Some(2));
    assert_eq!(find("abc", ':'), None);
    assert_eq!(rfind("", '<'), None);
}

#[test]
fn lines_split_at_line_feeds_and_drop_carriage_returns() {
    assert_eq!(lines("a\nb\nc"), vec!["a", "b", "c"]);
    assert_eq!(lines("a\nb\n"), vec!["a", "b"]);
    assert_eq!(lines("a\r\nb\r\n"), vec!["a", "b"]);
    assert_eq!(lines("a\n\nb"), vec!["a", "", "b"]);
    assert_eq!(lines("\n"), vec![""]);
    assert_eq!(lines(""), Vec::<String>::new());
    assert_eq!(lines("no newline"), vec!["no newline"]);
    assert_eq!(lines("a\r"), vec!["a\r"]);
    assert_eq!(lines("a\r\r\nb"), vec!["a\r", "b"]);
}

#[test]
fn lines_agree_with_std() {
    for text in ["", "\n", "\r\n", "a", "a\n", "a\r", "a\r\nb", "\n\n", "x\ny\r\n\r\nz\r", "\r"] {
        let expected: Vec<String> = text.lines().map(String::from).collect();
        assert_eq!(lines(text), expected, "{:?}", text);
    }
}

#[test]
fn same_text_compares_by_characters() {
    assert!(same_text("main", "main"));
    assert!(same_text("", ""));
    assert!(!same_text("main", "main-2"));
    assert!(!same_text("main", "maim"));
}

#[test]
fn buffer_inserts_at_the_cursor_in_characters() {
    let mut b = TextBuffer::new();
    b.insert_char('h');
    b.insert_char('\u{e9}');
    b.insert_char('y');
    assert_eq!(b.content, "h\u{e9}y");
    assert_eq!(b.cursor_position, 3);
    b.move_left();
    b.insert_char('\u{4e16}');
    assert_eq!(b.content, "h\u{e9}\u{4e16}y");
    assert_eq!(b.cursor_position, 3);
    b.move_home();
    b.insert_char('>');
    assert_eq!(b.content, ">h\u{e9}\u{4e16}y");
    assert_eq!(b.cursor_position, 1);
}

#[test]
fn buffer_backspace_deletes_left_of_the_cursor() {
    let mut b = TextBuffer::with_text(String::from("a\u{e9}b"));
    assert_eq!(b.cursor_position, 3);
    b.move_left();
    b.backspace();
    assert_eq!(b.content, "ab");
    assert_eq!(b.cursor_position, 1);
    b.backspace();
    assert_eq!(b.content, "b");
    assert_eq!(b.cursor_position, 0);
    b.backspace();
    assert_eq!(b.content, "b");
    assert_eq!(b.cursor_position, 0);
}

#[test]
fn buffer_cursor_stops_at_both_ends() {
    let mut b = TextBuffer::with_text(String::from("\u{e9}\u{e9}"));
    b.move_right();
    assert_eq!(b.cursor_position, 2);
    b.move_left();
    b.move_left();
    b.move_left();
    assert_eq!(b.cursor_position, 0);
    b.move_end();
    assert_eq!(b.cursor_position, 2);
    b.move_home();
    assert_eq!(b.cursor_position, 0);
    b.move_right();
    assert_eq!(b.cursor_position, 1);
    assert_eq!(b.char_count(), 2);
}

#[test]
fn buffer_with_a_cursor_beyond_the_text_edits_at_the_end() {
    let mut b = TextBuffer { content: String::from("ab"), cursor_position: 9 };
    b.insert_char('c');
    assert_eq!(b.content, "abc");
    assert_eq!(b.cursor_position, 3);
    let mut b = TextBuffer { content: String::from("ab"), cursor_position: 9 };
    b.backspace();
    assert_eq!(b.content, "a");
    assert_eq!(b.cursor_position, 1);
}

#[test]
fn insert_then_backspace_restores_the_buffer() {
    let mut b = TextBuffer::with_text(String::from("main"));
    b.move_left();
    b.insert_char('-');
    assert_eq!(b.content, "mai-n");
    b.backspace();
    assert_eq!(b.content, "main");
    assert_eq!(b.cursor_position, 3);
}
