use edit::text::{join, split};
use edit::{Buffer, FileWrite, SaveError};

fn buffer_of(content: &str) -> Buffer {
    Buffer::from_file("/tmp/file.txt", content)
}

fn lines_of(buf: &Buffer) -> Vec<&str> {
    buf.lines.iter().map(|line| line.as_str()).collect()
}

#[test]
fn split_cuts_at_line_feeds() {
    assert_eq!(split("foo\nbar"), vec!["foo".to_string(), "bar".to_string()]);
    assert_eq!(split("foo\nbar\n"), vec!["foo".to_string(), "bar".to_string()]);
    assert_eq!(split("\n"), vec!["".to_string()]);
    assert_eq!(split("\n\n"), vec!["".to_string(), "".to_string()]);
    assert_eq!(split("a\n\nb"), vec!["a".to_string(), "".to_string(), "b".to_string()]);
    assert_eq!(split("single"), vec!["single".to_string()]);
}

#[test]
fn split_of_empty_text_has_no_line() {
    assert_eq!(split(""), Vec::<String>::new());
}

#[test]
fn split_drops_carriage_return_before_line_feed() {
    assert_eq!(split("foo\r\nbar\r\n"), vec!["foo".to_string(), "bar".to_string()]);
    assert_eq!(split("\r\n"), vec!["".to_string()]);
    assert_eq!(split("a\r\r\nb"), vec!["a\r".to_string(), "b".to_string()]);
}

#[test]
fn split_keeps_other_carriage_returns() {
    assert_eq!(split("foo\rbar"), vec!["foo\rbar".to_string()]);
    assert_eq!(split("foo\r"), vec!["foo\r".to_string()]);
    assert_eq!(split("a\nb\r"), vec!["a".to_string(), "b\r".to_string()]);
}

#[test]
fn split_agrees_with_std_lines() {
    for text in ["", "a", "a\n", "a\r\n", "\n\na\r\n\r\nb", "x\ry\n\rz\r", "é\nüber\r\n日本語"] {
        let expected: Vec<String> = text.lines().map(|line| line.to_string()).collect();
        assert_eq!(split(text), expected);
    }
}

#[test]
fn split_counts_characters_not_bytes() {
    assert_eq!(split("é\r\nü\n日本"), vec!["é".to_string(), "ü".to_string(), "日本".to_string()]);
}

#[test]
fn join_puts_one_line_feed_between_lines() {
    assert_eq!(join(&vec!["foo".to_string(), "bar".to_string()]), "foo\nbar");
    assert_eq!(join(&vec!["only".to_string()]), "only");
    assert_eq!(join(&vec!["".to_string(), "".to_string()]), "\n");
    assert_eq!(join(&Vec::new()), "");
    assert_eq!(join(&vec!["a".to_string(), "".to_string(), "b".to_string()]), "a\n\nb");
}

#[test]
fn from_file_starts_at_the_origin() {
    let buf = buffer_of("foo\nbar\n");
    assert_eq!(lines_of(&buf), vec!["foo", "bar"]);
    assert_eq!(buf.cursor_line, 0);
    assert_eq!(buf.cursor_char, 0);
    assert!(!buf.append);
    assert_eq!(buf.filename.as_deref(), Some("/tmp/file.txt"));
}

#[test]
fn from_file_of_empty_content_has_one_empty_line() {
    let buf = buffer_of("");
    assert_eq!(lines_of(&buf), vec![""]);
    assert_eq!((buf.cursor_line, buf.cursor_char), (0, 0));
    assert!(buf.is_current_line_empty());
}

#[test]
fn default_buffer_is_unbacked_with_one_empty_line() {
    let buf = Buffer::default();
    assert_eq!(lines_of(&buf), vec![""]);
    assert_eq!(buf.filename, None);
    assert_eq!((buf.cursor_line, buf.cursor_char), (0, 0));
    assert!(!buf.append);
}

#[test]
fn save_round_trip() {
    let buf = buffer_of("foo\nbar");
    assert_eq!(lines_of(&buf), vec!["foo", "bar"]);
    let write: FileWrite = buf.save_to_own_file().unwrap();
    assert_eq!(write.content, "foo\nbar");
    assert_eq!(write.path, "/tmp/file.txt");
}

#[test]
fn save_adds_no_trailing_line_feed() {
    let buf = buffer_of("foo\nbar\n");
    assert_eq!(buf.save_to_own_file().unwrap().content, "foo\nbar");
}

#[test]
fn save_without_backing_file_is_an_error() {
    let buf = Buffer::default();
    assert_eq!(buf.save_to_own_file().unwrap_err(), SaveError::NoBackingFile);
}

#[test]
fn save_to_file_names_the_given_path() {
    let buf = Buffer::default();
    let write = buf.save_to_file("/tmp/other.txt");
    assert_eq!(write.path, "/tmp/other.txt");
    assert_eq!(write.content, "");
    let buf = buffer_of("a\nb\nc");
    let write = buf.save_to_file("elsewhere");
    assert_eq!(write.path, "elsewhere");
    assert_eq!(write.content, "a\nb\nc");
}

#[test]
fn move_up_on_first_line_stays() {
    let mut buf = buffer_of("ab\ncd");
    buf.move_up();
    assert_eq!(buf.cursor_line, 0);
}

#[test]
fn move_down_on_last_line_stays() {
    let mut buf = buffer_of("ab\ncd");
    buf.move_down();
    assert_eq!(buf.cursor_line, 1);
    buf.move_down();
    assert_eq!(buf.cursor_line, 1);
}

#[test]
fn move_right_stops_on_last_character() {
    let mut buf = buffer_of("abc");
    buf.move_right();
    assert_eq!(buf.cursor_char, 1);
    buf.move_right();
    assert_eq!(buf.cursor_char, 2);
    buf.move_right();
    assert_eq!(buf.cursor_char, 2);
}

#[test]
fn move_right_in_append_goes_one_past_the_end() {
    let mut buf = buffer_of("abc");
    buf.append = true;
    buf.move_right_by(2);
    assert_eq!(buf.cursor_char, 2);
    buf.move_right();
    assert_eq!(buf.cursor_char, 3);
    buf.move_right();
    assert_eq!(buf.cursor_char, 3);
    assert_eq!(buf.current_char(), None);
}

#[test]
fn move_right_by_clamps_large_counts() {
    let mut buf = buffer_of("abcdef");
    buf.move_right_by(3);
    assert_eq!(buf.cursor_char, 3);
    buf.move_right_by(usize::MAX);
    assert_eq!(buf.cursor_char, 5);
    buf.move_right_by(0);
    assert_eq!(buf.cursor_char, 5);
}

#[test]
fn move_left_on_first_column_stays() {
    let mut buf = buffer_of("abc");
    buf.move_left();
    assert_eq!(buf.cursor_char, 0);
    buf.move_right_by(2);
    buf.move_left();
    assert_eq!(buf.cursor_char, 1);
}

#[test]
fn move_on_empty_line_keeps_column_zero() {
    let mut buf = buffer_of("\n");
    buf.move_right();
    assert_eq!(buf.cursor_char, 0);
    buf.move_end_line();
    assert_eq!(buf.cursor_char, 0);
    buf.append = true;
    buf.move_right();
    assert_eq!(buf.cursor_char, 0);
}

#[test]
fn vertical_motion_clamps_the_column() {
    let mut buf = buffer_of("abcdef\nab\n\nabcd");
    buf.move_end_line();
    assert_eq!((buf.cursor_line, buf.cursor_char), (0, 5));
    buf.move_down();
    assert_eq!((buf.cursor_line, buf.cursor_char), (1, 1));
    buf.move_down();
    assert_eq!((buf.cursor_line, buf.cursor_char), (2, 0));
    buf.move_down();
    assert_eq!((buf.cursor_line, buf.cursor_char), (3, 0));
    buf.move_end_line();
    buf.move_up();
    assert_eq!((buf.cursor_line, buf.cursor_char), (2, 0));
}

#[test]
fn move_top_and_bot_reach_the_borders() {
    let mut buf = buffer_of("a\nb\nc\nd");
    buf.move_bot();
    assert_eq!(buf.cursor_line, 3);
    buf.move_bot();
    assert_eq!(buf.cursor_line, 3);
    buf.move_top();
    assert_eq!(buf.cursor_line, 0);
    buf.move_top();
    assert_eq!(buf.cursor_line, 0);
}

#[test]
fn move_start_and_end_of_line() {
    let mut buf = buffer_of("hello");
    buf.move_end_line();
    assert_eq!(buf.cursor_char, 4);
    assert_eq!(buf.current_char(), Some('o'));
    buf.move_start_line();
    assert_eq!(buf.cursor_char, 0);
    assert_eq!(buf.current_char(), Some('h'));
}

#[test]
fn motions_mend_a_cursor_outside_the_document() {
    let mut buf = buffer_of("ab\ncd");
    buf.cursor_line = 40;
    buf.cursor_char = 70;
    buf.move_left();
    assert_eq!((buf.cursor_line, buf.cursor_char), (1, 1));
    buf.cursor_line = usize::MAX;
    buf.cursor_char = usize::MAX;
    buf.move_down();
    assert_eq!((buf.cursor_line, buf.cursor_char), (1, 1));
    buf.cursor_line = usize::MAX;
    buf.cursor_char = usize::MAX;
    buf.move_right();
    assert_eq!((buf.cursor_line, buf.cursor_char), (1, 1));
    buf.cursor_line = 9;
    buf.move_end_line();
    assert_eq!((buf.cursor_line, buf.cursor_char), (1, 1));
}

#[test]
fn check_cursor_clamps_line_then_column() {
    let mut buf = buffer_of("abc\nd");
    buf.cursor_line = 5;
    buf.cursor_char = 2;
    buf.check_cursor();
    assert_eq!((buf.cursor_line, buf.cursor_char), (1, 0));
    buf.append = true;
    buf.cursor_char = 9;
    buf.check_cursor();
    assert_eq!((buf.cursor_line, buf.cursor_char), (1, 1));
    buf.append = false;
    buf.check_cursor();
    assert_eq!((buf.cursor_line, buf.cursor_char), (1, 0));
}

#[test]
fn current_char_reads_by_character_position() {
    let mut buf = buffer_of("héllo");
    buf.move_right();
    assert_eq!(buf.current_char(), Some('é'));
    buf.move_right();
    assert_eq!(buf.current_char(), Some('l'));
    assert_eq!(buf.cursor_char, 2);
}

#[test]
fn current_char_of_empty_line_is_none() {
    let buf = buffer_of("");
    assert_eq!(buf.current_char(), None);
    assert!(buf.is_current_line_empty());
    let buf = buffer_of("x");
    assert_eq!(buf.current_char(), Some('x'));
    assert!(!buf.is_current_line_empty());
}

#[test]
fn insert_splices_at_the_cursor_and_keeps_it() {
    let mut buf = buffer_of("ab");
    buf.move_right();
    buf.insert("XY");
    assert_eq!(lines_of(&buf), vec!["aXYb"]);
    assert_eq!((buf.cursor_line, buf.cursor_char), (0, 1));
    buf.move_start_line();
    buf.insert("");
    assert_eq!(lines_of(&buf), vec!["aXYb"]);
    buf.insert("_");
    assert_eq!(lines_of(&buf), vec!["_aXYb"]);
}

#[test]
fn insert_counts_characters_not_bytes() {
    let mut buf = buffer_of("日本語");
    buf.move_right_by(2);
    buf.insert("é");
    assert_eq!(lines_of(&buf), vec!["日本é語"]);
    assert_eq!(buf.current_char(), Some('é'));
}

#[test]
fn insert_touches_only_the_cursor_line() {
    let mut buf = buffer_of("one\ntwo\nthree");
    buf.move_down();
    buf.move_right_by(3);
    buf.insert("-");
    assert_eq!(lines_of(&buf), vec!["one", "tw-o", "three"]);
}

#[test]
fn insert_past_the_end_in_append() {
    let mut buf = buffer_of("ab");
    buf.append = true;
    buf.move_right_by(2);
    buf.insert("!");
    assert_eq!(lines_of(&buf), vec!["ab!"]);
    assert_eq!(buf.cursor_char, 2);
}

#[test]
fn delete_char_removes_the_character_under_the_cursor() {
    let mut buf = buffer_of("abc");
    buf.move_right();
    buf.delete_char();
    assert_eq!(lines_of(&buf), vec!["ac"]);
    assert_eq!(buf.cursor_char, 1);
    buf.delete_char();
    assert_eq!(lines_of(&buf), vec!["a"]);
    assert_eq!(buf.cursor_char, 0);
    buf.delete_char();
    assert_eq!(lines_of(&buf), vec![""]);
    assert_eq!(buf.cursor_char, 0);
}

#[test]
fn delete_char_on_empty_line_does_nothing() {
    let mut buf = buffer_of("\nx");
    buf.delete_char();
    assert_eq!(lines_of(&buf), vec!["", "x"]);
    assert_eq!((buf.cursor_line, buf.cursor_char), (0, 0));
}

#[test]
fn delete_char_past_the_end_does_nothing() {
    let mut buf = buffer_of("ab");
    buf.append = true;
    buf.move_right_by(2);
    buf.delete_char();
    assert_eq!(lines_of(&buf), vec!["ab"]);
    assert_eq!(buf.cursor_char, 2);
}

#[test]
fn delete_char_counts_characters_not_bytes() {
    let mut buf = buffer_of("aéb");
    buf.move_right();
    buf.delete_char();
    assert_eq!(lines_of(&buf), vec!["ab"]);
}

#[test]
fn delete_line_removes_the_cursor_line() {
    let mut buf = buffer_of("one\ntwo\nthree");
    buf.move_down();
    buf.delete_line();
    assert_eq!(lines_of(&buf), vec!["one", "three"]);
    assert_eq!(buf.cursor_line, 1);
    buf.delete_line();
    assert_eq!(lines_of(&buf), vec!["one"]);
    assert_eq!(buf.cursor_line, 0);
}

#[test]
fn delete_line_clamps_the_column() {
    let mut buf = buffer_of("abcdef\nab");
    buf.move_end_line();
    buf.delete_line();
    assert_eq!(lines_of(&buf), vec!["ab"]);
    assert_eq!((buf.cursor_line, buf.cursor_char), (0, 1));
}

#[test]
fn delete_line_empties_the_only_line() {
    let mut buf = buffer_of("only");
    buf.move_end_line();
    buf.delete_line();
    assert_eq!(lines_of(&buf), vec![""]);
    assert_eq!((buf.cursor_line, buf.cursor_char), (0, 0));
    buf.delete_line();
    assert_eq!(lines_of(&buf), vec![""]);
}

#[test]
fn newline_above_keeps_the_line_index() {
    let mut buf = buffer_of("one\ntwo");
    buf.move_down();
    buf.move_right();
    buf.newline_above();
    assert_eq!(lines_of(&buf), vec!["one", "", "two"]);
    assert_eq!((buf.cursor_line, buf.cursor_char), (1, 0));
}

#[test]
fn newline_below_keeps_the_cursor() {
    let mut buf = buffer_of("one\ntwo");
    buf.move_right();
    buf.newline_below();
    assert_eq!(lines_of(&buf), vec!["one", "", "two"]);
    assert_eq!((buf.cursor_line, buf.cursor_char), (0, 1));
    buf.move_bot();
    buf.newline_below();
    assert_eq!(lines_of(&buf), vec!["one", "", "two", ""]);
    assert_eq!(buf.cursor_line, 2);
}
