use vicore::EditorError;
use vicore::EditorSession;
use vicore::MoveCommand;
use vicore::Row;
use vicore::TextBuffer;
use vicore::text::split_text;

fn chars(s: &str) -> Vec<char> {
    s.chars().collect()
}

fn text(l: &[char]) -> String {
    l.iter().collect()
}

fn strings(lines: &[Vec<char>]) -> Vec<String> {
    lines.iter().map(|l| text(l)).collect()
}

fn session(cols: usize, rows: usize, lines: &[&str]) -> EditorSession {
    let lines: Vec<Vec<char>> = lines.iter().map(|l| chars(l)).collect();
    EditorSession::new(cols, rows, &lines)
}

#[test]
fn load_then_save_round_trips() {
    // Loading a file with lines "foo" and "bar\tbaz" and saving without
    // modification reproduces the content joined by a newline.
    let source = "foo\nbar\tbaz";
    let lines = split_text(&chars(source));
    assert_eq!(strings(&lines), ["foo", "bar\tbaz"]);
    let s = EditorSession::new(80, 24, &lines);
    assert_eq!(text(&s.save_content()), source);
}

#[test]
fn split_keeps_interior_empty_lines() {
    let lines = split_text(&chars("a\n\nb"));
    assert_eq!(strings(&lines), ["a", "", "b"]);
}

#[test]
fn split_of_empty_text_has_no_lines() {
    assert_eq!(split_text(&chars("")).len(), 0);
}

#[test]
fn final_newline_closes_the_last_line() {
    let lines = split_text(&chars("a\nb\n"));
    assert_eq!(strings(&lines), ["a", "b"]);
    let lines = split_text(&chars("\n"));
    assert_eq!(strings(&lines), [""]);
}

#[test]
fn carriage_return_newline_is_one_separator() {
    let lines = split_text(&chars("a\r\nb"));
    assert_eq!(strings(&lines), ["a", "b"]);
}

#[test]
fn lone_carriage_return_is_content() {
    let lines = split_text(&chars("a\rb"));
    assert_eq!(strings(&lines), ["a\rb"]);
}

#[test]
fn typing_into_an_empty_session() {
    let mut s = EditorSession::new(80, 24, &Vec::new());
    assert_eq!(s.row_count(), 1);
    assert!(s.insert_char('h').is_ok());
    assert!(s.insert_char('i').is_ok());
    assert_eq!(s.cursor_col(), 2);
    assert_eq!(text(&s.save_content()), "hi");
}

#[test]
fn insertion_sets_and_save_clears_the_dirty_flag() {
    let mut s = session(80, 24, &["abc"]);
    assert!(!s.is_dirty());
    assert!(s.insert_char('x').is_ok());
    assert!(s.is_dirty());
    assert_eq!(text(&s.save_content()), "xabc");
    s.mark_saved();
    assert!(!s.is_dirty());
}

#[test]
fn insertion_happens_at_the_cursor() {
    let mut s = session(80, 24, &["hllo"]);
    s.apply_move(MoveCommand::Right);
    assert!(s.insert_char('e').is_ok());
    assert_eq!(text(&s.save_content()), "hello");
    assert_eq!(s.cursor_col(), 2);
}

#[test]
fn insertion_past_the_content_is_an_error() {
    // A tab-only row renders four columns wide, so the sticky column can
    // carry the cursor past the row's single content character; insertion
    // there is a caller error, not a silent clamp.
    let mut s = session(80, 24, &["\t", "xxxx"]);
    s.apply_move(MoveCommand::Down);
    for _ in 0..3 {
        s.apply_move(MoveCommand::Right);
    }
    assert_eq!(s.cursor_col(), 3);
    s.apply_move(MoveCommand::Up);
    assert_eq!(s.cursor_row(), 0);
    assert_eq!(s.cursor_col(), 3);
    assert_eq!(s.insert_char('z'), Err(EditorError::IndexOutOfRange));
    assert!(!s.is_dirty());
    assert_eq!(text(&s.save_content()), "\t\nxxxx");
}

#[test]
fn row_access_is_bounds_checked() {
    let lines = vec![chars("a")];
    let buf = TextBuffer::from_lines(&lines);
    assert!(buf.get(0).is_ok());
    assert!(matches!(buf.get(1), Err(EditorError::RowOutOfRange)));
}

#[test]
fn buffer_insert_rejects_bad_coordinates() {
    let lines = vec![chars("ab")];
    let mut buf = TextBuffer::from_lines(&lines);
    assert_eq!(buf.insert_char(5, 0, 'x'), Err(EditorError::RowOutOfRange));
    assert_eq!(buf.insert_char(0, 3, 'x'), Err(EditorError::IndexOutOfRange));
    assert_eq!(buf.insert_char(0, 2, 'x'), Ok(()));
    assert_eq!(text(buf.get(0).unwrap().content()), "abx");
}

#[test]
fn row_insert_regenerates_the_render() {
    let mut row = Row::new(chars("ab"));
    assert_eq!(row.insert_char(1, '\t'), Ok(()));
    assert_eq!(text(row.content()), "a\tb");
    assert_eq!(text(row.rendered()), "a   b");
    assert_eq!(
        row.insert_char(9, 'x'),
        Err(EditorError::IndexOutOfRange)
    );
    assert_eq!(text(row.content()), "a\tb");
}

#[test]
fn session_line_access_is_bounds_checked() {
    let s = session(80, 24, &["one", "two"]);
    assert_eq!(text(s.line(1).unwrap()), "two");
    assert!(matches!(s.line(2), Err(EditorError::RowOutOfRange)));
}

#[test]
fn appending_an_empty_row() {
    let lines = vec![chars("a")];
    let mut buf = TextBuffer::from_lines(&lines);
    buf.append_empty_row();
    assert_eq!(buf.row_count(), 2);
    assert_eq!(buf.render_width(1), 0);
    assert_eq!(buf.render_width(0), 1);
    assert_eq!(buf.render_width(7), 0);
}
