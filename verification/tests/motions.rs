use vicore::EditorSession;
use vicore::JumpCommand;
use vicore::MoveCommand;

fn chars(s: &str) -> Vec<char> {
    s.chars().collect()
}

fn session(cols: usize, rows: usize, lines: &[&str]) -> EditorSession {
    let lines: Vec<Vec<char>> = lines.iter().map(|l| chars(l)).collect();
    EditorSession::new(cols, rows, &lines)
}

#[test]
fn end_of_line_and_line_start() {
    // One row "hello": `$` puts the cursor one past the last character,
    // `0` puts it back at column zero.
    let mut s = session(80, 24, &["hello"]);
    assert_eq!(s.cursor_col(), 0);
    s.apply_move(MoveCommand::LineEnd);
    assert_eq!(s.cursor_col(), 5);
    s.apply_move(MoveCommand::LineStart);
    assert_eq!(s.cursor_col(), 0);
}

#[test]
fn sticky_column_remembered_across_short_line() {
    let mut s = session(80, 24, &["aaaaaaaaaa", "bb", "cccccccccccccccccccc"]);
    for _ in 0..5 {
        s.apply_move(MoveCommand::Right);
    }
    assert_eq!(s.cursor_col(), 5);
    assert_eq!(s.sticky_col(), 5);
    s.apply_move(MoveCommand::Down);
    assert_eq!(s.cursor_row(), 1);
    assert_eq!(s.cursor_col(), 1);
    assert_eq!(s.sticky_col(), 5);
    s.apply_move(MoveCommand::Down);
    assert_eq!(s.cursor_row(), 2);
    assert_eq!(s.cursor_col(), 5);
    assert_eq!(s.sticky_col(), 5);
}

#[test]
fn single_row_buffer_clamps_every_motion() {
    let moves = [
        MoveCommand::Left,
        MoveCommand::BackspaceLeft,
        MoveCommand::Down,
        MoveCommand::Up,
        MoveCommand::Right,
        MoveCommand::LineEnd,
        MoveCommand::LineStart,
        MoveCommand::FirstNonBlank,
    ];
    for m in moves {
        let mut s = session(80, 24, &["only"]);
        s.apply_move(m);
        assert_eq!(s.cursor_row(), 0);
    }
    let jumps = [
        JumpCommand::High,
        JumpCommand::Low,
        JumpCommand::HalfDown,
        JumpCommand::HalfUp,
        JumpCommand::FullDown,
        JumpCommand::FullUp,
    ];
    for j in jumps {
        let mut s = session(80, 24, &["only"]);
        s.apply_jump(j);
        assert_eq!(s.cursor_row(), 0);
        assert_eq!(s.row_offset(), 0);
    }
}

#[test]
fn low_on_short_buffer_lands_on_last_row() {
    // Buffer shorter than the screen, viewport at the top: `L` lands on
    // the last row.
    let mut s = session(80, 24, &["a", "b", "c"]);
    s.apply_jump(JumpCommand::Low);
    assert_eq!(s.cursor_row(), 2);
    assert_eq!(s.row_offset(), 0);
}

#[test]
fn half_page_down_twice_through_a_long_buffer() {
    // 100 empty rows on a 20-row screen: each half-page jump advances the
    // cursor and the offset by ten rows while the end of the buffer stays
    // more than a screen below the offset.
    let lines: Vec<&str> = std::iter::repeat("").take(100).collect();
    let mut s = session(80, 20, &lines);
    s.apply_jump(JumpCommand::HalfDown);
    assert_eq!(s.cursor_row(), 10);
    assert_eq!(s.row_offset(), 10);
    s.apply_jump(JumpCommand::HalfDown);
    assert_eq!(s.cursor_row(), 20);
    assert_eq!(s.row_offset(), 20);
}

#[test]
fn half_page_up_clamps_at_the_top() {
    let lines: Vec<&str> = std::iter::repeat("x").take(100).collect();
    let mut s = session(80, 20, &lines);
    s.apply_jump(JumpCommand::HalfDown);
    s.apply_jump(JumpCommand::HalfUp);
    assert_eq!(s.cursor_row(), 0);
    assert_eq!(s.row_offset(), 0);
    s.apply_jump(JumpCommand::HalfUp);
    assert_eq!(s.cursor_row(), 0);
    assert_eq!(s.row_offset(), 0);
}

#[test]
fn high_moves_to_top_of_viewport() {
    let lines: Vec<&str> = std::iter::repeat("x").take(100).collect();
    let mut s = session(80, 20, &lines);
    s.apply_jump(JumpCommand::HalfDown);
    s.apply_jump(JumpCommand::HalfDown);
    assert_eq!(s.row_offset(), 20);
    s.apply_jump(JumpCommand::High);
    assert_eq!(s.cursor_row(), 20);
    assert_eq!(s.row_offset(), 20);
}

#[test]
fn full_page_down_lands_one_above_the_new_offset() {
    let lines: Vec<&str> = std::iter::repeat("x").take(100).collect();
    let mut s = session(80, 20, &lines);
    s.apply_jump(JumpCommand::FullDown);
    // The offset advances a full page minus one and the cursor lands one
    // row above it; reconciliation then pulls the offset back onto the
    // cursor.
    assert_eq!(s.cursor_row(), 18);
    assert_eq!(s.row_offset(), 18);
}

#[test]
fn full_page_down_near_the_end_lands_on_eof() {
    let lines: Vec<&str> = std::iter::repeat("x").take(20).collect();
    let mut s = session(80, 20, &lines);
    s.apply_jump(JumpCommand::FullDown);
    assert_eq!(s.cursor_row(), 19);
    assert_eq!(s.row_offset(), 19);
}

#[test]
fn full_page_up_from_the_top_stays_put() {
    let lines: Vec<&str> = std::iter::repeat("x").take(100).collect();
    let mut s = session(80, 20, &lines);
    s.apply_move(MoveCommand::Down);
    s.apply_move(MoveCommand::Down);
    s.apply_jump(JumpCommand::FullUp);
    assert_eq!(s.cursor_row(), 2);
    assert_eq!(s.row_offset(), 0);
}

#[test]
fn full_page_up_moves_toward_the_top_of_the_new_page() {
    let lines: Vec<&str> = std::iter::repeat("x").take(100).collect();
    let mut s = session(80, 20, &lines);
    s.apply_jump(JumpCommand::HalfDown);
    s.apply_jump(JumpCommand::HalfDown);
    assert_eq!(s.cursor_row(), 20);
    assert_eq!(s.row_offset(), 20);
    s.apply_jump(JumpCommand::FullUp);
    // The cursor moves to one below the old offset and the offset
    // retreats a full screen; reconciliation then brings the cursor row
    // back into view.
    assert_eq!(s.cursor_row(), 21);
    assert_eq!(s.row_offset(), 2);
}

#[test]
fn down_and_up_walk_rows() {
    let mut s = session(80, 24, &["a", "b", "c"]);
    s.apply_move(MoveCommand::Down);
    assert_eq!(s.cursor_row(), 1);
    s.apply_move(MoveCommand::Down);
    assert_eq!(s.cursor_row(), 2);
    s.apply_move(MoveCommand::Down);
    assert_eq!(s.cursor_row(), 2);
    s.apply_move(MoveCommand::Up);
    assert_eq!(s.cursor_row(), 1);
}

#[test]
fn left_stops_at_column_zero() {
    let mut s = session(80, 24, &["ab"]);
    s.apply_move(MoveCommand::Right);
    assert_eq!(s.cursor_col(), 1);
    s.apply_move(MoveCommand::Left);
    assert_eq!(s.cursor_col(), 0);
    s.apply_move(MoveCommand::Left);
    assert_eq!(s.cursor_col(), 0);
}

#[test]
fn backspace_at_column_zero_goes_to_end_of_previous_row() {
    let mut s = session(80, 24, &["abcd", "xy"]);
    s.apply_move(MoveCommand::Down);
    assert_eq!(s.cursor_row(), 1);
    s.apply_move(MoveCommand::BackspaceLeft);
    // relocates to the previous row; the column reclamps to the last
    // render column.
    assert_eq!(s.cursor_row(), 0);
    assert_eq!(s.cursor_col(), 3);
}

#[test]
fn right_does_not_walk_past_the_render_width() {
    let mut s = session(80, 24, &["ab"]);
    for _ in 0..5 {
        s.apply_move(MoveCommand::Right);
    }
    assert_eq!(s.cursor_col(), 1);
}

#[test]
fn first_non_blank_finds_the_first_content_column() {
    let mut s = session(80, 24, &["   three"]);
    s.apply_move(MoveCommand::FirstNonBlank);
    assert_eq!(s.cursor_col(), 3);
    let mut all_blank = session(80, 24, &[" \t "]);
    all_blank.apply_move(MoveCommand::FirstNonBlank);
    assert_eq!(all_blank.cursor_col(), 0);
    let mut unicode_blank = session(80, 24, &["\u{a0}\u{2003}x"]);
    unicode_blank.apply_move(MoveCommand::FirstNonBlank);
    assert_eq!(unicode_blank.cursor_col(), 2);
}

#[test]
fn vertical_scroll_follows_the_cursor() {
    let lines: Vec<&str> = std::iter::repeat("x").take(30).collect();
    let mut s = session(80, 10, &lines);
    for _ in 0..9 {
        s.apply_move(MoveCommand::Down);
    }
    assert_eq!(s.row_offset(), 0);
    s.apply_move(MoveCommand::Down);
    assert_eq!(s.cursor_row(), 10);
    assert_eq!(s.row_offset(), 1);
}

#[test]
fn horizontal_scroll_follows_the_cursor() {
    let mut s = session(10, 24, &["abcdefghijklmnop"]);
    for _ in 0..9 {
        s.apply_move(MoveCommand::Right);
    }
    assert_eq!(s.col_offset(), 0);
    s.apply_move(MoveCommand::Right);
    assert_eq!(s.cursor_col(), 10);
    assert_eq!(s.col_offset(), 1);
}
