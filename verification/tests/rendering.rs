use vicore::EditorSession;
use vicore::MoveCommand;
use vicore::Row;
use vicore::TextBuffer;
use vicore::ViewportController;
use vicore::render::render_screen;

fn chars(s: &str) -> Vec<char> {
    s.chars().collect()
}

fn text(l: &[char]) -> String {
    l.iter().collect()
}

fn session(cols: usize, rows: usize, lines: &[&str]) -> EditorSession {
    let lines: Vec<Vec<char>> = lines.iter().map(|l| chars(l)).collect();
    EditorSession::new(cols, rows, &lines)
}

#[test]
fn tab_expands_to_the_next_tab_stop() {
    // "a\tb" renders as "a   b": the tab pads the width from one to four.
    let row = Row::new(chars("a\tb"));
    assert_eq!(text(row.rendered()), "a   b");
    assert_eq!(row.logical_to_render_col(2), 4);
}

#[test]
fn tab_at_a_stop_boundary_emits_a_full_stop() {
    let row = Row::new(chars("abcd\tx"));
    assert_eq!(text(row.rendered()), "abcd    x");
    let row = Row::new(chars("\t"));
    assert_eq!(text(row.rendered()), "    ");
}

#[test]
fn logical_to_render_col_walks_tabs() {
    let row = Row::new(chars("\t\ta"));
    assert_eq!(row.logical_to_render_col(0), 0);
    assert_eq!(row.logical_to_render_col(1), 4);
    assert_eq!(row.logical_to_render_col(2), 8);
    assert_eq!(row.logical_to_render_col(3), 9);
    // columns past the end clamp to the full width
    assert_eq!(row.logical_to_render_col(99), 9);
}

#[test]
fn reconcile_is_idempotent() {
    let mut vp = ViewportController::new(10, 5);
    vp.reconcile(12, 30);
    assert_eq!(vp.row_offset, 8);
    assert_eq!(vp.col_offset, 21);
    let before = vp;
    vp.reconcile(12, 30);
    assert_eq!(vp.row_offset, before.row_offset);
    assert_eq!(vp.col_offset, before.col_offset);
}

#[test]
fn reconcile_scrolls_up_exactly_to_the_cursor() {
    let mut vp = ViewportController::new(10, 5);
    vp.reconcile(12, 0);
    assert_eq!(vp.row_offset, 8);
    vp.reconcile(3, 0);
    assert_eq!(vp.row_offset, 3);
}

#[test]
fn screen_translation_subtracts_the_offsets() {
    let mut vp = ViewportController::new(10, 5);
    vp.reconcile(12, 30);
    assert_eq!(vp.screen_row_for(12), 4);
    assert_eq!(vp.screen_col_for(30), 9);
}

#[test]
fn gutter_shows_absolute_number_on_cursor_row_and_distance_elsewhere() {
    let s = session(80, 5, &["one", "two", "three"]);
    let screen = s.render(&chars("hello"));
    assert_eq!(screen.len(), 5);
    assert_eq!(text(&screen[0]), "1  one");
    assert_eq!(text(&screen[1]), " 1 two");
    assert_eq!(text(&screen[2]), " 2 three");
    assert_eq!(text(&screen[3]), "~");
    assert_eq!(text(&screen[4]), "~");
}

#[test]
fn gutter_follows_the_cursor() {
    let mut s = session(80, 4, &["one", "two", "three"]);
    s.apply_move(MoveCommand::Down);
    let screen = s.render(&chars(""));
    assert_eq!(text(&screen[0]), " 1 one");
    assert_eq!(text(&screen[1]), "2  two");
    assert_eq!(text(&screen[2]), " 1 three");
}

#[test]
fn gutter_width_grows_with_the_row_count() {
    let lines: Vec<&str> = std::iter::repeat("x").take(12).collect();
    let s = session(80, 3, &lines);
    let screen = s.render(&chars(""));
    // 12 rows: the gutter pads to three columns and one more space.
    assert_eq!(text(&screen[0]), "1   x");
    assert_eq!(text(&screen[1]), "  1 x");
}

#[test]
fn content_is_clipped_to_the_screen_width() {
    let s = session(5, 2, &["abcdefgh"]);
    let screen = s.render(&chars(""));
    assert_eq!(text(&screen[0]), "1  abcde");
}

#[test]
fn content_is_sliced_under_the_column_offset() {
    let mut s = session(5, 2, &["abcdefgh"]);
    for _ in 0..7 {
        s.apply_move(MoveCommand::Right);
    }
    assert_eq!(s.col_offset(), 3);
    let screen = s.render(&chars(""));
    assert_eq!(text(&screen[0]), "1  defgh");
}

#[test]
fn empty_buffer_shows_the_welcome_banner() {
    let buf = TextBuffer::new();
    let vp = ViewportController::new(20, 6);
    let screen = render_screen(&buf, 0, &vp, &chars("VICORE"));
    assert_eq!(screen.len(), 6);
    assert_eq!(text(&screen[0]), "~");
    assert_eq!(text(&screen[1]), "~");
    assert_eq!(text(&screen[2]), "~      VICORE");
    assert_eq!(text(&screen[3]), "~");
}

#[test]
fn wide_banner_is_clipped() {
    let buf = TextBuffer::new();
    let vp = ViewportController::new(4, 3);
    let screen = render_screen(&buf, 0, &vp, &chars("abcdefgh"));
    assert_eq!(text(&screen[1]), "abcd");
}

#[test]
fn cursor_screen_position_sits_past_the_gutter() {
    let mut s = session(80, 24, &["hello"]);
    assert_eq!(s.cursor_screen_position(), (3, 0));
    s.apply_move(MoveCommand::LineEnd);
    assert_eq!(s.cursor_screen_position(), (8, 0));
}

#[test]
fn cursor_screen_position_is_tab_aware() {
    let mut s = session(80, 24, &["a\tb"]);
    s.apply_move(MoveCommand::Right);
    s.apply_move(MoveCommand::Right);
    assert_eq!(s.cursor_col(), 2);
    // logical column two sits at render column four; the gutter is two
    // wide plus its trailing space.
    assert_eq!(s.cursor_screen_position(), (7, 0));
}
