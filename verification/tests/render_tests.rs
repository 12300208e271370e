use kim::buffer::Buffer;
use kim::terminal::{Cursor, TermSize};
use kim::view::{Offset, View};

fn view_over(lines: &[&str], cols: u16, rows: u16) -> View {
    View {
        term_size: TermSize { cols, rows },
        cursor: Cursor { x: 0, y: 0 },
        buffer: Buffer { text: lines.iter().map(|s| s.to_string()).collect() },
        offset: Offset { x: 0, y: 0 },
        needs_redraw: true,
    }
}

#[test]
fn render_round_trip_three_lines() {
    let mut v = view_over(&["a", "", "bc"], 10, 10);
    let rows = v.render().expect("dirty view must repaint");
    assert_eq!(rows.len(), 10);
    assert_eq!(rows[0], "a");
    assert_eq!(rows[1], "");
    assert_eq!(rows[2], "bc");
    for r in 3..10 {
        assert_eq!(rows[r], "~");
    }
}

#[test]
fn render_clamps_line_to_viewport_width() {
    let mut v = view_over(&["abcdefgh"], 5, 2);
    v.offset.x = 3;
    let rows = v.render().expect("dirty view must repaint");
    assert_eq!(rows[0], "defgh");
    assert_eq!(rows[1], "~");
}

#[test]
fn render_offset_past_line_end_gives_blank_row() {
    let mut v = view_over(&["abc"], 5, 3);
    v.offset.x = 10;
    let rows = v.render().expect("dirty view must repaint");
    assert_eq!(rows[0], "");
}

#[test]
fn render_starts_at_scroll_offset() {
    let mut v = view_over(&["a", "b", "c", "d"], 5, 4);
    v.offset.y = 1;
    let rows = v.render().expect("dirty view must repaint");
    assert_eq!(rows[0], "b");
    assert_eq!(rows[1], "c");
    assert_eq!(rows[2], "d");
    assert_eq!(rows[3], "~");
}

#[test]
fn render_reserves_last_row() {
    let mut v = view_over(&["a", "b", "c"], 5, 3);
    let rows = v.render().expect("dirty view must repaint");
    assert_eq!(rows[0], "a");
    assert_eq!(rows[1], "b");
    assert_eq!(rows[2], "~");
}

#[test]
fn render_empty_buffer_is_all_filler() {
    let mut v = view_over(&[], 4, 3);
    let rows = v.render().expect("dirty view must repaint");
    assert_eq!(rows, vec!["~", "~", "~"]);
}

#[test]
fn render_clean_view_is_a_noop() {
    let mut v = view_over(&["a"], 5, 3);
    let first = v.render();
    assert!(first.is_some());
    assert!(!v.needs_redraw);
    let cursor_before = (v.cursor.x, v.cursor.y);
    let second = v.render();
    assert!(second.is_none());
    assert!(!v.needs_redraw);
    assert_eq!((v.cursor.x, v.cursor.y), cursor_before);
}

#[test]
fn render_leaves_cursor_and_offset_alone() {
    let mut v = view_over(&["abcd", "efgh"], 3, 3);
    v.cursor = Cursor { x: 2, y: 1 };
    v.offset = Offset { x: 1, y: 1 };
    v.render().expect("dirty view must repaint");
    assert_eq!((v.cursor.x, v.cursor.y), (2, 1));
    assert_eq!((v.offset.x, v.offset.y), (1, 1));
}

#[test]
fn zero_cursor_moves_caret_home() {
    let mut v = view_over(&["a"], 5, 5);
    v.cursor = Cursor { x: 3, y: 2 };
    v.zero_cursor();
    assert_eq!((v.cursor.x, v.cursor.y), (0, 0));
}

#[test]
fn view_default_is_clean_and_empty() {
    let v = View::default();
    assert!(!v.needs_redraw);
    assert_eq!(v.buffer.text.len(), 0);
    assert_eq!((v.term_size.cols, v.term_size.rows), (0, 0));
}
