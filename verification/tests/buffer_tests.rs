use kim::buffer::Buffer;

fn loaded(content: &str) -> Buffer {
    let mut b = Buffer { text: Vec::new() };
    b.load(Some(content.to_string()));
    b
}

#[test]
fn load_none_leaves_empty() {
    let mut b = Buffer { text: vec!["stale".to_string()] };
    b.load(None);
    assert!(b.is_empty());
    assert_eq!(b.text.len(), 0);
}

#[test]
fn load_splits_on_newlines() {
    let b = loaded("a\n\nbc");
    assert_eq!(b.text, vec!["a", "", "bc"]);
}

#[test]
fn load_drops_trailing_newline() {
    let b = loaded("a\nb\n");
    assert_eq!(b.text, vec!["a", "b"]);
}

#[test]
fn load_strips_carriage_return_before_newline() {
    let b = loaded("a\r\nb\r\nc");
    assert_eq!(b.text, vec!["a", "b", "c"]);
}

#[test]
fn load_empty_text_gives_empty_buffer() {
    let b = loaded("");
    assert!(b.is_empty());
}

#[test]
fn load_lone_newline_gives_one_blank_line() {
    let b = loaded("\n");
    assert_eq!(b.text, vec![""]);
}

#[test]
fn load_keeps_carriage_return_without_newline() {
    let b = loaded("a\r");
    assert_eq!(b.text, vec!["a\r"]);
}

#[test]
fn load_replaces_previous_contents() {
    let mut b = loaded("old line");
    b.load(Some("new".to_string()));
    assert_eq!(b.text, vec!["new"]);
}

#[test]
fn is_empty_false_with_content() {
    let b = loaded("x");
    assert!(!b.is_empty());
}

#[test]
fn buffer_default_is_empty() {
    let b = Buffer::default();
    assert!(b.is_empty());
}
