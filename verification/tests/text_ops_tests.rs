use egui_chip::split_text;
use egui_chip::str_contains;
use egui_chip::ChipEditOutput;
use egui_chip::CursorSpan;

fn strings(parts: &[&str]) -> Vec<String> {
    parts.iter().map(|s| s.to_string()).collect()
}

#[test]
fn split_text_plain() {
    assert_eq!(split_text("a,b", ","), strings(&["a", "b"]));
    assert_eq!(split_text("abc", ","), strings(&["abc"]));
    assert_eq!(split_text("", ","), strings(&[""]));
}

#[test]
fn split_text_edge_delimiters() {
    assert_eq!(split_text(",", ","), strings(&["", ""]));
    assert_eq!(split_text(",x,", ","), strings(&["", "x", ""]));
    assert_eq!(split_text("a,,b", ","), strings(&["a", "", "b"]));
}

#[test]
fn split_text_multichar_delimiter() {
    assert_eq!(split_text("a, b, c", ", "), strings(&["a", "b", "c"]));
    assert_eq!(split_text("a,, b", ", "), strings(&["a,", "b"]));
}

#[test]
fn split_text_leftmost_non_overlapping() {
    assert_eq!(split_text("aaa", "aa"), strings(&["", "a"]));
}

#[test]
fn str_contains_cases() {
    assert!(str_contains("a,b", ","));
    assert!(!str_contains("ab", ","));
    assert!(str_contains("abc", "abc"));
    assert!(!str_contains("ab", "abc"));
    assert!(str_contains("xabcy", "abc"));
}

#[test]
fn output_union_folds_events() {
    let mut a = ChipEditOutput::quiet();
    let mut b = ChipEditOutput::quiet();
    b.changed = true;
    b.clicked = true;
    b.cursor = Some(CursorSpan { start: 1, end: 1 });
    a.union(b);
    assert!(a.changed);
    assert!(a.clicked);
    assert!(a.gained_focus());
    assert_eq!(a.cursor, Some(CursorSpan { start: 1, end: 1 }));

    let mut c = ChipEditOutput::quiet();
    c.cursor = Some(CursorSpan { start: 2, end: 3 });
    a.union(c);
    // the first cursor seen is kept
    assert_eq!(a.cursor, Some(CursorSpan { start: 1, end: 1 }));
}

#[test]
fn output_cursor_positions() {
    let mut o = ChipEditOutput::quiet();
    assert!(!o.cursor_at(0));
    o.cursor = Some(CursorSpan { start: 0, end: 0 });
    assert!(o.cursor_at(0));
    assert!(!o.cursor_at(1));
    // a selection is not a single cursor
    o.cursor = Some(CursorSpan { start: 0, end: 2 });
    assert!(!o.cursor_at(2));
}
