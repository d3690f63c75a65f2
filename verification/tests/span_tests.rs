use lexparse::span::{LineColumn, Span};

fn lc(line: u32, column: u32) -> LineColumn {
    LineColumn::new(line, column)
}

#[test]
fn line_column_accessors() {
    let p = lc(3, 7);
    assert_eq!(p.line(), 3);
    assert_eq!(p.column(), 7);
}

#[test]
fn line_column_order_line_first() {
    assert!(lc(1, 9) < lc(2, 0));
    assert!(lc(2, 0) > lc(1, 9));
    assert!(lc(1, 3) < lc(1, 4));
    assert!(lc(1, 4) == lc(1, 4));
    assert!(!(lc(1, 4) < lc(1, 4)));
}

#[test]
fn span_default_is_empty() {
    let s = Span::default();
    assert_eq!(s.file(), "");
    assert_eq!(*s.start(), lc(0, 0));
    assert_eq!(*s.end(), lc(0, 0));
}

#[test]
fn span_accessors() {
    let s = Span::new("f".to_string(), lc(1, 0), lc(1, 2));
    assert_eq!(s.file(), "f");
    assert_eq!(*s.start(), lc(1, 0));
    assert_eq!(*s.end(), lc(1, 2));
}

#[test]
fn span_render_start_and_end() {
    let s = Span::new("main.src".to_string(), lc(1, 0), lc(12, 34));
    assert_eq!(s.to_string_start(), "main.src:1:0");
    assert_eq!(s.to_string_end(), "main.src:12:34");
}

#[test]
fn span_join_same_file() {
    let a = Span::new("f".to_string(), lc(1, 0), lc(1, 2));
    let b = Span::new("f".to_string(), lc(1, 5), lc(1, 8));
    let j = Span::join(&a, &b);
    assert_eq!(j.file(), "f");
    assert_eq!(*j.start(), lc(1, 0));
    assert_eq!(*j.end(), lc(1, 8));
}

#[test]
fn span_join_is_symmetric_on_these() {
    let a = Span::new("f".to_string(), lc(1, 0), lc(1, 2));
    let b = Span::new("f".to_string(), lc(1, 5), lc(1, 8));
    let j = Span::join(&b, &a);
    assert_eq!(*j.start(), lc(1, 0));
    assert_eq!(*j.end(), lc(1, 8));
}

#[test]
fn span_join_overlapping_lines() {
    let a = Span::new("f".to_string(), lc(2, 4), lc(5, 1));
    let b = Span::new("f".to_string(), lc(1, 9), lc(3, 0));
    let j = Span::join(&a, &b);
    assert_eq!(*j.start(), lc(1, 9));
    assert_eq!(*j.end(), lc(5, 1));
}

#[test]
fn span_try_join_different_files_fails() {
    let a = Span::new("f".to_string(), lc(1, 0), lc(1, 2));
    let b = Span::new("g".to_string(), lc(1, 5), lc(1, 8));
    assert!(Span::try_join(&a, &b).is_none());
    let c = Span::new("f".to_string(), lc(1, 5), lc(1, 8));
    assert!(Span::try_join(&a, &c).is_some());
}
