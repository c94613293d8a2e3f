use mcp_bridge::framing::{contains_newline, frame_line, is_full_line, is_one_line, NEWLINE};

#[test]
fn newline_is_the_line_feed_byte() {
    assert_eq!(NEWLINE, b'\n');
}

#[test]
fn frame_line_appends_one_newline() {
    assert_eq!(frame_line(b"{\"a\":1}"), Some(b"{\"a\":1}\n".to_vec()));
}

#[test]
fn frame_line_of_empty_text_is_a_bare_newline() {
    assert_eq!(frame_line(b""), Some(b"\n".to_vec()));
}

#[test]
fn frame_line_refuses_text_with_newline() {
    assert_eq!(frame_line(b"{\n}"), None);
    assert_eq!(frame_line(b"\n"), None);
    assert_eq!(frame_line(b"{}\n"), None);
}

#[test]
fn frame_line_keeps_carriage_returns_and_other_bytes() {
    assert_eq!(frame_line(b"a\rb\x00\xff"), Some(b"a\rb\x00\xff\n".to_vec()));
}

#[test]
fn contains_newline_finds_it_anywhere() {
    assert!(contains_newline(b"\nabc"));
    assert!(contains_newline(b"a\nbc"));
    assert!(contains_newline(b"abc\n"));
    assert!(!contains_newline(b"abc"));
    assert!(!contains_newline(b""));
    assert!(!contains_newline(b"\\n"));
}

#[test]
fn is_full_line_needs_a_closing_newline() {
    assert!(is_full_line(b"{}\n"));
    assert!(is_full_line(b"\n"));
    assert!(is_full_line(b"a\nb\n"));
    assert!(!is_full_line(b"{}"));
    assert!(!is_full_line(b"\n{}"));
    assert!(!is_full_line(b""));
}

#[test]
fn is_one_line_allows_no_newline_before_the_last() {
    assert!(is_one_line(b"{}\n"));
    assert!(is_one_line(b"\n"));
    assert!(!is_one_line(b"a\nb\n"));
    assert!(!is_one_line(b"\n\n"));
    assert!(!is_one_line(b"{}"));
    assert!(!is_one_line(b""));
}

#[test]
fn framed_text_is_one_line() {
    let line = frame_line(b"[1,2,3]").unwrap();
    assert!(is_one_line(&line));
    assert!(is_full_line(&line));
}
