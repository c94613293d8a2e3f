use mcp_bridge::json::JsonValue;

#[test]
fn parse_gives_the_compact_text() {
    let value = JsonValue::parse(b" { \"a\" : [ 1 , 2 ] ,\n \"b\" : null } ").unwrap();
    assert_eq!(value.as_bytes(), b"{\"a\":[1,2],\"b\":null}");
}

#[test]
fn parse_accepts_every_kind_of_value() {
    assert_eq!(JsonValue::parse(b"null").unwrap().as_bytes(), b"null");
    assert_eq!(JsonValue::parse(b"true").unwrap().as_bytes(), b"true");
    assert_eq!(JsonValue::parse(b"-12").unwrap().as_bytes(), b"-12");
    assert_eq!(JsonValue::parse(b"1.5").unwrap().as_bytes(), b"1.5");
    assert_eq!(JsonValue::parse(b"\"x\"").unwrap().as_bytes(), b"\"x\"");
    assert_eq!(JsonValue::parse(b"[]").unwrap().as_bytes(), b"[]");
    assert_eq!(JsonValue::parse(b"{}").unwrap().as_bytes(), b"{}");
}

#[test]
fn parse_keeps_an_escaped_newline_escaped() {
    let value = JsonValue::parse(b"{\"text\":\"line one\\nline two\"}").unwrap();
    assert_eq!(value.as_bytes(), b"{\"text\":\"line one\\nline two\"}");
    assert!(!value.as_bytes().contains(&b'\n'));
}

#[test]
fn parse_refuses_what_is_not_json() {
    assert_eq!(
        JsonValue::parse(b"not json"),
        Err("expected ident at line 1 column 2".to_string())
    );
}

#[test]
fn parse_refuses_an_empty_body() {
    assert_eq!(
        JsonValue::parse(b""),
        Err("EOF while parsing a value at line 1 column 0".to_string())
    );
}

#[test]
fn parse_refuses_two_values() {
    assert_eq!(
        JsonValue::parse(b"{} {}"),
        Err("trailing characters at line 1 column 4".to_string())
    );
}

#[test]
fn parse_refuses_a_raw_newline_inside_a_string() {
    assert_eq!(
        JsonValue::parse(b"\"a\nb\""),
        Err(
            "control character (\\u0000-\\u001F) found while parsing a string at line 2 column 0"
                .to_string()
        )
    );
}

#[test]
fn parse_refuses_bytes_that_are_not_utf8() {
    assert!(JsonValue::parse(b"\"\xff\"").is_err());
}

#[test]
fn the_three_ways_to_the_text_agree() {
    let value = JsonValue::parse(b"[1, 2]").unwrap();
    assert_eq!(value.as_bytes(), b"[1,2]");
    assert_eq!(value.to_bytes(), b"[1,2]".to_vec());
    assert_eq!(value.clone().into_bytes(), b"[1,2]".to_vec());
}

#[test]
fn member_builds_an_object_with_one_string() {
    assert_eq!(JsonValue::member("error", "boom").as_bytes(), b"{\"error\":\"boom\"}");
}

#[test]
fn member_escapes_what_json_strings_cannot_hold() {
    assert_eq!(
        JsonValue::member("k\"", "a\"b\\c\nd").as_bytes(),
        b"{\"k\\\"\":\"a\\\"b\\\\c\\nd\"}"
    );
}

#[test]
fn member_is_json_that_parses_to_itself() {
    let object = JsonValue::member("error", "tab\there");
    assert_eq!(JsonValue::parse(object.as_bytes()), Ok(object));
}
