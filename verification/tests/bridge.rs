use mcp_bridge::bridge::{exchange_with, serve_with, Script};
use mcp_bridge::child::{ChildHandle, Launch, Phase};
use mcp_bridge::error::ExchangeError;
use mcp_bridge::framing::frame_line;
use mcp_bridge::http::{decode_request, health};
use mcp_bridge::json::JsonValue;

fn running() -> ChildHandle {
    let mut handle = ChildHandle::new();
    handle.start(Launch::Spawned { stdin: true, stdout: true }).unwrap();
    handle
}

fn echo(body: &[u8]) -> Script {
    let request = decode_request(body).unwrap();
    let line = frame_line(request.as_bytes()).unwrap();
    Script { wrote: Ok(()), read: Ok(line) }
}

fn answers(line: &[u8]) -> Script {
    Script { wrote: Ok(()), read: Ok(line.to_vec()) }
}

fn same_json(left: &[u8], right: &[u8]) -> bool {
    let left: serde_json::Value = serde_json::from_slice(left).unwrap();
    let right: serde_json::Value = serde_json::from_slice(right).unwrap();
    left == right
}

#[test]
fn ping_is_echoed_with_status_200() {
    let body = b"{\"jsonrpc\":\"2.0\",\"method\":\"ping\",\"id\":1}";
    let mut handle = running();
    let reply = serve_with(&mut handle, body, echo(body));
    assert_eq!(reply.status, 200);
    assert!(same_json(reply.body.as_bytes(), body));
    assert_eq!(reply.body.as_bytes(), b"{\"id\":1,\"jsonrpc\":\"2.0\",\"method\":\"ping\"}");
    assert!(handle.is_ready());
}

#[test]
fn body_that_is_not_json_gets_status_400() {
    let mut handle = running();
    let reply = serve_with(&mut handle, b"not json", answers(b"{}\n"));
    assert_eq!(reply.status, 400);
    assert_eq!(
        reply.body.as_bytes(),
        b"{\"error\":\"Invalid JSON: expected ident at line 1 column 2\"}"
    );
    assert!(reply.body.as_bytes().starts_with(b"{\"error\":\"Invalid JSON: "));
    assert!(handle.is_ready());
}

#[test]
fn child_killed_before_the_request_gets_status_500() {
    let mut handle = running();
    let script = Script { wrote: Err("Broken pipe (os error 32)".to_string()), read: Ok(Vec::new()) };
    let reply = serve_with(&mut handle, b"{\"method\":\"ping\"}", script);
    assert_eq!(reply.status, 500);
    assert_eq!(
        reply.body.as_bytes(),
        b"{\"error\":\"MCP communication error: Broken pipe (os error 32)\"}"
    );
    assert!(reply.body.as_bytes().starts_with(b"{\"error\":\"MCP communication error: "));
}

#[test]
fn child_that_exits_before_answering_gets_status_500() {
    let mut handle = running();
    let reply = serve_with(&mut handle, b"{\"method\":\"ping\"}", answers(b""));
    assert_eq!(reply.status, 500);
    assert_eq!(
        reply.body.as_bytes(),
        b"{\"error\":\"MCP communication error: child output ended before a full line was read\"}"
    );
    assert_eq!(health(), (200, "OK"));
}

#[test]
fn child_that_answers_nonsense_gets_status_500() {
    let mut handle = running();
    let reply = serve_with(&mut handle, b"1", answers(b"<html>\n"));
    assert_eq!(reply.status, 500);
    assert_eq!(
        reply.body.as_bytes(),
        b"{\"error\":\"MCP communication error: expected value at line 1 column 1\"}"
    );
}

#[test]
fn reply_carries_what_the_child_answered() {
    let mut handle = running();
    let reply = serve_with(
        &mut handle,
        b"{\"method\":\"tools/list\",\"id\":2}",
        answers(b"{ \"id\": 2, \"result\": { \"tools\": [] } }\n"),
    );
    assert_eq!(reply.status, 200);
    assert_eq!(reply.body.as_bytes(), b"{\"id\":2,\"result\":{\"tools\":[]}}");
}

#[test]
fn echo_gives_back_the_request_in_compact_form() {
    let bodies: [&[u8]; 6] = [
        b"null",
        b" [ 1 , 2.5 , -3 , \"x\" ] ",
        b"{\"b\": {\"c\": [true, false]}, \"a\": \"\\u00e9\\n\"}",
        b"\"plain\"",
        b"{}",
        b"1e3",
    ];
    for body in bodies {
        let mut handle = running();
        let reply = serve_with(&mut handle, body, echo(body));
        assert_eq!(reply.status, 200);
        assert!(same_json(reply.body.as_bytes(), body));
        assert_eq!(reply.body, decode_request(body).unwrap());
    }
}

#[test]
fn exchange_with_gives_the_decoded_answer() {
    let mut handle = running();
    let request = JsonValue::parse(b"[1]").unwrap();
    let outcome = exchange_with(&mut handle, &request, answers(b" [ 2 ] \n"));
    assert_eq!(outcome, Ok(JsonValue::parse(b"[2]").unwrap()));
    assert!(handle.is_ready());
}

#[test]
fn exchange_with_does_not_read_after_a_failed_write() {
    let mut handle = running();
    let request = JsonValue::parse(b"[1]").unwrap();
    let script = Script { wrote: Err("Broken pipe (os error 32)".to_string()), read: Ok(b"[2]\n".to_vec()) };
    assert_eq!(
        exchange_with(&mut handle, &request, script),
        Err(ExchangeError::Write("Broken pipe (os error 32)".to_string()))
    );
    assert!(handle.is_ready());
}

#[test]
fn failure_of_one_request_does_not_stop_the_next() {
    let mut handle = running();
    let first = serve_with(&mut handle, b"1", answers(b""));
    assert_eq!(first.status, 500);
    let second = serve_with(&mut handle, b"2", answers(b"3\n"));
    assert_eq!(second.status, 200);
    assert_eq!(second.body.as_bytes(), b"3");
    assert_eq!(handle.phase(), Phase::Running);
}

#[test]
fn echo_reply_is_what_the_line_decodes_to() {
    let body = b"93491810797971229e-5";
    let request = decode_request(body).unwrap();
    assert_eq!(request.as_bytes(), b"934918107979.7123");
    let mut handle = running();
    let reply = serve_with(&mut handle, body, echo(body));
    assert_eq!(reply.status, 200);
    assert_eq!(reply.body, JsonValue::parse(b"934918107979.7123\n").unwrap());
    assert_eq!(reply.body.as_bytes(), b"934918107979.7124");
}
