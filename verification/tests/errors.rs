use mcp_bridge::error::{AppError, ExchangeError, Pipe, StartError};

#[test]
fn spawn_error_says_how_to_build() {
    let error = StartError::Spawn("No such file or directory (os error 2)".to_string());
    assert_eq!(
        error.message(),
        "Failed to spawn MCP server: No such file or directory (os error 2). \
         Make sure to build with 'cargo build --release' first"
    );
}

#[test]
fn pipe_errors_name_the_pipe() {
    assert_eq!(StartError::PipeUnavailable(Pipe::Stdin).message(), "Failed to open stdin");
    assert_eq!(StartError::PipeUnavailable(Pipe::Stdout).message(), "Failed to open stdout");
}

#[test]
fn exchange_errors_speak_with_their_reason() {
    assert_eq!(
        ExchangeError::Write("Broken pipe (os error 32)".to_string()).message(),
        "Broken pipe (os error 32)"
    );
    assert_eq!(ExchangeError::Read("stream did not contain valid UTF-8".to_string()).message(),
        "stream did not contain valid UTF-8");
    assert_eq!(
        ExchangeError::Decode("expected value at line 1 column 1".to_string()).message(),
        "expected value at line 1 column 1"
    );
    assert_eq!(ExchangeError::Protocol.message(), "request text holds a raw newline");
}

#[test]
fn short_and_long_reads_are_read_errors() {
    assert_eq!(
        ExchangeError::short_read(),
        ExchangeError::Read("child output ended before a full line was read".to_string())
    );
    assert_eq!(
        ExchangeError::long_read(),
        ExchangeError::Read("more than one line was read from the child".to_string())
    );
}

#[test]
fn invalid_json_is_a_bad_request() {
    assert_eq!(
        AppError::invalid_json("expected ident at line 1 column 2"),
        AppError::BadRequest("Invalid JSON: expected ident at line 1 column 2".to_string())
    );
}

#[test]
fn failed_exchange_is_an_internal_error() {
    assert_eq!(
        AppError::communication(&ExchangeError::Write("Broken pipe (os error 32)".to_string())),
        AppError::Internal("MCP communication error: Broken pipe (os error 32)".to_string())
    );
    assert_eq!(
        AppError::communication(&ExchangeError::Protocol),
        AppError::Internal("MCP communication error: request text holds a raw newline".to_string())
    );
}

#[test]
fn app_error_message_is_what_it_holds() {
    assert_eq!(AppError::BadRequest("a".to_string()).message(), "a");
    assert_eq!(AppError::Internal("b".to_string()).message(), "b");
}
