//! What can go wrong, by name: at startup, during one exchange with the
//! child, and as the caller of the HTTP endpoint is told.
//!
//! Each error type has a view that holds its texts as sequences of
//! characters; the contracts of the crate speak of the views.

use vstd::prelude::*;

verus! {

/// One of the two pipes that connect the bridge to the child.
#[derive(Debug, Clone, Copy, PartialEq, Eq, Structural)]
pub enum Pipe {
    /// The child's standard input, which the bridge writes.
    Stdin,
    /// The child's standard output, which the bridge reads.
    Stdout,
}

/// Why the child could not be started. Either is fatal: the bridge does not
/// come up without its child.
#[derive(Debug, Clone, PartialEq, Eq)]
pub enum StartError {
    /// The executable could not be launched; holds the system's reason.
    Spawn(String),
    /// The child was launched, but this pipe to it could not be had.
    PipeUnavailable(Pipe),
}

/// The view of a [`StartError`].
pub enum StartFault {
    Spawn(Seq<char>),
    PipeUnavailable(Pipe),
}

impl View for StartError {
    type V = StartFault;

    open spec fn view(&self) -> StartFault {
        match self {
            StartError::Spawn(reason) => StartFault::Spawn(reason@),
            StartError::PipeUnavailable(pipe) => StartFault::PipeUnavailable(*pipe),
        }
    }
}

impl StartFault {
    /// The diagnostic with which startup is given up.
    pub open spec fn message(self) -> Seq<char> {
        match self {
            StartFault::Spawn(reason) => "Failed to spawn MCP server: "@ + reason
                + ". Make sure to build with 'cargo build --release' first"@,
            StartFault::PipeUnavailable(Pipe::Stdin) => "Failed to open stdin"@,
            StartFault::PipeUnavailable(Pipe::Stdout) => "Failed to open stdout"@,
        }
    }
}

impl StartError {
    /// The diagnostic with which startup is given up.
    pub fn message(&self) -> (text: String)
        ensures
            text@ == self@.message(),
    {
        match self {
            StartError::Spawn(reason) => {
                let mut text = String::from_str("Failed to spawn MCP server: ");
                text.append(reason.as_str());
                text.append(". Make sure to build with 'cargo build --release' first");
                text
            },
            StartError::PipeUnavailable(Pipe::Stdin) => String::from_str("Failed to open stdin"),
            StartError::PipeUnavailable(Pipe::Stdout) => String::from_str("Failed to open stdout"),
        }
    }
}

/// Why one exchange with a running child failed. None of these stops the
/// bridge, and none is retried.
#[derive(Debug, Clone, PartialEq, Eq)]
pub enum ExchangeError {
    /// The request's text holds a raw newline, so it cannot travel as one
    /// line. Nothing was written.
    Protocol,
    /// Writing to the child's input or flushing it failed; holds the reason.
    Write(String),
    /// The child's output failed, ended before a full line, or gave more than
    /// one line at once; holds the reason.
    Read(String),
    /// The line that the child sent is not JSON; holds the decoder's message.
    Decode(String),
}

/// The view of an [`ExchangeError`].
pub enum ExchangeFault {
    Protocol,
    Write(Seq<char>),
    Read(Seq<char>),
    Decode(Seq<char>),
}

impl View for ExchangeError {
    type V = ExchangeFault;

    open spec fn view(&self) -> ExchangeFault {
        match self {
            ExchangeError::Protocol => ExchangeFault::Protocol,
            ExchangeError::Write(reason) => ExchangeFault::Write(reason@),
            ExchangeError::Read(reason) => ExchangeFault::Read(reason@),
            ExchangeError::Decode(reason) => ExchangeFault::Decode(reason@),
        }
    }
}

/// The reason given when the child's output stops short of a newline.
pub open spec fn short_read() -> Seq<char> {
    "child output ended before a full line was read"@
}

/// The reason given when what was read runs past the first newline.
pub open spec fn long_read() -> Seq<char> {
    "more than one line was read from the child"@
}

impl ExchangeFault {
    /// The failure in words.
    pub open spec fn message(self) -> Seq<char> {
        match self {
            ExchangeFault::Protocol => "request text holds a raw newline"@,
            ExchangeFault::Write(reason) => reason,
            ExchangeFault::Read(reason) => reason,
            ExchangeFault::Decode(reason) => reason,
        }
    }
}

impl ExchangeError {
    /// The read error for output that stopped short of a newline.
    pub fn short_read() -> (error: ExchangeError)
        ensures
            error@ == ExchangeFault::Read(short_read()),
    {
        ExchangeError::Read(String::from_str("child output ended before a full line was read"))
    }

    /// The read error for bytes that run past the first newline.
    pub fn long_read() -> (error: ExchangeError)
        ensures
            error@ == ExchangeFault::Read(long_read()),
    {
        ExchangeError::Read(String::from_str("more than one line was read from the child"))
    }

    /// The failure in words.
    pub fn message(&self) -> (text: String)
        ensures
            text@ == self@.message(),
    {
        match self {
            ExchangeError::Protocol => String::from_str("request text holds a raw newline"),
            ExchangeError::Write(reason) => reason.clone(),
            ExchangeError::Read(reason) => reason.clone(),
            ExchangeError::Decode(reason) => reason.clone(),
        }
    }
}

/// What the caller of the HTTP endpoint is told when a request fails.
#[derive(Debug, Clone, PartialEq, Eq)]
pub enum AppError {
    /// The request itself is at fault; holds the message for the caller.
    BadRequest(String),
    /// The bridge or its child is at fault; holds the message for the caller.
    Internal(String),
}

/// The view of an [`AppError`].
pub enum AppFault {
    BadRequest(Seq<char>),
    Internal(Seq<char>),
}

impl View for AppError {
    type V = AppFault;

    open spec fn view(&self) -> AppFault {
        match self {
            AppError::BadRequest(message) => AppFault::BadRequest(message@),
            AppError::Internal(message) => AppFault::Internal(message@),
        }
    }
}

impl AppFault {
    /// The fault for a request body that is not JSON, from the decoder's message.
    pub open spec fn invalid_json(decoder: Seq<char>) -> AppFault {
        AppFault::BadRequest("Invalid JSON: "@ + decoder)
    }

    /// The fault for an exchange that failed.
    pub open spec fn communication(fault: ExchangeFault) -> AppFault {
        AppFault::Internal("MCP communication error: "@ + fault.message())
    }

    /// The message for the caller.
    pub open spec fn message(self) -> Seq<char> {
        match self {
            AppFault::BadRequest(message) => message,
            AppFault::Internal(message) => message,
        }
    }
}

impl AppError {
    /// The error for a request body that is not JSON, from the decoder's message.
    pub fn invalid_json(decoder: &str) -> (error: AppError)
        ensures
            error@ == AppFault::invalid_json(decoder@),
    {
        let mut message = String::from_str("Invalid JSON: ");
        message.append(decoder);
        AppError::BadRequest(message)
    }

    /// The error for an exchange that failed.
    pub fn communication(cause: &ExchangeError) -> (error: AppError)
        ensures
            error@ == AppFault::communication(cause@),
    {
        let mut message = String::from_str("MCP communication error: ");
        let reason = cause.message();
        message.append(reason.as_str());
        AppError::Internal(message)
    }

    /// The message for the caller.
    pub fn message(&self) -> (text: &str)
        ensures
            text@ == self@.message(),
    {
        match self {
            AppError::BadRequest(message) => message.as_str(),
            AppError::Internal(message) => message.as_str(),
        }
    }
}

} // verus!
