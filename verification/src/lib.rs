//! A bridge between HTTP callers and a tool server that speaks
//! line-delimited JSON over its standard input and output.
//!
//! The crate holds the rules of the bridge: how a request is framed as one
//! line, how the child process handle moves through an exchange, what each
//! failure is called and which HTTP reply it becomes. The program around it
//! owns the process, the pipes and the sockets; it performs what the handle
//! asks for and reports back what happened.

pub mod bridge;
pub mod child;
pub mod error;
pub mod framing;
pub mod http;
pub mod json;
pub mod transcript;
