//! The HTTP face of the bridge: what a caller of the endpoint gets back.
//!
//! A request body is decoded before anything touches the child. A body that
//! is not JSON is answered at once; a decoded one goes through one exchange
//! with the child, and the outcome of that exchange is the reply.

use vstd::prelude::*;
use crate::child::outcome_view;
use crate::error::{AppError, AppFault, ExchangeError, ExchangeFault};
use crate::json::{json_decode, json_member, JsonValue};

verus! {

/// The status of a reply that carries the child's answer.
pub const STATUS_OK: u16 = 200;

/// The status of a reply to a request that is not JSON.
pub const STATUS_BAD_REQUEST: u16 = 400;

/// The status of a reply to a request whose exchange with the child failed.
pub const STATUS_INTERNAL_SERVER_ERROR: u16 = 500;

/// A reply of the endpoint: a status and a JSON body.
#[derive(Debug, Clone, PartialEq, Eq)]
pub struct HttpReply {
    pub status: u16,
    pub body: JsonValue,
}

/// The view of an [`HttpReply`].
pub struct ReplyModel {
    pub status: u16,
    pub body: Seq<u8>,
}

impl View for HttpReply {
    type V = ReplyModel;

    open spec fn view(&self) -> ReplyModel {
        ReplyModel { status: self.status, body: self.body@ }
    }
}

impl ReplyModel {
    /// The reply that carries the child's answer.
    pub open spec fn answer(text: Seq<u8>) -> ReplyModel {
        ReplyModel { status: STATUS_OK, body: text }
    }
}

impl AppFault {
    /// The status that goes with the fault.
    pub open spec fn status(self) -> u16 {
        match self {
            AppFault::BadRequest(_) => STATUS_BAD_REQUEST,
            AppFault::Internal(_) => STATUS_INTERNAL_SERVER_ERROR,
        }
    }

    /// The reply that tells the caller of the fault: its status, and an
    /// object whose one member `error` holds the message.
    pub open spec fn reply(self) -> ReplyModel {
        ReplyModel { status: self.status(), body: json_member("error"@, self.message()) }
    }
}

impl AppError {
    /// The status that goes with the error.
    pub fn status(&self) -> (status: u16)
        ensures
            status == self@.status(),
    {
        match self {
            AppError::BadRequest(_) => STATUS_BAD_REQUEST,
            AppError::Internal(_) => STATUS_INTERNAL_SERVER_ERROR,
        }
    }

    /// The reply that tells the caller of the error.
    pub fn into_response(self) -> (reply: HttpReply)
        ensures
            reply@ == self@.reply(),
    {
        let status: u16 = self.status();
        let body = JsonValue::member("error", self.message());
        HttpReply { status, body }
    }
}

/// The view of a request that was decoded or refused.
pub open spec fn request_view(outcome: Result<JsonValue, AppError>) -> Result<Seq<u8>, AppFault> {
    match outcome {
        Ok(value) => Ok(value@),
        Err(error) => Err(error@),
    }
}

/// What a request body amounts to: the request's text, or the fault that
/// the caller is told of.
pub open spec fn decoded_request(body: Seq<u8>) -> Result<Seq<u8>, AppFault> {
    match json_decode(body) {
        Ok(text) => Ok(text),
        Err(reason) => Err(AppFault::invalid_json(reason)),
    }
}

/// What the outcome of an exchange amounts to for the caller.
pub open spec fn concluded(outcome: Result<Seq<u8>, ExchangeFault>) -> Result<Seq<u8>, AppFault> {
    match outcome {
        Ok(text) => Ok(text),
        Err(fault) => Err(AppFault::communication(fault)),
    }
}

/// The reply for a request that ended as `result`.
pub open spec fn reply_for(result: Result<Seq<u8>, AppFault>) -> ReplyModel {
    match result {
        Ok(text) => ReplyModel::answer(text),
        Err(fault) => fault.reply(),
    }
}

/// The answer to the liveness probe: a status and a text. Both are fixed;
/// the probe asks nothing of the child and tells nothing about it.
pub fn health() -> (reply: (u16, &'static str))
    ensures
        reply.0 == STATUS_OK,
        reply.1@ == "OK"@,
{
    (STATUS_OK, "OK")
}

/// Decodes a request body. A body that is not JSON is a bad request, with
/// the decoder's message; no exchange takes place for it.
pub fn decode_request(body: &[u8]) -> (outcome: Result<JsonValue, AppError>)
    ensures
        request_view(outcome) == decoded_request(body@),
{
    match JsonValue::parse(body) {
        Ok(request) => Ok(request),
        Err(reason) => Err(AppError::invalid_json(reason.as_str())),
    }
}

/// Turns the outcome of an exchange into what the caller is told: the
/// child's answer, or an internal error that names the failure.
pub fn conclude(outcome: Result<JsonValue, ExchangeError>) -> (result: Result<JsonValue, AppError>)
    ensures
        request_view(result) == concluded(outcome_view(outcome)),
{
    match outcome {
        Ok(answer) => Ok(answer),
        Err(cause) => Err(AppError::communication(&cause)),
    }
}

/// The reply for a request that ended as `result`: the answer with status
/// 200, or the error's own reply.
pub fn respond(result: Result<JsonValue, AppError>) -> (reply: HttpReply)
    ensures
        reply@ == reply_for(request_view(result)),
{
    match result {
        Ok(answer) => HttpReply { status: STATUS_OK, body: answer },
        Err(error) => error.into_response(),
    }
}

} // verus!
