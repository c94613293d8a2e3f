//! One request, from its body to its reply.
//!
//! The path of a request is stated here as a whole: the body is decoded, one
//! exchange with the child follows, and its outcome becomes the reply. What
//! the pipes do in between is not the bridge's to decide, so the path is
//! stated for every behaviour of the pipes, and [`serve_with`] walks it for a
//! behaviour that is given.

use vstd::prelude::*;
use crate::child::{
    outcome_view, read_outcome, read_view, wrote_view, ChildHandle, HandleModel,
};
use crate::error::{AppFault, ExchangeError, ExchangeFault};
use crate::framing::{frame, has_newline, is_line, lemma_frame_is_line};
use crate::http::{
    conclude, concluded, decode_request, decoded_request, reply_for, respond, HttpReply,
    ReplyModel, STATUS_BAD_REQUEST, STATUS_INTERNAL_SERVER_ERROR,
};
use crate::json::{json_decode, JsonValue};
use crate::transcript::{exchange_events, lemma_one_exchange, lemma_run_steps, run, Wire};

verus! {

/// A behaviour of the pipes during one exchange, laid down beforehand: what
/// the write will come to, and what the read will give if it is reached.
#[derive(Debug, PartialEq, Eq)]
pub struct Script {
    pub wrote: Result<(), String>,
    pub read: Result<Vec<u8>, String>,
}

impl View for Script {
    type V = Wire;

    open spec fn view(&self) -> Wire {
        Wire { wrote: wrote_view(self.wrote), read: read_view(self.read) }
    }
}

/// The outcome of one exchange for a request with the text `text` when the
/// pipes behave as `wire`. The read counts only after a good write.
pub open spec fn exchange_outcome(text: Seq<u8>, wire: Wire) -> Result<Seq<u8>, ExchangeFault> {
    if has_newline(text) {
        Err(ExchangeFault::Protocol)
    } else {
        match wire.wrote {
            Err(reason) => Err(ExchangeFault::Write(reason)),
            Ok(()) => read_outcome(wire.read),
        }
    }
}

/// The reply to a request with the body `body` when the pipes behave as
/// `wire`.
pub open spec fn served_reply(body: Seq<u8>, wire: Wire) -> ReplyModel {
    reply_for(
        match decoded_request(body) {
            Err(fault) => Err(fault),
            Ok(text) => concluded(exchange_outcome(text, wire)),
        },
    )
}

/// The handle after a request with the body `body` was served while the
/// pipes behaved as `wire`.
pub open spec fn served_handle(handle: HandleModel, body: Seq<u8>, wire: Wire) -> HandleModel {
    match json_decode(body) {
        Err(_) => handle,
        Ok(text) => run(handle, exchange_events(text, wire)),
    }
}

/// Carries out one exchange against pipes that behave as `script` says:
/// takes up the request, reports the write and, after a good write, the read.
pub fn exchange_with(handle: &mut ChildHandle, request: &JsonValue, script: Script) -> (outcome:
    Result<JsonValue, ExchangeError>)
    requires
        old(handle)@.ready(),
    ensures
        outcome_view(outcome) == exchange_outcome(request@, script@),
        final(handle)@ == run(old(handle)@, exchange_events(request@, script@)),
        final(handle)@.ready(),
        final(handle)@.wf(),
{
    proof {
        lemma_one_exchange(handle@, request@, script@);
        lemma_run_steps(handle@, request@, script@);
    }
    match handle.begin(request) {
        Err(error) => Err(error),
        Ok(_) => match handle.wrote(script.wrote) {
            Err(error) => Err(error),
            Ok(()) => handle.read(script.read),
        },
    }
}

/// Serves one request against pipes that behave as `script` says. A body
/// that is not JSON is answered without touching the handle.
pub fn serve_with(handle: &mut ChildHandle, body: &[u8], script: Script) -> (reply: HttpReply)
    requires
        old(handle)@.ready(),
    ensures
        reply@ == served_reply(body@, script@),
        final(handle)@ == served_handle(old(handle)@, body@, script@),
        final(handle)@.ready(),
        final(handle)@.wf(),
{
    proof {
        use_type_invariant(&*handle);
    }
    match decode_request(body) {
        Err(error) => respond(Err(error)),
        Ok(request) => respond(conclude(exchange_with(handle, &request, script))),
    }
}

/// While the child is healthy, a request that is JSON costs exactly one
/// line written and one line read, and the reply carries, with status 200,
/// what that line decodes to.
pub proof fn lemma_healthy_request(
    handle: HandleModel,
    body: Seq<u8>,
    text: Seq<u8>,
    raw: Seq<u8>,
    answer: Seq<u8>,
)
    requires
        handle.ready(),
        json_decode(body) == Ok::<Seq<u8>, Seq<char>>(text),
        !has_newline(text),
        is_line(raw),
        json_decode(raw) == Ok::<Seq<u8>, Seq<char>>(answer),
    ensures
        served_reply(body, Wire { wrote: Ok(()), read: Ok(raw) }) == ReplyModel::answer(answer),
        served_handle(handle, body, Wire { wrote: Ok(()), read: Ok(raw) }).sent
            == handle.sent.push(frame(text)),
        served_handle(handle, body, Wire { wrote: Ok(()), read: Ok(raw) }).reads == handle.reads
            + 1,
{
    lemma_one_exchange(handle, text, Wire { wrote: Ok(()), read: Ok(raw) });
}

/// A body that is not JSON is answered with status 400 and the decoder's
/// message, whatever the pipes would have done: no exchange takes place,
/// nothing is handed out for the child and nothing is asked from it.
pub proof fn lemma_malformed_request(handle: HandleModel, body: Seq<u8>, wire: Wire)
    requires
        json_decode(body) is Err,
    ensures
        served_reply(body, wire) == AppFault::invalid_json(json_decode(body)->Err_0).reply(),
        served_reply(body, wire).status == STATUS_BAD_REQUEST,
        served_handle(handle, body, wire) == handle,
{
}

/// When the child is gone, so that the write fails, or the read fails or
/// gives anything but one full line, the request is answered with status 500
/// and a message that names the write or the read as the failure.
pub proof fn lemma_child_gone(body: Seq<u8>, text: Seq<u8>, wire: Wire)
    requires
        json_decode(body) == Ok::<Seq<u8>, Seq<char>>(text),
        !has_newline(text),
        wire.wrote is Err || wire.read is Err || !is_line(wire.read->Ok_0),
    ensures
        served_reply(body, wire).status == STATUS_INTERNAL_SERVER_ERROR,
        exchange_outcome(text, wire) matches Err(fault) && (fault is Write || fault is Read)
            && served_reply(body, wire) == AppFault::communication(fault).reply(),
{
}

/// With a child that sends back each line as it got it, the reply to a
/// request carries the request itself in compact form, provided that this
/// compact form decodes to itself. (Not every one does: a number may come
/// back from the decoder one digit off.)
pub proof fn lemma_echo(body: Seq<u8>, text: Seq<u8>)
    requires
        json_decode(body) == Ok::<Seq<u8>, Seq<char>>(text),
        !has_newline(text),
        json_decode(frame(text)) == Ok::<Seq<u8>, Seq<char>>(text),
    ensures
        served_reply(body, Wire { wrote: Ok(()), read: Ok(frame(text)) }) == ReplyModel::answer(
            text,
        ),
{
    lemma_frame_is_line(text);
}

} // verus!
