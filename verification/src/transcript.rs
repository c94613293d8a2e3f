//! Runs of events, and what has reached the child after them.
//!
//! Access to the handle is exclusive, so the events of all callers form one
//! sequence. This file says which sequences the handle admits and proves what
//! holds after every one of them: the child's input is the admitted requests'
//! lines, whole and in the order in which they were taken up, and no request
//! is taken up while another waits for its write or its answer.

use vstd::prelude::*;
use crate::child::{start_fault, EventView, HandleModel, Launch, Phase};
use crate::framing::{frame, has_newline, lemma_frame_is_line, lemma_split_join, split};

verus! {

/// How the pipes behave during one exchange: what the write comes to, and
/// what the read that follows a good write comes to.
pub struct Wire {
    pub wrote: Result<(), Seq<char>>,
    pub read: Result<Seq<u8>, Seq<char>>,
}

/// Whether the handle admits `events` one after another.
pub open spec fn admits_all(handle: HandleModel, events: Seq<EventView>) -> bool
    decreases events.len(),
{
    events.len() > 0 ==> handle.admits(events.first()) && admits_all(
        handle.after(events.first()),
        events.drop_first(),
    )
}

/// The handle after `events`.
pub open spec fn run(handle: HandleModel, events: Seq<EventView>) -> HandleModel
    decreases events.len(),
{
    if events.len() == 0 {
        handle
    } else {
        run(handle.after(events.first()), events.drop_first())
    }
}

/// The lines of the requests among `events` that can travel as one line, in
/// the order of the events.
pub open spec fn requested(events: Seq<EventView>) -> Seq<Seq<u8>>
    decreases events.len(),
{
    if events.len() == 0 {
        Seq::empty()
    } else {
        let rest = requested(events.drop_first());
        match events.first() {
            EventView::Request(text) => if has_newline(text) {
                rest
            } else {
                seq![frame(text)] + rest
            },
            _ => rest,
        }
    }
}

/// The events of one exchange for a request with the text `text`, from the
/// request to the last report, when the pipes behave as `wire`.
pub open spec fn exchange_events(text: Seq<u8>, wire: Wire) -> Seq<EventView> {
    if has_newline(text) {
        seq![EventView::Request(text)]
    } else if wire.wrote is Err {
        seq![EventView::Request(text), EventView::Wrote(wire.wrote)]
    } else {
        seq![EventView::Request(text), EventView::Wrote(wire.wrote), EventView::Read(wire.read)]
    }
}

/// The events of the exchanges for `texts`, one caller after another.
pub open spec fn served(texts: Seq<Seq<u8>>, wires: Seq<Wire>) -> Seq<EventView>
    decreases texts.len(),
{
    if texts.len() == 0 || wires.len() == 0 {
        Seq::empty()
    } else {
        exchange_events(texts.first(), wires.first()) + served(
            texts.drop_first(),
            wires.drop_first(),
        )
    }
}

/// The lines of `texts`, each framed.
pub open spec fn framed(texts: Seq<Seq<u8>>) -> Seq<Seq<u8>> {
    Seq::new(texts.len(), |i: int| frame(texts[i]))
}

/// A run of two parts is the run of the second part after the first.
pub proof fn lemma_run_append(handle: HandleModel, first: Seq<EventView>, second: Seq<EventView>)
    ensures
        run(handle, first + second) == run(run(handle, first), second),
        admits_all(handle, first + second) <==> admits_all(handle, first) && admits_all(
            run(handle, first),
            second,
        ),
    decreases first.len(),
{
    if first.len() == 0 {
        assert(first + second =~= second);
    } else {
        let whole = first + second;
        assert(whole.first() == first.first());
        assert(whole.drop_first() =~= first.drop_first() + second);
        lemma_run_append(handle.after(first.first()), first.drop_first(), second);
    }
}

/// Events change neither the child's phase nor anything that was handed out
/// before; what they add is the lines of the requests among them.
pub proof fn lemma_run_sent(handle: HandleModel, events: Seq<EventView>)
    ensures
        run(handle, events).phase == handle.phase,
        run(handle, events).sent == handle.sent + requested(events),
    decreases events.len(),
{
    if events.len() == 0 {
        assert(handle.sent + requested(events) =~= handle.sent);
    } else {
        let next = handle.after(events.first());
        let rest = events.drop_first();
        lemma_run_sent(next, rest);
        assert(next.sent + requested(rest) =~= handle.sent + requested(events));
    }
}

/// The child, reading its input line by line, finds the lines that were
/// handed out, as they were handed out: none is split, none runs into the
/// next.
pub proof fn lemma_input_is_lines(handle: HandleModel)
    requires
        handle.well_framed(),
    ensures
        split(handle.input()) == handle.sent,
{
    lemma_split_join(handle.sent);
}

/// What holds of every handle holds after every event that the handle
/// admits.
pub proof fn lemma_event_keeps_wf(handle: HandleModel, event: EventView)
    requires
        handle.wf(),
        handle.admits(event),
    ensures
        handle.after(event).wf(),
{
    if let EventView::Request(text) = event {
        if !has_newline(text) {
            lemma_frame_is_line(text);
        }
    }
}

/// What holds of every handle holds after every run that the handle admits.
pub proof fn lemma_run_keeps_wf(handle: HandleModel, events: Seq<EventView>)
    requires
        handle.wf(),
        admits_all(handle, events),
    ensures
        run(handle, events).wf(),
        split(run(handle, events).input()) == run(handle, events).sent,
    decreases events.len(),
{
    if events.len() == 0 {
        lemma_input_is_lines(handle);
    } else {
        lemma_event_keeps_wf(handle, events.first());
        lemma_run_keeps_wf(handle.after(events.first()), events.drop_first());
    }
}

/// Within a run that the handle admits, the reports come in turn: a request
/// that was taken up is followed by the report of its write, a good write by
/// the report of its read, and only then, or after a refusal or a failed
/// write, by the next request. No second line is handed out while an
/// exchange is in flight.
pub proof fn lemma_reports_in_turn(handle: HandleModel, events: Seq<EventView>, i: int)
    requires
        admits_all(handle, events),
        0 <= i,
        i + 1 < events.len(),
    ensures
        match events[i] {
            EventView::Request(text) => if has_newline(text) {
                events[i + 1] is Request
            } else {
                events[i + 1] is Wrote
            },
            EventView::Wrote(Ok(_)) => events[i + 1] is Read,
            EventView::Wrote(Err(_)) => events[i + 1] is Request,
            EventView::Read(_) => events[i + 1] is Request,
        },
    decreases i,
{
    let next = handle.after(events.first());
    let rest = events.drop_first();
    assert(admits_all(next, rest));
    if i == 0 {
        assert(next.admits(rest.first()));
        assert(rest.first() == events[1]);
    } else {
        lemma_reports_in_turn(next, rest, i - 1);
        assert(rest[i - 1] == events[i]);
        assert(rest[i] == events[i + 1]);
    }
}

/// The run of one exchange's events, step by step.
pub proof fn lemma_run_steps(handle: HandleModel, text: Seq<u8>, wire: Wire)
    ensures
        run(handle, exchange_events(text, wire)) == if has_newline(text) {
            handle
        } else if wire.wrote is Err {
            handle.begin(text).wrote(wire.wrote)
        } else {
            handle.begin(text).wrote(wire.wrote).read()
        },
{
    let events = exchange_events(text, wire);
    let first = handle.after(events.first());
    let tail = events.drop_first();
    if has_newline(text) {
        assert(tail =~= Seq::empty());
        assert(run(first, tail) == first);
    } else {
        let second = first.after(tail.first());
        let last = tail.drop_first();
        if wire.wrote is Err {
            assert(last =~= Seq::empty());
            assert(run(second, last) == second);
            assert(run(first, tail) == second);
        } else {
            let third = second.after(last.first());
            assert(last.drop_first() =~= Seq::empty());
            assert(run(third, last.drop_first()) == third);
            assert(run(second, last) == third);
            assert(run(first, tail) == third);
        }
    }
}

/// One exchange, from a handle that is ready: its events are admitted, one
/// line at most is handed out and one read at most is asked for, and the
/// handle is ready again afterwards. A request that can travel as one line
/// has exactly its own line handed out; a good write is followed by exactly
/// one read.
pub proof fn lemma_one_exchange(handle: HandleModel, text: Seq<u8>, wire: Wire)
    requires
        handle.ready(),
    ensures
        admits_all(handle, exchange_events(text, wire)),
        run(handle, exchange_events(text, wire)).ready(),
        run(handle, exchange_events(text, wire)).sent == if has_newline(text) {
            handle.sent
        } else {
            handle.sent.push(frame(text))
        },
        run(handle, exchange_events(text, wire)).reads == if !has_newline(text) && wire.wrote
            is Ok {
            handle.reads + 1
        } else {
            handle.reads
        },
{
    lemma_run_steps(handle, text, wire);
    let events = exchange_events(text, wire);
    let first = handle.after(events.first());
    let tail = events.drop_first();
    if has_newline(text) {
        assert(tail =~= Seq::empty());
        assert(admits_all(first, tail));
    } else {
        let second = first.after(tail.first());
        let last = tail.drop_first();
        if wire.wrote is Err {
            assert(last =~= Seq::empty());
            assert(admits_all(second, last));
            assert(admits_all(first, tail));
        } else {
            let third = second.after(last.first());
            assert(last.drop_first() =~= Seq::empty());
            assert(admits_all(third, last.drop_first()));
            assert(admits_all(second, last));
            assert(admits_all(first, tail));
        }
    }
}

/// However many callers ask at once, and in whatever order they are let in:
/// served one after another, each with a request that can travel as one
/// line, they leave on the child's input exactly their own lines, whole and
/// in the order in which they were let in, whatever the pipes did meanwhile.
pub proof fn lemma_callers_in_turn(handle: HandleModel, texts: Seq<Seq<u8>>, wires: Seq<Wire>)
    requires
        handle.ready(),
        handle.wf(),
        texts.len() == wires.len(),
        forall|i: int| 0 <= i < texts.len() ==> !has_newline(#[trigger] texts[i]),
    ensures
        admits_all(handle, served(texts, wires)),
        run(handle, served(texts, wires)).ready(),
        run(handle, served(texts, wires)).sent == handle.sent + framed(texts),
        split(run(handle, served(texts, wires)).input()) == handle.sent + framed(texts),
    decreases texts.len(),
{
    if texts.len() == 0 {
        assert(handle.sent + framed(texts) =~= handle.sent);
        lemma_input_is_lines(handle);
    } else {
        let head = exchange_events(texts.first(), wires.first());
        let later_texts = texts.drop_first();
        let later_wires = wires.drop_first();
        let tail = served(later_texts, later_wires);
        let next = run(handle, head);
        lemma_one_exchange(handle, texts.first(), wires.first());
        lemma_run_keeps_wf(handle, head);
        assert forall|i: int| 0 <= i < later_texts.len() implies !has_newline(
            #[trigger] later_texts[i],
        ) by {
            assert(later_texts[i] == texts[i + 1]);
        }
        lemma_callers_in_turn(next, later_texts, later_wires);
        lemma_run_append(handle, head, tail);
        assert(next.sent + framed(later_texts) =~= handle.sent + framed(texts)) by {
            assert(next.sent == handle.sent.push(frame(texts.first())));
            assert forall|i: int| 0 <= i < later_texts.len() implies framed(later_texts)[i]
                == framed(texts)[i + 1] by {
                assert(later_texts[i] == texts[i + 1]);
            }
        }
    }
}

/// The child's life only moves forward: the report of a launch can take it
/// from not started to running, termination from running to terminated, and
/// nothing takes it back. Events leave the phase alone.
pub proof fn lemma_life_moves_forward(handle: HandleModel, launch: Launch, event: EventView)
    ensures
        handle.start(launch).phase.rank() >= handle.phase.rank(),
        handle.after(event).phase == handle.phase,
        handle.terminate().phase.rank() >= handle.phase.rank(),
        handle.start(launch).phase == Phase::Running ==> handle.phase == Phase::Running
            || (handle.phase == Phase::NotStarted && start_fault(launch) is None),
{
}

/// Termination is final and can be asked for again without effect: a
/// terminated handle admits no event, no launch starts it again, and
/// terminating it once more changes nothing. What was handed out to the
/// child before stays on record.
pub proof fn lemma_terminated_is_final(handle: HandleModel, launch: Launch, event: EventView)
    ensures
        handle.terminate().phase != Phase::Running,
        handle.phase == Phase::Running ==> handle.terminate().phase == Phase::Terminated,
        !handle.terminate().admits(event),
        handle.phase != Phase::NotStarted ==> handle.terminate().start(launch)
            == handle.terminate(),
        handle.terminate().terminate() == handle.terminate(),
        handle.terminate().sent == handle.sent,
        handle.wf() ==> handle.terminate().wf(),
{
}

} // verus!
