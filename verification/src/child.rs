//! The child process handle: where the child stands in its life, and where
//! one exchange with it stands.
//!
//! The handle owns no process and no pipe. It decides; the program that owns
//! them acts. For one exchange the program reports an [`Event`] and is told
//! the next [`Action`]: write this line, read one line, or stop with this
//! outcome. The handle keeps, as ghost state, every line it has handed out
//! for the child's input and the number of lines it has asked for from the
//! child's output, so that what reaches the child can be stated and proved.

use vstd::prelude::*;
use crate::error::{
    long_read, short_read, ExchangeError, ExchangeFault, Pipe, StartError, StartFault,
};
use crate::framing::{
    ends_line, frame, frame_line, has_newline, is_full_line, is_line, is_one_line, join,
};
use crate::json::{json_decode, JsonValue};

verus! {

/// Where the child stands in its life. It only ever moves forward.
#[derive(Debug, Clone, Copy, PartialEq, Eq, Structural)]
pub enum Phase {
    /// No child has been started yet.
    NotStarted,
    /// The child runs and both pipes to it are held.
    Running,
    /// The child was stopped and reaped.
    Terminated,
}

impl Phase {
    /// How far along its life the child is.
    pub open spec fn rank(self) -> int {
        match self {
            Phase::NotStarted => 0,
            Phase::Running => 1,
            Phase::Terminated => 2,
        }
    }
}

/// Where the exchange in flight stands, if there is one.
#[derive(Debug, Clone, Copy, PartialEq, Eq, Structural)]
pub enum Stage {
    /// No exchange is in flight.
    Idle,
    /// A line was handed out and its write has not been reported yet.
    Writing,
    /// The line was written and the answer has not been reported yet.
    Reading,
}

/// What launching the executable produced.
#[derive(Debug, Clone, PartialEq, Eq)]
pub enum Launch {
    /// The executable could not be launched; holds the system's reason.
    Failed(String),
    /// A process was created; says which of its pipes could be taken.
    Spawned { stdin: bool, stdout: bool },
}

/// The error that a launch amounts to, if any. The input pipe is looked at
/// before the output pipe.
pub open spec fn start_fault(launch: Launch) -> Option<StartFault> {
    match launch {
        Launch::Failed(reason) => Some(StartFault::Spawn(reason@)),
        Launch::Spawned { stdin: false, stdout: _ } => Some(StartFault::PipeUnavailable(Pipe::Stdin)),
        Launch::Spawned { stdin: true, stdout: false } => Some(
            StartFault::PipeUnavailable(Pipe::Stdout),
        ),
        Launch::Spawned { stdin: true, stdout: true } => None,
    }
}

/// What the program reports to the handle during an exchange.
#[derive(Debug, PartialEq, Eq)]
pub enum Event {
    /// A caller holds exclusive access and asks for this request to be sent.
    Request(JsonValue),
    /// The line was written and flushed, or that failed for the reason given.
    Wrote(Result<(), String>),
    /// One read up to a newline gave these bytes, or failed for the reason given.
    Read(Result<Vec<u8>, String>),
}

/// What the handle asks of the program next.
#[derive(Debug, PartialEq, Eq)]
pub enum Action {
    /// Write these bytes to the child's input and flush it.
    Write(Vec<u8>),
    /// Read from the child's output up to and including the next newline.
    ReadLine,
    /// The exchange is over, with this outcome.
    Done(Result<JsonValue, ExchangeError>),
}

/// The view of an [`Event`].
pub enum EventView {
    Request(Seq<u8>),
    Wrote(Result<(), Seq<char>>),
    Read(Result<Seq<u8>, Seq<char>>),
}

/// The view of an [`Action`].
pub enum ActionView {
    Write(Seq<u8>),
    ReadLine,
    Done(Result<Seq<u8>, ExchangeFault>),
}

/// The view of a reported write.
pub open spec fn wrote_view(outcome: Result<(), String>) -> Result<(), Seq<char>> {
    match outcome {
        Ok(()) => Ok(()),
        Err(reason) => Err(reason@),
    }
}

/// The view of a reported read.
pub open spec fn read_view(outcome: Result<Vec<u8>, String>) -> Result<Seq<u8>, Seq<char>> {
    match outcome {
        Ok(raw) => Ok(raw@),
        Err(reason) => Err(reason@),
    }
}

/// The view of an exchange's outcome.
pub open spec fn outcome_view(outcome: Result<JsonValue, ExchangeError>) -> Result<
    Seq<u8>,
    ExchangeFault,
> {
    match outcome {
        Ok(value) => Ok(value@),
        Err(error) => Err(error@),
    }
}

impl View for Event {
    type V = EventView;

    open spec fn view(&self) -> EventView {
        match self {
            Event::Request(request) => EventView::Request(request@),
            Event::Wrote(outcome) => EventView::Wrote(wrote_view(*outcome)),
            Event::Read(outcome) => EventView::Read(read_view(*outcome)),
        }
    }
}

impl View for Action {
    type V = ActionView;

    open spec fn view(&self) -> ActionView {
        match self {
            Action::Write(line) => ActionView::Write(line@),
            Action::ReadLine => ActionView::ReadLine,
            Action::Done(outcome) => ActionView::Done(outcome_view(*outcome)),
        }
    }
}

/// What taking up a request with this text comes to: the line to write, or
/// a refusal because the text would not stay on one line.
pub open spec fn begin_outcome(text: Seq<u8>) -> Result<Seq<u8>, ExchangeFault> {
    if has_newline(text) {
        Err(ExchangeFault::Protocol)
    } else {
        Ok(frame(text))
    }
}

/// What a reported write comes to: go on to the read, or the end of the
/// exchange.
pub open spec fn wrote_outcome(outcome: Result<(), Seq<char>>) -> Result<(), ExchangeFault> {
    match outcome {
        Ok(()) => Ok(()),
        Err(reason) => Err(ExchangeFault::Write(reason)),
    }
}

/// The outcome of an exchange whose read gave `outcome`. Bytes that stop
/// short of a newline mean that the child's output ended; bytes that run
/// past a newline are not what was asked for; exactly one line is decoded
/// as it stands.
pub open spec fn read_outcome(outcome: Result<Seq<u8>, Seq<char>>) -> Result<
    Seq<u8>,
    ExchangeFault,
> {
    match outcome {
        Err(reason) => Err(ExchangeFault::Read(reason)),
        Ok(raw) => if !ends_line(raw) {
            Err(ExchangeFault::Read(short_read()))
        } else if !is_line(raw) {
            Err(ExchangeFault::Read(long_read()))
        } else {
            match json_decode(raw) {
                Ok(text) => Ok(text),
                Err(reason) => Err(ExchangeFault::Decode(reason)),
            }
        },
    }
}

/// The handle as the contracts see it.
pub struct HandleModel {
    /// Where the child stands in its life.
    pub phase: Phase,
    /// Where the exchange in flight stands.
    pub stage: Stage,
    /// The lines handed out for the child's input, oldest first.
    pub sent: Seq<Seq<u8>>,
    /// How many lines were asked for from the child's output.
    pub reads: nat,
}

impl HandleModel {
    /// The handle before anything happened.
    pub open spec fn fresh() -> HandleModel {
        HandleModel { phase: Phase::NotStarted, stage: Stage::Idle, sent: Seq::empty(), reads: 0 }
    }

    /// Whether every line handed out so far is exactly one line.
    pub open spec fn well_framed(self) -> bool {
        forall|i: int| 0 <= i < self.sent.len() ==> is_line(#[trigger] self.sent[i])
    }

    /// What holds of every handle: each line handed out is exactly one line,
    /// an exchange is in flight only while the child runs, and no line was
    /// asked for from the child's output but after a line of its own was
    /// written to the child's input.
    pub open spec fn wf(self) -> bool {
        &&& self.well_framed()
        &&& self.stage != Stage::Idle ==> self.phase == Phase::Running
        &&& self.reads + (if self.stage == Stage::Writing {
            1int
        } else {
            0int
        }) <= self.sent.len()
    }

    /// Whether an exchange may begin: the child runs and none is in flight.
    pub open spec fn ready(self) -> bool {
        self.phase == Phase::Running && self.stage == Stage::Idle
    }

    /// The handle after a launch was reported: running, if nothing was
    /// started before and the launch gave a process with both pipes.
    pub open spec fn start(self, launch: Launch) -> HandleModel {
        if self.phase == Phase::NotStarted && start_fault(launch) is None {
            HandleModel { phase: Phase::Running, ..self }
        } else {
            self
        }
    }

    /// The handle after a request with this text was taken up.
    pub open spec fn begin(self, text: Seq<u8>) -> HandleModel {
        if has_newline(text) {
            self
        } else {
            HandleModel { stage: Stage::Writing, sent: self.sent.push(frame(text)), ..self }
        }
    }

    /// The handle after the write was reported.
    pub open spec fn wrote(self, outcome: Result<(), Seq<char>>) -> HandleModel {
        match outcome {
            Ok(()) => HandleModel { stage: Stage::Reading, reads: self.reads + 1, ..self },
            Err(_) => HandleModel { stage: Stage::Idle, ..self },
        }
    }

    /// The handle after the read was reported.
    pub open spec fn read(self) -> HandleModel {
        HandleModel { stage: Stage::Idle, ..self }
    }

    /// The handle after it was told to terminate.
    pub open spec fn terminate(self) -> HandleModel {
        if self.phase == Phase::Running {
            HandleModel { phase: Phase::Terminated, stage: Stage::Idle, ..self }
        } else {
            self
        }
    }

    /// Whether `event` is in order now. A request needs a running child and
    /// no exchange in flight; a report needs the exchange to wait for it.
    pub open spec fn admits(self, event: EventView) -> bool {
        self.phase == Phase::Running && match event {
            EventView::Request(_) => self.stage == Stage::Idle,
            EventView::Wrote(_) => self.stage == Stage::Writing,
            EventView::Read(_) => self.stage == Stage::Reading,
        }
    }

    /// The handle after `event`.
    pub open spec fn after(self, event: EventView) -> HandleModel {
        match event {
            EventView::Request(text) => self.begin(text),
            EventView::Wrote(outcome) => self.wrote(outcome),
            EventView::Read(_) => self.read(),
        }
    }

    /// Every byte handed out for the child's input, in order.
    pub open spec fn input(self) -> Seq<u8> {
        join(self.sent)
    }
}

/// The action that answers `event`: after a request its line is to be
/// written, after a good write one line is to be read, and everything else
/// ends the exchange.
pub open spec fn action_for(event: EventView) -> ActionView {
    match event {
        EventView::Request(text) => match begin_outcome(text) {
            Ok(line) => ActionView::Write(line),
            Err(fault) => ActionView::Done(Err(fault)),
        },
        EventView::Wrote(outcome) => match wrote_outcome(outcome) {
            Ok(()) => ActionView::ReadLine,
            Err(fault) => ActionView::Done(Err(fault)),
        },
        EventView::Read(outcome) => ActionView::Done(read_outcome(outcome)),
    }
}

/// The view of a line that was handed out or refused.
pub open spec fn line_view(outcome: Result<Vec<u8>, ExchangeError>) -> Result<
    Seq<u8>,
    ExchangeFault,
> {
    match outcome {
        Ok(line) => Ok(line@),
        Err(error) => Err(error@),
    }
}

/// The view of a step that went through or ended the exchange.
pub open spec fn unit_view(outcome: Result<(), ExchangeError>) -> Result<(), ExchangeFault> {
    match outcome {
        Ok(()) => Ok(()),
        Err(error) => Err(error@),
    }
}

/// The state that the bridge keeps of its one child.
pub struct ChildHandle {
    phase: Phase,
    stage: Stage,
    sent: Ghost<Seq<Seq<u8>>>,
    reads: Ghost<nat>,
}

impl View for ChildHandle {
    type V = HandleModel;

    closed spec fn view(&self) -> HandleModel {
        HandleModel { phase: self.phase, stage: self.stage, sent: self.sent@, reads: self.reads@ }
    }
}

impl ChildHandle {
    /// Holds of every handle there is.
    #[verifier::type_invariant]
    pub open spec fn inv(self) -> bool {
        self@.wf()
    }

    /// A handle for a child that is yet to be started.
    pub fn new() -> (handle: ChildHandle)
        ensures
            handle@ == HandleModel::fresh(),
            handle@.wf(),
    {
        ChildHandle {
            phase: Phase::NotStarted,
            stage: Stage::Idle,
            sent: Ghost(Seq::empty()),
            reads: Ghost(0),
        }
    }

    /// Where the child stands in its life.
    pub fn phase(&self) -> (phase: Phase)
        ensures
            phase == self@.phase,
    {
        self.phase
    }

    /// Where the exchange in flight stands.
    pub fn stage(&self) -> (stage: Stage)
        ensures
            stage == self@.stage,
    {
        self.stage
    }

    /// Whether an exchange may begin.
    pub fn is_ready(&self) -> (ready: bool)
        ensures
            ready == self@.ready(),
    {
        self.phase == Phase::Running && self.stage == Stage::Idle
    }

    /// Whether `event` is in order now.
    pub fn admits(&self, event: &Event) -> (admitted: bool)
        ensures
            admitted == self@.admits(event@),
    {
        self.phase == Phase::Running && match event {
            Event::Request(_) => self.stage == Stage::Idle,
            Event::Wrote(_) => self.stage == Stage::Writing,
            Event::Read(_) => self.stage == Stage::Reading,
        }
    }

    /// Takes the report of the launch. The child counts as running only if a
    /// process was created and both pipes were taken; otherwise the handle
    /// stays as it was and the error says what was missing.
    pub fn start(&mut self, launch: Launch) -> (outcome: Result<(), StartError>)
        requires
            old(self)@.phase == Phase::NotStarted,
        ensures
            final(self)@ == old(self)@.start(launch),
            final(self)@.wf(),
            match outcome {
                Ok(()) => start_fault(launch) is None,
                Err(error) => start_fault(launch) == Some(error@),
            },
    {
        proof {
            use_type_invariant(&*self);
        }
        match launch {
            Launch::Failed(reason) => Err(StartError::Spawn(reason)),
            Launch::Spawned { stdin, stdout } => {
                if !stdin {
                    Err(StartError::PipeUnavailable(Pipe::Stdin))
                } else if !stdout {
                    Err(StartError::PipeUnavailable(Pipe::Stdout))
                } else {
                    self.phase = Phase::Running;
                    Ok(())
                }
            },
        }
    }

    /// Takes up a request: frames its text as one line and hands the line
    /// out for writing. A text that holds a raw newline is refused, and then
    /// nothing is handed out and the handle stays as it was.
    pub fn begin(&mut self, request: &JsonValue) -> (line: Result<Vec<u8>, ExchangeError>)
        requires
            old(self)@.ready(),
        ensures
            final(self)@ == old(self)@.begin(request@),
            final(self)@.wf(),
            line_view(line) == begin_outcome(request@),
    {
        proof {
            use_type_invariant(&*self);
        }
        match frame_line(request.as_bytes()) {
            Some(line) => {
                self.sent = Ghost(self.sent@.push(line@));
                self.stage = Stage::Writing;
                Ok(line)
            },
            None => Err(ExchangeError::Protocol),
        }
    }

    /// Takes the report of the write. After a good write exactly one read is
    /// due; after a failed one the exchange is over.
    pub fn wrote(&mut self, outcome: Result<(), String>) -> (next: Result<(), ExchangeError>)
        requires
            old(self)@.phase == Phase::Running,
            old(self)@.stage == Stage::Writing,
        ensures
            final(self)@ == old(self)@.wrote(wrote_view(outcome)),
            final(self)@.wf(),
            unit_view(next) == wrote_outcome(wrote_view(outcome)),
    {
        proof {
            use_type_invariant(&*self);
        }
        match outcome {
            Ok(()) => {
                self.stage = Stage::Reading;
                self.reads = Ghost(self.reads@ + 1);
                Ok(())
            },
            Err(reason) => {
                self.stage = Stage::Idle;
                Err(ExchangeError::Write(reason))
            },
        }
    }

    /// Takes the report of the read and ends the exchange: with the decoded
    /// line, or with the error that says why there is none.
    pub fn read(&mut self, outcome: Result<Vec<u8>, String>) -> (result: Result<
        JsonValue,
        ExchangeError,
    >)
        requires
            old(self)@.phase == Phase::Running,
            old(self)@.stage == Stage::Reading,
        ensures
            final(self)@ == old(self)@.read(),
            final(self)@.wf(),
            outcome_view(result) == read_outcome(read_view(outcome)),
    {
        proof {
            use_type_invariant(&*self);
        }
        self.stage = Stage::Idle;
        match outcome {
            Err(reason) => Err(ExchangeError::Read(reason)),
            Ok(raw) => {
                if !is_full_line(raw.as_slice()) {
                    Err(ExchangeError::short_read())
                } else if !is_one_line(raw.as_slice()) {
                    Err(ExchangeError::long_read())
                } else {
                    match JsonValue::parse(raw.as_slice()) {
                        Ok(value) => Ok(value),
                        Err(reason) => Err(ExchangeError::Decode(reason)),
                    }
                }
            },
        }
    }

    /// One step of an exchange: from the handle and what happened to the
    /// handle afterwards and what to do next.
    pub fn step(&mut self, event: Event) -> (action: Action)
        requires
            old(self)@.admits(event@),
        ensures
            final(self)@ == old(self)@.after(event@),
            final(self)@.wf(),
            action@ == action_for(event@),
    {
        match event {
            Event::Request(request) => match self.begin(&request) {
                Ok(line) => Action::Write(line),
                Err(error) => Action::Done(Err(error)),
            },
            Event::Wrote(outcome) => match self.wrote(outcome) {
                Ok(()) => Action::ReadLine,
                Err(error) => Action::Done(Err(error)),
            },
            Event::Read(outcome) => Action::Done(self.read(outcome)),
        }
    }

    /// Ends the child's life. Returns whether the process has to be stopped
    /// and reaped now: yes if it was running, no if it never ran or was
    /// terminated before, in which case nothing changes. An exchange in
    /// flight is given up.
    pub fn terminate(&mut self) -> (reap: bool)
        ensures
            final(self)@ == old(self)@.terminate(),
            final(self)@.wf(),
            reap == (old(self)@.phase == Phase::Running),
    {
        proof {
            use_type_invariant(&*self);
        }
        if self.phase == Phase::Running {
            self.stage = Stage::Idle;
            self.phase = Phase::Terminated;
            true
        } else {
            false
        }
    }
}

} // verus!
