use crate::arithmetic::Arithmetic;
use crate::codec::decode_command;
use crate::codec::decoded;
use crate::codec::ProtocolError;
use crate::command::Command;
use crate::processor::initial_trace;
use crate::processor::process_message;
use crate::processor::report;
use crate::processor::step;
use crate::processor::trace_of;
use crate::processor::Overflow;
use crate::processor::Trace;
use crate::text::texts;
use vstd::prelude::*;
use vstd::string::StringExecFns;

verus! {

/// Why a stream session was given up.
#[derive(Debug)]
pub enum StreamError {
    /// The input could not be read; the text says why.
    Read(String),
    /// A line stood for no command; the text is that line.
    Malformed(String),
    /// A command would have taken the accumulator out of range.
    Overflow(Overflow),
    /// The output could not be written; the text says why.
    Write(String),
    /// The output could not be flushed; the text says why.
    Flush(String),
}

/// A `StreamError` as plain values.
pub enum Fault {
    Read(Seq<char>),
    Malformed(Seq<char>),
    Overflow(Overflow),
    Write(Seq<char>),
    Flush(Seq<char>),
}

impl View for StreamError {
    type V = Fault;

    open spec fn view(&self) -> Fault {
        match self {
            StreamError::Read(detail) => Fault::Read(detail@),
            StreamError::Malformed(line) => Fault::Malformed(line@),
            StreamError::Overflow(overflow) => Fault::Overflow(*overflow),
            StreamError::Write(detail) => Fault::Write(detail@),
            StreamError::Flush(detail) => Fault::Flush(detail@),
        }
    }
}

/// The diagnosis that a session's caller is given for a fault.
pub open spec fn description(fault: Fault) -> Seq<char> {
    "error processing stream: "@ + match fault {
        Fault::Read(detail) => "error reading input: "@ + detail,
        Fault::Malformed(line) => "invalid message: "@ + line,
        Fault::Overflow(_) => "arithmetic overflow"@,
        Fault::Write(detail) => "error writing output: "@ + detail,
        Fault::Flush(detail) => "error flushing output: "@ + detail,
    }
}

impl StreamError {
    /// Writes the diagnosis for this fault.
    pub fn describe(&self) -> (text: String)
        ensures
            text@ == description(self@),
    {
        let start = String::from_str("error processing stream: ");
        match self {
            StreamError::Read(detail) => start.concat("error reading input: ").concat(
                detail.as_str(),
            ),
            StreamError::Malformed(line) => start.concat("invalid message: ").concat(line.as_str()),
            StreamError::Overflow(_) => start.concat("arithmetic overflow"),
            StreamError::Write(detail) => start.concat("error writing output: ").concat(
                detail.as_str(),
            ),
            StreamError::Flush(detail) => start.concat("error flushing output: ").concat(
                detail.as_str(),
            ),
        }
    }
}

/// Where a session stands.
#[derive(Clone, Copy, Debug, PartialEq, Eq, Structural)]
pub enum Phase {
    /// Commands are being read and applied.
    Running,
    /// The input ended cleanly and the final value has been handed over.
    Done,
    /// The session was given up.
    Failed,
}

/// What happened on the streams since the pump last asked for something.
#[derive(Debug)]
pub enum Event {
    /// The input yielded this line, without its end.
    Line(String),
    /// The input was closed cleanly.
    EndOfInput,
    /// Reading the input failed; the text says why.
    ReadFailed(String),
    /// Writing what the pump last handed over failed; the text says why.
    WriteFailed(String),
    /// Flushing what the pump last handed over failed; the text says why.
    FlushFailed(String),
}

/// What the pump asks of whoever drives the streams.
#[derive(Debug)]
pub enum Action {
    /// Read the next line.
    Read,
    /// Write this text and flush, then read the next line.
    Reply(String),
    /// Write this text and flush; the session then ends with this value.
    Finish { text: String, value: i64 },
    /// Give up: the session ends with this error.
    Abort(StreamError),
    /// Nothing: the session had already ended.
    Idle,
}

/// An `Action` as plain values.
pub enum ActionView {
    Read,
    Reply(Seq<char>),
    Finish { text: Seq<char>, value: i64 },
    Abort(Fault),
    Idle,
}

impl View for Action {
    type V = ActionView;

    open spec fn view(&self) -> ActionView {
        match self {
            Action::Read => ActionView::Read,
            Action::Reply(text) => ActionView::Reply(text@),
            Action::Finish { text, value } => ActionView::Finish { text: text@, value: *value },
            Action::Abort(error) => ActionView::Abort(error@),
            Action::Idle => ActionView::Idle,
        }
    }
}

/// A pump as plain values: the accumulator with its trace, and the phase.
pub struct PumpView {
    pub trace: Trace,
    pub phase: Phase,
}

/// The pump after a fault, and what it asks: the session is given up with
/// the accumulator as it was.
pub open spec fn on_fault(trace: Trace, fault: Fault) -> (PumpView, ActionView) {
    (PumpView { trace, phase: Phase::Failed }, ActionView::Abort(fault))
}

/// The pump after a command, and what it asks. `PrintResult` has the
/// reported line written, with a line end; the other commands have the next
/// line read. A command that would overflow is a fault.
pub open spec fn on_command(trace: Trace, command: Command) -> (PumpView, ActionView) {
    match step(trace, command) {
        Some(next) => (
            PumpView { trace: next, phase: Phase::Running },
            match report(trace, command) {
                Some(line) => ActionView::Reply(line + "\n"@),
                None => ActionView::Read,
            },
        ),
        None => on_fault(trace, Fault::Overflow(Overflow { value: trace.value, command })),
    }
}

/// The pump after a line was read, and what it asks: the line's command is
/// applied, and a line that stands for none is a fault.
pub open spec fn on_line(trace: Trace, command: Option<Command>, line: Seq<char>) -> (
    PumpView,
    ActionView,
) {
    match command {
        Some(command) => on_command(trace, command),
        None => on_fault(trace, Fault::Malformed(line)),
    }
}

/// The pump after a decoded line arrived, and what it asks. A pump that is
/// not running stays as it is and asks nothing.
pub open spec fn dispatched(pump: PumpView, read: Result<Command, ProtocolError>) -> (
    PumpView,
    ActionView,
) {
    if pump.phase is Running {
        match read {
            Ok(command) => on_command(pump.trace, command),
            Err(error) => on_fault(pump.trace, Fault::Malformed(error.line@)),
        }
    } else {
        (pump, ActionView::Idle)
    }
}

/// The pump after an event, and what it asks.
///
/// While running: a line is decoded and applied; the end of the input ends
/// the session with one empty line as the last thing written; a failure to
/// read, write or flush gives the session up. Once done, only a failure to
/// write or flush the empty line still counts, and gives the session up;
/// every other event is ignored, as is every event after a failure.
pub open spec fn reacted(pump: PumpView, event: Event) -> (PumpView, ActionView) {
    match pump.phase {
        Phase::Running => match event {
            Event::Line(line) => on_line(pump.trace, decoded(line@), line@),
            Event::EndOfInput => (
                PumpView { trace: pump.trace, phase: Phase::Done },
                ActionView::Finish { text: "\n"@, value: pump.trace.value },
            ),
            Event::ReadFailed(detail) => on_fault(pump.trace, Fault::Read(detail@)),
            Event::WriteFailed(detail) => on_fault(pump.trace, Fault::Write(detail@)),
            Event::FlushFailed(detail) => on_fault(pump.trace, Fault::Flush(detail@)),
        },
        Phase::Done => match event {
            Event::WriteFailed(detail) => on_fault(pump.trace, Fault::Write(detail@)),
            Event::FlushFailed(detail) => on_fault(pump.trace, Fault::Flush(detail@)),
            _ => (pump, ActionView::Idle),
        },
        Phase::Failed => (pump, ActionView::Idle),
    }
}

/// Drives one stream session: it is told what happened on the streams, and
/// says what to do next.
pub struct StreamPump {
    num: Arithmetic,
    ops: Vec<String>,
    phase: Phase,
}

impl View for StreamPump {
    type V = PumpView;

    closed spec fn view(&self) -> PumpView {
        PumpView { trace: trace_of(self.num, self.ops@), phase: self.phase }
    }
}

impl StreamPump {
    /// A pump at the start of a session: running, at zero, with nothing
    /// traced.
    pub fn new() -> (pump: StreamPump)
        ensures
            pump@ == (PumpView { trace: initial_trace(), phase: Phase::Running }),
    {
        let ops: Vec<String> = Vec::new();
        assert(texts(ops@) =~= Seq::<Seq<char>>::empty());
        StreamPump { num: Arithmetic::new(0), ops, phase: Phase::Running }
    }

    /// The phase that the session is in.
    pub fn phase(&self) -> (phase: Phase)
        ensures
            phase == self@.phase,
    {
        self.phase
    }

    /// The accumulator's value.
    pub fn value(&self) -> (value: i64)
        ensures
            value == self@.trace.value,
    {
        self.num.get()
    }

    fn give_up(&mut self, error: StreamError) -> (action: Action)
        ensures
            (final(self)@, action@) == on_fault(old(self)@.trace, error@),
    {
        self.phase = Phase::Failed;
        Action::Abort(error)
    }

    /// Takes a line that has been decoded, applies its command and says what
    /// to do next.
    pub fn dispatch(&mut self, read: Result<Command, ProtocolError>) -> (action: Action)
        ensures
            (final(self)@, action@) == dispatched(old(self)@, read),
    {
        match self.phase {
            Phase::Running => {},
            _ => {
                return Action::Idle;
            },
        }
        match read {
            Ok(command) => match process_message(&mut self.ops, &mut self.num, command) {
                Ok(reported) => match reported {
                    Some(line) => Action::Reply(line.concat("\n")),
                    None => Action::Read,
                },
                Err(overflow) => self.give_up(StreamError::Overflow(overflow)),
            },
            Err(error) => self.give_up(StreamError::Malformed(error.line)),
        }
    }

    /// Takes an event and says what to do next.
    pub fn step(&mut self, event: Event) -> (action: Action)
        ensures
            (final(self)@, action@) == reacted(old(self)@, event),
    {
        match self.phase {
            Phase::Running => match event {
                Event::Line(line) => {
                    let read = decode_command(line.as_str());
                    self.dispatch(read)
                },
                Event::EndOfInput => {
                    self.phase = Phase::Done;
                    Action::Finish { text: String::from_str("\n"), value: self.num.get() }
                },
                Event::ReadFailed(detail) => self.give_up(StreamError::Read(detail)),
                Event::WriteFailed(detail) => self.give_up(StreamError::Write(detail)),
                Event::FlushFailed(detail) => self.give_up(StreamError::Flush(detail)),
            },
            Phase::Done => match event {
                Event::WriteFailed(detail) => self.give_up(StreamError::Write(detail)),
                Event::FlushFailed(detail) => self.give_up(StreamError::Flush(detail)),
                _ => Action::Idle,
            },
            Phase::Failed => Action::Idle,
        }
    }
}

/// Whether a line of the output is the one that ends the session: the
/// empty line.
pub fn is_terminator(line: &str) -> (ends: bool)
    ensures
        ends == (line@.len() == 0),
{
    line.is_empty()
}

} // verus!
