use crate::batch::run;
use crate::codec::decoded;
use crate::command::Command;
use crate::processor::initial_trace;
use crate::processor::render;
use crate::processor::step;
use crate::processor::Overflow;
use crate::processor::Trace;
use crate::stream::Action;
use crate::stream::Event;
use crate::stream::Fault;
use crate::stream::Phase;
use crate::stream::PumpView;
use crate::stream::StreamError;
use crate::stream::StreamPump;
use crate::text::texts;
use vstd::prelude::*;
use vstd::string::StringExecFns;

verus! {

/// How far a session has come after some lines of input: the state, the
/// lines reported so far, and the fault that stopped it, if one did.
pub struct Progress {
    pub trace: Trace,
    pub printed: Seq<Seq<char>>,
    pub fault: Option<Fault>,
}

/// Feeds the lines to a new session, in order. The first line that stands
/// for no command, or whose command would overflow, stops the session; the
/// lines after it are not looked at.
pub open spec fn fed(lines: Seq<Seq<char>>) -> Progress
    decreases lines.len(),
{
    if lines.len() == 0 {
        Progress { trace: initial_trace(), printed: Seq::empty(), fault: None }
    } else {
        let so_far = fed(lines.drop_last());
        if so_far.fault is Some {
            so_far
        } else {
            match decoded(lines.last()) {
                None => Progress { fault: Some(Fault::Malformed(lines.last())), ..so_far },
                Some(command) => match step(so_far.trace, command) {
                    None => Progress {
                        fault: Some(
                            Fault::Overflow(Overflow { value: so_far.trace.value, command }),
                        ),
                        ..so_far
                    },
                    Some(next) => Progress {
                        trace: next,
                        printed: if command is PrintResult {
                            so_far.printed.push(render(so_far.trace))
                        } else {
                            so_far.printed
                        },
                        fault: None,
                    },
                },
            }
        }
    }
}

/// The lines as they are written to a stream: each followed by a line end.
pub open spec fn framed(lines: Seq<Seq<char>>) -> Seq<char>
    decreases lines.len(),
{
    if lines.len() == 0 {
        Seq::empty()
    } else {
        framed(lines.drop_last()) + lines.last() + "\n"@
    }
}

/// What a session leaves behind: all that it wrote, and its result.
pub struct Transcript {
    pub output: Seq<char>,
    pub result: Result<i64, Fault>,
}

/// The session over input that holds these lines and then ends cleanly,
/// with an output that takes all that is written. Each report is written as
/// a line. A session that reaches the end of the input writes one empty
/// line and results in the accumulator's value; one that is stopped writes
/// nothing more and results in the fault.
pub open spec fn session(lines: Seq<Seq<char>>) -> Transcript {
    let progress = fed(lines);
    match progress.fault {
        Some(fault) => Transcript { output: framed(progress.printed), result: Err(fault) },
        None => Transcript {
            output: framed(progress.printed) + "\n"@,
            result: Ok(progress.trace.value),
        },
    }
}

/// The result of a session as plain values.
pub open spec fn result_view(result: Result<i64, StreamError>) -> Result<i64, Fault> {
    match result {
        Ok(value) => Ok(value),
        Err(error) => Err(error@),
    }
}

/// What a session over given input left behind.
#[derive(Debug)]
pub struct SessionOutcome {
    /// All that the session wrote.
    pub output: String,
    /// The final value, or why the session was given up.
    pub result: Result<i64, StreamError>,
}

/// Runs one session over input that holds these lines and then ends
/// cleanly, and collects what the session writes.
pub fn stream_session(lines: &Vec<String>) -> (outcome: SessionOutcome)
    ensures
        outcome.output@ == session(texts(lines@)).output,
        result_view(outcome.result) == session(texts(lines@)).result,
{
    let mut pump = StreamPump::new();
    let mut output = String::new();
    let mut i: usize = 0;
    let ghost all = texts(lines@);
    assert(all.take(0) =~= Seq::<Seq<char>>::empty());
    while i < lines.len()
        invariant
            i <= lines.len(),
            all == texts(lines@),
            fed(all.take(i as int)).fault is None,
            pump@ == (PumpView { trace: fed(all.take(i as int)).trace, phase: Phase::Running }),
            output@ == framed(fed(all.take(i as int)).printed),
        decreases lines.len() - i,
    {
        let ghost before = fed(all.take(i as int));
        let ghost prefix = all.take(i + 1);
        proof {
            assert(prefix.drop_last() =~= all.take(i as int));
            assert(prefix.last() == lines@[i as int]@);
        }
        let action = pump.step(Event::Line(lines[i].clone()));
        match action {
            Action::Read => {},
            Action::Reply(text) => {
                output.append(text.as_str());
                proof {
                    let printed = fed(prefix).printed;
                    assert(printed.drop_last() =~= before.printed);
                    assert(output@ =~= framed(printed));
                }
            },
            Action::Abort(error) => {
                proof {
                    fed_stays_stopped(all, i + 1);
                }
                return SessionOutcome { output, result: Err(error) };
            },
            Action::Finish { .. } | Action::Idle => unreached(),
        }
        i += 1;
    }
    assert(all.take(i as int) =~= all);
    match pump.step(Event::EndOfInput) {
        Action::Finish { text, value } => {
            output.append(text.as_str());
            SessionOutcome { output, result: Ok(value) }
        },
        _ => unreached(),
    }
}

/// A session that was stopped on some of its lines stays as it was then,
/// whatever lines follow.
pub proof fn fed_stays_stopped(lines: Seq<Seq<char>>, k: int)
    requires
        0 <= k <= lines.len(),
        fed(lines.take(k)).fault is Some,
    ensures
        fed(lines) == fed(lines.take(k)),
    decreases lines.len(),
{
    if k == lines.len() {
        assert(lines.take(k) =~= lines);
    } else {
        assert(lines.drop_last().take(k) =~= lines.take(k));
        fed_stays_stopped(lines.drop_last(), k);
    }
}

/// Whether each line stands for the command at its place in `commands`.
pub open spec fn spells(lines: Seq<Seq<char>>, commands: Seq<Command>) -> bool {
    &&& lines.len() == commands.len()
    &&& forall|i: int| 0 <= i < lines.len() ==> decoded(#[trigger] lines[i]) == Some(commands[i])
}

/// A session whose lines all stand for commands does what a batch of those
/// commands does: it reaches the same state and reports the same lines, or
/// is stopped by the same overflow.
pub proof fn session_follows_batch(lines: Seq<Seq<char>>, commands: Seq<Command>)
    requires
        spells(lines, commands),
    ensures
        match run(initial_trace(), commands) {
            Ok(ending) => fed(lines) == (Progress {
                trace: ending.trace,
                printed: ending.printed,
                fault: None,
            }),
            Err(overflow) => fed(lines).fault == Some(Fault::Overflow(overflow)),
        },
    decreases lines.len(),
{
    if lines.len() > 0 {
        assert(spells(lines.drop_last(), commands.drop_last()));
        session_follows_batch(lines.drop_last(), commands.drop_last());
        assert(decoded(lines[lines.len() - 1]) == Some(commands[lines.len() - 1]));
    }
}

/// A session that is given lines which stand for commands, none of them
/// `PrintResult`, and then a clean end of input, writes nothing but the one
/// empty line, and results in the value that the batch of those commands
/// returns. Where the batch is stopped by an overflow, the session is
/// stopped by the same overflow, and writes nothing at all.
pub proof fn quiet_session_ends_like_batch(lines: Seq<Seq<char>>, commands: Seq<Command>)
    requires
        spells(lines, commands),
        forall|i: int| 0 <= i < commands.len() ==> !(#[trigger] commands[i] is PrintResult),
    ensures
        match run(initial_trace(), commands) {
            Ok(ending) => session(lines) == (Transcript {
                output: "\n"@,
                result: Ok(ending.trace.value),
            }),
            Err(overflow) => session(lines) == (Transcript {
                output: Seq::empty(),
                result: Err(Fault::Overflow(overflow)),
            }),
        },
{
    session_follows_batch(lines, commands);
    quiet_session_reports_nothing(lines, commands);
    assert(framed(Seq::<Seq<char>>::empty()) + "\n"@ =~= "\n"@);
}

/// A session without `PrintResult` reports nothing.
pub proof fn quiet_session_reports_nothing(lines: Seq<Seq<char>>, commands: Seq<Command>)
    requires
        spells(lines, commands),
        forall|i: int| 0 <= i < commands.len() ==> !(#[trigger] commands[i] is PrintResult),
    ensures
        fed(lines).printed == Seq::<Seq<char>>::empty(),
    decreases lines.len(),
{
    if lines.len() > 0 {
        assert(spells(lines.drop_last(), commands.drop_last()));
        quiet_session_reports_nothing(lines.drop_last(), commands.drop_last());
        assert(decoded(lines[lines.len() - 1]) == Some(commands[lines.len() - 1]));
        assert(!(commands[commands.len() - 1] is PrintResult));
    }
}

} // verus!
