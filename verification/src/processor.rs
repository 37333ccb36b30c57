use crate::arithmetic::fits_i64;
use crate::arithmetic::Arithmetic;
use crate::command::Command;
use crate::text::decimal_string;
use crate::text::decimal_text;
use crate::text::join_spaced;
use crate::text::joined;
use crate::text::texts;
use vstd::prelude::*;
use vstd::string::StringExecFns;

verus! {

/// The accumulator together with its trace: the value, and the operations
/// that led to it since the trace was last started anew.
pub struct Trace {
    pub value: i64,
    pub history: Seq<Seq<char>>,
}

/// The state in which every run starts: zero, with nothing traced.
pub open spec fn initial_trace() -> Trace {
    Trace { value: 0, history: Seq::empty() }
}

/// The state held by an accumulator and a list of traced operations.
pub open spec fn trace_of(num: Arithmetic, ops: Seq<String>) -> Trace {
    Trace { value: num.value(), history: texts(ops) }
}

/// The line that reports a state: the traced operations separated by single
/// spaces, then ` = ` and the value; or a placeholder where nothing has been
/// traced.
pub open spec fn render(t: Trace) -> Seq<char> {
    if t.history.len() == 0 {
        "<empty buffer>"@
    } else {
        joined(t.history) + " = "@ + decimal_text(t.value as int)
    }
}

/// The state after a command, or `None` where the command would take the
/// value out of range.
pub open spec fn step(t: Trace, command: Command) -> Option<Trace> {
    match command {
        Command::Initialize(n) => Some(Trace { value: n, history: seq![decimal_text(n as int)] }),
        Command::Add(n) => if fits_i64(t.value + n) {
            Some(
                Trace {
                    value: (t.value + n) as i64,
                    history: t.history.push("+ "@ + decimal_text(n as int)),
                },
            )
        } else {
            None
        },
        Command::Subtract(n) => if fits_i64(t.value - n) {
            Some(
                Trace {
                    value: (t.value - n) as i64,
                    history: t.history.push("- "@ + decimal_text(n as int)),
                },
            )
        } else {
            None
        },
        Command::PrintResult => Some(
            Trace { value: t.value, history: seq![decimal_text(t.value as int)] },
        ),
    }
}

/// Once a command has been applied, the trace is never empty.
pub proof fn history_never_empty_after_command(t: Trace, command: Command)
    requires
        step(t, command) is Some,
    ensures
        step(t, command)->Some_0.history.len() > 0,
{
}

/// What a command reports: `PrintResult` reports the state it finds, the
/// other commands nothing.
pub open spec fn report(t: Trace, command: Command) -> Option<Seq<char>> {
    if command is PrintResult {
        Some(render(t))
    } else {
        None
    }
}

/// The view of an optional line.
pub open spec fn line_view(line: Option<String>) -> Option<Seq<char>> {
    match line {
        Some(text) => Some(text@),
        None => None,
    }
}

/// A command that was refused because it would have taken the accumulator
/// out of the range of `i64`.
#[derive(Clone, Copy, Debug, PartialEq, Eq, Structural)]
pub struct Overflow {
    /// The accumulator's value when the command arrived.
    pub value: i64,
    /// The command that was refused.
    pub command: Command,
}

/// Renders the line that reports an accumulator and its traced operations.
pub fn format_result(num: &Arithmetic, ops: &Vec<String>) -> (line: String)
    ensures
        line@ == render(trace_of(*num, ops@)),
{
    if ops.len() == 0 {
        return String::from_str("<empty buffer>");
    }
    let mut line = join_spaced(ops);
    line.append(" = ");
    let value = decimal_string(num.get());
    line.append(value.as_str());
    line
}

/// Applies one command to the accumulator and its traced operations, and
/// returns what the command reports. A command that would overflow is
/// refused and changes nothing.
pub fn process_message(ops: &mut Vec<String>, num: &mut Arithmetic, message: Command) -> (done:
    Result<Option<String>, Overflow>)
    ensures
        match step(trace_of(*old(num), old(ops)@), message) {
            Some(next) => done is Ok && line_view(done->Ok_0) == report(
                trace_of(*old(num), old(ops)@),
                message,
            ) && trace_of(*final(num), final(ops)@) == next,
            None => done == Err::<Option<String>, Overflow>(
                Overflow { value: old(num).value(), command: message },
            ) && final(num).value() == old(num).value() && final(ops)@ == old(ops)@,
        },
{
    match message {
        Command::Initialize(n) => {
            ops.clear();
            ops.push(decimal_string(n));
            *num = Arithmetic::new(n);
            assert(texts(ops@) =~= seq![decimal_text(n as int)]);
            Ok(None)
        },
        Command::Add(n) => {
            let before = num.get();
            match num.add(n) {
                Some(_) => {
                    let ghost earlier = ops@;
                    let entry = String::from_str("+ ").concat(decimal_string(n).as_str());
                    ops.push(entry);
                    assert(texts(ops@) =~= texts(earlier).push("+ "@ + decimal_text(n as int)));
                    Ok(None)
                },
                None => Err(Overflow { value: before, command: message }),
            }
        },
        Command::Subtract(n) => {
            let before = num.get();
            match num.sub(n) {
                Some(_) => {
                    let ghost earlier = ops@;
                    let entry = String::from_str("- ").concat(decimal_string(n).as_str());
                    ops.push(entry);
                    assert(texts(ops@) =~= texts(earlier).push("- "@ + decimal_text(n as int)));
                    Ok(None)
                },
                None => Err(Overflow { value: before, command: message }),
            }
        },
        Command::PrintResult => {
            let line = format_result(num, ops);
            ops.clear();
            ops.push(decimal_string(num.get()));
            assert(texts(ops@) =~= seq![decimal_text(num.value() as int)]);
            Ok(Some(line))
        },
    }
}

} // verus!
