use crate::arithmetic::fits_i64;
use crate::arithmetic::Arithmetic;
use crate::command::Command;
use crate::processor::initial_trace;
use crate::processor::process_message;
use crate::processor::render;
use crate::processor::step;
use crate::processor::trace_of;
use crate::processor::Overflow;
use crate::processor::Trace;
use crate::text::decimal_text;
use crate::text::joined;
use crate::text::texts;
use vstd::prelude::*;

verus! {

/// Where a run of commands ends: the state reached and the lines reported on
/// the way.
pub struct Ending {
    pub trace: Trace,
    pub printed: Seq<Seq<char>>,
}

/// Runs the commands in order from state `t`. The run stops at the first
/// command that would overflow.
pub open spec fn run(t: Trace, commands: Seq<Command>) -> Result<Ending, Overflow>
    decreases commands.len(),
{
    if commands.len() == 0 {
        Ok(Ending { trace: t, printed: Seq::empty() })
    } else {
        match run(t, commands.drop_last()) {
            Err(overflow) => Err(overflow),
            Ok(so_far) => match step(so_far.trace, commands.last()) {
                None => Err(Overflow { value: so_far.trace.value, command: commands.last() }),
                Some(next) => Ok(
                    Ending {
                        trace: next,
                        printed: if commands.last() is PrintResult {
                            so_far.printed.push(render(so_far.trace))
                        } else {
                            so_far.printed
                        },
                    },
                ),
            },
        }
    }
}

/// What a command contributes to the value: what it adds, or the negative of
/// what it subtracts.
pub open spec fn change(command: Command) -> int {
    match command {
        Command::Add(n) => n as int,
        Command::Subtract(n) => -(n as int),
        _ => 0,
    }
}

/// The sum of the changes of the commands.
pub open spec fn net_change(commands: Seq<Command>) -> int
    decreases commands.len(),
{
    if commands.len() == 0 {
        0
    } else {
        net_change(commands.drop_last()) + change(commands.last())
    }
}

/// Whether every command adds or subtracts.
pub open spec fn only_arithmetic(commands: Seq<Command>) -> bool {
    forall|i: int|
        0 <= i < commands.len() ==> (#[trigger] commands[i] is Add || commands[i] is Subtract)
}

/// Whether the value stays in range throughout, when the commands are
/// applied in order to `start`.
pub open spec fn stays_in_range(start: int, commands: Seq<Command>) -> bool {
    forall|k: int|
        0 <= k <= commands.len() ==> fits_i64(start + #[trigger] net_change(commands.take(k)))
}

/// The result of a batch: the final value, and the line reported by each
/// `PrintResult`, in order.
pub struct BatchReport {
    pub value: i64,
    pub printed: Vec<String>,
}

/// Runs a batch of commands from zero with nothing traced.
pub fn process_batch(commands: &Vec<Command>) -> (outcome: Result<BatchReport, Overflow>)
    ensures
        match run(initial_trace(), commands@) {
            Ok(ending) => outcome is Ok && outcome->Ok_0.value == ending.trace.value && texts(
                outcome->Ok_0.printed@,
            ) == ending.printed,
            Err(overflow) => outcome == Err::<BatchReport, Overflow>(overflow),
        },
{
    let mut ops: Vec<String> = Vec::new();
    let mut num = Arithmetic::new(0);
    let mut printed: Vec<String> = Vec::new();
    let mut i: usize = 0;
    assert(texts(ops@) =~= Seq::<Seq<char>>::empty());
    assert(texts(printed@) =~= Seq::<Seq<char>>::empty());
    assert(commands@.take(0) =~= Seq::<Command>::empty());
    while i < commands.len()
        invariant
            i <= commands.len(),
            run(initial_trace(), commands@.take(i as int)) == Ok::<Ending, Overflow>(
                Ending { trace: trace_of(num, ops@), printed: texts(printed@) },
            ),
        decreases commands.len() - i,
    {
        let ghost prefix = commands@.take(i + 1);
        assert(prefix.drop_last() =~= commands@.take(i as int));
        assert(prefix.last() == commands@[i as int]);
        match process_message(&mut ops, &mut num, commands[i]) {
            Ok(reported) => {
                match reported {
                    Some(line) => {
                        let ghost earlier = printed@;
                        printed.push(line);
                        assert(texts(printed@) =~= texts(earlier).push(line@));
                    },
                    None => {},
                }
            },
            Err(overflow) => {
                proof {
                    run_keeps_failing(initial_trace(), commands@, i + 1);
                }
                return Err(overflow);
            },
        }
        i += 1;
    }
    assert(commands@.take(i as int) =~= commands@);
    Ok(BatchReport { value: num.get(), printed })
}

/// A run that has failed on a prefix fails in the same way on the whole.
pub proof fn run_keeps_failing(t: Trace, commands: Seq<Command>, k: int)
    requires
        0 <= k <= commands.len(),
        run(t, commands.take(k)) is Err,
    ensures
        run(t, commands) == run(t, commands.take(k)),
    decreases commands.len(),
{
    if k == commands.len() {
        assert(commands.take(k) =~= commands);
    } else {
        assert(commands.drop_last().take(k) =~= commands.take(k));
        run_keeps_failing(t, commands.drop_last(), k);
    }
}

/// Running two lists of commands one after the other is running their
/// concatenation.
pub proof fn run_in_two_parts(t: Trace, first: Seq<Command>, second: Seq<Command>)
    ensures
        run(t, first + second) == match run(t, first) {
            Err(overflow) => Err::<Ending, Overflow>(overflow),
            Ok(middle) => match run(middle.trace, second) {
                Err(overflow) => Err::<Ending, Overflow>(overflow),
                Ok(ending) => Ok::<Ending, Overflow>(
                    Ending { trace: ending.trace, printed: middle.printed + ending.printed },
                ),
            },
        },
    decreases second.len(),
{
    if second.len() == 0 {
        assert(first + second =~= first);
        match run(t, first) {
            Ok(middle) => {
                assert(middle.printed + Seq::<Seq<char>>::empty() =~= middle.printed);
            },
            Err(_) => {},
        }
    } else {
        assert((first + second).drop_last() =~= first + second.drop_last());
        assert((first + second).last() == second.last());
        run_in_two_parts(t, first, second.drop_last());
        match run(t, first) {
            Ok(middle) => {
                match run(middle.trace, second.drop_last()) {
                    Ok(so_far) => {
                        assert((middle.printed + so_far.printed).push(render(so_far.trace))
                            =~= middle.printed + so_far.printed.push(render(so_far.trace)));
                    },
                    Err(_) => {},
                }
            },
            Err(_) => {},
        }
    }
}

/// Additions and subtractions that keep the value in range end at the
/// starting value plus the sum of what was added, less what was subtracted,
/// and report nothing.
pub proof fn arithmetic_run_sums(t: Trace, commands: Seq<Command>)
    requires
        only_arithmetic(commands),
        stays_in_range(t.value as int, commands),
    ensures
        run(t, commands) is Ok,
        run(t, commands)->Ok_0.trace.value == t.value + net_change(commands),
        run(t, commands)->Ok_0.printed == Seq::<Seq<char>>::empty(),
    decreases commands.len(),
{
    if commands.len() > 0 {
        let shorter = commands.drop_last();
        assert(only_arithmetic(shorter));
        assert forall|k: int| 0 <= k <= shorter.len() implies fits_i64(
            t.value + #[trigger] net_change(shorter.take(k)),
        ) by {
            assert(shorter.take(k) =~= commands.take(k));
        }
        arithmetic_run_sums(t, shorter);
        assert(commands.take(commands.len() as int) =~= commands);
        assert(fits_i64(t.value + net_change(commands.take(commands.len() as int))));
        assert(commands[commands.len() - 1] is Add || commands[commands.len() - 1] is Subtract);
    }
}

/// A batch of additions and subtractions that stay in range returns their
/// sum: it starts from zero.
pub proof fn batch_sums_from_zero(commands: Seq<Command>)
    requires
        only_arithmetic(commands),
        stays_in_range(0, commands),
    ensures
        run(initial_trace(), commands) is Ok,
        run(initial_trace(), commands)->Ok_0.trace.value == net_change(commands),
{
    arithmetic_run_sums(initial_trace(), commands);
}

/// A batch that initializes to `v` and then only adds and subtracts, staying
/// in range, returns `v` plus the sum of what was added, less what was
/// subtracted.
pub proof fn batch_sums_from_initial_value(v: i64, commands: Seq<Command>)
    requires
        only_arithmetic(commands),
        stays_in_range(v as int, commands),
    ensures
        run(initial_trace(), seq![Command::Initialize(v)] + commands) is Ok,
        run(initial_trace(), seq![Command::Initialize(v)] + commands)->Ok_0.trace.value == v
            + net_change(commands),
{
    let first = seq![Command::Initialize(v)];
    assert(first.drop_last() =~= Seq::<Command>::empty());
    assert(run(initial_trace(), first.drop_last()) == Ok::<Ending, Overflow>(
        Ending { trace: initial_trace(), printed: Seq::empty() },
    ));
    let seeded = Trace { value: v, history: seq![decimal_text(v as int)] };
    assert(run(initial_trace(), first)->Ok_0.trace == seeded);
    run_in_two_parts(initial_trace(), first, commands);
    arithmetic_run_sums(seeded, commands);
}

/// The first report after `Initialize(v)` shows `v = v`: initializing seeds
/// the trace with the value, so the placeholder is not shown.
pub proof fn print_after_initialize(t: Trace, v: i64)
    ensures
        run(t, seq![Command::Initialize(v), Command::PrintResult]) is Ok,
        run(t, seq![Command::Initialize(v), Command::PrintResult])->Ok_0.printed == seq![
            decimal_text(v as int) + " = "@ + decimal_text(v as int),
        ],
{
    let both = seq![Command::Initialize(v), Command::PrintResult];
    let first = both.drop_last();
    assert(first =~= seq![Command::Initialize(v)]);
    assert(first.drop_last() =~= Seq::<Command>::empty());
    assert(run(t, first.drop_last()) == Ok::<Ending, Overflow>(
        Ending { trace: t, printed: Seq::empty() },
    ));
    let seeded = Trace { value: v, history: seq![decimal_text(v as int)] };
    assert(run(t, first)->Ok_0.trace == seeded);
    assert(joined(seeded.history) == decimal_text(v as int));
    assert(run(t, both)->Ok_0.printed =~= seq![render(seeded)]);
}

/// Two reports in a row show the same value, and the second shows nothing
/// but that value: `v = v`.
pub proof fn print_twice(t: Trace)
    ensures
        run(t, seq![Command::PrintResult, Command::PrintResult]) is Ok,
        run(t, seq![Command::PrintResult, Command::PrintResult])->Ok_0.trace.value == t.value,
        run(t, seq![Command::PrintResult, Command::PrintResult])->Ok_0.printed == seq![
            render(t),
            decimal_text(t.value as int) + " = "@ + decimal_text(t.value as int),
        ],
{
    let both = seq![Command::PrintResult, Command::PrintResult];
    let first = both.drop_last();
    assert(first =~= seq![Command::PrintResult]);
    assert(first.drop_last() =~= Seq::<Command>::empty());
    assert(run(t, first.drop_last()) == Ok::<Ending, Overflow>(
        Ending { trace: t, printed: Seq::empty() },
    ));
    let collapsed = Trace { value: t.value, history: seq![decimal_text(t.value as int)] };
    assert(run(t, first)->Ok_0.trace == collapsed);
    assert(run(t, first)->Ok_0.printed =~= seq![render(t)]);
    assert(joined(collapsed.history) == decimal_text(t.value as int));
    assert(run(t, both)->Ok_0.printed =~= seq![render(t), render(collapsed)]);
}

} // verus!
