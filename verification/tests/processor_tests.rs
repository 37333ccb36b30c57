use accumulator_bridge::format_result;
use accumulator_bridge::process_batch;
use accumulator_bridge::process_message;
use accumulator_bridge::Arithmetic;
use accumulator_bridge::Command;
use accumulator_bridge::Overflow;

#[test]
fn empty_trace_renders_the_placeholder() {
    assert_eq!(format_result(&Arithmetic::new(0), &vec![]), "<empty buffer>");
    assert_eq!(format_result(&Arithmetic::new(99), &vec![]), "<empty buffer>");
}

#[test]
fn trace_renders_operations_then_value() {
    let ops = vec!["14".to_string(), "+ 14".to_string(), "+ 14".to_string()];
    assert_eq!(format_result(&Arithmetic::new(42), &ops), "14 + 14 + 14 = 42");
    let ops = vec!["42".to_string()];
    assert_eq!(format_result(&Arithmetic::new(42), &ops), "42 = 42");
    let ops = vec!["0".to_string(), "- 5".to_string()];
    assert_eq!(format_result(&Arithmetic::new(-5), &ops), "0 - 5 = -5");
}

#[test]
fn initialize_resets_value_and_trace() {
    let mut ops = vec!["1".to_string(), "+ 2".to_string()];
    let mut num = Arithmetic::new(3);
    let done = process_message(&mut ops, &mut num, Command::Initialize(-8));
    assert_eq!(done, Ok(None));
    assert_eq!(num.get(), -8);
    assert_eq!(ops, vec!["-8".to_string()]);
}

#[test]
fn add_and_subtract_append_to_the_trace() {
    let mut ops = Vec::new();
    let mut num = Arithmetic::new(0);
    assert_eq!(process_message(&mut ops, &mut num, Command::Add(5)), Ok(None));
    assert_eq!(process_message(&mut ops, &mut num, Command::Subtract(7)), Ok(None));
    assert_eq!(process_message(&mut ops, &mut num, Command::Add(-3)), Ok(None));
    assert_eq!(num.get(), -5);
    assert_eq!(ops, vec!["+ 5".to_string(), "- 7".to_string(), "+ -3".to_string()]);
}

#[test]
fn print_result_reports_and_collapses_the_trace() {
    let mut ops = vec!["14".to_string(), "+ 14".to_string()];
    let mut num = Arithmetic::new(28);
    let done = process_message(&mut ops, &mut num, Command::PrintResult);
    assert_eq!(done, Ok(Some("14 + 14 = 28".to_string())));
    assert_eq!(num.get(), 28);
    assert_eq!(ops, vec!["28".to_string()]);
}

#[test]
fn print_after_initialize_shows_the_value_twice() {
    let mut ops = Vec::new();
    let mut num = Arithmetic::new(0);
    assert_eq!(process_message(&mut ops, &mut num, Command::Initialize(7)), Ok(None));
    let done = process_message(&mut ops, &mut num, Command::PrintResult);
    assert_eq!(done, Ok(Some("7 = 7".to_string())));
}

#[test]
fn print_on_a_new_state_shows_the_placeholder() {
    let mut ops = Vec::new();
    let mut num = Arithmetic::new(0);
    let done = process_message(&mut ops, &mut num, Command::PrintResult);
    assert_eq!(done, Ok(Some("<empty buffer>".to_string())));
    assert_eq!(ops, vec!["0".to_string()]);
}

#[test]
fn two_prints_in_a_row_show_the_same_value() {
    let mut ops = vec!["14".to_string(), "+ 14".to_string(), "+ 14".to_string()];
    let mut num = Arithmetic::new(42);
    let first = process_message(&mut ops, &mut num, Command::PrintResult);
    let second = process_message(&mut ops, &mut num, Command::PrintResult);
    assert_eq!(first, Ok(Some("14 + 14 + 14 = 42".to_string())));
    assert_eq!(second, Ok(Some("42 = 42".to_string())));
    assert_eq!(num.get(), 42);
}

#[test]
fn overflowing_command_is_refused_and_changes_nothing() {
    let mut ops = vec!["1".to_string()];
    let mut num = Arithmetic::new(1);
    let done = process_message(&mut ops, &mut num, Command::Add(i64::MAX));
    assert_eq!(done, Err(Overflow { value: 1, command: Command::Add(i64::MAX) }));
    assert_eq!(num.get(), 1);
    assert_eq!(ops, vec!["1".to_string()]);
    let mut num = Arithmetic::new(-2);
    let done = process_message(&mut ops, &mut num, Command::Subtract(i64::MAX));
    assert_eq!(done, Err(Overflow { value: -2, command: Command::Subtract(i64::MAX) }));
    assert_eq!(num.get(), -2);
    assert_eq!(ops, vec!["1".to_string()]);
}

#[test]
fn batch_scenario_returns_minus_forty_two() {
    let commands = vec![
        Command::Initialize(14),
        Command::Add(14),
        Command::Add(14),
        Command::PrintResult,
        Command::Subtract(72),
        Command::Subtract(12),
        Command::PrintResult,
    ];
    let report = process_batch(&commands).unwrap();
    assert_eq!(report.value, -42);
    assert_eq!(
        report.printed,
        vec!["14 + 14 + 14 = 42".to_string(), "42 - 72 - 12 = -42".to_string()]
    );
}

#[test]
fn batch_that_prints_first_shows_the_placeholder() {
    let commands = vec![
        Command::PrintResult,
        Command::Initialize(14),
        Command::Add(14),
        Command::Add(14),
        Command::PrintResult,
        Command::Subtract(72),
        Command::Subtract(12),
        Command::PrintResult,
    ];
    let report = process_batch(&commands).unwrap();
    assert_eq!(report.value, -42);
    assert_eq!(
        report.printed,
        vec![
            "<empty buffer>".to_string(),
            "14 + 14 + 14 = 42".to_string(),
            "42 - 72 - 12 = -42".to_string()
        ]
    );
}

#[test]
fn empty_batch_returns_zero() {
    let report = process_batch(&vec![]).unwrap();
    assert_eq!(report.value, 0);
    assert!(report.printed.is_empty());
}

#[test]
fn batch_without_initialize_sums_from_zero() {
    let commands = vec![Command::Add(5), Command::Subtract(8), Command::Add(100)];
    let report = process_batch(&commands).unwrap();
    assert_eq!(report.value, 5 - 8 + 100);
    assert!(report.printed.is_empty());
}

#[test]
fn batch_after_initialize_sums_from_its_value() {
    let commands =
        vec![Command::Initialize(1000), Command::Subtract(1), Command::Add(-9), Command::Add(10)];
    let report = process_batch(&commands).unwrap();
    assert_eq!(report.value, 1000 - 1 - 9 + 10);
}

#[test]
fn later_initialize_overrides_what_came_before() {
    let commands = vec![Command::Add(5), Command::Initialize(3), Command::Add(1)];
    let report = process_batch(&commands).unwrap();
    assert_eq!(report.value, 4);
}

#[test]
fn batch_stops_at_the_first_overflow() {
    let commands = vec![
        Command::Add(i64::MAX),
        Command::PrintResult,
        Command::Add(1),
        Command::Initialize(0),
    ];
    let outcome = process_batch(&commands);
    assert_eq!(
        outcome.err(),
        Some(Overflow { value: i64::MAX, command: Command::Add(1) })
    );
}
