use accumulator_bridge::codec::command_of_member;
use accumulator_bridge::codec::command_of_members;
use accumulator_bridge::codec::command_of_name;
use accumulator_bridge::decode_command;
use accumulator_bridge::encode_command;
use accumulator_bridge::Command;

#[test]
fn decodes_each_command() {
    assert_eq!(decode_command("{\"Initialize\":42}").unwrap(), Command::Initialize(42));
    assert_eq!(decode_command("{\"Add\":12}").unwrap(), Command::Add(12));
    assert_eq!(decode_command("{\"Sub\":14}").unwrap(), Command::Subtract(14));
    assert_eq!(decode_command("\"PrintResult\"").unwrap(), Command::PrintResult);
}

#[test]
fn decodes_negative_and_extreme_payloads() {
    assert_eq!(decode_command("{\"Add\":-7}").unwrap(), Command::Add(-7));
    assert_eq!(
        decode_command("{\"Initialize\":9223372036854775807}").unwrap(),
        Command::Initialize(i64::MAX)
    );
    assert_eq!(
        decode_command("{\"Sub\":-9223372036854775808}").unwrap(),
        Command::Subtract(i64::MIN)
    );
}

#[test]
fn decoding_allows_space_around_the_parts() {
    assert_eq!(decode_command("  { \"Add\" : 5 }  ").unwrap(), Command::Add(5));
    assert_eq!(decode_command(" \"PrintResult\" ").unwrap(), Command::PrintResult);
}

#[test]
fn decoding_reads_escapes_in_names() {
    assert_eq!(decode_command("{\"\\u0041dd\":5}").unwrap(), Command::Add(5));
    assert_eq!(decode_command("\"Print\\u0052esult\"").unwrap(), Command::PrintResult);
}

#[test]
fn print_result_may_be_written_with_a_null_payload() {
    assert_eq!(decode_command("{\"PrintResult\":null}").unwrap(), Command::PrintResult);
}

#[test]
fn empty_line_is_malformed() {
    let error = decode_command("").unwrap_err();
    assert_eq!(error.line, "");
}

#[test]
fn malformed_lines_are_returned_in_the_error() {
    let lines = [
        "   ",
        "hello",
        "{",
        "{}",
        "[]",
        "null",
        "42",
        "\"Add\"",
        "\"Initialize\"",
        "\"Sub\"",
        "\"printresult\"",
        "\"Multiply\"",
        "{\"Multiply\":3}",
        "{\"add\":3}",
        "{\"Subtract\":3}",
        "{\"Add\":null}",
        "{\"Add\":\"3\"}",
        "{\"Add\":3.5}",
        "{\"Add\":3.0}",
        "{\"Add\":[3]}",
        "{\"Add\":true}",
        "{\"Add\":9223372036854775808}",
        "{\"Sub\":-9223372036854775809}",
        "{\"PrintResult\":3}",
        "{\"Add\":1,\"Sub\":2}",
        "{\"Add\":1} trailing",
        "{\"Add\":1}{\"Add\":2}",
        "\"PrintResult\" \"PrintResult\"",
    ];
    for line in lines {
        let error = decode_command(line).unwrap_err();
        assert_eq!(error.line, line);
    }
}

#[test]
fn names_without_payload() {
    assert_eq!(command_of_name("PrintResult"), Some(Command::PrintResult));
    assert_eq!(command_of_name("Add"), None);
    assert_eq!(command_of_name(""), None);
    assert_eq!(command_of_name("PrintResult "), None);
}

#[test]
fn names_with_payload() {
    assert_eq!(command_of_member("Initialize", Some(1)), Some(Command::Initialize(1)));
    assert_eq!(command_of_member("Add", Some(-2)), Some(Command::Add(-2)));
    assert_eq!(command_of_member("Sub", Some(3)), Some(Command::Subtract(3)));
    assert_eq!(command_of_member("PrintResult", None), Some(Command::PrintResult));
    assert_eq!(command_of_member("PrintResult", Some(3)), None);
    assert_eq!(command_of_member("Add", None), None);
    assert_eq!(command_of_member("Subtract", Some(3)), None);
    assert_eq!(command_of_member("", Some(3)), None);
}

#[test]
fn exactly_one_member_is_needed() {
    assert_eq!(command_of_members(&vec![]), None);
    assert_eq!(command_of_members(&vec![("Add".to_string(), Some(4))]), Some(Command::Add(4)));
    assert_eq!(
        command_of_members(&vec![("Add".to_string(), Some(4)), ("Sub".to_string(), Some(1))]),
        None
    );
}

#[test]
fn encodes_each_command() {
    assert_eq!(encode_command(Command::Initialize(42)), "{\"Initialize\":42}");
    assert_eq!(encode_command(Command::Add(12)), "{\"Add\":12}");
    assert_eq!(encode_command(Command::Subtract(-14)), "{\"Sub\":-14}");
    assert_eq!(encode_command(Command::PrintResult), "\"PrintResult\"");
}

#[test]
fn encoding_is_what_a_json_writer_produces() {
    let mut members = serde_json::Map::new();
    members.insert("Add".to_string(), serde_json::Value::from(i64::MIN));
    let written = serde_json::to_string(&serde_json::Value::Object(members)).unwrap();
    assert_eq!(encode_command(Command::Add(i64::MIN)), written);
    let written =
        serde_json::to_string(&serde_json::Value::String("PrintResult".to_string())).unwrap();
    assert_eq!(encode_command(Command::PrintResult), written);
}

#[test]
fn decoding_undoes_encoding() {
    let commands = [
        Command::Initialize(0),
        Command::Initialize(i64::MIN),
        Command::Add(i64::MAX),
        Command::Add(-1),
        Command::Subtract(72),
        Command::Subtract(i64::MIN),
        Command::PrintResult,
    ];
    for command in commands {
        assert_eq!(decode_command(&encode_command(command)).unwrap(), command);
    }
}

#[test]
fn repeated_key_counts_once_with_its_last_value() {
    assert_eq!(decode_command("{\"Add\":1,\"Add\":2}").unwrap(), Command::Add(2));
}
