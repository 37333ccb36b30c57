use crate::command::Command;
use crate::text::decimal_string;
use crate::text::decimal_text;
use std::collections::BTreeMap;
use vstd::prelude::*;
use vstd::string::StringExecFns;

verus! {

/// `serde_json::Error`: why a line could not be read. Nothing inside it is
/// visible here.
#[verifier::external_type_specification]
#[verifier::external_body]
pub struct ExJsonError(serde_json::Error);

/// What `serde_json::from_str` reads from a line as a `String`: the text of
/// the JSON string that is all the line holds, or `None` where the line is
/// anything else.
pub uninterp spec fn json_string(line: Seq<char>) -> Option<Seq<char>>;

/// What `serde_json::from_str` reads from a line as a map from strings to
/// optional 64-bit integers: the members of the JSON object that is all the
/// line holds, in the order of their keys, each with its integer, or with
/// `None` for `null`; a key that is written more than once counts once, with
/// its last value. `None` where the line is anything else.
pub uninterp spec fn json_members(line: Seq<char>) -> Option<Seq<(Seq<char>, Option<i64>)>>;

/// The members as plain values.
pub open spec fn member_views(members: Seq<(String, Option<i64>)>) -> Seq<
    (Seq<char>, Option<i64>),
> {
    members.map_values(|member: (String, Option<i64>)| (member.0@, member.1))
}

/// `serde_json::from_str`, reading a `String`. An empty line is an error.
#[verifier::external_body]
fn parse_string(line: &str) -> (parsed: Result<String, serde_json::Error>)
    ensures
        line@.len() == 0 ==> parsed is Err,
        match parsed {
            Ok(text) => json_string(line@) == Some(text@),
            Err(_) => json_string(line@) is None,
        },
{
    serde_json::from_str::<String>(line)
}

/// `serde_json::from_str`, reading a `BTreeMap<String, Option<i64>>`, whose
/// entries are handed on in the map's order. An empty line is an error.
#[verifier::external_body]
fn parse_members(line: &str) -> (parsed: Result<Vec<(String, Option<i64>)>, serde_json::Error>)
    ensures
        line@.len() == 0 ==> parsed is Err,
        match parsed {
            Ok(members) => json_members(line@) == Some(member_views(members@)),
            Err(_) => json_members(line@) is None,
        },
{
    serde_json::from_str::<BTreeMap<String, Option<i64>>>(line).map(
        |members| members.into_iter().collect(),
    )
}

/// The command that a bare name stands for: only `PrintResult` is written
/// without a payload.
pub open spec fn named(name: Seq<char>) -> Option<Command> {
    if name == "PrintResult"@ {
        Some(Command::PrintResult)
    } else {
        None
    }
}

/// The command that a name with a payload stands for. `Initialize`, `Add`
/// and `Sub` need an integer; `PrintResult` takes none.
pub open spec fn tagged(name: Seq<char>, payload: Option<i64>) -> Option<Command> {
    match payload {
        Some(n) => if name == "Initialize"@ {
            Some(Command::Initialize(n))
        } else if name == "Add"@ {
            Some(Command::Add(n))
        } else if name == "Sub"@ {
            Some(Command::Subtract(n))
        } else {
            None
        },
        None => named(name),
    }
}

/// The command that the parts of a line stand for: the line is either a
/// string that names a command, or an object with one member whose key
/// names it.
pub open spec fn assembled(
    string: Option<Seq<char>>,
    members: Option<Seq<(Seq<char>, Option<i64>)>>,
) -> Option<Command> {
    match string {
        Some(name) => named(name),
        None => match members {
            Some(entries) => if entries.len() == 1 {
                tagged(entries[0].0, entries[0].1)
            } else {
                None
            },
            None => None,
        },
    }
}

/// The command that a line of the stream stands for, or `None` where the
/// line is malformed.
pub open spec fn decoded(line: Seq<char>) -> Option<Command> {
    assembled(json_string(line), json_members(line))
}

/// How a command is written on a line of the stream.
pub open spec fn encoded(command: Command) -> Seq<char> {
    match command {
        Command::Initialize(n) => "{\"Initialize\":"@ + decimal_text(n as int) + "}"@,
        Command::Add(n) => "{\"Add\":"@ + decimal_text(n as int) + "}"@,
        Command::Subtract(n) => "{\"Sub\":"@ + decimal_text(n as int) + "}"@,
        Command::PrintResult => "\"PrintResult\""@,
    }
}

/// A line that stands for no command.
#[derive(Debug)]
pub struct ProtocolError {
    /// The line as it was received.
    pub line: String,
}

fn same_text(left: &str, right: &str) -> (same: bool)
    ensures
        same == (left@ == right@),
{
    String::from_str(left) == String::from_str(right)
}

/// Decides which command a bare name stands for.
pub fn command_of_name(name: &str) -> (command: Option<Command>)
    ensures
        command == named(name@),
{
    if same_text(name, "PrintResult") {
        Some(Command::PrintResult)
    } else {
        None
    }
}

/// Decides which command a name with a payload stands for.
pub fn command_of_member(name: &str, payload: Option<i64>) -> (command: Option<Command>)
    ensures
        command == tagged(name@, payload),
{
    match payload {
        Some(n) => {
            if same_text(name, "Initialize") {
                Some(Command::Initialize(n))
            } else if same_text(name, "Add") {
                Some(Command::Add(n))
            } else if same_text(name, "Sub") {
                Some(Command::Subtract(n))
            } else {
                None
            }
        },
        None => command_of_name(name),
    }
}

/// Decides which command the members of an object stand for.
pub fn command_of_members(members: &Vec<(String, Option<i64>)>) -> (command: Option<Command>)
    ensures
        command == assembled(None, Some(member_views(members@))),
{
    if members.len() == 1 {
        command_of_member(members[0].0.as_str(), members[0].1)
    } else {
        None
    }
}

/// Reads the command on a line. A line that stands for none, an empty one
/// among them, is returned in the error.
pub fn decode_command(line: &str) -> (read: Result<Command, ProtocolError>)
    ensures
        line@.len() == 0 ==> read is Err,
        match decoded(line@) {
            Some(command) => read is Ok && read->Ok_0 == command,
            None => read is Err && read->Err_0.line@ == line@,
        },
{
    let found = match parse_string(line) {
        Ok(name) => command_of_name(name.as_str()),
        Err(_) => match parse_members(line) {
            Ok(members) => command_of_members(&members),
            Err(_) => None,
        },
    };
    match found {
        Some(command) => Ok(command),
        None => Err(ProtocolError { line: String::from_str(line) }),
    }
}

/// Writes a command as a line of the stream, without the line's end.
pub fn encode_command(command: Command) -> (line: String)
    ensures
        line@ == encoded(command),
{
    match command {
        Command::Initialize(n) => String::from_str("{\"Initialize\":").concat(
            decimal_string(n).as_str(),
        ).concat("}"),
        Command::Add(n) => String::from_str("{\"Add\":").concat(decimal_string(n).as_str()).concat(
            "}",
        ),
        Command::Subtract(n) => String::from_str("{\"Sub\":").concat(
            decimal_string(n).as_str(),
        ).concat("}"),
        Command::PrintResult => String::from_str("\"PrintResult\""),
    }
}

} // verus!
