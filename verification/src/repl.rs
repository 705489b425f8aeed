use vstd::prelude::*;
use crate::text::{
    all_white_space, law_trim_end_ignores_added_white_space, parse_i8, parse_i8_spec, str_equals,
    trim_end, trim_end_spec,
};

verus! {

/// The commands of the interactive prompt.
#[derive(Debug, Clone, Copy, PartialEq, Eq)]
pub enum ReplCommand {
    Help,
    Connect,
    Disconnect,
    ScanStart,
    ScanStop,
    List,
    Select,
    Test,
    Stop,
    Pause,
    Reload,
    Exit,
    Invalid,
}

/// The command that a (trimmed) line names; anything else is invalid.
pub open spec fn command_for(cmd: Seq<char>) -> ReplCommand {
    if cmd == "help"@ {
        ReplCommand::Help
    } else if cmd == "connect"@ {
        ReplCommand::Connect
    } else if cmd == "disconnect"@ {
        ReplCommand::Disconnect
    } else if cmd == "scan start"@ {
        ReplCommand::ScanStart
    } else if cmd == "scan stop"@ {
        ReplCommand::ScanStop
    } else if cmd == "list"@ {
        ReplCommand::List
    } else if cmd == "select"@ {
        ReplCommand::Select
    } else if cmd == "test"@ {
        ReplCommand::Test
    } else if cmd == "stop"@ {
        ReplCommand::Stop
    } else if cmd == "pause"@ {
        ReplCommand::Pause
    } else if cmd == "reload"@ {
        ReplCommand::Reload
    } else if cmd == "exit"@ {
        ReplCommand::Exit
    } else {
        ReplCommand::Invalid
    }
}

/// The device index that a line selects: the line without its trailing white
/// space, read as an `i8`; -1 (every device) where it is not one, and any
/// value below -1 raised to -1.
pub open spec fn selection_for(line: Seq<char>) -> i8 {
    match parse_i8_spec(trim_end_spec(line)) {
        Some(v) => if v < -1 {
            -1i8
        } else {
            v
        },
        None => -1i8,
    }
}

/// Tells which command `cmd` names.
pub fn process_command(cmd: &str) -> (r: ReplCommand)
    ensures
        r == command_for(cmd@),
{
    if str_equals(cmd, "help") {
        ReplCommand::Help
    } else if str_equals(cmd, "connect") {
        ReplCommand::Connect
    } else if str_equals(cmd, "disconnect") {
        ReplCommand::Disconnect
    } else if str_equals(cmd, "scan start") {
        ReplCommand::ScanStart
    } else if str_equals(cmd, "scan stop") {
        ReplCommand::ScanStop
    } else if str_equals(cmd, "list") {
        ReplCommand::List
    } else if str_equals(cmd, "select") {
        ReplCommand::Select
    } else if str_equals(cmd, "test") {
        ReplCommand::Test
    } else if str_equals(cmd, "stop") {
        ReplCommand::Stop
    } else if str_equals(cmd, "pause") {
        ReplCommand::Pause
    } else if str_equals(cmd, "reload") {
        ReplCommand::Reload
    } else if str_equals(cmd, "exit") {
        ReplCommand::Exit
    } else {
        ReplCommand::Invalid
    }
}

/// Tells which command a line read from the prompt names, once its trailing
/// white space (the line break among it) is cut off.
pub fn read_command(line: &str) -> (r: ReplCommand)
    ensures
        r == command_for(trim_end_spec(line@)),
{
    process_command(trim_end(line))
}

/// The device index that the answer to `select` picks.
pub fn _cmd_select(line: &str) -> (r: i8)
    ensures
        r == selection_for(line@),
        r >= -1,
{
    let id: i8 = match parse_i8(trim_end(line)) {
        Some(v) => v,
        None => -1,
    };
    if id < -1 {
        -1
    } else {
        id
    }
}

/// The answer to `select` ignores trailing white space: the line break and
/// any spaces or tabs typed before it.
pub proof fn law_selection_ignores_trailing_white_space(line: Seq<char>, w: Seq<char>)
    requires
        all_white_space(w),
    ensures
        selection_for(line + w) == selection_for(line),
{
    law_trim_end_ignores_added_white_space(line, w);
}

/// A line holding a number of `i8` of at least -1, followed by any trailing
/// white space, selects that number; every answer selects -1 or more.
pub proof fn law_selection_reads_the_number(line: Seq<char>, w: Seq<char>, v: i8)
    requires
        all_white_space(w),
        parse_i8_spec(trim_end_spec(line)) == Some(v),
        v >= -1,
    ensures
        selection_for(line + w) == v,
        selection_for(line) >= -1,
{
    law_trim_end_ignores_added_white_space(line, w);
}

/// A command line ignores trailing white space.
pub proof fn law_command_ignores_trailing_white_space(line: Seq<char>, w: Seq<char>)
    requires
        all_white_space(w),
    ensures
        command_for(trim_end_spec(line + w)) == command_for(trim_end_spec(line)),
{
    law_trim_end_ignores_added_white_space(line, w);
}

} // verus!
