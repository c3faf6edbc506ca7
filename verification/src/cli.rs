//! The command line of the `whisperme` client.
//!
//! `whisperme start|stop|toggle` sends the command to the daemon,
//! `whisperme status` prints the daemon's answer, `whisperme config` opens the
//! configuration dialog; anything else prints the usage and fails.

use vstd::prelude::*;

use crate::text::text_eq;

verus! {

/// What the client does.
#[derive(Debug, Clone, Copy, PartialEq, Eq, Structural)]
pub enum CliCommand {
    /// Send `start`, `stop` or `toggle` to the daemon.
    Control,
    /// Send `status` and print the answer.
    QueryStatus,
    /// Open the configuration dialog.
    OpenConfig,
    /// An unknown command: print the usage, exit with status 1.
    Unknown,
    /// No command: print the usage, exit with status 1.
    Missing,
}

/// What the client does for its arguments (the program name first).
pub open spec fn cli_command_spec(args: Seq<Seq<char>>) -> CliCommand {
    if args.len() < 2 {
        CliCommand::Missing
    } else if args[1] == "start"@ || args[1] == "stop"@ || args[1] == "toggle"@ {
        CliCommand::Control
    } else if args[1] == "status"@ {
        CliCommand::QueryStatus
    } else if args[1] == "config"@ {
        CliCommand::OpenConfig
    } else {
        CliCommand::Unknown
    }
}

/// Decides what the client does for its arguments.
pub fn parse_cli(args: &Vec<String>) -> (c: CliCommand)
    ensures
        c == cli_command_spec(args@.map_values(|a: String| a@)),
{
    let ghost v = args@.map_values(|a: String| a@);
    if args.len() < 2 {
        return CliCommand::Missing;
    }
    let cmd = args[1].as_str();
    assert(v[1] == cmd@);
    if text_eq(cmd, "start") || text_eq(cmd, "stop") || text_eq(cmd, "toggle") {
        CliCommand::Control
    } else if text_eq(cmd, "status") {
        CliCommand::QueryStatus
    } else if text_eq(cmd, "config") {
        CliCommand::OpenConfig
    } else {
        CliCommand::Unknown
    }
}

} // verus!
