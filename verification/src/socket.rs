//! The line protocol of the daemon's Unix socket.
//!
//! A client writes one line holding a command (`start`, `stop`, `toggle` or
//! `status`); the daemon answers `status` with one line, `recording` or
//! `idle`. The socket itself is opened and served by the application.

use vstd::prelude::*;
use vstd::string::StringExecFns;

use crate::config::path_join_spec;
use crate::text::{text_eq, trim, trim_spec};

verus! {

/// A command sent to the daemon.
#[derive(Debug, Clone, Copy, PartialEq, Eq, Structural)]
pub enum SocketMessage {
    Start,
    Stop,
    Toggle,
    Status,
}

/// The command a received line names, once white space around it is removed.
pub open spec fn socket_message_spec(s: Seq<char>) -> Option<SocketMessage> {
    let t = trim_spec(s);
    if t == "start"@ {
        Some(SocketMessage::Start)
    } else if t == "stop"@ {
        Some(SocketMessage::Stop)
    } else if t == "toggle"@ {
        Some(SocketMessage::Toggle)
    } else if t == "status"@ {
        Some(SocketMessage::Status)
    } else {
        None
    }
}

/// The word a client writes for each command.
pub open spec fn message_word(m: SocketMessage) -> Seq<char> {
    match m {
        SocketMessage::Start => "start"@,
        SocketMessage::Stop => "stop"@,
        SocketMessage::Toggle => "toggle"@,
        SocketMessage::Status => "status"@,
    }
}

impl SocketMessage {
    /// Parses a received line; white space around the command is ignored,
    /// anything else is refused.
    pub fn from_str(s: &str) -> (r: Result<SocketMessage, ()>)
        ensures
            r is Ok == socket_message_spec(s@) is Some,
            r matches Ok(m) ==> socket_message_spec(s@) == Some(m),
    {
        let t = trim(s);
        if text_eq(t.as_str(), "start") {
            Ok(SocketMessage::Start)
        } else if text_eq(t.as_str(), "stop") {
            Ok(SocketMessage::Stop)
        } else if text_eq(t.as_str(), "toggle") {
            Ok(SocketMessage::Toggle)
        } else if text_eq(t.as_str(), "status") {
            Ok(SocketMessage::Status)
        } else {
            Err(())
        }
    }
}

/// Whether the daemon is recording.
#[derive(Debug, Clone, Copy, PartialEq, Eq, Structural)]
pub enum RecordingState {
    Recording,
    Idle,
}

/// The word the daemon answers for each state.
pub open spec fn state_word(s: RecordingState) -> Seq<char> {
    match s {
        RecordingState::Recording => "recording"@,
        RecordingState::Idle => "idle"@,
    }
}

impl RecordingState {
    /// The word the daemon answers a status request with.
    pub fn as_str(&self) -> (r: &'static str)
        ensures
            r@ == state_word(*self),
    {
        match self {
            RecordingState::Recording => "recording",
            RecordingState::Idle => "idle",
        }
    }
}

/// The path of the socket: `$XDG_RUNTIME_DIR/whisperme.sock`, or
/// `/tmp/whisperme.sock` when the variable is not set.
pub fn socket_path(runtime_dir: Option<&str>) -> (r: String)
    ensures
        r@ == path_join_spec(
            match runtime_dir {
                Some(d) => d@,
                None => "/tmp"@,
            },
            "whisperme.sock"@,
        ),
{
    let dir = match runtime_dir {
        Some(d) => d,
        None => "/tmp",
    };
    crate::config::path_join(dir, "whisperme.sock")
}

/// The line a client writes for a command: the command and a newline.
pub fn command_line(command: &str) -> (r: String)
    ensures
        r@ == command@ + "\n"@,
{
    let mut r = command.to_owned();
    r.append("\n");
    r
}

/// Whether the client waits for an answer: only for `status`.
pub fn expects_reply(command: &str) -> (b: bool)
    ensures
        b == (command@ == "status"@),
{
    text_eq(command, "status")
}

/// The line the daemon answers a status request with.
pub fn reply_line(state: RecordingState) -> (r: String)
    ensures
        r@ == state_word(state) + "\n"@,
{
    let mut r = state.as_str().to_owned();
    r.append("\n");
    r
}

/// What the client prints of the daemon's answer: the line without the
/// white space around it.
pub fn parse_reply(line: &str) -> (r: String)
    ensures
        r@ == trim_spec(line@),
{
    trim(line)
}

/// What the daemon does with a line received on a connection.
#[derive(Debug, Clone, Copy, PartialEq, Eq, Structural)]
pub enum ConnectionAction {
    /// Not a command: close the connection without an answer.
    Ignore,
    /// Pass the command on to the daemon's loop.
    Forward(SocketMessage),
    /// Ask the daemon's loop for its state and write it back.
    AnswerStatus,
}

/// What the daemon does with a received line.
pub open spec fn connection_action_spec(line: Seq<char>) -> ConnectionAction {
    match socket_message_spec(line) {
        None => ConnectionAction::Ignore,
        Some(SocketMessage::Status) => ConnectionAction::AnswerStatus,
        Some(m) => ConnectionAction::Forward(m),
    }
}

/// Decides what to do with the line received on a connection.
pub fn connection_action(line: &str) -> (a: ConnectionAction)
    ensures
        a == connection_action_spec(line@),
{
    match SocketMessage::from_str(line) {
        Err(()) => ConnectionAction::Ignore,
        Ok(SocketMessage::Status) => ConnectionAction::AnswerStatus,
        Ok(m) => ConnectionAction::Forward(m),
    }
}

proof fn lemma_trim_word_newline(w: Seq<char>)
    requires
        w.len() > 0,
        !crate::text::is_white_space(w[0]),
        !crate::text::is_white_space(w.last()),
    ensures
        trim_spec(w + "\n"@) == w,
{
    reveal_strlit("\n");
    let s = w + "\n"@;
    assert(crate::text::trim_start_spec(s) == s);
    assert(s.last() == '\n');
    assert(s.drop_last() =~= w);
    assert(crate::text::trim_end_spec(w) == w);
}

/// The line a client writes for a command is read by the daemon as that
/// same command.
pub proof fn lemma_command_line_round_trip(m: SocketMessage)
    ensures
        socket_message_spec(message_word(m) + "\n"@) == Some(m),
{
    reveal_strlit("start");
    reveal_strlit("stop");
    reveal_strlit("toggle");
    reveal_strlit("status");
    lemma_trim_word_newline(message_word(m));
}

/// The client prints exactly the word the daemon answered with.
pub proof fn lemma_reply_round_trip(state: RecordingState)
    ensures
        trim_spec(state_word(state) + "\n"@) == state_word(state),
{
    reveal_strlit("recording");
    reveal_strlit("idle");
    lemma_trim_word_newline(state_word(state));
}

} // verus!
