use whisperme::cli::{parse_cli, CliCommand};
use whisperme::daemon::{daemon_step, DaemonAction, DaemonEvent};
use whisperme::socket::{
    command_line, connection_action, expects_reply, parse_reply, reply_line, socket_path,
    ConnectionAction, RecordingState, SocketMessage,
};

#[test]
fn messages_parse_with_surrounding_whitespace() {
    assert_eq!(SocketMessage::from_str("start"), Ok(SocketMessage::Start));
    assert_eq!(SocketMessage::from_str("stop\n"), Ok(SocketMessage::Stop));
    assert_eq!(SocketMessage::from_str("  toggle\r\n"), Ok(SocketMessage::Toggle));
    assert_eq!(SocketMessage::from_str("status"), Ok(SocketMessage::Status));
    assert_eq!(SocketMessage::from_str("STATUS"), Err(()));
    assert_eq!(SocketMessage::from_str(""), Err(()));
}

#[test]
fn states_have_words() {
    assert_eq!(RecordingState::Recording.as_str(), "recording");
    assert_eq!(RecordingState::Idle.as_str(), "idle");
}

#[test]
fn client_and_daemon_agree() {
    for (word, msg) in [
        ("start", SocketMessage::Start),
        ("stop", SocketMessage::Stop),
        ("toggle", SocketMessage::Toggle),
    ] {
        let line = command_line(word);
        assert_eq!(line, format!("{word}\n"));
        assert_eq!(connection_action(&line), ConnectionAction::Forward(msg));
        assert!(!expects_reply(word));
    }
    assert_eq!(connection_action(&command_line("status")), ConnectionAction::AnswerStatus);
    assert!(expects_reply("status"));
    assert_eq!(connection_action("bogus\n"), ConnectionAction::Ignore);
    for s in [RecordingState::Recording, RecordingState::Idle] {
        assert_eq!(parse_reply(&reply_line(s)), s.as_str());
    }
    assert_eq!(reply_line(RecordingState::Idle), "idle\n");
}

#[test]
fn socket_location() {
    assert_eq!(socket_path(Some("/run/user/1000")), "/run/user/1000/whisperme.sock");
    assert_eq!(socket_path(None), "/tmp/whisperme.sock");
}

#[test]
fn daemon_transitions() {
    let (idle, recording) = (RecordingState::Idle, RecordingState::Recording);
    let cmd = DaemonEvent::Command;
    assert_eq!(daemon_step(idle, cmd(SocketMessage::Start)), (recording, DaemonAction::StartRecording));
    assert_eq!(daemon_step(recording, cmd(SocketMessage::Start)), (recording, DaemonAction::Nothing));
    assert_eq!(daemon_step(recording, cmd(SocketMessage::Stop)), (idle, DaemonAction::StopRecording));
    assert_eq!(daemon_step(idle, cmd(SocketMessage::Stop)), (idle, DaemonAction::Nothing));
    assert_eq!(daemon_step(idle, cmd(SocketMessage::Toggle)), (recording, DaemonAction::StartRecording));
    assert_eq!(daemon_step(recording, cmd(SocketMessage::Toggle)), (idle, DaemonAction::StopRecording));
    assert_eq!(daemon_step(recording, cmd(SocketMessage::Status)), (recording, DaemonAction::Nothing));
    assert_eq!(daemon_step(idle, DaemonEvent::StatusRequest), (idle, DaemonAction::Reply(idle)));
    let (s, _) = daemon_step(idle, cmd(SocketMessage::Toggle));
    let (s, _) = daemon_step(s, cmd(SocketMessage::Toggle));
    assert_eq!(s, idle);
}

#[test]
fn client_commands() {
    let args = |v: &[&str]| v.iter().map(|s| s.to_string()).collect::<Vec<String>>();
    assert_eq!(parse_cli(&args(&["whisperme"])), CliCommand::Missing);
    assert_eq!(parse_cli(&args(&["whisperme", "start"])), CliCommand::Control);
    assert_eq!(parse_cli(&args(&["whisperme", "stop"])), CliCommand::Control);
    assert_eq!(parse_cli(&args(&["whisperme", "toggle"])), CliCommand::Control);
    assert_eq!(parse_cli(&args(&["whisperme", "status"])), CliCommand::QueryStatus);
    assert_eq!(parse_cli(&args(&["whisperme", "config"])), CliCommand::OpenConfig);
    assert_eq!(parse_cli(&args(&["whisperme", "Start"])), CliCommand::Unknown);
}
