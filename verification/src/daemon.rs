//! The daemon's recording state machine.
//!
//! The daemon reacts to the events its socket delivers: `start` begins a
//! recording unless one is running, `stop` ends it, `toggle` flips, and a
//! status request is answered with the current state. The application keeps
//! the running capture and performs the action each step returns.

use vstd::prelude::*;

use crate::socket::{RecordingState, SocketMessage};

verus! {

/// An event delivered to the daemon's loop.
#[derive(Debug, Clone, Copy, PartialEq, Eq, Structural)]
pub enum DaemonEvent {
    /// A command from a client.
    Command(SocketMessage),
    /// A client asks for the state.
    StatusRequest,
}

/// What the daemon does in response to an event.
#[derive(Debug, Clone, Copy, PartialEq, Eq, Structural)]
pub enum DaemonAction {
    /// Start the capture, transcription, indicator and output of a recording.
    StartRecording,
    /// Stop the running capture.
    StopRecording,
    /// Answer the client with this state.
    Reply(RecordingState),
    /// Nothing to do.
    Nothing,
}

/// The next state and the action for an event.
pub open spec fn step_spec(state: RecordingState, event: DaemonEvent) -> (
    RecordingState,
    DaemonAction,
) {
    match event {
        DaemonEvent::Command(SocketMessage::Start) => match state {
            RecordingState::Idle => (RecordingState::Recording, DaemonAction::StartRecording),
            RecordingState::Recording => (RecordingState::Recording, DaemonAction::Nothing),
        },
        DaemonEvent::Command(SocketMessage::Stop) => match state {
            RecordingState::Recording => (RecordingState::Idle, DaemonAction::StopRecording),
            RecordingState::Idle => (RecordingState::Idle, DaemonAction::Nothing),
        },
        DaemonEvent::Command(SocketMessage::Toggle) => match state {
            RecordingState::Recording => (RecordingState::Idle, DaemonAction::StopRecording),
            RecordingState::Idle => (RecordingState::Recording, DaemonAction::StartRecording),
        },
        DaemonEvent::Command(SocketMessage::Status) => (state, DaemonAction::Nothing),
        DaemonEvent::StatusRequest => (state, DaemonAction::Reply(state)),
    }
}

/// One step of the daemon: the state after `event` and what to do.
pub fn daemon_step(state: RecordingState, event: DaemonEvent) -> (r: (
    RecordingState,
    DaemonAction,
))
    ensures
        r == step_spec(state, event),
{
    match event {
        DaemonEvent::Command(SocketMessage::Start) => match state {
            RecordingState::Idle => (RecordingState::Recording, DaemonAction::StartRecording),
            RecordingState::Recording => (RecordingState::Recording, DaemonAction::Nothing),
        },
        DaemonEvent::Command(SocketMessage::Stop) => match state {
            RecordingState::Recording => (RecordingState::Idle, DaemonAction::StopRecording),
            RecordingState::Idle => (RecordingState::Idle, DaemonAction::Nothing),
        },
        DaemonEvent::Command(SocketMessage::Toggle) => match state {
            RecordingState::Recording => (RecordingState::Idle, DaemonAction::StopRecording),
            RecordingState::Idle => (RecordingState::Recording, DaemonAction::StartRecording),
        },
        DaemonEvent::Command(SocketMessage::Status) => (state, DaemonAction::Nothing),
        DaemonEvent::StatusRequest => (state, DaemonAction::Reply(state)),
    }
}

/// The state after a sequence of events.
pub open spec fn run_spec(state: RecordingState, events: Seq<DaemonEvent>) -> RecordingState
    decreases events.len(),
{
    if events.len() == 0 {
        state
    } else {
        step_spec(run_spec(state, events.drop_last()), events.last()).0
    }
}

/// Toggling twice returns to the state before.
pub proof fn lemma_toggle_twice(state: RecordingState)
    ensures
        step_spec(step_spec(state, DaemonEvent::Command(SocketMessage::Toggle)).0,
            DaemonEvent::Command(SocketMessage::Toggle)).0 == state,
{
}

/// `start` leaves the daemon recording; a second `start` changes nothing.
pub proof fn lemma_start_idempotent(state: RecordingState)
    ensures
        step_spec(state, DaemonEvent::Command(SocketMessage::Start)).0
            == RecordingState::Recording,
        step_spec(RecordingState::Recording, DaemonEvent::Command(SocketMessage::Start))
            == (RecordingState::Recording, DaemonAction::Nothing),
{
}

/// `stop` leaves the daemon idle; a second `stop` changes nothing.
pub proof fn lemma_stop_idempotent(state: RecordingState)
    ensures
        step_spec(state, DaemonEvent::Command(SocketMessage::Stop)).0 == RecordingState::Idle,
        step_spec(RecordingState::Idle, DaemonEvent::Command(SocketMessage::Stop)) == (
            RecordingState::Idle,
            DaemonAction::Nothing,
        ),
{
}

/// A status request is answered with the current state and changes nothing.
pub proof fn lemma_status_answers_state(state: RecordingState)
    ensures
        step_spec(state, DaemonEvent::StatusRequest) == (state, DaemonAction::Reply(state)),
{
}

/// A capture is started only when none runs and stopped only when one runs:
/// the action always agrees with the state change, so at most one capture
/// exists at a time.
pub proof fn lemma_actions_match_transitions(state: RecordingState, event: DaemonEvent)
    ensures
        step_spec(state, event).1 == DaemonAction::StartRecording <==> (state
            == RecordingState::Idle && step_spec(state, event).0 == RecordingState::Recording),
        step_spec(state, event).1 == DaemonAction::StopRecording <==> (state
            == RecordingState::Recording && step_spec(state, event).0 == RecordingState::Idle),
{
}

/// The daemon starts idle; after any sequence of events the answer to a
/// status request is the state those events led to.
pub proof fn lemma_status_after_events(events: Seq<DaemonEvent>)
    ensures
        step_spec(run_spec(RecordingState::Idle, events), DaemonEvent::StatusRequest).1
            == DaemonAction::Reply(run_spec(RecordingState::Idle, events)),
{
}

} // verus!
