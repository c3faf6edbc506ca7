//! The recording indicator's event handling.
//!
//! A persistent UI thread runs the window system's event loop. A new
//! recording shows the indicator; each redraw first drains the audio, and
//! when the audio stream has closed the indicator is hidden and the session
//! dropped, otherwise the frame is rendered. While a session is shown the
//! loop wakes for the next frame; without one it sleeps until an event
//! arrives, using no CPU. Drawing happens in the application.

use vstd::prelude::*;

verus! {

/// An event of the indicator's loop.
#[derive(Debug, Clone, Copy, PartialEq, Eq, Structural)]
pub enum IndicatorEvent {
    /// A recording started and sends its audio to the indicator.
    NewSession,
    /// The window is to be redrawn; the audio received so far has been
    /// drained, and the stream was found closed or not.
    Redraw { stream_closed: bool },
    /// The loop is about to wait for the next event.
    AboutToWait,
}

/// What the indicator does.
#[derive(Debug, Clone, Copy, PartialEq, Eq, Structural)]
pub enum IndicatorAction {
    /// Position and show the window for the new session.
    Show,
    /// Hide the window; the session is over.
    Hide,
    /// Draw the current frame.
    Render,
    /// Wake for the next frame (about 30 per second) and request a redraw.
    NextFrame,
    /// Sleep until the next event.
    Wait,
    /// Nothing to do.
    Nothing,
}

/// Whether a session is shown after the event, and the action.
pub open spec fn indicator_step_spec(active: bool, event: IndicatorEvent) -> (bool, IndicatorAction) {
    match event {
        IndicatorEvent::NewSession => (true, IndicatorAction::Show),
        IndicatorEvent::Redraw { stream_closed } => if !active {
            (false, IndicatorAction::Nothing)
        } else if stream_closed {
            (false, IndicatorAction::Hide)
        } else {
            (true, IndicatorAction::Render)
        },
        IndicatorEvent::AboutToWait => if active {
            (true, IndicatorAction::NextFrame)
        } else {
            (false, IndicatorAction::Wait)
        },
    }
}

/// One step of the indicator: whether a session is shown after `event`, and
/// what to do.
pub fn indicator_step(active: bool, event: IndicatorEvent) -> (r: (bool, IndicatorAction))
    ensures
        r == indicator_step_spec(active, event),
{
    match event {
        IndicatorEvent::NewSession => (true, IndicatorAction::Show),
        IndicatorEvent::Redraw { stream_closed } => if !active {
            (false, IndicatorAction::Nothing)
        } else if stream_closed {
            (false, IndicatorAction::Hide)
        } else {
            (true, IndicatorAction::Render)
        },
        IndicatorEvent::AboutToWait => if active {
            (true, IndicatorAction::NextFrame)
        } else {
            (false, IndicatorAction::Wait)
        },
    }
}

/// Without a session the loop only ever sleeps or does nothing: it never
/// draws, shows or hides a window, and never schedules frames.
pub proof fn lemma_idle_indicator_sleeps(event: IndicatorEvent)
    requires
        event != IndicatorEvent::NewSession,
    ensures
        !indicator_step_spec(false, event).0,
        indicator_step_spec(false, event).1 == IndicatorAction::Wait || indicator_step_spec(
            false,
            event,
        ).1 == IndicatorAction::Nothing,
{
}

/// The indicator disappears exactly when the audio stream of a shown
/// session closes, and stays shown while it is open.
pub proof fn lemma_hidden_when_stream_closes(stream_closed: bool)
    ensures
        indicator_step_spec(true, IndicatorEvent::Redraw { stream_closed }) == if stream_closed {
            (false, IndicatorAction::Hide)
        } else {
            (true, IndicatorAction::Render)
        },
{
}

} // verus!
