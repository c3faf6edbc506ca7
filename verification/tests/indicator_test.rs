use whisperme::indicator::{indicator_step, IndicatorAction, IndicatorEvent};

#[test]
fn indicator_session_lifecycle() {
    // Idle: the loop sleeps, and a stray redraw does nothing.
    assert_eq!(indicator_step(false, IndicatorEvent::AboutToWait), (false, IndicatorAction::Wait));
    assert_eq!(
        indicator_step(false, IndicatorEvent::Redraw { stream_closed: false }),
        (false, IndicatorAction::Nothing)
    );
    // A recording starts: the window is shown and frames are scheduled.
    let (active, action) = indicator_step(false, IndicatorEvent::NewSession);
    assert_eq!((active, action), (true, IndicatorAction::Show));
    assert_eq!(indicator_step(active, IndicatorEvent::AboutToWait), (true, IndicatorAction::NextFrame));
    // Audio keeps arriving: each redraw renders.
    assert_eq!(
        indicator_step(active, IndicatorEvent::Redraw { stream_closed: false }),
        (true, IndicatorAction::Render)
    );
    // The recording stops: the stream closes and the window is hidden.
    let (active, action) = indicator_step(active, IndicatorEvent::Redraw { stream_closed: true });
    assert_eq!((active, action), (false, IndicatorAction::Hide));
    assert_eq!(indicator_step(active, IndicatorEvent::AboutToWait), (false, IndicatorAction::Wait));
}

#[test]
fn indicator_new_session_replaces_shown_one() {
    assert_eq!(indicator_step(true, IndicatorEvent::NewSession), (true, IndicatorAction::Show));
}
