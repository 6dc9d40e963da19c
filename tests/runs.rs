use coraline::{Action, Command, Event, RunError, Session, Stage, Voice};

fn begin(credential_present: bool, output_exists: Option<bool>) -> Event {
    Event::Begin { credential_present, output_exists }
}

#[test]
fn speak_and_play_succeeds() {
    let mut s = Session::new(Command::Speak(Voice::Alloy), true);
    assert_eq!(s.step(begin(true, Some(false))), Action::LoadSource);
    assert_eq!(s.step(Event::SourceLoaded), Action::SendRequest);
    assert_eq!(s.step(Event::Responded(200)), Action::SaveBody);
    assert_eq!(s.step(Event::Saved), Action::PlayOutput);
    assert_eq!(s.step(Event::Played), Action::Finish);
    assert_eq!(s.stage, Stage::Done);
}

#[test]
fn listen_succeeds_without_playback() {
    let mut s = Session::new(Command::Listen, false);
    assert_eq!(s.step(begin(true, Some(false))), Action::LoadSource);
    assert_eq!(s.step(Event::SourceLoaded), Action::SendRequest);
    assert_eq!(s.step(Event::Responded(204)), Action::SaveBody);
    assert_eq!(s.step(Event::Saved), Action::Finish);
    assert_eq!(s.stage, Stage::Done);
}

#[test]
fn missing_credential_fails_before_request() {
    let mut s = Session::new(Command::Speak(Voice::Echo), false);
    assert_eq!(s.step(begin(false, Some(false))), Action::Abort(RunError::MissingCredential));
    assert_eq!(s.stage, Stage::Failed);
    assert_eq!(s.step(Event::SourceLoaded), Action::Abort(RunError::OutOfOrder));
    assert_eq!(s.stage, Stage::Failed);
}

#[test]
fn existing_output_fails_before_request() {
    let mut s = Session::new(Command::Listen, false);
    assert_eq!(s.step(begin(true, Some(true))), Action::Abort(RunError::OutputExists));
    assert_eq!(s.stage, Stage::Failed);
}

#[test]
fn unknown_output_state_fails() {
    let mut s = Session::new(Command::Listen, false);
    assert_eq!(s.step(begin(true, None)), Action::Abort(RunError::OutputUncheckable));
}

#[test]
fn credential_is_checked_before_output() {
    let mut s = Session::new(Command::Listen, false);
    assert_eq!(s.step(begin(false, Some(true))), Action::Abort(RunError::MissingCredential));
}

#[test]
fn playback_of_transcription_is_refused() {
    let mut s = Session::new(Command::Listen, true);
    assert_eq!(s.step(begin(true, Some(false))), Action::Abort(RunError::PlayUnsupported));
}

#[test]
fn failure_status_reports_text_and_saves_nothing() {
    let mut s = Session::new(Command::Speak(Voice::Nova), false);
    s.step(begin(true, Some(false)));
    s.step(Event::SourceLoaded);
    assert_eq!(s.step(Event::Responded(401)), Action::ReadErrorText);
    assert_eq!(s.stage, Stage::ReadingErrorText(401));
    assert_eq!(
        s.step(Event::ErrorText("bad key".to_string())),
        Action::Abort(RunError::Api { status: 401, message: "bad key".to_string() })
    );
    assert_eq!(s.step(Event::Saved), Action::Abort(RunError::OutOfOrder));
}

#[test]
fn server_error_is_a_failure() {
    let mut s = Session::new(Command::Listen, false);
    s.step(begin(true, Some(false)));
    s.step(Event::SourceLoaded);
    assert_eq!(s.step(Event::Responded(503)), Action::ReadErrorText);
    assert_eq!(
        s.step(Event::TransportFailed("reset".to_string())),
        Action::Abort(RunError::Transport("reset".to_string()))
    );
}

#[test]
fn unreadable_source_fails_before_request() {
    let mut s = Session::new(Command::Speak(Voice::Fable), false);
    s.step(begin(true, Some(false)));
    assert_eq!(
        s.step(Event::SourceUnreadable("no such file".to_string())),
        Action::Abort(RunError::SourceUnreadable("no such file".to_string()))
    );
}

#[test]
fn transport_and_write_failures() {
    let mut s = Session::new(Command::Listen, false);
    s.step(begin(true, Some(false)));
    s.step(Event::SourceLoaded);
    assert_eq!(
        s.step(Event::TransportFailed("timeout".to_string())),
        Action::Abort(RunError::Transport("timeout".to_string()))
    );

    let mut s = Session::new(Command::Listen, false);
    s.step(begin(true, Some(false)));
    s.step(Event::SourceLoaded);
    s.step(Event::Responded(200));
    assert_eq!(
        s.step(Event::SaveFailed("disk full".to_string())),
        Action::Abort(RunError::WriteFailed("disk full".to_string()))
    );
}

#[test]
fn playback_failure_fails_the_run() {
    let mut s = Session::new(Command::Speak(Voice::Shimmer), true);
    s.step(begin(true, Some(false)));
    s.step(Event::SourceLoaded);
    s.step(Event::Responded(200));
    s.step(Event::Saved);
    assert_eq!(
        s.step(Event::PlaybackFailed("no device".to_string())),
        Action::Abort(RunError::PlaybackFailed("no device".to_string()))
    );
}

#[test]
fn out_of_order_event_fails() {
    let mut s = Session::new(Command::Listen, false);
    assert_eq!(s.step(Event::Responded(200)), Action::Abort(RunError::OutOfOrder));
    assert_eq!(s.stage, Stage::Failed);

    let mut s = Session::new(Command::Listen, false);
    s.step(begin(true, Some(false)));
    s.step(Event::SourceLoaded);
    s.step(Event::Responded(200));
    s.step(Event::Saved);
    assert_eq!(s.step(begin(true, Some(false))), Action::Abort(RunError::OutOfOrder));
}

#[test]
fn request_is_sent_once() {
    let mut s = Session::new(Command::Speak(Voice::Alloy), false);
    s.step(begin(true, Some(false)));
    assert_eq!(s.step(Event::SourceLoaded), Action::SendRequest);
    assert_eq!(s.step(Event::SourceLoaded), Action::Abort(RunError::OutOfOrder));
    assert_eq!(s.step(Event::SourceLoaded), Action::Abort(RunError::OutOfOrder));
}
