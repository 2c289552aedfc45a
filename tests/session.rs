use whisper_paste::session::{Session, Status, ToggleAction};

fn recording_session() -> Session {
    let mut s = Session::new();
    assert_eq!(s.toggle(), ToggleAction::StartRecording);
    s
}

#[test]
fn new_session_is_idle() {
    let s = Session::new();
    assert_eq!(s.status(), Status::Idle);
    assert!(!s.stop_requested());
    assert_eq!(s.last_result(), "");
}

#[test]
fn toggle_from_idle_starts_recording() {
    let s = recording_session();
    assert_eq!(s.status(), Status::Recording);
    assert!(!s.stop_requested());
}

#[test]
fn toggle_while_recording_requests_stop() {
    let mut s = recording_session();
    assert_eq!(s.toggle(), ToggleAction::RequestStop);
    assert_eq!(s.status(), Status::Recording);
    assert!(s.stop_requested());
}

#[test]
fn toggle_while_transcribing_is_ignored() {
    let mut s = recording_session();
    s.toggle();
    assert!(s.capture_finished(10));
    assert_eq!(s.status(), Status::Transcribing);
    assert_eq!(s.toggle(), ToggleAction::Ignored);
    assert_eq!(s.status(), Status::Transcribing);
}

#[test]
fn toggle_from_result_starts_again() {
    let mut s = recording_session();
    s.toggle();
    s.capture_finished(10);
    s.transcription_finished(Ok("done".to_string()));
    s.paste_finished();
    assert_eq!(s.status(), Status::Result);
    assert_eq!(s.toggle(), ToggleAction::StartRecording);
    assert_eq!(s.status(), Status::Recording);
    assert!(!s.stop_requested());
}

#[test]
fn empty_capture_returns_to_idle() {
    let mut s = recording_session();
    s.toggle();
    assert!(!s.capture_finished(0));
    assert_eq!(s.status(), Status::Idle);
}

#[test]
fn capture_failure_returns_to_idle() {
    let mut s = recording_session();
    s.capture_failed();
    assert_eq!(s.status(), Status::Idle);
}

#[test]
fn empty_transcription_goes_idle_without_paste() {
    let mut s = recording_session();
    s.toggle();
    assert!(s.capture_finished(48000));
    assert_eq!(s.status(), Status::Transcribing);
    let paste = s.transcription_finished(Ok(String::new()));
    assert_eq!(paste, None);
    assert_eq!(s.status(), Status::Idle);
}

#[test]
fn hello_world_is_pasted_once_and_shown() {
    let mut s = recording_session();
    s.toggle();
    assert!(s.capture_finished(48000));
    assert_eq!(s.status(), Status::Transcribing);
    let paste = s.transcription_finished(Ok("hello world".to_string()));
    let pasted: Vec<String> = paste.into_iter().collect();
    assert_eq!(pasted, vec!["hello world".to_string()]);
    // the text is stored before the paste; the result shows only after it
    assert_eq!(s.last_result(), "hello world");
    assert_eq!(s.status(), Status::Transcribing);
    s.paste_finished();
    assert_eq!(s.status(), Status::Result);
    assert_eq!(s.last_result(), "hello world");
}

#[test]
fn transcription_error_goes_idle_and_keeps_old_result() {
    let mut s = recording_session();
    s.toggle();
    s.capture_finished(5);
    s.transcription_finished(Ok("first".to_string()));
    s.paste_finished();
    s.toggle();
    s.toggle();
    s.capture_finished(5);
    let paste = s.transcription_finished(Err("API error 500".to_string()));
    assert_eq!(paste, None);
    assert_eq!(s.status(), Status::Idle);
    assert_eq!(s.last_result(), "first");
}

#[test]
fn manual_stop_sets_flag() {
    let mut s = recording_session();
    s.request_stop();
    assert!(s.stop_requested());
    assert_eq!(s.status(), Status::Recording);
}

#[test]
fn toggle_during_paste_is_ignored() {
    let mut s = recording_session();
    s.toggle();
    s.capture_finished(100);
    let paste = s.transcription_finished(Ok("text".to_string()));
    assert!(paste.is_some());
    assert_eq!(s.toggle(), ToggleAction::Ignored);
    assert_eq!(s.status(), Status::Transcribing);
    s.paste_finished();
    assert_eq!(s.status(), Status::Result);
}
