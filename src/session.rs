//! The session state machine: which phase a dictation session is in, and
//! what each hotkey toggle, capture outcome and transcription outcome does.
use vstd::prelude::*;

verus! {

/// The phase of the session.
#[derive(Clone, Copy, Debug, PartialEq, Eq, Structural)]
pub enum Status {
    Idle,
    Recording,
    Transcribing,
    Result,
}

/// What the caller has to do after a toggle.
#[derive(Clone, Copy, Debug, PartialEq, Eq, Structural)]
pub enum ToggleAction {
    /// Nothing: a transcription is in flight.
    Ignored,
    /// Clear the live waveform and start a capture.
    StartRecording,
    /// The running capture has been asked to stop.
    RequestStop,
}

/// The mathematical state of a session.
pub struct SessionView {
    pub status: Status,
    pub stop_requested: bool,
    pub last_result: Seq<char>,
}

/// Session state shared by the hotkey loop, the capture thread and any
/// display; callers change it only through the transitions below.
pub struct Session {
    status: Status,
    stop_requested: bool,
    last_result: String,
}

impl View for Session {
    type V = SessionView;

    closed spec fn view(&self) -> SessionView {
        SessionView {
            status: self.status,
            stop_requested: self.stop_requested,
            last_result: self.last_result@,
        }
    }
}

impl Session {
    /// A session at rest: idle, no stop requested, no result yet.
    pub fn new() -> (s: Self)
        ensures
            s@.status == Status::Idle,
            !s@.stop_requested,
            s@.last_result == Seq::<char>::empty(),
    {
        Session { status: Status::Idle, stop_requested: false, last_result: String::new() }
    }

    /// The current phase.
    pub fn status(&self) -> (r: Status)
        ensures
            r == self@.status,
    {
        self.status
    }

    /// Whether the running capture has been asked to stop.
    pub fn stop_requested(&self) -> (r: bool)
        ensures
            r == self@.stop_requested,
    {
        self.stop_requested
    }

    /// The text of the last successful transcription.
    pub fn last_result(&self) -> (r: String)
        ensures
            r@ == self@.last_result,
    {
        self.last_result.clone()
    }

    /// Reacts to a hotkey toggle. From idle or a shown result a new
    /// recording starts; during a recording a stop is requested; during a
    /// transcription nothing happens.
    pub fn toggle(&mut self) -> (a: ToggleAction)
        ensures
            old(self)@.status == Status::Transcribing ==> {
                &&& a == ToggleAction::Ignored
                &&& final(self)@ == old(self)@
            },
            old(self)@.status == Status::Idle || old(self)@.status == Status::Result ==> {
                &&& a == ToggleAction::StartRecording
                &&& final(self)@.status == Status::Recording
                &&& !final(self)@.stop_requested
                &&& final(self)@.last_result == old(self)@.last_result
            },
            old(self)@.status == Status::Recording ==> {
                &&& a == ToggleAction::RequestStop
                &&& final(self)@.status == Status::Recording
                &&& final(self)@.stop_requested
                &&& final(self)@.last_result == old(self)@.last_result
            },
    {
        match self.status {
            Status::Transcribing => ToggleAction::Ignored,
            Status::Idle | Status::Result => {
                self.status = Status::Recording;
                self.stop_requested = false;
                ToggleAction::StartRecording
            },
            Status::Recording => {
                self.stop_requested = true;
                ToggleAction::RequestStop
            },
        }
    }

    /// Asks the running capture to stop, as a manual stop control does.
    pub fn request_stop(&mut self)
        ensures
            final(self)@.stop_requested,
            final(self)@.status == old(self)@.status,
            final(self)@.last_result == old(self)@.last_result,
    {
        self.stop_requested = true;
    }

    /// Records that the capture ended with `sample_count` samples. An empty
    /// capture ends the session; otherwise transcription begins, and the
    /// result is true.
    pub fn capture_finished(&mut self, sample_count: usize) -> (transcribe: bool)
        ensures
            transcribe == (sample_count > 0),
            final(self)@.status == (if sample_count > 0 {
                Status::Transcribing
            } else {
                Status::Idle
            }),
            final(self)@.stop_requested == old(self)@.stop_requested,
            final(self)@.last_result == old(self)@.last_result,
    {
        if sample_count == 0 {
            self.status = Status::Idle;
            false
        } else {
            self.status = Status::Transcribing;
            true
        }
    }

    /// Records that the capture could not be started or run: the session
    /// returns to idle.
    pub fn capture_failed(&mut self)
        ensures
            final(self)@.status == Status::Idle,
            final(self)@.stop_requested == old(self)@.stop_requested,
            final(self)@.last_result == old(self)@.last_result,
    {
        self.status = Status::Idle;
    }

    /// Records that the text handed out by `transcription_finished` has been
    /// pasted, whether or not the paste succeeded: the session shows the
    /// result.
    pub fn paste_finished(&mut self)
        ensures
            final(self)@.status == Status::Result,
            final(self)@.stop_requested == old(self)@.stop_requested,
            final(self)@.last_result == old(self)@.last_result,
    {
        self.status = Status::Result;
    }

    /// Records the outcome of transcription. Non-empty text is kept as the
    /// last result and returned to be pasted, the session staying in
    /// transcription until `paste_finished`; empty text or a failure return
    /// the session to idle with nothing to paste.
    pub fn transcription_finished(&mut self, outcome: Result<String, String>) -> (paste: Option<String>)
        ensures
            final(self)@.stop_requested == old(self)@.stop_requested,
            match outcome {
                Ok(text) => if text@.len() > 0 {
                    &&& paste == Some(text)
                    &&& final(self)@.status == old(self)@.status
                    &&& final(self)@.last_result == text@
                } else {
                    &&& paste.is_none()
                    &&& final(self)@.status == Status::Idle
                    &&& final(self)@.last_result == old(self)@.last_result
                },
                Err(_) => {
                    &&& paste.is_none()
                    &&& final(self)@.status == Status::Idle
                    &&& final(self)@.last_result == old(self)@.last_result
                },
            },
    {
        match outcome {
            Ok(text) => {
                if !text.as_str().is_empty() {
                    self.last_result = text.clone();
                    Some(text)
                } else {
                    self.status = Status::Idle;
                    None
                }
            },
            Err(_) => {
                self.status = Status::Idle;
                None
            },
        }
    }
}

} // verus!
