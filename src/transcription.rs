use vstd::prelude::*;
use vstd::string::*;

verus! {

/// Transcript value that marks the end of the configured listening time.
pub const TIMEOUT_MARKER: &'static str = "[timeout reached]";

/// Transcript value that marks a stretch of silence.
pub const SILENCE_MARKER: &'static str = "[silence detected]";

/// Prefix with which the recognition backend reports a failure; the reason
/// follows after one more character.
pub const ERROR_PREFIX: &'static str = "[error]";

/// What `str::trim` returns: the characters with leading and trailing
/// whitespace removed.
pub uninterp spec fn trimmed(s: Seq<char>) -> Seq<char>;

/// Relies on `str::trim`: the result depends on the characters alone.
#[verifier::external_body]
pub(crate) fn trim_str(s: &str) -> (r: &str)
    ensures
        r@ == trimmed(s@),
{
    s.trim()
}

/// Where a transcription session is in its lifecycle.
#[derive(Clone, Copy, Debug, PartialEq, Eq, Structural)]
pub enum SessionState {
    Idle,
    Initializing,
    Listening,
    Finalizing,
    Stopped,
    Error,
}

/// Status reported to the UI over the session's lifetime.
#[derive(Clone, Copy, Debug, PartialEq, Eq, Structural)]
pub enum VoiceStatus {
    Recording,
    Completed,
    Error,
}

impl VoiceStatus {
    pub open spec fn name_spec(&self) -> Seq<char> {
        match self {
            VoiceStatus::Recording => "recording"@,
            VoiceStatus::Completed => "completed"@,
            VoiceStatus::Error => "error"@,
        }
    }

    /// The name of the status in the UI's event protocol.
    pub fn as_name(&self) -> (r: &'static str)
        ensures
            r@ == self.name_spec(),
    {
        match self {
            VoiceStatus::Recording => "recording",
            VoiceStatus::Completed => "completed",
            VoiceStatus::Error => "error",
        }
    }
}

/// One event of the recognition stream.
#[derive(Debug)]
pub enum TranscriptEvent {
    /// Recognised text, possibly partial.
    Text(String),
    /// The silence counter crossed its threshold.
    Silence,
    /// The configured maximum duration elapsed.
    Timeout,
    /// Recognition failed, for the given reason.
    Failure(String),
    /// The stream ended.
    Closed,
}

/// The reason carried by a backend failure report: what follows the prefix
/// and one separating character.
pub open spec fn failure_reason(t: Seq<char>) -> Seq<char> {
    if t.len() >= 8 {
        t.subrange(8, t.len() as int)
    } else {
        Seq::empty()
    }
}

/// Reads a raw value of the recognition backend as an event.
pub fn classify_result(text: String) -> (r: TranscriptEvent)
    ensures
        text@ == TIMEOUT_MARKER@ <==> r is Timeout,
        text@ == SILENCE_MARKER@ <==> r is Silence,
        (text@ != TIMEOUT_MARKER@ && text@ != SILENCE_MARKER@ && text@.len() >= 7 && text@.subrange(0, 7)
            == ERROR_PREFIX@) <==> r is Failure,
        r matches TranscriptEvent::Failure(e) ==> e@ == failure_reason(text@),
        r matches TranscriptEvent::Text(t) ==> t == text,
        !(r is Closed),
{
    proof {
        reveal_strlit("[timeout reached]");
        reveal_strlit("[silence detected]");
        reveal_strlit("[error]");
        assert(TIMEOUT_MARKER@[1] != SILENCE_MARKER@[1]);
        assert(TIMEOUT_MARKER@[1] != ERROR_PREFIX@[1]);
        assert(SILENCE_MARKER@[1] != ERROR_PREFIX@[1]);
    }
    if text == String::from_str(TIMEOUT_MARKER) {
        return TranscriptEvent::Timeout;
    }
    if text == String::from_str(SILENCE_MARKER) {
        return TranscriptEvent::Silence;
    }
    let n = text.as_str().unicode_len();
    if n >= 7 && String::from_str(text.as_str().substring_char(0, 7)) == String::from_str(ERROR_PREFIX) {
        let reason = if n >= 8 {
            String::from_str(text.as_str().substring_char(8, n))
        } else {
            String::new()
        };
        return TranscriptEvent::Failure(reason);
    }
    TranscriptEvent::Text(text)
}

/// What the caller must do after a session step.
pub struct Reaction {
    /// Value to send to the UI as a partial transcript.
    pub partial: Option<String>,
    /// Status to send to the UI.
    pub status: Option<VoiceStatus>,
    /// Whether the audio device and engine handle must now be released.
    pub release: bool,
}

/// A reaction that asks for nothing.
pub open spec fn quiet(r: Reaction) -> bool {
    r.partial is None && r.status is None && !r.release
}

/// The lifecycle of one speech recognition session: it keeps listening
/// through silence, ends on timeout, failure, stop or end of stream, and
/// keeps the last non-empty text as the transcript.
pub struct TranscriptionSession {
    state: SessionState,
    transcript: String,
    max_duration_ms: Option<u64>,
}

impl TranscriptionSession {
    pub closed spec fn state_spec(&self) -> SessionState {
        self.state
    }

    pub closed spec fn transcript_spec(&self) -> Seq<char> {
        self.transcript@
    }

    pub closed spec fn max_duration_spec(&self) -> Option<u64> {
        self.max_duration_ms
    }

    /// A session that has not started.
    pub fn new() -> (r: Self)
        ensures
            r.state_spec() == SessionState::Idle,
            r.transcript_spec() == Seq::<char>::empty(),
            r.max_duration_spec() is None,
    {
        TranscriptionSession { state: SessionState::Idle, transcript: String::new(), max_duration_ms: None }
    }

    /// The current state.
    pub fn state(&self) -> (r: SessionState)
        ensures
            r == self.state_spec(),
    {
        self.state
    }

    /// The last non-empty text recognised.
    pub fn transcript(&self) -> (r: &String)
        ensures
            r@ == self.transcript_spec(),
    {
        &self.transcript
    }

    /// The listening time limit asked for at start, if any.
    pub fn max_duration_ms(&self) -> (r: Option<u64>)
        ensures
            r == self.max_duration_spec(),
    {
        self.max_duration_ms
    }

    /// A start request: an idle session begins to initialise (the caller
    /// acquires the engine and opens the device). Elsewhere it changes nothing.
    pub fn start(&mut self, max_duration_ms: Option<u64>) -> (r: Reaction)
        ensures
            quiet(r),
            old(self).state_spec() == SessionState::Idle ==> final(self).state_spec() == SessionState::Initializing
                && final(self).max_duration_spec() == max_duration_ms
                && final(self).transcript_spec() == old(self).transcript_spec(),
            old(self).state_spec() != SessionState::Idle ==> *final(self) == *old(self),
    {
        if self.state == SessionState::Idle {
            self.state = SessionState::Initializing;
            self.max_duration_ms = max_duration_ms;
        }
        Reaction { partial: None, status: None, release: false }
    }

    /// The audio stream began: an initialising session starts listening and
    /// reports that it records.
    pub fn engine_started(&mut self) -> (r: Reaction)
        ensures
            old(self).state_spec() == SessionState::Initializing ==> {
                &&& final(self).state_spec() == SessionState::Listening
                &&& final(self).transcript_spec() == old(self).transcript_spec()
                &&& final(self).max_duration_spec() == old(self).max_duration_spec()
                &&& r.partial is None && r.status == Some(VoiceStatus::Recording) && !r.release
            },
            old(self).state_spec() != SessionState::Initializing ==> *final(self) == *old(self) && quiet(r),
    {
        if self.state == SessionState::Initializing {
            self.state = SessionState::Listening;
            return Reaction { partial: None, status: Some(VoiceStatus::Recording), release: false };
        }
        Reaction { partial: None, status: None, release: false }
    }

    /// The device or the recognizer could not be had: an initialising
    /// session fails, reports the error before any recording status, and
    /// asks for release.
    pub fn start_failed(&mut self) -> (r: Reaction)
        ensures
            old(self).state_spec() == SessionState::Initializing ==> {
                &&& final(self).state_spec() == SessionState::Error
                &&& final(self).transcript_spec() == old(self).transcript_spec()
                &&& r.partial is None && r.status == Some(VoiceStatus::Error) && r.release
            },
            old(self).state_spec() != SessionState::Initializing ==> *final(self) == *old(self) && quiet(r),
    {
        if self.state == SessionState::Initializing {
            self.state = SessionState::Error;
            return Reaction { partial: None, status: Some(VoiceStatus::Error), release: true };
        }
        Reaction { partial: None, status: None, release: false }
    }

    /// Recognised text while listening: it goes to the UI, and it becomes
    /// the transcript unless `blank` (it is whitespace only). Elsewhere it
    /// changes nothing.
    pub fn accept_text(&mut self, text: String, blank: bool) -> (r: Reaction)
        ensures
            old(self).state_spec() == SessionState::Listening ==> {
                &&& final(self).state_spec() == SessionState::Listening
                &&& final(self).max_duration_spec() == old(self).max_duration_spec()
                &&& final(self).transcript_spec() == if blank { old(self).transcript_spec() } else { text@ }
                &&& r.partial == Some(text) && r.status is None && !r.release
            },
            old(self).state_spec() != SessionState::Listening ==> *final(self) == *old(self) && quiet(r),
    {
        if self.state != SessionState::Listening {
            return Reaction { partial: None, status: None, release: false };
        }
        if !blank {
            self.transcript = text.clone();
        }
        Reaction { partial: Some(text), status: None, release: false }
    }

    /// One event of the recognition stream. While listening: text is passed
    /// on (and kept as the transcript unless it is blank after trimming);
    /// silence is reported and listening goes on; timeout is reported and
    /// ends listening; a failure reports the error; the end of the stream
    /// ends listening. In any other state the event changes nothing.
    pub fn on_event(&mut self, event: TranscriptEvent) -> (r: Reaction)
        ensures
            old(self).state_spec() != SessionState::Listening ==> *final(self) == *old(self) && quiet(r),
            final(self).max_duration_spec() == old(self).max_duration_spec(),
            old(self).state_spec() == SessionState::Listening ==> match event {
                TranscriptEvent::Text(t) => {
                    &&& final(self).state_spec() == SessionState::Listening
                    &&& final(self).transcript_spec() == if trimmed(t@).len() == 0 {
                        old(self).transcript_spec()
                    } else {
                        t@
                    }
                    &&& r.partial == Some(t) && r.status is None && !r.release
                },
                TranscriptEvent::Silence => {
                    &&& *final(self) == *old(self)
                    &&& r.partial matches Some(p) && p@ == SILENCE_MARKER@
                    &&& r.status is None && !r.release
                },
                TranscriptEvent::Timeout => {
                    &&& final(self).state_spec() == SessionState::Finalizing
                    &&& final(self).transcript_spec() == old(self).transcript_spec()
                    &&& r.partial matches Some(p) && p@ == TIMEOUT_MARKER@
                    &&& r.status is None && r.release
                },
                TranscriptEvent::Failure(_) => {
                    &&& final(self).state_spec() == SessionState::Error
                    &&& final(self).transcript_spec() == old(self).transcript_spec()
                    &&& r.partial is None && r.status == Some(VoiceStatus::Error) && r.release
                },
                TranscriptEvent::Closed => {
                    &&& final(self).state_spec() == SessionState::Finalizing
                    &&& final(self).transcript_spec() == old(self).transcript_spec()
                    &&& r.partial is None && r.status is None && r.release
                },
            },
    {
        if self.state != SessionState::Listening {
            return Reaction { partial: None, status: None, release: false };
        }
        match event {
            TranscriptEvent::Text(t) => {
                let blank = trim_str(t.as_str()).is_empty();
                self.accept_text(t, blank)
            },
            TranscriptEvent::Silence => {
                Reaction { partial: Some(String::from_str(SILENCE_MARKER)), status: None, release: false }
            },
            TranscriptEvent::Timeout => {
                self.state = SessionState::Finalizing;
                Reaction { partial: Some(String::from_str(TIMEOUT_MARKER)), status: None, release: true }
            },
            TranscriptEvent::Failure(_) => {
                self.state = SessionState::Error;
                Reaction { partial: None, status: Some(VoiceStatus::Error), release: true }
            },
            TranscriptEvent::Closed => {
                self.state = SessionState::Finalizing;
                Reaction { partial: None, status: None, release: true }
            },
        }
    }

    /// An explicit stop: a session that is initialising or listening moves
    /// to finalizing and asks for release. On a session that is already
    /// finalizing, stopped, failed or idle it changes nothing.
    pub fn stop(&mut self) -> (r: Reaction)
        ensures
            (old(self).state_spec() == SessionState::Listening || old(self).state_spec()
                == SessionState::Initializing) ==> {
                &&& final(self).state_spec() == SessionState::Finalizing
                &&& final(self).transcript_spec() == old(self).transcript_spec()
                &&& final(self).max_duration_spec() == old(self).max_duration_spec()
                &&& r.partial is None && r.status is None && r.release
            },
            !(old(self).state_spec() == SessionState::Listening || old(self).state_spec()
                == SessionState::Initializing) ==> *final(self) == *old(self) && quiet(r),
    {
        if self.state == SessionState::Listening || self.state == SessionState::Initializing {
            self.state = SessionState::Finalizing;
            return Reaction { partial: None, status: None, release: true };
        }
        Reaction { partial: None, status: None, release: false }
    }

    /// The device and engine handle were released: a finalizing session is
    /// stopped and reports completion; a failed one is stopped, its error
    /// already reported. In any other state this changes nothing.
    pub fn released(&mut self) -> (r: Reaction)
        ensures
            old(self).state_spec() == SessionState::Finalizing ==> {
                &&& final(self).state_spec() == SessionState::Stopped
                &&& final(self).transcript_spec() == old(self).transcript_spec()
                &&& r.partial is None && r.status == Some(VoiceStatus::Completed) && !r.release
            },
            old(self).state_spec() == SessionState::Error ==> {
                &&& final(self).state_spec() == SessionState::Stopped
                &&& final(self).transcript_spec() == old(self).transcript_spec()
                &&& quiet(r)
            },
            !(old(self).state_spec() == SessionState::Finalizing || old(self).state_spec() == SessionState::Error)
                ==> *final(self) == *old(self) && quiet(r),
    {
        if self.state == SessionState::Finalizing {
            self.state = SessionState::Stopped;
            return Reaction { partial: None, status: Some(VoiceStatus::Completed), release: false };
        }
        if self.state == SessionState::Error {
            self.state = SessionState::Stopped;
        }
        Reaction { partial: None, status: None, release: false }
    }
}

} // verus!
