use chat_box::monitor::{ListenMonitor, SILENCE_LIMIT};
use chat_box::recognizer::vosk_result_to_string;
use chat_box::transcription::{
    classify_result, SessionState, TranscriptEvent, TranscriptionSession, VoiceStatus, SILENCE_MARKER, TIMEOUT_MARKER,
};

fn listening(max: Option<u64>) -> TranscriptionSession {
    let mut s = TranscriptionSession::new();
    s.start(max);
    let r = s.engine_started();
    assert_eq!(r.status, Some(VoiceStatus::Recording));
    assert_eq!(s.state(), SessionState::Listening);
    s
}

#[test]
fn silence_keeps_listening_and_timeout_finalizes() {
    let mut s = listening(None);
    let r = s.on_event(TranscriptEvent::Silence);
    assert_eq!(r.partial.as_deref(), Some(SILENCE_MARKER));
    assert!(!r.release);
    assert_eq!(s.state(), SessionState::Listening);
    let r = s.on_event(TranscriptEvent::Timeout);
    assert_eq!(r.partial.as_deref(), Some(TIMEOUT_MARKER));
    assert!(r.release);
    assert_eq!(s.state(), SessionState::Finalizing);
    let r = s.released();
    assert_eq!(r.status, Some(VoiceStatus::Completed));
    assert_eq!(s.state(), SessionState::Stopped);
}

#[test]
fn stopping_a_stopped_session_is_a_no_op() {
    let mut s = listening(None);
    let r = s.stop();
    assert!(r.release);
    s.released();
    assert_eq!(s.state(), SessionState::Stopped);
    let r = s.stop();
    assert!(r.partial.is_none() && r.status.is_none() && !r.release);
    assert_eq!(s.state(), SessionState::Stopped);
    let r = s.released();
    assert!(r.status.is_none());
}

#[test]
fn last_non_blank_text_is_the_transcript() {
    let mut s = listening(None);
    s.on_event(TranscriptEvent::Text("你好".to_string()));
    let r = s.on_event(TranscriptEvent::Text("   ".to_string()));
    assert_eq!(r.partial.as_deref(), Some("   "));
    s.on_event(TranscriptEvent::Silence);
    assert_eq!(s.transcript(), "你好");
    s.on_event(TranscriptEvent::Text("你好世界".to_string()));
    s.on_event(TranscriptEvent::Timeout);
    assert_eq!(s.transcript(), "你好世界");
}

#[test]
fn failure_reports_error_and_stops() {
    let mut s = listening(Some(1000));
    let r = s.on_event(TranscriptEvent::Failure("mic".to_string()));
    assert_eq!(r.status, Some(VoiceStatus::Error));
    assert!(r.release);
    assert_eq!(s.state(), SessionState::Error);
    assert!(s.released().status.is_none());
    assert_eq!(s.state(), SessionState::Stopped);
}

#[test]
fn device_failure_reports_error_before_recording() {
    let mut s = TranscriptionSession::new();
    s.start(Some(15000));
    let r = s.start_failed();
    assert_eq!(r.status, Some(VoiceStatus::Error));
    assert_eq!(s.state(), SessionState::Error);
    assert!(s.engine_started().status.is_none());
}

#[test]
fn closed_stream_finalizes() {
    let mut s = listening(None);
    let r = s.on_event(TranscriptEvent::Closed);
    assert!(r.release);
    assert_eq!(s.state(), SessionState::Finalizing);
}

#[test]
fn silent_audio_times_out_once_after_fifteen_seconds() {
    let max = 15_000u64;
    let mut session = listening(Some(max));
    let mut monitor = ListenMonitor::new(0, Some(max));
    let silent = vec![0i16, 12, -40, 499, -500];
    let mut timeouts = 0;
    let mut silences = 0;
    let mut t = 0u64;
    while t <= 20_000 {
        let step = monitor.on_audio(&silent, t);
        let mut reactions = Vec::new();
        if step.silence_detected {
            reactions.push(session.on_event(TranscriptEvent::Silence));
        }
        if step.timed_out {
            assert!(t >= max);
            reactions.push(session.on_event(TranscriptEvent::Timeout));
        }
        for r in reactions {
            match r.partial.as_deref() {
                Some(TIMEOUT_MARKER) => timeouts += 1,
                Some(SILENCE_MARKER) => silences += 1,
                _ => {}
            }
            if r.release {
                session.released();
            }
        }
        t += 100;
    }
    assert_eq!(timeouts, 1);
    assert_eq!(silences, 1);
    assert_eq!(session.state(), SessionState::Stopped);
}

#[test]
fn loud_buffer_resets_the_silence_run() {
    let mut m = ListenMonitor::new(0, None);
    let quiet = vec![0i16; 4];
    let loud = vec![0i16, -501];
    for _ in 0..SILENCE_LIMIT {
        assert!(!m.on_audio(&quiet, 0).silence_detected);
    }
    assert!(!m.on_audio(&loud, 0).silence_detected);
    for _ in 0..SILENCE_LIMIT {
        assert!(!m.on_audio(&quiet, 0).silence_detected);
    }
    assert!(m.on_audio(&quiet, 0).silence_detected);
    assert!(!m.on_audio(&quiet, 0).silence_detected);
    assert!(ListenMonitor::buffer_has_sound(&vec![i16::MIN]));
    assert!(!ListenMonitor::buffer_has_sound(&vec![500, -500]));
}

#[test]
fn backend_values_are_classified() {
    assert!(matches!(classify_result("[timeout reached]".to_string()), TranscriptEvent::Timeout));
    assert!(matches!(classify_result("[silence detected]".to_string()), TranscriptEvent::Silence));
    match classify_result("[error] device lost".to_string()) {
        TranscriptEvent::Failure(e) => assert_eq!(e, "device lost"),
        _ => panic!("expected failure"),
    }
    match classify_result("[error]".to_string()) {
        TranscriptEvent::Failure(e) => assert_eq!(e, ""),
        _ => panic!("expected failure"),
    }
    match classify_result("hello".to_string()) {
        TranscriptEvent::Text(t) => assert_eq!(t, "hello"),
        _ => panic!("expected text"),
    }
}

#[test]
fn voice_status_names() {
    assert_eq!(VoiceStatus::Recording.as_name(), "recording");
    assert_eq!(VoiceStatus::Completed.as_name(), "completed");
    assert_eq!(VoiceStatus::Error.as_name(), "error");
}

#[test]
fn recognizer_partial_is_trimmed() {
    assert_eq!(vosk_result_to_string("{\"partial\": \"  你好 \"}"), "你好");
    assert_eq!(vosk_result_to_string("{\"partial\": \"   \"}"), "");
    assert_eq!(vosk_result_to_string("{\"text\": \"x\"}"), "");
    assert_eq!(vosk_result_to_string("not json"), "");
    assert_eq!(vosk_result_to_string("{\"partial\": 3}"), "");
}
