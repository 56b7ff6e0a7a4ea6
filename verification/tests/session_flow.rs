use parakeet_writer::output::{fanout_result, sinks_for_mode, OutputMode, SinkError};
use parakeet_writer::post_process::{
    backoff_before, default_prompt, retry_init, retry_step, CleanupError, PostProcessor,
    RetryDecision, RetryState, BACKOFF_SECS, MAX_ATTEMPTS,
};
use parakeet_writer::session::{
    classify_transcript, final_text, handle_hotkey_event, poll_decision, state_after,
    EngineError, HotkeyEvent, LoopDecision, PollOutcome, SessionAction, SessionState,
    TranscriptStep, DRAIN_DELAY_MS, POLL_INTERVAL_MS,
};

fn sink_err(m: &str) -> SinkError {
    SinkError { message: m.to_string() }
}

fn cleanup_err(m: &str) -> CleanupError {
    CleanupError { message: m.to_string() }
}

#[test]
fn press_from_idle_starts_capture() {
    let a = handle_hotkey_event(SessionState::Idle, HotkeyEvent::Pressed);
    assert_eq!(a, SessionAction::StartCapture);
    assert_eq!(state_after(SessionState::Idle, a, true), SessionState::Recording);
}

#[test]
fn failed_capture_start_stays_idle() {
    let a = handle_hotkey_event(SessionState::Idle, HotkeyEvent::Pressed);
    assert_eq!(state_after(SessionState::Idle, a, false), SessionState::Idle);
}

#[test]
fn release_while_recording_stops_and_transcribes() {
    let a = handle_hotkey_event(SessionState::Recording, HotkeyEvent::Released);
    assert_eq!(a, SessionAction::StopAndTranscribe);
    assert_eq!(state_after(SessionState::Recording, a, false), SessionState::Idle);
}

#[test]
fn press_while_recording_is_ignored() {
    let a = handle_hotkey_event(SessionState::Recording, HotkeyEvent::Pressed);
    assert_eq!(a, SessionAction::Ignore);
    assert_eq!(state_after(SessionState::Recording, a, true), SessionState::Recording);
}

#[test]
fn release_while_idle_is_ignored() {
    let a = handle_hotkey_event(SessionState::Idle, HotkeyEvent::Released);
    assert_eq!(a, SessionAction::Ignore);
    assert_eq!(state_after(SessionState::Idle, a, false), SessionState::Idle);
}

#[test]
fn shutdown_exits_on_next_timeout_tick() {
    assert_eq!(poll_decision(PollOutcome::TimedOut, true), LoopDecision::Exit);
    assert_eq!(poll_decision(PollOutcome::Disconnected, true), LoopDecision::Exit);
}

#[test]
fn poll_without_shutdown_continues() {
    assert_eq!(poll_decision(PollOutcome::TimedOut, false), LoopDecision::Continue);
    assert_eq!(poll_decision(PollOutcome::Disconnected, false), LoopDecision::Exit);
    assert_eq!(
        poll_decision(PollOutcome::Event(HotkeyEvent::Pressed), false),
        LoopDecision::HandleEvent(HotkeyEvent::Pressed)
    );
}

#[test]
fn timing_constants() {
    assert_eq!(DRAIN_DELAY_MS, 250);
    assert_eq!(POLL_INTERVAL_MS, 100);
}

#[test]
fn empty_transcript_is_no_speech() {
    assert!(matches!(classify_transcript(Ok(String::new())), TranscriptStep::NoSpeech));
}

#[test]
fn whitespace_transcript_is_no_speech() {
    let r = classify_transcript(Ok("  \t\n\u{00A0} ".to_string()));
    assert!(matches!(r, TranscriptStep::NoSpeech));
}

#[test]
fn transcript_is_trimmed_before_delivery() {
    match classify_transcript(Ok("  hello world \n".to_string())) {
        TranscriptStep::Deliver(t) => assert_eq!(t, "hello world"),
        _ => panic!("expected delivery"),
    }
}

#[test]
fn failed_transcription_aborts_session() {
    let r = classify_transcript(Err(EngineError { message: "engine".to_string() }));
    match r {
        TranscriptStep::Failed(e) => assert_eq!(e.message, "engine"),
        _ => panic!("expected failure"),
    }
}

#[test]
fn final_text_without_cleanup_is_transcript() {
    assert_eq!(final_text("raw".to_string(), None), "raw");
}

#[test]
fn final_text_uses_cleaned_text_on_success() {
    assert_eq!(final_text("raw".to_string(), Some(Ok("clean".to_string()))), "clean");
}

#[test]
fn final_text_falls_back_on_cleanup_failure() {
    let r = final_text("raw".to_string(), Some(Err(cleanup_err("down"))));
    assert_eq!(r, "raw");
}

#[test]
fn retry_exhaustion_surfaces_last_error() {
    let s0 = retry_init();
    assert_eq!(s0.attempts_made, 0);
    let s1 = match retry_step(s0, Err(cleanup_err("first"))) {
        RetryDecision::RetryAfterBackoff(s) => s,
        _ => panic!("expected retry"),
    };
    assert_eq!(s1.attempts_made, 1);
    let s2 = match retry_step(s1, Err(cleanup_err("second"))) {
        RetryDecision::RetryAfterBackoff(s) => s,
        _ => panic!("expected retry"),
    };
    assert_eq!(s2.attempts_made, 2);
    match retry_step(s2, Err(cleanup_err("third"))) {
        RetryDecision::Exhausted(e) => assert_eq!(e.message, "third"),
        _ => panic!("expected exhaustion"),
    }
    // The caller then emits the uncleaned transcript, not an error.
    let fallback = final_text("raw".to_string(), Some(Err(cleanup_err("third"))));
    assert_eq!(fallback, "raw");
}

#[test]
fn retry_success_delivers_trimmed_text() {
    match retry_step(retry_init(), Ok("  cleaned \n".to_string())) {
        RetryDecision::Deliver(t) => assert_eq!(t, "cleaned"),
        _ => panic!("expected delivery"),
    }
}

#[test]
fn retry_backoff_is_fixed_after_first_attempt() {
    assert_eq!(backoff_before(RetryState { attempts_made: 0 }), 0);
    assert_eq!(backoff_before(RetryState { attempts_made: 1 }), BACKOFF_SECS);
    assert_eq!(backoff_before(RetryState { attempts_made: 2 }), 1);
    assert_eq!(MAX_ATTEMPTS, 3);
}

#[test]
fn post_processor_default_prompt() {
    let p = PostProcessor::new("localhost", 11434, "llama", None);
    assert_eq!(p.host, "localhost");
    assert_eq!(p.port, 11434);
    assert_eq!(p.model, "llama");
    assert_eq!(p.prompt, default_prompt());
    assert!(p.prompt.starts_with("Clean up this voice transcript"));
    assert!(p.prompt.ends_with("Output only the cleaned text."));
}

#[test]
fn post_processor_custom_prompt() {
    let p = PostProcessor::new("host", 80, "m", Some("Just fix typos.".to_string()));
    assert_eq!(p.prompt, "Just fix typos.");
}

#[test]
fn sinks_per_mode() {
    assert_eq!(sinks_for_mode(OutputMode::Typing), (true, false));
    assert_eq!(sinks_for_mode(OutputMode::Clipboard), (false, true));
    assert_eq!(sinks_for_mode(OutputMode::Both), (true, true));
    assert_eq!(OutputMode::default(), OutputMode::Both);
}

#[test]
fn fanout_both_surfaces_typing_failure_only() {
    // The clipboard sink ran and succeeded; only the typing error surfaces.
    let r = fanout_result(OutputMode::Both, Some(Err(sink_err("typing broke"))), Some(Ok(())));
    match r {
        Err(e) => assert_eq!(e.message, "typing broke"),
        Ok(()) => panic!("expected the typing failure"),
    }
}

#[test]
fn fanout_both_ok_when_both_succeed() {
    assert!(fanout_result(OutputMode::Both, Some(Ok(())), Some(Ok(()))).is_ok());
}

#[test]
fn fanout_both_surfaces_clipboard_failure_when_typing_ok() {
    let r = fanout_result(OutputMode::Both, Some(Ok(())), Some(Err(sink_err("clip broke"))));
    match r {
        Err(e) => assert_eq!(e.message, "clip broke"),
        Ok(()) => panic!("expected the clipboard failure"),
    }
}

#[test]
fn fanout_single_sink_modes() {
    assert!(fanout_result(OutputMode::Typing, Some(Ok(())), None).is_ok());
    let r = fanout_result(OutputMode::Clipboard, None, Some(Err(sink_err("no wl-copy"))));
    assert!(r.is_err());
}
