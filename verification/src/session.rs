//! The session controller: the state machine that turns hotkey events into
//! capture starts and stops, the poll-loop decisions that bound shutdown
//! latency, and the per-session processing pipeline from transcription
//! result to final text.
//!
//! The controller's event loop polls a hotkey queue with a bounded timeout;
//! the decisions here are what each poll outcome requires of it. The slow
//! pipeline (transcription, cleanup, output) runs off that loop, so the
//! hotkey path stays responsive; its decisions are staged functions that the
//! pipeline worker applies to the plain results of each external call.

use vstd::prelude::*;

use crate::post_process::CleanupError;
use crate::text::{all_ws, lemma_trim_empty_iff_all_ws, trim, trim_spec};

verus! {

/// Milliseconds the controller keeps capturing after key release, so speech
/// trailing the key-up is not truncated.
pub const DRAIN_DELAY_MS: u64 = 250;

/// Milliseconds of the poll timeout: the only point where the shutdown flag
/// is observed, so shutdown latency is bounded by this interval.
pub const POLL_INTERVAL_MS: u64 = 100;

/// Milliseconds waited after deregistering the capture callback before the
/// buffer is read, letting an in-flight callback invocation finish.
pub const CALLBACK_GRACE_MS: u64 = 100;

/// Capacity of the queue between the hotkey listener and the controller.
pub const HOTKEY_QUEUE_CAPACITY: usize = 32;

/// A hotkey notification delivered by the listener.
#[derive(Clone, Copy, Debug, PartialEq, Eq, Structural)]
pub enum HotkeyEvent {
    /// The hotkey went down.
    Pressed,
    /// The hotkey came up.
    Released,
}

/// The controller's capture state.
#[derive(Clone, Copy, Debug, PartialEq, Eq, Structural)]
pub enum SessionState {
    /// No capture is running.
    Idle,
    /// A capture is running.
    Recording,
}

/// What one hotkey event requires of the controller.
#[derive(Clone, Copy, Debug, PartialEq, Eq, Structural)]
pub enum SessionAction {
    /// Open the device and begin capturing.
    StartCapture,
    /// Wait out the drain delay, stop the capture, and hand the artifact to
    /// the processing pipeline.
    StopAndTranscribe,
    /// Nothing: the event is ignored in this state.
    Ignore,
}

/// The controller's action on one hotkey event: a press begins a capture
/// only from idle, a release ends one only while recording; every other
/// combination is ignored.
pub open spec fn hotkey_action(state: SessionState, event: HotkeyEvent) -> SessionAction {
    match (state, event) {
        (SessionState::Idle, HotkeyEvent::Pressed) => SessionAction::StartCapture,
        (SessionState::Recording, HotkeyEvent::Released) => SessionAction::StopAndTranscribe,
        _ => SessionAction::Ignore,
    }
}

/// The state after an action: a capture start moves to recording only if
/// the device opened; a stop always returns to idle; an ignored event
/// changes nothing.
pub open spec fn next_state(state: SessionState, action: SessionAction, start_ok: bool) -> SessionState {
    match action {
        SessionAction::StartCapture => if start_ok {
            SessionState::Recording
        } else {
            SessionState::Idle
        },
        SessionAction::StopAndTranscribe => SessionState::Idle,
        SessionAction::Ignore => state,
    }
}

/// Decide the controller's action on one hotkey event.
pub fn handle_hotkey_event(state: SessionState, event: HotkeyEvent) -> (a: SessionAction)
    ensures
        a == hotkey_action(state, event),
{
    match (state, event) {
        (SessionState::Idle, HotkeyEvent::Pressed) => SessionAction::StartCapture,
        (SessionState::Recording, HotkeyEvent::Released) => SessionAction::StopAndTranscribe,
        _ => SessionAction::Ignore,
    }
}

/// The controller's state after carrying an action out. `start_ok` reports
/// whether a capture start succeeded; it is ignored for other actions.
pub fn state_after(state: SessionState, action: SessionAction, start_ok: bool) -> (r: SessionState)
    ensures
        r == next_state(state, action, start_ok),
{
    match action {
        SessionAction::StartCapture => if start_ok {
            SessionState::Recording
        } else {
            SessionState::Idle
        },
        SessionAction::StopAndTranscribe => SessionState::Idle,
        SessionAction::Ignore => state,
    }
}

/// The session guard: a press while already recording and a release while
/// idle are both ignored, and leave the state (and so the capture buffer)
/// unchanged, whatever a capture start would have reported.
pub proof fn lemma_session_guard(start_ok: bool)
    ensures
        hotkey_action(SessionState::Recording, HotkeyEvent::Pressed) == SessionAction::Ignore,
        next_state(
            SessionState::Recording,
            hotkey_action(SessionState::Recording, HotkeyEvent::Pressed),
            start_ok,
        ) == SessionState::Recording,
        hotkey_action(SessionState::Idle, HotkeyEvent::Released) == SessionAction::Ignore,
        next_state(
            SessionState::Idle,
            hotkey_action(SessionState::Idle, HotkeyEvent::Released),
            start_ok,
        ) == SessionState::Idle,
{
}

/// What one poll of the hotkey queue returned.
#[derive(Clone, Copy, Debug, PartialEq, Eq, Structural)]
pub enum PollOutcome {
    /// An event arrived.
    Event(HotkeyEvent),
    /// The bounded wait timed out with no event.
    TimedOut,
    /// The listener disconnected: a fatal, loop-terminating condition.
    Disconnected,
}

/// What the controller loop does after one poll.
#[derive(Clone, Copy, Debug, PartialEq, Eq, Structural)]
pub enum LoopDecision {
    /// Handle the event, then poll again.
    HandleEvent(HotkeyEvent),
    /// Poll again.
    Continue,
    /// Leave the loop and release the engine.
    Exit,
}

/// The loop decision for one poll outcome: an event is handled, a
/// disconnect exits, and a timeout exits exactly when the shutdown flag has
/// been set — the timeout tick is the only point where shutdown is
/// observed.
pub open spec fn poll_decision_spec(outcome: PollOutcome, shutdown: bool) -> LoopDecision {
    match outcome {
        PollOutcome::Event(e) => LoopDecision::HandleEvent(e),
        PollOutcome::TimedOut => if shutdown {
            LoopDecision::Exit
        } else {
            LoopDecision::Continue
        },
        PollOutcome::Disconnected => LoopDecision::Exit,
    }
}

/// Decide what the controller loop does after one poll, given the shutdown
/// flag as read at that point.
pub fn poll_decision(outcome: PollOutcome, shutdown: bool) -> (r: LoopDecision)
    ensures
        r == poll_decision_spec(outcome, shutdown),
{
    match outcome {
        PollOutcome::Event(e) => LoopDecision::HandleEvent(e),
        PollOutcome::TimedOut => if shutdown {
            LoopDecision::Exit
        } else {
            LoopDecision::Continue
        },
        PollOutcome::Disconnected => LoopDecision::Exit,
    }
}

/// Shutdown latency: once the shutdown flag is set, no poll outcome lets
/// the loop idle on — with no pending hotkey events the very next poll, a
/// timeout after at most one poll interval, decides to exit.
pub proof fn lemma_shutdown_latency(outcome: PollOutcome)
    ensures
        !(poll_decision_spec(outcome, true) is Continue),
        outcome is TimedOut || outcome is Disconnected ==> poll_decision_spec(outcome, true)
            == LoopDecision::Exit,
{
}

/// A failed transcription call, as the surrounding application reports it.
#[derive(Clone, Debug)]
pub struct EngineError {
    /// Description of the failure, taken from the engine.
    pub message: String,
}

/// Where one session's processing stands after transcription.
pub enum TranscriptStep {
    /// Transcription failed: the session is aborted and reported; the
    /// controller is not halted.
    Failed(EngineError),
    /// The transcript was empty or whitespace-only: reported distinctly, and
    /// neither cleanup nor output runs.
    NoSpeech,
    /// The trimmed transcript, bound for cleanup (when configured) and
    /// output.
    Deliver(String),
}

/// Classify a transcription outcome: a failure aborts the session, an empty
/// or whitespace-only transcript is the distinct no-speech outcome, and any
/// other transcript moves on, trimmed.
pub fn classify_transcript(result: Result<String, EngineError>) -> (r: TranscriptStep)
    ensures
        result is Err ==> r == TranscriptStep::Failed(result->Err_0),
        result is Ok && trim_spec(result->Ok_0@).len() == 0 ==> r is NoSpeech,
        result is Ok && trim_spec(result->Ok_0@).len() != 0 ==> r is Deliver && r->Deliver_0@
            == trim_spec(result->Ok_0@),
{
    match result {
        Err(e) => TranscriptStep::Failed(e),
        Ok(t) => {
            let trimmed = trim(t.as_str());
            if trimmed.as_str().is_empty() {
                TranscriptStep::NoSpeech
            } else {
                TranscriptStep::Deliver(trimmed)
            }
        },
    }
}

/// Empty speech never reaches cleanup or output: an empty or
/// whitespace-only transcript trims to nothing, so `classify_transcript`
/// reports it as no speech and yields no text to deliver.
pub proof fn lemma_empty_speech(t: Seq<char>)
    requires
        all_ws(t),
    ensures
        trim_spec(t).len() == 0,
{
    lemma_trim_empty_iff_all_ws(t);
}

/// The text a session delivers, given the cleanup stage's outcome: the
/// cleaned text when cleanup ran and succeeded, and the uncleaned transcript
/// unchanged when cleanup was not configured or exhausted its retries —
/// a cleanup failure never aborts the session.
pub fn final_text(transcript: String, cleanup: Option<Result<String, CleanupError>>) -> (r: String)
    ensures
        cleanup is None ==> r == transcript,
        cleanup matches Some(Ok(c)) ==> r == c,
        cleanup matches Some(Err(_)) ==> r == transcript,
{
    match cleanup {
        None => transcript,
        Some(Ok(c)) => c,
        Some(Err(_)) => transcript,
    }
}

} // verus!
