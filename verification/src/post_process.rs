//! The optional cleanup stage: one language-model rewrite of the transcript,
//! wrapped in bounded retries with a fixed backoff.
//!
//! The network call itself is made by the surrounding application; this
//! module owns the configuration and the retry policy: up to three attempts,
//! the first immediate, each later one after a one-second backoff, each an
//! independent request on a fresh connection. Success delivers the trimmed
//! cleaned text; exhaustion surfaces the last error, and the caller falls
//! back to the uncleaned transcript.

use vstd::prelude::*;

use crate::text::{trim, trim_spec};

verus! {

/// How many cleanup attempts one invocation makes at most.
pub const MAX_ATTEMPTS: u32 = 3;

/// Seconds waited before each attempt after the first.
pub const BACKOFF_SECS: u64 = 1;

/// Connect timeout of each attempt: fail fast on a dead connection.
pub const CONNECT_TIMEOUT_SECS: u64 = 10;

/// Overall request timeout of each attempt: the remote model may need
/// cold-start or reload time.
pub const REQUEST_TIMEOUT_SECS: u64 = 120;

/// How long an idle connection may be kept; pooling is disabled besides, so
/// no attempt resurrects a stale connection.
pub const POOL_IDLE_TIMEOUT_SECS: u64 = 60;

/// The instruction prompt used when no override is configured.
pub open spec fn default_prompt_spec() -> Seq<char> {
    "Clean up this voice transcript for use as an AI coding prompt. Remove filler words (um, uh, like, you know) and false starts. Fix grammar and punctuation. If the speaker corrected themselves, keep only the correction. Replace spoken punctuation and symbol names with their actual characters (e.g., \"comma\" \u{2192} ,, \"open paren\" \u{2192} (, \"hash\" \u{2192} #, \"greater than\" \u{2192} >). Preserve technical terms and abbreviations exactly as spoken (e.g., API, CLI, async, stdin). Preserve the speaker's wording. Only restructure if the original is genuinely unclear. Output only the cleaned text."@
}

/// The instruction prompt used when no override is configured.
pub fn default_prompt() -> (r: String)
    ensures
        r@ == default_prompt_spec(),
{
    "Clean up this voice transcript for use as an AI coding prompt. Remove filler words (um, uh, like, you know) and false starts. Fix grammar and punctuation. If the speaker corrected themselves, keep only the correction. Replace spoken punctuation and symbol names with their actual characters (e.g., \"comma\" \u{2192} ,, \"open paren\" \u{2192} (, \"hash\" \u{2192} #, \"greater than\" \u{2192} >). Preserve technical terms and abbreviations exactly as spoken (e.g., API, CLI, async, stdin). Preserve the speaker's wording. Only restructure if the original is genuinely unclear. Output only the cleaned text.".to_owned()
}

/// A failed cleanup call, as the surrounding application reports it.
#[derive(Clone, Debug)]
pub struct CleanupError {
    /// Description of the failure, taken from the failed request.
    pub message: String,
}

/// Configuration of the cleanup stage: the endpoint and model of the
/// text-completion service, and the instruction prompt sent as the system
/// message before the raw transcript.
pub struct PostProcessor {
    /// Host of the service endpoint.
    pub host: String,
    /// Port of the service endpoint.
    pub port: u16,
    /// Name of the model asked for the rewrite.
    pub model: String,
    /// The instruction prompt.
    pub prompt: String,
}

impl PostProcessor {
    /// Configure the cleanup stage; a missing prompt override falls back to
    /// the fixed instruction prompt.
    pub fn new(host: &str, port: u16, model: &str, custom_prompt: Option<String>) -> (r: Self)
        ensures
            r.host@ == host@,
            r.port == port,
            r.model@ == model@,
            custom_prompt is Some ==> r.prompt == custom_prompt->0,
            custom_prompt is None ==> r.prompt@ == default_prompt_spec(),
    {
        let prompt = match custom_prompt {
            Some(p) => p,
            None => default_prompt(),
        };
        PostProcessor { host: host.to_owned(), port, model: model.to_owned(), prompt }
    }
}

/// State of one cleanup invocation's retries: how many attempts have failed.
#[derive(Clone, Copy, Debug, PartialEq, Eq, Structural)]
pub struct RetryState {
    /// Attempts made so far, all failed.
    pub attempts_made: u32,
}

/// A fresh retry state: no attempt made yet.
pub fn retry_init() -> (r: RetryState)
    ensures
        r == (RetryState { attempts_made: 0 }),
{
    RetryState { attempts_made: 0 }
}

/// What the cleanup stage does after one attempt's outcome.
pub enum RetryDecision {
    /// The attempt succeeded: deliver the trimmed cleaned text.
    Deliver(String),
    /// The attempt failed and attempts remain: wait the backoff, then try
    /// again in this state.
    RetryAfterBackoff(RetryState),
    /// The attempt failed and none remain: surface this last error.
    Exhausted(CleanupError),
}

/// The decision after a failed attempt: one more failure is recorded, and
/// the invocation retries until it has made its last allowed attempt, whose
/// error it surfaces.
pub open spec fn retry_transition(st: RetryState, err: CleanupError) -> RetryDecision {
    if st.attempts_made + 1 < MAX_ATTEMPTS {
        RetryDecision::RetryAfterBackoff(RetryState { attempts_made: (st.attempts_made + 1) as u32 })
    } else {
        RetryDecision::Exhausted(err)
    }
}

/// Seconds to wait before the attempt following `st`: nothing before the
/// first attempt, the fixed backoff before every later one.
pub fn backoff_before(st: RetryState) -> (r: u64)
    ensures
        st.attempts_made == 0 ==> r == 0,
        st.attempts_made > 0 ==> r == BACKOFF_SECS,
{
    if st.attempts_made == 0 {
        0
    } else {
        BACKOFF_SECS
    }
}

/// Advance the retry state by one attempt's outcome. Success delivers the
/// cleaned text, trimmed; failure retries while attempts remain and
/// otherwise surfaces the last error.
pub fn retry_step(st: RetryState, outcome: Result<String, CleanupError>) -> (r: RetryDecision)
    requires
        st.attempts_made < MAX_ATTEMPTS,
    ensures
        outcome is Ok ==> r is Deliver && r->Deliver_0@ == trim_spec(outcome->Ok_0@),
        outcome is Err ==> r == retry_transition(st, outcome->Err_0),
{
    match outcome {
        Ok(t) => RetryDecision::Deliver(trim(t.as_str())),
        Err(e) => {
            if st.attempts_made + 1 < MAX_ATTEMPTS {
                RetryDecision::RetryAfterBackoff(RetryState { attempts_made: st.attempts_made + 1 })
            } else {
                RetryDecision::Exhausted(e)
            }
        },
    }
}

/// Retry exhaustion: a cleanup invocation whose three attempts all fail
/// retries after the first and second failures and surfaces exactly the
/// third, last error. The caller then falls back to the uncleaned
/// transcript (see the contract of `crate::session::final_text`) rather
/// than reporting an error.
pub proof fn lemma_retry_exhaustion(e1: CleanupError, e2: CleanupError, e3: CleanupError)
    ensures
        retry_transition((RetryState { attempts_made: 0 }), e1) == RetryDecision::RetryAfterBackoff(
            (RetryState { attempts_made: 1 }),
        ),
        retry_transition((RetryState { attempts_made: 1 }), e2) == RetryDecision::RetryAfterBackoff(
            (RetryState { attempts_made: 2 }),
        ),
        retry_transition((RetryState { attempts_made: 2 }), e3) == RetryDecision::Exhausted(e3),
{
}

} // verus!
