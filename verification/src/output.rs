//! Output fan-out: dispatching final text to one or more output sinks.
//!
//! A sink operation (typing the text, or copying it to the clipboard) is a
//! fire-and-report external call made by the surrounding application. This
//! module decides which sinks a mode requires and how their results combine:
//! in `Both` mode both sinks must be attempted, and the typing failure, if
//! any, is the error surfaced to the caller.

use vstd::prelude::*;

verus! {

/// Where the final text is delivered.
#[derive(Clone, Copy, Debug, PartialEq, Eq, Structural)]
pub enum OutputMode {
    /// Type the text directly.
    Typing,
    /// Copy the text to the clipboard.
    Clipboard,
    /// Both type the text and copy it to the clipboard.
    Both,
}

impl Default for OutputMode {
    /// The default delivery is to both sinks.
    fn default() -> (r: Self)
        ensures
            r == OutputMode::Both,
    {
        OutputMode::Both
    }
}

/// A failed sink operation, as reported by the external call.
#[derive(Clone, Debug)]
pub struct SinkError {
    /// Description of the failure, taken from the failed command.
    pub message: String,
}

/// Whether a mode requires the typing sink to be attempted.
pub open spec fn uses_typing(mode: OutputMode) -> bool {
    mode is Typing || mode is Both
}

/// Whether a mode requires the clipboard sink to be attempted.
pub open spec fn uses_clipboard(mode: OutputMode) -> bool {
    mode is Clipboard || mode is Both
}

/// Which sink operations a mode requires: `(typing, clipboard)`.
///
/// The caller must attempt exactly the sinks this returns `true` for, and in
/// `Both` mode it must attempt them independently, so that one sink's failure
/// cannot suppress the other's side effect.
pub fn sinks_for_mode(mode: OutputMode) -> (r: (bool, bool))
    ensures
        r.0 == uses_typing(mode),
        r.1 == uses_clipboard(mode),
{
    match mode {
        OutputMode::Typing => (true, false),
        OutputMode::Clipboard => (false, true),
        OutputMode::Both => (true, true),
    }
}

/// The result fan-out surfaces, given each attempted sink's outcome:
/// the typing failure if there is one, else the clipboard failure if there
/// is one, else success.
pub open spec fn fanout_spec(
    mode: OutputMode,
    typing: Option<Result<(), SinkError>>,
    clipboard: Option<Result<(), SinkError>>,
) -> Result<(), SinkError> {
    if uses_typing(mode) && typing->Some_0 is Err {
        typing->Some_0
    } else if uses_clipboard(mode) && clipboard->Some_0 is Err {
        clipboard->Some_0
    } else {
        Ok(())
    }
}

/// Combine the sink results of one fan-out.
///
/// `typing` and `clipboard` hold the outcome of each sink operation exactly
/// where the mode required that sink to be attempted. The first error
/// surfaced is the typing sink's; a clipboard failure is surfaced only when
/// typing did not fail. Either sink's side effect stands regardless of the
/// other's outcome.
pub fn fanout_result(
    mode: OutputMode,
    typing: Option<Result<(), SinkError>>,
    clipboard: Option<Result<(), SinkError>>,
) -> (r: Result<(), SinkError>)
    requires
        typing is Some <==> uses_typing(mode),
        clipboard is Some <==> uses_clipboard(mode),
    ensures
        r == fanout_spec(mode, typing, clipboard),
{
    if let Some(Err(e)) = typing {
        Err(e)
    } else if let Some(Err(e)) = clipboard {
        Err(e)
    } else {
        Ok(())
    }
}

/// Fan-out independence in `Both` mode: both sinks are required to be
/// attempted, and when the typing sink fails while the clipboard sink
/// succeeds, the clipboard side effect stands (its result is consumed as a
/// success, suppressed by no policy) and the error surfaced is the typing
/// failure.
pub proof fn lemma_fanout_independence(typing_failure: SinkError)
    ensures
        uses_typing(OutputMode::Both) && uses_clipboard(OutputMode::Both),
        fanout_spec(OutputMode::Both, Some(Err(typing_failure)), Some(Ok(())))
            == Result::<(), SinkError>::Err(typing_failure),
{
}

} // verus!
