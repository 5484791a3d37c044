//! The polling state machine: classify each observed task state,
//! decide whether the poll loop stops or sleeps and doubles its delay,
//! and phrase the progress line emitted for a non-terminal observation.
//!
//! The loop itself performs network calls and sleeps, so it lives
//! outside the crate; it feeds every observation through [`poll_step`]
//! and obeys the decision it gets back.

use vstd::prelude::*;

use crate::backoff::{next_delay, next_delay_spec, MAX_POLL_DELAY_SECS};
use crate::protocol::LuauExecutionTaskState;
use crate::text::{dec_digits, u64_to_decimal};

verus! {

/// Whether a task in this state will never transition again.
/// Only `Complete` and `Failed` end the poll loop; `Cancelled` and
/// `Unspecified` are deliberately non-terminal, so an unrecognized
/// server state keeps the loop polling instead of wedging the run.
pub open spec fn is_terminal_spec(s: LuauExecutionTaskState) -> bool {
    s == LuauExecutionTaskState::Complete || s == LuauExecutionTaskState::Failed
}

/// Classify a task state.
pub fn is_terminal(s: &LuauExecutionTaskState) -> (r: bool)
    ensures
        r == is_terminal_spec(*s),
{
    match s {
        LuauExecutionTaskState::Complete => true,
        LuauExecutionTaskState::Failed => true,
        _ => false,
    }
}

/// What the poll loop does after one observation of the task.
#[derive(Debug, Clone, Copy, PartialEq, Eq, Structural)]
pub enum PollDecision {
    /// The state is terminal: stop polling and hand the record on.
    Finish,
    /// The state is not terminal: sleep `delay_secs`, then poll again
    /// carrying `next_delay_secs` as the new delay.
    Wait { delay_secs: u64, next_delay_secs: u64 },
}

/// The decision taken for one observed state under the current delay.
pub open spec fn poll_step_spec(s: LuauExecutionTaskState, delay_secs: u64) -> PollDecision {
    if is_terminal_spec(s) {
        PollDecision::Finish
    } else {
        PollDecision::Wait {
            delay_secs,
            next_delay_secs: next_delay_spec(delay_secs as nat) as u64,
        }
    }
}

/// One step of the poll loop: stop on a terminal state, otherwise wait
/// out the current delay and double it, capped.
pub fn poll_step(s: &LuauExecutionTaskState, delay_secs: u64) -> (d: PollDecision)
    requires
        1 <= delay_secs <= MAX_POLL_DELAY_SECS,
    ensures
        d == poll_step_spec(*s, delay_secs),
{
    if is_terminal(s) {
        PollDecision::Finish
    } else {
        PollDecision::Wait { delay_secs, next_delay_secs: next_delay(delay_secs) }
    }
}

/// Law: the poll loop never stops on a state outside the terminal set.
/// On `Queued`, `Processing`, `Cancelled` and `Unspecified` alike, the
/// decision is to keep waiting; `Finish` is reached exactly on
/// `Complete` and `Failed`.
pub proof fn lemma_poller_stops_only_terminal(s: LuauExecutionTaskState, delay_secs: u64)
    ensures
        poll_step_spec(s, delay_secs) is Finish <==> (s == LuauExecutionTaskState::Complete
            || s == LuauExecutionTaskState::Failed),
        !is_terminal_spec(s) ==> poll_step_spec(s, delay_secs) is Wait,
{
}

/// The display name of a task state, as it appears in progress lines.
pub open spec fn state_name_spec(s: LuauExecutionTaskState) -> Seq<char> {
    match s {
        LuauExecutionTaskState::Queued => "Queued"@,
        LuauExecutionTaskState::Processing => "Processing"@,
        LuauExecutionTaskState::Cancelled => "Cancelled"@,
        LuauExecutionTaskState::Complete => "Complete"@,
        LuauExecutionTaskState::Failed => "Failed"@,
        LuauExecutionTaskState::Unspecified => "Unspecified"@,
    }
}

/// The display name of a task state.
pub fn state_name(s: &LuauExecutionTaskState) -> (r: &'static str)
    ensures
        r@ == state_name_spec(*s),
{
    match s {
        LuauExecutionTaskState::Queued => "Queued",
        LuauExecutionTaskState::Processing => "Processing",
        LuauExecutionTaskState::Cancelled => "Cancelled",
        LuauExecutionTaskState::Complete => "Complete",
        LuauExecutionTaskState::Failed => "Failed",
        LuauExecutionTaskState::Unspecified => "Unspecified",
    }
}

/// The progress line reported for a non-terminal observation.
pub open spec fn wait_message_text(s: LuauExecutionTaskState, delay_secs: u64) -> Seq<char> {
    "Current state: "@ + state_name_spec(s) + ". Waiting "@ + dec_digits(delay_secs as nat)
        + " seconds before polling again..."@
}

/// Phrase the progress line for a non-terminal observation: the state's
/// name and the delay about to be waited out.
pub fn wait_message(s: &LuauExecutionTaskState, delay_secs: u64) -> (r: String)
    ensures
        r@ == wait_message_text(*s, delay_secs),
{
    let mut r = "Current state: ".to_owned();
    r.append(state_name(s));
    r.append(". Waiting ");
    let delay_text = u64_to_decimal(delay_secs);
    r.append(delay_text.as_str());
    r.append(" seconds before polling again...");
    r
}

} // verus!
