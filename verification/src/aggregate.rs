//! The result aggregator: validate the terminal task record, compute
//! the presentational pass rate, phrase the summary line, and select
//! the process exit status.
//!
//! The pass rate is carried in basis points (hundredths of a percent)
//! so that the two-decimal percentage is exact integer arithmetic.

use vstd::prelude::*;

use crate::poll::is_terminal_spec;
use crate::protocol::{
    LuauExecutionTaskResponse, LuauExecutionTaskResult, LuauExecutionTaskState,
};
use crate::text::{dec_digits, digit_char, u64_to_decimal};

verus! {

/// The pass rate of `passed` out of `total`, in basis points
/// (10000 = 100%). An empty run counts as vacuously successful.
pub open spec fn pass_rate_bp_spec(passed: nat, total: nat) -> nat {
    if total == 0 {
        10000
    } else {
        passed * 10000 / total
    }
}

/// Compute the pass rate in basis points.
pub fn pass_rate_basis_points(passed: u32, total: u32) -> (r: u64)
    ensures
        r == pass_rate_bp_spec(passed as nat, total as nat),
{
    if total == 0 {
        10000
    } else {
        (passed as u64) * 10000 / (total as u64)
    }
}

/// A basis-point value rendered as a percentage with two decimals,
/// for example 7000 as `70.00`.
pub open spec fn percent_text(bp: nat) -> Seq<char> {
    dec_digits(bp / 100) + seq!['.'] + seq![digit_char(bp % 100 / 10), digit_char(bp % 10)]
}

/// Render a basis-point value as a two-decimal percentage.
pub fn render_percent(bp: u64) -> (s: String)
    ensures
        s@ == percent_text(bp as nat),
{
    let mut s = u64_to_decimal(bp / 100);
    s.append(".");
    proof {
        reveal_strlit(".");
        assert("."@ =~= seq!['.']);
    }
    s.append(crate::text::digit_string(bp % 100 / 10));
    s.append(crate::text::digit_string(bp % 10));
    s
}

/// A millisecond duration rendered as seconds with three decimals,
/// for example 2500 as `2.500`.
pub open spec fn duration_text(ms: nat) -> Seq<char> {
    dec_digits(ms / 1000) + seq!['.'] + seq![
        digit_char(ms % 1000 / 100),
        digit_char(ms % 100 / 10),
        digit_char(ms % 10),
    ]
}

/// Render a millisecond duration as seconds with three decimals.
pub fn render_duration(ms: u64) -> (s: String)
    ensures
        s@ == duration_text(ms as nat),
{
    let mut s = u64_to_decimal(ms / 1000);
    s.append(".");
    proof {
        reveal_strlit(".");
        assert("."@ =~= seq!['.']);
    }
    s.append(crate::text::digit_string(ms % 1000 / 100));
    s.append(crate::text::digit_string(ms % 100 / 10));
    s.append(crate::text::digit_string(ms % 10));
    s
}

/// The summary line reported for a completed run.
pub open spec fn summary_text(res: LuauExecutionTaskResult) -> Seq<char> {
    "Results ("@ + duration_text(res.time_millis as nat) + "s): "@ + dec_digits(res.suites as nat)
        + " suites, "@ + dec_digits(res.total as nat) + " tests ("@ + dec_digits(res.passed as nat)
        + " passed, "@ + dec_digits(res.failed as nat) + " failed) - "@ + percent_text(
        pass_rate_bp_spec(res.passed as nat, res.total as nat),
    ) + "% passed"@
}

/// Phrase the summary line for a completed run: suite and test counts,
/// elapsed time, and the recomputed pass rate.
pub fn render_summary(res: &LuauExecutionTaskResult) -> (s: String)
    ensures
        s@ == summary_text(*res),
{
    let mut s = "Results (".to_owned();
    let dur = render_duration(res.time_millis);
    s.append(dur.as_str());
    s.append("s): ");
    let suites = u64_to_decimal(res.suites as u64);
    s.append(suites.as_str());
    s.append(" suites, ");
    let total = u64_to_decimal(res.total as u64);
    s.append(total.as_str());
    s.append(" tests (");
    let passed = u64_to_decimal(res.passed as u64);
    s.append(passed.as_str());
    s.append(" passed, ");
    let failed = u64_to_decimal(res.failed as u64);
    s.append(failed.as_str());
    s.append(" failed) - ");
    let rate = render_percent(pass_rate_basis_points(res.passed, res.total));
    s.append(rate.as_str());
    s.append("% passed");
    s
}

/// The exit status a completed run maps to: the service's own success
/// flag decides, not the locally recomputed pass rate.
pub open spec fn exit_code_spec(res: LuauExecutionTaskResult) -> i32 {
    if res.success {
        0
    } else {
        1
    }
}

/// Law: the exit status follows the success flag alone. Two result
/// records that agree on the flag get the same exit status, however
/// much their counts — and so their recomputed pass rates — differ.
pub proof fn lemma_exit_code_follows_success_flag(
    r1: LuauExecutionTaskResult,
    r2: LuauExecutionTaskResult,
)
    requires
        r1.success == r2.success,
    ensures
        exit_code_spec(r1) == exit_code_spec(r2),
{
}

/// The outcome the aggregator hands the process boundary.
#[derive(Debug, Clone, PartialEq, Eq)]
pub enum TaskOutcome {
    /// A fatal condition: the diagnostic is printed and the process
    /// aborts with a non-zero status.
    Fatal { message: String },
    /// A completed run: the summary line is printed and the process
    /// exits with `exit_code`.
    Finished { exit_code: i32, summary: String },
}

/// The diagnostic for a task that failed with an attached error.
pub open spec fn failed_message_text(service_message: Seq<char>) -> Seq<char> {
    "Luau execution session failed: "@ + service_message
}

/// Aggregate a terminal task record into the final outcome.
///
/// A failed task surfaces the service's message verbatim inside the
/// diagnostic; a completed task must carry an output payload, and its
/// success flag alone selects the exit status.
pub fn aggregate(task: &LuauExecutionTaskResponse) -> (v: TaskOutcome)
    requires
        is_terminal_spec(task.state),
    ensures
        task.state == LuauExecutionTaskState::Failed ==> (task.error matches Some(e) ==> (v
            matches TaskOutcome::Fatal { message } && message@ == failed_message_text(e.message@))),
        task.state == LuauExecutionTaskState::Failed && task.error is None ==> (v
            matches TaskOutcome::Fatal { message } && message@
            == "Luau execution session failed for unknown reason"@),
        task.state == LuauExecutionTaskState::Complete && task.output is None ==> (v
            matches TaskOutcome::Fatal { message } && message@
            == "Luau execution session has no output"@),
        task.state == LuauExecutionTaskState::Complete ==> (task.output matches Some(o) ==> (v
            matches TaskOutcome::Finished { exit_code, summary } && exit_code == exit_code_spec(
            o.results@[0],
        ) && summary@ == summary_text(o.results@[0]))),
{
    match task.state {
        LuauExecutionTaskState::Failed => {
            match &task.error {
                Some(err) => {
                    let mut message = "Luau execution session failed: ".to_owned();
                    message.append(err.message.as_str());
                    TaskOutcome::Fatal { message }
                },
                None => {
                    let message = "Luau execution session failed for unknown reason".to_owned();
                    TaskOutcome::Fatal { message }
                },
            }
        },
        _ => {
            match &task.output {
                Some(out) => {
                    let res = &out.results[0];
                    let exit_code: i32 = if res.success {
                        0
                    } else {
                        1
                    };
                    let summary = render_summary(res);
                    TaskOutcome::Finished { exit_code, summary }
                },
                None => {
                    let message = "Luau execution session has no output".to_owned();
                    TaskOutcome::Fatal { message }
                },
            }
        },
    }
}

/// The process exit status for an outcome: a fatal condition aborts
/// with status 101, a finished run exits with its own code.
pub fn outcome_exit_code(v: &TaskOutcome) -> (r: i32)
    ensures
        v matches TaskOutcome::Fatal { .. } ==> r == 101,
        v matches TaskOutcome::Finished { exit_code, .. } ==> r == exit_code,
{
    match v {
        TaskOutcome::Fatal { .. } => 101,
        TaskOutcome::Finished { exit_code, .. } => *exit_code,
    }
}

} // verus!
