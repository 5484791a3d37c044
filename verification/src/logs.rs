//! The log streamer's decisions: which structured entries are
//! suppressed, which output channel each surviving entry goes to, and
//! whether the pagination loop continues.
//!
//! Fetching a page is a network call and stays outside the crate; the
//! loop hands each fetched page to [`plan_page`] and performs exactly
//! the dispatches it is given, in order, then follows the continuation
//! decision.

use vstd::prelude::*;

use crate::protocol::{
    LogMessageType, LuauExecutionTaskLog, LuauExecutionTaskLogEntry, LuauExecutionTaskLogsResponse,
};

verus! {

/// The noisy substring whose presence in a message suppresses the entry.
pub open spec fn noise_marker() -> Seq<char> {
    "Failed to load sound"@
}

/// Whether the message contains the noise marker as a contiguous run.
pub open spec fn contains_noise(m: Seq<char>) -> bool {
    exists|i: int|
        0 <= i && i + noise_marker().len() <= m.len() && #[trigger] m.subrange(
            i,
            i + noise_marker().len() as int,
        ) == noise_marker()
}

/// Whether `pat` occurs in `m` starting at position `i`.
fn match_at(m: &str, pat: &str, i: usize) -> (r: bool)
    requires
        i + pat@.len() <= m@.len(),
    ensures
        r == (m@.subrange(i as int, i as int + pat@.len() as int) == pat@),
{
    let pat_len = pat.unicode_len();
    let m_len = m.unicode_len();
    let mut j: usize = 0;
    while j < pat_len
        invariant
            j <= pat_len,
            pat_len == pat@.len(),
            m_len == m@.len(),
            i + pat_len <= m_len,
            forall|t: int| 0 <= t < j ==> m@[i + t] == pat@[t],
        decreases pat_len - j,
    {
        if m.get_char(i + j) != pat.get_char(j) {
            proof {
                assert(m@.subrange(i as int, i as int + pat@.len() as int)[j as int] == m@[i + j]);
            }
            return false;
        }
        j += 1;
    }
    proof {
        assert(m@.subrange(i as int, i as int + pat@.len() as int) =~= pat@);
    }
    true
}

/// Decide whether the message contains the noise marker.
pub fn message_contains_noise(m: &str) -> (r: bool)
    ensures
        r == contains_noise(m@),
{
    let pat = "Failed to load sound";
    proof {
        reveal_strlit("Failed to load sound");
    }
    let pat_len = pat.unicode_len();
    let m_len = m.unicode_len();
    if m_len < pat_len {
        return false;
    }
    let mut i: usize = 0;
    while i <= m_len - pat_len
        invariant
            pat@ == noise_marker(),
            pat_len == noise_marker().len(),
            1 <= pat_len,
            m_len == m@.len(),
            pat_len <= m_len,
            i <= m_len - pat_len + 1,
            forall|k: int|
                0 <= k < i ==> #[trigger] m@.subrange(k, k + noise_marker().len() as int)
                    != noise_marker(),
        decreases m_len - pat_len + 1 - i,
    {
        if match_at(m, pat, i) {
            return true;
        }
        i += 1;
    }
    false
}

/// Whether an entry is dropped rather than dispatched: its message
/// contains the noise marker, or its category is `Unspecified`.
pub open spec fn entry_suppressed(e: LuauExecutionTaskLogEntry) -> bool {
    contains_noise(e.message@) || e.message_type == LogMessageType::Unspecified
}

/// Decide whether an entry is suppressed.
pub fn is_suppressed(e: &LuauExecutionTaskLogEntry) -> (r: bool)
    ensures
        r == entry_suppressed(*e),
{
    if message_contains_noise(e.message.as_str()) {
        true
    } else {
        match e.message_type {
            LogMessageType::Unspecified => true,
            _ => false,
        }
    }
}

/// The output channel a dispatched entry is written to.
#[derive(Debug, Clone, Copy, PartialEq, Eq, Structural)]
pub enum LogChannel {
    /// Error-severity diagnostics.
    Error,
    /// Warning-severity diagnostics.
    Warning,
    /// Informational diagnostics.
    Info,
    /// The script's own captured output.
    RawOutput,
}

/// The channel for a severity category. Meaningful only for categories
/// that survive suppression; `Unspecified` entries are never dispatched.
pub open spec fn channel_spec(t: LogMessageType) -> LogChannel
    recommends
        t != LogMessageType::Unspecified,
{
    match t {
        LogMessageType::Error => LogChannel::Error,
        LogMessageType::Warning => LogChannel::Warning,
        LogMessageType::Info => LogChannel::Info,
        _ => LogChannel::RawOutput,
    }
}

/// Map a severity category to its output channel.
pub fn channel_for(t: &LogMessageType) -> (r: LogChannel)
    requires
        *t != LogMessageType::Unspecified,
    ensures
        r == channel_spec(*t),
{
    match t {
        LogMessageType::Error => LogChannel::Error,
        LogMessageType::Warning => LogChannel::Warning,
        LogMessageType::Info => LogChannel::Info,
        _ => LogChannel::RawOutput,
    }
}

/// One emission the streamer performs: a message written to a channel,
/// tagged with the entry's original creation time rather than the time
/// it is printed.
#[derive(Debug, Clone, PartialEq, Eq)]
pub struct LogDispatch {
    pub channel: LogChannel,
    pub timestamp: String,
    pub message: String,
}

/// The emission a surviving entry turns into.
pub open spec fn dispatch_of(e: LuauExecutionTaskLogEntry) -> LogDispatch {
    LogDispatch {
        channel: channel_spec(e.message_type),
        timestamp: e.create_time,
        message: e.message,
    }
}

/// All structured entries of a run of log resources, in order.
pub open spec fn entries_of_logs(logs: Seq<LuauExecutionTaskLog>) -> Seq<
    LuauExecutionTaskLogEntry,
>
    decreases logs.len(),
{
    if logs.len() == 0 {
        Seq::empty()
    } else {
        entries_of_logs(logs.drop_last()) + logs.last().structured_messages@
    }
}

/// The ordered emissions for a run of entries: suppressed entries
/// contribute nothing, every other entry exactly its dispatch, in the
/// order the entries arrived.
pub open spec fn plan_of(entries: Seq<LuauExecutionTaskLogEntry>) -> Seq<LogDispatch>
    decreases entries.len(),
{
    if entries.len() == 0 {
        Seq::empty()
    } else if entry_suppressed(entries.last()) {
        plan_of(entries.drop_last())
    } else {
        plan_of(entries.drop_last()).push(dispatch_of(entries.last()))
    }
}

/// The emissions for one fetched page.
pub open spec fn page_plan_spec(page: LuauExecutionTaskLogsResponse) -> Seq<LogDispatch> {
    plan_of(entries_of_logs(page.luau_execution_session_task_logs@))
}

proof fn lemma_plan_push(s: Seq<LuauExecutionTaskLogEntry>, e: LuauExecutionTaskLogEntry)
    ensures
        plan_of(s.push(e)) == if entry_suppressed(e) {
            plan_of(s)
        } else {
            plan_of(s).push(dispatch_of(e))
        },
{
    assert(s.push(e).drop_last() =~= s);
    assert(s.push(e).last() == e);
}

proof fn lemma_entries_of_logs_step(logs: Seq<LuauExecutionTaskLog>, k: int)
    requires
        0 <= k < logs.len(),
    ensures
        entries_of_logs(logs.take(k + 1)) == entries_of_logs(logs.take(k))
            + logs[k].structured_messages@,
{
    assert(logs.take(k + 1).drop_last() =~= logs.take(k));
    assert(logs.take(k + 1).last() == logs[k]);
}

/// Compute the emissions for one fetched page, and whether another page
/// follows: the continuation token must be echoed again exactly when it
/// is non-empty.
#[verifier::loop_isolation(false)]
pub fn plan_page(page: &LuauExecutionTaskLogsResponse) -> (r: (Vec<LogDispatch>, bool))
    ensures
        r.0@ == page_plan_spec(*page),
        r.1 == (page.next_page_token@.len() > 0),
{
    let mut out: Vec<LogDispatch> = Vec::new();
    let logs = &page.luau_execution_session_task_logs;
    let mut li: usize = 0;
    while li < logs.len()
        invariant
            li <= logs.len(),
            out@ == plan_of(entries_of_logs(logs@.take(li as int))),
        decreases logs.len() - li,
    {
        let log = &logs[li];
        let mut ei: usize = 0;
        while ei < log.structured_messages.len()
            invariant
                ei <= log.structured_messages.len(),
                li < logs.len(),
                out@ == plan_of(
                    entries_of_logs(logs@.take(li as int)) + log.structured_messages@.take(
                        ei as int,
                    ),
                ),
            decreases log.structured_messages.len() - ei,
        {
            let entry = &log.structured_messages[ei];
            proof {
                let processed = entries_of_logs(logs@.take(li as int))
                    + log.structured_messages@.take(ei as int);
                assert(processed.push(*entry) =~= entries_of_logs(logs@.take(li as int))
                    + log.structured_messages@.take(ei + 1));
                lemma_plan_push(processed, *entry);
            }
            if !is_suppressed(entry) {
                let channel = channel_for(&entry.message_type);
                out.push(
                    LogDispatch {
                        channel,
                        timestamp: entry.create_time.clone(),
                        message: entry.message.clone(),
                    },
                );
            }
            ei += 1;
        }
        proof {
            lemma_entries_of_logs_step(logs@, li as int);
            assert(log.structured_messages@.take(log.structured_messages@.len() as int)
                =~= log.structured_messages@);
        }
        li += 1;
    }
    proof {
        assert(logs@.take(logs@.len() as int) =~= logs@);
    }
    let more = !page.next_page_token.as_str().is_empty();
    (out, more)
}

/// Law: nothing suppressed is ever dispatched. Every emission of a plan
/// arises from some entry that survives suppression; in particular no
/// emitted message contains the noise marker, and no emission arises
/// from an `Unspecified`-category entry.
pub proof fn lemma_dispatch_has_unsuppressed_source(
    entries: Seq<LuauExecutionTaskLogEntry>,
    k: int,
)
    requires
        0 <= k < plan_of(entries).len(),
    ensures
        exists|j: int|
            0 <= j < entries.len() && !entry_suppressed(#[trigger] entries[j]) && plan_of(
                entries,
            )[k] == dispatch_of(entries[j]),
        !contains_noise(plan_of(entries)[k].message@),
    decreases entries.len(),
{
    if entries.len() == 0 {
        // the precondition rules this case out
    } else {
        let prefix = entries.drop_last();
        let e = entries.last();
        if entry_suppressed(e) {
            lemma_dispatch_has_unsuppressed_source(prefix, k);
            let j = choose|j: int|
                0 <= j < prefix.len() && !entry_suppressed(#[trigger] prefix[j]) && plan_of(
                    prefix,
                )[k] == dispatch_of(prefix[j]);
            assert(entries[j] == prefix[j]);
        } else {
            if k == plan_of(entries).len() - 1 {
                assert(entries[entries.len() - 1] == e);
            } else {
                lemma_dispatch_has_unsuppressed_source(prefix, k);
                let j = choose|j: int|
                    0 <= j < prefix.len() && !entry_suppressed(#[trigger] prefix[j]) && plan_of(
                        prefix,
                    )[k] == dispatch_of(prefix[j]);
                assert(entries[j] == prefix[j]);
            }
        }
    }
}

/// Law: suppression drops nothing else. Every entry that survives the
/// suppression rule has its emission in the plan.
pub proof fn lemma_surviving_entry_is_dispatched(entries: Seq<LuauExecutionTaskLogEntry>, j: int)
    requires
        0 <= j < entries.len(),
        !entry_suppressed(entries[j]),
    ensures
        exists|k: int|
            0 <= k < plan_of(entries).len() && #[trigger] plan_of(entries)[k] == dispatch_of(
                entries[j],
            ),
    decreases entries.len(),
{
    if j == entries.len() - 1 {
        assert(plan_of(entries)[plan_of(entries).len() - 1] == dispatch_of(entries[j]));
    } else {
        let prefix = entries.drop_last();
        assert(prefix[j] == entries[j]);
        lemma_surviving_entry_is_dispatched(prefix, j);
        let k = choose|k: int|
            0 <= k < plan_of(prefix).len() && #[trigger] plan_of(prefix)[k] == dispatch_of(
                prefix[j],
            );
        assert(plan_of(entries)[k] == dispatch_of(entries[j]));
    }
}

} // verus!
