//! The data model of the remote execution service: requests and
//! responses exchanged with it, the task lifecycle states, and the
//! structured log records. These are plain values; the transport that
//! carries them over the wire lives outside the crate.

use vstd::prelude::*;

verus! {

/// Body of the request that declares an upload slot for a binary payload.
#[derive(Debug, Clone, Copy, PartialEq, Eq, Structural)]
pub struct LuauExecutionBinaryInputRequest {
    /// Byte length of the payload that will be uploaded.
    pub size: usize,
}

/// The slot the service answers with: where the payload lives and the
/// one-time location it must be written to.
#[derive(Debug, Clone, PartialEq, Eq)]
pub struct LuauExecutionBinaryInputResponse {
    /// Opaque path identifying the staged input.
    pub path: String,
    /// The byte length the slot was declared with.
    pub size: usize,
    /// One-time upload location for the payload bytes.
    pub upload_url: String,
}

/// Body of the request that submits an execution task.
#[derive(Debug, Clone, PartialEq, Eq)]
pub struct LuauExecutionTaskRequest {
    /// The script the service is asked to run.
    pub script: String,
    /// Execution timeout, as the service's duration literal (for example `10s`).
    pub timeout: String,
    /// Path of the staged binary input the script runs against.
    pub binary_input: String,
    /// Whether the task should capture a binary output artifact.
    pub enable_binary_output: bool,
}

/// Error kinds a failed task can report. The enumeration is open on the
/// wire: any unrecognized value decodes to `Unspecified`.
#[derive(Debug, Clone, Copy, PartialEq, Eq, Structural)]
pub enum LuauExecutionError {
    ScriptError,
    DeadlineExceeded,
    OutputSizeLimitExceeded,
    InternalError,
    Unspecified,
}

/// Failure detail attached to a task in the `Failed` state.
#[derive(Debug, Clone, PartialEq, Eq)]
pub struct LuauExecutionTaskError {
    pub code: LuauExecutionError,
    pub message: String,
}

/// One result record of a completed task.
#[derive(Debug, Clone, Copy, PartialEq, Eq, Structural)]
pub struct LuauExecutionTaskResult {
    pub suites: u32,
    pub total: u32,
    pub passed: u32,
    pub failed: u32,
    /// The service's own judgement of the run; it alone decides the process exit code.
    pub success: bool,
    /// Elapsed run time in milliseconds.
    pub time_millis: u64,
}

/// Output payload of a completed task: exactly one result record.
#[derive(Debug, Clone, Copy, PartialEq, Eq)]
pub struct LuauExecutionTaskOutput {
    pub results: [LuauExecutionTaskResult; 1],
}

/// Severity category of a structured log entry. Open on the wire:
/// unrecognized values decode to `Unspecified`.
#[derive(Debug, Clone, Copy, PartialEq, Eq, Structural)]
pub enum LogMessageType {
    Error,
    Warning,
    Info,
    Output,
    Unspecified,
}

/// One structured log line of a task.
#[derive(Debug, Clone, PartialEq, Eq)]
pub struct LuauExecutionTaskLogEntry {
    /// The logged text.
    pub message: String,
    /// When the line was produced, as reported by the service.
    pub create_time: String,
    /// Severity category of the line.
    pub message_type: LogMessageType,
}

/// One log resource of a task: an ordered run of structured entries.
#[derive(Debug, Clone, PartialEq, Eq)]
pub struct LuauExecutionTaskLog {
    /// Opaque path identifying the log resource.
    pub path: String,
    /// The entries, ordered by creation time.
    pub structured_messages: Vec<LuauExecutionTaskLogEntry>,
}

/// One page of the paginated log listing.
#[derive(Debug, Clone, PartialEq, Eq)]
pub struct LuauExecutionTaskLogsResponse {
    /// The log resources on this page.
    pub luau_execution_session_task_logs: Vec<LuauExecutionTaskLog>,
    /// Continuation token; empty means this is the final page.
    pub next_page_token: String,
}

/// Lifecycle state of an execution task. Open on the wire: unrecognized
/// values decode to `Unspecified`, which the poller treats as
/// non-terminal so that new server states cannot wedge a run.
#[derive(Debug, Clone, Copy, PartialEq, Eq, Structural)]
pub enum LuauExecutionTaskState {
    Queued,
    Processing,
    Cancelled,
    Complete,
    Failed,
    Unspecified,
}

/// The task record the service reports when a task is spawned or polled.
#[derive(Debug, Clone, PartialEq, Eq)]
pub struct LuauExecutionTaskResponse {
    /// Opaque path identifying the task; the poll target.
    pub path: String,
    pub create_time: Option<String>,
    pub update_time: Option<String>,
    pub user: String,
    pub state: LuauExecutionTaskState,
    pub script: String,
    pub timeout: Option<String>,
    /// Present only when the task failed.
    pub error: Option<LuauExecutionTaskError>,
    /// Present only when the task completed with a result payload.
    pub output: Option<LuauExecutionTaskOutput>,
    pub binary_input: String,
    pub enable_binary_output: bool,
    pub binary_output_uri: Option<String>,
}

} // verus!
