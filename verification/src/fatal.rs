//! The pipeline's fatal conditions as typed values. Every stage that
//! talks to the service can fail at the transport level, with a
//! non-success HTTP status, or while decoding the response body; all
//! three are fatal and none is retried. The surrounding process maps
//! each condition it meets into a [`StageFailure`], prints the rendered
//! diagnostic, and aborts.

use vstd::prelude::*;

use crate::text::{dec_digits, u64_to_decimal};

verus! {

/// The pipeline stage a fatal condition arose in.
#[derive(Debug, Clone, Copy, PartialEq, Eq, Structural)]
pub enum PipelineStage {
    /// Declaring the upload slot.
    CreateBinaryInput,
    /// Writing the payload to the slot's upload location.
    UploadBinaryInput,
    /// Submitting the execution request.
    SpawnTask,
    /// Fetching the task record while polling.
    PollTask,
    /// Fetching a page of structured logs.
    FetchLogs,
}

/// How a request failed.
#[derive(Debug, Clone, PartialEq, Eq)]
pub enum FailureDetail {
    /// The transport failed before any HTTP status was available; the
    /// underlying cause is carried verbatim.
    Transport { cause: String },
    /// The service answered with a non-success HTTP status.
    HttpStatus { status: u16 },
    /// The response body did not decode to the expected shape.
    Decode,
}

/// One fatal condition: where it arose and how the request failed.
#[derive(Debug, Clone, PartialEq, Eq)]
pub struct StageFailure {
    pub stage: PipelineStage,
    pub detail: FailureDetail,
}

/// The name a stage carries in diagnostics.
pub open spec fn stage_text(s: PipelineStage) -> Seq<char> {
    match s {
        PipelineStage::CreateBinaryInput => "Create binary input request"@,
        PipelineStage::UploadBinaryInput => "Binary input upload request"@,
        PipelineStage::SpawnTask => "Luau execution session request"@,
        PipelineStage::PollTask => "Luau execution session state request"@,
        PipelineStage::FetchLogs => "Luau execution session logs request"@,
    }
}

/// The diagnostic a fatal condition renders to: the stage's name, then
/// the HTTP status when one is available, the transport cause when not,
/// or the decode complaint.
pub open spec fn failure_text(f: StageFailure) -> Seq<char> {
    match f.detail {
        FailureDetail::Transport { cause } => stage_text(f.stage) + " failed: "@ + cause@,
        FailureDetail::HttpStatus { status } => stage_text(f.stage) + " failed with HTTP "@
            + dec_digits(status as nat),
        FailureDetail::Decode => stage_text(f.stage) + " failed: could not parse response"@,
    }
}

fn stage_name(s: &PipelineStage) -> (r: &'static str)
    ensures
        r@ == stage_text(*s),
{
    match s {
        PipelineStage::CreateBinaryInput => "Create binary input request",
        PipelineStage::UploadBinaryInput => "Binary input upload request",
        PipelineStage::SpawnTask => "Luau execution session request",
        PipelineStage::PollTask => "Luau execution session state request",
        PipelineStage::FetchLogs => "Luau execution session logs request",
    }
}

/// Render the diagnostic for a fatal condition.
pub fn render_failure(f: &StageFailure) -> (s: String)
    ensures
        s@ == failure_text(*f),
{
    let mut s = stage_name(&f.stage).to_owned();
    match &f.detail {
        FailureDetail::Transport { cause } => {
            s.append(" failed: ");
            s.append(cause.as_str());
        },
        FailureDetail::HttpStatus { status } => {
            s.append(" failed with HTTP ");
            let status_text = u64_to_decimal(*status as u64);
            s.append(status_text.as_str());
        },
        FailureDetail::Decode => {
            s.append(" failed: could not parse response");
        },
    }
    s
}

} // verus!
