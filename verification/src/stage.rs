//! The binary stager's and task spawner's decisions: build the request
//! that declares an upload slot, check the slot the service answers
//! with, and build the execution request that references it.
//!
//! The two HTTP calls themselves — the slot declaration and the PUT of
//! the payload bytes — happen outside the crate; neither is retried,
//! since a fresh slot must be declared after any failure and a retried
//! spawn could create a duplicate remote job.

use vstd::prelude::*;

use crate::protocol::{
    LuauExecutionBinaryInputRequest, LuauExecutionBinaryInputResponse, LuauExecutionTaskRequest,
};

verus! {

/// Build the slot declaration for a payload: it declares exactly the
/// payload's byte length.
pub fn make_binary_input_request(payload: &Vec<u8>) -> (r: LuauExecutionBinaryInputRequest)
    ensures
        r.size == payload@.len(),
{
    LuauExecutionBinaryInputRequest { size: payload.len() }
}

/// Whether a slot answers a declaration faithfully: the service echoes
/// the declared size back on the slot it hands out.
pub open spec fn slot_conforms(
    req: LuauExecutionBinaryInputRequest,
    slot: LuauExecutionBinaryInputResponse,
) -> bool {
    slot.size == req.size
}

/// Check that a slot's declared size matches the payload it was
/// requested for.
pub fn slot_size_matches(payload: &Vec<u8>, slot: &LuauExecutionBinaryInputResponse) -> (r: bool)
    ensures
        r == (slot.size == payload@.len()),
{
    slot.size == payload.len()
}

/// Law: the declared size round-trips. For every payload of length `N`,
/// staging declares `N`, and any slot that conforms to that declaration
/// carries declared size `N`.
pub proof fn lemma_stage_size_round_trip(
    payload: Seq<u8>,
    req: LuauExecutionBinaryInputRequest,
    slot: LuauExecutionBinaryInputResponse,
)
    requires
        req.size == payload.len(),
        slot_conforms(req, slot),
    ensures
        slot.size == payload.len(),
{
}

/// Build the execution request submitted to spawn a task. Every field
/// is carried through unchanged; the request references the staged
/// slot's path.
pub fn make_task_request(
    script: String,
    timeout: String,
    binary_input: String,
    enable_binary_output: bool,
) -> (r: LuauExecutionTaskRequest)
    ensures
        r.script@ == script@,
        r.timeout@ == timeout@,
        r.binary_input@ == binary_input@,
        r.enable_binary_output == enable_binary_output,
{
    LuauExecutionTaskRequest { script, timeout, binary_input, enable_binary_output }
}

} // verus!
