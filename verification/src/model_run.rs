//! The real inference path, as far as it is plain data: validating and
//! normalizing the model identifier before any engine work, and turning the
//! outcome of the engine round trip into the status and out-parameter codes
//! the host observes.
//!
//! The engine session itself, the image it is shown and the asynchronous
//! execution context that awaits it are external collaborators; the caller
//! runs them and reports back which [`RunOutcome`] they produced.

use vstd::prelude::*;

use vstd::string::StrSliceExecFns;
use vstd::string::StringExecFns;

verus! {

/// Status reported to the host when a run completed.
pub const STATUS_OK: i32 = 0;

/// Status reported to the host when a run failed at any step.
pub const STATUS_FAILED: i32 = -1;

/// A model identifier normalized: unchanged when it already ends with the
/// path separator, otherwise with one appended.
pub open spec fn normalized_id(id: Seq<char>) -> Seq<char> {
    if id.len() > 0 && id.last() == '/' {
        id
    } else {
        id.push('/')
    }
}

/// Normalization is idempotent: a normalized identifier normalizes to
/// itself.
pub proof fn lemma_normalized_id_idempotent(id: Seq<char>)
    ensures
        normalized_id(normalized_id(id)) == normalized_id(id),
{
    if !(id.len() > 0 && id.last() == '/') {
        assert(id.push('/').last() == '/');
    }
}

/// Appends the trailing path separator when `id` lacks one.
pub fn normalize_model_id(id: &str) -> (r: String)
    ensures
        r@ == normalized_id(id@),
{
    let len = id.unicode_len();
    if len > 0 && id.get_char(len - 1) == '/' {
        id.to_owned()
    } else {
        let mut out = id.to_owned();
        out.append("/");
        proof {
            reveal_strlit("/");
            assert(out@ =~= id@.push('/'));
        }
        out
    }
}

/// What the real path decides before any engine work is attempted.
pub enum ModelRunPlan {
    /// The identifier was missing: report failure and do no further work.
    Rejected,
    /// Run the engine against this normalized model directory.
    Run { model_dir: String },
}

/// The one plan the real path may form for a given identifier: a missing
/// identifier is rejected outright, a present one is normalized and handed
/// on to the engine.
pub open spec fn plan_for(model_id: Option<&str>, plan: ModelRunPlan) -> bool {
    match (model_id, plan) {
        (None, ModelRunPlan::Rejected) => true,
        (Some(id), ModelRunPlan::Run { model_dir }) => model_dir@ == normalized_id(id@),
        _ => false,
    }
}

/// First step of the real path: validate and normalize the identifier.
/// Only a missing identifier is rejected; nothing else is examined before
/// the engine runs.
pub fn plan_model_run(model_id: Option<&str>) -> (plan: ModelRunPlan)
    ensures
        plan_for(model_id, plan),
{
    match model_id {
        None => ModelRunPlan::Rejected,
        Some(id) => ModelRunPlan::Run { model_dir: normalize_model_id(id) },
    }
}

/// How one invocation of the real path ended, as the entry point sees it.
#[derive(Clone, Copy, Debug, PartialEq, Eq, Structural)]
pub enum RunOutcome {
    /// The identifier was missing; no engine work was attempted.
    RejectedIdentifier,
    /// The execution context for awaiting the engine could not be created.
    ContextCreationFailed,
    /// The engine session failed while being built or while answering the
    /// request.
    EngineFailed,
    /// The engine answered the request.
    Completed,
}

/// The status code an outcome produces: 0 on completion, -1 on any failure.
pub open spec fn status_of(outcome: RunOutcome) -> i32 {
    match outcome {
        RunOutcome::Completed => STATUS_OK,
        _ => STATUS_FAILED,
    }
}

/// The codes one invocation of the real path reports to the host: the
/// return status and the refined error code written through the out
/// parameter. In the current design the two always agree: 0 and 0 when the
/// engine answered, -1 and -1 on every failure.
pub fn completion_codes(outcome: RunOutcome) -> (r: (i32, i32))
    ensures
        r.0 == status_of(outcome),
        r.1 == status_of(outcome),
{
    match outcome {
        RunOutcome::Completed => (STATUS_OK, STATUS_OK),
        RunOutcome::RejectedIdentifier => (STATUS_FAILED, STATUS_FAILED),
        RunOutcome::ContextCreationFailed => (STATUS_FAILED, STATUS_FAILED),
        RunOutcome::EngineFailed => (STATUS_FAILED, STATUS_FAILED),
    }
}

} // verus!
