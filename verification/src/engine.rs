//! The sandboxed execution model: what one isolated invocation is given (an
//! artifact location, an entry point, one textual input, a fresh budget) and
//! the phase machine every invocation runs through — load the artifact,
//! install the budget and bind the host surface, invoke the entry point —
//! with each way a phase can end classified into the one outcome every
//! invocation must produce.

use vstd::prelude::*;
use crate::budget::{ExecutionBudget, DEFAULT_BUDGET};
use crate::registry::ToolRecord;

verus! {

/// The failure classes of one sandboxed invocation.
#[derive(PartialEq, Eq, Structural)]
pub enum ExecutionFailureKind {
    /// The artifact at the code location was unreadable or malformed.
    ArtifactNotFound,
    /// The artifact loaded but could not be bound to the host surface: ABI
    /// mismatch or missing entry point.
    InstantiationFailed,
    /// The compute quota ran out and the sandbox was cut off.
    BudgetExhausted,
    /// The guest trapped at run time: illegal access, abort, or a boundary
    /// contract violation.
    Trap,
    /// The guest returned, but not a single valid textual value.
    InvalidOutput,
}

/// The tagged result of one invocation: the guest's textual output, or a
/// structured failure.
pub enum ExecutionOutcome {
    Success(String),
    Failure { kind: ExecutionFailureKind, detail: String },
}

/// What the sandbox substrate reports after each step of one invocation,
/// failures with the substrate's own detail text.
pub enum EngineEvent {
    /// The artifact was read and decoded.
    Loaded,
    /// The artifact could not be read or decoded.
    LoadFailed(String),
    /// The budget was installed and the artifact bound to the host surface.
    Instantiated,
    /// Binding to the host surface failed: ABI mismatch or missing entry.
    InstantiateFailed(String),
    /// The compute quota reached zero and the guest was interrupted.
    FuelExhausted(String),
    /// The guest trapped.
    Trapped(String),
    /// The guest returned something that is not one valid textual value.
    BadResult(String),
    /// The guest returned this output.
    Returned(String),
}

/// Where one invocation stands: the phases run in the order the engine's
/// algorithm fixes — load, instantiate under the installed budget, invoke —
/// and every invocation ends in exactly one outcome.
pub enum EnginePhase {
    /// Acquiring the fresh isolated context and loading the artifact.
    Loading,
    /// Installing the budget and binding the artifact to the host surface.
    Instantiating,
    /// The entry point is running on the invocation's input.
    Invoking,
    /// The invocation ended with this outcome.
    Finished(ExecutionOutcome),
}

/// Everything one isolated invocation owns: where its artifact lives, which
/// exported function to call, its single textual input, and its own fresh
/// compute budget. Nothing here is shared with any other invocation.
pub struct InvocationPlan {
    pub binary_path: String,
    pub handler: String,
    pub input: String,
    pub budget: ExecutionBudget,
}

/// Set up one invocation of a resolved capability: the artifact and entry
/// point come from the capability's record, the input is the extracted
/// argument, and the budget is a fresh default quota, never a reused one.
pub fn prepare_invocation(record: &ToolRecord, input: String) -> (p: InvocationPlan)
    ensures
        p.binary_path@ == record.binary_path@,
        p.handler@ == record.handler@,
        p.input == input,
        p.budget.spec_remaining() == DEFAULT_BUDGET as nat,
{
    InvocationPlan {
        binary_path: record.binary_path.clone(),
        handler: record.handler.clone(),
        input,
        budget: ExecutionBudget::new(DEFAULT_BUDGET),
    }
}

/// One step of the engine's phase machine: a successful load leads to
/// instantiation and a successful instantiation to the invocation itself;
/// every failure ends the invocation with its own class — an unreadable
/// artifact as a missing artifact, a failed binding as failed instantiation,
/// an interrupt of the exhausted quota as a spent budget, a trap as a trap, a
/// bad return value as invalid output — and the guest's return value ends it
/// as success carrying that value. An event that does not belong to the
/// phase changes nothing.
pub open spec fn spec_engine_step(phase: EnginePhase, ev: EngineEvent) -> EnginePhase {
    match (phase, ev) {
        (EnginePhase::Loading, EngineEvent::Loaded) => EnginePhase::Instantiating,
        (EnginePhase::Loading, EngineEvent::LoadFailed(d)) => EnginePhase::Finished(
            ExecutionOutcome::Failure { kind: ExecutionFailureKind::ArtifactNotFound, detail: d },
        ),
        (EnginePhase::Instantiating, EngineEvent::Instantiated) => EnginePhase::Invoking,
        (EnginePhase::Instantiating, EngineEvent::InstantiateFailed(d)) => EnginePhase::Finished(
            ExecutionOutcome::Failure {
                kind: ExecutionFailureKind::InstantiationFailed,
                detail: d,
            },
        ),
        (EnginePhase::Instantiating, EngineEvent::FuelExhausted(d)) => EnginePhase::Finished(
            ExecutionOutcome::Failure { kind: ExecutionFailureKind::BudgetExhausted, detail: d },
        ),
        (EnginePhase::Instantiating, EngineEvent::Trapped(d)) => EnginePhase::Finished(
            ExecutionOutcome::Failure { kind: ExecutionFailureKind::Trap, detail: d },
        ),
        (EnginePhase::Invoking, EngineEvent::Returned(out)) => EnginePhase::Finished(
            ExecutionOutcome::Success(out),
        ),
        (EnginePhase::Invoking, EngineEvent::FuelExhausted(d)) => EnginePhase::Finished(
            ExecutionOutcome::Failure { kind: ExecutionFailureKind::BudgetExhausted, detail: d },
        ),
        (EnginePhase::Invoking, EngineEvent::Trapped(d)) => EnginePhase::Finished(
            ExecutionOutcome::Failure { kind: ExecutionFailureKind::Trap, detail: d },
        ),
        (EnginePhase::Invoking, EngineEvent::BadResult(d)) => EnginePhase::Finished(
            ExecutionOutcome::Failure { kind: ExecutionFailureKind::InvalidOutput, detail: d },
        ),
        (p, _) => p,
    }
}

/// Advance one invocation by one reported event.
pub fn engine_step(phase: EnginePhase, ev: EngineEvent) -> (r: EnginePhase)
    ensures
        r == spec_engine_step(phase, ev),
{
    match (phase, ev) {
        (EnginePhase::Loading, EngineEvent::Loaded) => EnginePhase::Instantiating,
        (EnginePhase::Loading, EngineEvent::LoadFailed(d)) => EnginePhase::Finished(
            ExecutionOutcome::Failure { kind: ExecutionFailureKind::ArtifactNotFound, detail: d },
        ),
        (EnginePhase::Instantiating, EngineEvent::Instantiated) => EnginePhase::Invoking,
        (EnginePhase::Instantiating, EngineEvent::InstantiateFailed(d)) => EnginePhase::Finished(
            ExecutionOutcome::Failure {
                kind: ExecutionFailureKind::InstantiationFailed,
                detail: d,
            },
        ),
        (EnginePhase::Instantiating, EngineEvent::FuelExhausted(d)) => EnginePhase::Finished(
            ExecutionOutcome::Failure { kind: ExecutionFailureKind::BudgetExhausted, detail: d },
        ),
        (EnginePhase::Instantiating, EngineEvent::Trapped(d)) => EnginePhase::Finished(
            ExecutionOutcome::Failure { kind: ExecutionFailureKind::Trap, detail: d },
        ),
        (EnginePhase::Invoking, EngineEvent::Returned(out)) => EnginePhase::Finished(
            ExecutionOutcome::Success(out),
        ),
        (EnginePhase::Invoking, EngineEvent::FuelExhausted(d)) => EnginePhase::Finished(
            ExecutionOutcome::Failure { kind: ExecutionFailureKind::BudgetExhausted, detail: d },
        ),
        (EnginePhase::Invoking, EngineEvent::Trapped(d)) => EnginePhase::Finished(
            ExecutionOutcome::Failure { kind: ExecutionFailureKind::Trap, detail: d },
        ),
        (EnginePhase::Invoking, EngineEvent::BadResult(d)) => EnginePhase::Finished(
            ExecutionOutcome::Failure { kind: ExecutionFailureKind::InvalidOutput, detail: d },
        ),
        (p, _) => p,
    }
}

/// Where a whole invocation stands after a sequence of reported events,
/// starting from a fresh loading phase.
pub open spec fn spec_run(events: Seq<EngineEvent>) -> EnginePhase
    decreases events.len(),
{
    if events.len() == 0 {
        EnginePhase::Loading
    } else {
        spec_engine_step(spec_run(events.drop_last()), events.last())
    }
}

/// The entry point runs only inside a fully prepared sandbox: the invoking
/// phase is entered only from a successful instantiation, and instantiation
/// only from a successfully loaded artifact.
pub proof fn lemma_invocation_is_gated(phase: EnginePhase, ev: EngineEvent)
    ensures
        spec_engine_step(phase, ev) == EnginePhase::Invoking ==> phase == EnginePhase::Invoking
            || (phase == EnginePhase::Instantiating && ev == EngineEvent::Instantiated),
        spec_engine_step(phase, ev) == EnginePhase::Instantiating ==> phase
            == EnginePhase::Instantiating || (phase == EnginePhase::Loading && ev
            == EngineEvent::Loaded),
{
}

/// Every invocation has exactly one terminal outcome: once finished, no
/// further event changes what the invocation produced.
pub proof fn lemma_outcome_is_settled(outcome: ExecutionOutcome, ev: EngineEvent)
    ensures
        spec_engine_step(EnginePhase::Finished(outcome), ev) == EnginePhase::Finished(outcome),
{
}

/// Hermeticity of the engine's run: where an invocation stands depends only
/// on what its own sandbox reported — two invocations whose sandboxes report
/// the same events end the same, whatever else ran before, after, or
/// concurrently.
pub proof fn lemma_hermetic_runs(events1: Seq<EngineEvent>, events2: Seq<EngineEvent>)
    requires
        events1 == events2,
    ensures
        spec_run(events1) == spec_run(events2),
{
}

} // verus!
