//! The per-request orchestration state machine: interpret what the planner
//! decided, resolve the proposed capability against the catalog, extract its
//! single textual input, hand a resolved invocation to the sandbox, and map
//! every outcome — including a hallucinated name, bad arguments, and every
//! sandbox failure — to exactly one response.

use vstd::prelude::*;
use vstd::string::StringExecFns;
use crate::budget::DEFAULT_BUDGET;
use crate::engine::{prepare_invocation, ExecutionFailureKind, ExecutionOutcome, InvocationPlan};
use crate::oracle::{InvocationProposal, OracleError, ToolDef};
use crate::registry::{has_name, Registry};

verus! {

/// An inbound request: who asks, the task text, and the per-request
/// allow-list of capability descriptions.
pub struct RunRequest {
    pub tenant_id: String,
    pub task: String,
    pub tools: Vec<ToolDef>,
}

/// The one response every request ends in: a tag that distinguishes the
/// outcome class (success, no action, hallucination, bad arguments, oracle
/// failure, execution failure) and a human-readable status.
pub struct RunResponse {
    pub job_id: String,
    pub status: String,
}

/// What the orchestrator decided after planning and resolution: either the
/// request is already answered, or exactly this invocation runs next.
pub enum PlanDecision {
    Respond(RunResponse),
    Execute(InvocationPlan),
}

/// What the "input" field of an argument payload holds: the text of the
/// payload's `input` field when the payload is a JSON value with a string
/// under that key, and nothing otherwise. A pure function of the payload
/// text; its value is fixed by the JSON grammar, not restated here.
pub uninterp spec fn input_field_of(s: Seq<char>) -> Option<Seq<char>>;

/// Relies on serde_json: `from_str::<Value>` parses the payload text,
/// `Value::get("input")` reads the field of an object (`None` on a non-object
/// or missing key), and `Value::as_str` gives the field's text exactly when
/// it is a string. The composite is a pure function of the payload text,
/// named `input_field_of`.
#[verifier::external_body]
fn parse_input_field(arguments: &str) -> (r: Option<String>)
    ensures
        r matches Some(s) ==> input_field_of(arguments@) == Some(s@),
        r is None ==> input_field_of(arguments@) is None,
{
    let value: serde_json::Value = match serde_json::from_str(arguments) {
        Ok(v) => v,
        Err(_) => return None,
    };
    match value.get("input") {
        Some(field) => match field.as_str() {
            Some(s) => Some(s.to_owned()),
            None => None,
        },
        None => None,
    }
}

/// Extract the invocation input from a proposed argument payload: the
/// payload's `input` text field, or nothing when the payload has no such
/// field — the single-field shape of the capability treaty.
pub fn extract_invocation_input(arguments: &String) -> (r: Option<String>)
    ensures
        r matches Some(s) ==> input_field_of(arguments@) == Some(s@),
        r is None ==> input_field_of(arguments@) is None,
{
    parse_input_field(arguments.as_str())
}

/// The status text reported for a hallucinated capability name.
fn hallucination_status(name: &String) -> (r: String)
    ensures
        r@ == "Error: Tool '"@ + name@ + "' not found"@,
{
    let mut s = "Error: Tool '".to_owned();
    s.append(name.as_str());
    s.append("' not found");
    s
}

/// The status text reported for an argument payload the capability's treaty
/// cannot accept.
fn bad_arguments_status(name: &String) -> (r: String)
    ensures
        r@ == "Error: Invalid arguments for tool '"@ + name@ + "'"@,
{
    let mut s = "Error: Invalid arguments for tool '".to_owned();
    s.append(name.as_str());
    s.append("'");
    s
}

/// Take the planner's verdict for one request through resolution and
/// argument extraction, to the point where the request is either answered or
/// has exactly one invocation left to run:
/// - a planner failure answers with the oracle-failure class, and nothing is
///   looked up or executed;
/// - "no capability needed" answers with the no-action class, and the engine
///   is never invoked;
/// - a name absent from the catalog is a hallucination: answered as such,
///   never executed, the unresolved name in the status;
/// - a payload without a text `input` field is an argument error, answered
///   without executing;
/// - otherwise the decision is to execute the registered artifact of the
///   proposed name, with the extracted input and a fresh default budget.
pub fn handle_plan(catalog: &Registry, plan: Result<InvocationProposal, OracleError>) -> (r:
    PlanDecision)
    requires
        catalog.wf(),
    ensures
        plan is Err ==> (r matches PlanDecision::Respond(resp) && resp.job_id@ == "err-brain"@
            && resp.status@ == "Internal AI Error"@),
        plan matches Ok(InvocationProposal::NoCapability) ==> (r matches PlanDecision::Respond(resp)
            && resp.job_id@ == "chat-only"@ && resp.status@
            == "I understood your request, but I don't need to run any tools to answer it."@),
        plan matches Ok(InvocationProposal::Invoke { name, arguments }) ==> {
            &&& !has_name(catalog.spec_records(), name@) ==> (r matches PlanDecision::Respond(resp)
                && resp.job_id@ == "err-hallucination"@ && resp.status@ == "Error: Tool '"@ + name@
                + "' not found"@)
            &&& has_name(catalog.spec_records(), name@) && input_field_of(arguments@) is None
                ==> (r matches PlanDecision::Respond(resp) && resp.job_id@ == "err-arguments"@
                && resp.status@ == "Error: Invalid arguments for tool '"@ + name@ + "'"@)
            &&& has_name(catalog.spec_records(), name@) ==> (input_field_of(arguments@) matches Some(
                inp,
            ) ==> (r matches PlanDecision::Execute(p) && p.input@ == inp
                && p.budget.spec_remaining() == DEFAULT_BUDGET as nat && exists|i: int|
                0 <= i < catalog.spec_records().len() && (#[trigger] catalog.spec_records()[i]).name@
                    == name@ && p.binary_path@ == catalog.spec_records()[i].binary_path@
                && p.handler@ == catalog.spec_records()[i].handler@))
        },
        r is Execute ==> (plan matches Ok(InvocationProposal::Invoke { name, arguments })
            && has_name(catalog.spec_records(), name@) && input_field_of(arguments@) is Some),
{
    match plan {
        Err(_) => PlanDecision::Respond(
            RunResponse { job_id: "err-brain".to_owned(), status: "Internal AI Error".to_owned() },
        ),
        Ok(InvocationProposal::NoCapability) => PlanDecision::Respond(
            RunResponse {
                job_id: "chat-only".to_owned(),
                status:
                    "I understood your request, but I don't need to run any tools to answer it.".to_owned(),
            },
        ),
        Ok(InvocationProposal::Invoke { name, arguments }) => match catalog.lookup(&name) {
            None => PlanDecision::Respond(
                RunResponse {
                    job_id: "err-hallucination".to_owned(),
                    status: hallucination_status(&name),
                },
            ),
            Some(record) => match extract_invocation_input(&arguments) {
                None => PlanDecision::Respond(
                    RunResponse {
                        job_id: "err-arguments".to_owned(),
                        status: bad_arguments_status(&name),
                    },
                ),
                Some(input) => {
                    proof {
                        let i = choose|i: int|
                            0 <= i < catalog.spec_records().len() && catalog.spec_records()[i]
                                == *record;
                        assert(catalog.spec_records()[i].name@ == name@);
                    }
                    PlanDecision::Execute(prepare_invocation(record, input))
                },
            },
        },
    }
}

/// The label each failure class carries in a failure response.
pub open spec fn spec_failure_label(kind: ExecutionFailureKind) -> Seq<char> {
    match kind {
        ExecutionFailureKind::ArtifactNotFound => "tool artifact not found"@,
        ExecutionFailureKind::InstantiationFailed => "tool could not be instantiated"@,
        ExecutionFailureKind::BudgetExhausted => "compute budget exhausted"@,
        ExecutionFailureKind::Trap => "tool trapped"@,
        ExecutionFailureKind::InvalidOutput => "tool returned invalid output"@,
    }
}

/// The label each failure class carries in a failure response.
fn failure_label(kind: &ExecutionFailureKind) -> (r: &'static str)
    ensures
        r@ == spec_failure_label(*kind),
{
    match kind {
        ExecutionFailureKind::ArtifactNotFound => "tool artifact not found",
        ExecutionFailureKind::InstantiationFailed => "tool could not be instantiated",
        ExecutionFailureKind::BudgetExhausted => "compute budget exhausted",
        ExecutionFailureKind::Trap => "tool trapped",
        ExecutionFailureKind::InvalidOutput => "tool returned invalid output",
    }
}

/// Map the one outcome of an executed invocation to the request's response:
/// success answers with the guest's output verbatim under the success class;
/// every failure is surfaced verbatim under the execution-failure class, with
/// its class label and the sandbox's detail, never silently retried.
pub fn respond_to_outcome(outcome: ExecutionOutcome) -> (r: RunResponse)
    ensures
        outcome matches ExecutionOutcome::Success(out) ==> (r.job_id@ == "ai-exec-success"@
            && r.status@ == out@),
        outcome matches ExecutionOutcome::Failure { kind, detail } ==> (r.job_id@
            == "ai-exec-failed"@ && r.status@ == "Runtime Error: "@ + spec_failure_label(kind)
            + ": "@ + detail@),
{
    match outcome {
        ExecutionOutcome::Success(out) => RunResponse {
            job_id: "ai-exec-success".to_owned(),
            status: out,
        },
        ExecutionOutcome::Failure { kind, detail } => {
            let mut s = "Runtime Error: ".to_owned();
            s.append(failure_label(&kind));
            s.append(": ");
            s.append(detail.as_str());
            RunResponse { job_id: "ai-exec-failed".to_owned(), status: s }
        },
    }
}

} // verus!
