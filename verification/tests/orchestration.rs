use ironclaw::budget::DEFAULT_BUDGET;
use ironclaw::engine::{
    engine_step, EngineEvent, EnginePhase, ExecutionFailureKind, ExecutionOutcome,
};
use ironclaw::guest::MyTool;
use ironclaw::oracle::{interpret_reply, OracleEvent, ProposedCall};
use ironclaw::orchestrator::{handle_plan, respond_to_outcome, PlanDecision};
use ironclaw::registry::{Registry, ToolRecord};

fn echo_registry() -> Registry {
    let records = vec![ToolRecord {
        name: "echo".to_owned(),
        description: "echoes the input".to_owned(),
        binary_path: "tools/echo.wasm".to_owned(),
        handler: "run".to_owned(),
        parameters: "{\"type\":\"object\"}".to_owned(),
    }];
    Registry::load(records).unwrap()
}

fn proposal(name: &str, arguments: &str) -> OracleEvent {
    OracleEvent::Selected(vec![ProposedCall {
        name: name.to_owned(),
        arguments: arguments.to_owned(),
    }])
}

#[test]
fn no_selection_takes_no_action() {
    // The planner selects no capability: the response class is "no action"
    // and no invocation is prepared, so the engine is never invoked.
    let registry = echo_registry();
    let verdict = interpret_reply(OracleEvent::Selected(Vec::new()));
    match handle_plan(&registry, verdict) {
        PlanDecision::Respond(resp) => {
            assert_eq!(resp.job_id, "chat-only");
            assert_eq!(
                resp.status,
                "I understood your request, but I don't need to run any tools to answer it."
            );
        }
        PlanDecision::Execute(_) => panic!("no selection must never reach execution"),
    }
}

#[test]
fn a_hallucinated_name_is_classified_and_never_executed() {
    let registry = echo_registry();
    let verdict = interpret_reply(proposal("ghost_tool", "{}"));
    match handle_plan(&registry, verdict) {
        PlanDecision::Respond(resp) => {
            assert_eq!(resp.job_id, "err-hallucination");
            assert!(resp.status.contains("ghost_tool"));
            assert_eq!(resp.status, "Error: Tool 'ghost_tool' not found");
        }
        PlanDecision::Execute(_) => panic!("a hallucinated name must never reach execution"),
    }
}

#[test]
fn an_oracle_failure_answers_without_lookup_or_execution() {
    let registry = echo_registry();
    let verdict = interpret_reply(OracleEvent::Unreachable("service unreachable".to_owned()));
    match handle_plan(&registry, verdict) {
        PlanDecision::Respond(resp) => {
            assert_eq!(resp.job_id, "err-brain");
            assert_eq!(resp.status, "Internal AI Error");
        }
        PlanDecision::Execute(_) => panic!("an oracle failure must never reach execution"),
    }
}

#[test]
fn a_payload_without_input_is_an_argument_error() {
    let registry = echo_registry();
    let verdict = interpret_reply(proposal("echo", "{}"));
    match handle_plan(&registry, verdict) {
        PlanDecision::Respond(resp) => {
            assert_eq!(resp.job_id, "err-arguments");
            assert_eq!(resp.status, "Error: Invalid arguments for tool 'echo'");
        }
        PlanDecision::Execute(_) => panic!("an unusable payload must never reach execution"),
    }
}

#[test]
fn echo_end_to_end_succeeds() {
    // The planner proposes ("echo", {"input":"Hello"}); resolution finds the
    // registered artifact, extraction reads "Hello", the guest echoes it, and
    // the response carries the guest's output under the success class.
    let registry = echo_registry();
    let verdict = interpret_reply(proposal("echo", "{\"input\":\"Hello\"}"));
    let plan = match handle_plan(&registry, verdict) {
        PlanDecision::Execute(plan) => plan,
        PlanDecision::Respond(resp) => {
            panic!("a resolvable proposal must reach execution, got {}", resp.status)
        }
    };
    assert_eq!(plan.binary_path, "tools/echo.wasm");
    assert_eq!(plan.handler, "run");
    assert_eq!(plan.input, "Hello");
    assert_eq!(plan.budget.remaining(), DEFAULT_BUDGET);

    let output = MyTool::run(plan.input);
    let phase = engine_step(EnginePhase::Loading, EngineEvent::Loaded);
    let phase = engine_step(phase, EngineEvent::Instantiated);
    let outcome = match engine_step(phase, EngineEvent::Returned(output)) {
        EnginePhase::Finished(outcome) => outcome,
        _ => panic!("a returned value must finish the invocation"),
    };
    let response = respond_to_outcome(outcome);
    assert_eq!(response.job_id, "ai-exec-success");
    assert_eq!(response.status, "(Guest) IronClaw processed: 'Hello'");
}

#[test]
fn a_spent_budget_surfaces_as_an_execution_failure() {
    let outcome = match engine_step(
        EnginePhase::Invoking,
        EngineEvent::FuelExhausted("all fuel consumed".to_owned()),
    ) {
        EnginePhase::Finished(outcome) => outcome,
        _ => panic!("fuel exhaustion must finish the invocation"),
    };
    match &outcome {
        ExecutionOutcome::Failure { kind, .. } => {
            assert!(*kind == ExecutionFailureKind::BudgetExhausted)
        }
        _ => panic!("fuel exhaustion must classify as a spent budget"),
    }
    let response = respond_to_outcome(outcome);
    assert_eq!(response.job_id, "ai-exec-failed");
    assert_eq!(
        response.status,
        "Runtime Error: compute budget exhausted: all fuel consumed"
    );
}

#[test]
fn a_missing_artifact_surfaces_verbatim() {
    let outcome = match engine_step(
        EnginePhase::Loading,
        EngineEvent::LoadFailed("no such file".to_owned()),
    ) {
        EnginePhase::Finished(outcome) => outcome,
        _ => panic!("a failed load must finish the invocation"),
    };
    let response = respond_to_outcome(outcome);
    assert_eq!(response.job_id, "ai-exec-failed");
    assert_eq!(
        response.status,
        "Runtime Error: tool artifact not found: no such file"
    );
}

#[test]
fn a_trap_surfaces_verbatim() {
    let outcome = match engine_step(
        EnginePhase::Invoking,
        EngineEvent::Trapped("unreachable executed".to_owned()),
    ) {
        EnginePhase::Finished(outcome) => outcome,
        _ => panic!("a trap must finish the invocation"),
    };
    let response = respond_to_outcome(outcome);
    assert_eq!(response.job_id, "ai-exec-failed");
    assert_eq!(
        response.status,
        "Runtime Error: tool trapped: unreachable executed"
    );
}
