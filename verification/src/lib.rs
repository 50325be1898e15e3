//! Tool-orchestration core: an allow-listed capability catalog, a planning
//! adapter that interprets an external decision service's replies, a sandboxed
//! execution model with a per-invocation compute budget, and the orchestration
//! state machine that classifies every outcome of a request.

pub mod budget;
pub mod engine;
pub mod guest;
pub mod oracle;
pub mod orchestrator;
pub mod registry;
