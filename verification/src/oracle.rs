//! The planning adapter: shapes the request sent to the external decision
//! service (the task text plus the allow-listed capability descriptions) and
//! interprets the service's reply as zero-or-one proposed invocation.

use vstd::prelude::*;
use crate::registry::Registry;

verus! {

/// A capability description as shown to the planner and as carried by an
/// inbound request's allow-list: no artifact location, no entry point.
pub struct ToolDef {
    pub name: String,
    pub description: String,
    pub parameters: String,
}

/// The request handed to the external decision service: the task text and,
/// for each allowed capability, exactly its name, description and argument
/// schema.
pub struct OracleRequest {
    pub task: String,
    pub tools: Vec<ToolDef>,
}

/// One invocation the decision service proposed: a capability name and the
/// raw argument payload (JSON text), unverified by the service.
pub struct ProposedCall {
    pub name: String,
    pub arguments: String,
}

/// What came back from one call to the decision service, as the transport
/// reports it: the service was unreachable, its reply could not be read as a
/// list of selections, or it replied with zero or more selections.
pub enum OracleEvent {
    Unreachable(String),
    Garbled(String),
    Selected(Vec<ProposedCall>),
}

/// The adapter's verdict per request: either no capability is needed, or a
/// single proposed invocation.
pub enum InvocationProposal {
    NoCapability,
    Invoke { name: String, arguments: String },
}

/// Why the adapter could not produce a proposal.
pub enum OracleError {
    /// The decision service could not be reached.
    TransportFailure(String),
    /// Its reply could not be interpreted as zero-or-one selection.
    MalformedResponse(String),
}

impl Registry {
    /// Shape the planning request for this catalog-derived allow-list: the
    /// task text, and one description per allowed capability, in catalog
    /// order, carrying exactly the capability's name, description and
    /// argument schema — never its artifact location or entry point.
    pub fn plan_request(&self, task: &String) -> (r: OracleRequest)
        ensures
            r.task@ == task@,
            r.tools@.len() == self.spec_records().len(),
            forall|i: int| 0 <= i < r.tools@.len() ==> {
                &&& (#[trigger] r.tools@[i]).name@ == self.spec_records()[i].name@
                &&& r.tools@[i].description@ == self.spec_records()[i].description@
                &&& r.tools@[i].parameters@ == self.spec_records()[i].parameters@
            },
    {
        let n = self.len();
        let mut tools: Vec<ToolDef> = Vec::new();
        let mut i: usize = 0;
        while i < n
            invariant
                n == self.spec_records().len(),
                i <= n,
                tools@.len() == i,
                forall|k: int| 0 <= k < i ==> {
                    &&& (#[trigger] tools@[k]).name@ == self.spec_records()[k].name@
                    &&& tools@[k].description@ == self.spec_records()[k].description@
                    &&& tools@[k].parameters@ == self.spec_records()[k].parameters@
                },
            decreases n - i,
        {
            let rec = self.record_at(i);
            tools.push(ToolDef {
                name: rec.name.clone(),
                description: rec.description.clone(),
                parameters: rec.parameters.clone(),
            });
            i = i + 1;
        }
        OracleRequest { task: task.clone(), tools }
    }
}

/// Interpret the decision service's reply. Transport failure and an
/// unreadable reply each surface as the matching adapter error; an empty
/// selection list means no capability is needed; and of several selections
/// only the first is honored — a deliberate, documented policy, not an error.
pub fn interpret_reply(ev: OracleEvent) -> (r: Result<InvocationProposal, OracleError>)
    ensures
        ev matches OracleEvent::Unreachable(d)
            ==> r == Result::<InvocationProposal, OracleError>::Err(
                OracleError::TransportFailure(d),
            ),
        ev matches OracleEvent::Garbled(d)
            ==> r == Result::<InvocationProposal, OracleError>::Err(
                OracleError::MalformedResponse(d),
            ),
        ev matches OracleEvent::Selected(v) ==> {
            &&& v@.len() == 0 ==> r == Result::<InvocationProposal, OracleError>::Ok(
                InvocationProposal::NoCapability,
            )
            &&& v@.len() > 0 ==> r == Result::<InvocationProposal, OracleError>::Ok(
                InvocationProposal::Invoke {
                    name: v@[0].name,
                    arguments: v@[0].arguments,
                },
            )
        },
{
    match ev {
        OracleEvent::Unreachable(d) => Err(OracleError::TransportFailure(d)),
        OracleEvent::Garbled(d) => Err(OracleError::MalformedResponse(d)),
        OracleEvent::Selected(mut v) => {
            if v.len() == 0 {
                Ok(InvocationProposal::NoCapability)
            } else {
                let first = v.remove(0);
                Ok(InvocationProposal::Invoke { name: first.name, arguments: first.arguments })
            }
        },
    }
}

} // verus!
