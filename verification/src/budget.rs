//! The per-invocation compute budget: a scalar quota consumed monotonically
//! while a sandboxed capability runs, with exhaustion as the hard stop.

use vstd::prelude::*;

verus! {

/// Default compute quota installed for every capability invocation.
pub const DEFAULT_BUDGET: u64 = 10_000_000;

/// What remains of a budget after one charge: charging more than remains
/// leaves nothing, never a negative amount.
pub open spec fn spec_charge(remaining: nat, cost: nat) -> nat {
    if cost <= remaining {
        (remaining - cost) as nat
    } else {
        0
    }
}

/// What remains of a budget after a sequence of charges, applied in order.
pub open spec fn spec_charge_all(remaining: nat, costs: Seq<nat>) -> nat
    decreases costs.len(),
{
    if costs.len() == 0 {
        remaining
    } else {
        spec_charge_all(spec_charge(remaining, costs[0]), costs.skip(1))
    }
}

/// A compute-unit quota for one sandboxed invocation. Created fresh per
/// invocation, consumed monotonically, and discarded when the invocation
/// completes; it is never shared or reused.
pub struct ExecutionBudget {
    remaining: u64,
}

impl ExecutionBudget {
    /// How many compute units are still available.
    pub closed spec fn spec_remaining(&self) -> nat {
        self.remaining as nat
    }

    /// A budget starts with exactly the quota it was granted.
    pub fn new(quota: u64) -> (b: ExecutionBudget)
        ensures
            b.spec_remaining() == quota as nat,
    {
        ExecutionBudget { remaining: quota }
    }

    /// Charge one unit of guest work. The quota decreases by the cost, floors
    /// at zero, and never increases.
    pub fn charge(&mut self, cost: u64)
        ensures
            final(self).spec_remaining() == spec_charge(old(self).spec_remaining(), cost as nat),
            final(self).spec_remaining() <= old(self).spec_remaining(),
    {
        if cost <= self.remaining {
            self.remaining = self.remaining - cost;
        } else {
            self.remaining = 0;
        }
    }

    /// How many compute units are still available.
    pub fn remaining(&self) -> (r: u64)
        ensures
            r as nat == self.spec_remaining(),
    {
        self.remaining
    }

    /// The budget is exhausted exactly when nothing remains.
    pub fn is_exhausted(&self) -> (r: bool)
        ensures
            r <==> self.spec_remaining() == 0,
    {
        self.remaining == 0
    }
}

/// Once a budget reaches zero it stays at zero under further charges.
pub proof fn lemma_exhaustion_is_final(costs: Seq<nat>)
    ensures
        spec_charge_all(0, costs) == 0,
    decreases costs.len(),
{
    if costs.len() > 0 {
        lemma_exhaustion_is_final(costs.skip(1));
    }
}

/// A guest that keeps consuming compute cannot outlive a finite budget: after
/// as many charges of at least one unit each as the quota held, the budget is
/// exhausted, whatever the individual costs were.
pub proof fn lemma_finite_budget_exhausts(remaining: nat, costs: Seq<nat>)
    requires
        forall|i: int| 0 <= i < costs.len() ==> costs[i] >= 1,
        costs.len() >= remaining,
    ensures
        spec_charge_all(remaining, costs) == 0,
    decreases costs.len(),
{
    if costs.len() == 0 {
    } else if costs[0] >= remaining {
        lemma_exhaustion_is_final(costs.skip(1));
    } else {
        assert(forall|i: int| 0 <= i < costs.skip(1).len() ==> costs.skip(1)[i] >= 1);
        lemma_finite_budget_exhausts(spec_charge(remaining, costs[0]), costs.skip(1));
    }
}

} // verus!
