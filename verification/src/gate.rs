//! A counting admission gate bounding how many transfer workers run at
//! the same time.
//!
//! This is the decision half of a semaphore: `try_acquire` grants a
//! permit exactly when one is free, and `release` returns one. The
//! runtime that waits on a denied permit lives outside the engine; every
//! path through the engine releases each granted permit exactly once.

use vstd::prelude::*;

verus! {

/// The admission gate of one transfer: `in_use` of `budget` permits are
/// out.
#[derive(Clone, Copy, Debug)]
pub struct ConcurrencyGate {
    pub budget: usize,
    pub in_use: usize,
}

impl ConcurrencyGate {
    /// The invariant: never more permits out than the budget.
    pub open spec fn wf(self) -> bool {
        &&& self.budget >= 1
        &&& self.in_use <= self.budget
    }

    /// A fresh gate with `worker_budget` permits, none taken.
    pub fn new(worker_budget: usize) -> (g: ConcurrencyGate)
        requires
            worker_budget >= 1,
        ensures
            g.wf(),
            g.budget == worker_budget,
            g.in_use == 0,
    {
        ConcurrencyGate { budget: worker_budget, in_use: 0 }
    }

    /// Grant a permit if one is free. A permit is granted exactly when
    /// fewer than `budget` are out, so the budget is never exceeded.
    pub fn try_acquire(&mut self) -> (granted: bool)
        requires
            old(self).wf(),
        ensures
            final(self).wf(),
            final(self).budget == old(self).budget,
            granted <==> old(self).in_use < old(self).budget,
            final(self).in_use == if granted {
                old(self).in_use + 1
            } else {
                old(self).in_use as int
            },
    {
        if self.in_use < self.budget {
            self.in_use = self.in_use + 1;
            true
        } else {
            false
        }
    }

    /// Return one permit.
    pub fn release(&mut self)
        requires
            old(self).wf(),
            old(self).in_use >= 1,
        ensures
            final(self).wf(),
            final(self).budget == old(self).budget,
            final(self).in_use == old(self).in_use - 1,
    {
        self.in_use = self.in_use - 1;
    }

    /// How many permits are still free.
    pub fn available(&self) -> (n: usize)
        requires
            self.wf(),
        ensures
            n == self.budget - self.in_use,
    {
        self.budget - self.in_use
    }
}

/// The admission law: whatever sequence of grants and releases produced
/// a well-formed gate, the permits out never exceed the budget.
pub proof fn lemma_gate_bounded(g: ConcurrencyGate)
    requires
        g.wf(),
    ensures
        g.in_use <= g.budget,
{
}

} // verus!
