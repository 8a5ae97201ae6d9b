//! A flag that lets something happen once only.
use vstd::prelude::*;

verus! {

/// Guards an action that may happen only once in a program: the first claim
/// succeeds, every later one is refused.
pub struct OnceGuard {
    claimed: bool,
}

impl OnceGuard {
    /// Whether the guard was claimed.
    pub closed spec fn spec_claimed(self) -> bool {
        self.claimed
    }

    /// A claim on the guard: whether it succeeds, and the guard afterwards.
    pub closed spec fn spec_claim(self) -> (bool, OnceGuard) {
        (!self.claimed, OnceGuard { claimed: true })
    }

    /// A guard that was not claimed yet.
    pub fn new() -> (g: Self)
        ensures
            !g.spec_claimed(),
    {
        OnceGuard { claimed: false }
    }

    /// Claim the guard: `true` the first time, `false` ever after.
    pub fn claim(&mut self) -> (first: bool)
        ensures
            (first, *final(self)) == old(self).spec_claim(),
            first == !old(self).spec_claimed(),
            final(self).spec_claimed(),
    {
        let first = !self.claimed;
        self.claimed = true;
        first
    }
}

/// Only the first claim succeeds: a fresh guard's first claim succeeds, and
/// after any claim every further claim is refused.
pub proof fn lemma_only_first_claim_succeeds(g: OnceGuard)
    ensures
        !g.spec_claimed() ==> g.spec_claim().0,
        !g.spec_claim().1.spec_claim().0,
        g.spec_claim().1.spec_claimed(),
        g.spec_claim().1.spec_claim().1 == g.spec_claim().1,
{
}

} // verus!
