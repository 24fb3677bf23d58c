//! The choice of target made by the TCP redirector: incoming connections go
//! to the targets in turn.
use vstd::prelude::*;

verus! {

/// Round-robin choice among `count` targets.
pub struct RoundRobin {
    count: usize,
    last_chosen: usize,
}

impl RoundRobin {
    /// How many targets there are.
    pub closed spec fn targets(&self) -> nat {
        self.count as nat
    }

    /// The index the next choice gives.
    pub closed spec fn upcoming(&self) -> nat {
        self.last_chosen as nat
    }

    /// There is a target, and the upcoming index names one.
    pub open spec fn well_formed(&self) -> bool {
        self.targets() > 0 && self.upcoming() < self.targets()
    }

    /// Choice among `count` targets, starting with the first.
    pub fn new(count: usize) -> (rr: RoundRobin)
        requires
            count > 0,
        ensures
            rr.well_formed(),
            rr.targets() == count,
            rr.upcoming() == 0,
    {
        RoundRobin { count, last_chosen: 0 }
    }

    /// The index of the target for the next connection; the choice after it
    /// is the following target, wrapping round after the last.
    pub fn next_target(&mut self) -> (index: usize)
        requires
            old(self).well_formed(),
        ensures
            index == old(self).upcoming(),
            final(self).well_formed(),
            final(self).targets() == old(self).targets(),
            final(self).upcoming() == (old(self).upcoming() + 1) % old(self).targets(),
    {
        let index = self.last_chosen;
        self.last_chosen = (self.last_chosen + 1) % self.count;
        index
    }
}

/// The index of the `k`-th choice (counting from 0) among `n` targets.
pub open spec fn kth_choice(k: nat, n: nat) -> nat
    recommends
        n > 0,
{
    k % n
}

/// Starting from the first target, the `k`-th choice is target `k mod n`: the
/// targets are chosen in turn, over and over.
pub proof fn lemma_choices_cycle(k: nat, n: nat)
    requires
        n > 0,
    ensures
        kth_choice(0, n) == 0,
        kth_choice(k + 1, n) == (kth_choice(k, n) + 1) % n,
        kth_choice(k, n) < n,
{
    vstd::arithmetic::div_mod::lemma_add_mod_noop_right(1, k as int, n as int);
    vstd::arithmetic::div_mod::lemma_mod_bound(k as int, n as int);
    vstd::arithmetic::div_mod::lemma_small_mod(0, n);
}

} // verus!
