//! Quorum membership: the staked committee of a network, its leader
//! schedule and its certificate threshold.

use vstd::prelude::*;

verus! {

/// A membership: the staked committee, in a fixed order. The leader of a
/// view is chosen round-robin over the committee.
#[derive(Clone, Debug, PartialEq, Eq)]
pub struct Membership {
    pub committee: Vec<u64>,
}

impl Membership {
    /// A membership is well formed when its committee is non-empty and
    /// lists each key once.
    pub open spec fn wf(self) -> bool {
        &&& self.committee@.len() > 0
        &&& forall|i: int, j: int|
            0 <= i < j < self.committee@.len() ==> self.committee@[i] != self.committee@[j]
    }

    /// Whether `key` is a member of the staked committee.
    pub open spec fn spec_has_stake(self, key: u64) -> bool {
        self.committee@.contains(key)
    }

    /// The leader of `view`: round-robin over the committee.
    pub open spec fn spec_leader(self, view: u64) -> u64
        recommends
            self.committee@.len() > 0,
    {
        self.committee@[view as int % self.committee@.len() as int]
    }

    /// Number of nodes in the committee.
    pub open spec fn spec_total_nodes(self) -> nat {
        self.committee@.len()
    }

    /// Votes needed for a certificate: more than two thirds of the nodes.
    pub open spec fn spec_success_threshold(self) -> nat {
        (self.spec_total_nodes() * 2) / 3 + 1
    }

    /// Check membership of `key` in the committee.
    pub fn has_stake(&self, key: u64) -> (r: bool)
        ensures
            r == self.spec_has_stake(key),
    {
        let mut i: usize = 0;
        while i < self.committee.len()
            invariant
                0 <= i <= self.committee@.len(),
                forall|j: int| 0 <= j < i ==> self.committee@[j] != key,
            decreases self.committee@.len() - i,
        {
            if self.committee[i] == key {
                return true;
            }
            i = i + 1;
        }
        false
    }

    /// Leader of `view`.
    pub fn get_leader(&self, view: u64) -> (r: u64)
        requires
            self.wf(),
        ensures
            r == self.spec_leader(view),
    {
        let idx: usize = (view % (self.committee.len() as u64)) as usize;
        self.committee[idx]
    }

    /// Number of nodes in the committee.
    pub fn total_nodes(&self) -> (n: usize)
        ensures
            n == self.spec_total_nodes(),
    {
        self.committee.len()
    }

    /// Votes needed for a certificate.
    pub fn success_threshold(&self) -> (t: usize)
        requires
            self.spec_total_nodes() <= usize::MAX / 2,
        ensures
            t == self.spec_success_threshold(),
    {
        (self.committee.len() * 2) / 3 + 1
    }

    /// The staked committee itself.
    pub fn get_staked_committee(&self) -> (c: &Vec<u64>)
        ensures
            c == &self.committee,
    {
        &self.committee
    }
}

} // verus!
