//! The vote accumulator: per view and per vote kind, it gathers signed votes
//! from distinct staked signers until the certificate threshold is crossed,
//! and completes at most once.

use vstd::prelude::*;
use crate::membership::Membership;
use crate::kv::{has_key, key_index, kv_get, kv_set, lemma_key_at, lookup, unique_keys};

verus! {

/// Accumulates votes of one kind for one view. `tallies` counts, for each
/// vote payload, the staked signers seen behind it; `signers` lists everyone
/// whose vote was accepted, so that a second vote by the same signer is
/// ignored.
pub struct VoteAccumulator {
    pub view: u64,
    /// Votes needed on one payload to form the certificate.
    pub threshold: u64,
    pub signers: Vec<u64>,
    pub tallies: Vec<(u64, u64)>,
    /// Whether the certificate was formed; nothing is accepted afterwards.
    pub finished: bool,
}

impl VoteAccumulator {
    /// Distinct signers, distinct tally keys, and, until the certificate is
    /// formed, every tally strictly under the threshold.
    pub open spec fn wf(self) -> bool {
        &&& unique_keys(self.tallies@)
        &&& forall|i: int, j: int|
            0 <= i < j < self.signers@.len() ==> self.signers@[i] != self.signers@[j]
        &&& !self.finished ==> forall|i: int|
            0 <= i < self.tallies@.len() ==> (#[trigger] self.tallies@[i]).1 < self.threshold
        &&& self.threshold >= 1
    }

    /// Votes counted so far for a payload.
    pub open spec fn spec_count(self, data: u64) -> u64 {
        if has_key(self.tallies@, data) {
            lookup(self.tallies@, data)
        } else {
            0
        }
    }

    /// Whether a vote is accepted: the accumulator is still open, the vote
    /// is for its view, correctly signed, by a staked signer that has not
    /// voted here before.
    pub open spec fn spec_accepts(
        self,
        m: Membership,
        signer: u64,
        view: u64,
        signed: bool,
    ) -> bool {
        &&& !self.finished
        &&& view == self.view
        &&& signed
        &&& m.spec_has_stake(signer)
        &&& !self.signers@.contains(signer)
    }

    /// A fresh accumulator for a view, against a membership's threshold.
    pub fn create(view: u64, m: &Membership) -> (acc: VoteAccumulator)
        requires
            m.spec_total_nodes() <= usize::MAX / 2,
            m.spec_success_threshold() <= u64::MAX,
        ensures
            acc.wf(),
            acc.view == view,
            acc.threshold == m.spec_success_threshold(),
            acc.signers@.len() == 0,
            acc.tallies@.len() == 0,
            !acc.finished,
    {
        let threshold = m.success_threshold() as u64;
        VoteAccumulator {
            view,
            threshold,
            signers: Vec::new(),
            tallies: Vec::new(),
            finished: false,
        }
    }

    /// Feed one vote in: `signer` voted for payload `data` at `view`, with a
    /// signature whose validity the caller checked (`signed`). Returns true
    /// exactly when this vote completes the certificate: the payload's tally
    /// reaches the threshold, and the accumulator closes for good.
    pub fn accumulate(
        &mut self,
        m: &Membership,
        signer: u64,
        view: u64,
        data: u64,
        signed: bool,
    ) -> (completed: bool)
        requires
            old(self).wf(),
        ensures
            final(self).wf(),
            !old(self).spec_accepts(*m, signer, view, signed) ==> *final(self) == *old(self)
                && !completed,
            old(self).spec_accepts(*m, signer, view, signed) ==> {
                &&& final(self).view == old(self).view
                &&& final(self).threshold == old(self).threshold
                &&& final(self).signers@ == old(self).signers@.push(signer)
                &&& final(self).spec_count(data) == old(self).spec_count(data) + 1
                &&& (forall|d: u64|
                    d != data ==> final(self).spec_count(d) == old(self).spec_count(d))
                &&& completed == (old(self).spec_count(data) + 1 == old(self).threshold)
                &&& final(self).finished == completed
            },
    {
        if self.finished {
            return false;
        }
        if view != self.view {
            return false;
        }
        if !signed {
            return false;
        }
        if !m.has_stake(signer) {
            return false;
        }
        let mut seen = false;
        let mut i: usize = 0;
        while i < self.signers.len()
            invariant
                0 <= i <= self.signers@.len(),
                seen == exists|j: int| 0 <= j < i && self.signers@[j] == signer,
            decreases self.signers@.len() - i,
        {
            if self.signers[i] == signer {
                seen = true;
            }
            i = i + 1;
        }
        if seen {
            return false;
        }
        let count = match kv_get(&self.tallies, data) {
            Some(c) => *c,
            None => 0,
        };
        proof {
            assert(count == self.spec_count(data));
            if has_key(self.tallies@, data) {
                let j = key_index(self.tallies@, data);
                assert(self.tallies@[j].1 < self.threshold);
            }
        }
        let new_count = count + 1;
        self.signers.push(signer);
        kv_set(&mut self.tallies, data, new_count);
        if new_count == self.threshold {
            self.finished = true;
            proof {
                assert(self.spec_count(data) == new_count);
            }
            true
        } else {
            proof {
                assert(self.spec_count(data) == new_count);
                let s = self.tallies@;
                assert forall|i2: int| 0 <= i2 < s.len() implies (#[trigger] s[i2]).1
                    < self.threshold by {
                    lemma_key_at(s, s[i2].0, i2);
                    if s[i2].0 != data {
                        assert(lookup(s, s[i2].0) == lookup(old(self).tallies@, s[i2].0));
                        let t = old(self).tallies@;
                        let j = key_index(t, s[i2].0);
                        assert(t[j].1 < self.threshold);
                    }
                }
            }
            false
        }
    }
}

} // verus!
