//! The consensus state store: high QC, locked and decided views, saved
//! leaves, payloads, DA certificates and VID shares, and the metrics.

use vstd::prelude::*;
use crate::types::{leaf_commitment, DaCertificate, Leaf, QuorumCertificate, VidShare};
use crate::kv::{has_key, key_index, kv_get, kv_set, kv_take, lemma_key_at, lookup, unique_keys};

verus! {

/// Counters and gauges the task maintains.
#[derive(Clone, Copy, Debug, PartialEq, Eq, Structural)]
pub struct ConsensusMetrics {
    /// Unix timestamp of the latest decide.
    pub last_decided_time: i64,
    /// Number of invalid QCs seen since the latest decide.
    pub invalid_qc: u64,
    pub last_decided_view: u64,
    pub last_synced_block_height: u64,
    pub number_of_timeouts: u64,
    /// Views spanned by the latest decide.
    pub number_of_views_per_decide_event: u64,
}

impl ConsensusMetrics {
    /// Metrics at genesis: all zero.
    pub fn new() -> (m: ConsensusMetrics)
        ensures
            m == (ConsensusMetrics {
                last_decided_time: 0i64,
                invalid_qc: 0u64,
                last_decided_view: 0u64,
                last_synced_block_height: 0u64,
                number_of_timeouts: 0u64,
                number_of_views_per_decide_event: 0u64,
            }),
    {
        ConsensusMetrics {
            last_decided_time: 0,
            invalid_qc: 0,
            last_decided_view: 0,
            last_synced_block_height: 0,
            number_of_timeouts: 0,
            number_of_views_per_decide_event: 0,
        }
    }
}

/// The shared consensus record of one replica.
pub struct Consensus {
    /// Highest-view quorum certificate observed.
    pub high_qc: QuorumCertificate,
    /// View of the two-chain lock.
    pub locked_view: u64,
    /// View of the latest three-chain decision.
    pub last_decided_view: u64,
    /// Leaves, keyed by their own commitment.
    pub saved_leaves: Vec<(u64, Leaf)>,
    /// Encoded payloads (transaction commitments), keyed by view.
    pub saved_payloads: Vec<(u64, Vec<u64>)>,
    /// DA certificates, keyed by view.
    pub saved_da_certs: Vec<(u64, DaCertificate)>,
    /// VID shares, keyed by view, then by recipient key.
    pub vid_shares: Vec<(u64, Vec<(u64, VidShare)>)>,
    pub metrics: ConsensusMetrics,
}

impl Consensus {
    /// Well-formedness: every map has distinct keys, every leaf sits under
    /// its own commitment, and the decided, locked and high-QC views are
    /// ordered.
    pub open spec fn wf(self) -> bool {
        &&& unique_keys(self.saved_leaves@)
        &&& unique_keys(self.saved_payloads@)
        &&& unique_keys(self.saved_da_certs@)
        &&& unique_keys(self.vid_shares@)
        &&& forall|i: int|
            0 <= i < self.vid_shares@.len() ==> unique_keys((#[trigger] self.vid_shares@[i]).1@)
        &&& forall|i: int|
            0 <= i < self.saved_leaves@.len() ==> leaf_commitment(
                (#[trigger] self.saved_leaves@[i]).1,
            ) == self.saved_leaves@[i].0
        &&& self.last_decided_view <= self.locked_view
        &&& self.locked_view <= self.high_qc.view
    }

    /// The store at genesis: the genesis leaf saved, locked and decided
    /// views at the genesis view, and the genesis QC as the high QC.
    pub fn new(genesis: Leaf) -> (c: Consensus)
        requires
            genesis.view_number == 0,
            genesis.justify_qc.view == 0,
        ensures
            c.wf(),
            c.high_qc == (QuorumCertificate {
                leaf_commit: leaf_commitment(genesis),
                view: 0u64,
                signer_count: 0u64,
            }),
            c.locked_view == 0,
            c.last_decided_view == 0,
            has_key(c.saved_leaves@, leaf_commitment(genesis)),
            lookup(c.saved_leaves@, leaf_commitment(genesis)) == genesis,
            c.saved_payloads@.len() == 0,
            c.saved_da_certs@.len() == 0,
            c.vid_shares@.len() == 0,
            c.metrics == (ConsensusMetrics {
                last_decided_time: 0i64,
                invalid_qc: 0u64,
                last_decided_view: 0u64,
                last_synced_block_height: 0u64,
                number_of_timeouts: 0u64,
                number_of_views_per_decide_event: 0u64,
            }),
    {
        let commit = genesis.commit();
        let mut saved_leaves: Vec<(u64, Leaf)> = Vec::new();
        saved_leaves.push((commit, genesis));
        proof {
            lemma_key_at(saved_leaves@, commit, 0);
        }
        Consensus {
            high_qc: QuorumCertificate { leaf_commit: commit, view: 0, signer_count: 0 },
            locked_view: 0,
            last_decided_view: 0,
            saved_leaves,
            saved_payloads: Vec::new(),
            saved_da_certs: Vec::new(),
            vid_shares: Vec::new(),
            metrics: ConsensusMetrics::new(),
        }
    }

    /// Save a leaf under its own commitment.
    pub fn insert_leaf(&mut self, leaf: Leaf)
        requires
            old(self).wf(),
        ensures
            final(self).wf(),
            has_key(final(self).saved_leaves@, leaf_commitment(leaf)),
            lookup(final(self).saved_leaves@, leaf_commitment(leaf)) == leaf,
            forall|k: u64|
                k != leaf_commitment(leaf) ==> (has_key(final(self).saved_leaves@, k) <==> has_key(
                    old(self).saved_leaves@,
                    k,
                )),
            forall|k: u64|
                k != leaf_commitment(leaf) && has_key(old(self).saved_leaves@, k) ==> lookup(
                    final(self).saved_leaves@,
                    k,
                ) == lookup(old(self).saved_leaves@, k),
            final(self).high_qc == old(self).high_qc,
            final(self).locked_view == old(self).locked_view,
            final(self).last_decided_view == old(self).last_decided_view,
            final(self).saved_payloads == old(self).saved_payloads,
            final(self).saved_da_certs == old(self).saved_da_certs,
            final(self).vid_shares == old(self).vid_shares,
            final(self).metrics == old(self).metrics,
    {
        let commit = leaf.commit();
        kv_set(&mut self.saved_leaves, commit, leaf);
        proof {
            let s = self.saved_leaves@;
            assert forall|i: int| 0 <= i < s.len() implies leaf_commitment((#[trigger] s[i]).1)
                == s[i].0 by {
                lemma_key_at(s, s[i].0, i);
                if s[i].0 != commit {
                    let t = old(self).saved_leaves@;
                    let j = key_index(t, s[i].0);
                    assert(leaf_commitment(t[j].1) == t[j].0);
                }
            }
        }
    }

    /// Fetch the leaf stored under a commitment.
    pub fn get_leaf(&self, commit: u64) -> (r: Option<&Leaf>)
        requires
            self.wf(),
        ensures
            match r {
                Some(l) => has_key(self.saved_leaves@, commit) && *l == lookup(
                    self.saved_leaves@,
                    commit,
                ),
                None => !has_key(self.saved_leaves@, commit),
            },
    {
        kv_get(&self.saved_leaves, commit)
    }

    /// Save the encoded payload of a view.
    pub fn insert_payload(&mut self, view: u64, payload: Vec<u64>)
        requires
            old(self).wf(),
        ensures
            final(self).wf(),
            has_key(final(self).saved_payloads@, view),
            lookup(final(self).saved_payloads@, view) == payload,
            forall|k: u64|
                k != view ==> (has_key(final(self).saved_payloads@, k) <==> has_key(
                    old(self).saved_payloads@,
                    k,
                )),
            forall|k: u64|
                k != view && has_key(old(self).saved_payloads@, k) ==> lookup(
                    final(self).saved_payloads@,
                    k,
                ) == lookup(old(self).saved_payloads@, k),
            final(self).high_qc == old(self).high_qc,
            final(self).locked_view == old(self).locked_view,
            final(self).last_decided_view == old(self).last_decided_view,
            final(self).saved_leaves == old(self).saved_leaves,
            final(self).saved_da_certs == old(self).saved_da_certs,
            final(self).vid_shares == old(self).vid_shares,
            final(self).metrics == old(self).metrics,
    {
        kv_set(&mut self.saved_payloads, view, payload);
    }

    /// Fetch the payload saved for a view.
    pub fn get_payload(&self, view: u64) -> (r: Option<&Vec<u64>>)
        requires
            self.wf(),
        ensures
            match r {
                Some(p) => has_key(self.saved_payloads@, view) && *p == lookup(
                    self.saved_payloads@,
                    view,
                ),
                None => !has_key(self.saved_payloads@, view),
            },
    {
        kv_get(&self.saved_payloads, view)
    }

    /// Save the DA certificate of a view.
    pub fn insert_da_cert(&mut self, cert: DaCertificate)
        requires
            old(self).wf(),
        ensures
            final(self).wf(),
            has_key(final(self).saved_da_certs@, cert.view),
            lookup(final(self).saved_da_certs@, cert.view) == cert,
            forall|k: u64|
                k != cert.view ==> (has_key(final(self).saved_da_certs@, k) <==> has_key(
                    old(self).saved_da_certs@,
                    k,
                )),
            forall|k: u64|
                k != cert.view && has_key(old(self).saved_da_certs@, k) ==> lookup(
                    final(self).saved_da_certs@,
                    k,
                ) == lookup(old(self).saved_da_certs@, k),
            final(self).high_qc == old(self).high_qc,
            final(self).locked_view == old(self).locked_view,
            final(self).last_decided_view == old(self).last_decided_view,
            final(self).saved_leaves == old(self).saved_leaves,
            final(self).saved_payloads == old(self).saved_payloads,
            final(self).vid_shares == old(self).vid_shares,
            final(self).metrics == old(self).metrics,
    {
        kv_set(&mut self.saved_da_certs, cert.view, cert);
    }

    /// Fetch the DA certificate of a view.
    pub fn get_da_cert(&self, view: u64) -> (r: Option<&DaCertificate>)
        requires
            self.wf(),
        ensures
            match r {
                Some(c) => has_key(self.saved_da_certs@, view) && *c == lookup(
                    self.saved_da_certs@,
                    view,
                ),
                None => !has_key(self.saved_da_certs@, view),
            },
    {
        kv_get(&self.saved_da_certs, view)
    }

    /// The VID share map of a view, in spec form.
    pub open spec fn spec_vid_shares_at(self, view: u64) -> Seq<(u64, VidShare)>
        recommends
            has_key(self.vid_shares@, view),
    {
        lookup(self.vid_shares@, view)@
    }

    /// Save a VID share under its view and recipient.
    pub fn insert_vid_share(&mut self, share: VidShare)
        requires
            old(self).wf(),
        ensures
            final(self).wf(),
            has_key(final(self).vid_shares@, share.view_number),
            has_key(final(self).spec_vid_shares_at(share.view_number), share.recipient_key),
            lookup(final(self).spec_vid_shares_at(share.view_number), share.recipient_key)
                == share,
            forall|v: u64|
                v != share.view_number ==> (has_key(final(self).vid_shares@, v) <==> has_key(
                    old(self).vid_shares@,
                    v,
                )),
            forall|v: u64|
                v != share.view_number && has_key(old(self).vid_shares@, v) ==> lookup(
                    final(self).vid_shares@,
                    v,
                ) == lookup(old(self).vid_shares@, v),
            forall|k: u64|
                k != share.recipient_key && has_key(old(self).vid_shares@, share.view_number)
                    ==> (has_key(final(self).spec_vid_shares_at(share.view_number), k) <==>
                has_key(old(self).spec_vid_shares_at(share.view_number), k)),
            has_key(old(self).vid_shares@, share.view_number) || (forall|k: u64|
                k != share.recipient_key ==> !has_key(
                    final(self).spec_vid_shares_at(share.view_number),
                    k,
                )),
            final(self).high_qc == old(self).high_qc,
            final(self).locked_view == old(self).locked_view,
            final(self).last_decided_view == old(self).last_decided_view,
            final(self).saved_leaves == old(self).saved_leaves,
            final(self).saved_payloads == old(self).saved_payloads,
            final(self).saved_da_certs == old(self).saved_da_certs,
            final(self).metrics == old(self).metrics,
    {
        let view = share.view_number;
        let key = share.recipient_key;
        let mut inner: Vec<(u64, VidShare)> = match kv_take(&mut self.vid_shares, view) {
            Some(m) => m,
            None => Vec::new(),
        };
        proof {
            if has_key(old(self).vid_shares@, view) {
                let j = key_index(old(self).vid_shares@, view);
                assert(unique_keys(old(self).vid_shares@[j].1@));
            }
        }
        kv_set(&mut inner, key, share);
        kv_set(&mut self.vid_shares, view, inner);
        proof {
            let s = self.vid_shares@;
            assert forall|i: int| 0 <= i < s.len() implies unique_keys(
                (#[trigger] s[i]).1@,
            ) by {
                lemma_key_at(s, s[i].0, i);
                if s[i].0 != view {
                    let t = old(self).vid_shares@;
                    let j = key_index(t, s[i].0);
                    assert(unique_keys(t[j].1@));
                }
            }
        }
    }

    /// Fetch the VID share of a view addressed to a recipient.
    pub fn get_vid_share(&self, view: u64, recipient: u64) -> (r: Option<&VidShare>)
        requires
            self.wf(),
        ensures
            match r {
                Some(s) => has_key(self.vid_shares@, view) && has_key(
                    self.spec_vid_shares_at(view),
                    recipient,
                ) && *s == lookup(self.spec_vid_shares_at(view), recipient),
                None => !has_key(self.vid_shares@, view) || !has_key(
                    self.spec_vid_shares_at(view),
                    recipient,
                ),
            },
    {
        match kv_get(&self.vid_shares, view) {
            Some(inner) => {
                proof {
                    let j = key_index(self.vid_shares@, view);
                    assert(unique_keys(self.vid_shares@[j].1@));
                }
                kv_get(inner, recipient)
            },
            None => None,
        }
    }

    /// Drop every leaf, payload, DA certificate and VID share whose view is
    /// below `new_anchor`, keeping the entries at the anchor itself.
    pub fn collect_garbage(&mut self, old_anchor: u64, new_anchor: u64)
        requires
            old(self).wf(),
        ensures
            final(self).wf(),
            forall|k: u64|
                has_key(final(self).saved_leaves@, k) <==> (has_key(old(self).saved_leaves@, k)
                    && lookup(old(self).saved_leaves@, k).view_number >= new_anchor),
            forall|k: u64|
                has_key(final(self).saved_leaves@, k) ==> lookup(final(self).saved_leaves@, k)
                    == lookup(old(self).saved_leaves@, k),
            forall|v: u64|
                has_key(final(self).saved_payloads@, v) <==> (has_key(
                    old(self).saved_payloads@,
                    v,
                ) && v >= new_anchor),
            forall|v: u64|
                has_key(final(self).saved_payloads@, v) ==> lookup(final(self).saved_payloads@, v)
                    == lookup(old(self).saved_payloads@, v),
            forall|v: u64|
                has_key(final(self).saved_da_certs@, v) <==> (has_key(
                    old(self).saved_da_certs@,
                    v,
                ) && v >= new_anchor),
            forall|v: u64|
                has_key(final(self).saved_da_certs@, v) ==> lookup(final(self).saved_da_certs@, v)
                    == lookup(old(self).saved_da_certs@, v),
            forall|v: u64|
                has_key(final(self).vid_shares@, v) <==> (has_key(old(self).vid_shares@, v) && v
                    >= new_anchor),
            forall|v: u64|
                has_key(final(self).vid_shares@, v) ==> lookup(final(self).vid_shares@, v)
                    == lookup(old(self).vid_shares@, v),
            final(self).high_qc == old(self).high_qc,
            final(self).locked_view == old(self).locked_view,
            final(self).last_decided_view == old(self).last_decided_view,
            final(self).metrics == old(self).metrics,
    {
        let _ = old_anchor;
        retain_leaves_view_ge(&mut self.saved_leaves, new_anchor);
        crate::kv::kv_retain_keys_ge(&mut self.saved_payloads, new_anchor);
        crate::kv::kv_retain_keys_ge(&mut self.saved_da_certs, new_anchor);
        crate::kv::kv_retain_keys_ge(&mut self.vid_shares, new_anchor);
        proof {
            let s = self.saved_leaves@;
            assert forall|i: int| 0 <= i < s.len() implies leaf_commitment((#[trigger] s[i]).1)
                == s[i].0 by {
                lemma_key_at(s, s[i].0, i);
                let t = old(self).saved_leaves@;
                let j = key_index(t, s[i].0);
                assert(leaf_commitment(t[j].1) == t[j].0);
            }
            let w = self.vid_shares@;
            assert forall|i: int| 0 <= i < w.len() implies unique_keys(
                (#[trigger] w[i]).1@,
            ) by {
                lemma_key_at(w, w[i].0, i);
                let t = old(self).vid_shares@;
                let j = key_index(t, w[i].0);
                assert(unique_keys(t[j].1@));
            }
        }
    }

    /// Whether the store holds any VID share for a view.
    pub fn has_vid_shares(&self, view: u64) -> (r: bool)
        requires
            self.wf(),
        ensures
            r == has_key(self.vid_shares@, view),
    {
        match kv_get(&self.vid_shares, view) {
            Some(_) => true,
            None => false,
        }
    }
}

/// Keep only the leaves whose view is at least `anchor`.
pub fn retain_leaves_view_ge(entries: &mut Vec<(u64, Leaf)>, anchor: u64)
    requires
        unique_keys(old(entries)@),
    ensures
        unique_keys(final(entries)@),
        forall|k: u64|
            has_key(final(entries)@, k) <==> (has_key(old(entries)@, k) && lookup(
                old(entries)@,
                k,
            ).view_number >= anchor),
        forall|k: u64|
            has_key(final(entries)@, k) ==> lookup(final(entries)@, k) == lookup(
                old(entries)@,
                k,
            ),
{
    let ghost orig = old(entries)@;
    let mut kept: Vec<(u64, Leaf)> = Vec::new();
    let ghost mut done: int = 0;
    while entries.len() > 0
        invariant
            orig == old(entries)@,
            0 <= done <= orig.len(),
            entries@ == orig.subrange(done, orig.len() as int),
            unique_keys(orig),
            unique_keys(kept@),
            forall|j: int|
                0 <= j < kept@.len() ==> exists|l: int|
                    0 <= l < done && #[trigger] kept@[j] == #[trigger] orig[l],
            forall|j: int| 0 <= j < kept@.len() ==> (#[trigger] kept@[j]).1.view_number >= anchor,
            forall|l: int|
                0 <= l < done && (#[trigger] orig[l]).1.view_number >= anchor ==> has_key(
                    kept@,
                    orig[l].0,
                ) && lookup(kept@, orig[l].0) == orig[l].1,
        decreases entries@.len(),
    {
        let e = entries.remove(0);
        proof {
            assert(e == orig[done]);
            assert(entries@ =~= orig.subrange(done + 1, orig.len() as int));
        }
        if e.1.view_number >= anchor {
            let ghost pre = kept@;
            kept.push(e);
            proof {
                assert forall|p: int, q: int| 0 <= p < q < kept@.len() implies (
                #[trigger] kept@[p]).0 != (#[trigger] kept@[q]).0 by {
                    if q == kept@.len() - 1 {
                        let l = choose|l: int| 0 <= l < done && pre[p] == orig[l];
                        assert(orig[l].0 != orig[done].0);
                    }
                }
                assert forall|j: int| 0 <= j < kept@.len() implies exists|l: int|
                    0 <= l < done + 1 && #[trigger] kept@[j] == #[trigger] orig[l] by {
                    if j == kept@.len() - 1 {
                        assert(kept@[j] == orig[done]);
                    } else {
                        let l = choose|l: int| 0 <= l < done && pre[j] == orig[l];
                        assert(kept@[j] == orig[l]);
                    }
                }
                assert forall|l: int|
                    0 <= l < done + 1 && (#[trigger] orig[l]).1.view_number >= anchor implies
                    has_key(kept@, orig[l].0) && lookup(kept@, orig[l].0) == orig[l].1 by {
                    if l == done {
                        lemma_key_at(kept@, orig[l].0, kept@.len() - 1);
                    } else {
                        let j = key_index(pre, orig[l].0);
                        lemma_key_at(kept@, orig[l].0, j);
                    }
                }
            }
        } else {
            proof {
                assert forall|l: int|
                    0 <= l < done + 1 && (#[trigger] orig[l]).1.view_number >= anchor implies
                    has_key(kept@, orig[l].0) && lookup(kept@, orig[l].0) == orig[l].1 by {
                    assert(l != done);
                }
            }
        }
        proof {
            done = done + 1;
        }
    }
    proof {
        assert(done == orig.len());
    }
    *entries = kept;
    proof {
        let now = entries@;
        assert forall|k: u64| has_key(now, k) implies has_key(orig, k) && lookup(
            orig,
            k,
        ).view_number >= anchor && lookup(now, k) == lookup(orig, k) by {
            let j = key_index(now, k);
            let l = choose|l: int| 0 <= l < done && now[j] == orig[l];
            lemma_key_at(orig, k, l);
            lemma_key_at(now, k, j);
        }
        assert forall|k: u64| has_key(orig, k) && lookup(orig, k).view_number >= anchor implies
            has_key(now, k) by {
            let l = key_index(orig, k);
        }
    }
}

/// The ancestor chain of leaves starting at `commit`, following parent
/// commitments: each step must strictly lower the view (`bound` is the view
/// the next leaf must stay under) and the walk stops, without visiting it,
/// at a leaf whose view equals `anchor`.
pub open spec fn spec_chain(leaves: Seq<(u64, Leaf)>, commit: u64, bound: u64, anchor: u64) -> Seq<
    Leaf,
>
    decreases bound,
{
    if !has_key(leaves, commit) {
        Seq::empty()
    } else {
        let l = lookup(leaves, commit);
        if l.view_number == anchor {
            Seq::empty()
        } else if l.view_number >= bound {
            Seq::empty()
        } else {
            seq![l] + spec_chain(leaves, l.parent_commitment, l.view_number, anchor)
        }
    }
}

/// Whether the walk of [`spec_chain`] ends by reaching the anchor view, as
/// opposed to a missing ancestor or a parent link that fails to lower the
/// view.
pub open spec fn spec_chain_complete(
    leaves: Seq<(u64, Leaf)>,
    commit: u64,
    bound: u64,
    anchor: u64,
) -> bool
    decreases bound,
{
    if !has_key(leaves, commit) {
        false
    } else {
        let l = lookup(leaves, commit);
        if l.view_number == anchor {
            true
        } else if l.view_number >= bound {
            false
        } else {
            spec_chain_complete(leaves, l.parent_commitment, l.view_number, anchor)
        }
    }
}

/// The chain is parent-linked with strictly descending views: each leaf is
/// the stored leaf at the previous one's parent commitment, no visited view
/// is the anchor, and views stay under the bound.
pub proof fn lemma_chain_properties(leaves: Seq<(u64, Leaf)>, commit: u64, bound: u64, anchor: u64)
    requires
        unique_keys(leaves),
    ensures
        forall|i: int|
            0 <= i < spec_chain(leaves, commit, bound, anchor).len() ==> (#[trigger] spec_chain(
                leaves,
                commit,
                bound,
                anchor,
            )[i]).view_number != anchor && spec_chain(leaves, commit, bound, anchor)[i].view_number
                < bound,
        forall|i: int|
            1 <= i < spec_chain(leaves, commit, bound, anchor).len() ==> (#[trigger] spec_chain(
                leaves,
                commit,
                bound,
                anchor,
            )[i]).view_number < spec_chain(leaves, commit, bound, anchor)[i - 1].view_number
                && has_key(leaves, spec_chain(leaves, commit, bound, anchor)[i - 1].parent_commitment)
                && spec_chain(leaves, commit, bound, anchor)[i] == lookup(
                leaves,
                spec_chain(leaves, commit, bound, anchor)[i - 1].parent_commitment,
            ),
        spec_chain(leaves, commit, bound, anchor).len() > 0 ==> has_key(leaves, commit)
            && spec_chain(leaves, commit, bound, anchor)[0] == lookup(leaves, commit),
    decreases bound,
{
    let c = spec_chain(leaves, commit, bound, anchor);
    if has_key(leaves, commit) {
        let l = lookup(leaves, commit);
        if l.view_number != anchor && l.view_number < bound {
            lemma_chain_properties(leaves, l.parent_commitment, l.view_number, anchor);
            let rest = spec_chain(leaves, l.parent_commitment, l.view_number, anchor);
            assert(c == seq![l] + rest);
            assert forall|i: int| 0 <= i < c.len() implies (#[trigger] c[i]).view_number != anchor
                && c[i].view_number < bound by {
                if i > 0 {
                    assert(c[i] == rest[i - 1]);
                }
            }
            assert forall|i: int| 1 <= i < c.len() implies (#[trigger] c[i]).view_number < c[i
                - 1].view_number && has_key(leaves, c[i - 1].parent_commitment) && c[i] == lookup(
                leaves,
                c[i - 1].parent_commitment,
            ) by {
                assert(c[i] == rest[i - 1]);
                if i == 1 {
                    assert(rest.len() > 0);
                    assert(rest[0] == lookup(leaves, l.parent_commitment));
                    assert(rest[0].view_number < l.view_number);
                } else {
                    assert(c[i - 1] == rest[i - 2]);
                }
            }
        }
    }
}

impl Consensus {
    /// Walk the ancestor chain from the leaf stored at `commit`, whose view
    /// must be under `bound`, down to (not including) the leaf at the anchor
    /// view, appending the visited leaves to `out`. Returns whether the walk
    /// reached the anchor view; a missing ancestor, or a parent whose view
    /// fails to decrease, ends the walk early with the leaves gathered so
    /// far.
    pub fn visit_leaf_ancestors(
        &self,
        commit: u64,
        bound: u64,
        anchor: u64,
        out: &mut Vec<Leaf>,
    ) -> (complete: bool)
        requires
            self.wf(),
        ensures
            final(out)@ == old(out)@ + spec_chain(self.saved_leaves@, commit, bound, anchor),
            complete == spec_chain_complete(self.saved_leaves@, commit, bound, anchor),
        decreases bound,
    {
        let leaf: Leaf = match kv_get(&self.saved_leaves, commit) {
            None => {
                proof {
                    assert(out@ =~= old(out)@ + spec_chain(
                        self.saved_leaves@,
                        commit,
                        bound,
                        anchor,
                    ));
                }
                return false;
            },
            Some(l) => *l,
        };
        if leaf.view_number == anchor {
            proof {
                assert(out@ =~= old(out)@ + spec_chain(self.saved_leaves@, commit, bound, anchor));
            }
            true
        } else if leaf.view_number >= bound {
            proof {
                assert(out@ =~= old(out)@ + spec_chain(self.saved_leaves@, commit, bound, anchor));
            }
            false
        } else {
            out.push(leaf);
            let r = self.visit_leaf_ancestors(
                leaf.parent_commitment,
                leaf.view_number,
                anchor,
                out,
            );
            proof {
                assert(out@ =~= old(out)@ + spec_chain(self.saved_leaves@, commit, bound, anchor));
            }
            r
        }
    }
}

} // verus!
