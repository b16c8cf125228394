//! The protocol's stated properties, proved from the contracts of the
//! store, the voter and the dispatcher.

use vstd::prelude::*;
use crate::kv::{has_key, lookup, unique_keys};
use crate::store::{spec_chain, lemma_chain_properties, Consensus};
use crate::task::ConsensusTaskState;
use crate::types::{leaf_commitment, Leaf, QuorumProposal};

verus! {

/// One step of a run, as the dispatcher's contract bounds it: the current
/// view, the locked view, the decided view and the high QC's view never
/// decrease.
pub open spec fn spec_monotone_step(pre: ConsensusTaskState, post: ConsensusTaskState) -> bool {
    &&& post.cur_view >= pre.cur_view
    &&& post.consensus.locked_view >= pre.consensus.locked_view
    &&& post.consensus.last_decided_view >= pre.consensus.last_decided_view
    &&& post.consensus.high_qc.view >= pre.consensus.high_qc.view
}

/// Monotonicity of a whole run: across any sequence of states linked by
/// steps of [`spec_monotone_step`] — which `ConsensusTaskState::handle`
/// guarantees of every event — the current view, the locked view, the
/// decided view and the high QC's view are non-decreasing over time.
pub proof fn lemma_run_monotone(states: Seq<ConsensusTaskState>)
    requires
        forall|i: int|
            0 <= i < states.len() - 1 ==> spec_monotone_step(
                #[trigger] states[i],
                states[i + 1],
            ),
    ensures
        forall|i: int, j: int|
            0 <= i <= j < states.len() ==> spec_monotone_step(
                #[trigger] states[i],
                #[trigger] states[j],
            ),
    decreases states.len(),
{
    if states.len() > 1 {
        lemma_run_monotone(states.drop_last());
        assert forall|i: int, j: int| 0 <= i <= j < states.len() implies spec_monotone_step(
            #[trigger] states[i],
            #[trigger] states[j],
        ) by {
            if j == states.len() - 1 {
                if i < j {
                    assert(states.drop_last()[i] == states[i]);
                    assert(states.drop_last()[j - 1] == states[j - 1]);
                    assert(spec_monotone_step(states[i], states[j - 1]));
                    assert(spec_monotone_step(states[j - 1], states[j]));
                }
            } else {
                assert(states.drop_last()[i] == states[i]);
                assert(states.drop_last()[j] == states[j]);
            }
        }
    }
}

/// One step of the vote bookkeeping of a run: `pre` and `post` are the
/// highest view voted before and after, and `voted` is the view of the
/// vote the step broadcast, if any. The voter's contracts guarantee this
/// of every step: a vote is only cast above the highest view voted so far,
/// which then advances to it.
pub open spec fn spec_vote_step(pre: u64, post: u64, voted: Option<u64>) -> bool {
    match voted {
        Some(v) => v > pre && post == v,
        None => post == pre,
    }
}

/// Single vote per view: over any run of vote-bookkeeping steps — one per
/// broadcast vote of one kind, as `vote_if_able` and `handle_timeout`
/// guarantee — no two steps broadcast a vote for the same view.
pub proof fn lemma_single_vote_per_view(marks: Seq<u64>, voted: Seq<Option<u64>>)
    requires
        marks.len() == voted.len() + 1,
        forall|i: int|
            0 <= i < voted.len() ==> spec_vote_step(marks[i], marks[i + 1], #[trigger] voted[i]),
    ensures
        forall|i: int, j: int|
            0 <= i <= j < marks.len() ==> #[trigger] marks[i] <= #[trigger] marks[j],
        forall|i: int, j: int|
            0 <= i < j < voted.len() && #[trigger] voted[i] is Some && #[trigger] voted[j]
                is Some ==> voted[i] != voted[j],
    decreases marks.len(),
{
    if voted.len() > 0 {
        lemma_single_vote_per_view(marks.drop_last(), voted.drop_last());
        assert forall|i: int, j: int| 0 <= i <= j < marks.len() implies #[trigger] marks[i]
            <= #[trigger] marks[j] by {
            if j == marks.len() - 1 && i < j {
                assert(marks.drop_last()[i] == marks[i]);
                assert(marks.drop_last()[j - 1] == marks[j - 1]);
                assert(marks[i] <= marks[j - 1]);
                assert(spec_vote_step(marks[j - 1], marks[j], voted[j - 1]));
            } else if j < marks.len() - 1 {
                assert(marks.drop_last()[i] == marks[i]);
                assert(marks.drop_last()[j] == marks[j]);
            }
        }
        assert forall|i: int, j: int|
            0 <= i < j < voted.len() && #[trigger] voted[i] is Some && #[trigger] voted[j]
                is Some implies voted[i] != voted[j] by {
            if j == voted.len() - 1 {
                let vi = voted[i]->Some_0;
                let vj = voted[j]->Some_0;
                assert(marks[i + 1] == vi);
                assert(marks[i + 1] <= marks[j]);
                assert(vj > marks[j]);
            } else {
                assert(voted.drop_last()[i] == voted[i]);
                assert(voted.drop_last()[j] == voted[j]);
            }
        }
    }
}

/// Garbage-collection soundness, over the relation `collect_garbage`
/// establishes between the store before and after: no leaf below the new
/// anchor survives, and every retained leaf's parent that sat at or above
/// the anchor is still present.
pub proof fn lemma_collect_garbage_sound(pre: Consensus, post: Consensus, new_anchor: u64)
    requires
        forall|k: u64|
            has_key(post.saved_leaves@, k) <==> (has_key(pre.saved_leaves@, k) && lookup(
                pre.saved_leaves@,
                k,
            ).view_number >= new_anchor),
        forall|k: u64|
            has_key(post.saved_leaves@, k) ==> lookup(post.saved_leaves@, k) == lookup(
                pre.saved_leaves@,
                k,
            ),
    ensures
        forall|k: u64|
            has_key(post.saved_leaves@, k) ==> lookup(post.saved_leaves@, k).view_number
                >= new_anchor,
        forall|k: u64|
            has_key(post.saved_leaves@, k) && has_key(
                pre.saved_leaves@,
                lookup(post.saved_leaves@, k).parent_commitment,
            ) && lookup(
                pre.saved_leaves@,
                lookup(post.saved_leaves@, k).parent_commitment,
            ).view_number >= new_anchor ==> has_key(
                post.saved_leaves@,
                lookup(post.saved_leaves@, k).parent_commitment,
            ),
{
}

/// The leaf commitment is a function of the proposal alone: equal
/// proposals yield equal commitments of the leaves they describe.
pub proof fn lemma_commit_round_trip(p1: QuorumProposal, p2: QuorumProposal)
    requires
        p1 == p2,
    ensures
        leaf_commitment(Leaf::spec_from_quorum_proposal(p1)) == leaf_commitment(
            Leaf::spec_from_quorum_proposal(p2),
        ),
{
}

/// One leaf per commitment: a well-formed store holds at most one leaf
/// under any commitment, and that leaf's own commitment is its key.
pub proof fn lemma_store_one_leaf_per_commitment(c: Consensus, i: int, j: int)
    requires
        c.wf(),
        0 <= i < c.saved_leaves@.len(),
        0 <= j < c.saved_leaves@.len(),
        c.saved_leaves@[i].0 == c.saved_leaves@[j].0,
    ensures
        i == j,
        leaf_commitment(c.saved_leaves@[i].1) == c.saved_leaves@[i].0,
{
    if i < j {
        assert(c.saved_leaves@[i].0 != c.saved_leaves@[j].0);
    }
    if j < i {
        assert(c.saved_leaves@[j].0 != c.saved_leaves@[i].0);
    }
}

/// The walked ancestor chain of any commitment is parent-linked with
/// strictly descending views: each element is the stored leaf at the
/// previous element's parent commitment. Decided leaf chains are suffixes
/// of such chains, so a decided leaf is an ancestor of every leaf decided
/// after it within the same chain.
pub proof fn lemma_chain_parent_linked(leaves: Seq<(u64, Leaf)>, commit: u64, bound: u64, anchor: u64)
    requires
        unique_keys(leaves),
    ensures
        forall|i: int|
            1 <= i < spec_chain(leaves, commit, bound, anchor).len() ==> has_key(
                leaves,
                (#[trigger] spec_chain(leaves, commit, bound, anchor)[i - 1]).parent_commitment,
            ) && spec_chain(leaves, commit, bound, anchor)[i] == lookup(
                leaves,
                spec_chain(leaves, commit, bound, anchor)[i - 1].parent_commitment,
            ) && spec_chain(leaves, commit, bound, anchor)[i].view_number < spec_chain(
                leaves,
                commit,
                bound,
                anchor,
            )[i - 1].view_number,
{
    lemma_chain_properties(leaves, commit, bound, anchor);
}

} // verus!
