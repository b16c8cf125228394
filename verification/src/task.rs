//! The consensus task: the replica's event dispatcher and the decision
//! logic behind it — voting, proposing, view changes, timeouts, vote
//! aggregation and the three-chain commit rule.
//!
//! Every handler is a pure transition: it mutates the task state and
//! appends to a list of [`Output`] actions that the surrounding shell
//! performs (broadcasts, application events, polling intents, timers,
//! storage writes).

use vstd::prelude::*;
use crate::accumulator::VoteAccumulator;
use crate::events::{AppEvent, AppEventKind, HotShotEvent, Intent, LeafInfo, Output};
use crate::kv::{has_key, lookup};
use crate::membership::Membership;
use crate::store::{spec_chain, Consensus};
use crate::types::{
    leaf_commitment, null_block_commitment, sign, spec_meets_threshold,
    spec_null_block_commitment, vote_message, vote_message_digest, BlockHeader, CertFormed,
    CommitmentAndMetadata, DaCertificate, Leaf, QuorumCertificate, QuorumProposal, QuorumVote,
    Signature, TimeoutCertificate, TimeoutVote, UpgradeCertificate, Version, VidShare,
    ViewChangeEvidence, ViewSyncFinalizeCertificate, SIGN_KIND_PROPOSAL, VOTE_KIND_QUORUM,
    VOTE_KIND_TIMEOUT,
};

verus! {

/// Why a proposal could not be produced.
#[derive(Clone, Copy, Debug, PartialEq, Eq, Structural)]
pub enum ProposalError {
    /// This node does not lead the target view.
    NotLeader,
    /// Neither a consecutive high QC nor view-change evidence covers the
    /// target view.
    MissingJustification,
    /// No payload commitment with the target block view is on hand.
    MissingPayloadCommitment,
}

/// The state of the consensus task.
pub struct ConsensusTaskState {
    /// This node's public key.
    pub public_key: u64,
    /// This node's private key; in this key model the two coincide.
    pub private_key: u64,
    /// The consensus store.
    pub consensus: Consensus,
    /// View timeout, in milliseconds, from the configuration.
    pub timeout: u64,
    /// Round start delay, in milliseconds, from the configuration.
    pub round_start_delay: u64,
    /// View this replica currently executes in.
    pub cur_view: u64,
    /// The commitment and metadata of the payload submitted to DA, if any.
    pub payload_commitment_and_metadata: Option<CommitmentAndMetadata>,
    /// Membership for quorum votes and certificates.
    pub quorum_membership: Membership,
    /// Membership for timeout votes and certificates.
    pub timeout_membership: Membership,
    /// Membership of the DA committee.
    pub committee_membership: Membership,
    /// The quorum-vote accumulator of the view being led, if any.
    pub vote_collector: Option<VoteAccumulator>,
    /// The timeout-vote accumulator of the view being led, if any.
    pub timeout_vote_collector: Option<VoteAccumulator>,
    /// Views under which a proposal sub-task was already launched.
    pub spawned_proposal_views: Vec<u64>,
    /// The most recent upgrade certificate this node formed.
    pub formed_upgrade_certificate: Option<UpgradeCertificate>,
    /// The latest timeout or view-sync certificate this node holds.
    pub proposal_cert: Option<ViewChangeEvidence>,
    /// The most recently decided upgrade certificate.
    pub decided_upgrade_cert: Option<UpgradeCertificate>,
    /// The protocol version in force.
    pub version: Version,
    /// The proposal under consideration, if it matches the current view.
    pub current_proposal: Option<QuorumProposal>,
    /// The node's id.
    pub id: u64,
    /// Highest view this node sent a quorum vote for.
    pub latest_voted_view: u64,
    /// Highest view this node sent a timeout vote for.
    pub latest_timeout_voted_view: u64,
}

impl ConsensusTaskState {
    /// Well-formedness: the store and the accumulators are well formed, the
    /// memberships are well formed and small enough for threshold
    /// arithmetic, and the key pair is consistent.
    pub open spec fn wf(self) -> bool {
        &&& self.consensus.wf()
        &&& self.quorum_membership.wf()
        &&& self.timeout_membership.wf()
        &&& self.committee_membership.wf()
        &&& self.quorum_membership.spec_total_nodes() <= usize::MAX / 2
        &&& self.timeout_membership.spec_total_nodes() <= usize::MAX / 2
        &&& self.committee_membership.spec_total_nodes() <= usize::MAX / 2
        &&& self.private_key == self.public_key
        &&& match self.vote_collector {
            Some(acc) => acc.wf(),
            None => true,
        }
        &&& match self.timeout_vote_collector {
            Some(acc) => acc.wf(),
            None => true,
        }
    }

    /// Whether this node leads `view` in the quorum membership.
    pub open spec fn spec_is_leader(self, view: u64) -> bool {
        self.quorum_membership.spec_leader(view) == self.public_key
    }

    /// Cancel every sub-task registered under a view below `view`.
    pub fn cancel_tasks(&mut self, view: u64, out: &mut Vec<Output>)
        ensures
            *final(self) == (ConsensusTaskState {
                spawned_proposal_views: final(self).spawned_proposal_views,
                ..*old(self)
            }),
            forall|v: u64|
                final(self).spawned_proposal_views@.contains(v) <==> (
                old(self).spawned_proposal_views@.contains(v) && v >= view),
            final(out)@ == old(out)@.push(Output::CancelTasksBelow(view)),
    {
        let mut kept: Vec<u64> = Vec::new();
        let ghost orig = self.spawned_proposal_views@;
        let mut i: usize = 0;
        while i < self.spawned_proposal_views.len()
            invariant
                orig == old(self).spawned_proposal_views@,
                orig == self.spawned_proposal_views@,
                0 <= i <= orig.len(),
                forall|j: int|
                    0 <= j < kept@.len() ==> (#[trigger] kept@[j]) >= view && orig.contains(
                        kept@[j],
                    ),
                forall|l: int|
                    0 <= l < i && (#[trigger] orig[l]) >= view ==> kept@.contains(orig[l]),
            decreases orig.len() - i,
        {
            let v = self.spawned_proposal_views[i];
            if v >= view {
                let ghost pre = kept@;
                kept.push(v);
                proof {
                    assert(kept@[kept@.len() - 1] == v);
                    assert(kept@.contains(v));
                    assert forall|l: int|
                        0 <= l < i + 1 && (#[trigger] orig[l]) >= view implies kept@.contains(
                        orig[l],
                    ) by {
                        if l < i {
                            let j = choose|j: int| 0 <= j < pre.len() && pre[j] == orig[l];
                            assert(kept@[j] == orig[l]);
                        }
                    }
                }
            }
            i = i + 1;
        }
        self.spawned_proposal_views = kept;
        out.push(Output::CancelTasksBelow(view));
        proof {
            assert forall|v: u64|
                self.spawned_proposal_views@.contains(v) implies (
            old(self).spawned_proposal_views@.contains(v) && v >= view) by {
                let j = choose|j: int|
                    0 <= j < self.spawned_proposal_views@.len()
                        && self.spawned_proposal_views@[j] == v;
            }
        }
    }

    /// Whether a VID share's dispersal signature is acceptable: signed by
    /// the leader of its view, by this node itself, or by a member of the
    /// DA committee.
    pub open spec fn spec_validate_disperse(self, d: VidShare) -> bool {
        ||| d.signature.spec_validates(
            self.quorum_membership.spec_leader(d.view_number),
            d.payload_commitment,
        )
        ||| d.signature.spec_validates(self.public_key, d.payload_commitment)
        ||| (self.committee_membership.spec_has_stake(d.signature.signer)
            && d.signature.message == d.payload_commitment)
    }

    /// Check a VID share's dispersal signature.
    pub fn validate_disperse(&self, disperse: &VidShare) -> (r: bool)
        requires
            self.wf(),
        ensures
            r == self.spec_validate_disperse(*disperse),
    {
        let leader = self.quorum_membership.get_leader(disperse.view_number);
        if disperse.signature.validates(leader, disperse.payload_commitment) {
            return true;
        }
        if disperse.signature.validates(self.public_key, disperse.payload_commitment) {
            return true;
        }
        let committee = self.committee_membership.get_staked_committee();
        let mut i: usize = 0;
        while i < committee.len()
            invariant
                committee == &self.committee_membership.committee,
                0 <= i <= committee@.len(),
                forall|j: int|
                    0 <= j < i ==> !disperse.signature.spec_validates(
                        #[trigger] committee@[j],
                        disperse.payload_commitment,
                    ),
            decreases committee@.len() - i,
        {
            if disperse.signature.validates(committee[i], disperse.payload_commitment) {
                return true;
            }
            i = i + 1;
        }
        false
    }

    /// Advance the current view. Does nothing for a view at or below the
    /// current one; otherwise cancels the running view timer, starts the
    /// polls of the new view, arms the new timer, and announces the view
    /// change on the event bus.
    pub fn update_view(&mut self, new_view: u64, out: &mut Vec<Output>) -> (changed: bool)
        ensures
            changed == (new_view > old(self).cur_view),
            !changed ==> *final(self) == *old(self) && final(out)@ == old(out)@,
            changed ==> *final(self) == (ConsensusTaskState {
                cur_view: new_view,
                ..*old(self)
            }),
            changed ==> final(out)@ == old(out)@ + seq![
                Output::CancelTimeout,
                Output::Network(Intent::PollForProposal(new_view)),
                Output::Network(Intent::PollForVotes(new_view)),
                Output::Network(Intent::PollForVidDisperse(new_view)),
                Output::Network(Intent::PollForDac(new_view)),
                Output::ArmTimeout(new_view),
                Output::ViewChangeSend(new_view),
            ],
    {
        if new_view <= self.cur_view {
            return false;
        }
        self.cur_view = new_view;
        out.push(Output::CancelTimeout);
        out.push(Output::Network(Intent::PollForProposal(new_view)));
        out.push(Output::Network(Intent::PollForVotes(new_view)));
        out.push(Output::Network(Intent::PollForVidDisperse(new_view)));
        out.push(Output::Network(Intent::PollForDac(new_view)));
        out.push(Output::ArmTimeout(new_view));
        out.push(Output::ViewChangeSend(new_view));
        proof {
            assert(out@ =~= old(out)@ + seq![
                Output::CancelTimeout,
                Output::Network(Intent::PollForProposal(new_view)),
                Output::Network(Intent::PollForVotes(new_view)),
                Output::Network(Intent::PollForVidDisperse(new_view)),
                Output::Network(Intent::PollForDac(new_view)),
                Output::ArmTimeout(new_view),
                Output::ViewChangeSend(new_view),
            ]);
        }
        true
    }

    /// Whether the current view falls in the interim of the decided upgrade
    /// certificate.
    pub open spec fn spec_in_interim_view(self, view: u64) -> bool {
        match self.decided_upgrade_cert {
            Some(uc) => uc.spec_in_interim(view),
            None => false,
        }
    }

    /// All the conditions under which the replica votes on the current
    /// proposal: it is staked, a proposal is current, the proposal's view
    /// has VID shares including the node's own, the null block is honoured
    /// in an upgrade interim, a valid DA certificate matches the proposed
    /// payload, the proposal's parent is saved and matches its parent
    /// commitment, and the node has not voted at this view before.
    pub open spec fn spec_vote_conditions(self) -> bool {
        match self.current_proposal {
            None => false,
            Some(p) => {
                &&& self.quorum_membership.spec_has_stake(self.public_key)
                &&& has_key(self.consensus.vid_shares@, p.view_number)
                &&& (self.spec_in_interim_view(self.cur_view)
                    ==> p.block_header.payload_commitment == spec_null_block_commitment(
                    self.quorum_membership.committee@.len() as usize,
                ))
                &&& has_key(self.consensus.saved_da_certs@, p.view_number)
                &&& spec_meets_threshold(
                    lookup(self.consensus.saved_da_certs@, p.view_number).signer_count,
                    self.committee_membership,
                )
                &&& lookup(self.consensus.saved_da_certs@, p.view_number).payload_commit
                    == p.block_header.payload_commitment
                &&& has_key(self.consensus.saved_leaves@, p.justify_qc.leaf_commit)
                &&& leaf_commitment(lookup(self.consensus.saved_leaves@, p.justify_qc.leaf_commit))
                    == p.justify_qc.leaf_commit
                &&& has_key(
                    lookup(self.consensus.vid_shares@, p.view_number)@,
                    self.public_key,
                )
                &&& p.view_number > self.latest_voted_view
            },
        }
    }

    /// Check whether the replica can vote on the current proposal and, if
    /// so, persist the node's own VID share and broadcast the quorum vote.
    pub fn vote_if_able(&mut self, out: &mut Vec<Output>) -> (voted: bool)
        requires
            old(self).wf(),
        ensures
            final(self).wf(),
            voted == old(self).spec_vote_conditions(),
            !voted ==> *final(self) == *old(self) && final(out)@ == old(out)@,
            voted ==> match old(self).current_proposal {
                Some(p) => {
                    let commit = leaf_commitment(Leaf::spec_from_quorum_proposal(p));
                    &&& *final(self) == (ConsensusTaskState {
                        latest_voted_view: p.view_number,
                        ..*old(self)
                    })
                    &&& final(out)@ == old(out)@ + seq![
                        Output::StorageAppendVid(
                            lookup(
                                lookup(old(self).consensus.vid_shares@, p.view_number)@,
                                old(self).public_key,
                            ),
                        ),
                        Output::QuorumVoteSend(
                            QuorumVote {
                                signer: old(self).private_key,
                                view: p.view_number,
                                leaf_commit: commit,
                                signature: Signature {
                                    signer: old(self).private_key,
                                    message: vote_message(VOTE_KIND_QUORUM, commit, p.view_number),
                                },
                            },
                        ),
                    ]
                },
                None => false,
            },
    {
        if !self.quorum_membership.has_stake(self.public_key) {
            return false;
        }
        let p = match &self.current_proposal {
            None => {
                return false;
            },
            Some(p) => *p,
        };
        if !self.consensus.has_vid_shares(p.view_number) {
            return false;
        }
        if let Some(uc) = &self.decided_upgrade_cert {
            if uc.in_interim(self.cur_view) {
                let null_commit = null_block_commitment(self.quorum_membership.total_nodes());
                if p.block_header.payload_commitment != null_commit {
                    return false;
                }
            }
        }
        let cert = match self.consensus.get_da_cert(p.view_number) {
            None => {
                return false;
            },
            Some(c) => *c,
        };
        let parent = match self.consensus.get_leaf(p.justify_qc.leaf_commit) {
            None => {
                return false;
            },
            Some(l) => *l,
        };
        let proposed_leaf = Leaf::from_quorum_proposal(&p);
        if proposed_leaf.parent_commitment != parent.commit() {
            return false;
        }
        if !cert.is_valid_cert(&self.committee_membership) {
            return false;
        }
        if cert.payload_commit != p.block_header.payload_commitment {
            return false;
        }
        let share = match self.consensus.get_vid_share(p.view_number, self.public_key) {
            None => {
                return false;
            },
            Some(s) => *s,
        };
        if p.view_number <= self.latest_voted_view {
            return false;
        }
        let vote = QuorumVote::create_signed(
            self.private_key,
            p.view_number,
            proposed_leaf.commit(),
        );
        self.latest_voted_view = p.view_number;
        out.push(Output::StorageAppendVid(share));
        out.push(Output::QuorumVoteSend(vote));
        proof {
            assert(out@ =~= old(out)@ + seq![
                Output::StorageAppendVid(share),
                Output::QuorumVoteSend(vote),
            ]);
        }
        true
    }

    /// Whether the high QC alone justifies a proposal at `view`: it
    /// certifies the directly preceding view.
    pub open spec fn spec_qc_justifies(self, view: u64) -> bool {
        self.consensus.high_qc.view + 1 == view
    }

    /// Whether the held view-change evidence justifies a proposal at
    /// `view`: a valid timeout certificate for the preceding view, or a
    /// valid view-sync finalize certificate for `view` itself.
    pub open spec fn spec_evidence_justifies(self, view: u64) -> bool {
        match self.proposal_cert {
            Some(ViewChangeEvidence::Timeout(tc)) => tc.view + 1 == view && spec_meets_threshold(
                tc.signer_count,
                self.timeout_membership,
            ),
            Some(ViewChangeEvidence::ViewSync(vsc)) => vsc.view == view && spec_meets_threshold(
                vsc.signer_count,
                self.quorum_membership,
            ),
            None => false,
        }
    }

    /// Whether a payload commitment for block view `view` is on hand.
    pub open spec fn spec_payload_ready(self, view: u64) -> bool {
        match self.payload_commitment_and_metadata {
            Some(cam) => cam.block_view == view,
            None => false,
        }
    }

    /// The proposal this node builds for `view` from a payload commitment:
    /// the null-block commitment replaces the payload commitment in an
    /// upgrade interim, the high QC justifies the proposal, the formed
    /// upgrade certificate is embedded while its decide-by window is open,
    /// and view-change evidence is attached when the high QC is not the
    /// justification.
    pub open spec fn spec_built_proposal(self, view: u64, cam: CommitmentAndMetadata)
        -> QuorumProposal {
        QuorumProposal {
            block_header: BlockHeader {
                payload_commitment: if self.spec_in_interim_view(view) {
                    spec_null_block_commitment(self.quorum_membership.committee@.len() as usize)
                } else {
                    cam.commitment
                },
                builder_commitment: cam.builder_commitment,
                metadata: cam.metadata,
                block_number: view,
            },
            view_number: view,
            justify_qc: self.consensus.high_qc,
            upgrade_certificate: match self.formed_upgrade_certificate {
                Some(uc) => if uc.data.decide_by >= view {
                    Some(uc)
                } else {
                    None
                },
                None => None,
            },
            view_change_evidence: if self.spec_qc_justifies(view) {
                None
            } else {
                self.proposal_cert
            },
        }
    }

    /// Launch the proposal of `view`, once per view: when this node leads
    /// `view`, holds a justification (consecutive high QC or view-change
    /// evidence) and a payload commitment for it, sign and broadcast the
    /// proposal, consuming the payload commitment and the evidence. A view
    /// already launched is left alone.
    pub fn publish_proposal(&mut self, view: u64, out: &mut Vec<Output>) -> (r: Result<
        (),
        ProposalError,
    >)
        requires
            old(self).wf(),
        ensures
            final(self).wf(),
            ({
                let registered = old(self).spawned_proposal_views@.contains(view);
                let leader = old(self).spec_is_leader(view);
                let justified = old(self).spec_qc_justifies(view) || old(self).spec_evidence_justifies(view);
                let ready = old(self).spec_payload_ready(view);
                &&& (registered ==> *final(self) == *old(self) && final(out)@ == old(out)@ && r
                    == Ok::<(), ProposalError>(()))
                &&& (!registered && !leader ==> *final(self) == *old(self) && final(out)@ == old(out)@ && r == Err::<(), ProposalError>(ProposalError::NotLeader))
                &&& (!registered && leader && !justified ==> *final(self) == *old(self) && final(out)@ == old(out)@ && r == Err::<(), ProposalError>(ProposalError::MissingJustification))
                &&& (!registered && leader && justified && !ready ==> *final(self) == *old(self)
                    && final(out)@ == old(out)@ && r == Err::<(), ProposalError>(
                    ProposalError::MissingPayloadCommitment,
                ))
                &&& (!registered && leader && justified && ready ==> match old(self).payload_commitment_and_metadata {
                    Some(cam) => {
                        let p = old(self).spec_built_proposal(view, cam);
                        let commit = leaf_commitment(Leaf::spec_from_quorum_proposal(p));
                        &&& r == Ok::<(), ProposalError>(())
                        &&& *final(self) == (ConsensusTaskState {
                            spawned_proposal_views: final(self).spawned_proposal_views,
                            payload_commitment_and_metadata: None,
                            proposal_cert: None,
                            ..*old(self)
                        })
                        &&& final(self).spawned_proposal_views@ == old(self).spawned_proposal_views@.push(view)
                        &&& final(out)@ == old(out)@.push(
                            Output::QuorumProposalSend(
                                p,
                                Signature {
                                    signer: old(self).private_key,
                                    message: vote_message(SIGN_KIND_PROPOSAL, commit, view),
                                },
                            ),
                        )
                    },
                    None => false,
                })
            }),
    {
        let mut i: usize = 0;
        while i < self.spawned_proposal_views.len()
            invariant
                *self == *old(self),
                self.wf(),
                0 <= i <= self.spawned_proposal_views@.len(),
                forall|j: int| 0 <= j < i ==> self.spawned_proposal_views@[j] != view,
            decreases self.spawned_proposal_views@.len() - i,
        {
            if self.spawned_proposal_views[i] == view {
                return Ok(());
            }
            i = i + 1;
        }
        if self.quorum_membership.get_leader(view) != self.public_key {
            return Err(ProposalError::NotLeader);
        }
        let qc_justifies = view > 0 && self.consensus.high_qc.view == view - 1;
        let evidence_justifies = match &self.proposal_cert {
            Some(ViewChangeEvidence::Timeout(tc)) => view > 0 && tc.view == view - 1
                && tc.is_valid_cert(&self.timeout_membership),
            Some(ViewChangeEvidence::ViewSync(vsc)) => vsc.view == view && vsc.is_valid_cert(
                &self.quorum_membership,
            ),
            None => false,
        };
        if !qc_justifies && !evidence_justifies {
            return Err(ProposalError::MissingJustification);
        }
        let cam = match &self.payload_commitment_and_metadata {
            Some(c) => *c,
            None => {
                return Err(ProposalError::MissingPayloadCommitment);
            },
        };
        if cam.block_view != view {
            return Err(ProposalError::MissingPayloadCommitment);
        }
        let in_interim = match &self.decided_upgrade_cert {
            Some(uc) => uc.in_interim(view),
            None => false,
        };
        let payload_commitment = if in_interim {
            null_block_commitment(self.quorum_membership.total_nodes())
        } else {
            cam.commitment
        };
        let upgrade_certificate = match &self.formed_upgrade_certificate {
            Some(uc) => if uc.data.decide_by >= view {
                Some(*uc)
            } else {
                None
            },
            None => None,
        };
        let view_change_evidence = if qc_justifies {
            None
        } else {
            self.proposal_cert
        };
        let proposal = QuorumProposal {
            block_header: BlockHeader {
                payload_commitment,
                builder_commitment: cam.builder_commitment,
                metadata: cam.metadata,
                block_number: view,
            },
            view_number: view,
            justify_qc: self.consensus.high_qc,
            upgrade_certificate,
            view_change_evidence,
        };
        let leaf = Leaf::from_quorum_proposal(&proposal);
        let message = vote_message_digest(SIGN_KIND_PROPOSAL, leaf.commit(), view);
        let signature = sign(self.private_key, message);
        self.spawned_proposal_views.push(view);
        self.payload_commitment_and_metadata = None;
        self.proposal_cert = None;
        out.push(Output::QuorumProposalSend(proposal, signature));
        Ok(())
    }

    /// The conditions under which a `Timeout(view)` fires a timeout vote:
    /// the view has not been left behind, the node is staked for timeouts,
    /// and it has not timeout-voted at this view before.
    pub open spec fn spec_timeout_acts(self, view: u64) -> bool {
        &&& self.cur_view <= view
        &&& self.timeout_membership.spec_has_stake(self.public_key)
        &&& view > self.latest_timeout_voted_view
    }

    /// Handle the firing of the view timer: cancel the vote and proposal
    /// polls of the view, sign and broadcast a timeout vote, report the
    /// timeout on the application stream, and count it.
    pub fn handle_timeout(&mut self, view: u64, out: &mut Vec<Output>)
        requires
            old(self).wf(),
        ensures
            final(self).wf(),
            spec_timeout_post(*old(self), view, *final(self), old(out)@, final(out)@),
    {
        if self.cur_view > view {
            return ;
        }
        if !self.timeout_membership.has_stake(self.public_key) {
            return ;
        }
        if view <= self.latest_timeout_voted_view {
            return ;
        }
        out.push(Output::Network(Intent::CancelPollForVotes(view)));
        out.push(Output::Network(Intent::CancelPollForProposal(view)));
        let vote = TimeoutVote::create_signed(self.private_key, view);
        out.push(Output::TimeoutVoteSend(vote));
        out.push(
            Output::AppEvent(
                AppEvent { view_number: view, event: AppEventKind::ViewTimeout { view_number: view } },
            ),
        );
        out.push(
            Output::AppEvent(
                AppEvent {
                    view_number: view,
                    event: AppEventKind::ReplicaViewTimeout { view_number: view },
                },
            ),
        );
        let count = self.consensus.metrics.number_of_timeouts;
        self.consensus.metrics.number_of_timeouts = if count == u64::MAX {
            u64::MAX
        } else {
            count + 1
        };
        self.latest_timeout_voted_view = view;
        proof {
            assert(out@ =~= old(out)@ + seq![
                Output::Network(Intent::CancelPollForVotes(view)),
                Output::Network(Intent::CancelPollForProposal(view)),
                Output::TimeoutVoteSend(
                    TimeoutVote {
                        signer: old(self).private_key,
                        view,
                        signature: Signature {
                            signer: old(self).private_key,
                            message: vote_message(VOTE_KIND_TIMEOUT, view, view),
                        },
                    },
                ),
                Output::AppEvent(
                    AppEvent {
                        view_number: view,
                        event: AppEventKind::ViewTimeout { view_number: view },
                    },
                ),
                Output::AppEvent(
                    AppEvent {
                        view_number: view,
                        event: AppEventKind::ReplicaViewTimeout { view_number: view },
                    },
                ),
            ]);
        }
    }

    /// The version in force after a change to `new_view`: the decided
    /// upgrade certificate's new version when its first view is reached.
    pub open spec fn spec_version_after_change(self, new_view: u64) -> Version {
        match self.decided_upgrade_cert {
            Some(uc) => if uc.data.new_version_first_view == new_view {
                uc.data.new_version
            } else {
                self.version
            },
            None => self.version,
        }
    }

    /// The payload commitment kept after a change to `new_view`: one whose
    /// block view fell behind is dropped.
    pub open spec fn spec_cam_after_change(self, new_view: u64) -> Option<CommitmentAndMetadata> {
        match self.payload_commitment_and_metadata {
            Some(cam) => if cam.block_view < new_view {
                None
            } else {
                Some(cam)
            },
            None => None,
        }
    }

    /// Handle a `ViewChange(new_view)` event: advance the view through
    /// [`Self::update_view`]; when it advances, swap the protocol version if
    /// the decided upgrade certificate says so, drop a stale payload
    /// commitment, and report the finished view on the application stream.
    pub fn handle_view_change(&mut self, new_view: u64, out: &mut Vec<Output>)
        requires
            old(self).wf(),
        ensures
            final(self).wf(),
            spec_view_change_post(*old(self), new_view, *final(self), old(out)@, final(out)@),
    {
        let old_view = self.cur_view;
        let changed = self.update_view(new_view, out);
        if !changed {
            return ;
        }
        if let Some(uc) = &self.decided_upgrade_cert {
            if uc.data.new_version_first_view == new_view {
                self.version = uc.data.new_version;
                out.push(Output::VersionUpgrade(self.version));
            }
        }
        if let Some(cam) = &self.payload_commitment_and_metadata {
            if cam.block_view < new_view {
                self.payload_commitment_and_metadata = None;
            }
        }
        out.push(
            Output::AppEvent(
                AppEvent {
                    view_number: old_view,
                    event: AppEventKind::ViewFinished { view_number: old_view },
                },
            ),
        );
    }

    /// Handle a quorum vote from the network: only the leader of the next
    /// view collects it, into a fresh accumulator when none is running or
    /// the vote is for a later view; a completed certificate goes back onto
    /// the event bus and closes the collector slot.
    pub fn handle_quorum_vote_recv(&mut self, vote: QuorumVote, out: &mut Vec<Output>)
        requires
            old(self).wf(),
        ensures
            final(self).wf(),
            spec_quorum_vote_post(*old(self), vote, *final(self), old(out)@, final(out)@),
    {
        if vote.view == u64::MAX {
            return ;
        }
        if self.quorum_membership.get_leader(vote.view + 1) != self.public_key {
            return ;
        }
        let signed = vote.is_signed();
        let fresh = match &self.vote_collector {
            None => true,
            Some(c) => vote.view > c.view,
        };
        if fresh {
            let mut acc = VoteAccumulator::create(vote.view, &self.quorum_membership);
            let completed = acc.accumulate(
                &self.quorum_membership,
                vote.signer,
                vote.view,
                vote.leaf_commit,
                signed,
            );
            if completed {
                out.push(
                    Output::QcFormedSend(
                        CertFormed::Quorum(
                            QuorumCertificate {
                                leaf_commit: vote.leaf_commit,
                                view: vote.view,
                                signer_count: acc.threshold,
                            },
                        ),
                    ),
                );
                self.vote_collector = None;
            } else {
                self.vote_collector = Some(acc);
            }
        } else {
            let (completed, threshold) = match &mut self.vote_collector {
                Some(acc) => {
                    let completed = acc.accumulate(
                        &self.quorum_membership,
                        vote.signer,
                        vote.view,
                        vote.leaf_commit,
                        signed,
                    );
                    (completed, acc.threshold)
                },
                None => (false, 0),
            };
            if completed {
                out.push(
                    Output::QcFormedSend(
                        CertFormed::Quorum(
                            QuorumCertificate {
                                leaf_commit: vote.leaf_commit,
                                view: vote.view,
                                signer_count: threshold,
                            },
                        ),
                    ),
                );
                self.vote_collector = None;
            }
        }
    }

    /// Handle a timeout vote from the network: as
    /// [`Self::handle_quorum_vote_recv`], with the timeout membership
    /// choosing the leader and a timeout certificate as the product.
    pub fn handle_timeout_vote_recv(&mut self, vote: TimeoutVote, out: &mut Vec<Output>)
        requires
            old(self).wf(),
        ensures
            final(self).wf(),
            spec_timeout_vote_post(*old(self), vote, *final(self), old(out)@, final(out)@),
    {
        if vote.view == u64::MAX {
            return ;
        }
        if self.timeout_membership.get_leader(vote.view + 1) != self.public_key {
            return ;
        }
        let signed = vote.is_signed();
        let fresh = match &self.timeout_vote_collector {
            None => true,
            Some(c) => vote.view > c.view,
        };
        if fresh {
            let mut acc = VoteAccumulator::create(vote.view, &self.quorum_membership);
            let completed = acc.accumulate(
                &self.quorum_membership,
                vote.signer,
                vote.view,
                vote.view,
                signed,
            );
            if completed {
                out.push(
                    Output::QcFormedSend(
                        CertFormed::Timeout(
                            TimeoutCertificate { view: vote.view, signer_count: acc.threshold },
                        ),
                    ),
                );
                self.timeout_vote_collector = None;
            } else {
                self.timeout_vote_collector = Some(acc);
            }
        } else {
            let (completed, threshold) = match &mut self.timeout_vote_collector {
                Some(acc) => {
                    let completed = acc.accumulate(
                        &self.quorum_membership,
                        vote.signer,
                        vote.view,
                        vote.view,
                        signed,
                    );
                    (completed, acc.threshold)
                },
                None => (false, 0),
            };
            if completed {
                out.push(
                    Output::QcFormedSend(
                        CertFormed::Timeout(
                            TimeoutCertificate { view: vote.view, signer_count: threshold },
                        ),
                    ),
                );
                self.timeout_vote_collector = None;
            }
        }
    }

    /// Handle an upgrade certificate this node formed: adopt it for future
    /// proposals only while a decide can still happen before its deadline.
    pub fn handle_upgrade_certificate_formed(&mut self, cert: UpgradeCertificate)
        ensures
            spec_upgrade_formed_post(*old(self), cert, *final(self)),
    {
        if cert.data.decide_by >= self.cur_view && cert.data.decide_by - self.cur_view >= 3 {
            self.formed_upgrade_certificate = Some(cert);
        }
    }

    /// Whether a call to [`Self::publish_proposal`] from this state would
    /// send a proposal for `view`.
    pub open spec fn spec_publishes(self, view: u64) -> bool {
        &&& !self.spawned_proposal_views@.contains(view)
        &&& self.spec_is_leader(view)
        &&& (self.spec_qc_justifies(view) || self.spec_evidence_justifies(view))
        &&& self.spec_payload_ready(view)
    }

    /// The broadcast a successful [`Self::publish_proposal`] emits.
    pub open spec fn spec_publish_output(self, view: u64) -> Output
        recommends
            self.spec_payload_ready(view),
    {
        match self.payload_commitment_and_metadata {
            Some(cam) => {
                let p = self.spec_built_proposal(view, cam);
                Output::QuorumProposalSend(
                    p,
                    Signature {
                        signer: self.private_key,
                        message: vote_message(
                            SIGN_KIND_PROPOSAL,
                            leaf_commitment(Leaf::spec_from_quorum_proposal(p)),
                            view,
                        ),
                    },
                )
            },
            // unreachable under the recommends: a placeholder value only
            None => Output::CancelTimeout,
        }
    }

    /// Handle a certificate completed by one of this node's accumulators: a
    /// quorum QC raises (never lowers) the high QC and is persisted; a
    /// timeout QC becomes the held view-change evidence. Either way the vote
    /// poll of its view is cancelled and the proposal of the following view
    /// is attempted.
    pub fn handle_qc_formed(&mut self, cert: CertFormed, out: &mut Vec<Output>)
        requires
            old(self).wf(),
        ensures
            final(self).wf(),
            spec_qc_formed_post(*old(self), cert, *final(self), old(out)@, final(out)@),
    {
        match cert {
            CertFormed::Quorum(qc) => {
                if qc.view > self.consensus.high_qc.view {
                    out.push(Output::StorageUpdateHighQc(qc));
                    self.consensus.high_qc = qc;
                }
                out.push(Output::Network(Intent::CancelPollForVotes(qc.view)));
                if qc.view < u64::MAX {
                    let _ = self.publish_proposal(qc.view + 1, out);
                }
            },
            CertFormed::Timeout(tc) => {
                self.proposal_cert = Some(ViewChangeEvidence::Timeout(tc));
                out.push(Output::Network(Intent::CancelPollForVotes(tc.view)));
                if tc.view < u64::MAX {
                    let _ = self.publish_proposal(tc.view + 1, out);
                }
            },
        }
    }

    /// Handle a DA certificate from the DA committee: stop the polls it
    /// settles, save it, and vote if it was the missing piece.
    pub fn handle_da_certificate_recv(&mut self, cert: DaCertificate, out: &mut Vec<Output>)
        requires
            old(self).wf(),
        ensures
            final(self).wf(),
            spec_da_cert_post(*old(self), cert, *final(self), old(out)@, final(out)@),
    {
        out.push(Output::Network(Intent::CancelPollForDac(cert.view)));
        out.push(Output::Network(Intent::CancelPollForVotes(cert.view)));
        self.consensus.insert_da_cert(cert);
        if self.vote_if_able(out) {
            self.current_proposal = None;
        }
    }

    /// Handle a VID share from the network: drop one that is more than one
    /// view old or wrongly signed; save it; when it is addressed to this
    /// node, stop the dispersal poll and vote if it was the missing piece.
    pub fn handle_vid_share_recv(&mut self, share: VidShare, out: &mut Vec<Output>)
        requires
            old(self).wf(),
        ensures
            final(self).wf(),
            spec_vid_share_post(*old(self), share, *final(self), old(out)@, final(out)@),
    {
        if share.view_number < self.cur_view && self.cur_view - share.view_number > 1 {
            return ;
        }
        if !self.validate_disperse(&share) {
            return ;
        }
        let recipient = share.recipient_key;
        let view = share.view_number;
        self.consensus.insert_vid_share(share);
        if recipient != self.public_key {
            return ;
        }
        out.push(Output::Network(Intent::CancelPollForVidDisperse(view)));
        if self.vote_if_able(out) {
            self.current_proposal = None;
        }
    }

    /// Handle the payload commitment and metadata from the builder: keep it
    /// for proposing, and attempt the proposal of its view when this node
    /// leads it off the consecutive high QC or off held view-change
    /// evidence.
    pub fn handle_send_payload(
        &mut self,
        payload_commitment: u64,
        builder_commitment: u64,
        metadata: u64,
        view: u64,
        fee: u64,
        out: &mut Vec<Output>,
    )
        requires
            old(self).wf(),
        ensures
            final(self).wf(),
            spec_send_payload_post(*old(self), payload_commitment, builder_commitment, metadata, view, fee, *final(self), old(out)@, final(out)@),
    {
        self.payload_commitment_and_metadata = Some(
            CommitmentAndMetadata {
                commitment: payload_commitment,
                builder_commitment,
                metadata,
                fee,
                block_view: view,
            },
        );
        if self.quorum_membership.get_leader(view) == self.public_key && view > 0
            && self.consensus.high_qc.view == view - 1 {
            let _ = self.publish_proposal(view, out);
        }
        let fire2 = match &self.proposal_cert {
            Some(ViewChangeEvidence::Timeout(tc)) => tc.view < u64::MAX
                && self.quorum_membership.get_leader(tc.view + 1) == self.public_key,
            Some(ViewChangeEvidence::ViewSync(vsc)) => self.quorum_membership.get_leader(vsc.view)
                == self.public_key,
            None => false,
        };
        if fire2 {
            let _ = self.publish_proposal(view, out);
        }
    }

    /// Handle a view-sync finalize certificate: verify it against the
    /// quorum membership, hold it as view-change evidence, stop the vote
    /// poll it supersedes, and attempt the proposal of its view when this
    /// node leads it.
    pub fn handle_view_sync_cert(
        &mut self,
        cert: ViewSyncFinalizeCertificate,
        out: &mut Vec<Output>,
    )
        requires
            old(self).wf(),
        ensures
            final(self).wf(),
            spec_view_sync_post(*old(self), cert, *final(self), old(out)@, final(out)@),
    {
        if !cert.is_valid_cert(&self.quorum_membership) {
            return ;
        }
        self.proposal_cert = Some(ViewChangeEvidence::ViewSync(cert));
        if cert.view > 0 {
            out.push(Output::Network(Intent::CancelPollForVotes(cert.view - 1)));
        }
        if self.quorum_membership.get_leader(cert.view) == self.public_key {
            let _ = self.publish_proposal(cert.view, out);
        }
    }

    /// Whether a proposal from the network is acceptable: sent and signed
    /// by the leader of its view, with a justify QC that meets the quorum
    /// threshold.
    pub open spec fn spec_proposal_recv_valid(
        self,
        p: QuorumProposal,
        sig: Signature,
        sender: u64,
    ) -> bool {
        &&& sender == self.quorum_membership.spec_leader(p.view_number)
        &&& sig.spec_validates(
            sender,
            vote_message(
                SIGN_KIND_PROPOSAL,
                leaf_commitment(Leaf::spec_from_quorum_proposal(p)),
                p.view_number,
            ),
        )
        &&& spec_meets_threshold(p.justify_qc.signer_count, self.quorum_membership)
    }

    /// Handle a proposal from the network: validate it, raise (never lower)
    /// the high QC from its justify QC, save the proposed leaf, adopt the
    /// proposal as current, and vote if able.
    pub fn handle_proposal_recv(
        &mut self,
        p: QuorumProposal,
        sig: Signature,
        sender: u64,
        out: &mut Vec<Output>,
    )
        requires
            old(self).wf(),
        ensures
            final(self).wf(),
            spec_proposal_recv_post(*old(self), p, sig, sender, *final(self), old(out)@, final(out)@),
    {
        if sender != self.quorum_membership.get_leader(p.view_number) {
            return ;
        }
        let leaf = Leaf::from_quorum_proposal(&p);
        let message = vote_message_digest(SIGN_KIND_PROPOSAL, leaf.commit(), p.view_number);
        if !sig.validates(sender, message) {
            return ;
        }
        if !p.justify_qc.is_valid_cert(&self.quorum_membership) {
            return ;
        }
        if p.justify_qc.view > self.consensus.high_qc.view {
            self.consensus.high_qc = p.justify_qc;
            out.push(Output::StorageUpdateHighQc(p.justify_qc));
        }
        self.consensus.insert_leaf(leaf);
        self.current_proposal = Some(p);
        if self.vote_if_able(out) {
            self.current_proposal = None;
        }
    }


    /// Fold a payload's transaction commitments into the running list,
    /// skipping duplicates.
    fn dedup_extend_vec(txns: &mut Vec<u64>, pl: &Vec<u64>)
        ensures
            final(txns)@ == spec_dedup_extend(old(txns)@, pl@),
    {
        let ghost pre_t = txns@;
        let mut k: usize = 0;
        while k < pl.len()
            invariant
                0 <= k <= pl@.len(),
                txns@ == spec_dedup_extend(pre_t, pl@.subrange(0, k as int)),
            decreases pl@.len() - k,
        {
            let ghost before = txns@;
            let t = pl[k];
            let mut found = false;
            let mut m: usize = 0;
            while m < txns.len()
                invariant
                    txns@ == before,
                    0 <= m <= txns@.len(),
                    found == exists|q: int| 0 <= q < m && txns@[q] == t,
                decreases txns@.len() - m,
            {
                if txns[m] == t {
                    found = true;
                }
                m = m + 1;
            }
            if !found {
                txns.push(t);
            }
            proof {
                assert(found == before.contains(t));
                assert(txns@ == spec_dedup_push(before, t));
                assert(pl@.subrange(0, k as int + 1) =~= pl@.subrange(0, k as int).push(t));
                lemma_dedup_extend_push(pre_t, pl@.subrange(0, k as int), t);
            }
            k = k + 1;
        }
        proof {
            assert(pl@.subrange(0, pl@.len() as int) =~= pl@);
        }
    }


    /// Process a walked ancestor chain for a proposal at view `v` justified
    /// by `justify`: count the consecutive links, fixing the two-chain lock
    /// at the first and the three-chain anchor at the second, and from the
    /// anchor on gather the decided leaves with their payloads, own VID
    /// shares, transaction commitments and embedded upgrade certificates.
    fn process_validated_chain(
        consensus: &Consensus,
        chain: &Vec<Leaf>,
        v: u64,
        justify: QuorumCertificate,
        pk: u64,
        duc0: Option<UpgradeCertificate>,
    ) -> (s: ChainSummary)
        requires
            consensus.wf(),
        ensures
            ({
                let c = chain@;
                let commit_r = c.len() >= 2 && c[0].view_number + 1 == v && c[1].view_number + 2
                    == v;
                let decide_r = commit_r && c.len() >= 3 && c[2].view_number + 3 == v;
                let dec_leaves = if decide_r {
                    c.subrange(2, c.len() as int)
                } else {
                    Seq::<Leaf>::empty()
                };
                &&& s.commit_reached == commit_r
                &&& s.decide_reached == decide_r
                &&& s.new_locked_view == (if commit_r {
                    c[1].view_number
                } else {
                    consensus.locked_view
                })
                &&& s.new_anchor_view == (if decide_r {
                    c[2].view_number
                } else {
                    consensus.last_decided_view
                })
                &&& s.decide_qc == (if commit_r {
                    c[1].justify_qc
                } else {
                    justify
                })
                &&& s.leaves_decided@ == dec_leaves
                &&& s.leaf_views@.len() == dec_leaves.len()
                &&& (forall|j: int|
                    0 <= j < s.leaf_views@.len() ==> spec_leaf_info_matches(
                        #[trigger] s.leaf_views@[j],
                        dec_leaves[j],
                        consensus.saved_payloads@,
                        consensus.vid_shares@,
                        pk,
                    ))
                &&& s.txns@ == spec_txn_fold(Seq::empty(), consensus.saved_payloads@, dec_leaves)
                &&& s.duc == spec_upgrade_fold(duc0, dec_leaves, v)
            }),
    {
        let ghost c = chain@;
        let mut commit_reached = false;
        let mut decide_reached = false;
        let mut stopped = false;
        let mut new_locked_view = consensus.locked_view;
        let mut new_anchor_view = consensus.last_decided_view;
        let mut decide_qc = justify;
        let mut last_view = v;
        let mut leaf_views: Vec<LeafInfo> = Vec::new();
        let mut leaves_decided: Vec<Leaf> = Vec::new();
        let mut txns: Vec<u64> = Vec::new();
        let mut duc = duc0;
        let mut i: usize = 0;
        while i < chain.len() && !stopped
            invariant
                consensus.wf(),
                chain@ == c,
                0 <= i <= c.len(),
                stopped ==> (i == 1 && !(c[0].view_number + 1 == v)) || (i == 2
                    && c[0].view_number + 1 == v && !(c[1].view_number + 2 == v)) || (i == 3
                    && c[0].view_number + 1 == v && c[1].view_number + 2 == v && !(
                c[2].view_number + 3 == v)),
                !stopped && i >= 1 ==> c[0].view_number + 1 == v,
                !stopped && i >= 2 ==> c[1].view_number + 2 == v,
                !stopped && i >= 3 ==> c[2].view_number + 3 == v,
                commit_reached == (i >= 2 && c[0].view_number + 1 == v && c[1].view_number + 2
                    == v && !(stopped && i == 2)),
                decide_reached == (i >= 3 && c[0].view_number + 1 == v && c[1].view_number + 2
                    == v && c[2].view_number + 3 == v && !(stopped && i == 3)),
                commit_reached ==> c.len() >= 2 && new_locked_view == c[1].view_number
                    && decide_qc == c[1].justify_qc,
                !commit_reached ==> new_locked_view == consensus.locked_view && decide_qc
                    == justify,
                decide_reached ==> c.len() >= 3 && new_anchor_view == c[2].view_number,
                !decide_reached ==> new_anchor_view == consensus.last_decided_view,
                !decide_reached && !stopped ==> last_view == (if i == 0 {
                    v
                } else {
                    c[i - 1].view_number
                }),
                leaves_decided@ == (if decide_reached {
                    c.subrange(2, i as int)
                } else {
                    Seq::<Leaf>::empty()
                }),
                leaf_views@.len() == (if decide_reached {
                    i - 2
                } else {
                    0
                }),
                forall|j: int|
                    0 <= j < leaf_views@.len() ==> spec_leaf_info_matches(
                        #[trigger] leaf_views@[j],
                        c[j + 2],
                        consensus.saved_payloads@,
                        consensus.vid_shares@,
                        pk,
                    ),
                txns@ == spec_txn_fold(
                    Seq::empty(),
                    consensus.saved_payloads@,
                    (if decide_reached {
                        c.subrange(2, i as int)
                    } else {
                        Seq::<Leaf>::empty()
                    }),
                ),
                duc == spec_upgrade_fold(
                    duc0,
                    (if decide_reached {
                        c.subrange(2, i as int)
                    } else {
                        Seq::<Leaf>::empty()
                    }),
                    v,
                ),
            decreases c.len() - i,
        {
            let leaf = chain[i];
            if !decide_reached {
                if leaf.view_number < last_view && last_view - leaf.view_number == 1 {
                    last_view = leaf.view_number;
                    if i == 1 {
                        commit_reached = true;
                        new_locked_view = leaf.view_number;
                        decide_qc = leaf.justify_qc;
                    } else if i == 2 {
                        decide_reached = true;
                        new_anchor_view = leaf.view_number;
                        proof {
                            assert(c.subrange(2, i as int) =~= Seq::<Leaf>::empty());
                        }
                    }
                } else {
                    stopped = true;
                }
            }
            if decide_reached {
                let ghost prefix = c.subrange(2, i as int);
                let payload_opt: Option<Vec<u64>> = match consensus.get_payload(leaf.view_number) {
                    Some(pl) => Some(crate::types::clone_u64_vec(pl)),
                    None => None,
                };
                if let Some(pl) = &payload_opt {
                    Self::dedup_extend_vec(&mut txns, pl);
                }
                let vid_share: Option<VidShare> = match consensus.get_vid_share(
                    leaf.view_number,
                    pk,
                ) {
                    Some(sh) => Some(*sh),
                    None => None,
                };
                if let Some(uc) = &leaf.upgrade_certificate {
                    if uc.data.decide_by >= v {
                        duc = Some(*uc);
                    }
                }
                leaf_views.push(LeafInfo { leaf, payload: payload_opt, vid_share });
                leaves_decided.push(leaf);
                proof {
                    assert(c.subrange(2, i as int + 1) =~= prefix.push(c[i as int]));
                    lemma_txn_fold_push(
                        Seq::empty(),
                        consensus.saved_payloads@,
                        prefix,
                        c[i as int],
                    );
                    lemma_upgrade_fold_push(duc0, prefix, c[i as int], v);
                    assert(leaves_decided@ =~= c.subrange(2, i as int + 1));
                }
            }
            i = i + 1;
        }
        proof {
            if decide_reached {
                assert(c.subrange(2, i as int) =~= c.subrange(2, c.len() as int));
            }
        }
        ChainSummary {
            commit_reached,
            decide_reached,
            new_locked_view,
            new_anchor_view,
            decide_qc,
            leaf_views,
            leaves_decided,
            txns,
            duc,
        }
    }

    /// Handle a validated proposal: walk the ancestor chain from its
    /// justify QC, apply the two-chain lock and the three-chain decide,
    /// garbage-collect at the new anchor, hand the decided leaf chain to
    /// the application, then propose for the next view when leading it off
    /// this proposal's QC, and vote if able. The proposed leaf is saved
    /// whatever the parent link: validated leaves enter the store even when
    /// no chain extension follows. The full relation is
    /// [`spec_validated_post`].
    #[verifier::rlimit(100)]
    #[verifier::spinoff_prover]
    pub fn handle_proposal_validated(&mut self, p: QuorumProposal, out: &mut Vec<Output>)
        requires
            old(self).wf(),
        ensures
            final(self).wf(),
            spec_validated_post(*old(self), p, *final(self), old(out)@, final(out)@),
    {
        let v = p.view_number;
        let consecutive = v > 0 && p.justify_qc.view == v - 1;
        let mut chain: Vec<Leaf> = Vec::new();
        if consecutive {
            let _complete = self.consensus.visit_leaf_ancestors(
                p.justify_qc.leaf_commit,
                v,
                self.consensus.last_decided_view,
                &mut chain,
            );
        }
        let ghost c = spec_validated_chain(*old(self), p);
        proof {
            assert(chain@ =~= c);
            crate::store::lemma_chain_properties(
                old(self).consensus.saved_leaves@,
                p.justify_qc.leaf_commit,
                v,
                old(self).consensus.last_decided_view,
            );
        }
        let duc0 = self.decided_upgrade_cert;
        let summary = Self::process_validated_chain(
            &self.consensus,
            &chain,
            v,
            p.justify_qc,
            self.public_key,
            duc0,
        );
        self.apply_validated(p, chain, summary, out);
    }



    /// Reverse a vector by draining it from the back.
    fn reversed_vec<T>(v: Vec<T>) -> (r: Vec<T>)
        ensures
            r@.len() == v@.len(),
            forall|j: int| 0 <= j < r@.len() ==> r@[j] == v@[v@.len() - 1 - j],
    {
        let ghost orig = v@;
        let mut v = v;
        let mut r: Vec<T> = Vec::new();
        while v.len() > 0
            invariant
                r@.len() + v@.len() == orig.len(),
                v@ == orig.subrange(0, v@.len() as int),
                forall|j: int| 0 <= j < r@.len() ==> r@[j] == orig[orig.len() - 1 - j],
            decreases v@.len(),
        {
            let ghost n = v@.len() as int;
            match v.pop() {
                Some(x) => {
                    proof {
                        assert(v@ =~= orig.subrange(0, n - 1));
                        assert(x == orig[n - 1]);
                    }
                    r.push(x);
                },
                None => {},
            }
        }
        r
    }

    /// Commit a fresh three-chain decide at `new_anchor`: announce the
    /// decided leaves on the bus and the decided chain to the application,
    /// collect garbage up to the anchor, advance the decided view, update
    /// the decide metrics, and cancel the sub-tasks the anchor leaves
    /// behind.
    fn apply_decide(
        &mut self,
        new_anchor: u64,
        decide_qc: QuorumCertificate,
        leaf_views: Vec<LeafInfo>,
        leaves_decided: Vec<Leaf>,
        txns: Vec<u64>,
        out: &mut Vec<Output>,
    )
        requires
            old(self).wf(),
            new_anchor > old(self).consensus.last_decided_view,
            new_anchor <= old(self).consensus.locked_view,
        ensures
            final(self).wf(),
            *final(self) == (ConsensusTaskState {
                consensus: final(self).consensus,
                spawned_proposal_views: final(self).spawned_proposal_views,
                ..*old(self)
            }),
            final(self).consensus.high_qc == old(self).consensus.high_qc,
            final(self).consensus.locked_view == old(self).consensus.locked_view,
            final(self).consensus.last_decided_view == new_anchor,
            final(self).consensus.metrics.invalid_qc == 0,
            final(self).consensus.metrics.last_decided_view == new_anchor,
            final(self).consensus.metrics.number_of_views_per_decide_event == (if old(self).cur_view >= new_anchor {
                (old(self).cur_view - new_anchor) as u64
            } else {
                0
            }),
            final(self).consensus.metrics.number_of_timeouts == old(self).consensus.metrics.number_of_timeouts,
            final(self).consensus.metrics.last_synced_block_height == old(self).consensus.metrics.last_synced_block_height,
            forall|k: u64|
                has_key(final(self).consensus.saved_leaves@, k) <==> (has_key(
                    old(self).consensus.saved_leaves@,
                    k,
                ) && lookup(old(self).consensus.saved_leaves@, k).view_number >= new_anchor),
            forall|k: u64|
                has_key(final(self).consensus.saved_leaves@, k) ==> lookup(
                    final(self).consensus.saved_leaves@,
                    k,
                ) == lookup(old(self).consensus.saved_leaves@, k),
            forall|w: u64|
                has_key(final(self).consensus.saved_payloads@, w) <==> (has_key(
                    old(self).consensus.saved_payloads@,
                    w,
                ) && w >= new_anchor),
            forall|w: u64|
                has_key(final(self).consensus.saved_payloads@, w) ==> lookup(
                    final(self).consensus.saved_payloads@,
                    w,
                ) == lookup(old(self).consensus.saved_payloads@, w),
            forall|w: u64|
                has_key(final(self).consensus.saved_da_certs@, w) <==> (has_key(
                    old(self).consensus.saved_da_certs@,
                    w,
                ) && w >= new_anchor),
            forall|w: u64|
                has_key(final(self).consensus.saved_da_certs@, w) ==> lookup(
                    final(self).consensus.saved_da_certs@,
                    w,
                ) == lookup(old(self).consensus.saved_da_certs@, w),
            forall|w: u64|
                has_key(final(self).consensus.vid_shares@, w) <==> (has_key(
                    old(self).consensus.vid_shares@,
                    w,
                ) && w >= new_anchor),
            forall|w: u64|
                has_key(final(self).consensus.vid_shares@, w) ==> lookup(
                    final(self).consensus.vid_shares@,
                    w,
                ) == lookup(old(self).consensus.vid_shares@, w),
            forall|w: u64|
                final(self).spawned_proposal_views@.contains(w) <==> (old(self).spawned_proposal_views@.contains(w) && w >= new_anchor),
            final(out)@ == old(out)@ + seq![
                Output::LeafDecided(leaves_decided),
                Output::AppEvent(
                    AppEvent {
                        view_number: old(self).consensus.last_decided_view,
                        event: AppEventKind::Decide {
                            leaf_chain: leaf_views,
                            qc: decide_qc,
                            block_size: txns@.len() as u64,
                        },
                    },
                ),
                Output::CancelTasksBelow(new_anchor),
            ],
    {
        let old_anchor = self.consensus.last_decided_view;
        let block_size = txns.len() as u64;
        out.push(Output::LeafDecided(leaves_decided));
        out.push(
            Output::AppEvent(
                AppEvent {
                    view_number: old_anchor,
                    event: AppEventKind::Decide { leaf_chain: leaf_views, qc: decide_qc, block_size },
                },
            ),
        );
        self.consensus.collect_garbage(old_anchor, new_anchor);
        self.consensus.last_decided_view = new_anchor;
        self.consensus.metrics.last_decided_time = crate::clock::current_timestamp();
        self.consensus.metrics.invalid_qc = 0;
        self.consensus.metrics.last_decided_view = new_anchor;
        self.consensus.metrics.number_of_views_per_decide_event = if self.cur_view >= new_anchor {
            self.cur_view - new_anchor
        } else {
            0
        };
        self.cancel_tasks(new_anchor, out);
        proof {
            assert(final(out)@ =~= old(out)@ + seq![
                Output::LeafDecided(leaves_decided),
                Output::AppEvent(
                    AppEvent {
                        view_number: old(self).consensus.last_decided_view,
                        event: AppEventKind::Decide {
                            leaf_chain: leaf_views,
                            qc: decide_qc,
                            block_size: txns@.len() as u64,
                        },
                    },
                ),
                Output::CancelTasksBelow(new_anchor),
            ]);
        }
    }

    /// Apply the products of the chain walk: raise the high QC, save the
    /// proposed leaf, move the lock, and on a fresh three-chain decide emit
    /// the decided chain, collect garbage and advance the anchor; then
    /// propose for the next view when leading it off this QC, and vote.
    #[verifier::rlimit(100)]
    #[verifier::spinoff_prover]
    fn apply_validated_store(
        &mut self,
        p: QuorumProposal,
        chain: Vec<Leaf>,
        summary: ChainSummary,
        out: &mut Vec<Output>,
    )
        requires
            old(self).wf(),
            chain@ == spec_validated_chain(*old(self), p),
            spec_summary_ok(*old(self), p, summary),
        ensures
            final(self).wf(),
            spec_store_post(*old(self), p, *final(self), old(out)@, final(out)@),
    {
        let v = p.view_number;
        let ghost c = spec_validated_chain(*old(self), p);
        let ChainSummary {
            commit_reached,
            decide_reached,
            new_locked_view,
            new_anchor_view,
            decide_qc,
            leaf_views,
            leaves_decided,
            txns,
            duc,
        } = summary;
        let ghost commit_r = c.len() >= 1 && c[0].view_number + 1 == v;
        let ghost decide_r = commit_r && c.len() >= 2 && c[1].view_number + 2 == v;
        let ghost dec_leaves = c.subrange(1, c.len() as int);
        // adopt the proposal and raise the high QC before touching the lock
        self.current_proposal = Some(p);
        if p.justify_qc.view > self.consensus.high_qc.view {
            out.push(Output::StorageUpdateHighQc(p.justify_qc));
            self.consensus.high_qc = p.justify_qc;
        }
        self.consensus.insert_leaf(Leaf::from_quorum_proposal(&p));
        self.decided_upgrade_cert = duc;
        if decide_reached {
            self.consensus.metrics.last_synced_block_height = chain[2].block_header.block_number;
        }
        if commit_reached && new_locked_view > self.consensus.locked_view {
            proof {
                assert(new_locked_view <= self.consensus.high_qc.view);
            }
            self.consensus.locked_view = new_locked_view;
        }
        if decide_reached && new_anchor_view > self.consensus.last_decided_view {
            proof {
                assert(new_anchor_view <= self.consensus.locked_view);
            }
            // the application sees the decided chain oldest-first
            let leaf_views_up = Self::reversed_vec(leaf_views);
            let leaves_decided_up = Self::reversed_vec(leaves_decided);
            self.apply_decide(
                new_anchor_view,
                decide_qc,
                leaf_views_up,
                leaves_decided_up,
                txns,
                out,
            );
        }
        proof {
            assert(out@.subrange(0, old(out)@.len() as int) =~= old(out)@);
        }
    }

    /// Whether the stream should drop this event before the task sees it:
    /// false marks an event the task consumes, and the task consumes every
    /// variant of [`HotShotEvent`] — shutdown included, which
    /// [`Self::should_shutdown`] decides separately.
    pub fn filter(&self, event: &HotShotEvent) -> (r: bool)
        ensures
            r == false,
    {
        match event {
            HotShotEvent::QuorumProposalRecv(..) => false,
            HotShotEvent::QuorumProposalValidated(..) => false,
            HotShotEvent::QuorumVoteRecv(..) => false,
            HotShotEvent::TimeoutVoteRecv(..) => false,
            HotShotEvent::QcFormed(..) => false,
            HotShotEvent::UpgradeCertificateFormed(..) => false,
            HotShotEvent::DaCertificateRecv(..) => false,
            HotShotEvent::VidShareRecv(..) => false,
            HotShotEvent::ViewChange(..) => false,
            HotShotEvent::Timeout(..) => false,
            HotShotEvent::SendPayloadCommitmentAndMetadata(..) => false,
            HotShotEvent::ViewSyncFinalizeCertificateRecv(..) => false,
            HotShotEvent::Shutdown => false,
        }
    }

    /// Whether an event shuts the task down.
    pub fn should_shutdown(event: &HotShotEvent) -> (r: bool)
        ensures
            r == (event is Shutdown),
    {
        match event {
            HotShotEvent::Shutdown => true,
            _ => false,
        }
    }

    /// Handle one event from the stream: route it to the matching handler
    /// and return the actions the shell must perform. Each event kind's
    /// full relation is forwarded from its handler; whatever the event,
    /// the current view, the locked view, the decided view and the high
    /// QC's view never decrease.
    #[verifier::rlimit(100)]
    #[verifier::spinoff_prover]
    pub fn handle(&mut self, event: HotShotEvent) -> (out: Vec<Output>)
        requires
            old(self).wf(),
        ensures
            final(self).wf(),
            final(self).cur_view >= old(self).cur_view,
            final(self).consensus.locked_view >= old(self).consensus.locked_view,
            final(self).consensus.last_decided_view >= old(self).consensus.last_decided_view,
            final(self).consensus.high_qc.view >= old(self).consensus.high_qc.view,
            final(self).latest_voted_view >= old(self).latest_voted_view,
            final(self).latest_timeout_voted_view >= old(self).latest_timeout_voted_view,
            match event {
                HotShotEvent::QuorumProposalRecv(p, sig, sender) => spec_proposal_recv_post(
                    *old(self),
                    p,
                    sig,
                    sender,
                    *final(self),
                    Seq::empty(),
                    out@,
                ),
                HotShotEvent::QuorumProposalValidated(p) => spec_validated_post(
                    *old(self),
                    p,
                    *final(self),
                    Seq::empty(),
                    out@,
                ),
                HotShotEvent::QuorumVoteRecv(vote) => spec_quorum_vote_post(
                    *old(self),
                    vote,
                    *final(self),
                    Seq::empty(),
                    out@,
                ),
                HotShotEvent::TimeoutVoteRecv(vote) => spec_timeout_vote_post(
                    *old(self),
                    vote,
                    *final(self),
                    Seq::empty(),
                    out@,
                ),
                HotShotEvent::QcFormed(cert) => spec_qc_formed_post(
                    *old(self),
                    cert,
                    *final(self),
                    Seq::empty(),
                    out@,
                ),
                HotShotEvent::UpgradeCertificateFormed(cert) => spec_upgrade_formed_post(
                    *old(self),
                    cert,
                    *final(self),
                ) && out@.len() == 0,
                HotShotEvent::DaCertificateRecv(cert) => spec_da_cert_post(
                    *old(self),
                    cert,
                    *final(self),
                    Seq::empty(),
                    out@,
                ),
                HotShotEvent::VidShareRecv(share) => spec_vid_share_post(
                    *old(self),
                    share,
                    *final(self),
                    Seq::empty(),
                    out@,
                ),
                HotShotEvent::ViewChange(nv) => spec_view_change_post(
                    *old(self),
                    nv,
                    *final(self),
                    Seq::empty(),
                    out@,
                ),
                HotShotEvent::Timeout(v) => spec_timeout_post(
                    *old(self),
                    v,
                    *final(self),
                    Seq::empty(),
                    out@,
                ),
                HotShotEvent::SendPayloadCommitmentAndMetadata(c, b, m, v, fee) =>
                    spec_send_payload_post(
                    *old(self),
                    c,
                    b,
                    m,
                    v,
                    fee,
                    *final(self),
                    Seq::empty(),
                    out@,
                ),
                HotShotEvent::ViewSyncFinalizeCertificateRecv(cert) => spec_view_sync_post(
                    *old(self),
                    cert,
                    *final(self),
                    Seq::empty(),
                    out@,
                ),
                HotShotEvent::Shutdown => *final(self) == *old(self) && out@.len() == 0,
            },
    {
        let mut out: Vec<Output> = Vec::new();
        match event {
            HotShotEvent::QuorumProposalRecv(p, sig, sender) => {
                self.handle_proposal_recv(p, sig, sender, &mut out);
            },
            HotShotEvent::QuorumProposalValidated(p) => {
                self.handle_proposal_validated(p, &mut out);
            },
            HotShotEvent::QuorumVoteRecv(vote) => {
                self.handle_quorum_vote_recv(vote, &mut out);
            },
            HotShotEvent::TimeoutVoteRecv(vote) => {
                self.handle_timeout_vote_recv(vote, &mut out);
            },
            HotShotEvent::QcFormed(cert) => {
                self.handle_qc_formed(cert, &mut out);
            },
            HotShotEvent::UpgradeCertificateFormed(cert) => {
                self.handle_upgrade_certificate_formed(cert);
            },
            HotShotEvent::DaCertificateRecv(cert) => {
                self.handle_da_certificate_recv(cert, &mut out);
            },
            HotShotEvent::VidShareRecv(share) => {
                self.handle_vid_share_recv(share, &mut out);
            },
            HotShotEvent::ViewChange(nv) => {
                self.handle_view_change(nv, &mut out);
            },
            HotShotEvent::Timeout(v) => {
                self.handle_timeout(v, &mut out);
            },
            HotShotEvent::SendPayloadCommitmentAndMetadata(c, b, m, v, fee) => {
                self.handle_send_payload(c, b, m, v, fee, &mut out);
            },
            HotShotEvent::ViewSyncFinalizeCertificateRecv(cert) => {
                self.handle_view_sync_cert(cert, &mut out);
            },
            HotShotEvent::Shutdown => {},
        }
        out
    }

    /// Attempt the proposal of `view`, ignoring the reason when nothing is
    /// sent: the state changes exactly when [`Self::spec_publishes`] holds.
    fn publish_proposal_quiet(&mut self, view: u64, out: &mut Vec<Output>)
        requires
            old(self).wf(),
        ensures
            final(self).wf(),
            !old(self).spec_publishes(view) ==> *final(self) == *old(self) && final(out)@ == old(
                out,
            )@,
            old(self).spec_publishes(view) ==> {
                &&& *final(self) == (ConsensusTaskState {
                    spawned_proposal_views: final(self).spawned_proposal_views,
                    payload_commitment_and_metadata: None,
                    proposal_cert: None,
                    ..*old(self)
                })
                &&& final(self).spawned_proposal_views@ == old(self).spawned_proposal_views@.push(view)
                &&& final(out)@ == old(out)@.push(old(self).spec_publish_output(view))
            },
    {
        let _ = self.publish_proposal(view, out);
    }

    /// Apply the full effect of a validated proposal: the store effects of
    /// [`Self::apply_validated_store`], then the follow-up proposal when
    /// leading the next view off this proposal's QC, and the vote.
    #[verifier::rlimit(100)]
    #[verifier::spinoff_prover]
    fn apply_validated(
        &mut self,
        p: QuorumProposal,
        chain: Vec<Leaf>,
        summary: ChainSummary,
        out: &mut Vec<Output>,
    )
        requires
            old(self).wf(),
            chain@ == spec_validated_chain(*old(self), p),
            spec_summary_ok(*old(self), p, summary),
        ensures
            final(self).wf(),
            spec_validated_post(*old(self), p, *final(self), old(out)@, final(out)@),
    {
        let v = p.view_number;
        self.apply_validated_store(p, chain, summary, out);
        let ghost mid = *self;
        let ghost mid_out = out@;
        let should_propose = v < u64::MAX && {
            let next_leader = self.quorum_membership.get_leader(v + 1);
            next_leader == self.public_key && self.consensus.high_qc.view == v
        };
        if should_propose {
            self.publish_proposal_quiet(v + 1, out);
        }
        if self.vote_if_able(out) {
            self.current_proposal = None;
        }
        proof {
            assert(spec_store_post(*old(self), p, mid, old(out)@, mid_out) && spec_followup_post(
                mid,
                p,
                *self,
                mid_out,
                out@,
            ));
        }
    }
}


/// Relation of `ConsensusTaskState::handle_quorum_vote_recv` between the state and outputs
/// before and after the call.
pub open spec fn spec_quorum_vote_post(
    pre: ConsensusTaskState,
    vote: QuorumVote,
    post: ConsensusTaskState,
    pre_out: Seq<Output>,
    post_out: Seq<Output>,
) -> bool {
    &&& (({
                let eligible = vote.view < u64::MAX && pre.spec_is_leader(
                    (vote.view + 1) as u64,
                );
                &&& (!eligible ==> post == pre && post_out =~= pre_out)
                &&& (eligible ==> {
                    let fresh = match pre.vote_collector {
                        None => true,
                        Some(c) => vote.view > c.view,
                    };
                    &&& post == (ConsensusTaskState {
                        vote_collector: post.vote_collector,
                        ..pre
                    })
                    &&& (fresh ==> {
                        let accepts = vote.spec_is_signed()
                            && pre.quorum_membership.spec_has_stake(vote.signer);
                        let th = pre.quorum_membership.spec_success_threshold();
                        if accepts && th == 1 {
                            &&& post.vote_collector is None
                            &&& post_out =~= pre_out.push(
                                Output::QcFormedSend(
                                    CertFormed::Quorum(
                                        QuorumCertificate {
                                            leaf_commit: vote.leaf_commit,
                                            view: vote.view,
                                            signer_count: 1u64,
                                        },
                                    ),
                                ),
                            )
                        } else {
                            &&& post_out =~= pre_out
                            &&& match post.vote_collector {
                                Some(acc) => {
                                    &&& acc.view == vote.view
                                    &&& acc.threshold == th
                                    &&& !acc.finished
                                    &&& (accepts ==> acc.signers@ =~= seq![vote.signer]
                                        && acc.spec_count(vote.leaf_commit) == 1)
                                    &&& (!accepts ==> acc.signers@.len() == 0 && acc.tallies@.len()
                                        == 0)
                                },
                                None => false,
                            }
                        }
                    })
                    &&& (!fresh ==> match pre.vote_collector {
                        Some(c) => {
                            let accepts = c.spec_accepts(
                                pre.quorum_membership,
                                vote.signer,
                                vote.view,
                                vote.spec_is_signed(),
                            );
                            let completed = accepts && c.spec_count(vote.leaf_commit) + 1
                                == c.threshold;
                            if completed {
                                &&& post.vote_collector is None
                                &&& post_out =~= pre_out.push(
                                    Output::QcFormedSend(
                                        CertFormed::Quorum(
                                            QuorumCertificate {
                                                leaf_commit: vote.leaf_commit,
                                                view: vote.view,
                                                signer_count: c.threshold,
                                            },
                                        ),
                                    ),
                                )
                            } else {
                                &&& post_out =~= pre_out
                                &&& match post.vote_collector {
                                    Some(acc) => {
                                        &&& (!accepts ==> acc == c)
                                        &&& (accepts ==> acc.view == c.view && acc.threshold
                                            == c.threshold && !acc.finished && acc.signers@
                                            == c.signers@.push(vote.signer) && acc.spec_count(
                                            vote.leaf_commit,
                                        ) == c.spec_count(vote.leaf_commit) + 1)
                                    },
                                    None => false,
                                }
                            }
                        },
                        None => false,
                    })
                })
            }))
}

/// Relation of `ConsensusTaskState::handle_timeout_vote_recv` between the state and outputs
/// before and after the call.
pub open spec fn spec_timeout_vote_post(
    pre: ConsensusTaskState,
    vote: TimeoutVote,
    post: ConsensusTaskState,
    pre_out: Seq<Output>,
    post_out: Seq<Output>,
) -> bool {
    &&& (({
                let eligible = vote.view < u64::MAX && pre.timeout_membership.spec_leader((vote.view + 1) as u64) == pre.public_key;
                &&& (!eligible ==> post == pre && post_out =~= pre_out)
                &&& (eligible ==> {
                    let fresh = match pre.timeout_vote_collector {
                        None => true,
                        Some(c) => vote.view > c.view,
                    };
                    &&& post == (ConsensusTaskState {
                        timeout_vote_collector: post.timeout_vote_collector,
                        ..pre
                    })
                    &&& (fresh ==> {
                        let accepts = vote.spec_is_signed()
                            && pre.quorum_membership.spec_has_stake(vote.signer);
                        let th = pre.quorum_membership.spec_success_threshold();
                        if accepts && th == 1 {
                            &&& post.timeout_vote_collector is None
                            &&& post_out =~= pre_out.push(
                                Output::QcFormedSend(
                                    CertFormed::Timeout(
                                        TimeoutCertificate { view: vote.view, signer_count: 1u64 },
                                    ),
                                ),
                            )
                        } else {
                            &&& post_out =~= pre_out
                            &&& match post.timeout_vote_collector {
                                Some(acc) => {
                                    &&& acc.view == vote.view
                                    &&& acc.threshold == th
                                    &&& !acc.finished
                                    &&& (accepts ==> acc.signers@ =~= seq![vote.signer]
                                        && acc.spec_count(vote.view) == 1)
                                    &&& (!accepts ==> acc.signers@.len() == 0 && acc.tallies@.len()
                                        == 0)
                                },
                                None => false,
                            }
                        }
                    })
                    &&& (!fresh ==> match pre.timeout_vote_collector {
                        Some(c) => {
                            let accepts = c.spec_accepts(
                                pre.quorum_membership,
                                vote.signer,
                                vote.view,
                                vote.spec_is_signed(),
                            );
                            let completed = accepts && c.spec_count(vote.view) + 1 == c.threshold;
                            if completed {
                                &&& post.timeout_vote_collector is None
                                &&& post_out =~= pre_out.push(
                                    Output::QcFormedSend(
                                        CertFormed::Timeout(
                                            TimeoutCertificate {
                                                view: vote.view,
                                                signer_count: c.threshold,
                                            },
                                        ),
                                    ),
                                )
                            } else {
                                &&& post_out =~= pre_out
                                &&& match post.timeout_vote_collector {
                                    Some(acc) => {
                                        &&& (!accepts ==> acc == c)
                                        &&& (accepts ==> acc.view == c.view && acc.threshold
                                            == c.threshold && !acc.finished && acc.signers@
                                            == c.signers@.push(vote.signer) && acc.spec_count(
                                            vote.view,
                                        ) == c.spec_count(vote.view) + 1)
                                    },
                                    None => false,
                                }
                            }
                        },
                        None => false,
                    })
                })
            }))
}

/// Relation of `ConsensusTaskState::handle_qc_formed` between the state and outputs
/// before and after the call.
pub open spec fn spec_qc_formed_post(
    pre: ConsensusTaskState,
    cert: CertFormed,
    post: ConsensusTaskState,
    pre_out: Seq<Output>,
    post_out: Seq<Output>,
) -> bool {
    &&& (match cert {
                CertFormed::Quorum(qc) => {
                    let mid = ConsensusTaskState {
                        consensus: Consensus {
                            high_qc: if qc.view > pre.consensus.high_qc.view {
                                qc
                            } else {
                                pre.consensus.high_qc
                            },
                            ..pre.consensus
                        },
                        ..pre
                    };
                    let base = pre_out + (if qc.view > pre.consensus.high_qc.view {
                        seq![
                            Output::StorageUpdateHighQc(qc),
                            Output::Network(Intent::CancelPollForVotes(qc.view)),
                        ]
                    } else {
                        seq![Output::Network(Intent::CancelPollForVotes(qc.view))]
                    });
                    let pubbed = qc.view < u64::MAX && mid.spec_publishes((qc.view + 1) as u64);
                    &&& (pubbed ==> {
                        &&& post == (ConsensusTaskState {
                            spawned_proposal_views: post.spawned_proposal_views,
                            payload_commitment_and_metadata: None,
                            proposal_cert: None,
                            ..mid
                        })
                        &&& post.spawned_proposal_views@
                            == mid.spawned_proposal_views@.push((qc.view + 1) as u64)
                        &&& post_out =~= base.push(mid.spec_publish_output((qc.view + 1) as u64))
                    })
                    &&& (!pubbed ==> post == mid && post_out =~= base)
                },
                CertFormed::Timeout(tc) => {
                    let mid = ConsensusTaskState {
                        proposal_cert: Some(ViewChangeEvidence::Timeout(tc)),
                        ..pre
                    };
                    let base = pre_out + seq![
                        Output::Network(Intent::CancelPollForVotes(tc.view)),
                    ];
                    let pubbed = tc.view < u64::MAX && mid.spec_publishes((tc.view + 1) as u64);
                    &&& (pubbed ==> {
                        &&& post == (ConsensusTaskState {
                            spawned_proposal_views: post.spawned_proposal_views,
                            payload_commitment_and_metadata: None,
                            proposal_cert: None,
                            ..mid
                        })
                        &&& post.spawned_proposal_views@
                            == mid.spawned_proposal_views@.push((tc.view + 1) as u64)
                        &&& post_out =~= base.push(mid.spec_publish_output((tc.view + 1) as u64))
                    })
                    &&& (!pubbed ==> post == mid && post_out =~= base)
                },
            })
}

/// Relation of `ConsensusTaskState::handle_da_certificate_recv` between the state and outputs
/// before and after the call.
pub open spec fn spec_da_cert_post(
    pre: ConsensusTaskState,
    cert: DaCertificate,
    post: ConsensusTaskState,
    pre_out: Seq<Output>,
    post_out: Seq<Output>,
) -> bool {
    &&& (post.consensus.high_qc == pre.consensus.high_qc)
    &&& (post.consensus.locked_view == pre.consensus.locked_view)
    &&& (post.consensus.last_decided_view == pre.consensus.last_decided_view)
    &&& (post.consensus.saved_leaves == pre.consensus.saved_leaves)
    &&& (post.consensus.saved_payloads == pre.consensus.saved_payloads)
    &&& (post.consensus.vid_shares == pre.consensus.vid_shares)
    &&& (post.consensus.metrics == pre.consensus.metrics)
    &&& (has_key(post.consensus.saved_da_certs@, cert.view))
    &&& (lookup(post.consensus.saved_da_certs@, cert.view) == cert)
    &&& (forall|v: u64|
                v != cert.view ==> (has_key(post.consensus.saved_da_certs@, v) <==> has_key(
                    pre.consensus.saved_da_certs@,
                    v,
                )))
    &&& (forall|v: u64|
                v != cert.view && has_key(pre.consensus.saved_da_certs@, v) ==> lookup(
                    post.consensus.saved_da_certs@,
                    v,
                ) == lookup(pre.consensus.saved_da_certs@, v))
    &&& (({
                let mid = ConsensusTaskState { consensus: post.consensus, ..pre };
                let voted = mid.spec_vote_conditions();
                let base = pre_out + seq![
                    Output::Network(Intent::CancelPollForDac(cert.view)),
                    Output::Network(Intent::CancelPollForVotes(cert.view)),
                ];
                &&& (!voted ==> post == mid && post_out =~= base)
                &&& (voted ==> match pre.current_proposal {
                    Some(p) => {
                        let commit = leaf_commitment(Leaf::spec_from_quorum_proposal(p));
                        &&& post == (ConsensusTaskState {
                            current_proposal: None,
                            latest_voted_view: p.view_number,
                            ..mid
                        })
                        &&& post_out =~= base + seq![
                            Output::StorageAppendVid(
                                lookup(
                                    lookup(post.consensus.vid_shares@, p.view_number)@,
                                    pre.public_key,
                                ),
                            ),
                            Output::QuorumVoteSend(
                                QuorumVote {
                                    signer: pre.private_key,
                                    view: p.view_number,
                                    leaf_commit: commit,
                                    signature: Signature {
                                        signer: pre.private_key,
                                        message: vote_message(
                                            VOTE_KIND_QUORUM,
                                            commit,
                                            p.view_number,
                                        ),
                                    },
                                },
                            ),
                        ]
                    },
                    None => false,
                })
            }))
}

/// Relation of `ConsensusTaskState::handle_vid_share_recv` between the state and outputs
/// before and after the call.
pub open spec fn spec_vid_share_post(
    pre: ConsensusTaskState,
    share: VidShare,
    post: ConsensusTaskState,
    pre_out: Seq<Output>,
    post_out: Seq<Output>,
) -> bool {
    &&& (({
                let stale = share.view_number < pre.cur_view && pre.cur_view
                    - share.view_number > 1;
                let accepted = !stale && pre.spec_validate_disperse(share);
                &&& (!accepted ==> post == pre && post_out =~= pre_out)
                &&& (accepted ==> {
                    &&& post.consensus.high_qc == pre.consensus.high_qc
                    &&& post.consensus.locked_view == pre.consensus.locked_view
                    &&& post.consensus.last_decided_view == pre.consensus.last_decided_view
                    &&& post.consensus.saved_leaves == pre.consensus.saved_leaves
                    &&& post.consensus.saved_payloads == pre.consensus.saved_payloads
                    &&& post.consensus.saved_da_certs == pre.consensus.saved_da_certs
                    &&& post.consensus.metrics == pre.consensus.metrics
                    &&& has_key(post.consensus.vid_shares@, share.view_number)
                    &&& has_key(
                        lookup(post.consensus.vid_shares@, share.view_number)@,
                        share.recipient_key,
                    )
                    &&& lookup(
                        lookup(post.consensus.vid_shares@, share.view_number)@,
                        share.recipient_key,
                    ) == share
                    &&& (forall|v: u64|
                        v != share.view_number ==> (has_key(post.consensus.vid_shares@, v)
                            <==> has_key(pre.consensus.vid_shares@, v)))
                    &&& (forall|v: u64|
                        v != share.view_number && has_key(pre.consensus.vid_shares@, v)
                            ==> lookup(post.consensus.vid_shares@, v) == lookup(
                            pre.consensus.vid_shares@,
                            v,
                        ))
                    &&& (share.recipient_key != pre.public_key ==> post
                        == (ConsensusTaskState { consensus: post.consensus, ..pre })
                        && post_out =~= pre_out)
                    &&& (share.recipient_key == pre.public_key ==> {
                        let mid = ConsensusTaskState {
                            consensus: post.consensus,
                            ..pre
                        };
                        let voted = mid.spec_vote_conditions();
                        let base = pre_out + seq![
                            Output::Network(Intent::CancelPollForVidDisperse(share.view_number)),
                        ];
                        &&& (!voted ==> post == mid && post_out =~= base)
                        &&& (voted ==> match pre.current_proposal {
                            Some(p) => {
                                let commit = leaf_commitment(Leaf::spec_from_quorum_proposal(p));
                                &&& post == (ConsensusTaskState {
                                    current_proposal: None,
                                    latest_voted_view: p.view_number,
                                    ..mid
                                })
                                &&& post_out =~= base + seq![
                                    Output::StorageAppendVid(
                                        lookup(
                                            lookup(
                                                post.consensus.vid_shares@,
                                                p.view_number,
                                            )@,
                                            pre.public_key,
                                        ),
                                    ),
                                    Output::QuorumVoteSend(
                                        QuorumVote {
                                            signer: pre.private_key,
                                            view: p.view_number,
                                            leaf_commit: commit,
                                            signature: Signature {
                                                signer: pre.private_key,
                                                message: vote_message(
                                                    VOTE_KIND_QUORUM,
                                                    commit,
                                                    p.view_number,
                                                ),
                                            },
                                        },
                                    ),
                                ]
                            },
                            None => false,
                        })
                    })
                })
            }))
}

/// Relation of `ConsensusTaskState::handle_send_payload` between the state and outputs
/// before and after the call.
pub open spec fn spec_send_payload_post(
    pre: ConsensusTaskState,
    payload_commitment: u64, builder_commitment: u64, metadata: u64, view: u64, fee: u64,
    post: ConsensusTaskState,
    pre_out: Seq<Output>,
    post_out: Seq<Output>,
) -> bool {
    &&& (({
                let mid = ConsensusTaskState {
                    payload_commitment_and_metadata: Some(
                        CommitmentAndMetadata {
                            commitment: payload_commitment,
                            builder_commitment,
                            metadata,
                            fee,
                            block_view: view,
                        },
                    ),
                    ..pre
                };
                let fire1 = mid.spec_is_leader(view) && mid.spec_qc_justifies(view);
                let fire2 = match mid.proposal_cert {
                    Some(ViewChangeEvidence::Timeout(tc)) => tc.view < u64::MAX
                        && mid.spec_is_leader((tc.view + 1) as u64),
                    Some(ViewChangeEvidence::ViewSync(vsc)) => mid.spec_is_leader(vsc.view),
                    None => false,
                };
                let pubbed = (fire1 || fire2) && mid.spec_publishes(view);
                &&& (pubbed ==> {
                    &&& post == (ConsensusTaskState {
                        spawned_proposal_views: post.spawned_proposal_views,
                        payload_commitment_and_metadata: None,
                        proposal_cert: None,
                        ..mid
                    })
                    &&& post.spawned_proposal_views@
                        == mid.spawned_proposal_views@.push(view)
                    &&& post_out =~= pre_out.push(mid.spec_publish_output(view))
                })
                &&& (!pubbed ==> post == mid && post_out =~= pre_out)
            }))
}

/// Relation of `ConsensusTaskState::handle_view_sync_cert` between the state and outputs
/// before and after the call.
pub open spec fn spec_view_sync_post(
    pre: ConsensusTaskState,
    cert: ViewSyncFinalizeCertificate,
    post: ConsensusTaskState,
    pre_out: Seq<Output>,
    post_out: Seq<Output>,
) -> bool {
    &&& (!spec_meets_threshold(cert.signer_count, pre.quorum_membership) ==> post
                == pre && post_out =~= pre_out)
    &&& (spec_meets_threshold(cert.signer_count, pre.quorum_membership) ==> ({
                let mid = ConsensusTaskState {
                    proposal_cert: Some(ViewChangeEvidence::ViewSync(cert)),
                    ..pre
                };
                let base = pre_out + (if cert.view > 0 {
                    seq![Output::Network(Intent::CancelPollForVotes((cert.view - 1) as u64))]
                } else {
                    Seq::empty()
                });
                let pubbed = mid.spec_is_leader(cert.view) && mid.spec_publishes(cert.view);
                &&& (pubbed ==> {
                    &&& post == (ConsensusTaskState {
                        spawned_proposal_views: post.spawned_proposal_views,
                        payload_commitment_and_metadata: None,
                        proposal_cert: None,
                        ..mid
                    })
                    &&& post.spawned_proposal_views@
                        == mid.spawned_proposal_views@.push(cert.view)
                    &&& post_out =~= base.push(mid.spec_publish_output(cert.view))
                })
                &&& (!pubbed ==> post == mid && post_out =~= base)
            }))
}

/// Relation of `ConsensusTaskState::handle_proposal_recv` between the state and outputs
/// before and after the call.
pub open spec fn spec_proposal_recv_post(
    pre: ConsensusTaskState,
    p: QuorumProposal, sig: Signature, sender: u64,
    post: ConsensusTaskState,
    pre_out: Seq<Output>,
    post_out: Seq<Output>,
) -> bool {
    &&& (!pre.spec_proposal_recv_valid(p, sig, sender) ==> post == pre
                && post_out =~= pre_out)
    &&& (pre.spec_proposal_recv_valid(p, sig, sender) ==> ({
                let hi = p.justify_qc.view > pre.consensus.high_qc.view;
                let newleaf = Leaf::spec_from_quorum_proposal(p);
                let nc = leaf_commitment(newleaf);
                let mid = ConsensusTaskState {
                    consensus: post.consensus,
                    current_proposal: Some(p),
                    ..pre
                };
                let voted = mid.spec_vote_conditions();
                let base = pre_out + (if hi {
                    seq![Output::StorageUpdateHighQc(p.justify_qc)]
                } else {
                    Seq::empty()
                });
                &&& post.consensus.high_qc == (if hi {
                    p.justify_qc
                } else {
                    pre.consensus.high_qc
                })
                &&& post.consensus.locked_view == pre.consensus.locked_view
                &&& post.consensus.last_decided_view == pre.consensus.last_decided_view
                &&& post.consensus.saved_payloads == pre.consensus.saved_payloads
                &&& post.consensus.saved_da_certs == pre.consensus.saved_da_certs
                &&& post.consensus.vid_shares == pre.consensus.vid_shares
                &&& post.consensus.metrics == pre.consensus.metrics
                &&& has_key(post.consensus.saved_leaves@, nc)
                &&& lookup(post.consensus.saved_leaves@, nc) == newleaf
                &&& (forall|k: u64|
                    k != nc ==> (has_key(post.consensus.saved_leaves@, k) <==> has_key(
                        pre.consensus.saved_leaves@,
                        k,
                    )))
                &&& (forall|k: u64|
                    k != nc && has_key(pre.consensus.saved_leaves@, k) ==> lookup(
                        post.consensus.saved_leaves@,
                        k,
                    ) == lookup(pre.consensus.saved_leaves@, k))
                &&& (!voted ==> post == mid && post_out =~= base)
                &&& (voted ==> {
                    let commit = leaf_commitment(Leaf::spec_from_quorum_proposal(p));
                    &&& post == (ConsensusTaskState {
                        current_proposal: None,
                        latest_voted_view: p.view_number,
                        ..mid
                    })
                    &&& post_out =~= base + seq![
                        Output::StorageAppendVid(
                            lookup(
                                lookup(post.consensus.vid_shares@, p.view_number)@,
                                pre.public_key,
                            ),
                        ),
                        Output::QuorumVoteSend(
                            QuorumVote {
                                signer: pre.private_key,
                                view: p.view_number,
                                leaf_commit: commit,
                                signature: Signature {
                                    signer: pre.private_key,
                                    message: vote_message(VOTE_KIND_QUORUM, commit, p.view_number),
                                },
                            },
                        ),
                    ]
                })
            }))
}

/// Relation of `ConsensusTaskState::handle_timeout` between the state and outputs
/// before and after the call.
pub open spec fn spec_timeout_post(
    pre: ConsensusTaskState,
    view: u64,
    post: ConsensusTaskState,
    pre_out: Seq<Output>,
    post_out: Seq<Output>,
) -> bool {
    &&& (!pre.spec_timeout_acts(view) ==> post == pre && post_out
                == pre_out)
    &&& (pre.spec_timeout_acts(view) ==> {
                &&& post == (ConsensusTaskState {
                    latest_timeout_voted_view: view,
                    consensus: post.consensus,
                    ..pre
                })
                &&& post.consensus == (Consensus {
                    metrics: post.consensus.metrics,
                    ..pre.consensus
                })
                &&& post.consensus.metrics == (crate::store::ConsensusMetrics {
                    number_of_timeouts: if pre.consensus.metrics.number_of_timeouts
                        == u64::MAX {
                        u64::MAX
                    } else {
                        (pre.consensus.metrics.number_of_timeouts + 1) as u64
                    },
                    ..pre.consensus.metrics
                })
                &&& post_out =~= pre_out + seq![
                    Output::Network(Intent::CancelPollForVotes(view)),
                    Output::Network(Intent::CancelPollForProposal(view)),
                    Output::TimeoutVoteSend(
                        TimeoutVote {
                            signer: pre.private_key,
                            view,
                            signature: Signature {
                                signer: pre.private_key,
                                message: vote_message(VOTE_KIND_TIMEOUT, view, view),
                            },
                        },
                    ),
                    Output::AppEvent(
                        AppEvent {
                            view_number: view,
                            event: AppEventKind::ViewTimeout { view_number: view },
                        },
                    ),
                    Output::AppEvent(
                        AppEvent {
                            view_number: view,
                            event: AppEventKind::ReplicaViewTimeout { view_number: view },
                        },
                    ),
                ]
            })
}

/// Relation of `ConsensusTaskState::handle_view_change` between the state and outputs
/// before and after the call.
pub open spec fn spec_view_change_post(
    pre: ConsensusTaskState,
    new_view: u64,
    post: ConsensusTaskState,
    pre_out: Seq<Output>,
    post_out: Seq<Output>,
) -> bool {
    &&& (new_view <= pre.cur_view ==> post == pre && post_out =~= pre_out)
    &&& (new_view > pre.cur_view ==> {
                let upgraded = match pre.decided_upgrade_cert {
                    Some(uc) => uc.data.new_version_first_view == new_view,
                    None => false,
                };
                &&& post == (ConsensusTaskState {
                    cur_view: new_view,
                    version: pre.spec_version_after_change(new_view),
                    payload_commitment_and_metadata: pre.spec_cam_after_change(new_view),
                    ..pre
                })
                &&& post_out =~= pre_out + seq![
                    Output::CancelTimeout,
                    Output::Network(Intent::PollForProposal(new_view)),
                    Output::Network(Intent::PollForVotes(new_view)),
                    Output::Network(Intent::PollForVidDisperse(new_view)),
                    Output::Network(Intent::PollForDac(new_view)),
                    Output::ArmTimeout(new_view),
                    Output::ViewChangeSend(new_view),
                ] + (if upgraded {
                    seq![
                        Output::VersionUpgrade(pre.spec_version_after_change(new_view)),
                    ]
                } else {
                    Seq::empty()
                }) + seq![
                    Output::AppEvent(
                        AppEvent {
                            view_number: pre.cur_view,
                            event: AppEventKind::ViewFinished {
                                view_number: pre.cur_view,
                            },
                        },
                    ),
                ]
            })
}

/// Relation of `ConsensusTaskState::handle_upgrade_certificate_formed`
/// between the state before and after the call.
pub open spec fn spec_upgrade_formed_post(
    pre: ConsensusTaskState,
    cert: UpgradeCertificate,
    post: ConsensusTaskState,
) -> bool {
    &&& (({
                let adopts = cert.data.decide_by >= pre.cur_view && cert.data.decide_by
                    - pre.cur_view >= 3;
                &&& (adopts ==> post == (ConsensusTaskState {
                    formed_upgrade_certificate: Some(cert),
                    ..pre
                }))
                &&& (!adopts ==> post == pre)
            }))
}

/// Whether a decided-chain element carries the right leaf, the payload the
/// store had for its view, and the node's own VID share for its view.
pub open spec fn spec_leaf_info_matches(
    info: LeafInfo,
    l: Leaf,
    payloads: Seq<(u64, Vec<u64>)>,
    vids: Seq<(u64, Vec<(u64, VidShare)>)>,
    pk: u64,
) -> bool {
    &&& info.leaf == l
    &&& match info.payload {
        Some(pl) => has_key(payloads, l.view_number) && pl@ == lookup(payloads, l.view_number)@,
        None => !has_key(payloads, l.view_number),
    }
    &&& info.vid_share == (if has_key(vids, l.view_number) && has_key(
        lookup(vids, l.view_number)@,
        pk,
    ) {
        Some(lookup(lookup(vids, l.view_number)@, pk))
    } else {
        None
    })
}

/// The ancestor chain a validated proposal walks: from its justify QC's
/// leaf, strictly down in views, stopping at the decided anchor — and only
/// when the justify QC certifies the directly preceding view.
pub open spec fn spec_validated_chain(pre: ConsensusTaskState, p: QuorumProposal) -> Seq<Leaf> {
    if p.justify_qc.view + 1 == p.view_number {
        spec_chain(
            pre.consensus.saved_leaves@,
            p.justify_qc.leaf_commit,
            p.view_number,
            pre.consensus.last_decided_view,
        )
    } else {
        Seq::empty()
    }
}

/// The products of processing a walked ancestor chain: the lock and decide
/// positions, the decided leaf chain and its payload data.
pub struct ChainSummary {
    pub commit_reached: bool,
    pub decide_reached: bool,
    pub new_locked_view: u64,
    pub new_anchor_view: u64,
    pub decide_qc: QuorumCertificate,
    pub leaf_views: Vec<LeafInfo>,
    pub leaves_decided: Vec<Leaf>,
    pub txns: Vec<u64>,
    pub duc: Option<UpgradeCertificate>,
}

/// Whether a [`ChainSummary`] is the correct reading of the chain a
/// validated proposal walks from `pre`.
pub open spec fn spec_summary_ok(pre: ConsensusTaskState, p: QuorumProposal, s: ChainSummary) -> bool {
    let c = spec_validated_chain(pre, p);
    let v = p.view_number;
    let commit_r = c.len() >= 2 && c[0].view_number + 1 == v && c[1].view_number + 2 == v;
    let decide_r = commit_r && c.len() >= 3 && c[2].view_number + 3 == v;
    let dec_leaves = if decide_r {
        c.subrange(2, c.len() as int)
    } else {
        Seq::<Leaf>::empty()
    };
    &&& s.commit_reached == commit_r
    &&& s.decide_reached == decide_r
    &&& s.new_locked_view == (if commit_r {
        c[1].view_number
    } else {
        pre.consensus.locked_view
    })
    &&& s.new_anchor_view == (if decide_r {
        c[2].view_number
    } else {
        pre.consensus.last_decided_view
    })
    &&& s.decide_qc == (if commit_r {
        c[1].justify_qc
    } else {
        p.justify_qc
    })
    &&& s.leaves_decided@ == dec_leaves
    &&& s.leaf_views@.len() == dec_leaves.len()
    &&& (forall|j: int|
        0 <= j < s.leaf_views@.len() ==> spec_leaf_info_matches(
            #[trigger] s.leaf_views@[j],
            dec_leaves[j],
            pre.consensus.saved_payloads@,
            pre.consensus.vid_shares@,
            pre.public_key,
        ))
    &&& s.txns@ == spec_txn_fold(Seq::empty(), pre.consensus.saved_payloads@, dec_leaves)
    &&& s.duc == spec_upgrade_fold(pre.decided_upgrade_cert, dec_leaves, v)
}


/// The relation between the task state and outputs after the store effects
/// of a validated proposal (high QC, saved leaf, lock, decide and garbage
/// collection), before the follow-up proposal and vote.
pub open spec fn spec_store_post(
    pre: ConsensusTaskState,
    p: QuorumProposal,
    post: ConsensusTaskState,
    pre_out: Seq<Output>,
    post_out: Seq<Output>,
) -> bool {
    let c = spec_validated_chain(pre, p);
    let v = p.view_number;
    let commit_r = c.len() >= 2 && c[0].view_number + 1 == v && c[1].view_number + 2 == v;
    let decide_r = commit_r && c.len() >= 3 && c[2].view_number + 3 == v;
    let new_locked = if commit_r {
        c[1].view_number
    } else {
        pre.consensus.locked_view
    };
    let new_anchor = if decide_r {
        c[2].view_number
    } else {
        pre.consensus.last_decided_view
    };
    let lock_adv = commit_r && new_locked > pre.consensus.locked_view;
    let dec_adv = decide_r && new_anchor > pre.consensus.last_decided_view;
    let hi = p.justify_qc.view > pre.consensus.high_qc.view;
    let newleaf = Leaf::spec_from_quorum_proposal(p);
    let nc = leaf_commitment(newleaf);
    let dec_leaves = c.subrange(2, c.len() as int);
    let duc = if decide_r {
        spec_upgrade_fold(pre.decided_upgrade_cert, dec_leaves, v)
    } else {
        pre.decided_upgrade_cert
    };
    let txns = spec_txn_fold(Seq::empty(), pre.consensus.saved_payloads@, dec_leaves);
    let hi_n: int = if hi {
        1
    } else {
        0
    };
    let n0 = pre_out.len() as int;
    &&& post == (ConsensusTaskState {
        consensus: post.consensus,
        current_proposal: Some(p),
        decided_upgrade_cert: duc,
        spawned_proposal_views: post.spawned_proposal_views,
        ..pre
    })
    &&& post.consensus.high_qc == (if hi {
        p.justify_qc
    } else {
        pre.consensus.high_qc
    })
    &&& post.consensus.locked_view == (if lock_adv {
        new_locked
    } else {
        pre.consensus.locked_view
    })
    &&& post.consensus.last_decided_view == (if dec_adv {
        new_anchor
    } else {
        pre.consensus.last_decided_view
    })
    &&& post.consensus.metrics.last_synced_block_height == (if decide_r {
        c[2].block_header.block_number
    } else {
        pre.consensus.metrics.last_synced_block_height
    })
    &&& post.consensus.metrics.invalid_qc == (if dec_adv {
        0
    } else {
        pre.consensus.metrics.invalid_qc
    })
    &&& post.consensus.metrics.last_decided_view == (if dec_adv {
        new_anchor
    } else {
        pre.consensus.metrics.last_decided_view
    })
    &&& post.consensus.metrics.number_of_views_per_decide_event == (if dec_adv {
        if pre.cur_view >= new_anchor {
            (pre.cur_view - new_anchor) as u64
        } else {
            0
        }
    } else {
        pre.consensus.metrics.number_of_views_per_decide_event
    })
    &&& post.consensus.metrics.number_of_timeouts == pre.consensus.metrics.number_of_timeouts
    &&& (!dec_adv ==> post.consensus.metrics.last_decided_time
        == pre.consensus.metrics.last_decided_time)
    &&& (forall|k: u64|
        has_key(post.consensus.saved_leaves@, k) <==> ((k == nc || has_key(
            pre.consensus.saved_leaves@,
            k,
        )) && (dec_adv ==> (if k == nc {
            newleaf
        } else {
            lookup(pre.consensus.saved_leaves@, k)
        }).view_number >= new_anchor)))
    &&& (forall|k: u64|
        has_key(post.consensus.saved_leaves@, k) ==> lookup(post.consensus.saved_leaves@, k) == (
        if k == nc {
            newleaf
        } else {
            lookup(pre.consensus.saved_leaves@, k)
        }))
    &&& (forall|w: u64|
        has_key(post.consensus.saved_payloads@, w) <==> (has_key(pre.consensus.saved_payloads@, w)
            && (dec_adv ==> w >= new_anchor)))
    &&& (forall|w: u64|
        has_key(post.consensus.saved_payloads@, w) ==> lookup(post.consensus.saved_payloads@, w)
            == lookup(pre.consensus.saved_payloads@, w))
    &&& (forall|w: u64|
        has_key(post.consensus.saved_da_certs@, w) <==> (has_key(pre.consensus.saved_da_certs@, w)
            && (dec_adv ==> w >= new_anchor)))
    &&& (forall|w: u64|
        has_key(post.consensus.saved_da_certs@, w) ==> lookup(post.consensus.saved_da_certs@, w)
            == lookup(pre.consensus.saved_da_certs@, w))
    &&& (forall|w: u64|
        has_key(post.consensus.vid_shares@, w) <==> (has_key(pre.consensus.vid_shares@, w) && (
        dec_adv ==> w >= new_anchor)))
    &&& (forall|w: u64|
        has_key(post.consensus.vid_shares@, w) ==> lookup(post.consensus.vid_shares@, w) == lookup(
            pre.consensus.vid_shares@,
            w,
        ))
    &&& (forall|w: u64|
        post.spawned_proposal_views@.contains(w) <==> (pre.spawned_proposal_views@.contains(w) && (
        dec_adv ==> w >= new_anchor)))
    &&& post_out.len() == n0 + hi_n + (if dec_adv {
        3int
    } else {
        0int
    })
    &&& post_out.subrange(0, n0) == pre_out
    &&& (hi ==> post_out[n0] == Output::StorageUpdateHighQc(p.justify_qc))
    &&& (dec_adv ==> match post_out[n0 + hi_n] {
        Output::LeafDecided(ls) => ls@.len() == dec_leaves.len() && (forall|j: int|
            0 <= j < ls@.len() ==> #[trigger] ls@[j] == dec_leaves[dec_leaves.len() - 1 - j]),
        _ => false,
    })
    &&& (dec_adv ==> match post_out[n0 + hi_n + 1] {
        Output::AppEvent(ae) => {
            &&& ae.view_number == pre.consensus.last_decided_view
            &&& match ae.event {
                AppEventKind::Decide { leaf_chain, qc, block_size } => {
                    &&& qc == c[1].justify_qc
                    &&& block_size == txns.len() as u64
                    &&& leaf_chain@.len() == dec_leaves.len()
                    &&& (forall|j: int|
                        0 <= j < leaf_chain@.len() ==> spec_leaf_info_matches(
                            #[trigger] leaf_chain@[j],
                            dec_leaves[dec_leaves.len() - 1 - j],
                            pre.consensus.saved_payloads@,
                            pre.consensus.vid_shares@,
                            pre.public_key,
                        ))
                },
                _ => false,
            }
        },
        _ => false,
    })
    &&& (dec_adv ==> post_out[n0 + hi_n + 2] == Output::CancelTasksBelow(new_anchor))
}

/// The follow-up of a validated proposal, taken from the state `mid` the
/// store effects left behind: when this node leads the next view and the
/// high QC certifies this proposal's view, the next proposal goes out; then
/// the node votes if able.
pub open spec fn spec_followup_post(
    mid: ConsensusTaskState,
    p: QuorumProposal,
    post: ConsensusTaskState,
    mid_out: Seq<Output>,
    post_out: Seq<Output>,
) -> bool {
    let v = p.view_number;
    let should = v < u64::MAX && mid.quorum_membership.spec_leader((v + 1) as u64)
        == mid.public_key && mid.consensus.high_qc.view == v;
    let pubbed = should && mid.spec_publishes((v + 1) as u64);
    let pub_out = if pubbed {
        mid_out.push(mid.spec_publish_output((v + 1) as u64))
    } else {
        mid_out
    };
    let s_v = ConsensusTaskState {
        current_proposal: Some(p),
        latest_voted_view: mid.latest_voted_view,
        ..post
    };
    let voted = s_v.spec_vote_conditions();
    let commit = leaf_commitment(Leaf::spec_from_quorum_proposal(p));
    &&& post.consensus == mid.consensus
    &&& post == (ConsensusTaskState {
        consensus: mid.consensus,
        current_proposal: if voted {
            None
        } else {
            Some(p)
        },
        latest_voted_view: if voted {
            v
        } else {
            mid.latest_voted_view
        },
        payload_commitment_and_metadata: if pubbed {
            None
        } else {
            mid.payload_commitment_and_metadata
        },
        proposal_cert: if pubbed {
            None
        } else {
            mid.proposal_cert
        },
        spawned_proposal_views: post.spawned_proposal_views,
        ..mid
    })
    &&& post.spawned_proposal_views@ == (if pubbed {
        mid.spawned_proposal_views@.push((v + 1) as u64)
    } else {
        mid.spawned_proposal_views@
    })
    &&& (!voted ==> post_out == pub_out)
    &&& (voted ==> post_out == pub_out + seq![
        Output::StorageAppendVid(lookup(lookup(post.consensus.vid_shares@, v)@, mid.public_key)),
        Output::QuorumVoteSend(
            QuorumVote {
                signer: mid.private_key,
                view: v,
                leaf_commit: commit,
                signature: Signature {
                    signer: mid.private_key,
                    message: vote_message(VOTE_KIND_QUORUM, commit, v),
                },
            },
        ),
    ])
}

/// The complete relation between the task state and outputs before and
/// after a validated proposal is processed: the store effects of
/// [`spec_store_post`] — lock, decide, garbage collection and the decided
/// chain — followed by [`spec_followup_post`] — the next proposal and the
/// vote — through some intermediate state.
pub open spec fn spec_validated_post(
    pre: ConsensusTaskState,
    p: QuorumProposal,
    post: ConsensusTaskState,
    pre_out: Seq<Output>,
    post_out: Seq<Output>,
) -> bool {
    exists|mid: ConsensusTaskState, mid_out: Seq<Output>|
        #[trigger] spec_store_post(pre, p, mid, pre_out, mid_out) && spec_followup_post(
            mid,
            p,
            post,
            mid_out,
            post_out,
        )
}

/// One dedup step: add `x` unless it is already present.
pub open spec fn spec_dedup_push(acc: Seq<u64>, x: u64) -> Seq<u64> {
    if acc.contains(x) {
        acc
    } else {
        acc.push(x)
    }
}

/// Fold a payload's transaction commitments into the accumulator, skipping
/// those already present.
pub open spec fn spec_dedup_extend(acc: Seq<u64>, xs: Seq<u64>) -> Seq<u64>
    decreases xs.len(),
{
    if xs.len() == 0 {
        acc
    } else {
        spec_dedup_extend(spec_dedup_push(acc, xs[0]), xs.drop_first())
    }
}

/// Appending one element folds it last.
pub proof fn lemma_dedup_extend_push(acc: Seq<u64>, xs: Seq<u64>, x: u64)
    ensures
        spec_dedup_extend(acc, xs.push(x)) == spec_dedup_push(spec_dedup_extend(acc, xs), x),
    decreases xs.len(),
{
    if xs.len() == 0 {
        assert(xs.push(x)[0] == x);
        assert(xs.push(x).drop_first() =~= Seq::<u64>::empty());
        assert(spec_dedup_extend(acc, xs.push(x)) == spec_dedup_extend(
            spec_dedup_push(acc, x),
            Seq::<u64>::empty(),
        ));
        assert(spec_dedup_extend(spec_dedup_push(acc, x), Seq::<u64>::empty()) == spec_dedup_push(
            acc,
            x,
        ));
    } else {
        assert(xs.push(x)[0] == xs[0]);
        assert(xs.push(x).drop_first() =~= xs.drop_first().push(x));
        lemma_dedup_extend_push(spec_dedup_push(acc, xs[0]), xs.drop_first(), x);
    }
}

/// The distinct transaction commitments gathered from the hydrated payloads
/// of a run of leaves, in first-seen order.
pub open spec fn spec_txn_fold(
    acc: Seq<u64>,
    payloads: Seq<(u64, Vec<u64>)>,
    leaves: Seq<Leaf>,
) -> Seq<u64>
    decreases leaves.len(),
{
    if leaves.len() == 0 {
        acc
    } else {
        let acc2 = if has_key(payloads, leaves[0].view_number) {
            spec_dedup_extend(acc, lookup(payloads, leaves[0].view_number)@)
        } else {
            acc
        };
        spec_txn_fold(acc2, payloads, leaves.drop_first())
    }
}

/// Appending one leaf folds its payload last.
pub proof fn lemma_txn_fold_push(
    acc: Seq<u64>,
    payloads: Seq<(u64, Vec<u64>)>,
    leaves: Seq<Leaf>,
    l: Leaf,
)
    ensures
        spec_txn_fold(acc, payloads, leaves.push(l)) == (if has_key(payloads, l.view_number) {
            spec_dedup_extend(spec_txn_fold(acc, payloads, leaves), lookup(
                payloads,
                l.view_number,
            )@)
        } else {
            spec_txn_fold(acc, payloads, leaves)
        }),
    decreases leaves.len(),
{
    if leaves.len() == 0 {
        assert(leaves.push(l)[0] == l);
        assert(leaves.push(l).drop_first() =~= Seq::<Leaf>::empty());
        let acc2 = if has_key(payloads, l.view_number) {
            spec_dedup_extend(acc, lookup(payloads, l.view_number)@)
        } else {
            acc
        };
        assert(spec_txn_fold(acc, payloads, leaves.push(l)) == spec_txn_fold(
            acc2,
            payloads,
            Seq::<Leaf>::empty(),
        ));
        assert(spec_txn_fold(acc2, payloads, Seq::<Leaf>::empty()) == acc2);
    } else {
        assert(leaves.push(l)[0] == leaves[0]);
        assert(leaves.push(l).drop_first() =~= leaves.drop_first().push(l));
        let acc2 = if has_key(payloads, leaves[0].view_number) {
            spec_dedup_extend(acc, lookup(payloads, leaves[0].view_number)@)
        } else {
            acc
        };
        lemma_txn_fold_push(acc2, payloads, leaves.drop_first(), l);
    }
}

/// One step of the decided-upgrade scan: a leaf's embedded certificate is
/// adopted when its decide-by view has not passed.
pub open spec fn spec_upgrade_step(base: Option<UpgradeCertificate>, l: Leaf, v: u64) -> Option<
    UpgradeCertificate,
> {
    match l.upgrade_certificate {
        Some(uc) => if uc.data.decide_by >= v {
            Some(uc)
        } else {
            base
        },
        None => base,
    }
}

/// The decided upgrade certificate after scanning a run of leaves in order.
pub open spec fn spec_upgrade_fold(
    base: Option<UpgradeCertificate>,
    leaves: Seq<Leaf>,
    v: u64,
) -> Option<UpgradeCertificate>
    decreases leaves.len(),
{
    if leaves.len() == 0 {
        base
    } else {
        spec_upgrade_fold(spec_upgrade_step(base, leaves[0], v), leaves.drop_first(), v)
    }
}

/// Appending one leaf scans it last.
pub proof fn lemma_upgrade_fold_push(
    base: Option<UpgradeCertificate>,
    leaves: Seq<Leaf>,
    l: Leaf,
    v: u64,
)
    ensures
        spec_upgrade_fold(base, leaves.push(l), v) == spec_upgrade_step(
            spec_upgrade_fold(base, leaves, v),
            l,
            v,
        ),
    decreases leaves.len(),
{
    if leaves.len() == 0 {
        assert(leaves.push(l)[0] == l);
        assert(leaves.push(l).drop_first() =~= Seq::<Leaf>::empty());
        assert(spec_upgrade_fold(base, leaves.push(l), v) == spec_upgrade_fold(
            spec_upgrade_step(base, l, v),
            Seq::<Leaf>::empty(),
            v,
        ));
        assert(spec_upgrade_fold(spec_upgrade_step(base, l, v), Seq::<Leaf>::empty(), v)
            == spec_upgrade_step(base, l, v));
    } else {
        assert(leaves.push(l)[0] == leaves[0]);
        assert(leaves.push(l).drop_first() =~= leaves.drop_first().push(l));
        lemma_upgrade_fold_push(spec_upgrade_step(base, leaves[0], v), leaves.drop_first(), l, v);
    }
}

} // verus!
