use consensus_core::events::{AppEvent, AppEventKind, HotShotEvent, Intent, Output};
use consensus_core::membership::Membership;
use consensus_core::store::Consensus;
use consensus_core::task::{ConsensusTaskState, ProposalError};
use consensus_core::types::{
    null_block_commitment, sign, vote_message_digest, BlockHeader, CertFormed,
    CommitmentAndMetadata, DaCertificate, Leaf, QuorumCertificate, QuorumProposal, QuorumVote,
    TimeoutVote, UpgradeCertificate, UpgradeData, Version, VidShare, SIGN_KIND_PROPOSAL,
    VOTE_KIND_QUORUM,
};

fn genesis_leaf() -> Leaf {
    Leaf {
        view_number: 0,
        justify_qc: QuorumCertificate { leaf_commit: 0, view: 0, signer_count: 0 },
        parent_commitment: 0,
        block_header: BlockHeader {
            payload_commitment: 0,
            builder_commitment: 0,
            metadata: 0,
            block_number: 0,
        },
        upgrade_certificate: None,
    }
}

fn mk_state(committee: Vec<u64>, pk: u64) -> ConsensusTaskState {
    ConsensusTaskState {
        public_key: pk,
        private_key: pk,
        consensus: Consensus::new(genesis_leaf()),
        timeout: 60,
        round_start_delay: 0,
        cur_view: 0,
        payload_commitment_and_metadata: None,
        quorum_membership: Membership { committee: committee.clone() },
        timeout_membership: Membership { committee: committee.clone() },
        committee_membership: Membership { committee },
        vote_collector: None,
        timeout_vote_collector: None,
        spawned_proposal_views: Vec::new(),
        formed_upgrade_certificate: None,
        proposal_cert: None,
        decided_upgrade_cert: None,
        version: Version { major: 0, minor: 1 },
        current_proposal: None,
        id: 0,
        latest_voted_view: 0,
        latest_timeout_voted_view: 0,
    }
}

fn proposal_chain(n: u64) -> Vec<QuorumProposal> {
    let mut parent = genesis_leaf();
    let mut out = Vec::new();
    for v in 1..=n {
        let p = QuorumProposal {
            block_header: BlockHeader {
                payload_commitment: 100 + v,
                builder_commitment: 0,
                metadata: 0,
                block_number: v,
            },
            view_number: v,
            justify_qc: QuorumCertificate {
                leaf_commit: parent.commit(),
                view: v - 1,
                signer_count: 3,
            },
            upgrade_certificate: None,
            view_change_evidence: None,
        };
        parent = Leaf::from_quorum_proposal(&p);
        out.push(p);
    }
    out
}

fn decide_events(outs: &[Output]) -> Vec<&AppEvent> {
    outs.iter()
        .filter_map(|o| match o {
            Output::AppEvent(ae) => match ae.event {
                AppEventKind::Decide { .. } => Some(ae),
                _ => None,
            },
            _ => None,
        })
        .collect()
}

#[test]
fn happy_path_three_chain_decide() {
    let mut state = mk_state(vec![1, 2, 3, 4], 1);
    let ps = proposal_chain(4);
    let mut all: Vec<Output> = Vec::new();
    for p in &ps {
        all.extend(state.handle(HotShotEvent::QuorumProposalValidated(*p)));
    }
    assert_eq!(state.consensus.last_decided_view, 1);
    assert_eq!(state.consensus.locked_view, 2);
    assert!(state.consensus.high_qc.view >= 3);
    let decides = decide_events(&all);
    assert_eq!(decides.len(), 1);
    match &decides[0].event {
        AppEventKind::Decide { leaf_chain, .. } => {
            assert_eq!(leaf_chain.len(), 1);
            assert_eq!(leaf_chain[0].leaf.view_number, 1);
        }
        _ => unreachable!(),
    }
}

#[test]
fn missed_view_via_timeout() {
    let mut state = mk_state(vec![1, 2, 3, 4], 1);
    state.cur_view = 2;
    let outs = state.handle(HotShotEvent::Timeout(2));
    let vote = TimeoutVote::create_signed(1, 2);
    assert!(outs.contains(&Output::TimeoutVoteSend(vote)));
    assert!(outs.contains(&Output::AppEvent(AppEvent {
        view_number: 2,
        event: AppEventKind::ViewTimeout { view_number: 2 },
    })));
    assert!(outs.contains(&Output::AppEvent(AppEvent {
        view_number: 2,
        event: AppEventKind::ReplicaViewTimeout { view_number: 2 },
    })));
    assert_eq!(state.consensus.metrics.number_of_timeouts, 1);
    assert_eq!(state.cur_view, 2);
}

#[test]
fn timeout_for_older_view_ignored() {
    let mut state = mk_state(vec![1, 2, 3, 4], 1);
    state.cur_view = 5;
    let outs = state.handle(HotShotEvent::Timeout(4));
    assert!(outs.is_empty());
    assert_eq!(state.consensus.metrics.number_of_timeouts, 0);
}

fn interim_state(payload_commitment: u64) -> (ConsensusTaskState, QuorumProposal) {
    let mut state = mk_state(vec![1, 2, 3, 4], 1);
    state.cur_view = 5;
    state.decided_upgrade_cert = Some(UpgradeCertificate {
        data: UpgradeData {
            old_version: Version { major: 0, minor: 1 },
            new_version: Version { major: 0, minor: 2 },
            old_version_last_view: 4,
            new_version_first_view: 10,
            decide_by: 9,
        },
        view: 4,
        signer_count: 3,
    });
    let parent = genesis_leaf();
    let p = QuorumProposal {
        block_header: BlockHeader {
            payload_commitment,
            builder_commitment: 0,
            metadata: 0,
            block_number: 5,
        },
        view_number: 5,
        justify_qc: QuorumCertificate { leaf_commit: parent.commit(), view: 4, signer_count: 3 },
        upgrade_certificate: None,
        view_change_evidence: None,
    };
    state.consensus.insert_vid_share(VidShare {
        view_number: 5,
        recipient_key: 1,
        payload_commitment,
        signature: sign(1, payload_commitment),
        fragment: 7,
    });
    state.consensus.insert_da_cert(DaCertificate {
        view: 5,
        payload_commit: payload_commitment,
        signer_count: 3,
    });
    state.current_proposal = Some(p);
    (state, p)
}

#[test]
fn interim_null_block_enforcement() {
    let (mut state, _p) = interim_state(777);
    let mut outs: Vec<Output> = Vec::new();
    let voted = state.vote_if_able(&mut outs);
    assert!(!voted);
    assert!(outs.is_empty());
}

#[test]
fn interim_null_block_votes() {
    let null = null_block_commitment(4);
    let (mut state, p) = interim_state(null);
    let mut outs: Vec<Output> = Vec::new();
    let voted = state.vote_if_able(&mut outs);
    assert!(voted);
    let commit = Leaf::from_quorum_proposal(&p).commit();
    let vote = QuorumVote::create_signed(1, 5, commit);
    assert!(outs.contains(&Output::QuorumVoteSend(vote)));
}

#[test]
fn stale_vid_share_rejected() {
    let mut state = mk_state(vec![1, 2, 3, 4], 1);
    state.cur_view = 10;
    let share = VidShare {
        view_number: 8,
        recipient_key: 1,
        payload_commitment: 42,
        signature: sign(1, 42),
        fragment: 0,
    };
    let outs = state.handle(HotShotEvent::VidShareRecv(share));
    assert!(outs.is_empty());
    assert!(state.consensus.vid_shares.is_empty());
}

#[test]
fn vid_share_one_view_old_accepted() {
    let mut state = mk_state(vec![1, 2, 3, 4], 1);
    state.cur_view = 9;
    let share = VidShare {
        view_number: 8,
        recipient_key: 2,
        payload_commitment: 42,
        signature: sign(1, 42),
        fragment: 0,
    };
    state.handle(HotShotEvent::VidShareRecv(share));
    assert_eq!(state.consensus.vid_shares.len(), 1);
}

#[test]
fn duplicate_vote_single_certificate() {
    // committee of two, threshold two; this node leads view 5
    let mut state = mk_state(vec![9, 1], 1);
    let commit = 555;
    let vote_x = QuorumVote::create_signed(9, 4, commit);
    let mut all: Vec<Output> = Vec::new();
    all.extend(state.handle(HotShotEvent::QuorumVoteRecv(vote_x)));
    let signers_after_first = state.vote_collector.as_ref().unwrap().signers.len();
    all.extend(state.handle(HotShotEvent::QuorumVoteRecv(vote_x)));
    let signers_after_second = state.vote_collector.as_ref().unwrap().signers.len();
    assert_eq!(signers_after_first, 1);
    assert_eq!(signers_after_second, 1);
    let vote_self = QuorumVote::create_signed(1, 4, commit);
    all.extend(state.handle(HotShotEvent::QuorumVoteRecv(vote_self)));
    let formed: Vec<_> = all
        .iter()
        .filter(|o| matches!(o, Output::QcFormedSend(CertFormed::Quorum(_))))
        .collect();
    assert_eq!(formed.len(), 1);
    assert_eq!(
        formed[0],
        &Output::QcFormedSend(CertFormed::Quorum(QuorumCertificate {
            leaf_commit: commit,
            view: 4,
            signer_count: 2,
        }))
    );
    assert!(state.vote_collector.is_none());
}

#[test]
fn decide_gc_and_leaf_chain_emission() {
    let mut state = mk_state(vec![1, 2, 3, 4], 1);
    state.cur_view = 10;
    // an anchored chain at views 6, 7, 8, 9; the decided view is 5
    let l6 = Leaf {
        view_number: 6,
        justify_qc: QuorumCertificate { leaf_commit: 0, view: 5, signer_count: 3 },
        parent_commitment: 0,
        block_header: BlockHeader {
            payload_commitment: 0,
            builder_commitment: 0,
            metadata: 0,
            block_number: 6,
        },
        upgrade_certificate: None,
    };
    let mk = |v: u64, parent: &Leaf| QuorumProposal {
        block_header: BlockHeader {
            payload_commitment: 100 + v,
            builder_commitment: 0,
            metadata: 0,
            block_number: v,
        },
        view_number: v,
        justify_qc: QuorumCertificate {
            leaf_commit: parent.commit(),
            view: v - 1,
            signer_count: 3,
        },
        upgrade_certificate: None,
        view_change_evidence: None,
    };
    let p7 = mk(7, &l6);
    let l7 = Leaf::from_quorum_proposal(&p7);
    let p8 = mk(8, &l7);
    let l8 = Leaf::from_quorum_proposal(&p8);
    let p9 = mk(9, &l8);
    let l9 = Leaf::from_quorum_proposal(&p9);
    let p10 = mk(10, &l9);
    state.consensus.insert_leaf(l6);
    state.consensus.insert_leaf(l7);
    state.consensus.insert_leaf(l8);
    state.consensus.insert_leaf(l9);
    state.consensus.locked_view = 5;
    state.consensus.last_decided_view = 5;
    state.consensus.high_qc = p10.justify_qc;
    state.consensus.insert_payload(6, vec![3, 4]);
    state.consensus.insert_payload(7, vec![1, 2, 2, 3]);
    state.consensus.insert_payload(8, vec![5]);
    let outs = state.handle(HotShotEvent::QuorumProposalValidated(p10));
    assert_eq!(state.consensus.locked_view, 8);
    assert_eq!(state.consensus.last_decided_view, 7);
    // everything below the new anchor is gone, the anchor's entries stay
    assert!(state.consensus.get_leaf(l6.commit()).is_none());
    assert!(state.consensus.get_leaf(l7.commit()).is_some());
    assert!(state.consensus.get_payload(6).is_none());
    assert!(state.consensus.get_payload(7).is_some());
    let decides = decide_events(&outs);
    assert_eq!(decides.len(), 1);
    assert_eq!(decides[0].view_number, 5);
    match &decides[0].event {
        AppEventKind::Decide { leaf_chain, qc, block_size } => {
            // oldest first: from the old anchor + 1 up to the new anchor
            assert_eq!(leaf_chain.len(), 2);
            assert_eq!(leaf_chain[0].leaf.view_number, 6);
            assert_eq!(leaf_chain[1].leaf.view_number, 7);
            assert_eq!(leaf_chain[1].payload.as_deref(), Some(&[1u64, 2, 2, 3][..]));
            assert_eq!(*block_size, 4);
            assert_eq!(*qc, p8.justify_qc);
        }
        _ => unreachable!(),
    }
    assert!(outs.contains(&Output::CancelTasksBelow(7)));
}

#[test]
fn commit_is_deterministic() {
    let ps = proposal_chain(2);
    let l_a = Leaf::from_quorum_proposal(&ps[1]);
    let l_b = Leaf::from_quorum_proposal(&ps[1].clone());
    assert_eq!(l_a.commit(), l_b.commit());
    let l0 = Leaf::from_quorum_proposal(&ps[0]);
    assert_ne!(l0.commit(), l_a.commit());
}

#[test]
fn membership_leader_and_threshold() {
    let m = Membership { committee: vec![10, 20, 30, 40] };
    assert_eq!(m.get_leader(0), 10);
    assert_eq!(m.get_leader(5), 20);
    assert_eq!(m.total_nodes(), 4);
    assert_eq!(m.success_threshold(), 3);
    assert!(m.has_stake(30));
    assert!(!m.has_stake(31));
}

#[test]
fn validate_disperse_accepts_leader_self_and_committee() {
    let state = mk_state(vec![1, 2, 3, 4], 1);
    let commit = 77;
    // leader of view 6 is 3
    let by_leader = VidShare {
        view_number: 6,
        recipient_key: 1,
        payload_commitment: commit,
        signature: sign(3, commit),
        fragment: 0,
    };
    assert!(state.validate_disperse(&by_leader));
    let by_self = VidShare { signature: sign(1, commit), ..by_leader };
    assert!(state.validate_disperse(&by_self));
    let by_member = VidShare { signature: sign(4, commit), ..by_leader };
    assert!(state.validate_disperse(&by_member));
    let by_stranger = VidShare { signature: sign(8, commit), ..by_leader };
    assert!(!state.validate_disperse(&by_stranger));
    let wrong_message = VidShare { signature: sign(3, commit + 1), ..by_leader };
    assert!(!state.validate_disperse(&wrong_message));
}

#[test]
fn update_view_advances_and_is_idempotent() {
    let mut state = mk_state(vec![1, 2, 3, 4], 1);
    let mut outs: Vec<Output> = Vec::new();
    assert!(state.update_view(3, &mut outs));
    assert_eq!(state.cur_view, 3);
    assert_eq!(
        outs,
        vec![
            Output::CancelTimeout,
            Output::Network(Intent::PollForProposal(3)),
            Output::Network(Intent::PollForVotes(3)),
            Output::Network(Intent::PollForVidDisperse(3)),
            Output::Network(Intent::PollForDac(3)),
            Output::ArmTimeout(3),
            Output::ViewChangeSend(3),
        ]
    );
    let mut outs2: Vec<Output> = Vec::new();
    assert!(!state.update_view(3, &mut outs2));
    assert!(outs2.is_empty());
    assert_eq!(state.cur_view, 3);
}

#[test]
fn view_change_swaps_version_at_first_view() {
    let mut state = mk_state(vec![1, 2, 3, 4], 1);
    state.decided_upgrade_cert = Some(UpgradeCertificate {
        data: UpgradeData {
            old_version: Version { major: 0, minor: 1 },
            new_version: Version { major: 0, minor: 2 },
            old_version_last_view: 3,
            new_version_first_view: 6,
            decide_by: 5,
        },
        view: 2,
        signer_count: 3,
    });
    let outs = state.handle(HotShotEvent::ViewChange(6));
    assert_eq!(state.version, Version { major: 0, minor: 2 });
    assert!(outs.contains(&Output::VersionUpgrade(Version { major: 0, minor: 2 })));
    assert!(outs.contains(&Output::AppEvent(AppEvent {
        view_number: 0,
        event: AppEventKind::ViewFinished { view_number: 0 },
    })));
}

#[test]
fn publish_proposal_builds_and_signs() {
    let mut state = mk_state(vec![1], 1);
    state.payload_commitment_and_metadata = Some(CommitmentAndMetadata {
        commitment: 42,
        builder_commitment: 43,
        metadata: 44,
        fee: 1,
        block_view: 1,
    });
    let mut outs: Vec<Output> = Vec::new();
    assert_eq!(state.publish_proposal(1, &mut outs), Ok(()));
    assert!(state.payload_commitment_and_metadata.is_none());
    assert_eq!(outs.len(), 1);
    match &outs[0] {
        Output::QuorumProposalSend(p, sig) => {
            assert_eq!(p.view_number, 1);
            assert_eq!(p.block_header.payload_commitment, 42);
            assert_eq!(p.justify_qc.view, 0);
            let leaf = Leaf::from_quorum_proposal(p);
            let msg = vote_message_digest(SIGN_KIND_PROPOSAL, leaf.commit(), 1);
            assert!(sig.validates(1, msg));
        }
        _ => unreachable!(),
    }
    // a second launch for the same view is a no-op
    let mut outs2: Vec<Output> = Vec::new();
    assert_eq!(state.publish_proposal(1, &mut outs2), Ok(()));
    assert!(outs2.is_empty());
}

#[test]
fn publish_proposal_errors() {
    let mut state = mk_state(vec![1, 2], 1);
    let mut outs: Vec<Output> = Vec::new();
    // leader of view 1 is node 2
    assert_eq!(state.publish_proposal(1, &mut outs), Err(ProposalError::NotLeader));
    // leader of view 2 is this node, but the high QC is at view 0
    assert_eq!(state.publish_proposal(2, &mut outs), Err(ProposalError::MissingJustification));
    state.consensus.high_qc.view = 1;
    assert_eq!(
        state.publish_proposal(2, &mut outs),
        Err(ProposalError::MissingPayloadCommitment)
    );
    assert!(outs.is_empty());
}

#[test]
fn upgrade_certificate_window() {
    let mut state = mk_state(vec![1, 2, 3, 4], 1);
    state.cur_view = 4;
    let mk = |decide_by: u64| UpgradeCertificate {
        data: UpgradeData {
            old_version: Version { major: 0, minor: 1 },
            new_version: Version { major: 0, minor: 2 },
            old_version_last_view: 8,
            new_version_first_view: 12,
            decide_by,
        },
        view: 4,
        signer_count: 3,
    };
    state.handle(HotShotEvent::UpgradeCertificateFormed(mk(6)));
    assert!(state.formed_upgrade_certificate.is_none());
    state.handle(HotShotEvent::UpgradeCertificateFormed(mk(7)));
    assert_eq!(state.formed_upgrade_certificate, Some(mk(7)));
}

#[test]
fn quorum_vote_signature_round_trip() {
    let vote = QuorumVote::create_signed(5, 9, 1234);
    assert!(vote.is_signed());
    let mut forged = vote;
    forged.signer = 6;
    assert!(!forged.is_signed());
    let digest = vote_message_digest(VOTE_KIND_QUORUM, 1234, 9);
    assert!(vote.signature.validates(5, digest));
}

#[test]
fn timeout_vote_deduplicated_per_view() {
    let mut state = mk_state(vec![1, 2, 3, 4], 1);
    state.cur_view = 3;
    let first = state.handle(HotShotEvent::Timeout(3));
    let second = state.handle(HotShotEvent::Timeout(3));
    let count = |outs: &[Output]| {
        outs.iter().filter(|o| matches!(o, Output::TimeoutVoteSend(_))).count()
    };
    assert_eq!(count(&first), 1);
    assert_eq!(count(&second), 0);
    assert_eq!(state.consensus.metrics.number_of_timeouts, 1);
}

#[test]
fn single_quorum_vote_per_view() {
    let null_free = 555u64;
    let (mut state, _p) = {
        // reuse the interim setup without an upgrade certificate in force
        let mut s = interim_state(null_free);
        s.0.decided_upgrade_cert = None;
        s
    };
    let mut outs: Vec<Output> = Vec::new();
    assert!(state.vote_if_able(&mut outs));
    // a second attempt for the same view sends nothing
    let mut outs2: Vec<Output> = Vec::new();
    assert!(!state.vote_if_able(&mut outs2));
    assert!(outs2.is_empty());
    let votes = outs
        .iter()
        .filter(|o| matches!(o, Output::QuorumVoteSend(_)))
        .count();
    assert_eq!(votes, 1);
    assert_eq!(state.latest_voted_view, 5);
}

#[test]
fn run_views_monotone() {
    let mut state = mk_state(vec![1, 2, 3, 4], 1);
    let ps = proposal_chain(4);
    let events = vec![
        HotShotEvent::ViewChange(1),
        HotShotEvent::QuorumProposalValidated(ps[0]),
        HotShotEvent::QuorumProposalValidated(ps[1]),
        HotShotEvent::Timeout(1),
        HotShotEvent::ViewChange(3),
        HotShotEvent::QuorumProposalValidated(ps[2]),
        HotShotEvent::ViewChange(2),
        HotShotEvent::QuorumProposalValidated(ps[3]),
    ];
    let mut last = (0u64, 0u64, 0u64, 0u64);
    for e in events {
        state.handle(e);
        let now = (
            state.cur_view,
            state.consensus.locked_view,
            state.consensus.last_decided_view,
            state.consensus.high_qc.view,
        );
        assert!(now.0 >= last.0 && now.1 >= last.1 && now.2 >= last.2 && now.3 >= last.3);
        last = now;
    }
    assert_eq!(state.consensus.last_decided_view, 1);
    assert_eq!(state.consensus.locked_view, 2);
}
