//! Events the consensus task consumes, and the actions it hands back to the
//! shell that runs it: broadcasts on the event bus, application events,
//! network polling intents, timer commands and storage writes.

use vstd::prelude::*;
use crate::types::{
    CertFormed, DaCertificate, Leaf, QuorumCertificate, QuorumProposal, QuorumVote, Signature,
    TimeoutVote, UpgradeCertificate, Version, VidShare, ViewSyncFinalizeCertificate,
};

verus! {

/// An event arriving on the task's input stream.
#[derive(Clone, Copy, Debug, PartialEq, Eq)]
pub enum HotShotEvent {
    /// A proposal from the network: the proposal, the leader's signature
    /// over the proposed leaf's commitment, and the sender's key.
    QuorumProposalRecv(QuorumProposal, Signature, u64),
    /// A proposal that passed validation.
    QuorumProposalValidated(QuorumProposal),
    QuorumVoteRecv(QuorumVote),
    TimeoutVoteRecv(TimeoutVote),
    /// A certificate completed by a vote accumulator.
    QcFormed(CertFormed),
    UpgradeCertificateFormed(UpgradeCertificate),
    DaCertificateRecv(DaCertificate),
    VidShareRecv(VidShare),
    ViewChange(u64),
    Timeout(u64),
    /// Payload commitment, builder commitment, metadata, view, fee.
    SendPayloadCommitmentAndMetadata(u64, u64, u64, u64, u64),
    ViewSyncFinalizeCertificateRecv(ViewSyncFinalizeCertificate),
    Shutdown,
}

/// A network polling intent handed to the network adapter.
#[derive(Clone, Copy, Debug, PartialEq, Eq)]
pub enum Intent {
    PollForProposal(u64),
    PollForVotes(u64),
    PollForVidDisperse(u64),
    PollForDac(u64),
    CancelPollForProposal(u64),
    CancelPollForVotes(u64),
    CancelPollForVidDisperse(u64),
    CancelPollForDac(u64),
}

/// One element of a decided leaf chain: the leaf, its hydrated payload when
/// the store had it, and the node's own VID share when present.
#[derive(Debug, PartialEq, Eq)]
pub struct LeafInfo {
    pub leaf: Leaf,
    pub payload: Option<Vec<u64>>,
    pub vid_share: Option<VidShare>,
}

/// An event on the application stream.
#[derive(Debug, PartialEq, Eq)]
pub enum AppEventKind {
    Decide { leaf_chain: Vec<LeafInfo>, qc: QuorumCertificate, block_size: u64 },
    ViewFinished { view_number: u64 },
    ViewTimeout { view_number: u64 },
    ReplicaViewTimeout { view_number: u64 },
}

/// An application-stream event, tagged with the view it belongs to.
#[derive(Debug, PartialEq, Eq)]
pub struct AppEvent {
    pub view_number: u64,
    pub event: AppEventKind,
}

/// An action the shell must perform on the task's behalf.
#[derive(Debug, PartialEq, Eq)]
pub enum Output {
    /// Broadcast a signed proposal on the event bus and the network.
    QuorumProposalSend(QuorumProposal, Signature),
    QuorumVoteSend(QuorumVote),
    TimeoutVoteSend(TimeoutVote),
    /// Re-inject a completed certificate on the event bus.
    QcFormedSend(CertFormed),
    /// Announce the decided leaves on the event bus.
    LeafDecided(Vec<Leaf>),
    VersionUpgrade(Version),
    /// Announce a view change on the event bus.
    ViewChangeSend(u64),
    AppEvent(AppEvent),
    Network(Intent),
    /// Cancel every per-view sub-task keyed under the view.
    CancelTasksBelow(u64),
    /// Arm the view timer: fire `Timeout(view)` after the timeout.
    ArmTimeout(u64),
    CancelTimeout,
    /// Persist the node's own VID share.
    StorageAppendVid(VidShare),
    /// Persist the new high QC.
    StorageUpdateHighQc(QuorumCertificate),
}

} // verus!
