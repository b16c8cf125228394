//! Data model of the protocol: views, versions, keys and signatures,
//! certificates, leaves and proposals.
//!
//! Commitments are 64-bit digests of a canonical encoding of the committed
//! fields, built from a fixed mixing function, so that equal values always
//! produce equal commitments. Keys and signatures are modelled as plain
//! integers: a signature is valid exactly when it was produced by the claimed
//! key over the claimed message. A certificate carries the number of distinct
//! staked signers behind it, standing for its aggregate signature; the vote
//! accumulator is what establishes that count.

use vstd::prelude::*;
use crate::membership::Membership;

verus! {

/// Offset basis of the mixing function.
pub const DIGEST_OFFSET: u64 = 0xcbf2_9ce4_8422_2325;

/// Multiplier of the mixing function.
pub const DIGEST_PRIME: u64 = 0x0000_0100_0000_01b3;

/// One mixing step of the running digest: xor the word in, then multiply,
/// keeping the low 64 bits.
pub open spec fn mix(h: u64, x: u64) -> u64 {
    vstd::wrapping::u64_specs::wrapping_mul(h ^ x, DIGEST_PRIME)
}

/// Executable mixing step.
pub fn mix_word(h: u64, x: u64) -> (r: u64)
    ensures
        r == mix(h, x),
{
    (h ^ x).wrapping_mul(DIGEST_PRIME)
}

/// A protocol version.
#[derive(Clone, Copy, Debug, PartialEq, Eq, Structural)]
pub struct Version {
    pub major: u16,
    pub minor: u16,
}

/// A signature over a 64-bit message digest. A signature is valid for a
/// public key and a message exactly when `signer` equals the key and
/// `message` equals the digest: the model of a perfect signature scheme.
#[derive(Clone, Copy, Debug, PartialEq, Eq, Structural)]
pub struct Signature {
    pub signer: u64,
    pub message: u64,
}

impl Signature {
    /// Whether this signature is by `public_key` over `message`.
    pub open spec fn spec_validates(self, public_key: u64, message: u64) -> bool {
        self.signer == public_key && self.message == message
    }

    /// Check the signature against a key and a message.
    pub fn validates(&self, public_key: u64, message: u64) -> (r: bool)
        ensures
            r == self.spec_validates(public_key, message),
    {
        self.signer == public_key && self.message == message
    }
}

/// Sign a message digest with a private key (the key pair is one integer).
pub fn sign(private_key: u64, message: u64) -> (s: Signature)
    ensures
        s == (Signature { signer: private_key, message }),
{
    Signature { signer: private_key, message }
}

/// Tag of quorum votes in the signed message.
pub const VOTE_KIND_QUORUM: u64 = 1;

/// Tag of timeout votes in the signed message.
pub const VOTE_KIND_TIMEOUT: u64 = 2;

/// Tag of proposals in the signed message.
pub const SIGN_KIND_PROPOSAL: u64 = 3;

/// Digest signed by a vote: binds the vote kind, its payload and its view.
pub open spec fn vote_message(kind: u64, data: u64, view: u64) -> u64 {
    mix(mix(mix(DIGEST_OFFSET, kind), data), view)
}

/// Executable form of [`vote_message`].
pub fn vote_message_digest(kind: u64, data: u64, view: u64) -> (r: u64)
    ensures
        r == vote_message(kind, data, view),
{
    mix_word(mix_word(mix_word(DIGEST_OFFSET, kind), data), view)
}

/// A quorum certificate: aggregate of votes on a leaf commitment at a view.
/// `signer_count` is the number of distinct staked signers aggregated.
#[derive(Clone, Copy, Debug, PartialEq, Eq, Structural)]
pub struct QuorumCertificate {
    pub leaf_commit: u64,
    pub view: u64,
    pub signer_count: u64,
}

/// A timeout certificate: aggregate of timeout votes for a view.
#[derive(Clone, Copy, Debug, PartialEq, Eq, Structural)]
pub struct TimeoutCertificate {
    pub view: u64,
    pub signer_count: u64,
}

/// A view-sync finalize certificate authorizing a jump to `view`.
#[derive(Clone, Copy, Debug, PartialEq, Eq, Structural)]
pub struct ViewSyncFinalizeCertificate {
    pub view: u64,
    pub signer_count: u64,
}

/// A data-availability certificate for the payload of a view.
#[derive(Clone, Copy, Debug, PartialEq, Eq, Structural)]
pub struct DaCertificate {
    pub view: u64,
    pub payload_commit: u64,
    pub signer_count: u64,
}

/// Whether an aggregate of `signer_count` signers meets the certificate
/// threshold of a membership.
pub open spec fn spec_meets_threshold(signer_count: u64, m: Membership) -> bool {
    signer_count >= m.spec_success_threshold()
}

impl QuorumCertificate {
    /// Check the certificate against a membership.
    pub fn is_valid_cert(&self, m: &Membership) -> (r: bool)
        requires
            m.spec_total_nodes() <= usize::MAX / 2,
        ensures
            r == spec_meets_threshold(self.signer_count, *m),
    {
        self.signer_count >= m.success_threshold() as u64
    }
}

impl TimeoutCertificate {
    /// Check the certificate against a membership.
    pub fn is_valid_cert(&self, m: &Membership) -> (r: bool)
        requires
            m.spec_total_nodes() <= usize::MAX / 2,
        ensures
            r == spec_meets_threshold(self.signer_count, *m),
    {
        self.signer_count >= m.success_threshold() as u64
    }
}

impl ViewSyncFinalizeCertificate {
    /// Check the certificate against a membership.
    pub fn is_valid_cert(&self, m: &Membership) -> (r: bool)
        requires
            m.spec_total_nodes() <= usize::MAX / 2,
        ensures
            r == spec_meets_threshold(self.signer_count, *m),
    {
        self.signer_count >= m.success_threshold() as u64
    }
}

impl DaCertificate {
    /// Check the certificate against a membership.
    pub fn is_valid_cert(&self, m: &Membership) -> (r: bool)
        requires
            m.spec_total_nodes() <= usize::MAX / 2,
        ensures
            r == spec_meets_threshold(self.signer_count, *m),
    {
        self.signer_count >= m.success_threshold() as u64
    }
}

/// Payload of an upgrade certificate: the version transition it announces.
#[derive(Clone, Copy, Debug, PartialEq, Eq, Structural)]
pub struct UpgradeData {
    pub old_version: Version,
    pub new_version: Version,
    /// Last view on which the old version applies.
    pub old_version_last_view: u64,
    /// First view on which the new version applies.
    pub new_version_first_view: u64,
    /// View by which the certificate must be decided to take effect.
    pub decide_by: u64,
}

/// An upgrade certificate: an in-band announcement of a version transition.
#[derive(Clone, Copy, Debug, PartialEq, Eq, Structural)]
pub struct UpgradeCertificate {
    pub data: UpgradeData,
    pub view: u64,
    pub signer_count: u64,
}

impl UpgradeCertificate {
    /// Whether `view` lies in the interim between the two versions.
    pub open spec fn spec_in_interim(self, view: u64) -> bool {
        self.data.old_version_last_view < view && view < self.data.new_version_first_view
    }

    /// Check whether `view` lies in the interim between the two versions.
    pub fn in_interim(&self, view: u64) -> (r: bool)
        ensures
            r == self.spec_in_interim(view),
    {
        self.data.old_version_last_view < view && view < self.data.new_version_first_view
    }
}

/// A block header: the commitments and metadata a proposal carries.
#[derive(Clone, Copy, Debug, PartialEq, Eq, Structural)]
pub struct BlockHeader {
    pub payload_commitment: u64,
    pub builder_commitment: u64,
    pub metadata: u64,
    pub block_number: u64,
}

/// Evidence authorizing a view change that is not a consecutive QC link.
#[derive(Clone, Copy, Debug, PartialEq, Eq)]
pub enum ViewChangeEvidence {
    Timeout(TimeoutCertificate),
    ViewSync(ViewSyncFinalizeCertificate),
}

/// A quorum proposal, as validated and handed to the consensus task.
#[derive(Clone, Copy, Debug, PartialEq, Eq)]
pub struct QuorumProposal {
    pub block_header: BlockHeader,
    pub view_number: u64,
    pub justify_qc: QuorumCertificate,
    pub upgrade_certificate: Option<UpgradeCertificate>,
    pub view_change_evidence: Option<ViewChangeEvidence>,
}

/// A leaf of the chain: a block extending a parent by commitment. Decoded
/// payloads are kept beside leaves (in the store and in the decided leaf
/// chain), not inside them.
#[derive(Clone, Copy, Debug, PartialEq, Eq)]
pub struct Leaf {
    pub view_number: u64,
    pub justify_qc: QuorumCertificate,
    pub parent_commitment: u64,
    pub block_header: BlockHeader,
    pub upgrade_certificate: Option<UpgradeCertificate>,
}

/// Digest of the canonical encoding of a leaf: its view, parent commitment,
/// header fields and justify QC, plus the embedded upgrade certificate when
/// present.
pub open spec fn leaf_commitment(l: Leaf) -> u64 {
    let h = mix(
        mix(
            mix(
                mix(
                    mix(
                        mix(
                            mix(mix(DIGEST_OFFSET, l.view_number), l.parent_commitment),
                            l.block_header.payload_commitment,
                        ),
                        l.block_header.builder_commitment,
                    ),
                    l.block_header.metadata,
                ),
                l.block_header.block_number,
            ),
            l.justify_qc.leaf_commit,
        ),
        l.justify_qc.view,
    );
    match l.upgrade_certificate {
        Some(uc) => mix(
            mix(
                mix(
                    mix(mix(mix(h, 1), uc.data.old_version_last_view), uc.data.new_version_first_view),
                    uc.data.decide_by,
                ),
                (uc.data.new_version.major as u64),
            ),
            (uc.data.new_version.minor as u64),
        ),
        None => h,
    }
}

impl Leaf {
    /// Commitment of this leaf.
    pub fn commit(&self) -> (c: u64)
        ensures
            c == leaf_commitment(*self),
    {
        let h = mix_word(
            mix_word(
                mix_word(
                    mix_word(
                        mix_word(
                            mix_word(
                                mix_word(mix_word(DIGEST_OFFSET, self.view_number), self.parent_commitment),
                                self.block_header.payload_commitment,
                            ),
                            self.block_header.builder_commitment,
                        ),
                        self.block_header.metadata,
                    ),
                    self.block_header.block_number,
                ),
                self.justify_qc.leaf_commit,
            ),
            self.justify_qc.view,
        );
        match &self.upgrade_certificate {
            Some(uc) => mix_word(
                mix_word(
                    mix_word(
                        mix_word(
                            mix_word(mix_word(h, 1), uc.data.old_version_last_view),
                            uc.data.new_version_first_view,
                        ),
                        uc.data.decide_by,
                    ),
                    (uc.data.new_version.major as u64),
                ),
                (uc.data.new_version.minor as u64),
            ),
            None => h,
        }
    }

    /// The leaf a quorum proposal describes.
    pub open spec fn spec_from_quorum_proposal(p: QuorumProposal) -> Leaf {
        Leaf {
            view_number: p.view_number,
            justify_qc: p.justify_qc,
            parent_commitment: p.justify_qc.leaf_commit,
            block_header: p.block_header,
            upgrade_certificate: p.upgrade_certificate,
        }
    }

    /// Build the leaf a quorum proposal describes.
    pub fn from_quorum_proposal(p: &QuorumProposal) -> (l: Leaf)
        ensures
            l == Leaf::spec_from_quorum_proposal(*p),
    {
        Leaf {
            view_number: p.view_number,
            justify_qc: p.justify_qc,
            parent_commitment: p.justify_qc.leaf_commit,
            block_header: p.block_header,
            upgrade_certificate: p.upgrade_certificate,
        }
    }

    /// Height of the block this leaf carries.
    pub fn get_height(&self) -> (h: u64)
        ensures
            h == self.block_header.block_number,
    {
        self.block_header.block_number
    }
}

/// A verifiable-information-dispersal share addressed to one node, together
/// with the dispersal signature it arrived under. The erasure-coded fragment
/// is carried as an opaque handle.
#[derive(Clone, Copy, Debug, PartialEq, Eq, Structural)]
pub struct VidShare {
    pub view_number: u64,
    pub recipient_key: u64,
    pub payload_commitment: u64,
    pub signature: Signature,
    pub fragment: u64,
}

/// Commitment and metadata of a payload submitted to the DA committee.
#[derive(Clone, Copy, Debug, PartialEq, Eq, Structural)]
pub struct CommitmentAndMetadata {
    pub commitment: u64,
    pub builder_commitment: u64,
    pub metadata: u64,
    pub fee: u64,
    pub block_view: u64,
}

/// A certificate formed by a vote accumulator: a quorum QC or a timeout QC.
#[derive(Clone, Copy, Debug, PartialEq, Eq)]
pub enum CertFormed {
    Quorum(QuorumCertificate),
    Timeout(TimeoutCertificate),
}

/// A quorum vote: a signed endorsement of a leaf commitment at a view.
#[derive(Clone, Copy, Debug, PartialEq, Eq, Structural)]
pub struct QuorumVote {
    pub signer: u64,
    pub view: u64,
    pub leaf_commit: u64,
    pub signature: Signature,
}

impl QuorumVote {
    /// Whether the vote's signature is by its signer over its content.
    pub open spec fn spec_is_signed(self) -> bool {
        self.signature.spec_validates(self.signer, vote_message(VOTE_KIND_QUORUM, self.leaf_commit, self.view))
    }

    /// Sign a quorum vote.
    pub fn create_signed(private_key: u64, view: u64, leaf_commit: u64) -> (v: QuorumVote)
        ensures
            v.signer == private_key,
            v.view == view,
            v.leaf_commit == leaf_commit,
            v.spec_is_signed(),
    {
        let message = vote_message_digest(VOTE_KIND_QUORUM, leaf_commit, view);
        QuorumVote { signer: private_key, view, leaf_commit, signature: sign(private_key, message) }
    }

    /// Check the vote's signature.
    pub fn is_signed(&self) -> (r: bool)
        ensures
            r == self.spec_is_signed(),
    {
        let message = vote_message_digest(VOTE_KIND_QUORUM, self.leaf_commit, self.view);
        self.signature.validates(self.signer, message)
    }
}

/// A timeout vote: a signed statement that a view timed out.
#[derive(Clone, Copy, Debug, PartialEq, Eq, Structural)]
pub struct TimeoutVote {
    pub signer: u64,
    pub view: u64,
    pub signature: Signature,
}

impl TimeoutVote {
    /// Whether the vote's signature is by its signer over its content.
    pub open spec fn spec_is_signed(self) -> bool {
        self.signature.spec_validates(self.signer, vote_message(VOTE_KIND_TIMEOUT, self.view, self.view))
    }

    /// Sign a timeout vote.
    pub fn create_signed(private_key: u64, view: u64) -> (v: TimeoutVote)
        ensures
            v.signer == private_key,
            v.view == view,
            v.spec_is_signed(),
    {
        let message = vote_message_digest(VOTE_KIND_TIMEOUT, view, view);
        TimeoutVote { signer: private_key, view, signature: sign(private_key, message) }
    }

    /// Check the vote's signature.
    pub fn is_signed(&self) -> (r: bool)
        ensures
            r == self.spec_is_signed(),
    {
        let message = vote_message_digest(VOTE_KIND_TIMEOUT, self.view, self.view);
        self.signature.validates(self.signer, message)
    }
}

/// The canonical commitment of the null block for a quorum of `n` nodes:
/// what proposals must carry in the interim between two versions.
pub open spec fn spec_null_block_commitment(n: usize) -> u64 {
    mix(mix(DIGEST_OFFSET, 0), n as u64)
}

/// Executable form of [`spec_null_block_commitment`].
pub fn null_block_commitment(n: usize) -> (r: u64)
    ensures
        r == spec_null_block_commitment(n),
{
    mix_word(mix_word(DIGEST_OFFSET, 0), n as u64)
}

/// Copy a vector of keys or commitments.
pub fn clone_u64_vec(v: &Vec<u64>) -> (r: Vec<u64>)
    ensures
        r@ == v@,
{
    let mut r: Vec<u64> = Vec::new();
    let mut i: usize = 0;
    while i < v.len()
        invariant
            0 <= i <= v@.len(),
            r@ == v@.subrange(0, i as int),
        decreases v@.len() - i,
    {
        r.push(v[i]);
        i = i + 1;
    }
    proof {
        assert(r@ =~= v@);
    }
    r
}

} // verus!
