//! Quorum certificates and votes.

use vstd::prelude::*;

use crate::hashing::extend_bytes;
use crate::ids::{lemma_split_tail, lemma_u64_le_injective, lemma_u64_le_len, u64_le, Epoch, NodeHeight, PayloadId, ShardId, TreeNodeHash};

verus! {

/// The outcome that a quorum agreed on.
#[derive(Clone, Copy, Debug, PartialEq, Eq, Structural)]
pub enum QuorumDecision {
    Accept,
    Reject,
}

/// Proof that a quorum of a shard's committee voted for a node.
#[derive(Clone, Copy, Debug, PartialEq, Eq)]
pub struct QuorumCertificate {
    pub payload_id: PayloadId,
    pub payload_height: NodeHeight,
    pub local_node_hash: TreeNodeHash,
    pub local_node_height: NodeHeight,
    pub shard: ShardId,
    pub epoch: Epoch,
    pub decision: QuorumDecision,
}

/// A validator's vote for a node of a shard.
#[derive(Clone, Copy, Debug, PartialEq, Eq)]
pub struct VoteMessage {
    pub local_node_hash: TreeNodeHash,
    pub shard: ShardId,
    pub decision: QuorumDecision,
}

pub open spec fn decision_byte(d: QuorumDecision) -> u8 {
    match d {
        QuorumDecision::Accept => 0,
        QuorumDecision::Reject => 1,
    }
}

/// The byte encoding of a certificate that enters a node's hash.
pub open spec fn qc_bytes(qc: QuorumCertificate) -> Seq<u8> {
    qc.payload_id.bytes() + u64_le(qc.payload_height.0) + qc.local_node_hash.bytes() + u64_le(
        qc.local_node_height.0,
    ) + qc.shard.bytes() + u64_le(qc.epoch.0) + seq![decision_byte(qc.decision)]
}

/// Whether `qc` is the vacuous certificate that starts `epoch`.
pub open spec fn is_genesis_qc(qc: QuorumCertificate, epoch: Epoch) -> bool {
    &&& qc.payload_id.bytes() == Seq::new(32, |i: int| 0u8)
    &&& qc.payload_height == NodeHeight(0)
    &&& qc.local_node_hash.bytes() == Seq::new(32, |i: int| 0u8)
    &&& qc.local_node_height == NodeHeight(0)
    &&& qc.shard.bytes() == Seq::new(32, |i: int| 0u8)
    &&& qc.epoch == epoch
    &&& qc.decision == QuorumDecision::Accept
}

pub proof fn lemma_qc_bytes_len(qc: QuorumCertificate)
    ensures
        qc_bytes(qc).len() == 121,
{
    lemma_u64_le_len(qc.payload_height.0);
    lemma_u64_le_len(qc.local_node_height.0);
    lemma_u64_le_len(qc.epoch.0);
}

/// Distinct certificates have distinct encodings.
pub proof fn lemma_qc_bytes_injective(a: QuorumCertificate, b: QuorumCertificate)
    requires
        qc_bytes(a) == qc_bytes(b),
    ensures
        a == b,
{
    lemma_u64_le_len(a.payload_height.0);
    lemma_u64_le_len(a.local_node_height.0);
    lemma_u64_le_len(a.epoch.0);
    lemma_u64_le_len(b.payload_height.0);
    lemma_u64_le_len(b.local_node_height.0);
    lemma_u64_le_len(b.epoch.0);
    let a6 = a.payload_id.bytes() + u64_le(a.payload_height.0) + a.local_node_hash.bytes() + u64_le(
        a.local_node_height.0,
    ) + a.shard.bytes() + u64_le(a.epoch.0);
    let b6 = b.payload_id.bytes() + u64_le(b.payload_height.0) + b.local_node_hash.bytes() + u64_le(
        b.local_node_height.0,
    ) + b.shard.bytes() + u64_le(b.epoch.0);
    lemma_split_tail(a6, seq![decision_byte(a.decision)], b6, seq![decision_byte(b.decision)]);
    assert(decision_byte(a.decision) == seq![decision_byte(a.decision)][0]);
    assert(a.decision == b.decision);
    let a5 = a.payload_id.bytes() + u64_le(a.payload_height.0) + a.local_node_hash.bytes() + u64_le(
        a.local_node_height.0,
    ) + a.shard.bytes();
    let b5 = b.payload_id.bytes() + u64_le(b.payload_height.0) + b.local_node_hash.bytes() + u64_le(
        b.local_node_height.0,
    ) + b.shard.bytes();
    lemma_split_tail(a5, u64_le(a.epoch.0), b5, u64_le(b.epoch.0));
    lemma_u64_le_injective(a.epoch.0, b.epoch.0);
    let a4 = a.payload_id.bytes() + u64_le(a.payload_height.0) + a.local_node_hash.bytes() + u64_le(
        a.local_node_height.0,
    );
    let b4 = b.payload_id.bytes() + u64_le(b.payload_height.0) + b.local_node_hash.bytes() + u64_le(
        b.local_node_height.0,
    );
    lemma_split_tail(a4, a.shard.bytes(), b4, b.shard.bytes());
    assert(a.shard.0 =~= b.shard.0);
    let a3 = a.payload_id.bytes() + u64_le(a.payload_height.0) + a.local_node_hash.bytes();
    let b3 = b.payload_id.bytes() + u64_le(b.payload_height.0) + b.local_node_hash.bytes();
    lemma_split_tail(a3, u64_le(a.local_node_height.0), b3, u64_le(b.local_node_height.0));
    lemma_u64_le_injective(a.local_node_height.0, b.local_node_height.0);
    let a2 = a.payload_id.bytes() + u64_le(a.payload_height.0);
    let b2 = b.payload_id.bytes() + u64_le(b.payload_height.0);
    lemma_split_tail(a2, a.local_node_hash.bytes(), b2, b.local_node_hash.bytes());
    assert(a.local_node_hash.0 =~= b.local_node_hash.0);
    lemma_split_tail(a.payload_id.bytes(), u64_le(a.payload_height.0), b.payload_id.bytes(), u64_le(b.payload_height.0));
    lemma_u64_le_injective(a.payload_height.0, b.payload_height.0);
    assert(a.payload_id.id =~= b.payload_id.id);
}

impl QuorumCertificate {
    /// The vacuous certificate that starts `epoch`.
    pub fn genesis(epoch: Epoch) -> (r: QuorumCertificate)
        ensures
            is_genesis_qc(r, epoch),
    {
        QuorumCertificate {
            payload_id: PayloadId::zero(),
            payload_height: NodeHeight(0),
            local_node_hash: TreeNodeHash::zero(),
            local_node_height: NodeHeight(0),
            shard: ShardId::zero(),
            epoch,
            decision: QuorumDecision::Accept,
        }
    }

    pub fn local_node_hash(&self) -> (r: TreeNodeHash)
        ensures
            r == self.local_node_hash,
    {
        self.local_node_hash
    }

    pub fn local_node_height(&self) -> (r: NodeHeight)
        ensures
            r == self.local_node_height,
    {
        self.local_node_height
    }

    pub fn shard(&self) -> (r: ShardId)
        ensures
            r == self.shard,
    {
        self.shard
    }

    pub fn epoch(&self) -> (r: Epoch)
        ensures
            r == self.epoch,
    {
        self.epoch
    }

    /// The byte encoding of the certificate.
    pub fn as_bytes(&self) -> (r: Vec<u8>)
        ensures
            r@ == qc_bytes(*self),
    {
        let mut r = self.payload_id.to_vec();
        extend_bytes(&mut r, &self.payload_height.to_le_bytes());
        extend_bytes(&mut r, &self.local_node_hash.as_bytes());
        extend_bytes(&mut r, &self.local_node_height.to_le_bytes());
        extend_bytes(&mut r, &self.shard.to_le_bytes());
        extend_bytes(&mut r, &self.epoch.to_le_bytes());
        let d: u8 = match self.decision {
            QuorumDecision::Accept => 0,
            QuorumDecision::Reject => 1,
        };
        r.push(d);
        r
    }
}

} // verus!
