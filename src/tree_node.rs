//! Nodes of a shard's proposal tree. A node's hash is computed from its
//! content when it is built and identifies it from then on.

use vstd::prelude::*;

use crate::hashing::{blake256, blake256_of, extend_bytes};
use crate::ids::{
    lemma_split_tail, lemma_u64_le_injective, lemma_u64_le_len, u64_le, Epoch, NodeHeight,
    PayloadId, PublicKey, ShardId, TreeNodeHash,
};
use crate::payload::Payload;
use crate::quorum::{is_genesis_qc, lemma_qc_bytes_injective, lemma_qc_bytes_len, qc_bytes, QuorumCertificate};
use crate::substate::{ObjectPledge, ObjectPledgeView};

verus! {

/// A vertex of a shard's proposal tree.
#[derive(Clone, Debug)]
pub struct HotStuffTreeNode<P> {
    hash: TreeNodeHash,
    parent: TreeNodeHash,
    shard: ShardId,
    height: NodeHeight,
    /// The payload that the node proposes.
    payload_id: PayloadId,
    payload: Option<P>,
    /// How far consensus on the payload has come; it is committed at 4.
    payload_height: NodeHeight,
    local_pledge: Option<ObjectPledge>,
    epoch: Epoch,
    justify: QuorumCertificate,
    proposed_by: PublicKey,
}

/// The mathematical value of a tree node.
pub struct NodeView<V> {
    pub hash: TreeNodeHash,
    pub parent: TreeNodeHash,
    pub shard: ShardId,
    pub height: NodeHeight,
    pub payload_id: PayloadId,
    pub payload: Option<V>,
    pub payload_height: NodeHeight,
    pub local_pledge: Option<ObjectPledgeView>,
    pub epoch: Epoch,
    pub justify: QuorumCertificate,
    pub proposed_by: PublicKey,
}

pub open spec fn option_view<T: View>(o: Option<T>) -> Option<T::V> {
    match o {
        Some(t) => Some(t@),
        None => None,
    }
}

/// The bytes that a node's hash is taken over, integers little-endian.
pub open spec fn node_preimage(
    parent: TreeNodeHash,
    epoch: Epoch,
    height: NodeHeight,
    justify: QuorumCertificate,
    shard: ShardId,
    payload_id: PayloadId,
    payload_height: NodeHeight,
    proposed_by: PublicKey,
) -> Seq<u8> {
    parent.bytes() + u64_le(epoch.0) + u64_le(height.0) + qc_bytes(justify) + shard.bytes()
        + payload_id.bytes() + u64_le(payload_height.0) + proposed_by.bytes()
}

/// The preimage of the hash of a node with view `v`.
pub open spec fn preimage_of<V>(v: NodeView<V>) -> Seq<u8> {
    node_preimage(
        v.parent,
        v.epoch,
        v.height,
        v.justify,
        v.shard,
        v.payload_id,
        v.payload_height,
        v.proposed_by,
    )
}

/// A node whose hash is that of its content.
pub open spec fn hash_consistent<V>(v: NodeView<V>) -> bool {
    v.hash.bytes() == blake256_of(preimage_of(v))
}

/// The canonical first node of every shard.
pub open spec fn is_genesis_node<V>(v: NodeView<V>) -> bool {
    &&& hash_consistent(v)
    &&& v.parent.bytes() == Seq::new(32, |i: int| 0u8)
    &&& v.payload_id.bytes() == Seq::new(32, |i: int| 0u8)
    &&& v.payload is None
    &&& v.payload_height == NodeHeight(0)
    &&& v.shard.bytes() == Seq::new(32, |i: int| 0u8)
    &&& v.height == NodeHeight(0)
    &&& v.epoch == Epoch(0)
    &&& v.proposed_by.bytes() == Seq::new(32, |i: int| 0u8)
    &&& is_genesis_qc(v.justify, Epoch(0))
    &&& v.local_pledge is None
}

/// Determinism: two nodes built from the same content have the same hash.
pub proof fn lemma_node_hash_deterministic<V>(a: NodeView<V>, b: NodeView<V>)
    requires
        hash_consistent(a),
        hash_consistent(b),
        a.parent == b.parent,
        a.epoch == b.epoch,
        a.height == b.height,
        a.justify == b.justify,
        a.shard == b.shard,
        a.payload_id == b.payload_id,
        a.payload_height == b.payload_height,
        a.proposed_by == b.proposed_by,
    ensures
        a.hash == b.hash,
{
    assert(a.hash.0 =~= b.hash.0);
}

/// Every hashed field reaches the hash input: nodes whose content differs in
/// any one of them (the proposer, say) hash different byte strings. That the
/// hashes then differ is the collision resistance of Blake2b, which is not
/// proved here.
pub proof fn lemma_node_preimage_injective(
    parent: TreeNodeHash,
    epoch: Epoch,
    height: NodeHeight,
    justify: QuorumCertificate,
    shard: ShardId,
    payload_id: PayloadId,
    payload_height: NodeHeight,
    proposed_by: PublicKey,
    parent2: TreeNodeHash,
    epoch2: Epoch,
    height2: NodeHeight,
    justify2: QuorumCertificate,
    shard2: ShardId,
    payload_id2: PayloadId,
    payload_height2: NodeHeight,
    proposed_by2: PublicKey,
)
    requires
        node_preimage(parent, epoch, height, justify, shard, payload_id, payload_height, proposed_by)
            == node_preimage(parent2, epoch2, height2, justify2, shard2, payload_id2, payload_height2, proposed_by2),
    ensures
        parent == parent2,
        epoch == epoch2,
        height == height2,
        justify == justify2,
        shard == shard2,
        payload_id == payload_id2,
        payload_height == payload_height2,
        proposed_by == proposed_by2,
{
    lemma_u64_le_len(epoch.0);
    lemma_u64_le_len(epoch2.0);
    lemma_u64_le_len(height.0);
    lemma_u64_le_len(height2.0);
    lemma_u64_le_len(payload_height.0);
    lemma_u64_le_len(payload_height2.0);
    lemma_qc_bytes_len(justify);
    lemma_qc_bytes_len(justify2);
    let a7 = parent.bytes() + u64_le(epoch.0) + u64_le(height.0) + qc_bytes(justify) + shard.bytes()
        + payload_id.bytes() + u64_le(payload_height.0);
    let b7 = parent2.bytes() + u64_le(epoch2.0) + u64_le(height2.0) + qc_bytes(justify2) + shard2.bytes()
        + payload_id2.bytes() + u64_le(payload_height2.0);
    lemma_split_tail(a7, proposed_by.bytes(), b7, proposed_by2.bytes());
    assert(proposed_by.0 =~= proposed_by2.0);
    let a6 = parent.bytes() + u64_le(epoch.0) + u64_le(height.0) + qc_bytes(justify) + shard.bytes()
        + payload_id.bytes();
    let b6 = parent2.bytes() + u64_le(epoch2.0) + u64_le(height2.0) + qc_bytes(justify2) + shard2.bytes()
        + payload_id2.bytes();
    lemma_split_tail(a6, u64_le(payload_height.0), b6, u64_le(payload_height2.0));
    lemma_u64_le_injective(payload_height.0, payload_height2.0);
    let a5 = parent.bytes() + u64_le(epoch.0) + u64_le(height.0) + qc_bytes(justify) + shard.bytes();
    let b5 = parent2.bytes() + u64_le(epoch2.0) + u64_le(height2.0) + qc_bytes(justify2) + shard2.bytes();
    lemma_split_tail(a5, payload_id.bytes(), b5, payload_id2.bytes());
    assert(payload_id.id =~= payload_id2.id);
    let a4 = parent.bytes() + u64_le(epoch.0) + u64_le(height.0) + qc_bytes(justify);
    let b4 = parent2.bytes() + u64_le(epoch2.0) + u64_le(height2.0) + qc_bytes(justify2);
    lemma_split_tail(a4, shard.bytes(), b4, shard2.bytes());
    assert(shard.0 =~= shard2.0);
    let a3 = parent.bytes() + u64_le(epoch.0) + u64_le(height.0);
    let b3 = parent2.bytes() + u64_le(epoch2.0) + u64_le(height2.0);
    lemma_split_tail(a3, qc_bytes(justify), b3, qc_bytes(justify2));
    lemma_qc_bytes_injective(justify, justify2);
    let a2 = parent.bytes() + u64_le(epoch.0);
    let b2 = parent2.bytes() + u64_le(epoch2.0);
    lemma_split_tail(a2, u64_le(height.0), b2, u64_le(height2.0));
    lemma_u64_le_injective(height.0, height2.0);
    lemma_split_tail(parent.bytes(), u64_le(epoch.0), parent2.bytes(), u64_le(epoch2.0));
    lemma_u64_le_injective(epoch.0, epoch2.0);
    assert(parent.0 =~= parent2.0);
}

impl<P: Payload> View for HotStuffTreeNode<P> {
    type V = NodeView<P::V>;

    closed spec fn view(&self) -> NodeView<P::V> {
        NodeView {
            hash: self.hash,
            parent: self.parent,
            shard: self.shard,
            height: self.height,
            payload_id: self.payload_id,
            payload: option_view(self.payload),
            payload_height: self.payload_height,
            local_pledge: option_view(self.local_pledge),
            epoch: self.epoch,
            justify: self.justify,
            proposed_by: self.proposed_by,
        }
    }
}

/// The hash of a node with the given content.
pub fn compute_node_hash(
    parent: &TreeNodeHash,
    epoch: Epoch,
    height: NodeHeight,
    justify: &QuorumCertificate,
    shard: &ShardId,
    payload_id: &PayloadId,
    payload_height: NodeHeight,
    proposed_by: &PublicKey,
) -> (r: TreeNodeHash)
    ensures
        r.bytes() == blake256_of(
            node_preimage(*parent, epoch, height, *justify, *shard, *payload_id, payload_height, *proposed_by),
        ),
{
    let mut data = parent.as_bytes();
    extend_bytes(&mut data, &epoch.to_le_bytes());
    extend_bytes(&mut data, &height.to_le_bytes());
    extend_bytes(&mut data, &justify.as_bytes());
    extend_bytes(&mut data, &shard.to_le_bytes());
    extend_bytes(&mut data, &payload_id.to_vec());
    extend_bytes(&mut data, &payload_height.to_le_bytes());
    extend_bytes(&mut data, &proposed_by.as_bytes());
    TreeNodeHash(blake256(&data))
}

fn duplicate_pledge(p: &Option<ObjectPledge>) -> (r: Option<ObjectPledge>)
    ensures
        option_view(r) == option_view(*p),
{
    match p {
        Some(p) => Some(p.duplicate()),
        None => None,
    }
}

impl<P: Payload> HotStuffTreeNode<P> {
    /// A node with the given content; its hash is computed here.
    pub fn new(
        parent: TreeNodeHash,
        shard: ShardId,
        height: NodeHeight,
        payload_id: PayloadId,
        payload: Option<P>,
        payload_height: NodeHeight,
        local_pledge: Option<ObjectPledge>,
        epoch: Epoch,
        proposed_by: PublicKey,
        justify: QuorumCertificate,
    ) -> (r: HotStuffTreeNode<P>)
        ensures
            hash_consistent(r@),
            r@.parent == parent,
            r@.shard == shard,
            r@.height == height,
            r@.payload_id == payload_id,
            r@.payload == option_view(payload),
            r@.payload_height == payload_height,
            r@.local_pledge == option_view(local_pledge),
            r@.epoch == epoch,
            r@.proposed_by == proposed_by,
            r@.justify == justify,
    {
        let hash = compute_node_hash(
            &parent,
            epoch,
            height,
            &justify,
            &shard,
            &payload_id,
            payload_height,
            &proposed_by,
        );
        HotStuffTreeNode {
            hash,
            parent,
            shard,
            height,
            payload_id,
            payload,
            payload_height,
            local_pledge,
            epoch,
            justify,
            proposed_by,
        }
    }

    /// The canonical first node of every shard.
    pub fn genesis() -> (r: HotStuffTreeNode<P>)
        ensures
            is_genesis_node(r@),
    {
        HotStuffTreeNode::new(
            TreeNodeHash::zero(),
            ShardId::zero(),
            NodeHeight(0),
            PayloadId::zero(),
            None,
            NodeHeight(0),
            None,
            Epoch(0),
            PublicKey::zero(),
            QuorumCertificate::genesis(Epoch(0)),
        )
    }

    /// The hash of the node's content.
    pub fn calculate_hash(&self) -> (r: TreeNodeHash)
        ensures
            r.bytes() == blake256_of(preimage_of(self@)),
    {
        compute_node_hash(
            &self.parent,
            self.epoch,
            self.height,
            &self.justify,
            &self.shard,
            &self.payload_id,
            self.payload_height,
            &self.proposed_by,
        )
    }

    /// A copy of the node.
    pub fn duplicate(&self) -> (r: HotStuffTreeNode<P>)
        ensures
            r@ == self@,
    {
        let payload = match &self.payload {
            Some(p) => Some(p.duplicate()),
            None => None,
        };
        HotStuffTreeNode {
            hash: self.hash,
            parent: self.parent,
            shard: self.shard,
            height: self.height,
            payload_id: self.payload_id,
            payload,
            payload_height: self.payload_height,
            local_pledge: duplicate_pledge(&self.local_pledge),
            epoch: self.epoch,
            justify: self.justify,
            proposed_by: self.proposed_by,
        }
    }

    pub fn hash(&self) -> (r: &TreeNodeHash)
        ensures
            *r == self@.hash,
    {
        &self.hash
    }

    pub fn proposed_by(&self) -> (r: &PublicKey)
        ensures
            *r == self@.proposed_by,
    {
        &self.proposed_by
    }

    pub fn parent(&self) -> (r: &TreeNodeHash)
        ensures
            *r == self@.parent,
    {
        &self.parent
    }

    pub fn payload_id(&self) -> (r: PayloadId)
        ensures
            r == self@.payload_id,
    {
        self.payload_id
    }

    pub fn payload(&self) -> (r: Option<&P>)
        ensures
            match r {
                Some(p) => self@.payload == Some(p@),
                None => self@.payload is None,
            },
    {
        match &self.payload {
            Some(p) => Some(p),
            None => None,
        }
    }

    /// The round that consensus on the payload has reached.
    pub fn payload_height(&self) -> (r: NodeHeight)
        ensures
            r == self@.payload_height,
    {
        self.payload_height
    }

    /// The quorum certificate that justifies the node.
    pub fn justify(&self) -> (r: &QuorumCertificate)
        ensures
            *r == self@.justify,
    {
        &self.justify
    }

    pub fn epoch(&self) -> (r: Epoch)
        ensures
            r == self@.epoch,
    {
        self.epoch
    }

    pub fn shard(&self) -> (r: ShardId)
        ensures
            r == self@.shard,
    {
        self.shard
    }

    pub fn height(&self) -> (r: NodeHeight)
        ensures
            r == self@.height,
    {
        self.height
    }

    pub fn local_pledge(&self) -> (r: Option<&ObjectPledge>)
        ensures
            match r {
                Some(p) => self@.local_pledge == Some(p@),
                None => self@.local_pledge is None,
            },
    {
        match &self.local_pledge {
            Some(p) => Some(p),
            None => None,
        }
    }
}

impl<P: Payload> PartialEq for HotStuffTreeNode<P> {
    fn eq(&self, other: &HotStuffTreeNode<P>) -> (r: bool) {
        self.hash == other.hash
    }
}

impl<P: Payload> vstd::std_specs::cmp::PartialEqSpecImpl for HotStuffTreeNode<P> {
    open spec fn obeys_eq_spec() -> bool {
        true
    }

    open spec fn eq_spec(&self, other: &HotStuffTreeNode<P>) -> bool {
        self@.hash == other@.hash
    }
}

} // verus!
