//! The in-memory shard store: per-shard consensus state (high QC, leaf,
//! locked node, votes, proposals, nodes, payloads) and object pledges.
//! Lookups of absent entries fall back to the genesis values.

use vstd::prelude::*;

use crate::ids::{Epoch, NodeHeight, PayloadId, PublicKey, ShardId, TreeNodeHash};
use crate::payload::Payload;
use crate::quorum::{is_genesis_qc, QuorumCertificate, VoteMessage};
use crate::substate::{ObjectPledge, ObjectPledgeView, SubstateChange, SubstateState, SubstateStateView};
use crate::table::{ProposalKey, Table, VoteKey};
use crate::tree_node::{is_genesis_node, option_view, HotStuffTreeNode, NodeView};

verus! {

/// Number of heights for which a pledge holds: one full four-phase round.
pub const PLEDGE_DURATION: u64 = 4;

#[derive(Clone, Copy, Debug, PartialEq, Eq, Structural)]
pub enum StoreError {
    NodeNotFound,
    CannotFindPayload,
}

/// The mathematical value of the store.
pub struct ShardDbView<V> {
    pub high_qcs: Map<ShardId, QuorumCertificate>,
    pub leaf_nodes: Map<ShardId, (TreeNodeHash, NodeHeight)>,
    pub last_voted_heights: Map<ShardId, (NodeHeight, u32)>,
    pub locked_nodes: Map<ShardId, (TreeNodeHash, NodeHeight)>,
    pub votes: Map<VoteKey, Seq<(PublicKey, VoteMessage)>>,
    pub nodes: Map<TreeNodeHash, NodeView<V>>,
    pub last_executed_heights: Map<ShardId, NodeHeight>,
    pub payloads: Map<PayloadId, V>,
    pub proposals: Map<ProposalKey, NodeView<V>>,
    pub objects: Map<ShardId, (SubstateStateView, Option<ObjectPledgeView>)>,
}

/// The height of the shard's high QC; an absent QC reads as the genesis QC,
/// of height 0.
pub open spec fn high_qc_height(m: Map<ShardId, QuorumCertificate>, shard: ShardId) -> u64 {
    if m.contains_key(shard) {
        m[shard].local_node_height.0
    } else {
        0
    }
}

/// `update_high_qc(shard, qc)` replaces the shard's high QC: `qc` is for a
/// higher node than the stored QC (or the genesis QC, where none is stored).
pub open spec fn replaces_high_qc(m: Map<ShardId, QuorumCertificate>, shard: ShardId, qc: QuorumCertificate) -> bool {
    qc.local_node_height.0 > high_qc_height(m, shard)
}

/// The high QCs after `update_high_qc(shard, qc)`.
pub open spec fn high_qcs_after(m: Map<ShardId, QuorumCertificate>, shard: ShardId, qc: QuorumCertificate) -> Map<
    ShardId,
    QuorumCertificate,
> {
    if replaces_high_qc(m, shard, qc) {
        m.insert(shard, qc)
    } else {
        m
    }
}

/// The leaf nodes after `update_high_qc(shard, qc)` on high QCs `m`: every
/// replacement moves the shard's leaf to the QC's node.
pub open spec fn leaf_nodes_after(
    leaves: Map<ShardId, (TreeNodeHash, NodeHeight)>,
    m: Map<ShardId, QuorumCertificate>,
    shard: ShardId,
    qc: QuorumCertificate,
) -> Map<ShardId, (TreeNodeHash, NodeHeight)> {
    if replaces_high_qc(m, shard, qc) {
        leaves.insert(shard, (qc.local_node_hash, qc.local_node_height))
    } else {
        leaves
    }
}

pub type ObjectMap = Map<ShardId, (SubstateStateView, Option<ObjectPledgeView>)>;

/// The object of `shard` holds a pledge that is still valid at `height`.
pub open spec fn pledge_active(objects: ObjectMap, shard: ShardId, height: NodeHeight) -> bool {
    &&& objects.contains_key(shard)
    &&& objects[shard].1 matches Some(p)
    &&& p.pledged_until.0 > height.0
}

/// The state of the object of `shard`; absent objects do not exist.
pub open spec fn object_state(objects: ObjectMap, shard: ShardId) -> SubstateStateView {
    if objects.contains_key(shard) {
        objects[shard].0
    } else {
        SubstateStateView::DoesNotExist
    }
}

/// A fresh pledge of `shard` for `payload`, made at `height`.
pub open spec fn fresh_pledge(objects: ObjectMap, shard: ShardId, payload: PayloadId, height: NodeHeight) -> ObjectPledgeView {
    ObjectPledgeView {
        shard_id: shard,
        current_state: object_state(objects, shard),
        pledged_to_payload: payload,
        pledged_until: NodeHeight((height.0 + PLEDGE_DURATION) as u64),
    }
}

/// What `pledge_object(shard, payload, _, height)` returns: the pledge still
/// valid at `height`, else a fresh one.
pub open spec fn pledge_result(objects: ObjectMap, shard: ShardId, payload: PayloadId, height: NodeHeight) -> ObjectPledgeView {
    if pledge_active(objects, shard, height) {
        objects[shard].1->Some_0
    } else {
        fresh_pledge(objects, shard, payload, height)
    }
}

/// The objects after `pledge_object(shard, payload, _, height)`.
pub open spec fn objects_after_pledge(objects: ObjectMap, shard: ShardId, payload: PayloadId, height: NodeHeight) -> ObjectMap {
    if pledge_active(objects, shard, height) {
        objects
    } else {
        objects.insert(
            shard,
            (object_state(objects, shard), Some(fresh_pledge(objects, shard, payload, height))),
        )
    }
}

/// Whether a vote in `sigs` comes from `from`.
fn has_voter(sigs: &Vec<(PublicKey, VoteMessage)>, from: &PublicKey) -> (r: bool)
    ensures
        r <==> exists|i: int| 0 <= i < sigs@.len() && (#[trigger] sigs@[i]).0 == *from,
{
    let mut i: usize = 0;
    while i < sigs.len()
        invariant
            i <= sigs@.len(),
            forall|j: int| 0 <= j < i ==> (#[trigger] sigs@[j]).0 != *from,
        decreases sigs.len() - i,
    {
        if sigs[i].0 == *from {
            assert(sigs@[i as int].0 == *from);
            return true;
        }
        i = i + 1;
    }
    false
}

/// The high QCs after a sequence of `update_high_qc` calls, in order.
pub open spec fn high_qcs_after_all(
    m: Map<ShardId, QuorumCertificate>,
    updates: Seq<(ShardId, QuorumCertificate)>,
) -> Map<ShardId, QuorumCertificate>
    decreases updates.len(),
{
    if updates.len() == 0 {
        m
    } else {
        high_qcs_after(high_qcs_after_all(m, updates.drop_last()), updates.last().0, updates.last().1)
    }
}

/// One `update_high_qc` call never lowers the height of any shard's high QC.
pub proof fn lemma_high_qc_step(
    m: Map<ShardId, QuorumCertificate>,
    shard: ShardId,
    qc: QuorumCertificate,
    s: ShardId,
)
    ensures
        high_qc_height(high_qcs_after(m, shard, qc), s) >= high_qc_height(m, s),
{
}

/// Across any sequence of `update_high_qc` calls, the height of a shard's
/// high QC never decreases: after the first `i` calls it is at most what it
/// is after the first `j`, for `i <= j`.
pub proof fn lemma_high_qc_never_decreases(
    m: Map<ShardId, QuorumCertificate>,
    updates: Seq<(ShardId, QuorumCertificate)>,
    shard: ShardId,
    i: int,
    j: int,
)
    requires
        0 <= i <= j <= updates.len(),
    ensures
        high_qc_height(high_qcs_after_all(m, updates.subrange(0, j)), shard) >= high_qc_height(
            high_qcs_after_all(m, updates.subrange(0, i)),
            shard,
        ),
    decreases j - i,
{
    if i < j {
        lemma_high_qc_never_decreases(m, updates, shard, i, j - 1);
        let prev = updates.subrange(0, j - 1);
        let cur = updates.subrange(0, j);
        assert(cur.drop_last() =~= prev);
        lemma_high_qc_step(high_qcs_after_all(m, prev), cur.last().0, cur.last().1, shard);
    }
}

/// Mutual exclusion of pledges: once a fresh pledge of `shard` is made for
/// `payload` at height `h1`, a pledge request for any payload `rival` at a height
/// `h2` below `h1 + 4` returns that same pledge and changes nothing; from
/// `h1 + 4` on, the request creates a new pledge for `rival`.
pub proof fn lemma_pledge_exclusion(
    objects: ObjectMap,
    shard: ShardId,
    payload: PayloadId,
    h1: NodeHeight,
    rival: PayloadId,
    h2: NodeHeight,
)
    requires
        !pledge_active(objects, shard, h1),
        h1.0 + PLEDGE_DURATION <= u64::MAX,
        h2.0 >= h1.0 + PLEDGE_DURATION ==> h2.0 + PLEDGE_DURATION <= u64::MAX,
        h1.0 <= h2.0,
    ensures
        ({
            let first = pledge_result(objects, shard, payload, h1);
            let after = objects_after_pledge(objects, shard, payload, h1);
            &&& first.pledged_to_payload == payload
            &&& first.pledged_until.0 == h1.0 + PLEDGE_DURATION
            &&& after.contains_key(shard) && after[shard].1 == Some(first)
            &&& h2.0 < h1.0 + PLEDGE_DURATION ==> pledge_result(after, shard, rival, h2) == first
                && objects_after_pledge(after, shard, rival, h2) == after
            &&& h2.0 >= h1.0 + PLEDGE_DURATION ==> pledge_result(after, shard, rival, h2).pledged_to_payload == rival
                && pledge_result(after, shard, rival, h2).pledged_until.0 == h2.0 + PLEDGE_DURATION
        }),
{
}

/// Every stored pledge is a pledge of the shard it is stored under.
pub open spec fn pledges_match_shards(objects: ObjectMap) -> bool {
    forall|s: ShardId|
        #[trigger] objects.contains_key(s) ==> (objects[s].1 matches Some(p) ==> p.shard_id == s)
}

/// The in-memory shard store.
pub struct MemoryShardDb<P> {
    shard_high_qcs: Table<ShardId, QuorumCertificate>,
    shard_leaf_nodes: Table<ShardId, (TreeNodeHash, NodeHeight)>,
    last_voted_heights: Table<ShardId, (NodeHeight, u32)>,
    lock_node_and_heights: Table<ShardId, (TreeNodeHash, NodeHeight)>,
    votes: Table<VoteKey, Vec<(PublicKey, VoteMessage)>>,
    nodes: Table<TreeNodeHash, HotStuffTreeNode<P>>,
    last_executed_height: Table<ShardId, NodeHeight>,
    payloads: Table<PayloadId, P>,
    payload_votes: Table<ProposalKey, HotStuffTreeNode<P>>,
    objects: Table<ShardId, (SubstateState, Option<ObjectPledge>)>,
}

impl<P: Payload> View for MemoryShardDb<P> {
    type V = ShardDbView<P::V>;

    closed spec fn view(&self) -> ShardDbView<P::V> {
        ShardDbView {
            high_qcs: self.shard_high_qcs.view(),
            leaf_nodes: self.shard_leaf_nodes.view(),
            last_voted_heights: self.last_voted_heights.view(),
            locked_nodes: self.lock_node_and_heights.view(),
            votes: self.votes.view().map_values(|v: Vec<(PublicKey, VoteMessage)>| v@),
            nodes: self.nodes.view().map_values(|n: HotStuffTreeNode<P>| n@),
            last_executed_heights: self.last_executed_height.view(),
            payloads: self.payloads.view().map_values(|p: P| p@),
            proposals: self.payload_votes.view().map_values(|n: HotStuffTreeNode<P>| n@),
            objects: self.objects.view().map_values(
                |e: (SubstateState, Option<ObjectPledge>)| (e.0@, option_view(e.1)),
            ),
        }
    }
}

impl<P: Payload> MemoryShardDb<P> {
    pub closed spec fn wf(&self) -> bool {
        &&& self.shard_high_qcs.wf()
        &&& self.shard_leaf_nodes.wf()
        &&& self.last_voted_heights.wf()
        &&& self.lock_node_and_heights.wf()
        &&& self.votes.wf()
        &&& self.nodes.wf()
        &&& self.last_executed_height.wf()
        &&& self.payloads.wf()
        &&& self.payload_votes.wf()
        &&& self.objects.wf()
        &&& pledges_match_shards(self@.objects)
    }

    /// An empty store.
    pub fn new() -> (r: MemoryShardDb<P>)
        ensures
            r.wf(),
            r@.high_qcs == Map::<ShardId, QuorumCertificate>::empty(),
            r@.leaf_nodes == Map::<ShardId, (TreeNodeHash, NodeHeight)>::empty(),
            r@.last_voted_heights == Map::<ShardId, (NodeHeight, u32)>::empty(),
            r@.locked_nodes == Map::<ShardId, (TreeNodeHash, NodeHeight)>::empty(),
            r@.votes == Map::<VoteKey, Seq<(PublicKey, VoteMessage)>>::empty(),
            r@.nodes == Map::<TreeNodeHash, NodeView<P::V>>::empty(),
            r@.last_executed_heights == Map::<ShardId, NodeHeight>::empty(),
            r@.payloads == Map::<PayloadId, P::V>::empty(),
            r@.proposals == Map::<ProposalKey, NodeView<P::V>>::empty(),
            r@.objects == ObjectMap::empty(),
    {
        let r = MemoryShardDb {
            shard_high_qcs: Table::new(),
            shard_leaf_nodes: Table::new(),
            last_voted_heights: Table::new(),
            lock_node_and_heights: Table::new(),
            votes: Table::new(),
            nodes: Table::new(),
            last_executed_height: Table::new(),
            payloads: Table::new(),
            payload_votes: Table::new(),
            objects: Table::new(),
        };
        assert(r@.votes =~= Map::<VoteKey, Seq<(PublicKey, VoteMessage)>>::empty());
        assert(r@.nodes =~= Map::<TreeNodeHash, NodeView<P::V>>::empty());
        assert(r@.payloads =~= Map::<PayloadId, P::V>::empty());
        assert(r@.proposals =~= Map::<ProposalKey, NodeView<P::V>>::empty());
        assert(r@.objects =~= ObjectMap::empty());
        r
    }

    /// The shard's high QC; the genesis QC of epoch 0 where none is stored.
    pub fn get_high_qc_for(&self, shard: ShardId) -> (r: Result<QuorumCertificate, StoreError>)
        requires
            self.wf(),
        ensures
            r is Ok,
            self@.high_qcs.contains_key(shard) ==> r->Ok_0 == self@.high_qcs[shard],
            !self@.high_qcs.contains_key(shard) ==> is_genesis_qc(r->Ok_0, Epoch(0)),
    {
        match self.shard_high_qcs.get(&shard) {
            Some(qc) => Ok(*qc),
            None => Ok(QuorumCertificate::genesis(Epoch(0))),
        }
    }

    /// Stores `qc` as the shard's high QC when it is for a higher node than
    /// the current one (the genesis QC, of height 0, where none is stored),
    /// and then moves the shard's leaf to the QC's node. The height never
    /// decreases.
    pub fn update_high_qc(&mut self, shard: ShardId, qc: QuorumCertificate) -> (r: Result<(), StoreError>)
        requires
            old(self).wf(),
        ensures
            final(self).wf(),
            r is Ok,
            final(self)@ == (ShardDbView {
                high_qcs: high_qcs_after(old(self)@.high_qcs, shard, qc),
                leaf_nodes: leaf_nodes_after(old(self)@.leaf_nodes, old(self)@.high_qcs, shard, qc),
                ..old(self)@
            }),
    {
        let current: u64 = match self.shard_high_qcs.get(&shard) {
            Some(stored) => stored.local_node_height.0,
            None => 0,
        };
        if qc.local_node_height.0 > current {
            self.shard_high_qcs.insert(shard, qc);
            self.shard_leaf_nodes.insert(shard, (qc.local_node_hash, qc.local_node_height));
        }
        Ok(())
    }

    /// The shard's leaf node and its height; the zero hash at height 0 where
    /// none is stored.
    pub fn get_leaf_node(&self, shard: ShardId) -> (r: Result<(TreeNodeHash, NodeHeight), StoreError>)
        requires
            self.wf(),
        ensures
            r is Ok,
            self@.leaf_nodes.contains_key(shard) ==> r->Ok_0 == self@.leaf_nodes[shard],
            !self@.leaf_nodes.contains_key(shard) ==> r->Ok_0.0.bytes() == Seq::new(32, |i: int| 0u8)
                && r->Ok_0.1 == NodeHeight(0),
    {
        match self.shard_leaf_nodes.get(&shard) {
            Some(leaf) => Ok(*leaf),
            None => Ok((TreeNodeHash::zero(), NodeHeight(0))),
        }
    }

    pub fn update_leaf_node(&mut self, shard: ShardId, node: TreeNodeHash, height: NodeHeight) -> (r: Result<
        (),
        StoreError,
    >)
        requires
            old(self).wf(),
        ensures
            final(self).wf(),
            r is Ok,
            final(self)@ == (ShardDbView {
                leaf_nodes: old(self)@.leaf_nodes.insert(shard, (node, height)),
                ..old(self)@
            }),
    {
        self.shard_leaf_nodes.insert(shard, (node, height));
        Ok(())
    }

    /// The height and leader round of the shard's last vote; zeros where none
    /// is stored.
    pub fn get_last_voted_height(&self, shard: ShardId) -> (r: Result<(NodeHeight, u32), StoreError>)
        requires
            self.wf(),
        ensures
            r is Ok,
            self@.last_voted_heights.contains_key(shard) ==> r->Ok_0 == self@.last_voted_heights[shard],
            !self@.last_voted_heights.contains_key(shard) ==> r->Ok_0 == (NodeHeight(0), 0u32),
    {
        match self.last_voted_heights.get(&shard) {
            Some(v) => Ok(*v),
            None => Ok((NodeHeight(0), 0)),
        }
    }

    pub fn set_last_voted_height(&mut self, shard: ShardId, height: NodeHeight, leader_round: u32) -> (r:
        Result<(), StoreError>)
        requires
            old(self).wf(),
        ensures
            final(self).wf(),
            r is Ok,
            final(self)@ == (ShardDbView {
                last_voted_heights: old(self)@.last_voted_heights.insert(shard, (height, leader_round)),
                ..old(self)@
            }),
    {
        self.last_voted_heights.insert(shard, (height, leader_round));
        Ok(())
    }

    /// The shard's locked node and its height; the zero hash at height 0
    /// where none is stored.
    pub fn get_locked_node_hash_and_height(&self, shard: ShardId) -> (r: Result<
        (TreeNodeHash, NodeHeight),
        StoreError,
    >)
        requires
            self.wf(),
        ensures
            r is Ok,
            self@.locked_nodes.contains_key(shard) ==> r->Ok_0 == self@.locked_nodes[shard],
            !self@.locked_nodes.contains_key(shard) ==> r->Ok_0.0.bytes() == Seq::new(32, |i: int| 0u8)
                && r->Ok_0.1 == NodeHeight(0),
    {
        match self.lock_node_and_heights.get(&shard) {
            Some(v) => Ok(*v),
            None => Ok((TreeNodeHash::zero(), NodeHeight(0))),
        }
    }

    /// Sets the shard's locked node and its height.
    pub fn set_locked(&mut self, shard: ShardId, node_hash: TreeNodeHash, node_height: NodeHeight) -> (r:
        Result<(), StoreError>)
        requires
            old(self).wf(),
        ensures
            final(self).wf(),
            r is Ok,
            final(self)@ == (ShardDbView {
                locked_nodes: old(self)@.locked_nodes.insert(shard, (node_hash, node_height)),
                ..old(self)@
            }),
    {
        self.lock_node_and_heights.insert(shard, (node_hash, node_height));
        Ok(())
    }

    /// Whether `from` has voted for node `node_hash` of `shard`.
    pub fn has_vote_for(&self, from: &PublicKey, node_hash: TreeNodeHash, shard: ShardId) -> (r: Result<
        bool,
        StoreError,
    >)
        requires
            self.wf(),
        ensures
            r is Ok,
            r->Ok_0 <==> {
                let key = VoteKey { node_hash, shard };
                self@.votes.contains_key(key) && exists|i: int|
                    0 <= i < self@.votes[key].len() && (#[trigger] self@.votes[key][i]).0 == *from
            },
    {
        let key = VoteKey { node_hash, shard };
        match self.votes.get(&key) {
            Some(sigs) => {
                assert(self@.votes.contains_key(key) && self@.votes[key] == sigs@);
                Ok(has_voter(sigs, from))
            },
            None => Ok(false),
        }
    }

    /// Appends a vote for node `node_hash` of `shard` and returns how many
    /// votes that node now has.
    pub fn save_received_vote_for(
        &mut self,
        from: PublicKey,
        node_hash: TreeNodeHash,
        shard: ShardId,
        vote_message: VoteMessage,
    ) -> (r: Result<usize, StoreError>)
        requires
            old(self).wf(),
            old(self)@.votes.contains_key(VoteKey { node_hash, shard }) ==> old(self)@.votes[VoteKey {
                node_hash,
                shard,
            }].len() < usize::MAX,
        ensures
            final(self).wf(),
            ({
                let key = VoteKey { node_hash, shard };
                let before = if old(self)@.votes.contains_key(key) {
                    old(self)@.votes[key]
                } else {
                    Seq::empty()
                };
                &&& final(self)@ == (ShardDbView {
                    votes: old(self)@.votes.insert(key, before.push((from, vote_message))),
                    ..old(self)@
                })
                &&& r == Ok::<usize, StoreError>((before.len() + 1) as usize)
            }),
    {
        let key = VoteKey { node_hash, shard };
        let mut list: Vec<(PublicKey, VoteMessage)> = Vec::new();
        match self.votes.get(&key) {
            Some(sigs) => {
                let mut i: usize = 0;
                while i < sigs.len()
                    invariant
                        i <= sigs@.len(),
                        list@ == sigs@.subrange(0, i as int),
                    decreases sigs.len() - i,
                {
                    list.push(sigs[i]);
                    i = i + 1;
                    assert(list@ =~= sigs@.subrange(0, i as int));
                }
                assert(sigs@.subrange(0, sigs@.len() as int) =~= sigs@);
            },
            None => {},
        }
        list.push((from, vote_message));
        let n = list.len();
        let ghost old_votes = self.votes.view();
        self.votes.insert(key, list);
        assert(self@.votes =~= old(self)@.votes.insert(key, list@));
        Ok(n)
    }

    /// The votes received for node `node_hash` of `shard`, in arrival order.
    pub fn get_received_votes_for(&self, node_hash: TreeNodeHash, shard: ShardId) -> (r: Result<
        Vec<VoteMessage>,
        StoreError,
    >)
        requires
            self.wf(),
        ensures
            r is Ok,
            ({
                let key = VoteKey { node_hash, shard };
                if self@.votes.contains_key(key) {
                    r->Ok_0@ == self@.votes[key].map_values(|e: (PublicKey, VoteMessage)| e.1)
                } else {
                    r->Ok_0@.len() == 0
                }
            }),
    {
        let key = VoteKey { node_hash, shard };
        let mut out: Vec<VoteMessage> = Vec::new();
        match self.votes.get(&key) {
            Some(sigs) => {
                let mut i: usize = 0;
                while i < sigs.len()
                    invariant
                        i <= sigs@.len(),
                        out@ == sigs@.subrange(0, i as int).map_values(|e: (PublicKey, VoteMessage)| e.1),
                    decreases sigs.len() - i,
                {
                    out.push(sigs[i].1);
                    i = i + 1;
                    assert(out@ =~= sigs@.subrange(0, i as int).map_values(|e: (PublicKey, VoteMessage)| e.1));
                }
                assert(sigs@.subrange(0, sigs@.len() as int) =~= sigs@);
            },
            None => {},
        }
        Ok(out)
    }

    /// Stores the leader's proposal `node` for `payload` at `payload_height`
    /// in `shard`.
    pub fn save_leader_proposals(
        &mut self,
        shard: ShardId,
        payload: PayloadId,
        payload_height: NodeHeight,
        leader_round: u32,
        node: HotStuffTreeNode<P>,
    ) -> (r: Result<(), StoreError>)
        requires
            old(self).wf(),
        ensures
            final(self).wf(),
            r is Ok,
            final(self)@ == (ShardDbView {
                proposals: old(self)@.proposals.insert(ProposalKey { payload, payload_height, shard }, node@),
                ..old(self)@
            }),
    {
        let key = ProposalKey { payload, payload_height, shard };
        let ghost v = node@;
        self.payload_votes.insert(key, node);
        assert(self@.proposals =~= old(self)@.proposals.insert(key, v));
        Ok(())
    }

    /// The leader's proposal for `payload` at `payload_height` in `shard`.
    pub fn get_leader_proposals(&self, payload: PayloadId, payload_height: NodeHeight, shard: ShardId) -> (r:
        Result<Option<HotStuffTreeNode<P>>, StoreError>)
        requires
            self.wf(),
        ensures
            ({
                let key = ProposalKey { payload, payload_height, shard };
                match r {
                    Ok(Some(n)) => self@.proposals.contains_key(key) && n@ == self@.proposals[key],
                    Ok(None) => !self@.proposals.contains_key(key),
                    Err(_) => false,
                }
            }),
    {
        let key = ProposalKey { payload, payload_height, shard };
        match self.payload_votes.get(&key) {
            Some(n) => Ok(Some(n.duplicate())),
            None => Ok(None),
        }
    }

    /// Stores `node` under its hash.
    pub fn save_node(&mut self, node: HotStuffTreeNode<P>) -> (r: Result<(), StoreError>)
        requires
            old(self).wf(),
        ensures
            final(self).wf(),
            r is Ok,
            final(self)@ == (ShardDbView { nodes: old(self)@.nodes.insert(node@.hash, node@), ..old(self)@ }),
    {
        let hash = *node.hash();
        let ghost v = node@;
        self.nodes.insert(hash, node);
        assert(self@.nodes =~= old(self)@.nodes.insert(hash, v));
        Ok(())
    }

    /// The node with hash `node_hash`: the genesis node for the zero hash,
    /// else the stored node, or `NodeNotFound`.
    pub fn get_node(&self, node_hash: &TreeNodeHash) -> (r: Result<HotStuffTreeNode<P>, StoreError>)
        requires
            self.wf(),
        ensures
            node_hash.bytes() == Seq::new(32, |i: int| 0u8) ==> r is Ok && is_genesis_node(r->Ok_0@),
            node_hash.bytes() != Seq::new(32, |i: int| 0u8) ==> match r {
                Ok(n) => self@.nodes.contains_key(*node_hash) && n@ == self@.nodes[*node_hash],
                Err(e) => !self@.nodes.contains_key(*node_hash) && e == StoreError::NodeNotFound,
            },
    {
        if node_hash.is_zero() {
            Ok(HotStuffTreeNode::genesis())
        } else {
            match self.nodes.get(node_hash) {
                Some(n) => Ok(n.duplicate()),
                None => Err(StoreError::NodeNotFound),
            }
        }
    }

    /// Sets the shard's last executed height.
    pub fn set_last_executed_height(&mut self, shard: ShardId, height: NodeHeight) -> (r: Result<
        (),
        StoreError,
    >)
        requires
            old(self).wf(),
        ensures
            final(self).wf(),
            r is Ok,
            final(self)@ == (ShardDbView {
                last_executed_heights: old(self)@.last_executed_heights.insert(shard, height),
                ..old(self)@
            }),
    {
        self.last_executed_height.insert(shard, height);
        Ok(())
    }

    /// The shard's last executed height; 0 where none is stored.
    pub fn get_last_executed_height(&self, shard: ShardId) -> (r: Result<NodeHeight, StoreError>)
        requires
            self.wf(),
        ensures
            r is Ok,
            self@.last_executed_heights.contains_key(shard) ==> r->Ok_0 == self@.last_executed_heights[shard],
            !self@.last_executed_heights.contains_key(shard) ==> r->Ok_0 == NodeHeight(0),
    {
        match self.last_executed_height.get(&shard) {
            Some(h) => Ok(*h),
            None => Ok(NodeHeight(0)),
        }
    }

    /// The payload with id `payload_id`, or `CannotFindPayload`.
    pub fn get_payload(&self, payload_id: &PayloadId) -> (r: Result<P, StoreError>)
        requires
            self.wf(),
        ensures
            match r {
                Ok(p) => self@.payloads.contains_key(*payload_id) && p@ == self@.payloads[*payload_id],
                Err(e) => !self@.payloads.contains_key(*payload_id) && e == StoreError::CannotFindPayload,
            },
    {
        match self.payloads.get(payload_id) {
            Some(p) => Ok(p.duplicate()),
            None => Err(StoreError::CannotFindPayload),
        }
    }

    /// Stores `payload` under its id unless a payload with that id is stored.
    pub fn set_payload(&mut self, payload: P) -> (r: Result<(), StoreError>)
        requires
            old(self).wf(),
        ensures
            final(self).wf(),
            r is Ok,
            exists|id: PayloadId|
                id.bytes() == payload.id_bytes() && final(self)@ == (ShardDbView {
                    payloads: if old(self)@.payloads.contains_key(id) {
                        old(self)@.payloads
                    } else {
                        old(self)@.payloads.insert(id, payload@)
                    },
                    ..old(self)@
                }),
    {
        let id = payload.to_id();
        let present = self.payloads.get(&id).is_some();
        if !present {
            let ghost v = payload@;
            self.payloads.insert(id, payload);
            assert(self@.payloads =~= old(self)@.payloads.insert(id, v));
        }
        Ok(())
    }

    /// Pledges the object of `shard` to `payload` at `current_height`. A
    /// pledge that is still valid is returned unchanged; otherwise a fresh
    /// pledge, valid for the next four heights, is stored and returned.
    pub fn pledge_object(
        &mut self,
        shard: ShardId,
        payload: PayloadId,
        change: SubstateChange,
        current_height: NodeHeight,
    ) -> (r: Result<ObjectPledge, StoreError>)
        requires
            old(self).wf(),
            !pledge_active(old(self)@.objects, shard, current_height) ==> current_height.0 + PLEDGE_DURATION
                <= u64::MAX,
        ensures
            final(self).wf(),
            r is Ok,
            r->Ok_0.shard_id == shard,
            r->Ok_0.pledged_until.0 > current_height.0,
            r->Ok_0@ == pledge_result(old(self)@.objects, shard, payload, current_height),
            final(self)@ == (ShardDbView {
                objects: objects_after_pledge(old(self)@.objects, shard, payload, current_height),
                ..old(self)@
            }),
    {
        let state: SubstateState = match self.objects.get(&shard) {
            Some(entry) => {
                if let Some(existing) = &entry.1 {
                    if existing.pledged_until.0 > current_height.0 {
                        return Ok(existing.duplicate());
                    }
                }
                entry.0.duplicate()
            },
            None => SubstateState::DoesNotExist,
        };
        let pledge = ObjectPledge {
            shard_id: shard,
            current_state: state.duplicate(),
            pledged_to_payload: payload,
            pledged_until: NodeHeight(current_height.0 + PLEDGE_DURATION),
        };
        let stored = pledge.duplicate();
        let ghost v = (state@, option_view(Some(stored)));
        self.objects.insert(shard, (state, Some(stored)));
        assert(self@.objects =~= old(self)@.objects.insert(shard, v));
        Ok(pledge)
    }

    /// Ends the transaction. Every write of this store takes effect at once,
    /// so there is nothing left to apply and nothing can be rolled back.
    pub fn commit(&mut self) -> (r: Result<(), StoreError>)
        ensures
            r is Ok,
            final(self)@ == old(self)@,
            final(self).wf() == old(self).wf(),
    {
        Ok(())
    }
}

} // verus!
