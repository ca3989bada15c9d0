//! The global metadata store of the epoch manager: epoch metadata, the
//! validator registry (kept in shard-key order) and per-epoch records.

use vstd::prelude::*;

use crate::committee::ValidatorNode;
use crate::ids::{
    bytes32_lt, lemma_lex_lt_asymmetric, lemma_lex_lt_irreflexive, lemma_lex_lt_transitive, lemma_lex_total, lex_lt, Epoch,
    PublicKey, ShardId,
};

verus! {

/// Consensus constants that the base layer publishes.
#[derive(Clone, Copy, Debug, PartialEq, Eq, Structural)]
pub struct BaseLayerConsensusConstants {
    /// Number of base-layer blocks per epoch.
    pub epoch_length: u64,
    /// Number of epochs for which a registration stays valid.
    pub validator_node_registration_expiry: u64,
}

impl BaseLayerConsensusConstants {
    pub open spec fn wf(&self) -> bool {
        self.epoch_length > 0
    }

    /// The epoch that contains base-layer block `height`.
    pub fn height_to_epoch(&self, height: u64) -> (r: Epoch)
        requires
            self.wf(),
        ensures
            r.0 == height / self.epoch_length,
    {
        Epoch(height / self.epoch_length)
    }

    /// The first base-layer height of `epoch`; `None` where it exceeds `u64`.
    pub fn epoch_to_height(&self, epoch: Epoch) -> (r: Option<u64>)
        ensures
            epoch.0 * self.epoch_length <= u64::MAX <==> r is Some,
            r matches Some(h) ==> h == epoch.0 * self.epoch_length,
    {
        epoch.0.checked_mul(self.epoch_length)
    }

    pub fn validator_node_registration_expiry(&self) -> (r: Epoch)
        ensures
            r.0 == self.validator_node_registration_expiry,
    {
        Epoch(self.validator_node_registration_expiry)
    }
}

/// The record of an epoch: its number and the validator-node Merkle root of
/// the block header that opened it.
#[derive(Clone, Debug)]
pub struct DbEpoch {
    pub epoch: u64,
    pub validator_node_mr: Vec<u8>,
}

/// The registry order: by shard key, then public key, then epoch.
pub open spec fn vn_lt(a: ValidatorNode, b: ValidatorNode) -> bool {
    lex_lt(a.shard_key.bytes(), b.shard_key.bytes()) || (a.shard_key == b.shard_key && (lex_lt(
        a.public_key.bytes(),
        b.public_key.bytes(),
    ) || (a.public_key == b.public_key && a.epoch.0 < b.epoch.0)))
}

pub proof fn lemma_vn_lt_irreflexive(a: ValidatorNode)
    ensures
        !vn_lt(a, a),
{
    lemma_lex_lt_irreflexive(a.shard_key.bytes());
    lemma_lex_lt_irreflexive(a.public_key.bytes());
}

pub proof fn lemma_vn_lt_transitive(a: ValidatorNode, b: ValidatorNode, c: ValidatorNode)
    requires
        vn_lt(a, b),
        vn_lt(b, c),
    ensures
        vn_lt(a, c),
{
    if lex_lt(a.shard_key.bytes(), b.shard_key.bytes()) && lex_lt(b.shard_key.bytes(), c.shard_key.bytes()) {
        lemma_lex_lt_transitive(a.shard_key.bytes(), b.shard_key.bytes(), c.shard_key.bytes());
    }
    if lex_lt(a.public_key.bytes(), b.public_key.bytes()) && lex_lt(b.public_key.bytes(), c.public_key.bytes()) {
        lemma_lex_lt_transitive(a.public_key.bytes(), b.public_key.bytes(), c.public_key.bytes());
    }
}

/// Distinct registrations are ordered one way or the other.
pub proof fn lemma_vn_lt_total(a: ValidatorNode, b: ValidatorNode)
    requires
        a != b,
    ensures
        vn_lt(a, b) || vn_lt(b, a),
{
    if a.shard_key.bytes() != b.shard_key.bytes() {
        lemma_lex_total(a.shard_key.bytes(), b.shard_key.bytes());
    } else {
        assert(a.shard_key.0 =~= b.shard_key.0);
        if a.public_key.bytes() != b.public_key.bytes() {
            lemma_lex_total(a.public_key.bytes(), b.public_key.bytes());
        } else {
            assert(a.public_key.0 =~= b.public_key.0);
        }
    }
}

/// The registry is strictly increasing in registry order.
pub open spec fn strictly_sorted(s: Seq<ValidatorNode>) -> bool {
    forall|i: int, j: int| 0 <= i < j < s.len() ==> vn_lt(#[trigger] s[i], #[trigger] s[j])
}

/// Validators ordered by shard key: no later entry has a smaller key.
pub open spec fn sorted_by_shard_key(s: Seq<ValidatorNode>) -> bool {
    forall|i: int, j: int|
        0 <= i < j < s.len() ==> !lex_lt(#[trigger] s[j].shard_key.bytes(), #[trigger] s[i].shard_key.bytes())
}

/// A registry in registry order is in shard-key order.
pub proof fn lemma_strictly_sorted_by_shard_key(s: Seq<ValidatorNode>)
    requires
        strictly_sorted(s),
    ensures
        sorted_by_shard_key(s),
{
    assert forall|i: int, j: int| 0 <= i < j < s.len() implies !lex_lt(
        #[trigger] s[j].shard_key.bytes(),
        #[trigger] s[i].shard_key.bytes(),
    ) by {
        assert(vn_lt(s[i], s[j]));
        if lex_lt(s[j].shard_key.bytes(), s[i].shard_key.bytes()) {
            if lex_lt(s[i].shard_key.bytes(), s[j].shard_key.bytes()) {
                lemma_lex_lt_asymmetric(s[i].shard_key.bytes(), s[j].shard_key.bytes());
            } else {
                lemma_lex_lt_irreflexive(s[i].shard_key.bytes());
            }
        }
    }
}

/// A registry in registry order is determined by the registrations it
/// holds.
pub proof fn lemma_sorted_registry_unique(s: Seq<ValidatorNode>, t: Seq<ValidatorNode>)
    requires
        strictly_sorted(s),
        strictly_sorted(t),
        forall|x: ValidatorNode| s.contains(x) <==> t.contains(x),
    ensures
        s == t,
    decreases s.len() + t.len(),
{
    if s.len() == 0 {
        if t.len() > 0 {
            assert(t.contains(t[0]));
        }
        assert(s =~= t);
    } else if t.len() == 0 {
        assert(s.contains(s[0]));
    } else {
        assert(s.contains(s[0]));
        let j = choose|j: int| 0 <= j < t.len() && t[j] == s[0];
        assert(t.contains(t[0]));
        let k = choose|k: int| 0 <= k < s.len() && s[k] == t[0];
        if j > 0 {
            assert(vn_lt(t[0], t[j]));
            if k > 0 {
                assert(vn_lt(s[0], s[k]));
                lemma_vn_lt_transitive(t[0], s[0], t[0]);
            }
            lemma_vn_lt_irreflexive(t[0]);
        }
        assert(s[0] == t[0]);
        let s1 = s.drop_first();
        let t1 = t.drop_first();
        assert forall|x: ValidatorNode| s1.contains(x) implies t1.contains(x) by {
            let a = choose|a: int| 0 <= a < s1.len() && s1[a] == x;
            assert(s.contains(x) && s[a + 1] == x);
            let b = choose|b: int| 0 <= b < t.len() && t[b] == x;
            if b == 0 {
                assert(vn_lt(s[0], s[a + 1]));
                lemma_vn_lt_irreflexive(x);
            }
            assert(t1[b - 1] == x);
        }
        assert forall|x: ValidatorNode| t1.contains(x) implies s1.contains(x) by {
            let a = choose|a: int| 0 <= a < t1.len() && t1[a] == x;
            assert(t.contains(x) && t[a + 1] == x);
            let b = choose|b: int| 0 <= b < s.len() && s[b] == x;
            if b == 0 {
                assert(vn_lt(t[0], t[a + 1]));
                lemma_vn_lt_irreflexive(x);
            }
            assert(s1[b - 1] == x);
        }
        assert forall|i: int, j: int| 0 <= i < j < s1.len() implies vn_lt(#[trigger] s1[i], #[trigger] s1[j]) by {
            assert(s1[j] == s[j + 1] && s1[i] == s[i + 1]);
        }
        assert forall|i: int, j: int| 0 <= i < j < t1.len() implies vn_lt(#[trigger] t1[i], #[trigger] t1[j]) by {
            assert(t1[j] == t[j + 1] && t1[i] == t[i + 1]);
        }
        lemma_sorted_registry_unique(s1, t1);
        assert(s =~= seq![s[0]] + s1);
        assert(t =~= seq![t[0]] + t1);
    }
}

/// Registration `v` lies within epochs `start..=end`.
pub open spec fn in_epochs(v: ValidatorNode, start: u64, end: u64) -> bool {
    start <= v.epoch.0 <= end
}

/// The registrations of `s` within epochs `start..=end`, in order.
pub open spec fn within_epochs(s: Seq<ValidatorNode>, start: u64, end: u64) -> Seq<ValidatorNode>
    decreases s.len(),
{
    if s.len() == 0 {
        Seq::empty()
    } else {
        let r = within_epochs(s.drop_last(), start, end);
        if in_epochs(s.last(), start, end) {
            r.push(s.last())
        } else {
            r
        }
    }
}

/// Registration `v` is of `key` and lies within epochs `start..=end`.
pub open spec fn registration_of(v: ValidatorNode, key: PublicKey, start: u64, end: u64) -> bool {
    v.public_key == key && in_epochs(v, start, end)
}

/// `i` is the newest registration of `key` in `s` within epochs
/// `start..=end`: none has a later epoch, and among those of its epoch it
/// comes last in the registry.
pub open spec fn newest_registration_at(
    s: Seq<ValidatorNode>,
    key: PublicKey,
    start: u64,
    end: u64,
    i: int,
) -> bool {
    &&& 0 <= i < s.len()
    &&& registration_of(s[i], key, start, end)
    &&& forall|j: int|
        0 <= j < s.len() && registration_of(#[trigger] s[j], key, start, end) ==> s[j].epoch.0 < s[i].epoch.0 || (
        s[j].epoch.0 == s[i].epoch.0 && j <= i)
}

/// The first epoch record of `s` for `epoch`.
pub open spec fn first_epoch_at(s: Seq<DbEpoch>, epoch: u64, i: int) -> bool {
    &&& 0 <= i < s.len()
    &&& s[i].epoch == epoch
    &&& forall|j: int| 0 <= j < i ==> #[trigger] s[j].epoch != epoch
}

/// Whether `a` comes before `b` in registry order.
fn validator_lt(a: &ValidatorNode, b: &ValidatorNode) -> (r: bool)
    ensures
        r == vn_lt(*a, *b),
{
    if a.shard_key.lt(&b.shard_key) {
        return true;
    }
    if a.shard_key != b.shard_key {
        return false;
    }
    if bytes32_lt(&a.public_key.0, &b.public_key.0) {
        return true;
    }
    a.public_key == b.public_key && a.epoch.0 < b.epoch.0
}

fn same_validator(a: &ValidatorNode, b: &ValidatorNode) -> (r: bool)
    ensures
        r == (*a == *b),
{
    a.public_key == b.public_key && a.shard_key == b.shard_key && a.epoch.0 == b.epoch.0
}

/// Durable state of the epoch manager. Each metadata entry is absent until
/// first written.
#[derive(Clone, Debug)]
pub struct GlobalDb {
    pub current_epoch: Option<Epoch>,
    pub current_shard_key: Option<ShardId>,
    pub base_layer_constants: Option<BaseLayerConsensusConstants>,
    pub current_block_height: Option<u64>,
    pub last_epoch_registration: Option<Epoch>,
    pub last_synced_epoch: Option<Epoch>,
    pub validator_nodes: Vec<ValidatorNode>,
    pub epochs: Vec<DbEpoch>,
}

impl GlobalDb {
    pub open spec fn wf(&self) -> bool {
        &&& strictly_sorted(self.validator_nodes@)
        &&& self.base_layer_constants matches Some(c) ==> c.wf()
    }

    /// A store with no metadata, registrations or epochs.
    pub fn new() -> (r: GlobalDb)
        ensures
            r.wf(),
            r.current_epoch is None,
            r.current_shard_key is None,
            r.base_layer_constants is None,
            r.current_block_height is None,
            r.last_epoch_registration is None,
            r.last_synced_epoch is None,
            r.validator_nodes@.len() == 0,
            r.epochs@.len() == 0,
    {
        GlobalDb {
            current_epoch: None,
            current_shard_key: None,
            base_layer_constants: None,
            current_block_height: None,
            last_epoch_registration: None,
            last_synced_epoch: None,
            validator_nodes: Vec::new(),
            epochs: Vec::new(),
        }
    }

    /// Adds a registration, keeping the registry in registry order (shard
    /// key, then public key, then epoch). A registration already present is
    /// not added twice.
    pub fn insert_validator_node(&mut self, vn: ValidatorNode)
        requires
            old(self).wf(),
        ensures
            final(self).wf(),
            sorted_by_shard_key(final(self).validator_nodes@),
            forall|x: ValidatorNode|
                #[trigger] final(self).validator_nodes@.contains(x) <==> (old(self).validator_nodes@.contains(x)
                    || x == vn),
            final(self).current_epoch == old(self).current_epoch,
            final(self).current_shard_key == old(self).current_shard_key,
            final(self).base_layer_constants == old(self).base_layer_constants,
            final(self).current_block_height == old(self).current_block_height,
            final(self).last_epoch_registration == old(self).last_epoch_registration,
            final(self).last_synced_epoch == old(self).last_synced_epoch,
            final(self).epochs@ == old(self).epochs@,
    {
        let ghost s = self.validator_nodes@;
        let mut p: usize = 0;
        while p < self.validator_nodes.len()
            invariant
                self.validator_nodes@ == s,
                p <= s.len(),
                forall|i: int| 0 <= i < p ==> vn_lt(#[trigger] s[i], vn),
            ensures
                self.validator_nodes@ == s,
                p <= s.len(),
                forall|i: int| 0 <= i < p ==> vn_lt(#[trigger] s[i], vn),
                p < s.len() ==> !vn_lt(s[p as int], vn),
            decreases self.validator_nodes.len() - p,
        {
            if !validator_lt(&self.validator_nodes[p], &vn) {
                break;
            }
            p = p + 1;
        }
        if p < self.validator_nodes.len() && same_validator(&self.validator_nodes[p], &vn) {
            assert(s.contains(vn) && s[p as int] == vn);
            proof {
                lemma_strictly_sorted_by_shard_key(s);
            }
            return;
        }
        proof {
            if p < s.len() {
                lemma_vn_lt_total(s[p as int], vn);
            }
        }
        self.validator_nodes.insert(p, vn);
        let ghost t = self.validator_nodes@;
        assert(t =~= s.insert(p as int, vn));
        assert forall|i: int, j: int| 0 <= i < j < t.len() implies vn_lt(#[trigger] t[i], #[trigger] t[j]) by {
            if i < p && j == p {
            } else if i < p && j > p {
                assert(t[i] == s[i] && t[j] == s[j - 1]);
            } else if i == p && j > p {
                assert(t[j] == s[j - 1]);
                if j - 1 > p {
                    assert(vn_lt(s[p as int], s[j - 1]));
                    lemma_vn_lt_transitive(vn, s[p as int], s[j - 1]);
                }
            } else if i > p {
                assert(t[i] == s[i - 1] && t[j] == s[j - 1]);
            } else {
                assert(t[i] == s[i] && t[j] == s[j]);
            }
        }
        assert forall|x: ValidatorNode| #[trigger] t.contains(x) <==> (s.contains(x) || x == vn) by {
            if t.contains(x) {
                let k = choose|k: int| 0 <= k < t.len() && t[k] == x;
                if k < p {
                    assert(s[k] == x);
                } else if k > p {
                    assert(s[k - 1] == x);
                }
            }
            if s.contains(x) {
                let k = choose|k: int| 0 <= k < s.len() && s[k] == x;
                if k < p {
                    assert(t[k] == x);
                } else {
                    assert(t[k + 1] == x);
                }
            }
            if x == vn {
                assert(t[p as int] == x);
            }
        }
        proof {
            lemma_strictly_sorted_by_shard_key(t);
        }
    }

    /// The registrations within epochs `start..=end`, in shard-key order.
    pub fn get_all_within_epochs(&self, start: u64, end: u64) -> (r: Vec<ValidatorNode>)
        ensures
            r@ == within_epochs(self.validator_nodes@, start, end),
    {
        let mut r: Vec<ValidatorNode> = Vec::new();
        let mut i: usize = 0;
        while i < self.validator_nodes.len()
            invariant
                i <= self.validator_nodes@.len(),
                r@ == within_epochs(self.validator_nodes@.subrange(0, i as int), start, end),
            decreases self.validator_nodes.len() - i,
        {
            let vn = self.validator_nodes[i];
            assert(self.validator_nodes@.subrange(0, i + 1).drop_last() =~= self.validator_nodes@.subrange(
                0,
                i as int,
            ));
            if start <= vn.epoch.0 && vn.epoch.0 <= end {
                r.push(vn);
            }
            i = i + 1;
        }
        assert(self.validator_nodes@.subrange(0, self.validator_nodes@.len() as int)
            =~= self.validator_nodes@);
        r
    }

    /// The newest registration of `public_key` within epochs
    /// `start..=end`: the one with the latest epoch, the last in the registry
    /// among those of that epoch.
    pub fn get(&self, start: u64, end: u64, public_key: &PublicKey) -> (r: Option<ValidatorNode>)
        ensures
            r matches Some(v) ==> exists|i: int|
                newest_registration_at(self.validator_nodes@, *public_key, start, end, i)
                    && self.validator_nodes@[i] == v,
            r is None ==> forall|i: int|
                0 <= i < self.validator_nodes@.len() ==> !registration_of(
                    #[trigger] self.validator_nodes@[i],
                    *public_key,
                    start,
                    end,
                ),
    {
        let ghost s = self.validator_nodes@;
        let mut best: Option<usize> = None;
        let mut i: usize = 0;
        while i < self.validator_nodes.len()
            invariant
                s == self.validator_nodes@,
                i <= s.len(),
                best is None ==> forall|j: int| 0 <= j < i ==> !registration_of(#[trigger] s[j], *public_key, start, end),
                best matches Some(b) ==> b < i && registration_of(s[b as int], *public_key, start, end) && forall|j: int|
                    0 <= j < i && registration_of(#[trigger] s[j], *public_key, start, end) ==> s[j].epoch.0 < s[b as int].epoch.0
                        || (s[j].epoch.0 == s[b as int].epoch.0 && j <= b),
            decreases self.validator_nodes.len() - i,
        {
            let vn = self.validator_nodes[i];
            if vn.public_key == *public_key && start <= vn.epoch.0 && vn.epoch.0 <= end {
                let take = match best {
                    None => true,
                    Some(b) => vn.epoch.0 >= self.validator_nodes[b].epoch.0,
                };
                if take {
                    best = Some(i);
                }
            }
            i = i + 1;
        }
        match best {
            Some(b) => {
                assert(newest_registration_at(s, *public_key, start, end, b as int));
                Some(self.validator_nodes[b])
            },
            None => None,
        }
    }

    /// Records an epoch.
    pub fn insert_epoch(&mut self, db_epoch: DbEpoch)
        ensures
            final(self).epochs@ == old(self).epochs@.push(db_epoch),
            final(self).validator_nodes@ == old(self).validator_nodes@,
            final(self).current_epoch == old(self).current_epoch,
            final(self).current_shard_key == old(self).current_shard_key,
            final(self).base_layer_constants == old(self).base_layer_constants,
            final(self).current_block_height == old(self).current_block_height,
            final(self).last_epoch_registration == old(self).last_epoch_registration,
            final(self).last_synced_epoch == old(self).last_synced_epoch,
    {
        self.epochs.push(db_epoch);
    }

    /// The validator-node Merkle root recorded for `epoch`, if any.
    pub fn get_epoch_data(&self, epoch: u64) -> (r: Option<Vec<u8>>)
        ensures
            r matches Some(mr) ==> exists|i: int|
                first_epoch_at(self.epochs@, epoch, i) && mr@ == self.epochs@[i].validator_node_mr@,
            r is None ==> forall|i: int| 0 <= i < self.epochs@.len() ==> #[trigger] self.epochs@[i].epoch != epoch,
    {
        let mut i: usize = 0;
        while i < self.epochs.len()
            invariant
                i <= self.epochs@.len(),
                forall|j: int| 0 <= j < i ==> #[trigger] self.epochs@[j].epoch != epoch,
            decreases self.epochs.len() - i,
        {
            if self.epochs[i].epoch == epoch {
                assert(first_epoch_at(self.epochs@, epoch, i as int));
                return Some(copy_bytes(&self.epochs[i].validator_node_mr));
            }
            i = i + 1;
        }
        None
    }
}

/// A copy of `v`.
pub fn copy_bytes(v: &Vec<u8>) -> (r: Vec<u8>)
    ensures
        r@ == v@,
{
    let mut r: Vec<u8> = Vec::new();
    let mut i: usize = 0;
    while i < v.len()
        invariant
            i <= v@.len(),
            r@ == v@.subrange(0, i as int),
        decreases v.len() - i,
    {
        r.push(v[i]);
        i = i + 1;
        assert(r@ =~= v@.subrange(0, i as int));
    }
    assert(v@.subrange(0, v@.len() as int) =~= v@);
    r
}

} // verus!
