//! A finite map kept as a list of entries with distinct keys.

use vstd::prelude::*;

use crate::ids::{NodeHeight, PayloadId, ShardId, TreeNodeHash};

verus! {

/// Keys with an executable equality that agrees with `==`.
pub trait TableKey: Sized {
    fn key_eq(&self, other: &Self) -> (r: bool)
        ensures
            r <==> *self == *other,
    ;
}

impl TableKey for ShardId {
    fn key_eq(&self, other: &ShardId) -> (r: bool) {
        *self == *other
    }
}

impl TableKey for TreeNodeHash {
    fn key_eq(&self, other: &TreeNodeHash) -> (r: bool) {
        *self == *other
    }
}

impl TableKey for PayloadId {
    fn key_eq(&self, other: &PayloadId) -> (r: bool) {
        *self == *other
    }
}

/// The key of the votes received for a node of a shard.
#[derive(Clone, Copy, Debug)]
pub struct VoteKey {
    pub node_hash: TreeNodeHash,
    pub shard: ShardId,
}

/// The key of a leader's proposal for a payload at a payload height in a shard.
#[derive(Clone, Copy, Debug)]
pub struct ProposalKey {
    pub payload: PayloadId,
    pub payload_height: NodeHeight,
    pub shard: ShardId,
}

impl TableKey for VoteKey {
    fn key_eq(&self, other: &VoteKey) -> (r: bool) {
        self.node_hash == other.node_hash && self.shard == other.shard
    }
}

impl TableKey for ProposalKey {
    fn key_eq(&self, other: &ProposalKey) -> (r: bool) {
        self.payload == other.payload && self.payload_height.0 == other.payload_height.0 && self.shard
            == other.shard
    }
}

pub open spec fn keys_unique<K, V>(s: Seq<(K, V)>) -> bool {
    forall|i: int, j: int| 0 <= i < s.len() && 0 <= j < s.len() && i != j ==> s[i].0 != s[j].0
}

pub open spec fn has_key_at<K, V>(s: Seq<(K, V)>, k: K, i: int) -> bool {
    0 <= i < s.len() && s[i].0 == k
}

pub struct Table<K, V> {
    entries: Vec<(K, V)>,
}

impl<K: TableKey, V> Table<K, V> {
    pub closed spec fn wf(&self) -> bool {
        keys_unique(self.entries@)
    }

    pub closed spec fn view(&self) -> Map<K, V> {
        Map::new(
            |k: K| exists|i: int| has_key_at(self.entries@, k, i),
            |k: K| self.entries@[choose|i: int| has_key_at(self.entries@, k, i)].1,
        )
    }

    proof fn lemma_lookup(&self, k: K, i: int)
        requires
            self.wf(),
            has_key_at(self.entries@, k, i),
        ensures
            self.view().contains_key(k),
            self.view()[k] == self.entries@[i].1,
    {
        let j = choose|j: int| has_key_at(self.entries@, k, j);
        assert(has_key_at(self.entries@, k, j));
    }

    pub fn new() -> (r: Table<K, V>)
        ensures
            r.wf(),
            r.view() == Map::<K, V>::empty(),
    {
        let r = Table { entries: Vec::new() };
        assert(r.view() =~= Map::<K, V>::empty());
        r
    }

    fn find(&self, k: &K) -> (r: Option<usize>)
        ensures
            r matches Some(i) ==> has_key_at(self.entries@, *k, i as int),
            r is None ==> forall|i: int| 0 <= i < self.entries@.len() ==> self.entries@[i].0 != *k,
    {
        let mut i: usize = 0;
        while i < self.entries.len()
            invariant
                i <= self.entries@.len(),
                forall|j: int| 0 <= j < i ==> self.entries@[j].0 != *k,
            decreases self.entries.len() - i,
        {
            if self.entries[i].0.key_eq(k) {
                return Some(i);
            }
            i = i + 1;
        }
        None
    }

    /// The value stored under `k`.
    pub fn get(&self, k: &K) -> (r: Option<&V>)
        requires
            self.wf(),
        ensures
            match r {
                Some(v) => self.view().contains_key(*k) && self.view()[*k] == *v,
                None => !self.view().contains_key(*k),
            },
    {
        match self.find(k) {
            Some(i) => {
                proof {
                    self.lemma_lookup(*k, i as int);
                }
                Some(&self.entries[i].1)
            },
            None => None,
        }
    }

    /// Stores `v` under `k`, replacing what was there.
    pub fn insert(&mut self, k: K, v: V)
        requires
            old(self).wf(),
        ensures
            final(self).wf(),
            final(self).view() == old(self).view().insert(k, v),
    {
        let ghost before = *self;
        let ghost idx: int;
        match self.find(&k) {
            Some(i) => {
                self.entries.set(i, (k, v));
                proof {
                    idx = i as int;
                }
            },
            None => {
                self.entries.push((k, v));
                proof {
                    idx = self.entries@.len() - 1;
                }
            },
        }
        let ghost after = *self;
        assert(keys_unique(after.entries@));
        assert forall|kk: K| #[trigger] after.view().contains_key(kk) <==> before.view().insert(
            k,
            v,
        ).contains_key(kk) by {
            if kk != k {
                if before.view().contains_key(kk) {
                    let i = choose|i: int| has_key_at(before.entries@, kk, i);
                    assert(has_key_at(after.entries@, kk, i));
                }
                if after.view().contains_key(kk) {
                    let i = choose|i: int| has_key_at(after.entries@, kk, i);
                    assert(has_key_at(before.entries@, kk, i));
                }
            } else {
                assert(has_key_at(after.entries@, kk, idx));
            }
        }
        assert forall|kk: K| #[trigger] after.view().contains_key(kk) implies after.view()[kk] == before.view().insert(
            k,
            v,
        )[kk] by {
            let i = choose|i: int| has_key_at(after.entries@, kk, i);
            after.lemma_lookup(kk, i);
            if kk != k {
                assert(has_key_at(before.entries@, kk, i));
                before.lemma_lookup(kk, i);
            }
        }
        assert(after.view() =~= before.view().insert(k, v));
    }
}

} // verus!
