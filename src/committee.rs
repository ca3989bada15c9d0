//! Committee derivation: the validators nearest to a shard on the ring of
//! shard keys.

use vstd::prelude::*;

use crate::ids::{lex_lt, Epoch, PublicKey, ShardId};

verus! {

/// A validator registration: who, at which shard key, from which epoch on.
#[derive(Clone, Copy, Debug, PartialEq, Eq)]
pub struct ValidatorNode {
    pub public_key: PublicKey,
    pub shard_key: ShardId,
    pub epoch: Epoch,
}

/// The members of a shard's committee, in ring order.
#[derive(Clone, Debug)]
pub struct Committee {
    pub members: Vec<PublicKey>,
}

/// A shard together with the committee responsible for it.
#[derive(Clone, Debug)]
pub struct ShardCommitteeAllocation {
    pub shard_id: ShardId,
    pub committee: Committee,
}

/// Half the committee size, rounded up.
pub open spec fn half_committee(committee_size: nat) -> nat {
    (committee_size + 1) / 2
}

/// How many of `vns` have a shard key strictly below `shard`.
pub open spec fn count_below(vns: Seq<ValidatorNode>, shard: ShardId) -> nat
    decreases vns.len(),
{
    if vns.len() == 0 {
        0
    } else {
        count_below(vns.drop_last(), shard) + if lex_lt(vns.last().shard_key.bytes(), shard.bytes()) {
            1nat
        } else {
            0nat
        }
    }
}

/// Position `i` (below `2 * len`) folded onto a ring of `len` positions.
pub open spec fn wrap(i: int, len: int) -> int {
    if i < len {
        i
    } else {
        i - len
    }
}

/// Where the committee window of a shard starts: `half` places before the
/// first validator whose key is not below the shard, counted around the ring.
pub open spec fn window_start(len: int, mid: int, half: int) -> int {
    let x = mid - half;
    if x < 0 {
        x + len
    } else {
        wrap(x, len)
    }
}

/// The committee of `shard` among the validators `vns` (sorted by shard key):
/// all of them when there are fewer than twice half the committee size, else
/// the `2 * half` consecutive validators on the ring that start `half`
/// places before the shard's position: `half` validators before it and
/// `half` at or after it.
pub open spec fn committee_of(vns: Seq<ValidatorNode>, shard: ShardId, committee_size: nat) -> Seq<
    ValidatorNode,
> {
    let half = half_committee(committee_size) as int;
    let len = vns.len() as int;
    if len < 2 * half {
        vns
    } else {
        let b = window_start(len, count_below(vns, shard) as int, half);
        Seq::new((2 * half) as nat, |k: int| vns[wrap(b + k, len)])
    }
}

/// The public keys of `vns`, in order.
pub open spec fn keys_of(vns: Seq<ValidatorNode>) -> Seq<PublicKey> {
    vns.map_values(|v: ValidatorNode| v.public_key)
}

pub proof fn lemma_count_below_le(vns: Seq<ValidatorNode>, shard: ShardId)
    ensures
        count_below(vns, shard) <= vns.len(),
    decreases vns.len(),
{
    if vns.len() > 0 {
        lemma_count_below_le(vns.drop_last(), shard);
    }
}

/// Committee size: with at least `committee_size` validators, a committee
/// has exactly `committee_size` members when the size is even, and at most
/// one more when it is odd.
pub proof fn lemma_committee_size(vns: Seq<ValidatorNode>, shard: ShardId, committee_size: nat)
    requires
        committee_size >= 1,
        vns.len() >= committee_size,
    ensures
        committee_size <= committee_of(vns, shard, committee_size).len() <= committee_size + 1,
        committee_size % 2 == 0 ==> committee_of(vns, shard, committee_size).len() == committee_size,
        vns.len() >= 2 * half_committee(committee_size) ==> committee_of(vns, shard, committee_size).len() == 2
            * half_committee(committee_size),
{
}

/// Every committee member is one of the validators.
pub proof fn lemma_committee_members(vns: Seq<ValidatorNode>, shard: ShardId, committee_size: nat, k: int)
    requires
        committee_size >= 1,
        0 <= k < committee_of(vns, shard, committee_size).len(),
    ensures
        vns.contains(committee_of(vns, shard, committee_size)[k]),
{
    let half = half_committee(committee_size) as int;
    let len = vns.len() as int;
    if len >= 2 * half {
        lemma_count_below_le(vns, shard);
        let b = window_start(len, count_below(vns, shard) as int, half);
        assert(vns[wrap(b + k, len)] == committee_of(vns, shard, committee_size)[k]);
    }
}

/// Counts the validators whose shard key lies strictly below `shard`.
pub fn count_validators_below(vns: &Vec<ValidatorNode>, shard: &ShardId) -> (r: usize)
    ensures
        r == count_below(vns@, *shard),
{
    let mut count: usize = 0;
    let mut i: usize = 0;
    while i < vns.len()
        invariant
            i <= vns@.len(),
            count <= i,
            count == count_below(vns@.subrange(0, i as int), *shard),
        decreases vns.len() - i,
    {
        let below = vns[i].shard_key.lt(shard);
        assert(vns@.subrange(0, i + 1).drop_last() =~= vns@.subrange(0, i as int));
        if below {
            count = count + 1;
        }
        i = i + 1;
    }
    assert(vns@.subrange(0, vns@.len() as int) =~= vns@);
    count
}

/// Selects the committee of `shard` from validators sorted by shard key.
pub fn select_committee(vns: Vec<ValidatorNode>, shard: &ShardId, committee_size: u32) -> (r: Vec<
    ValidatorNode,
>)
    requires
        committee_size >= 1,
    ensures
        r@ == committee_of(vns@, *shard, committee_size as nat),
{
    let half: u64 = if committee_size % 2 > 0 {
        (committee_size / 2) as u64 + 1
    } else {
        (committee_size / 2) as u64
    };
    assert(half == half_committee(committee_size as nat));
    let len: usize = vns.len();
    if (len as u64) < 2 * half {
        return vns;
    }
    let mid: usize = count_validators_below(&vns, shard);
    let hm: usize = half as usize;
    let begin: usize = if mid >= hm {
        let x: usize = mid - hm;
        if x >= len {
            x - len
        } else {
            x
        }
    } else {
        len - (hm - mid)
    };
    let ghost b = window_start(len as int, mid as int, half as int);
    proof {
        lemma_count_below_le(vns@, *shard);
    }
    assert(begin == b);
    let size: usize = (2 * half) as usize;
    let mut result: Vec<ValidatorNode> = Vec::new();
    let mut cur: usize = begin;
    let mut k: usize = 0;
    while k < size
        invariant
            len == vns@.len(),
            0 <= b < len,
            size <= len,
            k <= size,
            cur == wrap(b + k, len as int),
            result@ =~= Seq::new(k as nat, |j: int| vns@[wrap(b + j, len as int)]),
        decreases size - k,
    {
        result.push(vns[cur]);
        k = k + 1;
        cur = if cur + 1 == len {
            0
        } else {
            cur + 1
        };
    }
    result
}

/// The range of shards that a committee covers.
pub fn committee_shard_range(committee_size: usize, committee_vns: &Vec<ValidatorNode>) -> (r: (
    ShardId,
    ShardId,
))
    requires
        committee_size >= 1,
    ensures
        committee_vns@.len() < committee_size ==> r.0.bytes() == Seq::new(32, |i: int| 0u8)
            && r.1.bytes() == Seq::new(32, |i: int| 255u8),
        committee_vns@.len() >= committee_size ==> r.0 == committee_vns@[0].shard_key && r.1
            == committee_vns@.last().shard_key,
{
    if committee_vns.len() < committee_size {
        (ShardId::zero(), ShardId::max())
    } else {
        let last: usize = committee_vns.len() - 1;
        (committee_vns[0].shard_key, committee_vns[last].shard_key)
    }
}

impl Committee {
    pub fn new(members: Vec<PublicKey>) -> (r: Committee)
        ensures
            r.members@ == members@,
    {
        Committee { members }
    }

    /// The committee formed by the keys of `vns`.
    pub fn from_validators(vns: &Vec<ValidatorNode>) -> (r: Committee)
        ensures
            r.members@ == keys_of(vns@),
    {
        let mut members: Vec<PublicKey> = Vec::new();
        let mut i: usize = 0;
        while i < vns.len()
            invariant
                i <= vns@.len(),
                members@ =~= keys_of(vns@.subrange(0, i as int)),
            decreases vns.len() - i,
        {
            members.push(vns[i].public_key);
            i = i + 1;
            assert(members@ =~= keys_of(vns@.subrange(0, i as int)));
        }
        assert(vns@.subrange(0, vns@.len() as int) =~= vns@);
        Committee { members }
    }

    pub fn len(&self) -> (r: usize)
        ensures
            r == self.members@.len(),
    {
        self.members.len()
    }

    /// Whether `key` is a member.
    pub fn contains(&self, key: &PublicKey) -> (r: bool)
        ensures
            r <==> self.members@.contains(*key),
    {
        let mut i: usize = 0;
        while i < self.members.len()
            invariant
                i <= self.members@.len(),
                forall|j: int| 0 <= j < i ==> self.members@[j] != *key,
            decreases self.members.len() - i,
        {
            if self.members[i] == *key {
                assert(self.members@[i as int] == *key);
                return true;
            }
            i = i + 1;
        }
        false
    }
}

} // verus!
