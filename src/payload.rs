//! Payloads: what consensus agrees on, with the shards they touch.

use vstd::prelude::*;

use crate::hashing::{blake256, blake256_of};
use crate::ids::{PayloadId, ShardId};
use crate::substate::{ObjectClaim, SubstateChange};

verus! {

/// What a consensus round agrees on. Its id is a function of its content.
pub trait Payload: View + Sized {
    /// The shards that the payload reads or writes.
    spec fn shards(&self) -> Seq<ShardId>;

    /// The bytes of the payload's id.
    spec fn id_bytes(&self) -> Seq<u8>;

    /// The change and claim that the payload makes on `shard`, if any.
    spec fn claim_for(&self, shard: ShardId) -> Option<(SubstateChange, ObjectClaim)>;

    /// The most new objects the payload may create.
    spec fn output_limit(&self) -> u32;

    fn involved_shards(&self) -> (r: Vec<ShardId>)
        ensures
            r@ == self.shards(),
    ;

    fn to_id(&self) -> (r: PayloadId)
        ensures
            r.bytes() == self.id_bytes(),
    ;

    fn objects_for_shard(&self, shard: ShardId) -> (r: Option<(SubstateChange, ObjectClaim)>)
        ensures
            r == self.claim_for(shard),
    ;

    fn max_outputs(&self) -> (r: u32)
        ensures
            r == self.output_limit(),
    ;

    /// A copy of the payload.
    fn duplicate(&self) -> (r: Self)
        ensures
            r@ == self@,
    ;
}

/// A payload made of a text and the shards it creates objects in; its id is
/// the hash of the text.
#[derive(Clone, Debug)]
pub struct SimplePayload {
    pub text: Vec<u8>,
    pub shards: Vec<ShardId>,
}

/// The most outputs a simple payload may create.
pub const SIMPLE_PAYLOAD_MAX_OUTPUTS: u32 = 100;

impl View for SimplePayload {
    type V = (Seq<u8>, Seq<ShardId>);

    open spec fn view(&self) -> (Seq<u8>, Seq<ShardId>) {
        (self.text@, self.shards@)
    }
}

/// A copy of a list of shards.
pub fn copy_shards(v: &Vec<ShardId>) -> (r: Vec<ShardId>)
    ensures
        r@ == v@,
{
    let mut r: Vec<ShardId> = Vec::new();
    let mut i: usize = 0;
    while i < v.len()
        invariant
            i <= v@.len(),
            r@ == v@.subrange(0, i as int),
        decreases v.len() - i,
    {
        r.push(v[i]);
        i = i + 1;
        assert(r@ =~= v@.subrange(0, i as int));
    }
    assert(v@.subrange(0, v@.len() as int) =~= v@);
    r
}

/// Whether `shard` is in `v`.
pub fn contains_shard(v: &Vec<ShardId>, shard: &ShardId) -> (r: bool)
    ensures
        r <==> v@.contains(*shard),
{
    let mut i: usize = 0;
    while i < v.len()
        invariant
            i <= v@.len(),
            forall|j: int| 0 <= j < i ==> v@[j] != *shard,
        decreases v.len() - i,
    {
        if v[i] == *shard {
            assert(v@[i as int] == *shard);
            return true;
        }
        i = i + 1;
    }
    false
}

impl Payload for SimplePayload {
    open spec fn shards(&self) -> Seq<ShardId> {
        self.shards@
    }

    open spec fn id_bytes(&self) -> Seq<u8> {
        blake256_of(self.text@)
    }

    open spec fn claim_for(&self, shard: ShardId) -> Option<(SubstateChange, ObjectClaim)> {
        if self.shards@.contains(shard) {
            Some((SubstateChange::Create, ObjectClaim {  }))
        } else {
            None
        }
    }

    open spec fn output_limit(&self) -> u32 {
        SIMPLE_PAYLOAD_MAX_OUTPUTS
    }

    fn involved_shards(&self) -> (r: Vec<ShardId>) {
        copy_shards(&self.shards)
    }

    fn to_id(&self) -> (r: PayloadId) {
        PayloadId::from_array(blake256(&self.text))
    }

    fn objects_for_shard(&self, shard: ShardId) -> (r: Option<(SubstateChange, ObjectClaim)>) {
        if contains_shard(&self.shards, &shard) {
            Some((SubstateChange::Create, ObjectClaim {  }))
        } else {
            None
        }
    }

    fn max_outputs(&self) -> (r: u32) {
        SIMPLE_PAYLOAD_MAX_OUTPUTS
    }

    fn duplicate(&self) -> (r: SimplePayload) {
        SimplePayload { text: crate::global_db::copy_bytes(&self.text), shards: copy_shards(&self.shards) }
    }
}

} // verus!
