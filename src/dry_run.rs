//! The read-only side of a dry run: the pledges that a payload would find on
//! the shards held locally.

use vstd::prelude::*;

use crate::ids::{NodeHeight, PayloadId, ShardId};
use crate::payload::contains_shard;
use crate::substate::{ObjectPledge, ObjectPledgeView, SubstateState};

verus! {

/// A stored substate row: the state of a shard's object, with the payload
/// and height it was last written at.
#[derive(Clone, Debug)]
pub struct SubstateShardData {
    pub shard_id: ShardId,
    pub substate: SubstateState,
    pub height: NodeHeight,
    pub payload_id: PayloadId,
}

#[derive(Clone, Copy, Debug, PartialEq, Eq)]
pub enum DryRunTransactionProcessorError {
    SubstateNotFound { shard_id: ShardId },
}

/// The involved shards that this node holds, in order.
pub open spec fn local_shards(involved: Seq<ShardId>, inventory: Seq<ShardId>) -> Seq<ShardId> {
    involved.filter(|s: ShardId| inventory.contains(s))
}

/// `i` is the first row of `rows` for `shard`.
pub open spec fn first_row_at(rows: Seq<SubstateShardData>, shard: ShardId, i: int) -> bool {
    &&& 0 <= i < rows.len()
    &&& rows[i].shard_id == shard
    &&& forall|j: int| 0 <= j < i ==> (#[trigger] rows[j]).shard_id != shard
}

/// Some row of `rows` is for `shard`.
pub open spec fn has_row(rows: Seq<SubstateShardData>, shard: ShardId) -> bool {
    exists|i: int| 0 <= i < rows.len() && (#[trigger] rows[i]).shard_id == shard
}

/// The pledge that a stored row stands for.
pub open spec fn row_pledge(row: SubstateShardData) -> ObjectPledgeView {
    ObjectPledgeView {
        shard_id: row.shard_id,
        current_state: row.substate@,
        pledged_to_payload: row.payload_id,
        pledged_until: row.height,
    }
}

/// The first row for `shard`, if any.
fn find_row(rows: &Vec<SubstateShardData>, shard: &ShardId) -> (r: Option<usize>)
    ensures
        r matches Some(i) ==> first_row_at(rows@, *shard, i as int),
        r is None ==> !has_row(rows@, *shard),
{
    let mut i: usize = 0;
    while i < rows.len()
        invariant
            i <= rows@.len(),
            forall|j: int| 0 <= j < i ==> (#[trigger] rows@[j]).shard_id != *shard,
        decreases rows.len() - i,
    {
        if rows[i].shard_id == *shard {
            return Some(i);
        }
        i = i + 1;
    }
    None
}

/// The involved shards that appear in `inventory`, in order.
pub fn filter_local_shards(involved: &Vec<ShardId>, inventory: &Vec<ShardId>) -> (r: Vec<ShardId>)
    ensures
        r@ == local_shards(involved@, inventory@),
{
    let ghost f = |s: ShardId| inventory@.contains(s);
    let mut out: Vec<ShardId> = Vec::new();
    let mut i: usize = 0;
    while i < involved.len()
        invariant
            i <= involved@.len(),
            f == (|s: ShardId| inventory@.contains(s)),
            out@ == involved@.subrange(0, i as int).filter(f),
        decreases involved.len() - i,
    {
        let s = involved[i];
        let ghost prefix = involved@.subrange(0, i as int);
        assert(involved@.subrange(0, i + 1) =~= prefix.push(s));
        proof {
            prefix.lemma_filter_push(s, f);
        }
        if contains_shard(inventory, &s) {
            out.push(s);
        }
        i = i + 1;
    }
    assert(involved@.subrange(0, involved@.len() as int) =~= involved@);
    out
}

/// The pledges found on the involved shards held locally: for each such
/// shard, in order, its first stored row read as a pledge. Fails with
/// `SubstateNotFound` for the first local shard that has no row.
pub fn get_local_pledges(
    involved_shards: &Vec<ShardId>,
    inventory: &Vec<ShardId>,
    substates: &Vec<SubstateShardData>,
) -> (r: Result<Vec<(ShardId, ObjectPledge)>, DryRunTransactionProcessorError>)
    ensures
        ({
            let local = local_shards(involved_shards@, inventory@);
            match r {
                Ok(v) => v@.len() == local.len() && forall|i: int|
                    0 <= i < local.len() ==> (#[trigger] v@[i]).0 == local[i] && exists|j: int|
                        first_row_at(substates@, local[i], j) && v@[i].1@ == row_pledge(substates@[j]),
                Err(DryRunTransactionProcessorError::SubstateNotFound { shard_id }) => exists|k: int|
                    0 <= k < local.len() && local[k] == shard_id && !has_row(substates@, shard_id)
                        && forall|i: int| 0 <= i < k ==> has_row(substates@, #[trigger] local[i]),
            }
        }),
{
    let local = filter_local_shards(involved_shards, inventory);
    let mut out: Vec<(ShardId, ObjectPledge)> = Vec::new();
    let mut i: usize = 0;
    while i < local.len()
        invariant
            local@ == local_shards(involved_shards@, inventory@),
            i <= local@.len(),
            out@.len() == i,
            forall|k: int|
                0 <= k < i ==> (#[trigger] out@[k]).0 == local@[k] && exists|j: int|
                    first_row_at(substates@, local@[k], j) && out@[k].1@ == row_pledge(substates@[j]),
            forall|k: int| 0 <= k < i ==> has_row(substates@, #[trigger] local@[k]),
        decreases local.len() - i,
    {
        let shard_id = local[i];
        match find_row(substates, &shard_id) {
            Some(j) => {
                let row = &substates[j];
                let pledge = ObjectPledge {
                    shard_id,
                    current_state: row.substate.duplicate(),
                    pledged_to_payload: row.payload_id,
                    pledged_until: row.height,
                };
                assert(has_row(substates@, shard_id)) by {
                    assert(substates@[j as int].shard_id == shard_id);
                }
                out.push((shard_id, pledge));
                assert(out@[i as int].1@ == row_pledge(substates@[j as int]));
            },
            None => {
                assert(0 <= i < local@.len() && local@[i as int] == shard_id);
                return Err(DryRunTransactionProcessorError::SubstateNotFound { shard_id });
            },
        }
        i = i + 1;
    }
    Ok(out)
}

} // verus!
