//! Substate states and the pledges that reserve a shard's object for a payload.

use vstd::prelude::*;

use crate::global_db::copy_bytes;
use crate::ids::{NodeHeight, PayloadId, ShardId};

verus! {

/// The state of the object held by a shard.
#[derive(Clone, Debug, PartialEq, Eq)]
pub enum SubstateState {
    DoesNotExist,
    /// Created by `created_by`; `address` and `data` are the encoded
    /// substate address and value.
    Up { created_by: PayloadId, address: Vec<u8>, data: Vec<u8> },
    Down { deleted_by: PayloadId },
}

/// What a payload does to an object.
#[derive(Clone, Copy, Debug, PartialEq, Eq, Structural)]
pub enum SubstateChange {
    Create,
    Destroy,
    Exists,
}

/// A payload's claim on an object.
#[derive(Clone, Copy, Debug, PartialEq, Eq, Structural)]
pub struct ObjectClaim {}

/// A reservation of a shard's object for one payload, valid while the
/// current height is below `pledged_until`.
#[derive(Clone, Debug, PartialEq, Eq)]
pub struct ObjectPledge {
    pub shard_id: ShardId,
    pub current_state: SubstateState,
    pub pledged_to_payload: PayloadId,
    pub pledged_until: NodeHeight,
}

/// The mathematical value of a substate state.
pub enum SubstateStateView {
    DoesNotExist,
    Up { created_by: PayloadId, address: Seq<u8>, data: Seq<u8> },
    Down { deleted_by: PayloadId },
}

/// The mathematical value of a pledge.
pub struct ObjectPledgeView {
    pub shard_id: ShardId,
    pub current_state: SubstateStateView,
    pub pledged_to_payload: PayloadId,
    pub pledged_until: NodeHeight,
}

impl View for SubstateState {
    type V = SubstateStateView;

    open spec fn view(&self) -> SubstateStateView {
        match self {
            SubstateState::DoesNotExist => SubstateStateView::DoesNotExist,
            SubstateState::Up { created_by, address, data } => SubstateStateView::Up {
                created_by: *created_by,
                address: address@,
                data: data@,
            },
            SubstateState::Down { deleted_by } => SubstateStateView::Down { deleted_by: *deleted_by },
        }
    }
}

impl View for ObjectPledge {
    type V = ObjectPledgeView;

    open spec fn view(&self) -> ObjectPledgeView {
        ObjectPledgeView {
            shard_id: self.shard_id,
            current_state: self.current_state@,
            pledged_to_payload: self.pledged_to_payload,
            pledged_until: self.pledged_until,
        }
    }
}

impl SubstateState {
    /// The name of the state.
    pub fn as_str(&self) -> (r: &'static str)
        ensures
            r@ == match self {
                SubstateState::DoesNotExist => "DoesNotExist"@,
                SubstateState::Up { .. } => "Up"@,
                SubstateState::Down { .. } => "Down"@,
            },
    {
        match self {
            SubstateState::DoesNotExist => "DoesNotExist",
            SubstateState::Up { .. } => "Up",
            SubstateState::Down { .. } => "Down",
        }
    }

    /// A copy of the state.
    pub fn duplicate(&self) -> (r: SubstateState)
        ensures
            r@ == self@,
    {
        match self {
            SubstateState::DoesNotExist => SubstateState::DoesNotExist,
            SubstateState::Up { created_by, address, data } => {
                let a = copy_bytes(address);
                let d = copy_bytes(data);
                SubstateState::Up { created_by: *created_by, address: a, data: d }
            },
            SubstateState::Down { deleted_by } => SubstateState::Down { deleted_by: *deleted_by },
        }
    }
}

impl ObjectPledge {
    /// A copy of the pledge.
    pub fn duplicate(&self) -> (r: ObjectPledge)
        ensures
            r@ == self@,
    {
        ObjectPledge {
            shard_id: self.shard_id,
            current_state: self.current_state.duplicate(),
            pledged_to_payload: self.pledged_to_payload,
            pledged_until: self.pledged_until,
        }
    }
}

} // verus!
