//! The epoch manager: tracks the current epoch, base-layer constants and
//! validator registrations, and derives per-shard committees from them.
//! Every change is written to the global store first and then mirrored in
//! the manager's own fields.

use vstd::prelude::*;

use crate::committee::{
    committee_of, committee_shard_range, keys_of, select_committee, Committee, ShardCommitteeAllocation,
    ValidatorNode,
};
use crate::global_db::{
    lemma_sorted_registry_unique, newest_registration_at, registration_of,
    within_epochs,
    BaseLayerConsensusConstants, DbEpoch, GlobalDb,
};
use crate::ids::{Epoch, PublicKey, ShardId};

verus! {

/// Largest distance between a claimed epoch and the current one that is still
/// accepted.
pub const EPOCH_VALIDITY_WINDOW: u64 = 10;

/// Locally configured consensus constants.
#[derive(Clone, Copy, Debug, PartialEq, Eq, Structural)]
pub struct ConsensusConstants {
    /// Base-layer blocks to wait before a block is considered final.
    pub base_layer_confirmations: u64,
    /// Target number of validators per committee.
    pub committee_size: u32,
}

#[derive(Clone, Copy, Debug, PartialEq, Eq)]
pub enum EpochManagerError {
    BaseLayerConsensusConstantsNotSet,
    ShardKeyNotFound { public_key: PublicKey, block_height: u64 },
    NoEpochFound(Epoch),
    NoCommitteeVns { epoch: Epoch, shard_id: ShardId },
    /// The first height of the registration's epoch does not fit in `u64`.
    BlockHeightOutOfRange { block_height: u64 },
}

#[derive(Clone, Copy, Debug, PartialEq, Eq, Structural)]
pub enum EpochManagerEvent {
    EpochChanged(Epoch),
}

/// What to do once the base layer has been scanned.
#[derive(Clone, Debug)]
pub enum StateSync {
    /// State was already synchronised for the current epoch.
    AlreadySynced,
    /// This node holds no registration for the current epoch.
    NotRegistered,
    /// Synchronise shards `start_shard..=end_shard` from the committee of the
    /// node's own shard key.
    Sync { shard_key: ShardId, committee: Vec<ValidatorNode>, start_shard: ShardId, end_shard: ShardId },
}

/// The registrations within the expiry window that ends at `epoch`.
pub open spec fn window_start_epoch(epoch: u64, expiry: u64) -> u64 {
    if epoch >= expiry {
        (epoch - expiry) as u64
    } else {
        0
    }
}

/// The validators active at `epoch`: those registered within the expiry
/// window that ends there, in shard-key order.
pub open spec fn active_validators(
    registry: Seq<ValidatorNode>,
    epoch: u64,
    constants: BaseLayerConsensusConstants,
) -> Seq<ValidatorNode> {
    within_epochs(registry, window_start_epoch(epoch, constants.validator_node_registration_expiry), epoch)
}

/// `|a - b| <= 10`.
pub open spec fn epoch_within_window(a: u64, b: u64) -> bool {
    a <= b + EPOCH_VALIDITY_WINDOW && b <= a + EPOCH_VALIDITY_WINDOW
}

/// Replicas agree on committees: two managers with the same registrations,
/// base-layer constants and committee size compute the same committee for
/// every epoch and shard, whatever else differs between them.
pub proof fn lemma_committee_deterministic(
    a: BaseLayerEpochManager,
    b: BaseLayerEpochManager,
    epoch: Epoch,
    shard: ShardId,
    c: BaseLayerConsensusConstants,
)
    requires
        a.global_db.validator_nodes@ == b.global_db.validator_nodes@,
        a.consensus_constants.committee_size == b.consensus_constants.committee_size,
    ensures
        a.committee_at(epoch.0, shard, c) == b.committee_at(epoch.0, shard, c),
{
}

/// Registration order does not matter: two replicas that hold the same
/// registrations, in whatever order they were added, compute the same
/// committee for every epoch and shard.
pub proof fn lemma_committee_independent_of_registration_order(
    a: BaseLayerEpochManager,
    b: BaseLayerEpochManager,
    epoch: Epoch,
    shard: ShardId,
    c: BaseLayerConsensusConstants,
)
    requires
        a.wf(),
        b.wf(),
        forall|x: ValidatorNode|
            a.global_db.validator_nodes@.contains(x) <==> b.global_db.validator_nodes@.contains(x),
        a.consensus_constants.committee_size == b.consensus_constants.committee_size,
    ensures
        a.committee_at(epoch.0, shard, c) == b.committee_at(epoch.0, shard, c),
{
    lemma_sorted_registry_unique(a.global_db.validator_nodes@, b.global_db.validator_nodes@);
}

pub struct BaseLayerEpochManager {
    pub global_db: GlobalDb,
    pub consensus_constants: ConsensusConstants,
    pub current_epoch: Epoch,
    pub current_block_height: u64,
    pub current_shard_key: Option<ShardId>,
    pub base_layer_consensus_constants: Option<BaseLayerConsensusConstants>,
    /// The public key of this node.
    pub node_public_key: PublicKey,
}

impl BaseLayerEpochManager {
    pub open spec fn wf(&self) -> bool {
        &&& self.global_db.wf()
        &&& self.consensus_constants.committee_size >= 1
        &&& self.base_layer_consensus_constants matches Some(c) ==> c.wf()
    }

    /// The validators active at `epoch`, given constants `c`.
    pub open spec fn active_at(&self, epoch: u64, c: BaseLayerConsensusConstants) -> Seq<ValidatorNode> {
        active_validators(self.global_db.validator_nodes@, epoch, c)
    }

    /// The committee of `shard` at `epoch`, given constants `c`.
    pub open spec fn committee_at(&self, epoch: u64, shard: ShardId, c: BaseLayerConsensusConstants) -> Seq<
        ValidatorNode,
    > {
        committee_of(self.active_at(epoch, c), shard, self.consensus_constants.committee_size as nat)
    }

    /// The manager's state before the stored state is loaded.
    pub fn new(global_db: GlobalDb, consensus_constants: ConsensusConstants, node_public_key: PublicKey) -> (r:
        BaseLayerEpochManager)
        requires
            global_db.wf(),
            consensus_constants.committee_size >= 1,
        ensures
            r.wf(),
            r.global_db == global_db,
            r.consensus_constants == consensus_constants,
            r.node_public_key == node_public_key,
            r.current_epoch == Epoch(0),
            r.current_block_height == 0,
            r.current_shard_key is None,
            r.base_layer_consensus_constants is None,
    {
        BaseLayerEpochManager {
            global_db,
            consensus_constants,
            current_epoch: Epoch(0),
            current_block_height: 0,
            current_shard_key: None,
            base_layer_consensus_constants: None,
            node_public_key,
        }
    }

    /// Loads the current epoch, shard key, constants and block height from the
    /// global store; absent entries read as epoch 0, no key, no constants and
    /// height 0.
    pub fn load_initial_state(&mut self)
        requires
            old(self).wf(),
        ensures
            final(self).wf(),
            final(self).global_db == old(self).global_db,
            final(self).consensus_constants == old(self).consensus_constants,
            final(self).node_public_key == old(self).node_public_key,
            final(self).current_epoch == match old(self).global_db.current_epoch {
                Some(e) => e,
                None => Epoch(0),
            },
            final(self).current_shard_key == old(self).global_db.current_shard_key,
            final(self).base_layer_consensus_constants == old(self).global_db.base_layer_constants,
            final(self).current_block_height == match old(self).global_db.current_block_height {
                Some(h) => h,
                None => 0,
            },
    {
        self.current_epoch = match self.global_db.current_epoch {
            Some(e) => e,
            None => Epoch(0),
        };
        self.current_shard_key = self.global_db.current_shard_key;
        self.base_layer_consensus_constants = self.global_db.base_layer_constants;
        self.current_block_height = match self.global_db.current_block_height {
            Some(h) => h,
            None => 0,
        };
    }

    /// Stores base-layer constants.
    pub fn update_base_layer_consensus_constants(&mut self, constants: BaseLayerConsensusConstants)
        requires
            old(self).wf(),
            constants.wf(),
        ensures
            final(self).wf(),
            final(self).global_db.base_layer_constants == Some(constants),
            final(self).base_layer_consensus_constants == Some(constants),
            final(self).global_db.validator_nodes@ == old(self).global_db.validator_nodes@,
            final(self).global_db.epochs@ == old(self).global_db.epochs@,
            final(self).global_db.current_epoch == old(self).global_db.current_epoch,
            final(self).global_db.current_shard_key == old(self).global_db.current_shard_key,
            final(self).global_db.current_block_height == old(self).global_db.current_block_height,
            final(self).global_db.last_epoch_registration == old(self).global_db.last_epoch_registration,
            final(self).global_db.last_synced_epoch == old(self).global_db.last_synced_epoch,
            final(self).consensus_constants == old(self).consensus_constants,
            final(self).node_public_key == old(self).node_public_key,
            final(self).current_epoch == old(self).current_epoch,
            final(self).current_block_height == old(self).current_block_height,
            final(self).current_shard_key == old(self).current_shard_key,
    {
        self.global_db.base_layer_constants = Some(constants);
        self.base_layer_consensus_constants = Some(constants);
    }

    /// Moves to base-layer block `block_height`. The block height is always
    /// recorded; where the block opens a later epoch than the current one,
    /// that epoch is recorded with `validator_node_mr`, the constants are
    /// stored and the epoch change is returned.
    pub fn update_epoch(
        &mut self,
        block_height: u64,
        constants: BaseLayerConsensusConstants,
        validator_node_mr: Vec<u8>,
    ) -> (r: Option<EpochManagerEvent>)
        requires
            old(self).wf(),
            constants.wf(),
        ensures
            final(self).wf(),
            final(self).current_block_height == block_height,
            final(self).global_db.current_block_height == Some(block_height),
            final(self).global_db.validator_nodes@ == old(self).global_db.validator_nodes@,
            final(self).consensus_constants == old(self).consensus_constants,
            final(self).node_public_key == old(self).node_public_key,
            final(self).current_shard_key == old(self).current_shard_key,
            final(self).global_db.current_shard_key == old(self).global_db.current_shard_key,
            final(self).global_db.last_epoch_registration == old(self).global_db.last_epoch_registration,
            final(self).global_db.last_synced_epoch == old(self).global_db.last_synced_epoch,
            ({
                let epoch = block_height / constants.epoch_length;
                if old(self).current_epoch.0 >= epoch {
                    &&& r is None
                    &&& final(self).current_epoch == old(self).current_epoch
                    &&& final(self).global_db.current_epoch == old(self).global_db.current_epoch
                    &&& final(self).global_db.epochs@ == old(self).global_db.epochs@
                    &&& final(self).base_layer_consensus_constants == old(self).base_layer_consensus_constants
                } else {
                    &&& r == Some(EpochManagerEvent::EpochChanged(Epoch(epoch as u64)))
                    &&& final(self).current_epoch == Epoch(epoch as u64)
                    &&& final(self).global_db.current_epoch == Some(Epoch(epoch as u64))
                    &&& final(self).global_db.epochs@.len() == old(self).global_db.epochs@.len() + 1
                    &&& final(self).global_db.epochs@.last().epoch == epoch
                    &&& final(self).global_db.epochs@.last().validator_node_mr@ == validator_node_mr@
                    &&& final(self).base_layer_consensus_constants == Some(constants)
                    &&& final(self).global_db.base_layer_constants == Some(constants)
                }
            }),
    {
        let epoch = constants.height_to_epoch(block_height);
        self.global_db.current_block_height = Some(block_height);
        self.current_block_height = block_height;
        if self.current_epoch.0 >= epoch.0 {
            return None;
        }
        self.global_db.insert_epoch(DbEpoch { epoch: epoch.0, validator_node_mr });
        self.global_db.current_epoch = Some(epoch);
        self.current_epoch = epoch;
        self.update_base_layer_consensus_constants(constants);
        Some(EpochManagerEvent::EpochChanged(epoch))
    }

    /// Whether base-layer block `block_height` lies in a later epoch than the
    /// current one.
    pub fn starts_new_epoch(&self, block_height: u64, constants: BaseLayerConsensusConstants) -> (r: bool)
        requires
            constants.wf(),
        ensures
            r == (self.current_epoch.0 < block_height / constants.epoch_length),
    {
        self.current_epoch.0 < constants.height_to_epoch(block_height).0
    }

    /// The base-layer constants, if known.
    pub fn get_base_layer_consensus_constants(&self) -> (r: Option<BaseLayerConsensusConstants>)
        ensures
            r == self.base_layer_consensus_constants,
    {
        self.base_layer_consensus_constants
    }

    /// The height at which the base layer is asked for fresh constants: the
    /// tip height less the configured confirmations, floored at zero.
    pub fn constants_query_height(&self, tip_height: u64) -> (r: u64)
        ensures
            r == if tip_height >= self.consensus_constants.base_layer_confirmations {
                (tip_height - self.consensus_constants.base_layer_confirmations) as u64
            } else {
                0u64
            },
    {
        tip_height.saturating_sub(self.consensus_constants.base_layer_confirmations)
    }

    /// The epoch that a registration in block `block_height` takes effect in,
    /// and the first base-layer height of that epoch (where its shard key is
    /// looked up).
    pub fn registration_epoch(&self, block_height: u64) -> (r: Result<(Epoch, u64), EpochManagerError>)
        requires
            self.wf(),
        ensures
            self.base_layer_consensus_constants is None ==> r == Err::<(Epoch, u64), EpochManagerError>(
                EpochManagerError::BaseLayerConsensusConstantsNotSet,
            ),
            self.base_layer_consensus_constants matches Some(c) ==> {
                let next = block_height / c.epoch_length + 1;
                if next * c.epoch_length <= u64::MAX {
                    r == Ok::<(Epoch, u64), EpochManagerError>(
                        (Epoch(next as u64), (next * c.epoch_length) as u64),
                    )
                } else {
                    r == Err::<(Epoch, u64), EpochManagerError>(
                        EpochManagerError::BlockHeightOutOfRange { block_height },
                    )
                }
            },
    {
        let constants = match self.base_layer_consensus_constants {
            Some(c) => c,
            None => return Err(EpochManagerError::BaseLayerConsensusConstantsNotSet),
        };
        let current = constants.height_to_epoch(block_height);
        assert(current.0 <= block_height) by (nonlinear_arith)
            requires
                current.0 == block_height / constants.epoch_length,
                constants.epoch_length > 0,
        ;
        if current.0 == u64::MAX {
            assert(current.0 as int + 1 > u64::MAX);
            assert((current.0 + 1) * constants.epoch_length > u64::MAX) by (nonlinear_arith)
                requires
                    current.0 + 1 > u64::MAX,
                    constants.epoch_length >= 1,
            ;
            return Err(EpochManagerError::BlockHeightOutOfRange { block_height });
        }
        let next = Epoch(current.0 + 1);
        match constants.epoch_to_height(next) {
            Some(h) => Ok((next, h)),
            None => Err(EpochManagerError::BlockHeightOutOfRange { block_height }),
        }
    }

    /// Records a registration from base-layer block `block_height`: the
    /// validator `public_key` joins at the next epoch with `shard_key`, the key
    /// that the base layer assigned it (`None` where it gave none). Where the
    /// validator is this node, its shard key and last registration epoch are
    /// recorded too.
    pub fn add_validator_node_registration(
        &mut self,
        block_height: u64,
        public_key: PublicKey,
        shard_key: Option<ShardId>,
    ) -> (r: Result<(), EpochManagerError>)
        requires
            old(self).wf(),
        ensures
            final(self).wf(),
            final(self).consensus_constants == old(self).consensus_constants,
            final(self).node_public_key == old(self).node_public_key,
            final(self).current_epoch == old(self).current_epoch,
            final(self).current_block_height == old(self).current_block_height,
            final(self).base_layer_consensus_constants == old(self).base_layer_consensus_constants,
            final(self).global_db.epochs@ == old(self).global_db.epochs@,
            final(self).global_db.current_epoch == old(self).global_db.current_epoch,
            final(self).global_db.base_layer_constants == old(self).global_db.base_layer_constants,
            final(self).global_db.current_block_height == old(self).global_db.current_block_height,
            final(self).global_db.last_synced_epoch == old(self).global_db.last_synced_epoch,
            match old(self).registration_epoch_spec(block_height) {
                Err(e) => r == Err::<(), EpochManagerError>(e) && final(self).global_db.validator_nodes@
                    == old(self).global_db.validator_nodes@ && final(self).current_shard_key == old(
                    self,
                ).current_shard_key && final(self).global_db.current_shard_key == old(
                    self,
                ).global_db.current_shard_key && final(self).global_db.last_epoch_registration == old(
                    self,
                ).global_db.last_epoch_registration,
                Ok(next) => match shard_key {
                    None => r == Err::<(), EpochManagerError>(
                        EpochManagerError::ShardKeyNotFound { public_key, block_height },
                    ) && final(self).global_db.validator_nodes@ == old(self).global_db.validator_nodes@
                        && final(self).current_shard_key == old(self).current_shard_key
                        && final(self).global_db.current_shard_key == old(self).global_db.current_shard_key
                        && final(self).global_db.last_epoch_registration == old(
                        self,
                    ).global_db.last_epoch_registration,
                    Some(key) => {
                        let vn = ValidatorNode { public_key, shard_key: key, epoch: next };
                        &&& r is Ok
                        &&& forall|x: ValidatorNode|
                            #[trigger] final(self).global_db.validator_nodes@.contains(x) <==> (old(
                                self,
                            ).global_db.validator_nodes@.contains(x) || x == vn)
                        &&& if public_key == old(self).node_public_key {
                            &&& final(self).current_shard_key == Some(key)
                            &&& final(self).global_db.current_shard_key == Some(key)
                            &&& final(self).global_db.last_epoch_registration == match old(
                                self,
                            ).global_db.last_epoch_registration {
                                Some(e) => if e.0 < next.0 {
                                    Some(next)
                                } else {
                                    Some(e)
                                },
                                None => if 0 < next.0 {
                                    Some(next)
                                } else {
                                    None
                                },
                            }
                        } else {
                            &&& final(self).current_shard_key == old(self).current_shard_key
                            &&& final(self).global_db.current_shard_key == old(self).global_db.current_shard_key
                            &&& final(self).global_db.last_epoch_registration == old(
                                self,
                            ).global_db.last_epoch_registration
                        }
                    },
                },
            },
    {
        let (next_epoch, _next_epoch_height) = match self.registration_epoch(block_height) {
            Ok(v) => v,
            Err(e) => return Err(e),
        };
        let key = match shard_key {
            Some(k) => k,
            None => return Err(EpochManagerError::ShardKeyNotFound { public_key, block_height }),
        };
        let vn = ValidatorNode { public_key, shard_key: key, epoch: next_epoch };
        self.global_db.insert_validator_node(vn);
        if public_key == self.node_public_key {
            self.global_db.current_shard_key = Some(key);
            let last: Epoch = match self.global_db.last_epoch_registration {
                Some(e) => e,
                None => Epoch(0),
            };
            if last.0 < next_epoch.0 {
                self.global_db.last_epoch_registration = Some(next_epoch);
            }
            self.current_shard_key = Some(key);
        }
        Ok(())
    }

    /// The epoch a registration in `block_height` takes effect in, as
    /// `registration_epoch` computes it.
    pub open spec fn registration_epoch_spec(&self, block_height: u64) -> Result<Epoch, EpochManagerError> {
        match self.base_layer_consensus_constants {
            None => Err(EpochManagerError::BaseLayerConsensusConstantsNotSet),
            Some(c) => {
                let next = block_height / c.epoch_length + 1;
                if next * c.epoch_length <= u64::MAX {
                    Ok(Epoch(next as u64))
                } else {
                    Err(EpochManagerError::BlockHeightOutOfRange { block_height })
                }
            },
        }
    }

    pub fn current_epoch(&self) -> (r: Epoch)
        ensures
            r == self.current_epoch,
    {
        self.current_epoch
    }

    pub fn current_block_height(&self) -> (r: u64)
        ensures
            r == self.current_block_height,
    {
        self.current_block_height
    }

    /// The epochs whose registrations count at `end_epoch`: from `end_epoch`
    /// less the registration expiry (floored at zero) up to `end_epoch`.
    pub fn get_epoch_range(&self, end_epoch: Epoch) -> (r: Result<(Epoch, Epoch), EpochManagerError>)
        ensures
            self.base_layer_consensus_constants is None ==> r == Err::<(Epoch, Epoch), EpochManagerError>(
                EpochManagerError::BaseLayerConsensusConstantsNotSet,
            ),
            self.base_layer_consensus_constants matches Some(c) ==> r == Ok::<
                (Epoch, Epoch),
                EpochManagerError,
            >(
                (
                    Epoch(window_start_epoch(end_epoch.0, c.validator_node_registration_expiry)),
                    end_epoch,
                ),
            ),
    {
        match self.base_layer_consensus_constants {
            None => Err(EpochManagerError::BaseLayerConsensusConstantsNotSet),
            Some(c) => Ok((end_epoch.saturating_sub(c.validator_node_registration_expiry()), end_epoch)),
        }
    }

    /// The shard key that `public_key` holds at `epoch`: that of its newest
    /// registration within the expiry window.
    pub fn get_validator_shard_key(&self, epoch: Epoch, public_key: &PublicKey) -> (r: Result<
        Option<ShardId>,
        EpochManagerError,
    >)
        ensures
            self.base_layer_consensus_constants is None ==> r == Err::<Option<ShardId>, EpochManagerError>(
                EpochManagerError::BaseLayerConsensusConstantsNotSet,
            ),
            self.base_layer_consensus_constants matches Some(c) ==> {
                let start = window_start_epoch(epoch.0, c.validator_node_registration_expiry);
                let reg = self.global_db.validator_nodes@;
                match r {
                    Ok(Some(k)) => exists|i: int|
                        newest_registration_at(reg, *public_key, start, epoch.0, i) && reg[i].shard_key == k,
                    Ok(None) => forall|i: int|
                        0 <= i < reg.len() ==> !registration_of(#[trigger] reg[i], *public_key, start, epoch.0),
                    Err(_) => false,
                }
            },
    {
        let (start, end) = match self.get_epoch_range(epoch) {
            Ok(range) => range,
            Err(e) => return Err(e),
        };
        match self.global_db.get(start.0, end.0, public_key) {
            Some(vn) => Ok(Some(vn.shard_key)),
            None => Ok(None),
        }
    }

    /// The last epoch this node registered for, if any.
    pub fn last_registration_epoch(&self) -> (r: Option<Epoch>)
        ensures
            r == self.global_db.last_epoch_registration,
    {
        self.global_db.last_epoch_registration
    }

    pub fn update_last_registration_epoch(&mut self, epoch: Epoch)
        requires
            old(self).wf(),
        ensures
            final(self).wf(),
            final(self).global_db.last_epoch_registration == Some(epoch),
            final(self).global_db.validator_nodes@ == old(self).global_db.validator_nodes@,
            final(self).global_db.epochs@ == old(self).global_db.epochs@,
            final(self).global_db.current_epoch == old(self).global_db.current_epoch,
            final(self).global_db.current_shard_key == old(self).global_db.current_shard_key,
            final(self).global_db.base_layer_constants == old(self).global_db.base_layer_constants,
            final(self).global_db.current_block_height == old(self).global_db.current_block_height,
            final(self).global_db.last_synced_epoch == old(self).global_db.last_synced_epoch,
            final(self).consensus_constants == old(self).consensus_constants,
            final(self).node_public_key == old(self).node_public_key,
            final(self).current_epoch == old(self).current_epoch,
            final(self).current_block_height == old(self).current_block_height,
            final(self).current_shard_key == old(self).current_shard_key,
            final(self).base_layer_consensus_constants == old(self).base_layer_consensus_constants,
    {
        self.global_db.last_epoch_registration = Some(epoch);
    }

    /// Whether `epoch` lies within ten epochs of the current one, either way.
    pub fn is_epoch_valid(&self, epoch: Epoch) -> (r: bool)
        ensures
            r == epoch_within_window(self.current_epoch.0, epoch.0),
    {
        let current = self.current_epoch();
        (current.0 as u128) <= (epoch.0 as u128) + (EPOCH_VALIDITY_WINDOW as u128) && (epoch.0 as u128) <= (
        current.0 as u128) + (EPOCH_VALIDITY_WINDOW as u128)
    }

    /// The validators registered within the expiry window ending at `epoch`,
    /// in shard-key order.
    pub fn get_validator_nodes_per_epoch(&self, epoch: Epoch) -> (r: Result<
        Vec<ValidatorNode>,
        EpochManagerError,
    >)
        ensures
            self.base_layer_consensus_constants is None ==> r is Err && r->Err_0
                == EpochManagerError::BaseLayerConsensusConstantsNotSet,
            self.base_layer_consensus_constants matches Some(c) ==> r is Ok && r->Ok_0@ == self.active_at(
                epoch.0,
                c,
            ),
    {
        let (start, end) = match self.get_epoch_range(epoch) {
            Ok(range) => range,
            Err(e) => return Err(e),
        };
        Ok(self.global_db.get_all_within_epochs(start.0, end.0))
    }

    /// The validators of the committee of `shard` at `epoch`.
    pub fn get_committee_vns_from_shard_key(&self, epoch: Epoch, shard: ShardId) -> (r: Result<
        Vec<ValidatorNode>,
        EpochManagerError,
    >)
        requires
            self.wf(),
        ensures
            self.base_layer_consensus_constants is None ==> r is Err && r->Err_0
                == EpochManagerError::BaseLayerConsensusConstantsNotSet,
            self.base_layer_consensus_constants matches Some(c) ==> r is Ok && r->Ok_0@ == self.committee_at(
                epoch.0,
                shard,
                c,
            ),
    {
        let vns = match self.get_validator_nodes_per_epoch(epoch) {
            Ok(v) => v,
            Err(e) => return Err(e),
        };
        Ok(select_committee(vns, &shard, self.consensus_constants.committee_size))
    }

    /// The committee of `shard` at `epoch`.
    pub fn get_committee(&self, epoch: Epoch, shard: ShardId) -> (r: Result<Committee, EpochManagerError>)
        requires
            self.wf(),
        ensures
            self.base_layer_consensus_constants is None ==> r is Err && r->Err_0
                == EpochManagerError::BaseLayerConsensusConstantsNotSet,
            self.base_layer_consensus_constants matches Some(c) ==> r is Ok && r->Ok_0.members@ == keys_of(
                self.committee_at(epoch.0, shard, c),
            ),
    {
        let vns = match self.get_committee_vns_from_shard_key(epoch, shard) {
            Ok(v) => v,
            Err(e) => return Err(e),
        };
        Ok(Committee::from_validators(&vns))
    }

    /// The committee of each of `shards` at `epoch`, in order.
    pub fn get_committees(&self, epoch: Epoch, shards: &Vec<ShardId>) -> (r: Result<
        Vec<ShardCommitteeAllocation>,
        EpochManagerError,
    >)
        requires
            self.wf(),
        ensures
            shards@.len() == 0 ==> r is Ok && r->Ok_0@.len() == 0,
            shards@.len() > 0 && self.base_layer_consensus_constants is None ==> r is Err && r->Err_0
                == EpochManagerError::BaseLayerConsensusConstantsNotSet,
            self.base_layer_consensus_constants matches Some(c) ==> r is Ok && r->Ok_0@.len() == shards@.len()
                && forall|i: int|
                0 <= i < shards@.len() ==> (#[trigger] r->Ok_0@[i]).shard_id == shards@[i]
                    && r->Ok_0@[i].committee.members@ == keys_of(self.committee_at(epoch.0, shards@[i], c)),
    {
        let mut result: Vec<ShardCommitteeAllocation> = Vec::new();
        let mut i: usize = 0;
        while i < shards.len()
            invariant
                self.wf(),
                i <= shards@.len(),
                result@.len() == i,
                i > 0 ==> self.base_layer_consensus_constants is Some,
                self.base_layer_consensus_constants matches Some(c) ==> forall|j: int|
                    0 <= j < i ==> (#[trigger] result@[j]).shard_id == shards@[j]
                        && result@[j].committee.members@ == keys_of(self.committee_at(epoch.0, shards@[j], c)),
            decreases shards.len() - i,
        {
            let shard = shards[i];
            let committee = match self.get_committee(epoch, shard) {
                Ok(c) => c,
                Err(e) => return Err(e),
            };
            result.push(ShardCommitteeAllocation { shard_id: shard, committee });
            i = i + 1;
        }
        Ok(result)
    }

    /// Whether `identity` is in the committee of `shard` at `epoch`.
    pub fn is_validator_in_committee(&self, epoch: Epoch, shard: ShardId, identity: PublicKey) -> (r: Result<
        bool,
        EpochManagerError,
    >)
        requires
            self.wf(),
        ensures
            self.base_layer_consensus_constants is None ==> r is Err && r->Err_0
                == EpochManagerError::BaseLayerConsensusConstantsNotSet,
            self.base_layer_consensus_constants matches Some(c) ==> r is Ok && (r->Ok_0 <==> keys_of(
                self.committee_at(epoch.0, shard, c),
            ).contains(identity)),
    {
        let committee = match self.get_committee(epoch, shard) {
            Ok(c) => c,
            Err(e) => return Err(e),
        };
        Ok(committee.contains(&identity))
    }

    /// The shards of `available_shards` whose committee at `epoch` holds
    /// `for_addr`, in order.
    pub fn filter_to_local_shards(
        &self,
        epoch: Epoch,
        for_addr: &PublicKey,
        available_shards: &Vec<ShardId>,
    ) -> (r: Result<Vec<ShardId>, EpochManagerError>)
        requires
            self.wf(),
        ensures
            available_shards@.len() == 0 ==> r is Ok && r->Ok_0@.len() == 0,
            available_shards@.len() > 0 && self.base_layer_consensus_constants is None ==> r is Err
                && r->Err_0 == EpochManagerError::BaseLayerConsensusConstantsNotSet,
            self.base_layer_consensus_constants matches Some(c) ==> r is Ok && r->Ok_0@ == available_shards@.filter(
                |s: ShardId| keys_of(self.committee_at(epoch.0, s, c)).contains(*for_addr),
            ),
    {
        let mut result: Vec<ShardId> = Vec::new();
        if available_shards.len() == 0 {
            return Ok(result);
        }
        if self.base_layer_consensus_constants.is_none() {
            return Err(EpochManagerError::BaseLayerConsensusConstantsNotSet);
        }
        let ghost c = self.base_layer_consensus_constants->Some_0;
        let ghost f = |s: ShardId| keys_of(self.committee_at(epoch.0, s, c)).contains(*for_addr);
        let mut i: usize = 0;
        while i < available_shards.len()
            invariant
                self.wf(),
                self.base_layer_consensus_constants == Some(c),
                f == (|s: ShardId| keys_of(self.committee_at(epoch.0, s, c)).contains(*for_addr)),
                i <= available_shards@.len(),
                result@ == available_shards@.subrange(0, i as int).filter(f),
            decreases available_shards.len() - i,
        {
            let shard = available_shards[i];
            let committee = match self.get_committee(epoch, shard) {
                Ok(c) => c,
                Err(e) => return Err(e),
            };
            let ghost prefix = available_shards@.subrange(0, i as int);
            assert(available_shards@.subrange(0, i + 1) =~= prefix.push(shard));
            proof {
                prefix.lemma_filter_push(shard, f);
            }
            if committee.contains(for_addr) {
                result.push(shard);
            }
            i = i + 1;
        }
        assert(available_shards@.subrange(0, available_shards@.len() as int) =~= available_shards@);
        Ok(result)
    }

    /// The validator-node Merkle root recorded for `epoch`.
    pub fn get_validator_node_merkle_root(&self, epoch: Epoch) -> (r: Result<Vec<u8>, EpochManagerError>)
        ensures
            match r {
                Ok(mr) => exists|i: int|
                    crate::global_db::first_epoch_at(self.global_db.epochs@, epoch.0, i) && mr@
                        == self.global_db.epochs@[i].validator_node_mr@,
                Err(e) => e == EpochManagerError::NoEpochFound(epoch) && forall|i: int|
                    0 <= i < self.global_db.epochs@.len() ==> #[trigger] self.global_db.epochs@[i].epoch
                        != epoch.0,
            },
    {
        match self.global_db.get_epoch_data(epoch.0) {
            Some(mr) => Ok(mr),
            None => Err(EpochManagerError::NoEpochFound(epoch)),
        }
    }

    /// Epochs left before this node's last registration expires: `None` where
    /// it never registered or the registration has expired.
    pub fn remaining_registration_epochs(&self) -> (r: Result<Option<Epoch>, EpochManagerError>)
        requires
            self.global_db.last_epoch_registration matches Some(e) ==> e.0 <= self.current_epoch.0,
        ensures
            match self.global_db.last_epoch_registration {
                None => r == Ok::<Option<Epoch>, EpochManagerError>(None),
                Some(last) => match self.base_layer_consensus_constants {
                    None => r == Err::<Option<Epoch>, EpochManagerError>(
                        EpochManagerError::BaseLayerConsensusConstantsNotSet,
                    ),
                    Some(c) => {
                        let since = self.current_epoch.0 - last.0;
                        r == Ok::<Option<Epoch>, EpochManagerError>(
                            if c.validator_node_registration_expiry >= since {
                                Some(Epoch((c.validator_node_registration_expiry - since) as u64))
                            } else {
                                None
                            },
                        )
                    },
                },
            },
    {
        let last = match self.last_registration_epoch() {
            Some(e) => e,
            None => return Ok(None),
        };
        let constants = match self.base_layer_consensus_constants {
            Some(c) => c,
            None => return Err(EpochManagerError::BaseLayerConsensusConstantsNotSet),
        };
        let expiry = constants.validator_node_registration_expiry();
        let since = Epoch(self.current_epoch.0 - last.0);
        Ok(expiry.checked_sub(since))
    }

    /// What to do once the base layer has been scanned: nothing when the
    /// current epoch was already synchronised or this node is not registered
    /// for it; else the committee of the node's shard key and the shard range
    /// to synchronise from it.
    pub fn state_sync_plan(&self) -> (r: Result<StateSync, EpochManagerError>)
        requires
            self.wf(),
        ensures
            self.global_db.last_synced_epoch == Some(self.current_epoch) ==> r matches Ok(
                StateSync::AlreadySynced,
            ),
            self.global_db.last_synced_epoch != Some(self.current_epoch) ==> match self.base_layer_consensus_constants {
                None => r == Err::<StateSync, EpochManagerError>(
                    EpochManagerError::BaseLayerConsensusConstantsNotSet,
                ),
                Some(c) => {
                    let reg = self.global_db.validator_nodes@;
                    let start = window_start_epoch(self.current_epoch.0, c.validator_node_registration_expiry);
                    match r {
                        Ok(StateSync::NotRegistered) => forall|i: int|
                            0 <= i < reg.len() ==> !registration_of(
                                #[trigger] reg[i],
                                self.node_public_key,
                                start,
                                self.current_epoch.0,
                            ),
                        Ok(StateSync::Sync { shard_key, committee, start_shard, end_shard }) => {
                            &&& exists|i: int|
                                newest_registration_at(reg, self.node_public_key, start, self.current_epoch.0, i)
                                    && reg[i].shard_key == shard_key
                            &&& committee@ == self.committee_at(self.current_epoch.0, shard_key, c)
                            &&& committee@.len() > 0
                            &&& (committee@.len() >= self.consensus_constants.committee_size ==> start_shard
                                == committee@[0].shard_key && end_shard == committee@.last().shard_key)
                            &&& (committee@.len() < self.consensus_constants.committee_size
                                ==> start_shard.bytes() == Seq::new(32, |i: int| 0u8) && end_shard.bytes()
                                == Seq::new(32, |i: int| 255u8))
                        },
                        Err(e) => exists|i: int|
                            newest_registration_at(reg, self.node_public_key, start, self.current_epoch.0, i)
                                && e == EpochManagerError::NoCommitteeVns {
                                epoch: self.current_epoch,
                                shard_id: reg[i].shard_key,
                            } && self.committee_at(self.current_epoch.0, reg[i].shard_key, c).len() == 0,
                        _ => false,
                    }
                },
            },
    {
        if let Some(e) = self.global_db.last_synced_epoch {
            if e.0 == self.current_epoch.0 {
                return Ok(StateSync::AlreadySynced);
            }
        }
        let vn_shard_key = match self.get_validator_shard_key(self.current_epoch, &self.node_public_key) {
            Ok(Some(k)) => k,
            Ok(None) => return Ok(StateSync::NotRegistered),
            Err(e) => return Err(e),
        };
        let committee_size: usize = self.consensus_constants.committee_size as usize;
        let committee_vns = match self.get_committee_vns_from_shard_key(self.current_epoch, vn_shard_key) {
            Ok(v) => v,
            Err(e) => return Err(e),
        };
        if committee_vns.len() == 0 {
            return Err(EpochManagerError::NoCommitteeVns { epoch: self.current_epoch, shard_id: vn_shard_key });
        }
        let (start_shard, end_shard) = committee_shard_range(committee_size, &committee_vns);
        Ok(StateSync::Sync { shard_key: vn_shard_key, committee: committee_vns, start_shard, end_shard })
    }

    /// Records that state was synchronised for the current epoch.
    pub fn mark_state_synced(&mut self)
        requires
            old(self).wf(),
        ensures
            final(self).wf(),
            final(self).global_db.last_synced_epoch == Some(old(self).current_epoch),
            final(self).global_db.validator_nodes@ == old(self).global_db.validator_nodes@,
            final(self).current_epoch == old(self).current_epoch,
            final(self).base_layer_consensus_constants == old(self).base_layer_consensus_constants,
            final(self).consensus_constants == old(self).consensus_constants,
            final(self).node_public_key == old(self).node_public_key,
    {
        self.global_db.last_synced_epoch = Some(self.current_epoch);
    }
}

} // verus!
