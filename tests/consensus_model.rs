use dan_consensus::committee::{select_committee, Committee, ValidatorNode};
use dan_consensus::epoch_manager::{
    BaseLayerEpochManager, ConsensusConstants, EpochManagerError, EpochManagerEvent, StateSync,
};
use dan_consensus::global_db::{BaseLayerConsensusConstants, GlobalDb};
use dan_consensus::id_provider::{ComponentAddress, IdProvider, IdProviderError, TemplateAddress};
use dan_consensus::ids::{Epoch, NodeHeight, PayloadId, PublicKey, ShardId, TreeNodeHash};
use dan_consensus::outbound::{broadcast_routes, route_for, Route};
use dan_consensus::payload::{Payload, SimplePayload};
use dan_consensus::quorum::QuorumCertificate;
use dan_consensus::substate::{ObjectClaim, SubstateChange, SubstateState};
use dan_consensus::tree_node::HotStuffTreeNode;
use dan_consensus::wait_result::{wait_start, wait_step, WaitEvent, WaitStep};

fn key(n: u8) -> PublicKey {
    PublicKey([n; 32])
}

fn shard(n: u8) -> ShardId {
    ShardId([n; 32])
}

fn node(proposed_by: PublicKey) -> HotStuffTreeNode<SimplePayload> {
    HotStuffTreeNode::new(
        TreeNodeHash([1; 32]),
        shard(2),
        NodeHeight(3),
        PayloadId::from_array([4; 32]),
        None,
        NodeHeight(1),
        None,
        Epoch(5),
        proposed_by,
        QuorumCertificate::genesis(Epoch(5)),
    )
}

fn manager(committee_size: u32) -> BaseLayerEpochManager {
    BaseLayerEpochManager::new(
        GlobalDb::new(),
        ConsensusConstants { base_layer_confirmations: 3, committee_size },
        key(1),
    )
}

fn constants() -> BaseLayerConsensusConstants {
    BaseLayerConsensusConstants { epoch_length: 10, validator_node_registration_expiry: 10 }
}

#[test]
fn it_fails_if_generating_more_ids_than_the_max() {
    let tx_hash = [7u8; 32];
    let mut id_provider = IdProvider::new(tx_hash, &vec![], 0);
    id_provider.new_id().unwrap_err();
    let mut id_provider = IdProvider::new(tx_hash, &vec![], 1);
    id_provider.new_id().unwrap();
    id_provider.new_id().unwrap_err();
}

#[test]
fn id_provider_hands_out_distinct_deterministic_ids() {
    let mut a = IdProvider::new([1u8; 32], &vec![], 3);
    let mut b = IdProvider::new([1u8; 32], &vec![], 3);
    let a0 = a.new_id().unwrap();
    let a1 = a.new_vault_id().unwrap();
    assert_ne!(a0, a1);
    assert_ne!(a0, [1u8; 32]);
    assert_eq!(b.new_address_hash().unwrap(), a0);
    let a2 = a.new_id().unwrap();
    assert_ne!(a1, a2);
    assert_eq!(a.new_id().unwrap_err(), IdProviderError::MaxIdsExceeded { max: 3 });
    assert_eq!(a.new_id().unwrap_err(), IdProviderError::MaxIdsExceeded { max: 3 });
    assert_eq!(a.new_bucket_id(), 1000);
    assert_eq!(a.new_bucket_id(), 1001);
    let u0 = a.new_uuid().unwrap();
    let u1 = a.new_uuid().unwrap();
    assert_ne!(u0, u1);
}

#[test]
fn component_addresses_count_per_template() {
    let t1 = TemplateAddress([1; 32]);
    let t2 = TemplateAddress([2; 32]);
    let mut p = IdProvider::new([0u8; 32], &vec![(t1, 5)], 10);
    assert_eq!(p.new_component_address(&t1).unwrap(), ComponentAddress { template_address: t1, index: 5 });
    assert_eq!(p.new_component_address(&t1).unwrap(), ComponentAddress { template_address: t1, index: 6 });
    assert_eq!(p.new_component_address(&t2).unwrap(), ComponentAddress { template_address: t2, index: 0 });
    let r1 = p.new_resource_address(&t1, "TOK").unwrap();
    let r2 = p.new_resource_address(&t1, "TOK2").unwrap();
    assert_ne!(r1, r2);
}

#[test]
fn random_bytes_continue_the_stream() {
    let mut p = IdProvider::new([3u8; 32], &vec![], 0);
    let mut q = IdProvider::new([3u8; 32], &vec![], 0);
    let first = p.get_random_bytes(40).unwrap();
    assert_eq!(first.len(), 40);
    let whole = q.get_random_bytes(64).unwrap();
    assert_eq!(&first[..], &whole[..40]);
    assert!(p.get_random_bytes(0).unwrap().is_empty());
}

#[test]
fn tree_node_hash_is_deterministic_and_covers_proposer() {
    let a = node(key(9));
    let b = node(key(9));
    assert_eq!(a.hash(), b.hash());
    assert_eq!(a.calculate_hash(), *a.hash());
    let c = node(key(8));
    assert_ne!(a.hash(), c.hash());
    assert!(a == b);
    assert!(a != c);
    assert_eq!(a.height(), NodeHeight(3));
    assert_eq!(a.payload_height(), NodeHeight(1));
    assert_eq!(*a.parent(), TreeNodeHash([1; 32]));
    assert_eq!(a.shard(), shard(2));
    assert!(a.payload().is_none());
    assert!(a.local_pledge().is_none());
    assert_eq!(a.justify().epoch, Epoch(5));
}

#[test]
fn genesis_node_is_zero() {
    let g: HotStuffTreeNode<SimplePayload> = HotStuffTreeNode::genesis();
    assert_eq!(g.height(), NodeHeight(0));
    assert_eq!(g.epoch(), Epoch(0));
    assert_eq!(*g.parent(), TreeNodeHash([0; 32]));
    assert_eq!(g.justify().epoch, Epoch(0));
    assert_eq!(g.justify().local_node_height, NodeHeight(0));
    assert_eq!(g.payload_id(), PayloadId::zero());
    assert_ne!(*g.hash(), TreeNodeHash([0; 32]));
}

#[test]
fn payload_id_is_blake256_of_text() {
    let p = SimplePayload { text: b"onetwo".to_vec(), shards: vec![shard(1)] };
    let expected: [u8; 32] = [
        0x03, 0x52, 0x1c, 0x17, 0x77, 0x63, 0x9f, 0xc6, 0xe5, 0xc3, 0xd8, 0xc3, 0xb4, 0x60, 0x08, 0x70, 0xf1,
        0x8b, 0xec, 0xc1, 0x55, 0xad, 0x7f, 0x80, 0x53, 0xd2, 0xc6, 0x5b, 0xc7, 0x8e, 0x4a, 0xa0,
    ];
    assert_eq!(p.to_id().into_array(), expected);
    assert_eq!(p.involved_shards(), vec![shard(1)]);
    assert_eq!(p.objects_for_shard(shard(1)), Some((SubstateChange::Create, ObjectClaim {})));
    assert_eq!(p.objects_for_shard(shard(2)), None);
    assert_eq!(p.max_outputs(), 100);
}

fn vn(k: u8, s: u8) -> ValidatorNode {
    ValidatorNode { public_key: key(k), shard_key: shard(s), epoch: Epoch(1) }
}

#[test]
fn committee_is_a_window_around_the_shard() {
    let vns: Vec<ValidatorNode> = (0..7u8).map(|i| vn(i, i * 10)).collect();
    // size 4: half 2, two before the shard's position and two from it on
    let c = select_committee(vns.clone(), &shard(25), 4);
    assert_eq!(c, vec![vn(1, 10), vn(2, 20), vn(3, 30), vn(4, 40)]);
    // size 5: half 3, window of 6
    let c = select_committee(vns.clone(), &shard(25), 5);
    assert_eq!(c, vec![vn(0, 0), vn(1, 10), vn(2, 20), vn(3, 30), vn(4, 40), vn(5, 50)]);
    // wraps around the ring at both ends
    let c = select_committee(vns.clone(), &shard(0), 4);
    assert_eq!(c, vec![vn(5, 50), vn(6, 60), vn(0, 0), vn(1, 10)]);
    let c = select_committee(vns.clone(), &shard(200), 4);
    assert_eq!(c, vec![vn(5, 50), vn(6, 60), vn(0, 0), vn(1, 10)]);
    // size 2 with both validators above the shard: one before it on the ring, one after
    let c = select_committee(vec![vn(1, 10), vn(2, 20)], &shard(5), 2);
    assert_eq!(c, vec![vn(2, 20), vn(1, 10)]);
    // fewer validators than twice half the size: everyone
    let c = select_committee(vns.clone(), &shard(25), 9);
    assert_eq!(c.len(), 7);
    let c = select_committee(vns[..5].to_vec(), &shard(25), 5);
    assert_eq!(c.len(), 5);
    let empty = select_committee(vec![], &shard(1), 3);
    assert!(empty.is_empty());
}

#[test]
fn committee_contains_and_len() {
    let c = Committee::new(vec![key(1), key(2)]);
    assert_eq!(c.len(), 2);
    assert!(c.contains(&key(2)));
    assert!(!c.contains(&key(3)));
}

#[test]
fn registration_scenario_and_expiry() {
    let mut m = manager(3);
    m.load_initial_state();
    assert_eq!(m.registration_epoch(45), Err(EpochManagerError::BaseLayerConsensusConstantsNotSet));
    assert_eq!(
        m.add_validator_node_registration(45, key(2), Some(shard(9))),
        Err(EpochManagerError::BaseLayerConsensusConstantsNotSet)
    );
    assert_eq!(m.get_validator_shard_key(Epoch(5), &key(2)), Err(EpochManagerError::BaseLayerConsensusConstantsNotSet));
    m.update_base_layer_consensus_constants(constants());
    assert_eq!(m.registration_epoch(45), Ok((Epoch(5), 50)));
    m.add_validator_node_registration(45, key(2), Some(shard(9))).unwrap();
    assert_eq!(m.get_validator_shard_key(Epoch(5), &key(2)), Ok(Some(shard(9))));
    assert_eq!(m.get_validator_shard_key(Epoch(15), &key(2)), Ok(Some(shard(9))));
    assert_eq!(m.get_validator_shard_key(Epoch(20), &key(2)), Ok(None));
    assert_eq!(m.get_validator_shard_key(Epoch(4), &key(2)), Ok(None));
    // another node's registration leaves this node's key alone
    assert_eq!(m.current_shard_key, None);
    assert_eq!(
        m.add_validator_node_registration(45, key(3), None),
        Err(EpochManagerError::ShardKeyNotFound { public_key: key(3), block_height: 45 })
    );
    m.add_validator_node_registration(45, key(1), Some(shard(4))).unwrap();
    assert_eq!(m.current_shard_key, Some(shard(4)));
    assert_eq!(m.last_registration_epoch(), Some(Epoch(5)));
}

#[test]
fn epoch_validity_window_is_ten() {
    let mut m = manager(3);
    assert_eq!(m.update_epoch(150, constants(), vec![1, 2]), Some(EpochManagerEvent::EpochChanged(Epoch(15))));
    assert_eq!(m.current_epoch(), Epoch(15));
    assert!(m.is_epoch_valid(Epoch(5)));
    assert!(!m.is_epoch_valid(Epoch(4)));
    assert!(m.is_epoch_valid(Epoch(25)));
    assert!(!m.is_epoch_valid(Epoch(26)));
    assert!(m.is_epoch_valid(Epoch(15)));
    let mut z = manager(3);
    assert!(z.is_epoch_valid(Epoch(0)));
    assert!(z.is_epoch_valid(Epoch(10)));
    assert!(!z.is_epoch_valid(Epoch(11)));
    z.update_epoch(5, constants(), vec![]);
    assert_eq!(z.current_block_height(), 5);
}

#[test]
fn epoch_updates_record_the_merkle_root() {
    let mut m = manager(3);
    assert_eq!(m.update_epoch(25, constants(), vec![7]), Some(EpochManagerEvent::EpochChanged(Epoch(2))));
    assert_eq!(m.update_epoch(29, constants(), vec![8]), None);
    assert_eq!(m.current_block_height(), 29);
    assert_eq!(m.get_validator_node_merkle_root(Epoch(2)), Ok(vec![7]));
    assert_eq!(m.get_validator_node_merkle_root(Epoch(3)), Err(EpochManagerError::NoEpochFound(Epoch(3))));
    let mut reloaded = BaseLayerEpochManager::new(
        m.global_db.clone(),
        ConsensusConstants { base_layer_confirmations: 3, committee_size: 3 },
        key(1),
    );
    reloaded.load_initial_state();
    assert_eq!(reloaded.current_epoch(), Epoch(2));
    assert_eq!(reloaded.current_block_height(), 29);
    assert_eq!(reloaded.get_base_layer_consensus_constants(), Some(constants()));
}

#[test]
fn registration_height_overflow_is_reported() {
    let mut m = manager(3);
    m.update_base_layer_consensus_constants(BaseLayerConsensusConstants {
        epoch_length: 1,
        validator_node_registration_expiry: 10,
    });
    assert_eq!(
        m.registration_epoch(u64::MAX),
        Err(EpochManagerError::BlockHeightOutOfRange { block_height: u64::MAX })
    );
    assert_eq!(m.constants_query_height(2), 0);
    assert_eq!(m.constants_query_height(10), 7);
}

#[test]
fn committees_of_registered_validators() {
    let mut m = manager(4);
    m.update_base_layer_consensus_constants(constants());
    for i in 0..7u8 {
        m.add_validator_node_registration(5, key(10 + i), Some(shard(60 - i * 10))).unwrap();
    }
    let vns = m.get_validator_nodes_per_epoch(Epoch(1)).unwrap();
    let keys: Vec<ShardId> = vns.iter().map(|v| v.shard_key).collect();
    assert_eq!(keys, (0..7u8).map(|i| shard(i * 10)).collect::<Vec<_>>());
    let committee = m.get_committee(Epoch(1), shard(25)).unwrap();
    assert_eq!(committee.members, vec![key(15), key(14), key(13), key(12)]);
    assert!(m.is_validator_in_committee(Epoch(1), shard(25), key(13)).unwrap());
    assert!(!m.is_validator_in_committee(Epoch(1), shard(25), key(10)).unwrap());
    let all = m.get_committees(Epoch(1), &vec![shard(25), shard(0)]).unwrap();
    assert_eq!(all.len(), 2);
    assert_eq!(all[1].shard_id, shard(0));
    assert_eq!(all[1].committee.members, vec![key(11), key(10), key(16), key(15)]);
    let local = m.filter_to_local_shards(Epoch(1), &key(13), &vec![shard(0), shard(25), shard(35)]).unwrap();
    assert_eq!(local, vec![shard(25), shard(35)]);
    // nothing registered before epoch 1
    assert!(m.get_committee(Epoch(0), shard(25)).unwrap().members.is_empty());
}

#[test]
fn state_sync_plan_follows_registration() {
    let mut m = manager(3);
    m.update_epoch(10, constants(), vec![]);
    assert_eq!(m.current_epoch(), Epoch(1));
    match m.state_sync_plan() {
        Ok(StateSync::NotRegistered) => {},
        other => panic!("unexpected {:?}", other),
    }
    m.add_validator_node_registration(5, key(1), Some(shard(50))).unwrap();
    m.add_validator_node_registration(5, key(2), Some(shard(10))).unwrap();
    match m.state_sync_plan() {
        Ok(StateSync::Sync { shard_key, committee, start_shard, end_shard }) => {
            assert_eq!(shard_key, shard(50));
            assert_eq!(committee.len(), 2);
            assert_eq!(start_shard, ShardId::zero());
            assert_eq!(end_shard, ShardId::max());
        },
        other => panic!("unexpected {:?}", other),
    }
    m.mark_state_synced();
    match m.state_sync_plan() {
        Ok(StateSync::AlreadySynced) => {},
        other => panic!("unexpected {:?}", other),
    }
    assert_eq!(m.remaining_registration_epochs(), Ok(Some(Epoch(10))));
}

#[test]
fn substate_state_names() {
    assert_eq!(SubstateState::DoesNotExist.as_str(), "DoesNotExist");
    assert_eq!(SubstateState::Down { deleted_by: PayloadId::zero() }.as_str(), "Down");
    let up = SubstateState::Up { created_by: PayloadId::zero(), address: vec![], data: vec![] };
    assert_eq!(up.as_str(), "Up");
}

#[test]
fn ids_parse_and_order() {
    assert!(ShardId::from_bytes(&[1u8; 31]).is_none());
    assert_eq!(ShardId::from_bytes(&[1u8; 32]), Some(shard(1)));
    assert!(shard(1).lt(&shard(2)));
    assert!(!shard(2).lt(&shard(2)));
    let mut a = [0u8; 32];
    a[0] = 1;
    let mut b = [0u8; 32];
    b[1] = 200;
    assert!(ShardId(b).lt(&ShardId(a)));
    assert!(PayloadId::try_from_slice(&[2u8; 3]).is_none());
    assert_eq!(PayloadId::new(&[2u8; 32]).as_bytes(), &[2u8; 32][..]);
    assert_eq!(Epoch(3).saturating_sub(Epoch(5)), Epoch(0));
    assert_eq!(Epoch(7).checked_sub(Epoch(5)), Some(Epoch(2)));
    assert_eq!(NodeHeight(0x0102).to_le_bytes(), vec![2, 1, 0, 0, 0, 0, 0, 0]);
}

#[test]
fn self_addressed_messages_for_own_contract_use_loopback() {
    let own = [1u8; 32];
    assert_eq!(route_for(&key(1), &key(1), &own, &own), Route::Loopback);
    assert_eq!(route_for(&key(1), &key(2), &own, &own), Route::Network);
    assert_eq!(route_for(&key(1), &key(1), &[2u8; 32], &own), Route::Network);
    let routes = broadcast_routes(&key(1), &vec![key(2), key(1)], &own, &own);
    assert_eq!(routes, vec![(key(2), Route::Network), (key(1), Route::Loopback)]);
}

#[test]
fn committee_does_not_depend_on_registration_order() {
    let mut a = manager(4);
    let mut b = manager(4);
    a.update_base_layer_consensus_constants(constants());
    b.update_base_layer_consensus_constants(constants());
    let regs: Vec<(u8, u8)> = vec![(1, 40), (2, 10), (3, 70), (4, 30), (5, 20), (6, 60)];
    for (k, s) in regs.iter() {
        a.add_validator_node_registration(5, key(*k), Some(shard(*s))).unwrap();
    }
    for (k, s) in regs.iter().rev() {
        b.add_validator_node_registration(5, key(*k), Some(shard(*s))).unwrap();
    }
    for s in [0u8, 15, 35, 65, 90] {
        let ca = a.get_committee(Epoch(1), shard(s)).unwrap();
        let cb = b.get_committee(Epoch(1), shard(s)).unwrap();
        assert_eq!(ca.members, cb.members);
        assert_eq!(ca.len(), 4);
    }
}

#[test]
fn empty_shard_lists_need_no_constants() {
    let m = manager(3);
    assert!(m.get_committees(Epoch(1), &vec![]).unwrap().is_empty());
    assert!(m.filter_to_local_shards(Epoch(1), &key(1), &vec![]).unwrap().is_empty());
    assert!(matches!(
        m.get_committees(Epoch(1), &vec![shard(1)]),
        Err(EpochManagerError::BaseLayerConsensusConstantsNotSet)
    ));
    assert_eq!(
        m.filter_to_local_shards(Epoch(1), &key(1), &vec![shard(1)]),
        Err(EpochManagerError::BaseLayerConsensusConstantsNotSet)
    );
    assert_eq!(m.get_committee(Epoch(1), shard(1)).unwrap_err(), EpochManagerError::BaseLayerConsensusConstantsNotSet);
    assert_eq!(m.get_epoch_range(Epoch(1)), Err(EpochManagerError::BaseLayerConsensusConstantsNotSet));
    assert_eq!(m.remaining_registration_epochs(), Ok(None));
}

#[test]
fn waiting_ends_on_own_finalization_or_timeout() {
    let h = [5u8; 32];
    assert_eq!(wait_start(true), WaitStep::Finalized);
    assert_eq!(wait_start(false), WaitStep::Continue);
    assert_eq!(wait_step(&h, &WaitEvent::TransactionFinalized { hash: h }), WaitStep::Finalized);
    assert_eq!(wait_step(&h, &WaitEvent::TransactionFinalized { hash: [6u8; 32] }), WaitStep::Continue);
    assert_eq!(wait_step(&h, &WaitEvent::Other), WaitStep::Continue);
    assert_eq!(wait_step(&h, &WaitEvent::TimedOut), WaitStep::TimedOut);
}

#[test]
fn shard_key_comes_from_the_newest_registration() {
    let mut m = manager(3);
    m.update_base_layer_consensus_constants(constants());
    m.add_validator_node_registration(45, key(2), Some(shard(9))).unwrap();
    m.add_validator_node_registration(75, key(2), Some(shard(7))).unwrap();
    assert_eq!(m.get_validator_shard_key(Epoch(10), &key(2)), Ok(Some(shard(7))));
    assert_eq!(m.get_validator_shard_key(Epoch(6), &key(2)), Ok(Some(shard(9))));
    // a repeated registration is stored once
    m.add_validator_node_registration(45, key(2), Some(shard(9))).unwrap();
    assert_eq!(m.global_db.validator_nodes.len(), 2);
    // equal shard keys are ordered by public key, whatever the arrival order
    let mut a = manager(2);
    let mut b = manager(2);
    a.update_base_layer_consensus_constants(constants());
    b.update_base_layer_consensus_constants(constants());
    a.add_validator_node_registration(5, key(1), Some(shard(20))).unwrap();
    a.add_validator_node_registration(5, key(2), Some(shard(20))).unwrap();
    b.add_validator_node_registration(5, key(2), Some(shard(20))).unwrap();
    b.add_validator_node_registration(5, key(1), Some(shard(20))).unwrap();
    assert_eq!(a.global_db.validator_nodes, b.global_db.validator_nodes);
    assert_eq!(a.get_committee(Epoch(1), shard(20)).unwrap().members, b.get_committee(Epoch(1), shard(20)).unwrap().members);
}
