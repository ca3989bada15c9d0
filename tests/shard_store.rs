use dan_consensus::codec::{decode_pledge, encode_pledge};
use dan_consensus::dry_run::{get_local_pledges, DryRunTransactionProcessorError, SubstateShardData};
use dan_consensus::ids::{Epoch, NodeHeight, PayloadId, PublicKey, ShardId, TreeNodeHash};
use dan_consensus::payload::{Payload, SimplePayload};
use dan_consensus::quorum::{QuorumCertificate, QuorumDecision, VoteMessage};
use dan_consensus::shard_db::{MemoryShardDb, StoreError};
use dan_consensus::sqlite_db_factory::SqliteDbFactory;
use dan_consensus::substate::{ObjectPledge, SubstateChange, SubstateState};
use dan_consensus::tree_node::HotStuffTreeNode;

fn shard(n: u8) -> ShardId {
    ShardId([n; 32])
}

fn payload_id(n: u8) -> PayloadId {
    PayloadId::from_array([n; 32])
}

fn qc(shard_id: ShardId, node: u8, height: u64) -> QuorumCertificate {
    QuorumCertificate {
        payload_id: payload_id(9),
        payload_height: NodeHeight(1),
        local_node_hash: TreeNodeHash([node; 32]),
        local_node_height: NodeHeight(height),
        shard: shard_id,
        epoch: Epoch(1),
        decision: QuorumDecision::Accept,
    }
}

type Db = MemoryShardDb<SimplePayload>;

#[test]
fn pledge_scenario_genesis_then_conflicting_payloads() {
    let mut db = Db::new();
    let s = shard(1);
    let genesis: HotStuffTreeNode<SimplePayload> = HotStuffTreeNode::genesis();
    db.save_node(genesis).unwrap();
    let first = db.pledge_object(s, payload_id(1), SubstateChange::Create, NodeHeight(0)).unwrap();
    assert_eq!(first.pledged_to_payload, payload_id(1));
    assert_eq!(first.pledged_until, NodeHeight(4));
    assert_eq!(first.shard_id, s);
    assert_eq!(first.current_state, SubstateState::DoesNotExist);
    let second = db.pledge_object(s, payload_id(2), SubstateChange::Create, NodeHeight(2)).unwrap();
    assert_eq!(second, first);
    let third = db.pledge_object(s, payload_id(2), SubstateChange::Create, NodeHeight(5)).unwrap();
    assert_eq!(third.pledged_to_payload, payload_id(2));
    assert_eq!(third.pledged_until, NodeHeight(9));
}

#[test]
fn pledge_expires_exactly_at_four_heights() {
    let mut db = Db::new();
    let s = shard(3);
    db.pledge_object(s, payload_id(1), SubstateChange::Create, NodeHeight(10)).unwrap();
    let held = db.pledge_object(s, payload_id(2), SubstateChange::Create, NodeHeight(13)).unwrap();
    assert_eq!(held.pledged_to_payload, payload_id(1));
    let fresh = db.pledge_object(s, payload_id(2), SubstateChange::Create, NodeHeight(14)).unwrap();
    assert_eq!(fresh.pledged_to_payload, payload_id(2));
    assert_eq!(fresh.pledged_until, NodeHeight(18));
    // other shards are unaffected
    let other = db.pledge_object(shard(4), payload_id(3), SubstateChange::Create, NodeHeight(13)).unwrap();
    assert_eq!(other.pledged_to_payload, payload_id(3));
}

#[test]
fn high_qc_never_decreases() {
    let mut db = Db::new();
    let s = shard(1);
    let genesis = db.get_high_qc_for(s).unwrap();
    assert_eq!(genesis.local_node_height, NodeHeight(0));
    assert_eq!(genesis.epoch, Epoch(0));
    // a QC of height 0 does not beat the genesis QC
    db.update_high_qc(s, qc(s, 9, 0)).unwrap();
    assert_eq!(db.get_high_qc_for(s).unwrap().payload_id, PayloadId::zero());
    assert_eq!(db.get_leaf_node(s).unwrap(), (TreeNodeHash([0; 32]), NodeHeight(0)));
    db.update_high_qc(s, qc(s, 1, 5)).unwrap();
    assert_eq!(db.get_high_qc_for(s).unwrap().local_node_height, NodeHeight(5));
    // the first replacement of the genesis QC moves the leaf too
    assert_eq!(db.get_leaf_node(s).unwrap(), (TreeNodeHash([1; 32]), NodeHeight(5)));
    db.update_high_qc(s, qc(s, 2, 3)).unwrap();
    assert_eq!(db.get_high_qc_for(s).unwrap().local_node_height, NodeHeight(5));
    db.update_high_qc(s, qc(s, 3, 5)).unwrap();
    assert_eq!(db.get_high_qc_for(s).unwrap().local_node_hash, TreeNodeHash([1; 32]));
    db.update_high_qc(s, qc(s, 4, 8)).unwrap();
    assert_eq!(db.get_high_qc_for(s).unwrap().local_node_height, NodeHeight(8));
    assert_eq!(db.get_leaf_node(s).unwrap(), (TreeNodeHash([4; 32]), NodeHeight(8)));
}

#[test]
fn absent_entries_read_as_genesis_defaults() {
    let db = Db::new();
    let s = shard(7);
    assert_eq!(db.get_leaf_node(s).unwrap(), (TreeNodeHash([0; 32]), NodeHeight(0)));
    assert_eq!(db.get_last_voted_height(s).unwrap(), (NodeHeight(0), 0));
    assert_eq!(db.get_locked_node_hash_and_height(s).unwrap(), (TreeNodeHash([0; 32]), NodeHeight(0)));
    assert_eq!(db.get_last_executed_height(s).unwrap(), NodeHeight(0));
    let node = db.get_node(&TreeNodeHash([0; 32])).unwrap();
    assert_eq!(node.height(), NodeHeight(0));
    assert_eq!(node.epoch(), Epoch(0));
}

#[test]
fn missing_node_and_payload_are_errors() {
    let db = Db::new();
    assert_eq!(db.get_node(&TreeNodeHash([5; 32])).unwrap_err(), StoreError::NodeNotFound);
    assert_eq!(db.get_payload(&payload_id(5)).unwrap_err(), StoreError::CannotFindPayload);
}

#[test]
fn nodes_and_payloads_round_trip_through_the_store() {
    let mut db = Db::new();
    let p = SimplePayload { text: b"transfer".to_vec(), shards: vec![shard(1), shard(2)] };
    let id = p.to_id();
    db.set_payload(p).unwrap();
    let stored = db.get_payload(&id).unwrap();
    assert_eq!(stored.text, b"transfer".to_vec());
    assert_eq!(stored.shards, vec![shard(1), shard(2)]);
    let node: HotStuffTreeNode<SimplePayload> = HotStuffTreeNode::new(
        TreeNodeHash([0; 32]),
        shard(1),
        NodeHeight(1),
        id,
        None,
        NodeHeight(1),
        None,
        Epoch(1),
        PublicKey([3; 32]),
        QuorumCertificate::genesis(Epoch(1)),
    );
    let hash = *node.hash();
    db.save_node(node).unwrap();
    let back = db.get_node(&hash).unwrap();
    assert_eq!(*back.hash(), hash);
    assert_eq!(back.payload_id(), id);
    assert_eq!(*back.proposed_by(), PublicKey([3; 32]));
}

#[test]
fn votes_are_counted_per_node_and_shard() {
    let mut db = Db::new();
    let node = TreeNodeHash([8; 32]);
    let s = shard(1);
    let vote = VoteMessage { local_node_hash: node, shard: s, decision: QuorumDecision::Accept };
    assert!(!db.has_vote_for(&PublicKey([1; 32]), node, s).unwrap());
    assert_eq!(db.save_received_vote_for(PublicKey([1; 32]), node, s, vote).unwrap(), 1);
    assert_eq!(db.save_received_vote_for(PublicKey([2; 32]), node, s, vote).unwrap(), 2);
    assert!(db.has_vote_for(&PublicKey([1; 32]), node, s).unwrap());
    assert!(!db.has_vote_for(&PublicKey([3; 32]), node, s).unwrap());
    assert!(!db.has_vote_for(&PublicKey([1; 32]), node, shard(2)).unwrap());
    assert_eq!(db.get_received_votes_for(node, s).unwrap(), vec![vote, vote]);
    assert!(db.get_received_votes_for(node, shard(2)).unwrap().is_empty());
}

#[test]
fn locked_and_executed_heights_read_back_what_was_set() {
    let mut db = Db::new();
    let s = shard(1);
    db.set_locked(s, TreeNodeHash([2; 32]), NodeHeight(3)).unwrap();
    assert_eq!(db.get_locked_node_hash_and_height(s).unwrap(), (TreeNodeHash([2; 32]), NodeHeight(3)));
    assert_eq!(db.get_locked_node_hash_and_height(shard(2)).unwrap(), (TreeNodeHash([0; 32]), NodeHeight(0)));
    db.set_last_executed_height(s, NodeHeight(3)).unwrap();
    assert_eq!(db.get_last_executed_height(s).unwrap(), NodeHeight(3));
    db.set_last_executed_height(s, NodeHeight(4)).unwrap();
    assert_eq!(db.get_last_executed_height(s).unwrap(), NodeHeight(4));
    db.set_last_voted_height(s, NodeHeight(6), 2).unwrap();
    assert_eq!(db.get_last_voted_height(s).unwrap(), (NodeHeight(6), 2));
    db.update_leaf_node(s, TreeNodeHash([6; 32]), NodeHeight(6)).unwrap();
    assert_eq!(db.get_leaf_node(s).unwrap(), (TreeNodeHash([6; 32]), NodeHeight(6)));
    db.commit().unwrap();
}

#[test]
fn leader_proposals_are_keyed_by_payload_height_and_shard() {
    let mut db = Db::new();
    let node: HotStuffTreeNode<SimplePayload> = HotStuffTreeNode::genesis();
    let hash = *node.hash();
    db.save_leader_proposals(shard(1), payload_id(1), NodeHeight(2), 0, node).unwrap();
    let found = db.get_leader_proposals(payload_id(1), NodeHeight(2), shard(1)).unwrap().unwrap();
    assert_eq!(*found.hash(), hash);
    assert!(db.get_leader_proposals(payload_id(1), NodeHeight(3), shard(1)).unwrap().is_none());
    assert!(db.get_leader_proposals(payload_id(1), NodeHeight(2), shard(2)).unwrap().is_none());
}

#[test]
fn pledge_round_trips_through_storage_encoding() {
    let pledge = ObjectPledge {
        shard_id: shard(1),
        current_state: SubstateState::Up {
            created_by: payload_id(2),
            address: vec![1, 2, 3],
            data: vec![9, 8, 7, 6],
        },
        pledged_to_payload: payload_id(3),
        pledged_until: NodeHeight(0x0102_0304_0506_0708),
    };
    let bytes = encode_pledge(&pledge);
    assert_eq!(bytes.len(), 113 + 3 + 4);
    assert_eq!(bytes[64], 0x08);
    assert_eq!(bytes[71], 0x01);
    assert_eq!(bytes[72], 1);
    assert_eq!(decode_pledge(&bytes), Some(pledge));
    for state in [SubstateState::DoesNotExist, SubstateState::Down { deleted_by: payload_id(4) }] {
        let p = ObjectPledge {
            shard_id: shard(2),
            current_state: state,
            pledged_to_payload: payload_id(5),
            pledged_until: NodeHeight(4),
        };
        assert_eq!(decode_pledge(&encode_pledge(&p)), Some(p));
    }
}

#[test]
fn malformed_pledge_encodings_are_rejected() {
    assert_eq!(decode_pledge(&[0u8; 72]), None);
    let mut bytes = vec![0u8; 73];
    bytes[72] = 3;
    assert_eq!(decode_pledge(&bytes), None);
    bytes[72] = 0;
    bytes.push(0);
    assert_eq!(decode_pledge(&bytes), None);
    let mut up = vec![0u8; 113];
    up[72] = 1;
    up[105] = 1;
    assert_eq!(decode_pledge(&up), None);
}

#[test]
fn local_pledges_cover_only_local_shards() {
    let rows = vec![
        SubstateShardData {
            shard_id: shard(1),
            substate: SubstateState::Down { deleted_by: payload_id(7) },
            height: NodeHeight(3),
            payload_id: payload_id(6),
        },
        SubstateShardData {
            shard_id: shard(2),
            substate: SubstateState::DoesNotExist,
            height: NodeHeight(5),
            payload_id: payload_id(8),
        },
    ];
    let pledges = get_local_pledges(&vec![shard(1), shard(3), shard(2)], &vec![shard(2), shard(1)], &rows).unwrap();
    assert_eq!(pledges.len(), 2);
    assert_eq!(pledges[0].0, shard(1));
    assert_eq!(pledges[0].1.pledged_to_payload, payload_id(6));
    assert_eq!(pledges[0].1.pledged_until, NodeHeight(3));
    assert_eq!(pledges[0].1.current_state, SubstateState::Down { deleted_by: payload_id(7) });
    assert_eq!(pledges[1].0, shard(2));
    let err = get_local_pledges(&vec![shard(4)], &vec![shard(4)], &rows).unwrap_err();
    assert_eq!(err, DryRunTransactionProcessorError::SubstateNotFound { shard_id: shard(4) });
}

#[test]
fn database_urls_sit_under_the_data_dir() {
    let f = SqliteDbFactory::new("/data".to_string());
    let id = [0xabu8; 32];
    let hex = "ab".repeat(32);
    assert_eq!(f.database_url_for(&id), format!("/data/asset_data/{}/dan_storage.sqlite", hex));
    let g = SqliteDbFactory::new("/data/".to_string());
    assert_eq!(g.database_url_for(&[0x01u8; 32]), format!("/data/asset_data/{}/dan_storage.sqlite", "01".repeat(32)));
    let e = SqliteDbFactory::new(String::new());
    assert_eq!(e.database_url_for(&[0u8; 32]), format!("asset_data/{}/dan_storage.sqlite", "00".repeat(32)));
}
