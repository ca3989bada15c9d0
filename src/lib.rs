//! Shard-state core of a sharded HotStuff consensus engine: identifiers, object
//! pledges, tree nodes, the in-memory shard store and committee derivation.

pub mod codec;
pub mod committee;
pub mod dry_run;
pub mod epoch_manager;
pub mod global_db;
pub mod hashing;
pub mod id_provider;
pub mod ids;
pub mod outbound;
pub mod payload;
pub mod quorum;
pub mod shard_db;
pub mod sqlite_db_factory;
pub mod substate;
pub mod table;
pub mod tree_node;
pub mod wait_result;
