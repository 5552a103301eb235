//! Reconciliation between an authoritative primary store and a local cache
//! store for three record collections: machines, users and work types.
//!
//! The crate holds the rules: the diff engine, the resync engine, the
//! write-through cache, the watcher and the commands built on them. They
//! work on stores held in memory and on snapshots of stores. Reading and
//! writing the databases behind them is left to the host, which loads what a
//! command needs, lets the command decide, and writes what the command wrote.
//!
//! The primary is authoritative. A write goes to the primary first and is
//! mirrored into the cache only after that. A delete leaves a tombstone: a
//! machine or a user is flagged in both stores, a work type is erased from
//! the primary and flagged in the cache. A resync copies what the primary
//! lists and never removes what only the cache holds; such rows stay
//! reported until an operator deals with them.

pub mod cache;
pub mod config;
pub mod diff;
pub mod error;
pub mod lookup;
pub mod machines;
pub mod password;
pub mod records;
pub mod replica;
pub mod resync;
pub mod rows;
pub mod settings;
pub mod store;
pub mod text;
pub mod time;
pub mod users;
pub mod watcher;
pub mod work_types;
pub mod write_through;
