//! A persistent key-value store that keeps each mapping as a pair of files,
//! addressed by a digest of the encoded key and grouped in shard directories.
//!
//! The library does no I/O itself. `KVStore::begin_insert`, `begin_lookup` and
//! `begin_remove` start an `Operation`; its caller performs the `Action` that the
//! operation asks for, hands the resulting `Event` to `KVStore::advance`, and goes on
//! until the action is `Finish`, when `Operation::outcome` gives the result.
pub mod digest;
pub mod disk;
pub mod fuzz;
pub mod laws;
pub mod machine;
pub mod paths;
pub mod scan;
pub mod store;

pub use fuzz::Random;
pub use machine::{Action, Event, Phase, StoreError};
pub use store::{KVStore, Operation};
