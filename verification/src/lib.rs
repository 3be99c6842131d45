//! Partial-key synchronisation for a cluster of sequencer nodes that jointly
//! generate a shared encryption key: node configuration, the per-round store of
//! contributed partial keys, the handler that admits a peer's contribution, and
//! the cycle that drives generation and aggregation.

pub mod config_option;
pub mod key_generator;
pub mod types;
pub mod assoc;
pub mod partial_key_list;
pub mod round_store;
pub mod sync_partial_key;
pub mod cycle;
