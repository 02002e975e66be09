//! Block synchronisation for a proof-of-work node: choosing the heaviest tip
//! advertised by peers, walking back from it to the local chain, and applying
//! the missing blocks in order.

pub mod chain;
pub mod driver;
pub mod laws;

pub use chain::{network_tip_metadata, same_hash, BlockHash, ChainMetadata};
pub use driver::{
    Awaiting, BlockAddOutcome, BlockSync, BlockSyncConfig, BlockSyncInfo, HeaderLink, StateEvent,
    SyncAction,
};
