//! Layered state of a local Starknet development node: an insertion-ordered
//! overlay of locally written state, resolved before an optional forked origin.
pub mod diff;
pub mod dump;
pub mod felt;
pub mod lemmas;
pub mod overlay;
pub mod rpc;
pub mod state;

pub use diff::StateDiff;
pub use dump::{dump_target, DumpError, DumpTarget};
pub use felt::{ClassHash, CompiledClassHash, ContractAddress, Felt, Nonce, StorageKey, PRIME_HIGH};
pub use overlay::{OverlayKey, OverlayMap, StorageEntry};
pub use rpc::SyncingOutput;
pub use state::{
    class_from_origin, class_hash_from_origin, next_nonce, nonce_from_origin, storage_from_origin,
    DictState, ForkConfig, ForkOrigin, Lookup, OriginError, StateError,
};
