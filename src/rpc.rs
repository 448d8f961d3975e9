//! Values that the node's RPC interface answers with.
use vstd::prelude::*;

verus! {

/// Answer to a syncing query: a development node is never syncing.
#[derive(Clone, Copy, Debug, PartialEq, Eq, Structural)]
pub enum SyncingOutput {
    False(bool),
}

} // verus!
