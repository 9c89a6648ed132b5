//! Plain identifier and timestamp types shared across the subsystems.

use vstd::prelude::*;

verus! {

/// Identifies one peer of the node.
pub type PeerId = u64;

/// Correlates a streaming-RPC request with its response parts.
pub type RpcId = u64;

/// A point in time, in nanoseconds since an arbitrary origin.
pub type Timestamp = u64;

/// Stands for the root hash of a ledger snapshot.
pub type LedgerHash = u64;

} // verus!
