//! Configuration snapshots the runtime seeds a context with.

use vstd::prelude::*;

verus! {

/// The node-level configuration captured at context construction,
/// parameterized by the chain specification the node was launched with.
/// Read-only from the extension's perspective: cloned in once, never mutated
/// through the context.
#[derive(Clone, Copy, Debug, PartialEq, Eq)]
pub struct NodeConfig<ChainSpec> {
    /// The chain specification the node runs against.
    pub chain: ChainSpec,
}

/// The runtime's own loaded configuration, snapshotted at context
/// construction. Opaque to the extension: the context carries it for the
/// extension to read, and never interprets it itself.
#[derive(Clone, Copy, Debug, PartialEq, Eq)]
pub struct RethConfig {}

} // verus!
