//! The node capability set: the bundle of node-internal handles an extension
//! may read.

use vstd::prelude::*;

verus! {

/// An externally supplied bundle of node capabilities. The context holds the
/// one owning reference to the bundle and hands out non-owning borrows, one
/// named accessor per capability; it never mutates the components, and the
/// bundle is shared read-only across all extensions.
pub struct NodeComponents<Pool, Evm, Executor, Provider, Network, PayloadBuilder, Tasks> {
    /// The node's transaction pool handle.
    pub pool: Pool,
    /// The node's execution (EVM) configuration.
    pub evm_config: Evm,
    /// The node's block executor handle.
    pub block_executor: Executor,
    /// The node's block and state provider.
    pub provider: Provider,
    /// The node's network handle.
    pub network: Network,
    /// The handle to the node's payload builder service.
    pub payload_builder_handle: PayloadBuilder,
    /// The node's task scheduler, used to spawn critical background work.
    pub task_executor: Tasks,
}

} // verus!
