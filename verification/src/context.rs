//! The extension context: the façade an extension uses to reach every node
//! capability, signal progress to the runtime, and steer its notification
//! stream.

use crate::components::NodeComponents;
use crate::config::{NodeConfig, RethConfig};
use crate::event::{send_event, ExExEvent, SendError};
use crate::head::{BlockNumHash, ExExHead};
use crate::notifications::{ExExNotifications, NotificationMode};
use tokio::sync::mpsc::UnboundedSender;
use vstd::prelude::*;

verus! {

/// Captures the context that an extension (ExEx) has access to. Constructed
/// once per extension at launch, owned by the extension task for its
/// lifetime, and the sole channel of interaction with the node.
pub struct ExExContext<ChainSpec, Pool, Evm, Executor, Provider, Network, PayloadBuilder, Tasks> {
    /// The head of the chain when the context was constructed. A snapshot,
    /// never updated afterwards: a caller needing the current head must
    /// derive it from the provider or from notifications, never from this
    /// field after construction.
    pub head: BlockNumHash,
    /// The node-level configuration snapshot.
    pub config: NodeConfig<ChainSpec>,
    /// The runtime's loaded configuration snapshot.
    pub reth_config: RethConfig,
    /// The outbound channel of lifecycle events to the runtime. The extension
    /// should emit a finished-height event whenever a processed block is safe
    /// to prune.
    pub events: UnboundedSender<ExExEvent>,
    /// The control over the inbound notification stream. Once a notification
    /// is sent over that stream, the node considers it delivered.
    pub notifications: ExExNotifications,
    /// The node's capability bundle.
    pub components: NodeComponents<Pool, Evm, Executor, Provider, Network, PayloadBuilder, Tasks>,
}

/// The type-erased view of a context, for code that cannot be generic over
/// the node's concrete component types. Erasure drops the capability bundle;
/// the head snapshot, the configurations, the event channel and the
/// notification control carry over unchanged.
pub struct ExExContextDyn<ChainSpec> {
    /// The head of the chain when the original context was constructed.
    pub head: BlockNumHash,
    /// The node-level configuration snapshot.
    pub config: NodeConfig<ChainSpec>,
    /// The runtime's loaded configuration snapshot.
    pub reth_config: RethConfig,
    /// The outbound channel of lifecycle events to the runtime.
    pub events: UnboundedSender<ExExEvent>,
    /// The control over the inbound notification stream.
    pub notifications: ExExNotifications,
}

impl<ChainSpec, Pool, Evm, Executor, Provider, Network, PayloadBuilder, Tasks> ExExContext<
    ChainSpec,
    Pool,
    Evm,
    Executor,
    Provider,
    Network,
    PayloadBuilder,
    Tasks,
> {
    /// Returns the transaction pool of the node. Pure accessor: no side
    /// effects, the same handle on every call.
    pub fn pool(&self) -> (r: &Pool)
        ensures
            *r == self.components.pool,
    {
        &self.components.pool
    }

    /// Returns the node's execution (EVM) configuration. Pure accessor.
    pub fn evm_config(&self) -> (r: &Evm)
        ensures
            *r == self.components.evm_config,
    {
        &self.components.evm_config
    }

    /// Returns the node's block executor. Pure accessor.
    pub fn block_executor(&self) -> (r: &Executor)
        ensures
            *r == self.components.block_executor,
    {
        &self.components.block_executor
    }

    /// Returns the provider of the node. Pure accessor.
    pub fn provider(&self) -> (r: &Provider)
        ensures
            *r == self.components.provider,
    {
        &self.components.provider
    }

    /// Returns the handle to the network. Pure accessor.
    pub fn network(&self) -> (r: &Network)
        ensures
            *r == self.components.network,
    {
        &self.components.network
    }

    /// Returns the handle to the payload builder service. Pure accessor.
    pub fn payload_builder_handle(&self) -> (r: &PayloadBuilder)
        ensures
            *r == self.components.payload_builder_handle,
    {
        &self.components.payload_builder_handle
    }

    /// Returns the task executor, used to spawn (critical) background tasks.
    /// Pure accessor.
    pub fn task_executor(&self) -> (r: &Tasks)
        ensures
            *r == self.components.task_executor,
    {
        &self.components.task_executor
    }

    /// Switches the notification stream to head-less mode: deliver from
    /// whatever the runtime considers "now". Unconditional; every other part
    /// of the context is left as it was.
    pub fn set_notifications_without_head(&mut self)
        ensures
            final(self).notifications == old(self).notifications.set_without_head_spec(),
            final(self).notifications.mode_spec() == NotificationMode::WithoutHead,
            final(self).head == old(self).head,
            final(self).config == old(self).config,
            final(self).reth_config == old(self).reth_config,
            final(self).events == old(self).events,
            final(self).components == old(self).components,
    {
        self.notifications.set_without_head();
    }

    /// Switches the notification stream to replay from the provided head.
    /// Unconditional; every other part of the context is left as it was.
    pub fn set_notifications_with_head(&mut self, head: ExExHead)
        ensures
            final(self).notifications == old(self).notifications.set_with_head_spec(head),
            final(self).notifications.mode_spec() == NotificationMode::WithHead(head),
            final(self).head == old(self).head,
            final(self).config == old(self).config,
            final(self).reth_config == old(self).reth_config,
            final(self).events == old(self).events,
            final(self).components == old(self).components,
    {
        self.notifications.set_with_head(head);
    }

    /// Sends a finished-height event to the runtime, letting it know that
    /// this extension has durably processed all blocks up to and including
    /// `height`. Never blocks; fails exactly when the runtime-side receiver
    /// is gone, and the error then carries exactly the height that failed to
    /// send.
    pub fn send_finished_height(&self, height: BlockNumHash) -> (r: Result<(), SendError>)
        ensures
            r matches Err(e) ==> e == (SendError { height }),
    {
        match send_event(&self.events, ExExEvent::FinishedHeight(height)) {
            Ok(()) => Ok(()),
            Err(returned) => match returned {
                ExExEvent::FinishedHeight(h) => Err(SendError { height: h }),
            },
        }
    }

    /// Consumes the context and produces the type-erased view, keeping every
    /// field but the capability bundle, which erasure drops.
    pub fn into_dyn(self) -> (r: ExExContextDyn<ChainSpec>)
        ensures
            r.head == self.head,
            r.config == self.config,
            r.reth_config == self.reth_config,
            r.events == self.events,
            r.notifications == self.notifications,
    {
        ExExContextDyn {
            head: self.head,
            config: self.config,
            reth_config: self.reth_config,
            events: self.events,
            notifications: self.notifications,
        }
    }
}

impl<ChainSpec> ExExContextDyn<ChainSpec> {
    /// Switches the notification stream to head-less mode, as the generic
    /// context does.
    pub fn set_notifications_without_head(&mut self)
        ensures
            final(self).notifications == old(self).notifications.set_without_head_spec(),
            final(self).notifications.mode_spec() == NotificationMode::WithoutHead,
            final(self).head == old(self).head,
            final(self).config == old(self).config,
            final(self).reth_config == old(self).reth_config,
            final(self).events == old(self).events,
    {
        self.notifications.set_without_head();
    }

    /// Switches the notification stream to replay from the provided head, as
    /// the generic context does.
    pub fn set_notifications_with_head(&mut self, head: ExExHead)
        ensures
            final(self).notifications == old(self).notifications.set_with_head_spec(head),
            final(self).notifications.mode_spec() == NotificationMode::WithHead(head),
            final(self).head == old(self).head,
            final(self).config == old(self).config,
            final(self).reth_config == old(self).reth_config,
            final(self).events == old(self).events,
    {
        self.notifications.set_with_head(head);
    }

    /// Sends a finished-height event to the runtime, as the generic context
    /// does: never blocks, and a failure carries exactly the height.
    pub fn send_finished_height(&self, height: BlockNumHash) -> (r: Result<(), SendError>)
        ensures
            r matches Err(e) ==> e == (SendError { height }),
    {
        match send_event(&self.events, ExExEvent::FinishedHeight(height)) {
            Ok(()) => Ok(()),
            Err(returned) => match returned {
                ExExEvent::FinishedHeight(h) => Err(SendError { height: h }),
            },
        }
    }
}

} // verus!
