//! Execution-extension (ExEx) context library.
//!
//! An execution extension is an independently scheduled task that a node
//! runtime grants read access to its internals, a one-way event channel back
//! to the runtime, and a switchable stream of chain-state notifications. This
//! crate defines the context object handed to such an extension and the
//! contracts it upholds: accessors that delegate to the node's capability
//! bundle without side effects, a non-blocking finished-height signal whose
//! failure carries exactly the height that could not be sent, and a
//! notification mode control with unconditional, last-writer-wins switching.

pub mod components;
pub mod config;
pub mod context;
pub mod event;
pub mod head;
pub mod notifications;

pub use components::NodeComponents;
pub use config::{NodeConfig, RethConfig};
pub use context::{ExExContext, ExExContextDyn};
pub use event::{ExExEvent, SendError};
pub use head::{BlockNumHash, ExExHead};
pub use notifications::{ExExNotifications, NotificationMode};
