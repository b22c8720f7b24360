//! Lifecycle events an extension emits to the runtime, and the outbound
//! channel they travel on.

use crate::head::BlockNumHash;
use vstd::prelude::*;

verus! {

/// An event an extension sends to the runtime over the outbound channel.
#[derive(Clone, Copy, Debug, PartialEq, Eq)]
pub enum ExExEvent {
    /// The extension has durably processed all blocks up to and including the
    /// carried height. Emitting it grants the runtime permission to prune
    /// state up to that point, and sets the replay cursor for future
    /// restarts.
    FinishedHeight(BlockNumHash),
}

/// The error of a failed finished-height signal: the outbound channel is
/// closed because the runtime-side receiver was dropped (runtime shutdown or
/// a fatal runtime failure). It carries exactly the height that failed to
/// send, so the caller can retry, log or escalate — the failure is never
/// silently discarded.
#[derive(Clone, Copy, Debug, PartialEq, Eq)]
pub struct SendError {
    /// The height that could not be delivered.
    pub height: BlockNumHash,
}

/// tokio's unbounded mpsc sender: the extension-side handle of the outbound
/// event channel. Unbounded by design, so a send never blocks the extension.
#[verifier::external_type_specification]
#[verifier::external_body]
#[verifier::reject_recursive_types(T)]
pub struct ExUnboundedSender<T>(tokio::sync::mpsc::UnboundedSender<T>);

/// Relies on tokio's `UnboundedSender::send`: the channel is unbounded, so
/// the call completes immediately and never blocks or panics; it fails
/// exactly when the receiver half is gone, and the error then includes the
/// value passed to `send`, which the body hands back. Whether the receiver is
/// still alive is state outside this process's arguments, so nothing is
/// promised about which variant comes back.
#[verifier::external_body]
pub(crate) fn send_event(
    events: &tokio::sync::mpsc::UnboundedSender<ExExEvent>,
    event: ExExEvent,
) -> (r: Result<(), ExExEvent>)
    ensures
        r matches Err(e) ==> e == event,
{
    events.send(event).map_err(|err| err.0)
}

} // verus!
