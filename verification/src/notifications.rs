//! Notification mode control: the switchable choice of where in the chain's
//! notification sequence the extension starts or resumes receiving.

use crate::head::ExExHead;
use vstd::prelude::*;

verus! {

/// The two modes the inbound notification stream can be in. Exactly one is
/// active at a time; there is no terminal mode.
#[derive(Clone, Copy, Debug, PartialEq, Eq)]
pub enum NotificationMode {
    /// Deliver notifications starting from whatever the runtime considers
    /// "now".
    WithoutHead,
    /// Deliver notifications starting at the carried head: request replay
    /// from a specific point, the mechanism by which an extension resumes
    /// after a restart.
    WithHead(ExExHead),
}

/// The control handle over the inbound notification stream. It is owned
/// exclusively by the extension's context and mutated only through the two
/// mode-setting operations; a switch governs future production only and never
/// discards notifications already delivered.
#[derive(Clone, Copy, Debug, PartialEq, Eq)]
pub struct ExExNotifications {
    mode: NotificationMode,
}

impl ExExNotifications {
    /// The current mode, as contracts see it.
    pub closed spec fn mode_spec(self) -> NotificationMode {
        self.mode
    }

    /// The state a head-less switch leaves the control in, whatever it held
    /// before.
    pub closed spec fn set_without_head_spec(self) -> ExExNotifications {
        ExExNotifications { mode: NotificationMode::WithoutHead }
    }

    /// The state a switch to an explicit head leaves the control in, whatever
    /// it held before.
    pub closed spec fn set_with_head_spec(self, head: ExExHead) -> ExExNotifications {
        ExExNotifications { mode: NotificationMode::WithHead(head) }
    }

    /// A control that starts in head-less mode: deliver from "now".
    pub fn new_without_head() -> (r: ExExNotifications)
        ensures
            r.mode_spec() == NotificationMode::WithoutHead,
    {
        ExExNotifications { mode: NotificationMode::WithoutHead }
    }

    /// A control seeded with a checkpointed head, for an extension resuming
    /// where it left off.
    pub fn new_with_head(head: ExExHead) -> (r: ExExNotifications)
        ensures
            r.mode_spec() == NotificationMode::WithHead(head),
    {
        ExExNotifications { mode: NotificationMode::WithHead(head) }
    }

    /// Reads the current mode; no side effects. The producer side consults
    /// this to know what to deliver next.
    pub fn mode(&self) -> (r: NotificationMode)
        ensures
            r == self.mode_spec(),
    {
        self.mode
    }

    /// Forces the control into head-less mode, unconditionally: valid from
    /// either mode, at any time, arbitrarily often.
    pub fn set_without_head(&mut self)
        ensures
            *final(self) == old(self).set_without_head_spec(),
            final(self).mode_spec() == NotificationMode::WithoutHead,
    {
        self.mode = NotificationMode::WithoutHead;
    }

    /// Forces the control to the given head, unconditionally: valid from
    /// either mode, at any time, arbitrarily often.
    pub fn set_with_head(&mut self, head: ExExHead)
        ensures
            *final(self) == old(self).set_with_head_spec(head),
            final(self).mode_spec() == NotificationMode::WithHead(head),
    {
        self.mode = NotificationMode::WithHead(head);
    }
}

/// Law: switching to an explicit head and then switching head-less leaves the
/// control head-less. The last writer wins; the earlier head is not merged in
/// or remembered.
pub proof fn lemma_without_head_overrides_with_head(n: ExExNotifications, h: ExExHead)
    ensures
        n.set_with_head_spec(h).set_without_head_spec().mode_spec()
            == NotificationMode::WithoutHead,
        n.set_with_head_spec(h).set_without_head_spec() == n.set_without_head_spec(),
{
}

/// Law: switching to an explicit head twice leaves the control at the second
/// head only, whatever the first was; if the heads differ, the first no
/// longer shows in the mode.
pub proof fn lemma_with_head_last_writer_wins(
    n: ExExNotifications,
    h1: ExExHead,
    h2: ExExHead,
)
    ensures
        n.set_with_head_spec(h1).set_with_head_spec(h2) == n.set_with_head_spec(h2),
        n.set_with_head_spec(h1).set_with_head_spec(h2).mode_spec()
            == NotificationMode::WithHead(h2),
        h1 != h2 ==> n.set_with_head_spec(h1).set_with_head_spec(h2).mode_spec()
            != NotificationMode::WithHead(h1),
{
}

} // verus!
