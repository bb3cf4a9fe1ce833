use vstd::prelude::*;

verus! {

/// A reference to a channel context of the host, for identification only: it owns nothing
/// and may outlive the channel.
#[derive(Copy, Clone, Debug, PartialEq, Eq, Hash, Structural)]
pub struct ChannelRef {
    /// The host's opaque handle of the context.
    pub handle: u64,
}

/// What to do after restoring the context that was current before a scoped operation.
#[derive(Copy, Clone, Debug, PartialEq, Eq, Structural)]
pub enum RestoreStep {
    /// The saved context is current again.
    Done,
    /// The saved context has vanished: switch to the first available one.
    FallBackToFirst,
}

/// A scoped switch to another channel: it remembers the context that was current when it
/// began, which is restored after the operation whatever the operation did.
pub struct ChannelSwitch {
    saved: ChannelRef,
    target: ChannelRef,
}

impl ChannelSwitch {
    /// The context that was current when the switch began.
    pub closed spec fn saved(&self) -> ChannelRef {
        self.saved
    }

    /// The channel switched to.
    pub closed spec fn target(&self) -> ChannelRef {
        self.target
    }

    /// Begins a switch from the current context `current` to `target`.
    pub fn begin(current: ChannelRef, target: ChannelRef) -> (r: ChannelSwitch)
        ensures
            r.saved() == current,
            r.target() == target,
    {
        ChannelSwitch { saved: current, target }
    }

    /// The channel to make current before the operation.
    pub fn switch_to(&self) -> (r: ChannelRef)
        ensures
            r == self.target(),
    {
        self.target
    }

    /// The context to make current again after the operation. It depends on nothing the
    /// operation did.
    pub fn restore_to(&self) -> (r: ChannelRef)
        ensures
            r == self.saved(),
    {
        self.saved
    }

    /// The step after the restore, given whether the host accepted it.
    pub fn after_restore(&self, restored: bool) -> (r: RestoreStep)
        ensures
            restored ==> r == RestoreStep::Done,
            !restored ==> r == RestoreStep::FallBackToFirst,
    {
        if restored {
            RestoreStep::Done
        } else {
            RestoreStep::FallBackToFirst
        }
    }
}

/// The context that is current after a scoped operation, as the steps of a `ChannelSwitch`
/// decide it: when the host refused the switch (`switched` false) nothing changed; otherwise the
/// operation ran and then `restore_to` was made current again, or, when the host refused that
/// (`restored` false), the first available context `first` was taken. What the operation itself
/// left current plays no part.
pub open spec fn context_after(
    s: ChannelSwitch,
    switched: bool,
    restored: bool,
    first: ChannelRef,
) -> ChannelRef {
    if !switched {
        s.saved()
    } else if restored {
        s.saved()
    } else {
        first
    }
}

/// A scoped switch begun while `current` was the current context leaves `current` current after
/// the operation, whatever context the operation switched to, as long as `current` still
/// exists for the host to switch back to.
pub proof fn lemma_switch_round_trip(
    current: ChannelRef,
    target: ChannelRef,
    s: ChannelSwitch,
    switched: bool,
    first: ChannelRef,
)
    requires
        s.saved() == current,
        s.target() == target,
    ensures
        context_after(s, switched, true, first) == current,
{
}

} // verus!
