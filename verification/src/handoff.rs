//! The hand-off channel: a single-slot, last-write-wins mailbox between
//! the transfer engine's notification context (the single producer) and
//! the main loop (the single consumer).

use vstd::prelude::*;

verus! {

/// A bounded, single-slot channel holding at most one pending
/// buffer-ready event: the identifier of the buffer half that most
/// recently became stable.
///
/// A `publish` overwrites whatever is pending: if the consumer is slower
/// than the producer, intermediate events coalesce into the latest one
/// rather than queueing.  A `take` removes the pending event, so the same
/// event is never delivered twice.
pub struct HandoffChannel {
    /// The pending buffer-ready event, if any.
    pub slot: Option<u8>,
}

/// The channel after `publish(half)`: the slot holds `half`, whatever it
/// held before.
pub open spec fn spec_publish(c: HandoffChannel, half: u8) -> HandoffChannel {
    HandoffChannel { slot: Some(half) }
}

/// The result and the channel after `take`: the pending event (if any)
/// comes out and the slot is left empty.
pub open spec fn spec_take(c: HandoffChannel) -> (Option<u8>, HandoffChannel) {
    (c.slot, HandoffChannel { slot: None })
}

impl HandoffChannel {
    /// A fresh channel with no pending event.
    pub fn new() -> (c: HandoffChannel)
        ensures
            c.slot == Option::<u8>::None,
    {
        HandoffChannel { slot: None }
    }

    /// Publish `half` as the latest stable half, overwriting any event the
    /// consumer has not drained yet (last-write-wins).
    pub fn publish(&mut self, half: u8)
        ensures
            *final(self) == spec_publish(*old(self), half),
    {
        self.slot = Some(half);
    }

    /// Read and clear the pending event: returns the published half
    /// identifier exactly once, and nothing when no publish happened since
    /// the previous `take`.
    pub fn take(&mut self) -> (r: Option<u8>)
        ensures
            r == spec_take(*old(self)).0,
            *final(self) == spec_take(*old(self)).1,
    {
        let r = self.slot;
        self.slot = None;
        r
    }
}

/// A publish followed immediately by a take delivers exactly the published
/// identifier, exactly once: the first take returns it and a second
/// immediate take returns nothing.
pub proof fn lemma_publish_then_take_once(c: HandoffChannel, half: u8)
    ensures
        ({
            let c1 = spec_publish(c, half);
            let (r1, c2) = spec_take(c1);
            let (r2, _c3) = spec_take(c2);
            r1 == Some(half) && r2 == Option::<u8>::None
        }),
{
}

} // verus!
