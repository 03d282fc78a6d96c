//! The one-shot handoff between the callback route and the waiting flow.
//!
//! The HTTP handler and the orchestrator may race on the handoff; whoever
//! wraps it in a lock gets at-most-once delivery from the structure itself:
//! only the first delivery is accepted, every later one is refused and
//! changes nothing.

use vstd::prelude::*;
use crate::errors::OAuthError;

verus! {

/// A single-use slot: armed once, it accepts exactly one callback outcome.
pub struct HandoffSlot {
    pub armed: bool,
    pub outcome: Option<Result<String, OAuthError>>,
}

impl HandoffSlot {
    /// Whether the slot still awaits its delivery.
    pub open spec fn is_armed(&self) -> bool {
        self.armed
    }

    /// The outcome delivered so far, if any.
    pub open spec fn spec_outcome(&self) -> Option<Result<String, OAuthError>> {
        self.outcome
    }

    /// The slot and acceptance that one delivery of `v` leaves behind:
    /// an armed slot disarms and stores `v`; a disarmed one refuses and is
    /// unchanged.
    pub open spec fn spec_deliver(self, v: Result<String, OAuthError>) -> (HandoffSlot, bool) {
        if self.armed {
            (HandoffSlot { armed: false, outcome: Some(v) }, true)
        } else {
            (self, false)
        }
    }

    /// A fresh slot: armed, nothing delivered.
    pub fn new() -> (r: HandoffSlot)
        ensures
            r.is_armed(),
            r.spec_outcome() is None,
    {
        HandoffSlot { armed: true, outcome: None }
    }

    /// Delivers `v`: accepted exactly when the slot was still armed, in which
    /// case `v` is stored and the slot retires; otherwise nothing changes.
    pub fn deliver(&mut self, v: Result<String, OAuthError>) -> (accepted: bool)
        ensures
            (*final(self), accepted) == old(self).spec_deliver(v),
            accepted <==> old(self).is_armed(),
    {
        if self.armed {
            self.armed = false;
            self.outcome = Some(v);
            true
        } else {
            false
        }
    }

    /// Takes the delivered outcome out of the slot, leaving it retired and
    /// empty.
    pub fn take_outcome(&mut self) -> (r: Option<Result<String, OAuthError>>)
        ensures
            r == old(self).spec_outcome(),
            !final(self).is_armed(),
            final(self).spec_outcome() is None,
    {
        self.armed = false;
        self.outcome.take()
    }
}

/// The handoff delivers at most once: on an armed slot a first delivery is
/// accepted, and any second delivery is refused and leaves both the slot and
/// the stored outcome exactly as the first delivery left them.
pub proof fn lemma_handoff_at_most_once(
    slot: HandoffSlot,
    first: Result<String, OAuthError>,
    second: Result<String, OAuthError>,
)
    requires
        slot.is_armed(),
    ensures
        ({
            let (slot1, accepted1) = slot.spec_deliver(first);
            let (slot2, accepted2) = slot1.spec_deliver(second);
            accepted1 && !accepted2 && slot2 == slot1 && slot1.spec_outcome() == Some(first)
        }),
{
}

} // verus!
