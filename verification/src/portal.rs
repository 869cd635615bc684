//! Single-slot completion rendezvous.
//!
//! A `Portal` bridges the event-dispatch boundary, which classifies a raw
//! completion event and must return promptly, to the one discovery step that
//! awaits the reply on that connection. The slot holds at most one
//! undelivered message; the suspension itself lives outside this crate, so
//! here `signal` fills the slot and `wait` drains it.

use vstd::prelude::*;
use crate::pages::{CharacteristicPage, DescriptorPage};
use crate::status::DiscoverError;
use crate::types::DiscoveredService;

verus! {

/// One completion, as routed to the portal of the connection it answers.
///
/// Exactly one is produced per outstanding request, or `Disconnected`
/// supersedes it when the connection drops mid-request.
pub enum PortalMessage {
    DiscoverService(Result<DiscoveredService, DiscoverError>),
    DiscoverCharacteristics(Result<CharacteristicPage, DiscoverError>),
    DiscoverDescriptors(Result<DescriptorPage, DiscoverError>),
    Disconnected,
}

/// What one signal does to a slot: fills an empty slot and reports delivery,
/// and leaves an occupied slot as it is, reporting the drop.
pub open spec fn signal_spec(
    slot: Option<PortalMessage>,
    message: PortalMessage,
) -> (Option<PortalMessage>, bool) {
    if slot is None {
        (Some(message), true)
    } else {
        (slot, false)
    }
}

/// The per-connection single-slot mailbox.
pub struct Portal {
    slot: Option<PortalMessage>,
}

impl View for Portal {
    type V = Option<PortalMessage>;

    closed spec fn view(&self) -> Option<PortalMessage> {
        self.slot
    }
}

impl Portal {
    pub fn new() -> (r: Self)
        ensures
            r@ is None,
    {
        Portal { slot: None }
    }

    /// Deliver one completion. Never blocks; when a message is already
    /// pending the new one is dropped and `false` says so — under the
    /// single-outstanding-request discipline that marks a protocol
    /// desynchronization, and a caller should treat it as one.
    pub fn signal(&mut self, message: PortalMessage) -> (delivered: bool)
        ensures
            (final(self)@, delivered) == signal_spec(old(self)@, message),
    {
        match self.slot {
            None => {
                self.slot = Some(message);
                true
            }
            Some(_) => false,
        }
    }

    /// Take the pending completion, leaving the slot free for the next
    /// request's reply. `None` means nothing has been signalled yet and the
    /// awaiting step must keep waiting.
    pub fn wait(&mut self) -> (r: Option<PortalMessage>)
        ensures
            final(self)@ is None,
            r == old(self)@,
    {
        self.slot.take()
    }
}

/// A portal holds at most one undelivered completion: of two signals with no
/// intervening wait, the second never displaces the first — the slot still
/// holds the first message, and only one of the two reports delivery.
pub proof fn lemma_portal_single_slot(
    slot: Option<PortalMessage>,
    first: PortalMessage,
    second: PortalMessage,
)
    ensures
        ({
            let (after_first, d1) = signal_spec(slot, first);
            let (after_second, d2) = signal_spec(after_first, second);
            &&& after_second == (if slot is None { Some(first) } else { slot })
            &&& !(d1 && d2)
        }),
{
}

} // verus!
