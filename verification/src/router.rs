//! Single-slot hand-off of the identifier that the transport gave to the
//! packet it transmitted last.

use vstd::prelude::*;

verus! {

/// Remembers the identifier of the most recently transmitted mesh packet
/// until the connection actor collects it.
pub struct Router {
    last_sent: Option<u32>,
    node_id: u32,
}

impl Router {
    /// The identifier waiting to be collected, if any.
    pub closed spec fn pending(&self) -> Option<u32> {
        self.last_sent
    }

    /// The node number that outbound packets are sent from.
    pub closed spec fn node(&self) -> u32 {
        self.node_id
    }

    pub fn new(node_id: u32) -> (router: Self)
        ensures
            router.pending() == None::<u32>,
            router.node() == node_id,
    {
        Router { last_sent: None, node_id }
    }

    /// Takes note of a mesh packet that the transport has just sent: its
    /// identifier replaces what the slot held.
    pub fn handle_mesh_packet(&mut self, packet_id: u32)
        ensures
            final(self).pending() == Some(packet_id),
            final(self).node() == old(self).node(),
    {
        self.last_sent = Some(packet_id);
    }

    /// Takes note of a packet that the radio handed up while sending: the
    /// slot keeps what it holds.
    pub fn handle_packet_from_radio(&mut self)
        ensures
            *final(self) == *old(self),
    {
    }

    /// The node number that outbound packets are sent from.
    pub fn source_node_id(&self) -> (id: u32)
        ensures
            id == self.node(),
    {
        self.node_id
    }

    /// Whether an identifier waits to be collected.
    pub fn has_pending(&self) -> (waiting: bool)
        ensures
            waiting == self.pending() is Some,
    {
        self.last_sent.is_some()
    }

    /// Hands out the captured identifier and empties the slot.
    pub fn last_sent(&mut self) -> (id: Option<u32>)
        ensures
            id == old(self).pending(),
            final(self).pending() == None::<u32>,
            final(self).node() == old(self).node(),
    {
        self.last_sent.take()
    }
}

} // verus!
