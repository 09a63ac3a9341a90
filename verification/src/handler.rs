//! The decisions of the client handle: what to enqueue for an outbound
//! text, when the wait for the end of the boot phase is over, and when a
//! shutdown is complete. The channels and timers that feed these decisions
//! live with the transport.

use vstd::prelude::*;
use vstd::string::StringExecFns;

use crate::events::Status;
use crate::state::HandlerState;
use crate::state::StateView;
use crate::types::Destination;
use crate::types::TextMessage;
use crate::types::TextMessageStatus;
use crate::types::TextMessageView;
use crate::types::BROADCAST;

verus! {

/// Why an outbound text was not enqueued.
#[derive(Debug)]
pub enum SendTextError {
    /// No node of the directory carries this short name.
    NodeNotFound(String),
}

impl SendTextError {
    /// The error in words.
    pub fn message(&self) -> (text: String)
        ensures
            self matches SendTextError::NodeNotFound(name) ==> text@ == "Node '"@ + name@
                + "' not found"@,
    {
        match self {
            SendTextError::NodeNotFound(name) => {
                let mut text = String::from_str("Node '");
                text.append(name.as_str());
                text.append("' not found");
                text
            },
        }
    }
}

/// Why the wait for the end of the boot phase gave up.
#[derive(Clone, Copy, Debug, PartialEq, Eq, Structural)]
pub enum BootError {
    /// The stream of status events ended: the actor is gone.
    ChannelClosed,
    /// The connection was cancelled.
    Cancelled,
    /// The boot phase did not end in time.
    Timeout,
}

impl BootError {
    /// The error in words.
    pub fn message(&self) -> (text: &'static str)
        ensures
            text@ == match *self {
                BootError::ChannelClosed => "Channel closed"@,
                BootError::Cancelled => "Cancelled"@,
                BootError::Timeout => "Timeout reached"@,
            },
    {
        match self {
            BootError::ChannelClosed => "Channel closed",
            BootError::Cancelled => "Cancelled",
            BootError::Timeout => "Timeout reached",
        }
    }
}

/// One thing that the wait for the end of the boot phase wakes up for.
#[derive(Debug)]
pub enum BootEvent {
    /// The status stream yielded an event, or `None` when it ended.
    Status(Option<Status>),
    /// Cancellation was requested.
    Cancelled,
    /// Another second has passed; so many seconds since the wait began.
    Elapsed(u64),
}

/// What the wait for the end of the boot phase makes of an event: `None` to
/// keep waiting, else the outcome. `Ready` ends the wait in success, the end
/// of the status stream and a cancellation end it in failure, and so does a
/// second that brings the time waited up to the timeout.
pub open spec fn boot_wait(event: BootEvent, timeout_secs: u64) -> Option<Result<(), BootError>> {
    match event {
        BootEvent::Status(None) => Some(Err(BootError::ChannelClosed)),
        BootEvent::Status(Some(Status::Ready)) => Some(Ok(())),
        BootEvent::Status(Some(_)) => None,
        BootEvent::Cancelled => Some(Err(BootError::Cancelled)),
        BootEvent::Elapsed(secs) => if secs >= timeout_secs {
            Some(Err(BootError::Timeout))
        } else {
            None
        },
    }
}

/// The node number that a destination stands for in a directory, if it
/// stands for one. A short name stands for any node that carries it.
pub open spec fn resolves_to(state: StateView, to: Destination, node: u32) -> bool {
    match to {
        Destination::Node(id) => node == id,
        Destination::Broadcast => node == BROADCAST,
        Destination::ShortName(name) => state.nodes.contains_key(node)
            && state.nodes[node].short_name == name@,
    }
}

/// The caller's side of a connection.
pub struct Handler {
    cancel: bool,
    finished: bool,
}

impl Handler {
    /// Whether this handle has asked the actor to stop.
    pub closed spec fn cancel_requested(&self) -> bool {
        self.cancel
    }

    /// Whether this handle has seen the actor's loop end.
    pub closed spec fn shut_down(&self) -> bool {
        self.finished
    }

    /// The handle of a running connection.
    pub fn new() -> (handler: Self)
        ensures
            !handler.cancel_requested(),
            !handler.shut_down(),
    {
        Handler { cancel: false, finished: false }
    }

    #[verifier::when_used_as_spec(cancel_requested)]
    pub fn is_cancelled(&self) -> (cancelled: bool)
        ensures
            cancelled == self.cancel_requested(),
    {
        self.cancel
    }

    /// One turn of the wait for the end of the boot phase.
    pub fn wait_for_boot_ready(&self, event: BootEvent, timeout_secs: u64) -> (outcome: Option<
        Result<(), BootError>,
    >)
        ensures
            outcome == boot_wait(event, timeout_secs),
    {
        match event {
            BootEvent::Status(None) => Some(Err(BootError::ChannelClosed)),
            BootEvent::Status(Some(Status::Ready)) => Some(Ok(())),
            BootEvent::Status(Some(_)) => None,
            BootEvent::Cancelled => Some(Err(BootError::Cancelled)),
            BootEvent::Elapsed(secs) => {
                if secs >= timeout_secs {
                    Some(Err(BootError::Timeout))
                } else {
                    None
                }
            },
        }
    }

    /// Makes the message to enqueue for an outbound text: from this radio,
    /// to the node that the destination stands for, not yet acknowledged.
    /// Fails only for a short name that no node of the directory carries.
    pub fn send_text(&self, state: &HandlerState, text: String, to: Destination) -> (result: Result<
        TextMessage,
        SendTextError,
    >)
        requires
            state@.my_node_num is Some,
        ensures
            result is Err <==> forall|node: u32| !resolves_to(state@, to, node),
            result matches Err(SendTextError::NodeNotFound(name)) ==> to == Destination::ShortName(
                name,
            ),
            result matches Ok(msg) ==> resolves_to(state@, to, msg@.to) && msg@ == (
            TextMessageView {
                from: state@.my_node_num->0,
                to: msg@.to,
                text: text@,
                status: TextMessageStatus::Sent,
                pk_hash: Seq::new(32, |i: int| 0u8),
            }),
    {
        let from = state.my_node_num();
        let node = match to {
            Destination::Node(id) => {
                assert(resolves_to(state@, to, id));
                id
            },
            Destination::Broadcast => {
                assert(resolves_to(state@, to, BROADCAST));
                BROADCAST
            },
            Destination::ShortName(name) => {
                match state.get_node_id_by_short_name(name.as_str()) {
                    Some(id) => {
                        assert(resolves_to(state@, to, id));
                        id
                    },
                    None => {
                        return Err(SendTextError::NodeNotFound(name));
                    },
                }
            },
        };
        Ok(TextMessage::sent(from, node, text))
    }

    /// One turn of a shutdown: asks the actor to stop, and reports whether
    /// its loop has ended, as the completion signal tells. Once it has, every
    /// later turn says so at once.
    pub fn finish(&mut self, signalled: bool) -> (done: bool)
        ensures
            final(self).cancel_requested(),
            done == (signalled || old(self).shut_down()),
            final(self).shut_down() == done,
    {
        self.cancel = true;
        if signalled {
            self.finished = true;
        }
        self.finished
    }
}

} // verus!
