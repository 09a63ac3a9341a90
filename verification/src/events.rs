//! What flows into and out of the connection actor.

use vstd::prelude::*;

use crate::packet::FromRadio;
use crate::types::TextMessage;
use crate::types::TextMessageView;

verus! {

/// What the actor tells its observers.
#[derive(Clone, Debug, PartialEq, Eq)]
pub enum Status {
    /// Liveness signal with the number of packets received so far.
    Heartbeat(usize),
    /// The boot phase is over.
    Ready,
    /// A message is newly tracked under this identifier.
    NewMessage(u32),
    /// The delivery status of this message changed.
    UpdatedMessage(u32),
    /// A packet arrived from the radio.
    FromRadio(FromRadio),
}

/// Why an inbound packet was dropped.
#[derive(Clone, Copy, Debug, PartialEq, Eq, Structural)]
pub enum PacketError {
    /// The packet carries nothing.
    NoPayload,
    /// The payload is no well-formed message of its kind.
    Malformed,
    /// The payload of a text packet is no UTF-8 text.
    InvalidText,
    /// The routing envelope names a reason that the protocol does not define.
    UnknownRoutingError(i32),
}

/// Why the actor's loop ended in failure. Either is fatal to the connection.
#[derive(Clone, Copy, Debug, PartialEq, Eq, Structural)]
pub enum LoopError {
    /// The stream of inbound packets ended.
    StreamClosed,
    /// The channel of outbound messages closed.
    MessagesClosed,
}

impl LoopError {
    /// The error in words.
    pub fn message(&self) -> (text: &'static str)
        ensures
            text@ == match *self {
                LoopError::StreamClosed => "BLE stream closed"@,
                LoopError::MessagesClosed => "Text message stream closed"@,
            },
    {
        match self {
            LoopError::StreamClosed => "BLE stream closed",
            LoopError::MessagesClosed => "Text message stream closed",
        }
    }
}

/// One thing that the actor's loop waits for.
#[derive(Debug)]
pub enum Event {
    /// The inbound stream yielded a packet, or `None` when it ended.
    Packet(Option<FromRadio>),
    /// A caller handed in a message to send, or `None` when the channel of
    /// such messages closed.
    Message(Option<TextMessage>),
    /// The transport sent a message and gave its packet this identifier.
    Sent(TextMessage, u32),
    /// The pacing timer fired.
    Tick,
    /// Cancellation was requested.
    Cancelled,
}

/// One thing that the actor does in response to an event.
#[derive(Debug)]
pub enum Action {
    /// Announce a status to the observers.
    Emit(Status),
    /// Hand a message to the transport, asking for confirmation of delivery.
    Transmit(TextMessage),
    /// Note that an inbound packet was dropped.
    Report(PacketError),
    /// Stop accepting inbound packets.
    ClosePackets,
    /// Close the transport.
    Disconnect,
    /// Signal that the loop has ended.
    SignalFinished,
}

/// Mathematical value of an [`Action`].
pub enum ActionView {
    Emit(Status),
    Transmit(TextMessageView),
    Report(PacketError),
    ClosePackets,
    Disconnect,
    SignalFinished,
}

impl View for Action {
    type V = ActionView;

    open spec fn view(&self) -> ActionView {
        match *self {
            Action::Emit(status) => ActionView::Emit(status),
            Action::Transmit(msg) => ActionView::Transmit(msg@),
            Action::Report(error) => ActionView::Report(error),
            Action::ClosePackets => ActionView::ClosePackets,
            Action::Disconnect => ActionView::Disconnect,
            Action::SignalFinished => ActionView::SignalFinished,
        }
    }
}

/// Mathematical value of a list of actions.
pub open spec fn actions_view(actions: Seq<Action>) -> Seq<ActionView> {
    actions.map_values(|action: Action| action@)
}

/// What the actor does in response to one event, in order, and whether its
/// loop ends with it.
#[derive(Debug)]
pub struct Step {
    pub actions: Vec<Action>,
    /// `None` while the loop goes on; else how it ended.
    pub exit: Option<Result<(), LoopError>>,
}

} // verus!
