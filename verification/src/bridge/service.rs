//! The bridge as a state machine: what a packet, a silence or a
//! cancellation does to it, and what it sends to the chat.

use vstd::prelude::*;
use vstd::string::StringExecFns;

use crate::bridge::packets::sorted;
use crate::bridge::packets::IncomingPacket;
use crate::bridge::packets::IncomingView;
use crate::bridge::storage::shown_name;
use crate::bridge::storage::Storage;
use crate::packet::FromRadio;
use crate::packet::MeshPacket;
use crate::packet::PayloadVariant;
use crate::text::decimal;
use crate::text::to_decimal;
use crate::types::NodeNames;
use crate::types::BROADCAST;

verus! {

/// Number of seconds that one silence lasts.
pub const IDLE_STEP: u64 = 30;

/// Number of seconds of silence after which the bridge gives up.
pub const IDLE_LIMIT: u64 = 300;

/// Number of seconds without a word to the chat after which the bridge
/// reports that it is alive.
pub const ALIVE_SECS: u64 = 3600;

/// Why the bridge stopped.
#[derive(Clone, Copy, Debug, PartialEq, Eq, Structural)]
pub enum BridgeError {
    /// The stream of packets ended.
    StreamFinished,
    /// Nothing arrived for too long.
    IdleTooLong,
}

impl BridgeError {
    /// The error in words.
    pub fn message(&self) -> (text: &'static str)
        ensures
            text@ == match *self {
                BridgeError::StreamFinished => "radio_rx stream finished"@,
                BridgeError::IdleTooLong => "Idle for more than 300s, I'm going to reset"@,
            },
    {
        match self {
            BridgeError::StreamFinished => "radio_rx stream finished",
            BridgeError::IdleTooLong => "Idle for more than 300s, I'm going to reset",
        }
    }
}

/// One thing that the bridge waits for.
#[derive(Debug)]
pub enum BridgeEvent {
    /// The radio yielded a packet, or `None` when its stream ended.
    Packet(Option<FromRadio>),
    /// Nothing happened for [`IDLE_STEP`] seconds.
    Idle,
    /// Cancellation was requested.
    Cancelled,
}

/// What the bridge does in response to an event.
#[derive(Debug)]
pub struct BridgeStep {
    /// The text to send to the chat, if any.
    pub forward: Option<String>,
    /// `None` while the bridge goes on; else how it ended.
    pub exit: Option<Result<(), BridgeError>>,
}

/// Mathematical value of a [`Service`].
pub struct BridgeView {
    /// The names of the nodes heard of.
    pub nodes: Map<u32, NodeNames>,
    /// Number of seconds of silence since the last packet.
    pub idle_counter: nat,
    /// Number of packets received so far.
    pub stats_recv_count: nat,
}

/// What one event comes to.
pub struct BridgeStepView {
    pub next: BridgeView,
    pub forward: Option<Seq<char>>,
    pub exit: Option<Result<(), BridgeError>>,
}

/// The line that tells the chat of a text: one form for a broadcast, one for
/// a text to a single node.
pub open spec fn text_line(nodes: Map<u32, NodeNames>, from: u32, to: u32, msg: Seq<char>) -> Seq<
    char,
> {
    if to == BROADCAST {
        "💬 "@ + shown_name(nodes, from) + " : "@ + msg
    } else {
        "📩 "@ + shown_name(nodes, from) + " → "@ + shown_name(nodes, to) + " : "@ + msg + " "@
    }
}

/// What a sorted packet does to the names kept, and what it tells the chat:
/// an identity is recorded, a text is forwarded, anything else is passed
/// over.
pub open spec fn processed(nodes: Map<u32, NodeNames>, incoming: IncomingView) -> (
    Map<u32, NodeNames>,
    Option<Seq<char>>,
) {
    match incoming {
        IncomingView::NodeInfo(id, names) => (nodes.insert(id, names), None),
        IncomingView::TextMessage { from, to, msg } => (nodes, Some(text_line(nodes, from, to, msg))),
        _ => (nodes, None),
    }
}

/// What one event comes to. A packet ends the silence and is counted; ten
/// silences in a row end the bridge, and so do the end of the stream and a
/// cancellation.
pub open spec fn bridge_step(s: BridgeView, event: BridgeEvent) -> BridgeStepView {
    match event {
        BridgeEvent::Cancelled => BridgeStepView { next: s, forward: None, exit: Some(Ok(())) },
        BridgeEvent::Packet(None) => BridgeStepView {
            next: s,
            forward: None,
            exit: Some(Err(BridgeError::StreamFinished)),
        },
        BridgeEvent::Packet(Some(from_radio)) => {
            let (nodes, forward) = processed(s.nodes, sorted(from_radio));
            BridgeStepView {
                next: BridgeView {
                    nodes,
                    idle_counter: 0,
                    stats_recv_count: s.stats_recv_count + 1,
                },
                forward,
                exit: None,
            }
        },
        BridgeEvent::Idle => {
            let idle = s.idle_counter + IDLE_STEP as nat;
            BridgeStepView {
                next: BridgeView { idle_counter: idle, ..s },
                forward: None,
                exit: if idle >= IDLE_LIMIT {
                    Some(Err(BridgeError::IdleTooLong))
                } else {
                    None
                },
            }
        },
    }
}

/// The mesh packet that the bridge keeps a copy of: every packet of the
/// radio that carries one.
pub fn packet_to_save(from_radio: &FromRadio) -> (found: Option<&MeshPacket>)
    ensures
        found == match from_radio.payload_variant {
            Some(PayloadVariant::Packet(mesh_packet)) => Some(&mesh_packet),
            _ => None,
        },
{
    match &from_radio.payload_variant {
        Some(PayloadVariant::Packet(mesh_packet)) => Some(mesh_packet),
        _ => None,
    }
}

/// The name of the file that holds the packets of a day.
pub fn packet_file_name(date: &str) -> (name: String)
    ensures
        name@ == "network."@ + date@ + ".cbor"@,
{
    let mut name = String::from_str("network.");
    name.append(date);
    name.append(".cbor");
    name
}

/// What the bridge tells the chat when it starts.
pub fn start_message(ble_device: &str) -> (text: String)
    ensures
        text@ == "Start get events from "@ + ble_device@,
{
    let mut text = String::from_str("Start get events from ");
    text.append(ble_device);
    text
}

/// The bridge between two events.
pub struct Service {
    storage: Storage,
    idle_counter: u64,
    stats_recv_count: u64,
}

impl Service {
    /// The silence counted stays below the limit while the bridge runs.
    pub closed spec fn wf(&self) -> bool {
        self.idle_counter < IDLE_LIMIT
    }

    pub closed spec fn view(&self) -> BridgeView {
        BridgeView {
            nodes: self.storage@,
            idle_counter: self.idle_counter as nat,
            stats_recv_count: self.stats_recv_count as nat,
        }
    }

    /// A bridge that has received nothing yet.
    pub fn new(storage: Storage) -> (service: Self)
        ensures
            service.wf(),
            service@ == (BridgeView { nodes: storage@, idle_counter: 0, stats_recv_count: 0 }),
    {
        Service { storage, idle_counter: 0, stats_recv_count: 0 }
    }

    /// The names of the nodes heard of.
    pub fn storage(&self) -> (storage: &Storage)
        ensures
            storage@ == self@.nodes,
    {
        &self.storage
    }

    /// Number of packets received so far.
    pub fn recv_count(&self) -> (count: u64)
        ensures
            count == self@.stats_recv_count,
    {
        self.stats_recv_count
    }

    /// What the bridge tells the chat to show that it is alive: nothing
    /// until the chat has heard nothing for more than [`ALIVE_SECS`]
    /// seconds.
    pub fn alive_message(&self, silent_secs: u64) -> (text: Option<String>)
        ensures
            text is Some <==> silent_secs > ALIVE_SECS,
            text matches Some(t) ==> t@ == "Alive, recv_count: "@ + decimal(
                self@.stats_recv_count,
            ),
    {
        if silent_secs > ALIVE_SECS {
            let mut text = String::from_str("Alive, recv_count: ");
            let count = to_decimal(self.stats_recv_count);
            text.append(count.as_str());
            Some(text)
        } else {
            None
        }
    }

    /// Takes a sorted packet: records an identity, and words a text for the
    /// chat.
    pub fn process(&mut self, incoming: IncomingPacket) -> (forward: Option<String>)
        ensures
            final(self)@ == (BridgeView {
                nodes: processed(old(self)@.nodes, incoming@).0,
                ..old(self)@
            }),
            forward is Some <==> processed(old(self)@.nodes, incoming@).1 is Some,
            forward matches Some(text) ==> processed(old(self)@.nodes, incoming@).1 == Some(text@),
            old(self).wf() ==> final(self).wf(),
    {
        match incoming {
            IncomingPacket::NodeInfo(id, user) => {
                self.storage.insert_node(id, user);
                None
            },
            IncomingPacket::TextMessage { from, to, msg } => {
                let from = self.storage.long_name_of(from);
                if to == BROADCAST {
                    let mut line = String::from_str("💬 ");
                    line.append(from.as_str());
                    line.append(" : ");
                    line.append(msg.as_str());
                    Some(line)
                } else {
                    let to = self.storage.long_name_of(to);
                    let mut line = String::from_str("📩 ");
                    line.append(from.as_str());
                    line.append(" → ");
                    line.append(to.as_str());
                    line.append(" : ");
                    line.append(msg.as_str());
                    line.append(" ");
                    Some(line)
                }
            },
            _ => None,
        }
    }

    /// Takes one event and says what the bridge does in response.
    pub fn run(&mut self, event: BridgeEvent) -> (out: BridgeStep)
        requires
            old(self).wf(),
            event is Packet ==> old(self)@.stats_recv_count < u64::MAX,
        ensures
            final(self)@ == bridge_step(old(self)@, event).next,
            out.exit == bridge_step(old(self)@, event).exit,
            out.forward is Some <==> bridge_step(old(self)@, event).forward is Some,
            out.forward matches Some(text) ==> bridge_step(old(self)@, event).forward == Some(
                text@,
            ),
            out.exit is None ==> final(self).wf(),
    {
        match event {
            BridgeEvent::Cancelled => BridgeStep { forward: None, exit: Some(Ok(())) },
            BridgeEvent::Packet(None) => BridgeStep {
                forward: None,
                exit: Some(Err(BridgeError::StreamFinished)),
            },
            BridgeEvent::Packet(Some(from_radio)) => {
                self.idle_counter = 0;
                self.stats_recv_count = self.stats_recv_count + 1;
                let forward = self.process(IncomingPacket::from(from_radio));
                BridgeStep { forward, exit: None }
            },
            BridgeEvent::Idle => {
                self.idle_counter = self.idle_counter + IDLE_STEP;
                if self.idle_counter >= IDLE_LIMIT {
                    BridgeStep { forward: None, exit: Some(Err(BridgeError::IdleTooLong)) }
                } else {
                    BridgeStep { forward: None, exit: None }
                }
            },
        }
    }
}

} // verus!
