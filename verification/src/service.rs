//! The connection actor as a state machine: what an inbound packet, a queued
//! message, a timer tick or a cancellation does to the connection, and what
//! the actor is to do in response. The loop that waits for these events and
//! carries the actions out lives with the transport.

use std::collections::VecDeque;
use std::time::Instant;
use vstd::pervasive::unreached;
use vstd::prelude::*;

use crate::codec::decode_routing;
use crate::codec::decode_user;
use crate::codec::decoded_routing;
use crate::codec::decoded_user;
use crate::codec::port_kind;
use crate::codec::sha256;
use crate::codec::sha256_digest;
use crate::codec::PortKind;
use crate::events::actions_view;
use crate::events::Action;
use crate::events::ActionView;
use crate::events::Event;
use crate::events::LoopError;
use crate::events::PacketError;
use crate::events::Status;
use crate::events::Step;
use crate::inbound::nodeinfo_effect;
use crate::inbound::packet_effect;
use crate::inbound::payload_text;
use crate::inbound::routing_effect;
use crate::inbound::text_effect;
use crate::packet::Data;
use crate::packet::FromRadio;
use crate::packet::MeshPacket;
use crate::packet::MeshPayload;
use crate::packet::PayloadVariant;
use crate::router::Router;
use crate::state::empty_state;
use crate::state::HandlerState;
use crate::state::StateView;
use crate::types::TextMessage;
use crate::types::TextMessageView;

verus! {

/// Number of ticks from one heartbeat to the next.
pub const HEARTBEAT_TICKS: u8 = 20;

/// Number of ticks from one turn of the outbound queue to the next.
pub const SEND_TICKS: u8 = 2;

/// The radio channel that outbound texts are sent on.
pub const TEXT_CHANNEL: u32 = 0;

/// The connection actor between two events.
pub struct Service {
    state: HandlerState,
    config_complete: bool,
    buffer_flushed: bool,
    packet_count: usize,
    hearthbeat_counter: u8,
    send_msg_queue: VecDeque<TextMessage>,
    finished: bool,
}

/// Mathematical value of a [`Service`].
pub struct ServiceView {
    /// What the connection shares with its observers.
    pub state: StateView,
    /// Whether the radio has reported the end of its configuration.
    pub config_complete: bool,
    /// Whether the boot phase is over, that is whether `Ready` was announced.
    pub ready: bool,
    /// Number of packets received so far.
    pub packet_count: nat,
    /// Number of ticks so far, modulo [`HEARTBEAT_TICKS`].
    pub phase: nat,
    /// The messages that wait for transmission, oldest first.
    pub queue: Seq<TextMessageView>,
    /// Whether the loop has ended.
    pub finished: bool,
}

/// What one event comes to.
pub struct StepView {
    /// The actor after the event.
    pub next: ServiceView,
    /// What the actor does in response, in order.
    pub actions: Seq<ActionView>,
    /// `None` while the loop goes on; else how it ended.
    pub exit: Option<Result<(), LoopError>>,
}

/// The actor of a connection on which nothing has happened yet.
pub open spec fn initial() -> ServiceView {
    ServiceView {
        state: empty_state(),
        config_complete: false,
        ready: false,
        packet_count: 0,
        phase: 0,
        queue: Seq::empty(),
        finished: false,
    }
}

/// What the actor does when its loop ends: it stops accepting packets, closes
/// the transport, and only then signals completion.
pub open spec fn closing_actions() -> Seq<ActionView> {
    seq![ActionView::ClosePackets, ActionView::Disconnect, ActionView::SignalFinished]
}

/// The end of the loop.
pub open spec fn stop(s: ServiceView, exit: Result<(), LoopError>) -> StepView {
    StepView {
        next: ServiceView { finished: true, ..s },
        actions: closing_actions(),
        exit: Some(exit),
    }
}

/// What the actor announces of a processed packet.
pub open spec fn packet_report(result: Result<Option<Status>, PacketError>) -> Seq<ActionView> {
    match result {
        Ok(Some(status)) => seq![ActionView::Emit(status)],
        Ok(None) => Seq::empty(),
        Err(error) => seq![ActionView::Report(error)],
    }
}

/// An inbound packet is counted, shown to the observers as it came, and
/// processed; an error in processing it is noted and ends nothing.
pub open spec fn packet_step(s: ServiceView, packet: FromRadio) -> StepView {
    let effect = packet_effect(s.state, s.config_complete, packet);
    StepView {
        next: ServiceView {
            state: effect.state,
            config_complete: effect.config_complete,
            packet_count: s.packet_count + 1,
            ..s
        },
        actions: seq![ActionView::Emit(Status::FromRadio(packet))] + packet_report(effect.result),
        exit: None,
    }
}

/// A tick of the pacing timer. The first tick that finds the radio's identity
/// known and its configuration complete ends the boot phase and announces
/// `Ready`. Every other tick after that takes at most one message off the
/// queue for transmission. Every [`HEARTBEAT_TICKS`] ticks a heartbeat
/// reports the packet count.
pub open spec fn tick_step(s: ServiceView) -> StepView {
    let phase = (s.phase + 1) % (HEARTBEAT_TICKS as nat);
    let beat = if phase == 0 {
        seq![ActionView::Emit(Status::Heartbeat(s.packet_count as usize))]
    } else {
        Seq::empty()
    };
    if !s.ready && s.config_complete && s.state.my_node_num is Some {
        StepView {
            next: ServiceView { ready: true, phase, ..s },
            actions: seq![ActionView::Emit(Status::Ready)] + beat,
            exit: None,
        }
    } else if s.ready && phase % (SEND_TICKS as nat) == 0 && s.queue.len() > 0 {
        StepView {
            next: ServiceView { phase, queue: s.queue.drop_first(), ..s },
            actions: seq![ActionView::Transmit(s.queue[0])] + beat,
            exit: None,
        }
    } else {
        StepView { next: ServiceView { phase, ..s }, actions: beat, exit: None }
    }
}

/// A transmitted message is tracked under the identifier that the transport
/// gave its packet, and announced.
pub open spec fn sent_step(s: ServiceView, msg: TextMessageView, id: u32) -> StepView {
    StepView {
        next: ServiceView {
            state: StateView { messages: s.state.messages.insert(id, msg), ..s.state },
            ..s
        },
        actions: seq![ActionView::Emit(Status::NewMessage(id))],
        exit: None,
    }
}

/// What one event comes to. Once the loop has ended, nothing happens any
/// more.
pub open spec fn step_spec(s: ServiceView, event: Event) -> StepView {
    if s.finished {
        StepView { next: s, actions: Seq::empty(), exit: None }
    } else {
        match event {
            Event::Packet(Some(packet)) => packet_step(s, packet),
            Event::Packet(None) => stop(
                ServiceView { packet_count: s.packet_count + 1, ..s },
                Err(LoopError::StreamClosed),
            ),
            Event::Message(Some(msg)) => StepView {
                next: ServiceView { queue: s.queue.push(msg@), ..s },
                actions: Seq::empty(),
                exit: None,
            },
            Event::Message(None) => stop(s, Err(LoopError::MessagesClosed)),
            Event::Sent(msg, id) => sent_step(s, msg@, id),
            Event::Tick => tick_step(s),
            Event::Cancelled => stop(s, Ok(())),
        }
    }
}

/// Whether a tick in the state `s` takes a message off the queue.
pub open spec fn sends_now(s: ServiceView) -> bool {
    s.ready && ((s.phase + 1) % (HEARTBEAT_TICKS as nat)) % (SEND_TICKS as nat) == 0 && s.queue.len()
        > 0
}

/// Whether a message is the first of a list.
pub open spec fn is_first(waiting: Seq<TextMessage>, msg: TextMessage) -> bool {
    waiting.len() > 0 && msg == waiting[0]
}

/// What an event makes of the messages that wait for transmission: a message
/// handed in goes to the end as it is, and a tick that sends takes the first
/// one off.
pub open spec fn step_waiting(s: ServiceView, waiting: Seq<TextMessage>, event: Event) -> Seq<
    TextMessage,
> {
    if s.finished {
        waiting
    } else {
        match event {
            Event::Message(Some(msg)) => waiting.push(msg),
            Event::Tick => if sends_now(s) {
                waiting.drop_first()
            } else {
                waiting
            },
            _ => waiting,
        }
    }
}

/// The identifier under which an event tracks a message anew, if it tracks
/// one: the report of a transmission, and a text packet that is taken.
pub open spec fn tracked_anew(s: ServiceView, event: Event) -> Option<u32> {
    if s.finished {
        None
    } else {
        match event {
            Event::Sent(_, id) => Some(id),
            Event::Packet(Some(packet)) => announced_anew(
                packet_effect(s.state, s.config_complete, packet).result,
            ),
            _ => None,
        }
    }
}

/// The identifier of the message that the result of processing a packet
/// announces as new, if it announces one.
pub open spec fn announced_anew(result: Result<Option<Status>, PacketError>) -> Option<u32> {
    match result {
        Ok(Some(Status::NewMessage(id))) => Some(id),
        _ => None,
    }
}

/// Whether the moments of creation of the tracked messages are after a step
/// as they were before it, but for the message that the step tracked anew.
pub open spec fn created_kept(
    before: Map<u32, Instant>,
    after: Map<u32, Instant>,
    anew: Option<u32>,
) -> bool {
    match anew {
        Some(id) => after.contains_key(id) && after.remove(id) == before.remove(id),
        None => after == before,
    }
}

/// What the transport is asked to send for a message.
#[derive(Debug)]
pub struct Transmission {
    pub text: String,
    /// Number of the node to send to; the broadcast value for all nodes.
    pub destination: u32,
    /// Whether delivery is to be confirmed.
    pub want_ack: bool,
    pub channel: u32,
}

impl View for Service {
    type V = ServiceView;

    closed spec fn view(&self) -> ServiceView {
        ServiceView {
            state: self.state@,
            config_complete: self.config_complete,
            ready: self.buffer_flushed,
            packet_count: self.packet_count as nat,
            phase: (self.hearthbeat_counter % HEARTBEAT_TICKS) as nat,
            queue: self.send_msg_queue@.map_values(|msg: TextMessage| msg@),
            finished: self.finished,
        }
    }
}

impl Service {
    /// The moment at which each tracked message was created.
    pub closed spec fn created(&self) -> Map<u32, Instant> {
        self.state.created()
    }

    /// The messages that wait for transmission, as they were handed in,
    /// oldest first.
    pub closed spec fn waiting(&self) -> Seq<TextMessage> {
        self.send_msg_queue@
    }

    /// The queue of the view holds the values of the waiting messages.
    pub proof fn lemma_queue_of_waiting(&self)
        ensures
            self@.queue == self.waiting().map_values(|msg: TextMessage| msg@),
    {
    }

    /// The actor of a fresh connection.
    pub fn new() -> (service: Self)
        ensures
            service@ == initial(),
            service.created() == Map::<u32, Instant>::empty(),
            service.waiting() == Seq::<TextMessage>::empty(),
    {
        let service = Service {
            state: HandlerState::new(),
            config_complete: false,
            buffer_flushed: false,
            packet_count: 0,
            hearthbeat_counter: 0,
            send_msg_queue: VecDeque::new(),
            finished: false,
        };
        assert(service@.queue =~= Seq::empty());
        service
    }

    /// What the connection shares with its observers.
    pub fn state(&self) -> (state: &HandlerState)
        ensures
            state@ == self@.state,
            state.created() == self.created(),
    {
        &self.state
    }

    pub fn config_complete(&self) -> (complete: bool)
        ensures
            complete == self@.config_complete,
    {
        self.config_complete
    }

    /// Whether the boot phase is over.
    pub fn is_ready(&self) -> (ready: bool)
        ensures
            ready == self@.ready,
    {
        self.buffer_flushed
    }

    /// Whether the loop has ended.
    pub fn is_finished(&self) -> (finished: bool)
        ensures
            finished == self@.finished,
    {
        self.finished
    }

    /// Number of packets received so far.
    pub fn packet_count(&self) -> (count: usize)
        ensures
            count == self@.packet_count,
    {
        self.packet_count
    }

    /// Number of messages that wait for transmission.
    pub fn queued(&self) -> (count: usize)
        ensures
            count == self@.queue.len(),
    {
        self.send_msg_queue.len()
    }

    /// The first announcement of the loop: a heartbeat that counts no packet.
    pub fn start(&self) -> (status: Status)
        ensures
            status == Status::Heartbeat(0),
    {
        Status::Heartbeat(0)
    }

    /// Records the names that an identity payload carries for its sender.
    pub fn handle_nodeinfo(&mut self, mesh_packet: &MeshPacket, data: &Data) -> (result: Result<
        Option<Status>,
        PacketError,
    >)
        ensures
            (final(self)@.state, result) == nodeinfo_effect(
                old(self)@.state,
                mesh_packet.from,
                decoded_user(data.payload@),
            ),
            final(self)@ == (ServiceView { state: final(self)@.state, ..old(self)@ }),
            final(self).created() == old(self).created(),
            final(self).waiting() == old(self).waiting(),
    {
        let decoded = decode_user(data.payload.as_slice());
        self.state.apply_nodeinfo(mesh_packet.from, decoded)
    }

    /// Tracks the text that a text payload carries as a received message.
    pub fn handle_textmessage(&mut self, mesh_packet: &MeshPacket, data: &Data) -> (result: Result<
        Option<Status>,
        PacketError,
    >)
        ensures
            (final(self)@.state, result) == text_effect(
                old(self)@.state,
                mesh_packet.id,
                mesh_packet.from,
                mesh_packet.to,
                payload_text(data.payload@),
                sha256_digest(mesh_packet.public_key@),
            ),
            final(self)@ == (ServiceView { state: final(self)@.state, ..old(self)@ }),
            created_kept(old(self).created(), final(self).created(), announced_anew(result)),
            final(self).waiting() == old(self).waiting(),
    {
        let bytes = data.payload.clone();
        assert(bytes@ =~= data.payload@);
        let text = String::from_utf8(bytes);
        let pk_hash = sha256(mesh_packet.public_key.as_slice());
        self.state.apply_textmessage(
            mesh_packet.id,
            mesh_packet.from,
            mesh_packet.to,
            text,
            pk_hash,
        )
    }

    /// Sets the delivery status that a routing payload reports.
    pub fn handle_routing(&mut self, mesh_packet: &MeshPacket, data: &Data) -> (result: Result<
        Option<Status>,
        PacketError,
    >)
        ensures
            (final(self)@.state, result) == routing_effect(
                old(self)@.state,
                mesh_packet.from,
                mesh_packet.to,
                mesh_packet.priority,
                data.request_id,
                decoded_routing(data.payload@),
            ),
            final(self)@ == (ServiceView { state: final(self)@.state, ..old(self)@ }),
            final(self).created() == old(self).created(),
            final(self).waiting() == old(self).waiting(),
    {
        let decoded = decode_routing(data.payload.as_slice());
        self.state.apply_routing(
            mesh_packet.from,
            mesh_packet.to,
            mesh_packet.priority,
            data.request_id,
            decoded,
        )
    }

    /// Processes one packet from the radio. On an error nothing has changed.
    pub fn process_from_radio(&mut self, from_radio: &FromRadio) -> (result: Result<
        Option<Status>,
        PacketError,
    >)
        ensures
            result == packet_effect(old(self)@.state, old(self)@.config_complete, *from_radio).result,
            final(self)@ == (ServiceView {
                state: packet_effect(
                    old(self)@.state,
                    old(self)@.config_complete,
                    *from_radio,
                ).state,
                config_complete: packet_effect(
                    old(self)@.state,
                    old(self)@.config_complete,
                    *from_radio,
                ).config_complete,
                ..old(self)@
            }),
            created_kept(old(self).created(), final(self).created(), announced_anew(result)),
            final(self).waiting() == old(self).waiting(),
    {
        match &from_radio.payload_variant {
            None => Err(PacketError::NoPayload),
            Some(PayloadVariant::MyInfo(info)) => {
                self.state.set_identity(*info);
                Ok(None)
            },
            Some(PayloadVariant::NodeInfo(info)) => {
                match &info.user {
                    Some(record) => {
                        self.state.insert_node(info.num, record.clone());
                    },
                    None => {},
                }
                Ok(None)
            },
            Some(PayloadVariant::ConfigCompleteId(_)) => {
                self.config_complete = true;
                Ok(None)
            },
            Some(PayloadVariant::Packet(mesh_packet)) => {
                match &mesh_packet.payload_variant {
                    Some(MeshPayload::Decoded(data)) => match port_kind(data.portnum) {
                        PortKind::NodeInfo => self.handle_nodeinfo(mesh_packet, data),
                        PortKind::TextMessage => self.handle_textmessage(mesh_packet, data),
                        PortKind::Routing => self.handle_routing(mesh_packet, data),
                        PortKind::Other => Ok(None),
                    },
                    _ => Ok(None),
                }
            },
            Some(PayloadVariant::Other(_)) => Ok(None),
        }
    }

    /// What the transport is to send for a message, and the router that
    /// will capture the identifier of the packet.
    pub fn outbound(&self, msg: &TextMessage) -> (request: (Router, Transmission))
        requires
            self@.state.my_node_num is Some,
        ensures
            request.0.pending() == None::<u32>,
            Some(request.0.node()) == self@.state.my_node_num,
            request.1.text@ == msg@.text,
            request.1.destination == msg@.to,
            request.1.want_ack,
            request.1.channel == TEXT_CHANNEL,
    {
        let from = self.state.my_node_num();
        (
            Router::new(from),
            Transmission {
                text: msg.text.clone(),
                destination: msg.to,
                want_ack: true,
                channel: TEXT_CHANNEL,
            },
        )
    }

    /// Tracks a transmitted message under the identifier that the transport
    /// gave its packet.
    pub fn record_sent(&mut self, msg: TextMessage, id: u32) -> (status: Status)
        ensures
            final(self)@ == sent_step(old(self)@, msg@, id).next,
            status == Status::NewMessage(id),
            final(self).created() == old(self).created().insert(id, msg.ts),
            final(self).waiting() == old(self).waiting(),
    {
        self.state.insert_message(id, msg);
        Status::NewMessage(id)
    }

    /// Completes the transmission of a message: collects from the router the
    /// identifier of the packet that carried it and tracks the message under
    /// it.
    pub fn process_send_text(&mut self, msg: TextMessage, router: &mut Router) -> (status: Status)
        requires
            old(router).pending() is Some,
        ensures
            final(self)@ == sent_step(old(self)@, msg@, old(router).pending()->0).next,
            status == Status::NewMessage(old(router).pending()->0),
            final(self).created() == old(self).created().insert(old(router).pending()->0, msg.ts),
            final(self).waiting() == old(self).waiting(),
            final(router).pending() == None::<u32>,
            final(router).node() == old(router).node(),
    {
        match router.last_sent() {
            Some(id) => self.record_sent(msg, id),
            None => unreached(),
        }
    }

    fn stop(&mut self, exit: Result<(), LoopError>) -> (out: Step)
        ensures
            final(self)@ == stop(old(self)@, exit).next,
            actions_view(out.actions@) == closing_actions(),
            out.exit == Some(exit),
            final(self).created() == old(self).created(),
            final(self).waiting() == old(self).waiting(),
            forall|i: int| 0 <= i < out.actions@.len() ==> !((#[trigger] out.actions@[i]) is Transmit),
    {
        self.finished = true;
        let mut actions: Vec<Action> = Vec::new();
        actions.push(Action::ClosePackets);
        actions.push(Action::Disconnect);
        actions.push(Action::SignalFinished);
        assert(actions_view(actions@) =~= closing_actions());
        Step { actions, exit: Some(exit) }
    }

    fn on_packet(&mut self, packet: FromRadio) -> (out: Step)
        requires
            old(self)@.packet_count < usize::MAX,
        ensures
            final(self)@ == packet_step(old(self)@, packet).next,
            actions_view(out.actions@) == packet_step(old(self)@, packet).actions,
            out.exit == packet_step(old(self)@, packet).exit,
            created_kept(
                old(self).created(),
                final(self).created(),
                announced_anew(
                    packet_effect(old(self)@.state, old(self)@.config_complete, packet).result,
                ),
            ),
            final(self).waiting() == old(self).waiting(),
            forall|i: int| 0 <= i < out.actions@.len() ==> !((#[trigger] out.actions@[i]) is Transmit),
    {
        self.packet_count = self.packet_count + 1;
        let result = self.process_from_radio(&packet);
        let mut actions: Vec<Action> = Vec::new();
        actions.push(Action::Emit(Status::FromRadio(packet)));
        match result {
            Ok(Some(status)) => {
                actions.push(Action::Emit(status));
            },
            Ok(None) => {},
            Err(error) => {
                actions.push(Action::Report(error));
            },
        }
        assert(actions_view(actions@) =~= packet_step(old(self)@, packet).actions);
        Step { actions, exit: None }
    }

    fn on_tick(&mut self) -> (out: Step)
        requires
            !old(self)@.finished,
        ensures
            final(self)@ == tick_step(old(self)@).next,
            actions_view(out.actions@) == tick_step(old(self)@).actions,
            out.exit == tick_step(old(self)@).exit,
            final(self).created() == old(self).created(),
            final(self).waiting() == step_waiting(old(self)@, old(self).waiting(), Event::Tick),
            forall|i: int|
                0 <= i < out.actions@.len() && (#[trigger] out.actions@[i]) is Transmit ==> is_first(
                    old(self).waiting(),
                    out.actions@[i]->Transmit_0,
                ),
    {
        let phase = (self.hearthbeat_counter % HEARTBEAT_TICKS + 1) % HEARTBEAT_TICKS;
        self.hearthbeat_counter = phase;
        let mut actions: Vec<Action> = Vec::new();
        if !self.buffer_flushed && self.config_complete && self.state.my_node_info.is_some() {
            self.buffer_flushed = true;
            actions.push(Action::Emit(Status::Ready));
        } else if self.buffer_flushed && phase % SEND_TICKS == 0 {
            match self.send_msg_queue.pop_front() {
                Some(msg) => {
                    assert(self@.queue =~= old(self)@.queue.drop_first());
                    actions.push(Action::Transmit(msg));
                },
                None => {},
            }
        }
        if phase == 0 {
            actions.push(Action::Emit(Status::Heartbeat(self.packet_count)));
        }
        assert(actions_view(actions@) =~= tick_step(old(self)@).actions);
        Step { actions, exit: None }
    }

    /// Takes one event and says what the actor does in response.
    pub fn step(&mut self, event: Event) -> (out: Step)
        requires
            event is Packet ==> old(self)@.packet_count < usize::MAX,
        ensures
            final(self)@ == step_spec(old(self)@, event).next,
            actions_view(out.actions@) == step_spec(old(self)@, event).actions,
            out.exit == step_spec(old(self)@, event).exit,
            created_kept(old(self).created(), final(self).created(), tracked_anew(old(self)@, event)),
            !old(self)@.finished ==> (event matches Event::Sent(msg, id) ==> final(self).created()[id]
                == msg.ts),
            final(self).waiting() == step_waiting(old(self)@, old(self).waiting(), event),
            forall|i: int|
                0 <= i < out.actions@.len() && (#[trigger] out.actions@[i]) is Transmit ==> is_first(
                    old(self).waiting(),
                    out.actions@[i]->Transmit_0,
                ),
    {
        if self.finished {
            let actions: Vec<Action> = Vec::new();
            assert(actions_view(actions@) =~= Seq::empty());
            return Step { actions, exit: None };
        }
        match event {
            Event::Packet(Some(packet)) => self.on_packet(packet),
            Event::Packet(None) => {
                self.packet_count = self.packet_count + 1;
                self.stop(Err(LoopError::StreamClosed))
            },
            Event::Message(Some(msg)) => {
                self.send_msg_queue.push_back(msg);
                assert(self@.queue =~= old(self)@.queue.push(msg@));
                let actions: Vec<Action> = Vec::new();
                assert(actions_view(actions@) =~= Seq::empty());
                Step { actions, exit: None }
            },
            Event::Message(None) => self.stop(Err(LoopError::MessagesClosed)),
            Event::Sent(msg, id) => {
                let status = self.record_sent(msg, id);
                assert(self.created().remove(id) =~= old(self).created().remove(id));
                let mut actions: Vec<Action> = Vec::new();
                actions.push(Action::Emit(status));
                assert(actions_view(actions@) =~= sent_step(old(self)@, msg@, id).actions);
                Step { actions, exit: None }
            },
            Event::Tick => self.on_tick(),
            Event::Cancelled => self.stop(Ok(())),
        }
    }
}

} // verus!
