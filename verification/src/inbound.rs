//! What an inbound packet does to the shared state of a connection.

use std::string::FromUtf8Error;
use prost::DecodeError;
use vstd::prelude::*;
use vstd::utf8::decode_utf8;
use vstd::utf8::valid_utf8;

use crate::codec::ack_priority;
use crate::codec::decoded_routing;
use crate::codec::decoded_user;
use crate::codec::known_routing_error;
use crate::codec::no_routing_error;
use crate::codec::port_kind_of;
use crate::codec::sha256_digest;
use crate::codec::PortKind;
use crate::codec::PRIORITY_ACK;
use crate::codec::ROUTING_NONE;
use crate::events::PacketError;
use crate::events::Status;
use crate::packet::FromRadio;
use crate::packet::MeshPacket;
use crate::packet::MeshPayload;
use crate::packet::PayloadVariant;
use crate::state::awaits_verdict;
use crate::state::with_identity;
use crate::state::with_status;
use crate::state::HandlerState;
use crate::state::StateView;
use crate::types::NodeNames;
use crate::types::NodeRecord;
use crate::types::RoutingError;
use crate::types::TextMessage;
use crate::types::TextMessageStatus;
use crate::types::TextMessageView;

verus! {

/// What processing one inbound packet comes to: the state after it, and the
/// status to announce or the reason for dropping the packet.
pub struct PacketEffect {
    pub state: StateView,
    pub config_complete: bool,
    pub result: Result<Option<Status>, PacketError>,
}

/// The effect of an identity payload from the node `from`: the directory
/// takes the decoded names; a payload that does not decode is dropped.
pub open spec fn nodeinfo_effect(
    state: StateView,
    from: u32,
    decoded: Option<(Seq<char>, Seq<char>)>,
) -> (StateView, Result<Option<Status>, PacketError>) {
    match decoded {
        Some((short_name, long_name)) => (
            StateView { nodes: state.nodes.insert(from, NodeNames { short_name, long_name }), ..state },
            Ok(None),
        ),
        None => (state, Err(PacketError::Malformed)),
    }
}

/// The text that a payload holds: what its bytes encode as UTF-8, if they
/// are well-formed.
pub open spec fn payload_text(payload: Seq<u8>) -> Option<Seq<char>> {
    if valid_utf8(payload) {
        Some(decode_utf8(payload))
    } else {
        None
    }
}

/// The effect of a text payload in the mesh packet `id`: a received message
/// is tracked under `id` and announced; a payload that is no text is
/// dropped.
pub open spec fn text_effect(
    state: StateView,
    id: u32,
    from: u32,
    to: u32,
    text: Option<Seq<char>>,
    pk_hash: Seq<u8>,
) -> (StateView, Result<Option<Status>, PacketError>) {
    match text {
        Some(text) => (
            StateView {
                messages: state.messages.insert(
                    id,
                    TextMessageView { from, to, text, status: TextMessageStatus::Recieved, pk_hash },
                ),
                ..state
            },
            Ok(Some(Status::NewMessage(id))),
        ),
        None => (state, Err(PacketError::InvalidText)),
    }
}

/// The delivery status that a routing envelope with a defined reason reports
/// for the message it answers: an error where the reason is one; an implicit
/// acknowledgement where the packet comes from its own destination with the
/// acknowledgement priority; an explicit one where sender and destination
/// differ; nothing otherwise.
pub open spec fn routing_verdict(from: u32, to: u32, priority: i32, reason: i32) -> Option<
    TextMessageStatus,
> {
    if reason != ROUTING_NONE {
        Some(TextMessageStatus::RoutingError(RoutingError::with_code(reason)))
    } else if from == to && priority == PRIORITY_ACK {
        Some(TextMessageStatus::ImplicitAck)
    } else if from != to {
        Some(TextMessageStatus::ExplicitAck)
    } else {
        None
    }
}

/// The effect of a routing payload that answers the packet `request_id`.
/// Only a tracked message that still awaits its verdict changes, only in its
/// status, and only where the envelope gives one, so that a status once set
/// is final. An identifier that is not tracked is passed over in silence. A
/// payload that does not decode, or that names an undefined reason, is
/// dropped.
pub open spec fn routing_effect(
    state: StateView,
    from: u32,
    to: u32,
    priority: i32,
    request_id: u32,
    decoded: Option<Option<i32>>,
) -> (StateView, Result<Option<Status>, PacketError>) {
    match decoded {
        None => (state, Err(PacketError::Malformed)),
        Some(None) => (state, Ok(None)),
        Some(Some(reason)) => {
            if reason != ROUTING_NONE && !known_routing_error(reason) {
                (state, Err(PacketError::UnknownRoutingError(reason)))
            } else {
                match routing_verdict(from, to, priority, reason) {
                    Some(status) if awaits_verdict(state, request_id) => (
                        with_status(state, request_id, status),
                        Ok(Some(Status::UpdatedMessage(request_id))),
                    ),
                    _ => (state, Ok(None)),
                }
            }
        },
    }
}

/// The effect of a mesh packet: decided by the application that its decoded
/// payload belongs to. Encrypted and empty packets, and applications other
/// than identity, text and routing, change nothing.
pub open spec fn mesh_packet_effect(state: StateView, packet: MeshPacket) -> (
    StateView,
    Result<Option<Status>, PacketError>,
) {
    match packet.payload_variant {
        Some(MeshPayload::Decoded(data)) => match port_kind_of(data.portnum) {
            PortKind::NodeInfo => nodeinfo_effect(state, packet.from, decoded_user(data.payload@)),
            PortKind::TextMessage => text_effect(
                state,
                packet.id,
                packet.from,
                packet.to,
                payload_text(data.payload@),
                sha256_digest(packet.public_key@),
            ),
            PortKind::Routing => routing_effect(
                state,
                packet.from,
                packet.to,
                packet.priority,
                data.request_id,
                decoded_routing(data.payload@),
            ),
            PortKind::Other => (state, Ok(None)),
        },
        _ => (state, Ok(None)),
    }
}

/// The effect of one packet from the radio.
pub open spec fn packet_effect(state: StateView, config_complete: bool, packet: FromRadio) -> PacketEffect {
    match packet.payload_variant {
        None => PacketEffect { state, config_complete, result: Err(PacketError::NoPayload) },
        Some(PayloadVariant::MyInfo(info)) => PacketEffect {
            state: with_identity(state, info.my_node_num),
            config_complete,
            result: Ok(None),
        },
        Some(PayloadVariant::NodeInfo(info)) => match info.user {
            Some(record) => PacketEffect {
                state: StateView { nodes: state.nodes.insert(info.num, record@), ..state },
                config_complete,
                result: Ok(None),
            },
            None => PacketEffect { state, config_complete, result: Ok(None) },
        },
        Some(PayloadVariant::ConfigCompleteId(_)) => PacketEffect {
            state,
            config_complete: true,
            result: Ok(None),
        },
        Some(PayloadVariant::Packet(mesh_packet)) => {
            let (next, result) = mesh_packet_effect(state, mesh_packet);
            PacketEffect { state: next, config_complete, result }
        },
        Some(PayloadVariant::Other(_)) => PacketEffect { state, config_complete, result: Ok(None) },
    }
}

/// What a decoder made of an identity payload, as the effect takes it.
pub open spec fn user_outcome(decoded: Result<NodeRecord, DecodeError>) -> Option<
    (Seq<char>, Seq<char>),
> {
    match decoded {
        Ok(record) => Some((record.short_name@, record.long_name@)),
        Err(_) => None,
    }
}

/// What a UTF-8 decoder made of a text payload, as the effect takes it.
pub open spec fn text_outcome(text: Result<String, FromUtf8Error>) -> Option<Seq<char>> {
    match text {
        Ok(text) => Some(text@),
        Err(_) => None,
    }
}

/// What a decoder made of a routing payload, as the effect takes it.
pub open spec fn routing_outcome(decoded: Result<Option<i32>, DecodeError>) -> Option<Option<i32>> {
    match decoded {
        Ok(reason) => Some(reason),
        Err(_) => None,
    }
}

impl HandlerState {
    /// Takes what a decoder made of an identity payload from the node
    /// `from`.
    pub fn apply_nodeinfo(&mut self, from: u32, decoded: Result<NodeRecord, DecodeError>) -> (result:
        Result<Option<Status>, PacketError>)
        ensures
            (final(self)@, result) == nodeinfo_effect(old(self)@, from, user_outcome(decoded)),
            final(self).created() == old(self).created(),
    {
        match decoded {
            Ok(record) => {
                self.insert_node(from, record);
                Ok(None)
            },
            Err(_) => Err(PacketError::Malformed),
        }
    }

    /// Takes the text of the mesh packet `id`, as a UTF-8 decoder made it of
    /// the payload, and the hash of the sender's public key.
    pub fn apply_textmessage(
        &mut self,
        id: u32,
        from: u32,
        to: u32,
        text: Result<String, FromUtf8Error>,
        pk_hash: [u8; 32],
    ) -> (result: Result<Option<Status>, PacketError>)
        ensures
            (final(self)@, result) == text_effect(
                old(self)@,
                id,
                from,
                to,
                text_outcome(text),
                pk_hash@,
            ),
            result is Err ==> final(self).created() == old(self).created(),
            result is Ok ==> final(self).created().contains_key(id),
            final(self).created().remove(id) == old(self).created().remove(id),
    {
        match text {
            Ok(text) => {
                self.insert_message(id, TextMessage::recieved(from, to, text, pk_hash));
                Ok(Some(Status::NewMessage(id)))
            },
            Err(_) => Err(PacketError::InvalidText),
        }
    }

    /// Takes what a decoder made of the routing payload of a mesh packet
    /// that answers the packet `request_id`.
    pub fn apply_routing(
        &mut self,
        from: u32,
        to: u32,
        priority: i32,
        request_id: u32,
        decoded: Result<Option<i32>, DecodeError>,
    ) -> (result: Result<Option<Status>, PacketError>)
        ensures
            (final(self)@, result) == routing_effect(
                old(self)@,
                from,
                to,
                priority,
                request_id,
                routing_outcome(decoded),
            ),
            final(self).created() == old(self).created(),
    {
        let reason = match decoded {
            Ok(Some(reason)) => reason,
            Ok(None) => {
                return Ok(None);
            },
            Err(_) => {
                return Err(PacketError::Malformed);
            },
        };
        let mut status: Option<TextMessageStatus> = None;
        if reason != no_routing_error() {
            match RoutingError::from_code(reason) {
                Some(error) => {
                    status = Some(TextMessageStatus::RoutingError(error));
                },
                None => {
                    return Err(PacketError::UnknownRoutingError(reason));
                },
            }
        } else if from == to && priority == ack_priority() {
            status = Some(TextMessageStatus::ImplicitAck);
        } else if from != to {
            status = Some(TextMessageStatus::ExplicitAck);
        }
        assert(status == routing_verdict(from, to, priority, reason));
        match status {
            Some(status) => {
                if self.set_status(request_id, status) {
                    Ok(Some(Status::UpdatedMessage(request_id)))
                } else {
                    Ok(None)
                }
            },
            None => Ok(None),
        }
    }
}

} // verus!
