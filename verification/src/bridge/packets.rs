//! The packets of the radio as the bridge sees them.

use vstd::prelude::*;
use vstd::std_specs::convert::FromSpecImpl;
use vstd::string::StringExecFns;
use vstd::utf8::decode_utf8;
use vstd::utf8::valid_utf8;

use crate::codec::decode_user;
use crate::codec::decoded_user;
use crate::codec::port_kind;
use crate::codec::port_kind_of;
use crate::codec::port_label;
use crate::codec::port_name;
use crate::codec::PortKind;
use crate::packet::Data;
use crate::packet::FromRadio;
use crate::packet::MeshPayload;
use crate::packet::MyNodeInfo;
use crate::packet::PayloadVariant;
use crate::text::cut;
use crate::text::signed_decimal;
use crate::text::to_signed_decimal;
use crate::text::truncate;
use crate::types::NodeNames;
use crate::types::NodeRecord;

verus! {

/// Number of characters that the bridge keeps of a payload it has no use
/// for.
pub const OTHER_WIDTH: usize = 20;

/// A packet of the radio, sorted by what the bridge does with it.
#[derive(Debug)]
pub enum IncomingPacket {
    /// The radio's own identity.
    MyInfo(MyNodeInfo),
    /// A routing payload, as it came.
    RoutingApp(Data),
    /// The names of a node.
    NodeInfo(u32, NodeRecord),
    /// A text from one node to another, or to all.
    TextMessage { from: u32, to: u32, msg: String },
    /// Anything else, with a short note of what it was.
    Other(String),
}

/// Mathematical value of an [`IncomingPacket`].
pub enum IncomingView {
    MyInfo(MyNodeInfo),
    RoutingApp(Data),
    NodeInfo(u32, NodeNames),
    TextMessage { from: u32, to: u32, msg: Seq<char> },
    Other(Seq<char>),
}

impl View for IncomingPacket {
    type V = IncomingView;

    open spec fn view(&self) -> IncomingView {
        match *self {
            IncomingPacket::MyInfo(info) => IncomingView::MyInfo(info),
            IncomingPacket::RoutingApp(data) => IncomingView::RoutingApp(data),
            IncomingPacket::NodeInfo(id, record) => IncomingView::NodeInfo(id, record@),
            IncomingPacket::TextMessage { from, to, msg } => IncomingView::TextMessage {
                from,
                to,
                msg: msg@,
            },
            IncomingPacket::Other(note) => IncomingView::Other(note@),
        }
    }
}

/// How the bridge sorts a decoded payload of the mesh packet from `from` to
/// `to`. A text that is no UTF-8 is replaced by a note; an identity that
/// does not decode and every other application become `Other`, with the
/// protocol's name of the application where it has one.
pub open spec fn sorted_data(from: u32, to: u32, data: Data) -> IncomingView {
    match port_kind_of(data.portnum) {
        PortKind::Routing => IncomingView::RoutingApp(data),
        PortKind::TextMessage => IncomingView::TextMessage {
            from,
            to,
            msg: if valid_utf8(data.payload@) {
                decode_utf8(data.payload@)
            } else {
                "Non-utf8 msg"@
            },
        },
        PortKind::NodeInfo => match decoded_user(data.payload@) {
            Some((short_name, long_name)) => IncomingView::NodeInfo(
                from,
                NodeNames { short_name, long_name },
            ),
            None => IncomingView::Other("NodeInfo without user"@),
        },
        PortKind::Other => match port_label(data.portnum) {
            Some(label) => IncomingView::Other(label),
            None => IncomingView::Other("Unknown portnum "@ + signed_decimal(data.portnum as int)),
        },
    }
}

/// How the bridge sorts a packet of the radio.
pub open spec fn sorted(from_radio: FromRadio) -> IncomingView {
    match from_radio.payload_variant {
        None => IncomingView::Other("No payload"@),
        Some(PayloadVariant::MyInfo(info)) => IncomingView::MyInfo(info),
        Some(PayloadVariant::NodeInfo(info)) => match info.user {
            Some(record) => IncomingView::NodeInfo(info.num, record@),
            None => IncomingView::Other("NodeInfo without user"@),
        },
        Some(PayloadVariant::Packet(mesh_packet)) => match mesh_packet.payload_variant {
            None => IncomingView::Other("Packet without content"@),
            Some(MeshPayload::Encrypted) => IncomingView::Other("Ciphered Mesh Packet"@),
            Some(MeshPayload::Decoded(data)) => sorted_data(mesh_packet.from, mesh_packet.to, data),
        },
        Some(PayloadVariant::ConfigCompleteId(id)) => IncomingView::Other(
            cut("ConfigCompleteId("@ + signed_decimal(id as int) + ")"@, OTHER_WIDTH as nat),
        ),
        Some(PayloadVariant::Other(words)) => IncomingView::Other(cut(words@, OTHER_WIDTH as nat)),
    }
}

impl IncomingPacket {
    /// Sorts a decoded payload of the mesh packet from `from` to `to`.
    pub fn from_data(from: u32, to: u32, data: Data) -> (incoming: Self)
        ensures
            incoming@ == sorted_data(from, to, data),
    {
        match port_kind(data.portnum) {
            PortKind::Routing => IncomingPacket::RoutingApp(data),
            PortKind::TextMessage => {
                let bytes = data.payload.clone();
                assert(bytes@ =~= data.payload@);
                let msg = match String::from_utf8(bytes) {
                    Ok(msg) => msg,
                    Err(_) => String::from_str("Non-utf8 msg"),
                };
                IncomingPacket::TextMessage { from, to, msg }
            },
            PortKind::NodeInfo => match decode_user(data.payload.as_slice()) {
                Ok(user) => IncomingPacket::NodeInfo(from, user),
                Err(_) => IncomingPacket::Other(String::from_str("NodeInfo without user")),
            },
            PortKind::Other => match port_name(data.portnum) {
                Some(name) => IncomingPacket::Other(name),
                None => {
                    let mut note = String::from_str("Unknown portnum ");
                    let number = to_signed_decimal(data.portnum as i64);
                    note.append(number.as_str());
                    IncomingPacket::Other(note)
                },
            },
        }
    }
}

impl From<FromRadio> for IncomingPacket {
    fn from(from_radio: FromRadio) -> (incoming: Self)
        ensures
            incoming@ == sorted(from_radio),
    {
        match from_radio.payload_variant {
            None => IncomingPacket::Other(String::from_str("No payload")),
            Some(PayloadVariant::MyInfo(info)) => IncomingPacket::MyInfo(info),
            Some(PayloadVariant::NodeInfo(info)) => match info.user {
                Some(record) => IncomingPacket::NodeInfo(info.num, record),
                None => IncomingPacket::Other(String::from_str("NodeInfo without user")),
            },
            Some(PayloadVariant::Packet(mesh_packet)) => match mesh_packet.payload_variant {
                None => IncomingPacket::Other(String::from_str("Packet without content")),
                Some(MeshPayload::Encrypted) => IncomingPacket::Other(
                    String::from_str("Ciphered Mesh Packet"),
                ),
                Some(MeshPayload::Decoded(data)) => IncomingPacket::from_data(
                    mesh_packet.from,
                    mesh_packet.to,
                    data,
                ),
            },
            Some(PayloadVariant::ConfigCompleteId(id)) => {
                let mut words = String::from_str("ConfigCompleteId(");
                let number = to_signed_decimal(id as i64);
                words.append(number.as_str());
                words.append(")");
                IncomingPacket::Other(truncate(words, OTHER_WIDTH))
            },
            Some(PayloadVariant::Other(words)) => IncomingPacket::Other(
                truncate(words, OTHER_WIDTH),
            ),
        }
    }
}

impl FromSpecImpl<FromRadio> for IncomingPacket {
    /// What the conversion yields is stated by the contract of `from`.
    open spec fn obeys_from_spec() -> bool {
        false
    }

    open spec fn from_spec(from_radio: FromRadio) -> Self {
        arbitrary()
    }
}

} // verus!
