//! What the core reads of a packet that the radio hands up, as plain values.

use vstd::prelude::*;

use crate::types::NodeRecord;

verus! {

/// The radio's own identity.
#[derive(Clone, Copy, Debug, PartialEq, Eq, Structural)]
pub struct MyNodeInfo {
    pub my_node_num: u32,
}

/// An entry of the radio's node database.
#[derive(Clone, Debug, PartialEq, Eq)]
pub struct NodeInfo {
    pub num: u32,
    pub user: Option<NodeRecord>,
}

/// The application payload of a mesh packet that the radio could decrypt.
#[derive(Clone, Debug, PartialEq, Eq)]
pub struct Data {
    pub portnum: i32,
    pub payload: Vec<u8>,
    pub request_id: u32,
}

/// Payload of a mesh packet.
#[derive(Clone, Debug, PartialEq, Eq)]
pub enum MeshPayload {
    Decoded(Data),
    Encrypted,
}

/// A packet that travelled over the mesh.
#[derive(Clone, Debug, PartialEq, Eq)]
pub struct MeshPacket {
    pub from: u32,
    pub to: u32,
    pub id: u32,
    pub priority: i32,
    pub public_key: Vec<u8>,
    pub payload_variant: Option<MeshPayload>,
}

/// What a packet from the radio carries.
#[derive(Clone, Debug, PartialEq, Eq)]
pub enum PayloadVariant {
    MyInfo(MyNodeInfo),
    NodeInfo(NodeInfo),
    ConfigCompleteId(u32),
    Packet(MeshPacket),
    /// Anything else, in the words of the radio protocol's debugging output.
    Other(String),
}

/// One packet from the radio.
#[derive(Clone, Debug, PartialEq, Eq)]
pub struct FromRadio {
    pub payload_variant: Option<PayloadVariant>,
}

} // verus!
