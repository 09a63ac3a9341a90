//! Plain data of the mesh connection: node records, tracked text messages,
//! delivery statuses and destinations.

use std::time::Instant;
use vstd::prelude::*;
use vstd::std_specs::convert::FromSpecImpl;

use crate::codec::is_routing_error_code;
use crate::codec::known_routing_error;
use crate::codec::now;
use crate::codec::routing_error_debug;
use crate::codec::routing_error_label;

verus! {

/// Destination value that addresses every node of the mesh.
pub const BROADCAST: u32 = 0xffff_ffff;

/// Display names of a peer node.
#[derive(Debug, PartialEq, Eq)]
pub struct NodeRecord {
    pub short_name: String,
    pub long_name: String,
}

/// Mathematical value of a [`NodeRecord`].
pub struct NodeNames {
    pub short_name: Seq<char>,
    pub long_name: Seq<char>,
}

impl View for NodeRecord {
    type V = NodeNames;

    open spec fn view(&self) -> NodeNames {
        NodeNames { short_name: self.short_name@, long_name: self.long_name@ }
    }
}

impl Clone for NodeRecord {
    fn clone(&self) -> (copy: Self)
        ensures
            copy == *self,
    {
        NodeRecord { short_name: self.short_name.clone(), long_name: self.long_name.clone() }
    }
}

/// Reason the mesh gave for failing to deliver a packet: one of the reason
/// codes that the radio protocol defines.
#[derive(Clone, Copy, Debug, PartialEq, Eq)]
pub struct RoutingError {
    code: i32,
}

impl RoutingError {
    #[verifier::type_invariant]
    spec fn known(self) -> bool {
        known_routing_error(self.code)
    }

    /// The protocol's number for this reason.
    pub closed spec fn code_spec(self) -> i32 {
        self.code
    }

    /// The reason that carries the given protocol number.
    pub closed spec fn with_code(code: i32) -> Self {
        RoutingError { code }
    }

    /// The reason made for a number carries that number.
    pub proof fn lemma_code_of_with_code(code: i32)
        ensures
            Self::with_code(code).code_spec() == code,
    {
    }

    /// The reason with the given protocol number, if the protocol defines
    /// that number.
    pub fn from_code(code: i32) -> (reason: Option<Self>)
        ensures
            reason == if known_routing_error(code) {
                Some(Self::with_code(code))
            } else {
                None
            },
            reason matches Some(r) ==> r.code_spec() == code,
    {
        if is_routing_error_code(code) {
            Some(RoutingError { code })
        } else {
            None
        }
    }

    #[verifier::when_used_as_spec(code_spec)]
    pub fn code(self) -> (code: i32)
        ensures
            code == self.code_spec(),
            known_routing_error(code),
    {
        proof {
            use_type_invariant(&self);
        }
        self.code
    }

    /// The protocol's name for this reason.
    pub fn name(self) -> (name: String)
        ensures
            name@ == routing_error_label(self.code_spec()),
    {
        proof {
            use_type_invariant(&self);
        }
        routing_error_debug(self.code)
    }
}

/// Delivery status of a tracked text message.
#[derive(Clone, Copy, Debug, PartialEq, Eq)]
pub enum TextMessageStatus {
    Sent,
    Recieved,
    ImplicitAck,
    ExplicitAck,
    RoutingError(RoutingError),
}

/// A text message that the connection tracks, outbound or inbound.
#[derive(Debug)]
pub struct TextMessage {
    pub ts: Instant,
    pub from: u32,
    pub to: u32,
    pub text: String,
    pub status: TextMessageStatus,
    pub pk_hash: [u8; 32],
}

/// Mathematical value of a [`TextMessage`]: everything but the moment it was
/// created.
pub struct TextMessageView {
    pub from: u32,
    pub to: u32,
    pub text: Seq<char>,
    pub status: TextMessageStatus,
    pub pk_hash: Seq<u8>,
}

impl View for TextMessage {
    type V = TextMessageView;

    open spec fn view(&self) -> TextMessageView {
        TextMessageView {
            from: self.from,
            to: self.to,
            text: self.text@,
            status: self.status,
            pk_hash: self.pk_hash@,
        }
    }
}

impl Clone for TextMessage {
    fn clone(&self) -> (copy: Self)
        ensures
            copy == *self,
    {
        TextMessage {
            ts: self.ts,
            from: self.from,
            to: self.to,
            text: self.text.clone(),
            status: self.status,
            pk_hash: self.pk_hash,
        }
    }
}

impl TextMessage {
    /// A new outbound message, not yet acknowledged.
    pub fn sent(from: u32, to: u32, text: String) -> (msg: Self)
        ensures
            msg@ == (TextMessageView {
                from,
                to,
                text: text@,
                status: TextMessageStatus::Sent,
                pk_hash: Seq::new(32, |i: int| 0u8),
            }),
    {
        let msg = TextMessage {
            ts: now(),
            from,
            to,
            text,
            pk_hash: [0;32],
            status: TextMessageStatus::Sent,
        };
        assert(msg.pk_hash@ =~= Seq::new(32, |i: int| 0u8));
        msg
    }

    /// A message that arrived from the mesh, with the hash of its sender's
    /// public key.
    pub fn recieved(from: u32, to: u32, text: String, pk_hash: [u8; 32]) -> (msg: Self)
        ensures
            msg@ == (TextMessageView {
                from,
                to,
                text: text@,
                status: TextMessageStatus::Recieved,
                pk_hash: pk_hash@,
            }),
    {
        TextMessage { ts: now(), from, to, text, pk_hash, status: TextMessageStatus::Recieved }
    }
}

/// Where an outbound text goes.
#[derive(Debug, PartialEq, Eq)]
pub enum Destination {
    ShortName(String),
    Node(u32),
    Broadcast,
}

impl Clone for Destination {
    fn clone(&self) -> (copy: Self)
        ensures
            copy == *self,
    {
        match self {
            Destination::ShortName(name) => Destination::ShortName(name.clone()),
            Destination::Node(id) => Destination::Node(*id),
            Destination::Broadcast => Destination::Broadcast,
        }
    }
}

impl From<String> for Destination {
    fn from(short_name: String) -> (dest: Self) {
        Destination::ShortName(short_name)
    }
}

impl FromSpecImpl<String> for Destination {
    open spec fn obeys_from_spec() -> bool {
        true
    }

    open spec fn from_spec(short_name: String) -> Self {
        Destination::ShortName(short_name)
    }
}

impl<'a> From<&'a str> for Destination {
    fn from(short_name: &'a str) -> (dest: Self)
        ensures
            dest matches Destination::ShortName(name) && name@ == short_name@,
    {
        Destination::ShortName(short_name.to_owned())
    }
}

impl<'a> FromSpecImpl<&'a str> for Destination {
    /// What the conversion yields is stated by the contract of `from`.
    open spec fn obeys_from_spec() -> bool {
        false
    }

    open spec fn from_spec(short_name: &'a str) -> Self {
        arbitrary()
    }
}

impl From<u32> for Destination {
    fn from(id: u32) -> (dest: Self) {
        Destination::Node(id)
    }
}

impl FromSpecImpl<u32> for Destination {
    open spec fn obeys_from_spec() -> bool {
        true
    }

    open spec fn from_spec(id: u32) -> Self {
        Destination::Node(id)
    }
}

} // verus!
