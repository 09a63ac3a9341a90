//! The calls that the library makes into the radio protocol's codec, the
//! hash function, the hexadecimal encoder and the clock. Nothing in this file
//! is proved: each contract is taken from the documentation or the source of
//! the function that it describes.

use meshtastic::protobufs::mesh_packet::Priority;
use meshtastic::protobufs::routing;
use meshtastic::protobufs::PortNum;
use meshtastic::protobufs::Routing;
use meshtastic::protobufs::User;
use meshtastic::Message;
use prost::DecodeError;
use sha2::Digest;
use sha2::Sha256;
use std::string::FromUtf8Error;
use std::time::Instant;
use vstd::prelude::*;
use vstd::utf8::decode_utf8;
use vstd::utf8::valid_utf8;

use crate::types::NodeRecord;

verus! {

/// A moment of the monotonic clock. Nothing is known of its value.
#[verifier::external_type_specification]
#[verifier::external_body]
pub struct ExInstant(Instant);

/// Why a protocol buffer could not be decoded.
#[verifier::external_type_specification]
#[verifier::external_body]
pub struct ExDecodeError(DecodeError);

/// Why a byte vector is no UTF-8 text.
#[verifier::external_type_specification]
#[verifier::external_body]
pub struct ExFromUtf8Error(FromUtf8Error);

/// `Instant::now`: the current moment. It differs from call to call, so the
/// contract promises nothing.
#[verifier::external_body]
pub(crate) fn now() -> (t: Instant) {
    Instant::now()
}

/// `String::from_utf8` succeeds exactly on well-formed UTF-8 and then yields
/// the text that the bytes encode.
pub assume_specification[ String::from_utf8 ](vec: Vec<u8>) -> (r: Result<String, FromUtf8Error>)
    ensures
        r is Ok <==> valid_utf8(vec@),
        r matches Ok(s) ==> s@ == decode_utf8(vec@),
;

/// The application kinds of a decoded mesh packet that the core acts on.
#[derive(Clone, Copy, Debug, PartialEq, Eq, Structural)]
pub enum PortKind {
    TextMessage,
    NodeInfo,
    Routing,
    Other,
}

/// The kind that the protocol assigns to a port number: 1 is the text
/// message application, 4 the node information application, 5 the routing
/// application.
pub open spec fn port_kind_of(portnum: i32) -> PortKind {
    if portnum == 1 {
        PortKind::TextMessage
    } else if portnum == 4 {
        PortKind::NodeInfo
    } else if portnum == 5 {
        PortKind::Routing
    } else {
        PortKind::Other
    }
}

/// `PortNum::try_from` maps a number to the protocol's port enumeration; the
/// three ports that the core handles carry the numbers 1, 4 and 5 there, and
/// every other number, defined or not, is reported as `Other`.
#[verifier::external_body]
pub(crate) fn port_kind(portnum: i32) -> (kind: PortKind)
    ensures
        kind == port_kind_of(portnum),
{
    match PortNum::try_from(portnum) {
        Ok(PortNum::TextMessageApp) => PortKind::TextMessage,
        Ok(PortNum::NodeinfoApp) => PortKind::NodeInfo,
        Ok(PortNum::RoutingApp) => PortKind::Routing,
        _ => PortKind::Other,
    }
}

/// The identifier under which the protocol's enumeration lists a port
/// number; `None` for a number that it does not define.
pub uninterp spec fn port_label(portnum: i32) -> Option<Seq<char>>;

/// `PortNum::try_from` finds the port with a number, and the `Debug` form of
/// a `PortNum` is the identifier of its variant. The result depends on the
/// number alone.
#[verifier::external_body]
pub(crate) fn port_name(portnum: i32) -> (name: Option<String>)
    ensures
        name is Some <==> port_label(portnum) is Some,
        name matches Some(n) ==> port_label(portnum) == Some(n@),
{
    match PortNum::try_from(portnum) {
        Ok(port) => Some(format!("{:?}", port)),
        Err(_) => None,
    }
}

/// The display names in the `User` message that a payload encodes, short
/// name first; `None` where the payload is no well-formed `User` message.
pub uninterp spec fn decoded_user(payload: Seq<u8>) -> Option<(Seq<char>, Seq<char>)>;

/// `User::decode` parses a payload as a `User` protocol buffer. The result
/// depends on the bytes alone; of the decoded message the two display names
/// are kept.
#[verifier::external_body]
pub(crate) fn decode_user(payload: &[u8]) -> (r: Result<NodeRecord, DecodeError>)
    ensures
        r is Ok <==> decoded_user(payload@) is Some,
        r matches Ok(record) ==> decoded_user(payload@) == Some(
            (record.short_name@, record.long_name@),
        ),
{
    match User::decode(payload) {
        Ok(user) => Ok(NodeRecord { short_name: user.short_name, long_name: user.long_name }),
        Err(e) => Err(e),
    }
}

/// The error reason in the `Routing` message that a payload encodes: the
/// outer `None` where the payload is no well-formed `Routing` message, the
/// inner `None` where the message carries a route request, a route reply or
/// nothing instead of a reason.
pub uninterp spec fn decoded_routing(payload: Seq<u8>) -> Option<Option<i32>>;

/// `Routing::decode` parses a payload as a `Routing` protocol buffer. The
/// result depends on the bytes alone; of the decoded message the number of
/// the error reason is kept.
#[verifier::external_body]
pub(crate) fn decode_routing(payload: &[u8]) -> (r: Result<Option<i32>, DecodeError>)
    ensures
        r is Ok <==> decoded_routing(payload@) is Some,
        r matches Ok(reason) ==> decoded_routing(payload@) == Some(reason),
{
    match Routing::decode(payload) {
        Ok(Routing { variant: Some(routing::Variant::ErrorReason(code)) }) => Ok(Some(code)),
        Ok(Routing { variant: Some(routing::Variant::RouteRequest(_)) }) => Ok(None),
        Ok(Routing { variant: Some(routing::Variant::RouteReply(_)) }) => Ok(None),
        Ok(Routing { variant: None }) => Ok(None),
        Err(e) => Err(e),
    }
}

/// The number of the priority that marks an acknowledgement.
pub const PRIORITY_ACK: i32 = 120;

/// The number of the routing reason that reports no error.
pub const ROUTING_NONE: i32 = 0;

/// `Priority::Ack` carries the number 120 in the protocol's enumeration of
/// priorities.
#[verifier::external_body]
pub(crate) fn ack_priority() -> (priority: i32)
    ensures
        priority == PRIORITY_ACK,
{
    Priority::Ack as i32
}

/// `routing::Error::None` carries the number 0 in the protocol's enumeration
/// of routing reasons.
#[verifier::external_body]
pub(crate) fn no_routing_error() -> (code: i32)
    ensures
        code == ROUTING_NONE,
{
    routing::Error::None as i32
}

/// The numbers that the protocol defines as routing error reasons: 0 to 9
/// and 32 to 39.
pub open spec fn known_routing_error(code: i32) -> bool {
    0 <= code <= 9 || 32 <= code <= 39
}

/// `routing::Error::try_from` accepts exactly the numbers that the
/// enumeration defines.
#[verifier::external_body]
pub(crate) fn is_routing_error_code(code: i32) -> (known: bool)
    ensures
        known == known_routing_error(code),
{
    routing::Error::try_from(code).is_ok()
}

/// The identifier under which the protocol's enumeration lists a routing
/// error reason; empty for a number that it does not define.
pub open spec fn routing_error_label(code: i32) -> Seq<char> {
    if code == 0 {
        "None"@
    } else if code == 1 {
        "NoRoute"@
    } else if code == 2 {
        "GotNak"@
    } else if code == 3 {
        "Timeout"@
    } else if code == 4 {
        "NoInterface"@
    } else if code == 5 {
        "MaxRetransmit"@
    } else if code == 6 {
        "NoChannel"@
    } else if code == 7 {
        "TooLarge"@
    } else if code == 8 {
        "NoResponse"@
    } else if code == 9 {
        "DutyCycleLimit"@
    } else if code == 32 {
        "BadRequest"@
    } else if code == 33 {
        "NotAuthorized"@
    } else if code == 34 {
        "PkiFailed"@
    } else if code == 35 {
        "PkiUnknownPubkey"@
    } else if code == 36 {
        "AdminBadSessionKey"@
    } else if code == 37 {
        "AdminPublicKeyUnauthorized"@
    } else if code == 38 {
        "RateLimitExceeded"@
    } else if code == 39 {
        "PkiSendFailPublicKey"@
    } else {
        Seq::empty()
    }
}

/// `routing::Error::try_from` finds the reason with a number, and the `Debug`
/// form of a `routing::Error` is the identifier of its variant. A number that
/// the enumeration does not define gives the empty text.
#[verifier::external_body]
pub(crate) fn routing_error_debug(code: i32) -> (label: String)
    ensures
        label@ == routing_error_label(code),
{
    match routing::Error::try_from(code) {
        Ok(reason) => format!("{:?}", reason),
        Err(_) => String::new(),
    }
}

/// The character that writes a digit of base sixteen, in lower case.
pub open spec fn hex_digit(d: nat) -> char {
    if d == 0 {
        '0'
    } else if d == 1 {
        '1'
    } else if d == 2 {
        '2'
    } else if d == 3 {
        '3'
    } else if d == 4 {
        '4'
    } else if d == 5 {
        '5'
    } else if d == 6 {
        '6'
    } else if d == 7 {
        '7'
    } else if d == 8 {
        '8'
    } else if d == 9 {
        '9'
    } else if d == 10 {
        'a'
    } else if d == 11 {
        'b'
    } else if d == 12 {
        'c'
    } else if d == 13 {
        'd'
    } else if d == 14 {
        'e'
    } else {
        'f'
    }
}

/// Bytes written in base sixteen: two digits for each byte, the high one
/// first, in lower case.
pub open spec fn hex_lower(data: Seq<u8>) -> Seq<char>
    decreases data.len(),
{
    if data.len() == 0 {
        Seq::empty()
    } else {
        hex_lower(data.drop_last()) + seq![
            hex_digit((data.last() / 16) as nat),
            hex_digit((data.last() % 16) as nat),
        ]
    }
}

/// `hex::encode` writes each byte as two digits of base sixteen, in lower
/// case.
#[verifier::external_body]
pub(crate) fn hex_encode(data: &[u8]) -> (text: String)
    ensures
        text@ == hex_lower(data@),
{
    hex::encode(data)
}

/// The SHA-256 digest of a byte string, 32 bytes long.
pub uninterp spec fn sha256_digest(data: Seq<u8>) -> Seq<u8>;

/// `Sha256::digest` computes the SHA-256 digest of its input, which depends
/// on the bytes alone.
#[verifier::external_body]
pub(crate) fn sha256(data: &[u8]) -> (digest: [u8; 32])
    ensures
        digest@ == sha256_digest(data@),
{
    Sha256::digest(data).into()
}

} // verus!
