use meshboard::events::Status;
use meshboard::handler::BootError;
use meshboard::handler::BootEvent;
use meshboard::handler::Handler;
use meshboard::handler::SendTextError;
use meshboard::packet::FromRadio;
use meshboard::packet::MyNodeInfo;
use meshboard::router::Router;
use meshboard::state::status_mark;
use meshboard::state::HandlerState;
use meshboard::text::to_decimal;
use meshboard::types::Destination;
use meshboard::types::NodeRecord;
use meshboard::types::RoutingError;
use meshboard::types::TextMessage;
use meshboard::types::TextMessageStatus;
use meshboard::types::BROADCAST;
use meshtastic::protobufs::routing;

fn record(short_name: &str, long_name: &str) -> NodeRecord {
    NodeRecord { short_name: short_name.to_string(), long_name: long_name.to_string() }
}

/// Node 1 is this radio; nodes 1 and 2 are in the directory.
fn state() -> HandlerState {
    let mut state = HandlerState::new();
    state.set_identity(MyNodeInfo { my_node_num: 1 });
    state.insert_node(1, record("ME", "Myself"));
    state.insert_node(2, record("AL", "Alice"));
    state
}

fn message(from: u32, to: u32, text: &str, status: TextMessageStatus) -> TextMessage {
    let mut msg = TextMessage::sent(from, to, text.to_string());
    msg.status = status;
    msg
}

#[test]
fn empty_state_knows_nothing() {
    let state = HandlerState::default();
    assert_eq!(state.my_node_info, None);
    assert_eq!(state.get_long_name_by_node_id(1), None);
    assert_eq!(state.get_short_name_by_node_id(1), None);
    assert_eq!(state.get_node_id_by_short_name("ME"), None);
    assert_eq!(state.my_short_name(), None);
    assert!(state.msg(1).is_none());
}

#[test]
fn names_are_looked_up_by_node() {
    let state = state();
    assert_eq!(state.get_long_name_by_node_id(2), Some("Alice".to_string()));
    assert_eq!(state.get_short_name_by_node_id(2), Some("Alice".to_string()));
    assert_eq!(state.get_long_name_by_node_id(3), None);
    assert_eq!(state.get_short_name_by_node_id(3), None);
    assert_eq!(state.my_node_num(), 1);
    assert_eq!(state.my_short_name(), Some("Myself".to_string()));
}

#[test]
fn nodes_are_looked_up_by_short_name() {
    let state = state();
    assert_eq!(state.get_node_id_by_short_name("AL"), Some(2));
    assert_eq!(state.get_node_id_by_short_name("ME"), Some(1));
    assert_eq!(state.get_node_id_by_short_name("Alice"), None);
    assert_eq!(state.get_node_id_by_short_name(""), None);
}

#[test]
fn own_name_needs_a_directory_entry() {
    let mut state = HandlerState::new();
    state.set_identity(MyNodeInfo { my_node_num: 1 });
    assert_eq!(state.my_short_name(), None);
}

#[test]
fn broadcast_line() {
    let state = state();
    let msg = message(7, BROADCAST, "hello", TextMessageStatus::Recieved);
    assert_eq!(state.format_msg(&msg), "💬 NodeId(7) : hello  ");
    let msg = message(2, BROADCAST, "hello", TextMessageStatus::Sent);
    assert_eq!(state.format_msg(&msg), "💬 Alice : hello 📤 ");
}

#[test]
fn line_of_a_message_to_this_radio() {
    let state = state();
    let msg = message(2, 1, "hi", TextMessageStatus::Recieved);
    assert_eq!(state.format_msg(&msg), "👤 Alice : hi ");
    let msg = message(4294967295, 1, "hi", TextMessageStatus::ImplicitAck);
    assert_eq!(state.format_msg(&msg), "👤 NodeId(4294967295) : hi ✔️");
}

#[test]
fn line_of_a_message_to_a_third_node() {
    let state = state();
    let msg = message(1, 2, "hi", TextMessageStatus::ExplicitAck);
    assert_eq!(state.format_msg(&msg), "📩 Myself → Alice : hi ✔️✔️");
    let reason = RoutingError::from_code(routing::Error::NoRoute as i32).unwrap();
    let msg = message(2, 90, "lost", TextMessageStatus::RoutingError(reason));
    assert_eq!(state.format_msg(&msg), "📩 Alice → NodeId(90) : lost ❌ NoRoute");
}

#[test]
fn marks_of_the_delivery_statuses() {
    assert_eq!(status_mark(TextMessageStatus::Sent), "📤");
    assert_eq!(status_mark(TextMessageStatus::Recieved), "");
    assert_eq!(status_mark(TextMessageStatus::ImplicitAck), "✔️");
    assert_eq!(status_mark(TextMessageStatus::ExplicitAck), "✔️✔️");
    let reason = RoutingError::from_code(3).unwrap();
    assert_eq!(status_mark(TextMessageStatus::RoutingError(reason)), "❌ Timeout");
}

#[test]
fn routing_errors_are_the_protocols() {
    let names = [
        (0, "None"),
        (1, "NoRoute"),
        (2, "GotNak"),
        (3, "Timeout"),
        (4, "NoInterface"),
        (5, "MaxRetransmit"),
        (6, "NoChannel"),
        (7, "TooLarge"),
        (8, "NoResponse"),
        (9, "DutyCycleLimit"),
        (32, "BadRequest"),
        (33, "NotAuthorized"),
        (34, "PkiFailed"),
        (35, "PkiUnknownPubkey"),
        (36, "AdminBadSessionKey"),
        (37, "AdminPublicKeyUnauthorized"),
        (38, "RateLimitExceeded"),
        (39, "PkiSendFailPublicKey"),
    ];
    for (code, name) in names {
        let reason = RoutingError::from_code(code).unwrap();
        assert_eq!(reason.code(), code);
        assert_eq!(reason.name(), name);
        let theirs = routing::Error::try_from(code).unwrap();
        assert_eq!(format!("{:?}", theirs), name);
    }
    for code in -5..100 {
        let known = routing::Error::try_from(code).is_ok();
        assert_eq!(RoutingError::from_code(code).is_some(), known);
        assert_eq!(known, (0..=9).contains(&code) || (32..=39).contains(&code));
    }
    assert!(RoutingError::from_code(i32::MAX).is_none());
    assert!(RoutingError::from_code(i32::MIN).is_none());
}

#[test]
fn numbers_in_base_ten() {
    assert_eq!(to_decimal(0), "0");
    assert_eq!(to_decimal(7), "7");
    assert_eq!(to_decimal(10), "10");
    assert_eq!(to_decimal(1234567890), "1234567890");
    assert_eq!(to_decimal(u64::MAX), "18446744073709551615");
}

#[test]
fn status_of_a_tracked_message_is_set() {
    let mut state = state();
    state.insert_message(5, message(1, 2, "a", TextMessageStatus::Sent));
    let created = state.msg(5).unwrap().ts;
    assert!(state.set_status(5, TextMessageStatus::ExplicitAck));
    let msg = state.msg(5).unwrap();
    assert_eq!(msg.status, TextMessageStatus::ExplicitAck);
    assert_eq!(msg.text, "a");
    assert_eq!(msg.ts, created);
    assert!(!state.set_status(5, TextMessageStatus::ImplicitAck));
    assert_eq!(state.msg(5).unwrap().status, TextMessageStatus::ExplicitAck);
    state.insert_message(7, message(1, 2, "b", TextMessageStatus::Recieved));
    assert!(!state.set_status(7, TextMessageStatus::ImplicitAck));
    assert_eq!(state.msg(7).unwrap().status, TextMessageStatus::Recieved);
    assert_eq!(state.messages.len(), 2);
    state.messages.remove(&7);
    assert!(!state.set_status(6, TextMessageStatus::ExplicitAck));
    assert!(state.msg(6).is_none());
    assert_eq!(state.messages.len(), 1);
}

#[test]
fn new_messages_have_their_status() {
    let sent = TextMessage::sent(1, 2, "out".to_string());
    assert_eq!(sent.status, TextMessageStatus::Sent);
    assert_eq!(sent.from, 1);
    assert_eq!(sent.to, 2);
    assert_eq!(sent.text, "out");
    assert_eq!(sent.pk_hash, [0u8; 32]);
    let got = TextMessage::recieved(3, 4, "in".to_string(), [9u8; 32]);
    assert_eq!(got.status, TextMessageStatus::Recieved);
    assert_eq!(got.from, 3);
    assert_eq!(got.to, 4);
    assert_eq!(got.text, "in");
    assert_eq!(got.pk_hash, [9u8; 32]);
    let copy = got.clone();
    assert_eq!(copy.text, "in");
    assert_eq!(copy.ts, got.ts);
}

#[test]
fn destinations_from_plain_values() {
    assert_eq!(Destination::from(42u32), Destination::Node(42));
    assert_eq!(Destination::from("AL"), Destination::ShortName("AL".to_string()));
    assert_eq!(Destination::from("AL".to_string()), Destination::ShortName("AL".to_string()));
    assert_eq!(Destination::Broadcast.clone(), Destination::Broadcast);
}

#[test]
fn send_text_resolves_the_destination() {
    let handler = Handler::new();
    let state = state();
    let msg = handler.send_text(&state, "a".to_string(), Destination::Node(42)).unwrap();
    assert_eq!((msg.from, msg.to), (1, 42));
    let msg = handler.send_text(&state, "b".to_string(), Destination::Broadcast).unwrap();
    assert_eq!((msg.from, msg.to), (1, 0xffff_ffff));
    let msg = handler.send_text(&state, "c".to_string(), Destination::from("AL")).unwrap();
    assert_eq!((msg.from, msg.to), (1, 2));
    assert_eq!(msg.text, "c");
    assert_eq!(msg.status, TextMessageStatus::Sent);
}

#[test]
fn send_text_fails_for_an_unknown_short_name() {
    let handler = Handler::new();
    let state = state();
    let error = handler.send_text(&state, "a".to_string(), Destination::from("ZZ")).unwrap_err();
    assert!(matches!(&error, SendTextError::NodeNotFound(name) if name == "ZZ"));
    assert_eq!(error.message(), "Node 'ZZ' not found");
}

#[test]
fn boot_wait_ends_on_ready() {
    let handler = Handler::new();
    assert_eq!(handler.wait_for_boot_ready(BootEvent::Status(Some(Status::Ready)), 30), Some(Ok(())));
    assert_eq!(handler.wait_for_boot_ready(BootEvent::Status(Some(Status::Heartbeat(0))), 30), None);
    assert_eq!(handler.wait_for_boot_ready(BootEvent::Status(Some(Status::NewMessage(1))), 30), None);
    assert_eq!(
        handler.wait_for_boot_ready(
            BootEvent::Status(Some(Status::FromRadio(FromRadio { payload_variant: None }))),
            30
        ),
        None
    );
}

#[test]
fn boot_wait_fails_on_close_cancel_and_timeout() {
    let handler = Handler::new();
    assert_eq!(
        handler.wait_for_boot_ready(BootEvent::Status(None), 30),
        Some(Err(BootError::ChannelClosed))
    );
    assert_eq!(
        handler.wait_for_boot_ready(BootEvent::Cancelled, 30),
        Some(Err(BootError::Cancelled))
    );
    assert_eq!(handler.wait_for_boot_ready(BootEvent::Elapsed(29), 30), None);
    assert_eq!(
        handler.wait_for_boot_ready(BootEvent::Elapsed(30), 30),
        Some(Err(BootError::Timeout))
    );
    assert_eq!(
        handler.wait_for_boot_ready(BootEvent::Elapsed(31), 30),
        Some(Err(BootError::Timeout))
    );
    assert_eq!(handler.wait_for_boot_ready(BootEvent::Elapsed(0), 0), Some(Err(BootError::Timeout)));
    assert_eq!(BootError::ChannelClosed.message(), "Channel closed");
    assert_eq!(BootError::Cancelled.message(), "Cancelled");
    assert_eq!(BootError::Timeout.message(), "Timeout reached");
}

#[test]
fn finish_waits_for_the_completion_signal() {
    let mut handler = Handler::new();
    assert!(!handler.is_cancelled());
    assert!(!handler.finish(false));
    assert!(handler.is_cancelled());
    assert!(!handler.finish(false));
    assert!(handler.finish(true));
    assert!(handler.finish(false));
    assert!(handler.is_cancelled());
}

#[test]
fn router_hands_the_identifier_out_once() {
    let mut router = Router::new(17);
    assert_eq!(router.source_node_id(), 17);
    assert_eq!(router.last_sent(), None);
    router.handle_mesh_packet(5);
    router.handle_packet_from_radio();
    router.handle_mesh_packet(6);
    assert_eq!(router.last_sent(), Some(6));
    assert_eq!(router.last_sent(), None);
    assert_eq!(router.source_node_id(), 17);
}
