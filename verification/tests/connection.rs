use meshboard::events::Action;
use meshboard::events::Event;
use meshboard::events::LoopError;
use meshboard::events::PacketError;
use meshboard::events::Status;
use meshboard::events::Step;
use meshboard::handler::Handler;
use meshboard::packet::Data;
use meshboard::packet::FromRadio;
use meshboard::packet::MeshPacket;
use meshboard::packet::MeshPayload;
use meshboard::packet::MyNodeInfo;
use meshboard::packet::NodeInfo;
use meshboard::packet::PayloadVariant;
use meshboard::service::Service;
use meshboard::types::Destination;
use meshboard::types::NodeRecord;
use meshboard::types::RoutingError;
use meshboard::types::TextMessage;
use meshboard::types::TextMessageStatus;
use meshboard::types::BROADCAST;
use meshtastic::protobufs::routing;
use meshtastic::protobufs::Routing;
use meshtastic::protobufs::User;
use meshtastic::Message;
use sha2::Digest;
use sha2::Sha256;

const TEXT_PORT: i32 = 1;
const NODEINFO_PORT: i32 = 4;
const ROUTING_PORT: i32 = 5;
const ACK: i32 = 120;

fn radio(payload: PayloadVariant) -> FromRadio {
    FromRadio { payload_variant: Some(payload) }
}

fn mesh(from: u32, to: u32, id: u32, priority: i32, data: Data) -> FromRadio {
    radio(PayloadVariant::Packet(MeshPacket {
        from,
        to,
        id,
        priority,
        public_key: vec![1, 2, 3],
        payload_variant: Some(MeshPayload::Decoded(data)),
    }))
}

fn text_packet(id: u32, from: u32, to: u32, text: &str) -> FromRadio {
    mesh(
        from,
        to,
        id,
        0,
        Data { portnum: TEXT_PORT, payload: text.as_bytes().to_vec(), request_id: 0 },
    )
}

fn routing_payload(reason: i32) -> Vec<u8> {
    Routing { variant: Some(routing::Variant::ErrorReason(reason)) }.encode_to_vec()
}

fn routing_packet(from: u32, to: u32, priority: i32, request_id: u32, payload: Vec<u8>) -> FromRadio {
    mesh(from, to, 9000, priority, Data { portnum: ROUTING_PORT, payload, request_id })
}

fn my_info(num: u32) -> FromRadio {
    radio(PayloadVariant::MyInfo(MyNodeInfo { my_node_num: num }))
}

fn config_complete() -> FromRadio {
    radio(PayloadVariant::ConfigCompleteId(77))
}

fn record(short_name: &str, long_name: &str) -> NodeRecord {
    NodeRecord { short_name: short_name.to_string(), long_name: long_name.to_string() }
}

fn node_info(num: u32, short_name: &str, long_name: &str) -> FromRadio {
    radio(PayloadVariant::NodeInfo(NodeInfo { num, user: Some(record(short_name, long_name)) }))
}

fn packet(service: &mut Service, from_radio: FromRadio) -> Step {
    service.step(Event::Packet(Some(from_radio)))
}

fn statuses(step: &Step) -> Vec<Status> {
    let mut found = Vec::new();
    for action in &step.actions {
        if let Action::Emit(status) = action {
            found.push(status.clone());
        }
    }
    found
}

fn transmitted(step: &Step) -> Vec<TextMessage> {
    let mut found = Vec::new();
    for action in &step.actions {
        if let Action::Transmit(msg) = action {
            found.push(msg.clone());
        }
    }
    found
}

fn reports(step: &Step) -> Vec<PacketError> {
    let mut found = Vec::new();
    for action in &step.actions {
        if let Action::Report(error) = action {
            found.push(*error);
        }
    }
    found
}

/// A service that knows its identity as node 1 and has a message to node 42
/// tracked under the identifier 55.
fn with_sent_message() -> Service {
    let mut service = Service::new();
    packet(&mut service, my_info(1));
    let msg = TextMessage::sent(1, 42, "hi".to_string());
    let (mut router, _) = service.outbound(&msg);
    router.handle_mesh_packet(55);
    let status = service.process_send_text(msg, &mut router);
    assert_eq!(status, Status::NewMessage(55));
    service
}

#[test]
fn new_service_is_booting() {
    let service = Service::new();
    assert!(!service.is_ready());
    assert!(!service.is_finished());
    assert!(!service.config_complete());
    assert_eq!(service.packet_count(), 0);
    assert_eq!(service.queued(), 0);
    assert_eq!(service.state().my_node_info, None);
    assert!(service.state().nodes.is_empty());
    assert!(service.state().messages.is_empty());
    assert_eq!(service.start(), Status::Heartbeat(0));
}

#[test]
fn inbound_text_is_tracked_and_announced() {
    let mut service = Service::new();
    let from_radio = text_packet(100, 7, BROADCAST, "hello");
    let step = packet(&mut service, from_radio.clone());
    assert_eq!(step.exit, None);
    assert_eq!(statuses(&step), vec![Status::FromRadio(from_radio), Status::NewMessage(100)]);
    assert_eq!(step.actions.len(), 2);
    let msg = service.state().msg(100).unwrap();
    assert_eq!(msg.status, TextMessageStatus::Recieved);
    assert_eq!(msg.from, 7);
    assert_eq!(msg.to, BROADCAST);
    assert_eq!(msg.to, 0xffff_ffff);
    assert_eq!(msg.text, "hello");
    let digest: [u8; 32] = Sha256::digest([1u8, 2, 3]).into();
    assert_eq!(msg.pk_hash, digest);
    assert_eq!(service.packet_count(), 1);
}

#[test]
fn text_that_is_no_utf8_is_dropped() {
    let mut service = Service::new();
    let step = packet(
        &mut service,
        mesh(7, 8, 100, 0, Data { portnum: TEXT_PORT, payload: vec![0xff, 0xfe], request_id: 0 }),
    );
    assert_eq!(reports(&step), vec![PacketError::InvalidText]);
    assert_eq!(step.exit, None);
    assert!(service.state().msg(100).is_none());
    assert_eq!(service.packet_count(), 1);
}

#[test]
fn packet_without_payload_is_reported() {
    let mut service = Service::new();
    let step = packet(&mut service, FromRadio { payload_variant: None });
    assert_eq!(reports(&step), vec![PacketError::NoPayload]);
    assert_eq!(statuses(&step), vec![Status::FromRadio(FromRadio { payload_variant: None })]);
}

#[test]
fn queued_text_waits_for_ready() {
    let mut service = Service::new();
    let handler = Handler::new();
    packet(&mut service, my_info(1));
    let msg = handler
        .send_text(service.state(), "hi".to_string(), Destination::from(42u32))
        .unwrap();
    assert_eq!(msg.status, TextMessageStatus::Sent);
    assert_eq!(msg.from, 1);
    assert_eq!(msg.to, 42);
    assert_eq!(msg.text, "hi");
    assert_eq!(msg.pk_hash, [0u8; 32]);
    let step = service.step(Event::Message(Some(msg)));
    assert!(step.actions.is_empty());
    assert_eq!(service.queued(), 1);
    for _ in 0..4 {
        let step = service.step(Event::Tick);
        assert!(step.actions.is_empty());
    }
    assert!(!service.is_ready());
    assert_eq!(service.queued(), 1);
    packet(&mut service, config_complete());
    assert!(service.config_complete());
    let step = service.step(Event::Tick);
    assert_eq!(statuses(&step), vec![Status::Ready]);
    assert!(transmitted(&step).is_empty());
    assert!(service.is_ready());
    assert_eq!(service.queued(), 1);
    let step = service.step(Event::Tick);
    let sent = transmitted(&step);
    assert_eq!(sent.len(), 1);
    assert_eq!(sent[0].text, "hi");
    assert_eq!(sent[0].to, 42);
    assert_eq!(sent[0].status, TextMessageStatus::Sent);
    assert_eq!(service.queued(), 0);
}

#[test]
fn transmission_request_asks_for_confirmation() {
    let mut service = Service::new();
    packet(&mut service, my_info(9));
    let msg = TextMessage::sent(9, BROADCAST, "to all".to_string());
    let (router, request) = service.outbound(&msg);
    assert_eq!(router.source_node_id(), 9);
    assert_eq!(request.text, "to all");
    assert_eq!(request.destination, BROADCAST);
    assert!(request.want_ack);
    assert_eq!(request.channel, 0);
}

#[test]
fn sent_message_is_tracked_under_captured_id() {
    let service = with_sent_message();
    let msg = service.state().msg(55).unwrap();
    assert_eq!(msg.status, TextMessageStatus::Sent);
    assert_eq!(msg.text, "hi");
    assert_eq!(msg.to, 42);
}

#[test]
fn sent_event_tracks_and_announces() {
    let mut service = Service::new();
    let step = service.step(Event::Sent(TextMessage::sent(1, 2, "x".to_string()), 31));
    assert_eq!(statuses(&step), vec![Status::NewMessage(31)]);
    assert_eq!(service.state().msg(31).unwrap().text, "x");
}

#[test]
fn ack_updates_sent_message() {
    let mut service = with_sent_message();
    let step = packet(&mut service, routing_packet(42, 42, ACK, 55, routing_payload(0)));
    assert_eq!(statuses(&step).last(), Some(&Status::UpdatedMessage(55)));
    assert_eq!(statuses(&step).len(), 2);
    let msg = service.state().msg(55).unwrap();
    assert_eq!(msg.status, TextMessageStatus::ImplicitAck);
    assert_eq!(msg.text, "hi");
    assert_eq!(msg.from, 1);
    assert_eq!(msg.to, 42);
}

#[test]
fn ack_from_another_node_is_explicit() {
    let mut service = with_sent_message();
    let step = packet(&mut service, routing_packet(42, 1, ACK, 55, routing_payload(0)));
    assert_eq!(statuses(&step).last(), Some(&Status::UpdatedMessage(55)));
    assert_eq!(service.state().msg(55).unwrap().status, TextMessageStatus::ExplicitAck);
}

#[test]
fn own_packet_without_ack_priority_decides_nothing() {
    let mut service = with_sent_message();
    let step = packet(&mut service, routing_packet(42, 42, 64, 55, routing_payload(0)));
    assert_eq!(statuses(&step).len(), 1);
    assert!(reports(&step).is_empty());
    assert_eq!(service.state().msg(55).unwrap().status, TextMessageStatus::Sent);
}

#[test]
fn routing_error_is_recorded_with_its_reason() {
    let mut service = with_sent_message();
    let step = packet(&mut service, routing_packet(42, 42, ACK, 55, routing_payload(5)));
    assert_eq!(statuses(&step).last(), Some(&Status::UpdatedMessage(55)));
    let reason = RoutingError::from_code(5).unwrap();
    assert_eq!(service.state().msg(55).unwrap().status, TextMessageStatus::RoutingError(reason));
    assert_eq!(reason.code(), routing::Error::MaxRetransmit as i32);
    assert_eq!(reason.name(), "MaxRetransmit");
}

#[test]
fn undefined_routing_reason_is_reported() {
    let mut service = with_sent_message();
    let step = packet(&mut service, routing_packet(42, 1, ACK, 55, routing_payload(99)));
    assert_eq!(reports(&step), vec![PacketError::UnknownRoutingError(99)]);
    assert_eq!(statuses(&step).len(), 1);
    assert_eq!(service.state().msg(55).unwrap().status, TextMessageStatus::Sent);
}

#[test]
fn malformed_routing_payload_is_reported() {
    let mut service = with_sent_message();
    let step = packet(&mut service, routing_packet(42, 1, ACK, 55, vec![0xff, 0xff, 0xff]));
    assert_eq!(reports(&step), vec![PacketError::Malformed]);
    assert_eq!(service.state().msg(55).unwrap().status, TextMessageStatus::Sent);
}

#[test]
fn route_reply_changes_nothing() {
    let mut service = with_sent_message();
    let payload = Routing {
        variant: Some(routing::Variant::RouteReply(Default::default())),
    }
    .encode_to_vec();
    let step = packet(&mut service, routing_packet(42, 1, ACK, 55, payload));
    assert_eq!(statuses(&step).len(), 1);
    assert!(reports(&step).is_empty());
    assert_eq!(service.state().msg(55).unwrap().status, TextMessageStatus::Sent);
}

#[test]
fn routing_for_unknown_id_is_ignored() {
    let mut service = with_sent_message();
    let step = packet(&mut service, routing_packet(42, 1, ACK, 56, routing_payload(0)));
    assert_eq!(statuses(&step).len(), 1);
    assert!(reports(&step).is_empty());
    assert_eq!(step.exit, None);
    assert!(service.state().msg(56).is_none());
    assert_eq!(service.state().messages.len(), 1);
    assert_eq!(service.state().msg(55).unwrap().status, TextMessageStatus::Sent);
    let step = packet(&mut service, routing_packet(42, 1, ACK, 56, routing_payload(1)));
    assert!(reports(&step).is_empty());
    assert_eq!(service.state().messages.len(), 1);
}

#[test]
fn status_is_set_once() {
    let mut service = with_sent_message();
    let step = packet(&mut service, routing_packet(42, 42, ACK, 55, routing_payload(0)));
    assert_eq!(statuses(&step).last(), Some(&Status::UpdatedMessage(55)));
    assert_eq!(service.state().msg(55).unwrap().status, TextMessageStatus::ImplicitAck);
    let created = service.state().msg(55).unwrap().ts;
    let step = packet(&mut service, routing_packet(42, 1, ACK, 55, routing_payload(0)));
    assert_eq!(statuses(&step).len(), 1);
    assert!(reports(&step).is_empty());
    assert_eq!(service.state().msg(55).unwrap().status, TextMessageStatus::ImplicitAck);
    let step = packet(&mut service, routing_packet(42, 1, ACK, 55, routing_payload(5)));
    assert_eq!(statuses(&step).len(), 1);
    let msg = service.state().msg(55).unwrap();
    assert_eq!(msg.status, TextMessageStatus::ImplicitAck);
    assert_eq!(msg.text, "hi");
    assert_eq!(msg.ts, created);
}

#[test]
fn routing_error_is_final_too() {
    let mut service = with_sent_message();
    packet(&mut service, routing_packet(42, 42, ACK, 55, routing_payload(3)));
    let reason = RoutingError::from_code(3).unwrap();
    assert_eq!(service.state().msg(55).unwrap().status, TextMessageStatus::RoutingError(reason));
    let step = packet(&mut service, routing_packet(42, 1, ACK, 55, routing_payload(0)));
    assert_eq!(statuses(&step).len(), 1);
    assert_eq!(service.state().msg(55).unwrap().status, TextMessageStatus::RoutingError(reason));
}

#[test]
fn received_message_gets_no_verdict() {
    let mut service = with_sent_message();
    packet(&mut service, text_packet(100, 7, 1, "hello"));
    let created = service.state().msg(100).unwrap().ts;
    let step = packet(&mut service, routing_packet(42, 1, ACK, 100, routing_payload(0)));
    assert_eq!(statuses(&step).len(), 1);
    assert!(reports(&step).is_empty());
    let msg = service.state().msg(100).unwrap();
    assert_eq!(msg.status, TextMessageStatus::Recieved);
    assert_eq!(msg.ts, created);
    assert_eq!(service.state().msg(55).unwrap().status, TextMessageStatus::Sent);
}

#[test]
fn ready_waits_for_the_identity() {
    let mut service = Service::new();
    service.step(Event::Message(Some(TextMessage::sent(1, 2, "early".to_string()))));
    packet(&mut service, config_complete());
    for _ in 0..30 {
        let step = service.step(Event::Tick);
        assert!(!statuses(&step).contains(&Status::Ready));
        assert!(transmitted(&step).is_empty());
    }
    assert!(!service.is_ready());
    assert!(service.config_complete());
    assert_eq!(service.queued(), 1);
    packet(&mut service, my_info(1));
    let step = service.step(Event::Tick);
    assert_eq!(statuses(&step), vec![Status::Ready]);
    assert!(service.is_ready());
    assert_eq!(service.state().my_node_num(), 1);
    let mut sent = 0;
    for _ in 0..2 {
        sent += transmitted(&service.step(Event::Tick)).len();
    }
    assert_eq!(sent, 1);
}

#[test]
fn ready_waits_for_the_end_of_configuration() {
    let mut service = Service::new();
    packet(&mut service, my_info(1));
    for _ in 0..30 {
        let step = service.step(Event::Tick);
        assert!(!statuses(&step).contains(&Status::Ready));
    }
    assert!(!service.is_ready());
    packet(&mut service, config_complete());
    let step = service.step(Event::Tick);
    assert_eq!(statuses(&step), vec![Status::Ready]);
}

#[test]
fn directory_last_write_wins() {
    let mut service = Service::new();
    packet(&mut service, node_info(5, "AAA", "Alice"));
    packet(&mut service, node_info(6, "BBB", "Bob"));
    packet(&mut service, node_info(5, "CCC", "Carol"));
    let state = service.state();
    assert_eq!(state.nodes.get(&5), Some(&record("CCC", "Carol")));
    assert_eq!(state.nodes.get(&6), Some(&record("BBB", "Bob")));
    assert_eq!(state.nodes.len(), 2);
    assert_eq!(state.get_long_name_by_node_id(5), Some("Carol".to_string()));
    assert_eq!(state.get_node_id_by_short_name("CCC"), Some(5));
    assert_eq!(state.get_node_id_by_short_name("AAA"), None);
}

#[test]
fn identity_payload_names_its_sender() {
    let mut service = Service::new();
    packet(&mut service, node_info(5, "AAA", "Alice"));
    let user = User {
        id: "!00000005".to_string(),
        long_name: "Dave".to_string(),
        short_name: "DDD".to_string(),
        ..Default::default()
    };
    let step = packet(
        &mut service,
        mesh(5, BROADCAST, 1, 0, Data {
            portnum: NODEINFO_PORT,
            payload: user.encode_to_vec(),
            request_id: 0,
        }),
    );
    assert_eq!(statuses(&step).len(), 1);
    assert!(reports(&step).is_empty());
    assert_eq!(service.state().nodes.get(&5), Some(&record("DDD", "Dave")));
}

#[test]
fn malformed_identity_payload_is_reported() {
    let mut service = Service::new();
    let step = packet(
        &mut service,
        mesh(5, BROADCAST, 1, 0, Data {
            portnum: NODEINFO_PORT,
            payload: vec![0xff, 0xff, 0xff],
            request_id: 0,
        }),
    );
    assert_eq!(reports(&step), vec![PacketError::Malformed]);
    assert!(service.state().nodes.is_empty());
}

#[test]
fn node_database_entry_without_user_is_ignored() {
    let mut service = Service::new();
    let step = packet(&mut service, radio(PayloadVariant::NodeInfo(NodeInfo { num: 5, user: None })));
    assert!(reports(&step).is_empty());
    assert!(service.state().nodes.is_empty());
}

#[test]
fn identity_is_set_once() {
    let mut service = Service::new();
    packet(&mut service, my_info(11));
    packet(&mut service, my_info(12));
    assert_eq!(service.state().my_node_info, Some(MyNodeInfo { my_node_num: 11 }));
    assert_eq!(service.state().my_node_num(), 11);
}

#[test]
fn other_packets_change_nothing() {
    let mut service = Service::new();
    let step = packet(&mut service, radio(PayloadVariant::Other("Rebooted(true)".to_string())));
    assert_eq!(step.actions.len(), 1);
    let step = packet(
        &mut service,
        mesh(1, 2, 3, 0, Data { portnum: 67, payload: vec![1], request_id: 0 }),
    );
    assert_eq!(step.actions.len(), 1);
    let step = packet(
        &mut service,
        radio(PayloadVariant::Packet(MeshPacket {
            from: 1,
            to: 2,
            id: 3,
            priority: 0,
            public_key: vec![],
            payload_variant: Some(MeshPayload::Encrypted),
        })),
    );
    assert_eq!(step.actions.len(), 1);
    assert!(service.state().messages.is_empty());
    assert!(service.state().nodes.is_empty());
    assert_eq!(service.packet_count(), 3);
}

#[test]
fn ready_is_announced_once() {
    let mut service = Service::new();
    packet(&mut service, my_info(1));
    let mut ready = 0;
    for tick in 0..100 {
        if tick == 7 {
            packet(&mut service, config_complete());
        }
        if tick == 50 {
            packet(&mut service, config_complete());
        }
        let step = service.step(Event::Tick);
        for status in statuses(&step) {
            if status == Status::Ready {
                ready += 1;
                assert_eq!(tick, 7);
            }
        }
    }
    assert_eq!(ready, 1);
    assert!(service.is_ready());
}

#[test]
fn one_message_every_other_tick() {
    let mut service = Service::new();
    packet(&mut service, my_info(1));
    packet(&mut service, config_complete());
    for text in ["a", "b", "c"] {
        service.step(Event::Message(Some(TextMessage::sent(1, 2, text.to_string()))));
    }
    let mut sent = Vec::new();
    let mut last_sent_at = None;
    for tick in 1..=12 {
        let step = service.step(Event::Tick);
        let now = transmitted(&step);
        assert!(now.len() <= 1);
        if let Some(msg) = now.first() {
            assert!(service.is_ready());
            assert_eq!(tick % 2, 0);
            if let Some(last) = last_sent_at {
                assert!(tick - last >= 2);
            }
            last_sent_at = Some(tick);
            sent.push(msg.text.clone());
        }
    }
    assert_eq!(sent, vec!["a", "b", "c"]);
    assert_eq!(service.queued(), 0);
}

#[test]
fn queued_message_is_sent_as_it_was_handed_in() {
    let mut service = Service::new();
    packet(&mut service, my_info(1));
    packet(&mut service, config_complete());
    let msg = TextMessage::sent(1, 2, "kept".to_string());
    let created = msg.ts;
    service.step(Event::Message(Some(msg)));
    let mut sent = Vec::new();
    for _ in 0..4 {
        sent.extend(transmitted(&service.step(Event::Tick)));
    }
    assert_eq!(sent.len(), 1);
    assert_eq!(sent[0].ts, created);
    assert_eq!(sent[0].text, "kept");
    let msg = sent.pop().unwrap();
    let step = service.step(Event::Sent(msg, 9));
    assert_eq!(statuses(&step), vec![Status::NewMessage(9)]);
    assert_eq!(service.state().msg(9).unwrap().ts, created);
}

#[test]
fn heartbeat_every_twenty_ticks() {
    let mut service = Service::new();
    packet(&mut service, text_packet(1, 2, 3, "x"));
    packet(&mut service, text_packet(2, 2, 3, "y"));
    for tick in 1..=60 {
        let step = service.step(Event::Tick);
        if tick % 20 == 0 {
            assert_eq!(statuses(&step), vec![Status::Heartbeat(2)]);
        } else {
            assert!(step.actions.is_empty());
        }
    }
}

#[test]
fn end_of_packet_stream_is_fatal() {
    let mut service = Service::new();
    let step = service.step(Event::Packet(None));
    assert_eq!(step.exit, Some(Err(LoopError::StreamClosed)));
    assert!(matches!(
        step.actions.as_slice(),
        [Action::ClosePackets, Action::Disconnect, Action::SignalFinished]
    ));
    assert!(service.is_finished());
    assert_eq!(service.packet_count(), 1);
    assert_eq!(LoopError::StreamClosed.message(), "BLE stream closed");
    assert_eq!(LoopError::MessagesClosed.message(), "Text message stream closed");
}

#[test]
fn end_of_message_channel_is_fatal() {
    let mut service = Service::new();
    let step = service.step(Event::Message(None));
    assert_eq!(step.exit, Some(Err(LoopError::MessagesClosed)));
    assert!(matches!(
        step.actions.as_slice(),
        [Action::ClosePackets, Action::Disconnect, Action::SignalFinished]
    ));
    assert!(service.is_finished());
}

#[test]
fn shutdown_stops_the_actor() {
    let mut service = Service::new();
    packet(&mut service, my_info(1));
    packet(&mut service, config_complete());
    service.step(Event::Tick);
    service.step(Event::Message(Some(TextMessage::sent(1, 2, "late".to_string()))));
    let step = service.step(Event::Cancelled);
    assert_eq!(step.exit, Some(Ok(())));
    assert!(matches!(
        step.actions.as_slice(),
        [Action::ClosePackets, Action::Disconnect, Action::SignalFinished]
    ));
    assert!(service.is_finished());
    for _ in 0..40 {
        let step = service.step(Event::Tick);
        assert!(step.actions.is_empty());
        assert_eq!(step.exit, None);
    }
    let step = packet(&mut service, text_packet(1, 2, 3, "x"));
    assert!(step.actions.is_empty());
    assert!(service.state().msg(1).is_none());
    let step = service.step(Event::Cancelled);
    assert!(step.actions.is_empty());
    assert_eq!(service.queued(), 1);
}

#[test]
fn process_from_radio_reports_the_status() {
    let mut service = Service::new();
    let result = service.process_from_radio(&text_packet(100, 7, 8, "hey"));
    assert_eq!(result, Ok(Some(Status::NewMessage(100))));
    let result = service.process_from_radio(&my_info(3));
    assert_eq!(result, Ok(None));
    let result = service.process_from_radio(&FromRadio { payload_variant: None });
    assert_eq!(result, Err(PacketError::NoPayload));
    assert_eq!(service.packet_count(), 0);
}
