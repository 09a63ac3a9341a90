use meshboard::bridge::packets::IncomingPacket;
use meshboard::bridge::service::packet_file_name;
use meshboard::bridge::service::packet_to_save;
use meshboard::bridge::service::start_message;
use meshboard::bridge::service::BridgeError;
use meshboard::bridge::service::BridgeEvent;
use meshboard::bridge::service::Service;
use meshboard::bridge::storage::Storage;
use meshboard::bridge::telegram::outgoing_text;
use meshboard::packet::Data;
use meshboard::packet::FromRadio;
use meshboard::packet::MeshPacket;
use meshboard::packet::MeshPayload;
use meshboard::packet::MyNodeInfo;
use meshboard::packet::NodeInfo;
use meshboard::packet::PayloadVariant;
use meshboard::text::to_signed_decimal;
use meshboard::text::truncate;
use meshboard::types::NodeRecord;
use meshtastic::protobufs::PortNum;
use meshtastic::protobufs::User;
use meshtastic::Message;

fn record(short_name: &str, long_name: &str) -> NodeRecord {
    NodeRecord { short_name: short_name.to_string(), long_name: long_name.to_string() }
}

fn radio(payload: PayloadVariant) -> FromRadio {
    FromRadio { payload_variant: Some(payload) }
}

fn mesh_packet(from: u32, to: u32, payload: Option<MeshPayload>) -> MeshPacket {
    MeshPacket { from, to, id: 1, priority: 0, public_key: vec![], payload_variant: payload }
}

fn decoded(from: u32, to: u32, portnum: i32, payload: Vec<u8>) -> FromRadio {
    radio(PayloadVariant::Packet(mesh_packet(
        from,
        to,
        Some(MeshPayload::Decoded(Data { portnum, payload, request_id: 3 })),
    )))
}

fn note(incoming: IncomingPacket) -> String {
    match incoming {
        IncomingPacket::Other(note) => note,
        other => panic!("not passed over: {:?}", other),
    }
}

#[test]
fn packets_without_use_are_noted() {
    assert_eq!(note(IncomingPacket::from(FromRadio { payload_variant: None })), "No payload");
    assert_eq!(
        note(IncomingPacket::from(radio(PayloadVariant::NodeInfo(NodeInfo { num: 1, user: None })))),
        "NodeInfo without user"
    );
    assert_eq!(
        note(IncomingPacket::from(radio(PayloadVariant::Packet(mesh_packet(1, 2, None))))),
        "Packet without content"
    );
    assert_eq!(
        note(IncomingPacket::from(radio(PayloadVariant::Packet(mesh_packet(
            1,
            2,
            Some(MeshPayload::Encrypted)
        ))))),
        "Ciphered Mesh Packet"
    );
    assert_eq!(
        note(IncomingPacket::from(decoded(1, 2, 4, vec![0xff, 0xff]))),
        "NodeInfo without user"
    );
}

#[test]
fn other_applications_are_noted_by_name() {
    assert_eq!(
        note(IncomingPacket::from(decoded(1, 2, PortNum::TelemetryApp as i32, vec![]))),
        "TelemetryApp"
    );
    assert_eq!(note(IncomingPacket::from(decoded(1, 2, 3, vec![]))), "PositionApp");
    assert_eq!(note(IncomingPacket::from(decoded(1, 2, 0, vec![]))), "UnknownApp");
    assert_eq!(note(IncomingPacket::from(decoded(1, 2, 13, vec![]))), "Unknown portnum 13");
    assert_eq!(note(IncomingPacket::from(decoded(1, 2, -7, vec![]))), "Unknown portnum -7");
    assert_eq!(
        note(IncomingPacket::from(decoded(1, 2, i32::MIN, vec![]))),
        "Unknown portnum -2147483648"
    );
}

#[test]
fn other_payloads_are_noted_in_twenty_characters() {
    assert_eq!(
        note(IncomingPacket::from(radio(PayloadVariant::Other("Rebooted(true)".to_string())))),
        "Rebooted(true)"
    );
    assert_eq!(
        note(IncomingPacket::from(radio(PayloadVariant::Other(
            "Config(Config { payload_variant: None })".to_string()
        )))),
        "Config(Config { payl"
    );
    assert_eq!(
        note(IncomingPacket::from(radio(PayloadVariant::ConfigCompleteId(77)))),
        "ConfigCompleteId(77)"
    );
    assert_eq!(
        note(IncomingPacket::from(radio(PayloadVariant::ConfigCompleteId(123456)))),
        "ConfigCompleteId(123"
    );
    assert_eq!(truncate("abc".to_string(), 3), "abc");
    assert_eq!(truncate("abcd".to_string(), 3), "abc");
    assert_eq!(truncate("\u{e9}\u{e8}\u{ea}\u{eb}".to_string(), 2), "\u{e9}\u{e8}");
    assert_eq!(truncate("abc".to_string(), 0), "");
}

#[test]
fn identity_text_and_routing_are_sorted() {
    assert!(matches!(
        IncomingPacket::from(radio(PayloadVariant::MyInfo(MyNodeInfo { my_node_num: 4 }))),
        IncomingPacket::MyInfo(MyNodeInfo { my_node_num: 4 })
    ));
    assert!(matches!(
        IncomingPacket::from(radio(PayloadVariant::NodeInfo(NodeInfo {
            num: 8,
            user: Some(record("AL", "Alice"))
        }))),
        IncomingPacket::NodeInfo(8, names) if names == record("AL", "Alice")
    ));
    let user = User {
        long_name: "Bob".to_string(),
        short_name: "BO".to_string(),
        ..Default::default()
    };
    assert!(matches!(
        IncomingPacket::from(decoded(9, 2, 4, user.encode_to_vec())),
        IncomingPacket::NodeInfo(9, names) if names == record("BO", "Bob")
    ));
    assert!(matches!(
        IncomingPacket::from(decoded(9, 2, 1, b"hi there".to_vec())),
        IncomingPacket::TextMessage { from: 9, to: 2, msg } if msg == "hi there"
    ));
    assert!(matches!(
        IncomingPacket::from(decoded(9, 2, 1, vec![0xc3, 0x28])),
        IncomingPacket::TextMessage { from: 9, to: 2, msg } if msg == "Non-utf8 msg"
    ));
    assert!(matches!(
        IncomingPacket::from(decoded(9, 2, 5, vec![1, 2])),
        IncomingPacket::RoutingApp(data) if data.payload == vec![1, 2] && data.request_id == 3
    ));
    assert!(matches!(
        IncomingPacket::from_data(9, 2, Data { portnum: 1, payload: b"x".to_vec(), request_id: 0 }),
        IncomingPacket::TextMessage { from: 9, to: 2, msg } if msg == "x"
    ));
}

#[test]
fn signed_numbers_in_base_ten() {
    assert_eq!(to_signed_decimal(0), "0");
    assert_eq!(to_signed_decimal(-1), "-1");
    assert_eq!(to_signed_decimal(250), "250");
    assert_eq!(to_signed_decimal(i64::MAX), "9223372036854775807");
    assert_eq!(to_signed_decimal(i64::MIN), "-9223372036854775808");
}

#[test]
fn node_names_fall_back_to_the_number() {
    let mut storage = Storage::default();
    assert_eq!(storage.long_name_of(17), "17");
    storage.insert_node(17, record("AL", "Alice"));
    assert_eq!(storage.long_name_of(17), "Alice");
    storage.insert_node(17, record("AL", "Alicia"));
    assert_eq!(storage.long_name_of(17), "Alicia");
    assert_eq!(storage.long_name_of(4294967295), "4294967295");
    assert_eq!(storage.nodes.len(), 1);
}

#[test]
fn bridge_forwards_texts() {
    let mut service = Service::new(Storage::default());
    let step = service.run(BridgeEvent::Packet(Some(radio(PayloadVariant::NodeInfo(NodeInfo {
        num: 7,
        user: Some(record("AL", "Alice")),
    })))));
    assert_eq!(step.forward, None);
    assert_eq!(step.exit, None);
    let step = service.run(BridgeEvent::Packet(Some(decoded(7, 0xffff_ffff, 1, b"hello".to_vec()))));
    assert_eq!(step.forward, Some("💬 Alice : hello".to_string()));
    let step = service.run(BridgeEvent::Packet(Some(decoded(7, 8, 1, b"psst".to_vec()))));
    assert_eq!(step.forward, Some("📩 Alice → 8 : psst ".to_string()));
    let step = service.run(BridgeEvent::Packet(Some(decoded(9, 7, 1, b"yo".to_vec()))));
    assert_eq!(step.forward, Some("📩 9 → Alice : yo ".to_string()));
    let step = service.run(BridgeEvent::Packet(Some(decoded(9, 7, 67, vec![]))));
    assert_eq!(step.forward, None);
    assert_eq!(service.recv_count(), 5);
    assert_eq!(service.storage().long_name_of(7), "Alice");
}

#[test]
fn bridge_gives_up_after_ten_silences() {
    let mut service = Service::new(Storage::default());
    for _ in 0..9 {
        let step = service.run(BridgeEvent::Idle);
        assert_eq!(step.exit, None);
    }
    let step = service.run(BridgeEvent::Packet(Some(FromRadio { payload_variant: None })));
    assert_eq!(step.exit, None);
    for _ in 0..9 {
        let step = service.run(BridgeEvent::Idle);
        assert_eq!(step.exit, None);
    }
    let step = service.run(BridgeEvent::Idle);
    assert_eq!(step.exit, Some(Err(BridgeError::IdleTooLong)));
    assert_eq!(step.forward, None);
    assert_eq!(BridgeError::IdleTooLong.message(), "Idle for more than 300s, I'm going to reset");
}

#[test]
fn bridge_ends_with_the_stream_and_on_cancel() {
    let mut service = Service::new(Storage::default());
    let step = service.run(BridgeEvent::Packet(None));
    assert_eq!(step.exit, Some(Err(BridgeError::StreamFinished)));
    assert_eq!(BridgeError::StreamFinished.message(), "radio_rx stream finished");
    assert_eq!(service.recv_count(), 0);
    let step = service.run(BridgeEvent::Cancelled);
    assert_eq!(step.exit, Some(Ok(())));
}

#[test]
fn bridge_reports_that_it_is_alive() {
    let mut service = Service::new(Storage::default());
    service.run(BridgeEvent::Packet(Some(FromRadio { payload_variant: None })));
    service.run(BridgeEvent::Packet(Some(FromRadio { payload_variant: None })));
    assert_eq!(service.alive_message(3600), None);
    assert_eq!(service.alive_message(0), None);
    assert_eq!(service.alive_message(3601), Some("Alive, recv_count: 2".to_string()));
    assert_eq!(start_message("radio_1"), "Start get events from radio_1");
}

#[test]
fn mesh_packets_are_saved() {
    let with = decoded(1, 2, 1, b"x".to_vec());
    assert!(packet_to_save(&with).is_some());
    assert_eq!(packet_to_save(&with).unwrap().from, 1);
    assert!(packet_to_save(&FromRadio { payload_variant: None }).is_none());
    assert!(packet_to_save(&radio(PayloadVariant::ConfigCompleteId(1))).is_none());
    assert_eq!(packet_file_name("2024-05-06"), "network.2024-05-06.cbor");
}

#[test]
fn late_messages_say_how_late() {
    assert_eq!(outgoing_text("hi", 0, 0), "hi");
    assert_eq!(outgoing_text("hi", 60, 0), "hi");
    assert_eq!(outgoing_text("hi", 59, 999_999_999), "hi");
    assert_eq!(outgoing_text("hi", 60, 1), "hi[60s ago]");
    assert_eq!(outgoing_text("hi", 61, 0), "hi[61s ago]");
    assert_eq!(outgoing_text("", 3600, 5), "[3600s ago]");
}
