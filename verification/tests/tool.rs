use meshboard::bbs::front::connect_line;
use meshboard::bbs::front::exchange;
use meshboard::bbs::front::request_line;
use meshboard::bbs::front::request_of;
use meshboard::bbs::front::response_line;
use meshboard::bbs::front::sender_line;
use meshboard::bbs::front::spinner;
use meshboard::bbs::front::stats_line;
use meshboard::bbs::front::Front;
use meshboard::bbs::front::Show;
use meshboard::events::Status;
use meshboard::handler::BootError;
use meshboard::handler::BootEvent;
use meshboard::packet::FromRadio;
use meshboard::packet::MyNodeInfo;
use meshboard::repl::choose_device;
use meshboard::repl::listen;
use meshboard::repl::split_fields;
use meshboard::repl::wait_for_ready;
use meshboard::repl::DeviceError;
use meshboard::repl::Heard;
use meshboard::repl::ReplCommand;
use meshboard::screen::pad_line;
use meshboard::screen::text_origin;
use meshboard::state::HandlerState;
use meshboard::text::chars_of;
use meshboard::types::NodeRecord;
use meshboard::types::TextMessage;

fn state() -> HandlerState {
    let mut state = HandlerState::new();
    state.set_identity(MyNodeInfo { my_node_num: 1 });
    state.insert_node(
        2,
        NodeRecord { short_name: "AL".to_string(), long_name: "Alice".to_string() },
    );
    state
}

#[test]
fn tool_commands() {
    assert_eq!(ReplCommand::parse("exit\n"), ReplCommand::Exit);
    assert_eq!(ReplCommand::parse("  quit  "), ReplCommand::Exit);
    assert_eq!(ReplCommand::parse("ble\n"), ReplCommand::BleUsage);
    assert_eq!(ReplCommand::parse("ble auto\n"), ReplCommand::BleAuto);
    assert_eq!(ReplCommand::parse("ble radio_1 x\n"), ReplCommand::Ble("radio_1".to_string()));
    assert_eq!(ReplCommand::parse("ble  radio\n"), ReplCommand::Ble(String::new()));
    assert_eq!(ReplCommand::parse("listen\n"), ReplCommand::Listen { all: false });
    assert_eq!(ReplCommand::parse("listen all\n"), ReplCommand::Listen { all: true });
    assert_eq!(ReplCommand::parse("listen some\n"), ReplCommand::Listen { all: false });
    assert_eq!(ReplCommand::parse("nodes\n"), ReplCommand::Nodes);
    assert_eq!(ReplCommand::parse("help\n"), ReplCommand::Help);
    assert_eq!(ReplCommand::parse("\n"), ReplCommand::Unknown);
    assert_eq!(ReplCommand::parse("Exit\n"), ReplCommand::Unknown);
    assert_eq!(ReplCommand::parse("exit\tnow\n"), ReplCommand::Unknown);
}

#[test]
fn send_takes_a_node_and_a_text() {
    assert_eq!(ReplCommand::parse("send\n"), ReplCommand::SendUsage);
    assert_eq!(ReplCommand::parse("send AL\n"), ReplCommand::SendUsage);
    assert_eq!(
        ReplCommand::parse("send AL hello\n"),
        ReplCommand::Send { short_name: "AL".to_string(), message: "hello".to_string() }
    );
    assert_eq!(
        ReplCommand::parse("send AL hello  big world \n"),
        ReplCommand::Send { short_name: "AL".to_string(), message: "hello  big world".to_string() }
    );
    assert_eq!(
        ReplCommand::parse("send  AL hi\n"),
        ReplCommand::Send { short_name: String::new(), message: "AL hi".to_string() }
    );
}

#[test]
fn fields_are_split_as_std_splits_them() {
    let samples = ["", "  ", "a", " a b  c ", "send AL  hi\n", "\t x\ty z \r\n", "\u{a0}a \u{3000}b\u{a0}"];
    for sample in samples {
        let expected: Vec<String> = sample.trim().split(" ").map(|f| f.to_string()).collect();
        assert_eq!(split_fields(sample), expected);
    }
    assert_eq!(chars_of("a\u{e9}\u{1f600}"), vec!['a', '\u{e9}', '\u{1f600}']);
    assert!(chars_of("").is_empty());
}

#[test]
fn the_only_radio_is_chosen() {
    assert_eq!(choose_device(vec![]), Err(DeviceError::NoDevices));
    assert_eq!(choose_device(vec!["one".to_string()]), Ok("one".to_string()));
    assert_eq!(
        choose_device(vec!["one".to_string(), "two".to_string()]),
        Err(DeviceError::MultipleDevices)
    );
    assert_eq!(DeviceError::NoDevices.message(), "No BLE devices found.");
    assert_eq!(
        DeviceError::MultipleDevices.message(),
        "Multiple devices found, please specify one."
    );
}

#[test]
fn tool_wait_ends_quietly_on_cancel() {
    assert_eq!(wait_for_ready(BootEvent::Cancelled, 20), Some(Ok(())));
    assert_eq!(wait_for_ready(BootEvent::Status(Some(Status::Ready)), 20), Some(Ok(())));
    assert_eq!(wait_for_ready(BootEvent::Status(Some(Status::Heartbeat(1))), 20), None);
    assert_eq!(wait_for_ready(BootEvent::Status(None), 20), Some(Err(BootError::ChannelClosed)));
    assert_eq!(wait_for_ready(BootEvent::Elapsed(19), 20), None);
    assert_eq!(wait_for_ready(BootEvent::Elapsed(20), 20), Some(Err(BootError::Timeout)));
}

#[test]
fn listening_prints_and_answers() {
    let mut state = state();
    state.insert_message(10, TextMessage::recieved(2, 1, "ping".to_string(), [0; 32]));
    state.insert_message(11, TextMessage::recieved(2, 3, "other".to_string(), [0; 32]));
    assert_eq!(
        listen(&state, &Status::NewMessage(10)),
        Heard {
            line: Some("👤 Alice : ping ".to_string()),
            reply: Some(("Got ping".to_string(), 2))
        }
    );
    assert_eq!(
        listen(&state, &Status::NewMessage(11)),
        Heard { line: Some("📩 Alice → NodeId(3) : other ".to_string()), reply: None }
    );
    assert_eq!(
        listen(&state, &Status::UpdatedMessage(10)),
        Heard { line: Some("👤 Alice : ping ".to_string()), reply: None }
    );
    assert_eq!(listen(&state, &Status::Ready), Heard { line: Some("Ready".to_string()), reply: None });
    assert_eq!(
        listen(&state, &Status::Heartbeat(4)),
        Heard { line: Some("Heartbeat.".to_string()), reply: None }
    );
    assert_eq!(
        listen(&state, &Status::FromRadio(FromRadio { payload_variant: None })),
        Heard { line: None, reply: None }
    );
}

#[test]
fn spinner_turns_with_every_heartbeat() {
    let frames = ["⣾", "⣽", "⣻", "⢿", "⡿", "⣟", "⣯", "⣷", "⣾", "⣽", "⣻", "⢿"];
    for (i, frame) in frames.iter().enumerate() {
        assert_eq!(spinner(i), *frame);
    }
    let mut front = Front::new();
    assert_eq!(front.on_status(&Status::Ready), None);
    assert_eq!(front.on_status(&Status::NewMessage(1)), None);
    assert_eq!(front.on_status(&Status::FromRadio(FromRadio { payload_variant: None })), None);
    assert_eq!(front.on_status(&Status::FromRadio(FromRadio { payload_variant: None })), None);
    for turn in 0..25 {
        let show = front.on_status(&Status::Heartbeat(1000)).unwrap();
        assert_eq!(show, Show { row: 0, text: format!("Stats {} 2 ", frames[turn % 12]) });
    }
    assert_eq!(stats_line("x", 0), "Stats x 0 ");
    assert_eq!(connect_line("radio_1"), "Connect radio_1...");
}

#[test]
fn only_messages_to_this_radio_are_commands() {
    let state = state();
    let mine = TextMessage::recieved(2, 1, "help".to_string(), [0xab; 32]);
    let request = request_of(&state, &mine).unwrap();
    assert_eq!(request.from, 2);
    assert_eq!(request.short_name, "Alice");
    assert_eq!(request.text, "help");
    assert_eq!(request.pk_hash, [0xab; 32]);
    let stranger = TextMessage::recieved(9, 1, "help".to_string(), [0; 32]);
    assert_eq!(request_of(&state, &stranger).unwrap().short_name, "?");
    let other = TextMessage::recieved(2, 3, "help".to_string(), [0; 32]);
    assert!(request_of(&state, &other).is_none());
    let all = TextMessage::recieved(2, 0xffff_ffff, "help".to_string(), [0; 32]);
    assert!(request_of(&state, &all).is_none());
}

#[test]
fn an_exchange_is_shown_row_by_row() {
    let state = state();
    let mut pk_hash = [0u8; 32];
    pk_hash[0] = 0x0f;
    pk_hash[1] = 0xa0;
    pk_hash[31] = 0xff;
    let msg = TextMessage::recieved(2, 1, "c".to_string(), pk_hash);
    let request = request_of(&state, &msg).unwrap();
    let answers = vec!["news,general".to_string(), "more".to_string()];
    let hash = format!("0fa0{}ff", "00".repeat(29));
    assert_eq!(
        exchange(&request, &answers),
        vec![
            Show { row: 1, text: format!("Alice:{hash}") },
            Show { row: 2, text: "> c".to_string() },
            Show { row: 3, text: "< news,general".to_string() },
            Show { row: 4, text: "< more".to_string() },
        ]
    );
    assert_eq!(exchange(&request, &vec![]).len(), 2);
    assert_eq!(sender_line("AB", &[0x12; 32]), format!("AB:{}", "12".repeat(32)));
    assert_eq!(request_line("x y"), "> x y");
    assert_eq!(response_line("Ack"), "< Ack");
}

#[test]
fn lines_are_filled_to_the_width_of_the_display() {
    assert_eq!(pad_line(""), " ".repeat(42));
    assert_eq!(pad_line("Ready"), format!("{:<42}", "Ready"));
    assert_eq!(pad_line("Stats ⣾ 12 "), format!("{:<42}", "Stats ⣾ 12 "));
    let full = "x".repeat(42);
    assert_eq!(pad_line(&full), full);
    let long = "y".repeat(50);
    assert_eq!(pad_line(&long), long);
    assert_eq!(pad_line("Ready").chars().count(), 42);
}

#[test]
fn text_begins_at_its_row_and_column() {
    assert_eq!(text_origin(0, 0), (0, 0));
    assert_eq!(text_origin(0, 3), (18, 0));
    assert_eq!(text_origin(2, 1), (6, 20));
    assert_eq!(text_origin(-1, -1), (-6, -10));
}
