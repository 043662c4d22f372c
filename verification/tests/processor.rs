use lora_comms::clock::Timestamp;
use lora_comms::protocol::processor::describe_packet;
use lora_comms::protocol::{
    AdminMessage, DeviceMetrics, EnvironmentMetrics, Float32, MeshMessage, MeshPacket,
    MessageProcessor, MessageType, PayloadVariant, Position, PowerMetrics, Routing,
    TelemetryData, TelemetryVariant, User, BROADCAST_ADDR, HISTORY_LIMIT, PACKET_CACHE_LIMIT,
};

fn at() -> Timestamp {
    Timestamp::new(1_700_000_000, 0)
}

fn none() -> Vec<String> {
    Vec::new()
}

fn rendered(texts: &[&str]) -> Vec<String> {
    texts.iter().map(|t| t.to_string()).collect()
}

fn packet(from: u32, to: u32, id: u32, payload: Option<PayloadVariant>) -> MeshPacket {
    let mut p = MeshPacket::default();
    p.from = from;
    p.to = to;
    p.id = id;
    p.payload = payload;
    p
}

fn text(from: u32, id: u32, body: &str) -> MeshPacket {
    packet(from, BROADCAST_ADDR, id, Some(PayloadVariant::Text(body.to_string())))
}

fn user(long: &str, short: &str) -> User {
    User { long_name: long.to_string(), short_name: short.to_string(), ..User::default() }
}

#[test]
fn text_packet_gives_a_text_event() {
    let mut processor = MessageProcessor::new();
    let mut p = text(42, 7, "hello");
    p.want_ack = true;
    p.hop_limit = 2;
    p.channel = 1;
    let event = processor.process_packet(p, &none(), at()).unwrap();
    assert_eq!(
        event,
        Some(MeshMessage {
            from: "42".to_string(),
            to: "broadcast".to_string(),
            text: "hello".to_string(),
            timestamp: at(),
            want_ack: Some(true),
            packet_id: Some(7),
            hop_limit: Some(2),
            channel: Some(1),
            message_type: MessageType::Text,
        })
    );
    assert_eq!(processor.get_message_history(), vec![event.unwrap()]);
}

#[test]
fn directed_text_names_its_destination() {
    let mut processor = MessageProcessor::new();
    let p = packet(1, 77, 8, Some(PayloadVariant::Text("x".to_string())));
    let event = processor.process_packet(p, &none(), at()).unwrap().unwrap();
    assert_eq!(event.to, "77");
}

#[test]
fn duplicate_packet_is_dropped_in_either_order() {
    let first = text(1, 500, "first copy");
    let second = text(1, 500, "second copy");

    let mut processor = MessageProcessor::new();
    let a = processor.process_packet(first.clone(), &none(), at()).unwrap();
    let b = processor.process_packet(second.clone(), &none(), at()).unwrap();
    assert_eq!(a.map(|m| m.text), Some("first copy".to_string()));
    assert_eq!(b, None);
    assert_eq!(processor.get_message_history().len(), 1);

    let mut processor = MessageProcessor::new();
    let a = processor.process_packet(second, &none(), at()).unwrap();
    let b = processor.process_packet(first, &none(), at()).unwrap();
    assert_eq!(a.map(|m| m.text), Some("second copy".to_string()));
    assert_eq!(b, None);
    assert_eq!(processor.get_message_history().len(), 1);
}

#[test]
fn duplicate_node_info_does_not_touch_the_directory() {
    let mut processor = MessageProcessor::new();
    let first = packet(9, BROADCAST_ADDR, 1, Some(PayloadVariant::NodeInfo(user("Old", "O"))));
    let again = packet(9, BROADCAST_ADDR, 1, Some(PayloadVariant::NodeInfo(user("New", "N"))));
    assert!(processor.process_packet(first, &none(), at()).unwrap().is_some());
    assert_eq!(processor.process_packet(again, &none(), at()).unwrap(), None);
    assert_eq!(processor.get_node_info(9).unwrap().long_name, "Old");
}

#[test]
fn node_info_upserts_the_directory() {
    let mut processor = MessageProcessor::new();
    let first = packet(9, BROADCAST_ADDR, 1, Some(PayloadVariant::NodeInfo(user("Old", "O"))));
    let second = packet(9, BROADCAST_ADDR, 2, Some(PayloadVariant::NodeInfo(user("New", "N"))));
    let other = packet(10, BROADCAST_ADDR, 3, Some(PayloadVariant::NodeInfo(user("Other", "X"))));
    let event = processor.process_packet(first, &none(), at()).unwrap().unwrap();
    assert_eq!(event.text, "Node info: Old (O)");
    assert_eq!(event.to, "broadcast");
    assert_eq!(event.from, "9");
    assert_eq!(event.want_ack, Some(false));
    assert_eq!(event.message_type, MessageType::NodeInfo);
    processor.process_packet(second, &none(), at()).unwrap();
    processor.process_packet(other, &none(), at()).unwrap();
    let mut nodes = processor.get_all_nodes();
    nodes.sort_by_key(|entry| entry.0);
    assert_eq!(nodes, vec![(9, user("New", "N")), (10, user("Other", "X"))]);
    assert_eq!(processor.get_node_info(9), Some(user("New", "N")));
    assert_eq!(processor.get_node_info(11), None);
    assert!(processor.get_message_history().is_empty());
}

#[test]
fn position_event_uses_the_rendered_coordinates() {
    let position = Position {
        latitude_i: 377_749_000,
        longitude_i: -1_224_194_000,
        altitude: -12,
        ..Position::default()
    };
    let p = packet(3, BROADCAST_ADDR, 4, Some(PayloadVariant::Position(position)));
    let event = describe_packet(&p, &rendered(&["37.774900", "-122.419400"]), at()).unwrap();
    assert_eq!(event.text, "Position: 37.774900, -122.419400 (alt: -12m)");
    assert_eq!(event.message_type, MessageType::Position);
    assert_eq!(event.to, "broadcast");
    let bare = describe_packet(&p, &none(), at()).unwrap();
    assert_eq!(bare.text, "Position: ,  (alt: -12m)");
}

#[test]
fn telemetry_events_name_the_readings() {
    let device = DeviceMetrics { battery_level: 87, uptime_seconds: 3600, ..Default::default() };
    let cases = vec![
        (
            Some(TelemetryVariant::DeviceMetrics(device)),
            rendered(&["4.10"]),
            "Battery: 87%, Voltage: 4.10V, Uptime: 3600s",
        ),
        (
            Some(TelemetryVariant::EnvironmentMetrics(EnvironmentMetrics::default())),
            rendered(&["21.5", "40.0", "1013.2"]),
            "Temp: 21.5°C, Humidity: 40.0%, Pressure: 1013.2hPa",
        ),
        (
            Some(TelemetryVariant::PowerMetrics(PowerMetrics::default())),
            rendered(&["5.00", "0.25"]),
            "Power: 5.00V/0.25A",
        ),
        (None, none(), "Telemetry data"),
    ];
    for (variant, texts, expected) in cases {
        let telemetry = TelemetryData { time: 0, variant };
        let p = packet(3, 5, 4, Some(PayloadVariant::Telemetry(telemetry)));
        let event = describe_packet(&p, &texts, at()).unwrap();
        assert_eq!(event.text, expected);
        assert_eq!(event.to, "broadcast");
        assert_eq!(event.message_type, MessageType::Telemetry);
        assert_eq!(event.want_ack, Some(false));
    }
}

#[test]
fn admin_event_keeps_destination_and_ack() {
    let mut p = packet(3, 5, 4, Some(PayloadVariant::Admin(AdminMessage::default())));
    p.want_ack = true;
    let event = describe_packet(&p, &none(), at()).unwrap();
    assert_eq!(event.text, "Admin message");
    assert_eq!(event.to, "5");
    assert_eq!(event.want_ack, Some(true));
    assert_eq!(event.message_type, MessageType::Admin);
    let to_all = packet(3, BROADCAST_ADDR, 4, Some(PayloadVariant::Admin(AdminMessage::default())));
    assert_eq!(describe_packet(&to_all, &none(), at()).unwrap().to, "4294967295");
}

#[test]
fn routing_raw_and_empty_packets_give_no_event() {
    let mut processor = MessageProcessor::new();
    let payloads = vec![
        Some(PayloadVariant::Routing(Routing::default())),
        Some(PayloadVariant::Raw(vec![1, 2, 3])),
        None,
    ];
    for (i, payload) in payloads.into_iter().enumerate() {
        let p = packet(1, 2, i as u32, payload);
        assert_eq!(processor.process_packet(p, &none(), at()).unwrap(), None);
    }
    // The ids are remembered all the same.
    let again = text(1, 0, "late");
    assert_eq!(processor.process_packet(again, &none(), at()).unwrap(), None);
}

#[test]
fn only_text_joins_the_history() {
    let mut processor = MessageProcessor::new();
    processor
        .process_packet(
            packet(1, 2, 1, Some(PayloadVariant::Admin(AdminMessage::default()))),
            &none(),
            at(),
        )
        .unwrap();
    processor
        .process_packet(
            packet(1, 2, 2, Some(PayloadVariant::Position(Position::default()))),
            &none(),
            at(),
        )
        .unwrap();
    assert!(processor.get_message_history().is_empty());
    processor.process_packet(text(1, 3, "a"), &none(), at()).unwrap();
    assert_eq!(processor.get_message_history().len(), 1);
}

#[test]
fn packet_cache_is_cleared_when_full() {
    let mut processor = MessageProcessor::new();
    for id in 0..PACKET_CACHE_LIMIT as u32 {
        assert!(processor.process_packet(text(1, id, "m"), &none(), at()).unwrap().is_some());
    }
    // All thousand ids are remembered.
    assert_eq!(processor.process_packet(text(1, 0, "dup"), &none(), at()).unwrap(), None);
    assert_eq!(processor.process_packet(text(1, 999, "dup"), &none(), at()).unwrap(), None);
    // One more new id empties the memory, itself included.
    assert!(processor.process_packet(text(1, 5000, "new"), &none(), at()).unwrap().is_some());
    assert!(processor.process_packet(text(1, 5000, "again"), &none(), at()).unwrap().is_some());
    assert_eq!(processor.process_packet(text(1, 5000, "third"), &none(), at()).unwrap(), None);
    assert!(processor.process_packet(text(1, 0, "back"), &none(), at()).unwrap().is_some());
}

#[test]
fn history_keeps_the_latest_ten_thousand() {
    let mut processor = MessageProcessor::new();
    let total = HISTORY_LIMIT as u32 + 5;
    for id in 0..total {
        processor.process_packet(text(1, id, "m"), &none(), at()).unwrap();
    }
    let history = processor.get_message_history();
    assert_eq!(history.len(), HISTORY_LIMIT);
    assert_eq!(history[0].packet_id, Some(5));
    assert_eq!(history[HISTORY_LIMIT - 1].packet_id, Some(total - 1));
}

#[test]
fn recent_messages_are_the_tail_of_the_history() {
    let mut processor = MessageProcessor::new();
    for id in 0..5 {
        processor.process_packet(text(1, id, "m"), &none(), at()).unwrap();
    }
    let ids = |messages: Vec<MeshMessage>| -> Vec<u32> {
        messages.iter().map(|m| m.packet_id.unwrap()).collect()
    };
    assert_eq!(ids(processor.get_recent_messages(2)), vec![3, 4]);
    assert_eq!(ids(processor.get_recent_messages(5)), vec![0, 1, 2, 3, 4]);
    assert_eq!(ids(processor.get_recent_messages(9)), vec![0, 1, 2, 3, 4]);
    assert_eq!(ids(processor.get_recent_messages(0)), Vec::<u32>::new());
}

#[test]
fn snr_bits_do_not_matter_to_events() {
    let mut p = text(1, 1, "x");
    p.rx_snr = Float32::from_bits(5.5f32.to_bits());
    assert_eq!(describe_packet(&p, &none(), at()).unwrap().text, "x");
}

#[test]
fn history_and_directory_can_be_emptied() {
    let mut processor = MessageProcessor::new();
    processor.process_packet(text(1, 1, "a"), &none(), at()).unwrap();
    processor
        .process_packet(
            packet(9, BROADCAST_ADDR, 2, Some(PayloadVariant::NodeInfo(user("N", "n")))),
            &none(),
            at(),
        )
        .unwrap();
    processor.clear_history();
    assert!(processor.get_message_history().is_empty());
    assert_eq!(processor.get_all_nodes().len(), 1);
    processor.reset_directory();
    assert!(processor.get_all_nodes().is_empty());
    // The ids are still remembered.
    assert_eq!(processor.process_packet(text(1, 1, "again"), &none(), at()).unwrap(), None);
}
