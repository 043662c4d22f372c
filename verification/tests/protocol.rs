use lora_comms::clock::Timestamp;
use lora_comms::protocol::handler::{destination_of, ProtocolHandler};
use lora_comms::protocol::{
    Config_LoRaConfig_ModemPreset, Config_LoRaConfig_RegionCode, Float32, HardwareModel,
    MeshMessage, MeshPacket, MeshPacket_Priority, MessageType, NodeInfo, PayloadVariant,
    Position, ProtocolError, Role, Routing, Routing_Error, TelemetryData, User, BROADCAST_ADDR,
};

fn text_message(to: &str, text: &str) -> MeshMessage {
    MeshMessage::text_at(
        "local".to_string(),
        to.to_string(),
        text.to_string(),
        Timestamp::new(10, 0),
        99,
    )
}

#[test]
fn envelope_of_abc() {
    let handler = ProtocolHandler::with_node_id(1);
    let framed = handler.frame_data(b"abc");
    assert_eq!(framed, vec![0x94, 0xC3, 3, 0, b'a', b'b', b'c', 0x61 ^ 0x62 ^ 0x63]);
}

#[test]
fn envelope_round_trip() {
    let handler = ProtocolHandler::with_node_id(1);
    for data in [vec![], vec![0u8], vec![1, 2, 3, 0x94, 0xC3], vec![7u8; 300]] {
        let framed = handler.frame_data(&data);
        assert_eq!(handler.unframe_data(&framed), Ok(data));
    }
}

#[test]
fn envelope_length_is_little_endian() {
    let handler = ProtocolHandler::with_node_id(1);
    let framed = handler.frame_data(&vec![0u8; 0x1234]);
    assert_eq!(framed[2], 0x34);
    assert_eq!(framed[3], 0x12);
    assert_eq!(framed.len(), 4 + 0x1234 + 1);
}

#[test]
fn unframe_rejects_what_is_no_envelope() {
    let handler = ProtocolHandler::with_node_id(1);
    let good = handler.frame_data(b"hello");
    assert_eq!(handler.unframe_data(&good[..4]), Err(ProtocolError::InvalidFormat));
    assert_eq!(handler.unframe_data(&[]), Err(ProtocolError::InvalidFormat));
    let mut wrong_start = good.clone();
    wrong_start[0] = 0x95;
    assert_eq!(handler.unframe_data(&wrong_start), Err(ProtocolError::InvalidFormat));
    let mut wrong_second = good.clone();
    wrong_second[1] = 0xC4;
    assert_eq!(handler.unframe_data(&wrong_second), Err(ProtocolError::InvalidFormat));
    let mut wrong_check = good.clone();
    *wrong_check.last_mut().unwrap() ^= 1;
    assert_eq!(handler.unframe_data(&wrong_check), Err(ProtocolError::InvalidFormat));
    let mut wrong_byte = good.clone();
    wrong_byte[5] ^= 0x10;
    assert_eq!(handler.unframe_data(&wrong_byte), Err(ProtocolError::InvalidFormat));
    assert_eq!(handler.unframe_data(&good[..good.len() - 1]), Err(ProtocolError::InvalidFormat));
}

#[test]
fn unframe_ignores_what_follows_the_envelope() {
    let handler = ProtocolHandler::with_node_id(1);
    let mut framed = handler.frame_data(b"hello");
    framed.extend_from_slice(&[1, 2, 3]);
    assert_eq!(handler.unframe_data(&framed), Ok(b"hello".to_vec()));
}

#[test]
fn handler_knows_its_node_id() {
    assert_eq!(ProtocolHandler::with_node_id(77).get_local_node_id(), 77);
    let handler = ProtocolHandler::new();
    assert_eq!(handler.get_local_node_id(), handler.get_local_node_id());
}

#[test]
fn destination_of_names_and_numbers() {
    assert_eq!(destination_of(&"broadcast".to_string()), BROADCAST_ADDR);
    assert_eq!(destination_of(&"42".to_string()), 42);
    assert_eq!(destination_of(&"+42".to_string()), 42);
    assert_eq!(destination_of(&"nobody".to_string()), BROADCAST_ADDR);
    assert_eq!(destination_of(&"".to_string()), BROADCAST_ADDR);
    assert_eq!(destination_of(&"4294967296".to_string()), BROADCAST_ADDR);
}

#[test]
fn text_packet_carries_the_message() {
    let handler = ProtocolHandler::with_node_id(5);
    let packet = handler.text_packet_with(&text_message("42", "hello"), 1234, 5678);
    assert_eq!(
        packet,
        MeshPacket {
            from: 5,
            to: 42,
            id: 1234,
            payload: Some(PayloadVariant::Text("hello".to_string())),
            hop_limit: 3,
            want_ack: false,
            priority: MeshPacket_Priority::DEFAULT,
            rx_time: 5678,
            rx_snr: Float32 { bits: 0 },
            rx_rssi: 0,
            channel: 0,
        }
    );
    let random = handler.text_packet(&text_message("broadcast", "hi"));
    assert_eq!(random.from, 5);
    assert_eq!(random.to, BROADCAST_ADDR);
    assert_eq!(random.payload, Some(PayloadVariant::Text("hi".to_string())));
}

#[test]
fn message_from_text_packet() {
    let handler = ProtocolHandler::with_node_id(5);
    let mut packet = MeshPacket::new_text_message(7, BROADCAST_ADDR, "hello mesh");
    packet.id = 11;
    packet.want_ack = true;
    packet.channel = 2;
    let now = Timestamp::new(1000, 5);
    let message = handler.message_from_packet(&packet, now).unwrap();
    assert_eq!(
        message,
        MeshMessage {
            from: "7".to_string(),
            to: "broadcast".to_string(),
            text: "hello mesh".to_string(),
            timestamp: now,
            want_ack: Some(true),
            packet_id: Some(11),
            hop_limit: Some(3),
            channel: Some(2),
            message_type: MessageType::Text,
        }
    );
    packet.to = 9;
    assert_eq!(handler.message_from_packet(&packet, now).unwrap().to, "9");
}

#[test]
fn message_from_other_packet_is_unsupported() {
    let handler = ProtocolHandler::with_node_id(5);
    let now = Timestamp::new(1000, 5);
    let position = MeshPacket::new_position(7, Position::default());
    assert_eq!(handler.message_from_packet(&position, now), Err(ProtocolError::UnsupportedType));
    let empty = MeshPacket::default();
    assert_eq!(handler.message_from_packet(&empty, now), Err(ProtocolError::UnsupportedType));
}

#[test]
fn packet_constructors_set_the_common_fields() {
    let text = MeshPacket::new_text_message(1, 2, "x");
    assert_eq!((text.from, text.to, text.hop_limit, text.want_ack), (1, 2, 3, false));
    assert_eq!(text.priority, MeshPacket_Priority::DEFAULT);
    assert_eq!(text.get_message_type(), MessageType::Text);
    assert!(!text.is_broadcast());

    let user = User { id: "!abc".to_string(), long_name: "Alice".to_string(), ..User::default() };
    let info = MeshPacket::new_node_info(3, user.clone());
    assert_eq!(info.to, BROADCAST_ADDR);
    assert!(info.is_broadcast());
    assert_eq!(info.payload, Some(PayloadVariant::NodeInfo(user)));
    assert_eq!(info.priority, MeshPacket_Priority::DEFAULT);
    assert_eq!(info.get_message_type(), MessageType::NodeInfo);

    let position = MeshPacket::new_position(4, Position { altitude: 9, ..Position::default() });
    assert_eq!(position.priority, MeshPacket_Priority::BACKGROUND);
    assert_eq!(position.get_message_type(), MessageType::Position);

    let telemetry = MeshPacket::new_telemetry(5, TelemetryData::default());
    assert_eq!(telemetry.priority, MeshPacket_Priority::BACKGROUND);
    assert_eq!(telemetry.get_message_type(), MessageType::Telemetry);

    let empty = MeshPacket::default();
    assert_eq!((empty.from, empty.to, empty.payload.clone()), (0, BROADCAST_ADDR, None));
    assert_eq!(empty.get_message_type(), MessageType::Unknown);
}

#[test]
fn message_type_of_every_payload() {
    let mut packet = MeshPacket::default();
    packet.payload = Some(PayloadVariant::Routing(Routing::default()));
    assert_eq!(packet.get_message_type(), MessageType::Routing);
    packet.payload = Some(PayloadVariant::Admin(Default::default()));
    assert_eq!(packet.get_message_type(), MessageType::Admin);
    packet.payload = Some(PayloadVariant::Raw(vec![1, 2]));
    assert_eq!(packet.get_message_type(), MessageType::Unknown);
}

#[test]
fn mesh_message_constructors() {
    let m = MeshMessage::new_text("a".to_string(), "b".to_string(), "c".to_string());
    assert_eq!((m.from.as_str(), m.to.as_str(), m.text.as_str()), ("a", "b", "c"));
    assert_eq!(m.want_ack, Some(false));
    assert_eq!(m.hop_limit, Some(3));
    assert_eq!(m.channel, Some(0));
    assert!(m.packet_id.is_some());
    assert_eq!(m.message_type, MessageType::Text);
    assert!(!m.is_broadcast());
    assert!(!m.requires_ack());

    let b = MeshMessage::new_broadcast("a".to_string(), "hello".to_string());
    assert_eq!(b.to, "broadcast");
    assert!(b.is_broadcast());

    let mut all = text_message("^all", "x");
    assert!(all.is_broadcast());
    all.want_ack = Some(true);
    assert!(all.requires_ack());
    all.want_ack = None;
    assert!(!all.requires_ack());
    assert_eq!(all.clone(), all);
}

#[test]
fn node_info_constructors() {
    let node = NodeInfo::new("id".to_string(), "name".to_string(), "nm".to_string());
    assert_eq!(
        node,
        NodeInfo {
            id: "id".to_string(),
            name: "name".to_string(),
            short_name: "nm".to_string(),
            is_online: false
        }
    );
    let all = NodeInfo::broadcast_node();
    assert_eq!(
        all,
        NodeInfo {
            id: "broadcast".to_string(),
            name: "All Nodes".to_string(),
            short_name: "ALL".to_string(),
            is_online: true
        }
    );
    assert_eq!(all.clone(), all);
}

#[test]
fn protocol_error_messages() {
    assert_eq!(ProtocolError::InvalidFormat.message(), "Invalid message format");
    assert_eq!(ProtocolError::UnsupportedType.message(), "Unsupported message type");
    assert_eq!(
        ProtocolError::Serialization("eof".to_string()).message(),
        "Serialization error: eof"
    );
    assert_eq!(ProtocolError::Encoding("x".to_string()).message(), "Encoding error: x");
    assert_eq!(ProtocolError::Decoding("y".to_string()).message(), "Decoding error: y");
    assert_eq!(ProtocolError::Protobuf("z".to_string()).message(), "Protobuf error: z");
    assert_eq!(ProtocolError::InvalidNodeId.message(), "Invalid node ID");
}

#[test]
fn wire_codes_of_the_enums() {
    assert_eq!(MeshPacket_Priority::DEFAULT.code(), 64);
    assert_eq!(MeshPacket_Priority::MIN.code(), 1);
    assert_eq!(MeshPacket_Priority::BACKGROUND.code(), 10);
    assert_eq!(MeshPacket_Priority::RELIABLE.code(), 70);
    assert_eq!(MeshPacket_Priority::ACK.code(), 120);
    assert_eq!(MeshPacket_Priority::MAX.code(), 127);
    assert_eq!(HardwareModel::TLORA_V2_1_1P6.code(), 7);
    assert_eq!(HardwareModel::default(), HardwareModel::UNSET);
    assert_eq!(Role::REPEATER.code(), 4);
    assert_eq!(Role::default(), Role::CLIENT);
    assert_eq!(Routing_Error::BAD_REQUEST.code(), 32);
    assert_eq!(Routing_Error::NOT_AUTHORIZED.code(), 33);
    assert_eq!(Routing_Error::DUTY_CYCLE_LIMIT.code(), 9);
    assert_eq!(Config_LoRaConfig_RegionCode::SG_923.code(), 18);
    assert_eq!(Config_LoRaConfig_RegionCode::EU_868.code(), 3);
    assert_eq!(Config_LoRaConfig_ModemPreset::SHORT_FAST.code(), 6);
    assert_eq!(Config_LoRaConfig_ModemPreset::LONG_FAST.code(), 0);
    assert_eq!(MeshPacket_Priority::default(), MeshPacket_Priority::DEFAULT);
}

#[test]
fn float_stand_in_knows_zero() {
    assert!(Float32::from_bits(0).is_zero());
    assert!(Float32::from_bits(0x8000_0000).is_zero());
    assert!(!Float32::from_bits(1.5f32.to_bits()).is_zero());
    assert!(!Float32::from_bits(f32::NAN.to_bits()).is_zero());
    assert_eq!(Float32::from_bits(7).to_bits(), 7);
    for v in [0.0f32, -0.0, 1.0, -3.5, f32::NAN, f32::INFINITY, f32::MIN_POSITIVE] {
        assert_eq!(Float32::from_bits(v.to_bits()).is_zero(), v == 0.0);
    }
}

#[test]
fn user_duplicate_says_the_same() {
    let user = User {
        id: "!1".to_string(),
        long_name: "Long".to_string(),
        short_name: "L".to_string(),
        macaddr: vec![1, 2, 3, 4, 5, 6],
        hw_model: HardwareModel::TBEAM,
        is_licensed: true,
        role: Role::ROUTER,
    };
    assert_eq!(user.duplicate(), user);
}
