use lora_comms::clock::Timestamp;
use lora_comms::mqtt::config::qos_for;
use lora_comms::mqtt::gateway::{
    continue_after_heartbeat, make_channel_topic, make_heartbeat_topic, make_stat_topic,
    on_broker_event, topic_for, uptime_seconds, BrokerEvent, EventAction, MqttPayload,
    PublishOutcome, CLIENT_QUEUE_CAPACITY, DEFAULT_BROKER_PORT,
};
use lora_comms::mqtt::manager::HEARTBEAT_INTERVAL_SECS;
use lora_comms::mqtt::{
    GatewayStats, MqttConfig, MqttError, MqttGateway, MqttGatewayManager, QoS,
};
use lora_comms::protocol::{
    AdminMessage, Float32, MeshPacket, PayloadVariant, Position, Routing, TelemetryData, User,
    BROADCAST_ADDR,
};

fn at() -> Timestamp {
    Timestamp::new(1_700_000_000, 0)
}

fn config(url: &str) -> MqttConfig {
    let mut c = MqttConfig::local("gw1".to_string());
    c.broker_url = url.to_string();
    c
}

fn gateway() -> MqttGateway {
    MqttGateway::new(config("mqtt://broker.example.com:1884")).unwrap()
}

fn connected_gateway() -> MqttGateway {
    let mut g = gateway();
    g.on_connected();
    g
}

fn packet(from: u32, id: u32, payload: Option<PayloadVariant>) -> MeshPacket {
    let mut p = MeshPacket::default();
    p.from = from;
    p.id = id;
    p.payload = payload;
    p
}

fn text(from: u32, body: &str) -> MeshPacket {
    packet(from, 1, Some(PayloadVariant::Text(body.to_string())))
}

fn user(long: &str) -> User {
    User { long_name: long.to_string(), ..User::default() }
}

#[test]
fn test_mqtt_config_default() {
    let config = MqttConfig::default();
    assert_eq!(config.broker_url, "mqtt://localhost:1883");
    assert_eq!(config.topic_prefix, "msh");
    assert!(!config.use_tls);
}

#[test]
fn default_config_has_a_fresh_client_id() {
    let a = MqttConfig::default();
    let b = MqttConfig::default();
    assert!(a.client_id.starts_with("lora-comms-"));
    assert_eq!(a.client_id.len(), "lora-comms-".len() + 36);
    assert_ne!(a.client_id, b.client_id);
    assert_eq!((a.keep_alive, a.qos, a.retain), (60, 1, false));
    assert_eq!((a.username.clone(), a.password.clone()), (None, None));
    assert_eq!(a.clone(), a);
}

#[test]
fn test_gateway_manager() {
    let mut manager = MqttGatewayManager::new();

    let config = MqttConfig {
        broker_url: "mqtt://test.mosquitto.org:1883".to_string(),
        ..Default::default()
    };

    assert!(manager.add_gateway("test".to_string(), config).is_ok());
    assert_eq!(manager.list_gateways(), vec!["test"]);
}

#[test]
fn topics_follow_the_layout() {
    assert_eq!(make_channel_topic("msh", "gw1", 42), "msh/2/c/LongFast/gw1/42");
    assert_eq!(make_stat_topic("msh", 42), "msh/2/stat/42");
    assert_eq!(make_heartbeat_topic("msh", "gw1"), "msh/2/stat/gw1/heartbeat");
    assert_eq!(make_channel_topic("", "", 0), "/2/c/LongFast//0");
    assert_eq!(make_stat_topic("a/b", u32::MAX), "a/b/2/stat/4294967295");
}

#[test]
fn text_from_node_42_goes_to_the_channel_topic() {
    assert_eq!(topic_for("msh", "gw1", &text(42, "hi")), "msh/2/c/LongFast/gw1/42");
}

#[test]
fn telemetry_from_node_42_goes_to_the_stat_topic() {
    let p = packet(42, 1, Some(PayloadVariant::Telemetry(TelemetryData::default())));
    assert_eq!(topic_for("msh", "gw1", &p), "msh/2/stat/42");
}

#[test]
fn every_other_payload_goes_to_the_channel_topic() {
    let payloads = vec![
        Some(PayloadVariant::NodeInfo(user("n"))),
        Some(PayloadVariant::Position(Position::default())),
        Some(PayloadVariant::Admin(AdminMessage::default())),
        Some(PayloadVariant::Routing(Routing::default())),
        Some(PayloadVariant::Raw(vec![1])),
        None,
    ];
    for payload in payloads {
        assert_eq!(topic_for("msh", "gw1", &packet(7, 1, payload)), "msh/2/c/LongFast/gw1/7");
    }
}

#[test]
fn qos_levels() {
    assert_eq!(qos_for(0), QoS::AtMostOnce);
    assert_eq!(qos_for(1), QoS::AtLeastOnce);
    assert_eq!(qos_for(2), QoS::ExactlyOnce);
    assert_eq!(qos_for(3), QoS::AtLeastOnce);
    assert_eq!(qos_for(255), QoS::AtLeastOnce);
}

#[test]
fn connection_plan_reads_the_url() {
    let mut c = config("mqtt://broker.example.com:1884");
    c.username = Some("user".to_string());
    c.password = Some("secret".to_string());
    c.use_tls = true;
    c.keep_alive = 30;
    let plan = MqttGateway::new(c).unwrap().connect().unwrap();
    assert_eq!(plan.client_id, "gw1");
    assert_eq!(plan.host, "broker.example.com");
    assert_eq!(plan.port, 1884);
    assert_eq!(plan.keep_alive_secs, 30);
    assert_eq!(plan.credentials, Some(("user".to_string(), "secret".to_string())));
    assert!(plan.use_tls);
    assert_eq!(plan.capacity, CLIENT_QUEUE_CAPACITY);
    assert_eq!(plan.capacity, 100);
    assert_eq!(
        plan.subscriptions,
        vec!["msh/2/c/LongFast/+/+", "msh/2/e/LongFast/+/+", "msh/2/stat/+"]
    );
    assert_eq!(plan.subscribe_qos, QoS::AtMostOnce);
}

#[test]
fn connection_plan_defaults() {
    let mut c = config("mqtt://10.0.0.7");
    c.username = Some("user".to_string());
    let plan = MqttGateway::new(c).unwrap().connect().unwrap();
    assert_eq!(plan.host, "10.0.0.7");
    assert_eq!(plan.port, DEFAULT_BROKER_PORT);
    assert_eq!(plan.port, 1883);
    assert_eq!(plan.credentials, Some(("user".to_string(), String::new())));

    let mut c = config("mqtt://localhost:1883");
    c.password = Some("unused".to_string());
    let plan = MqttGateway::new(c).unwrap().connect().unwrap();
    assert_eq!(plan.host, "localhost");
    assert_eq!(plan.port, 1883);
    assert_eq!(plan.credentials, None);
    assert!(!plan.use_tls);
}

#[test]
fn connection_plan_rejects_bad_urls() {
    let plan = MqttGateway::new(config("not a url")).unwrap().connect();
    assert_eq!(
        plan,
        Err(MqttError::InvalidUrl(
            "Invalid broker URL: relative URL without a base".to_string()
        ))
    );
    let plan = MqttGateway::new(config("mailto:someone@example.com")).unwrap().connect();
    assert_eq!(plan, Err(MqttError::InvalidUrl("No host in URL".to_string())));
}

#[test]
fn new_gateway_counts_nothing() {
    let g = gateway();
    assert!(!g.is_connected());
    assert_eq!(g.get_stats(), GatewayStats::default());
    assert!(g.get_connected_nodes().is_empty());
    assert_eq!(g.config().client_id, "gw1");
}

#[test]
fn connections_and_disconnections_are_counted() {
    let mut g = gateway();
    g.on_connected();
    assert!(g.is_connected());
    assert_eq!(g.get_stats().mqtt_connections, 1);
    assert_eq!(
        g.disconnect(Err("broker gone".to_string())),
        Err(MqttError::ConnectionFailed("Failed to disconnect: broker gone".to_string()))
    );
    assert!(g.is_connected());
    assert_eq!(g.get_stats().mqtt_disconnections, 0);
    assert_eq!(g.disconnect(Ok(())), Ok(()));
    assert!(!g.is_connected());
    assert_eq!(g.get_stats().mqtt_disconnections, 1);
    assert_eq!(g.disconnect(Ok(())), Ok(()));
    assert_eq!(g.get_stats().mqtt_disconnections, 2);
    assert_eq!(g.get_stats().mqtt_connections, 1);
}

#[test]
fn unconnected_gateway_publishes_nothing_but_counts_the_packet() {
    let mut g = gateway();
    assert_eq!(g.process_mesh_packet(text(42, "hi"), at()), None);
    assert_eq!(g.finish_packet(PublishOutcome::Skipped, at()), Ok(()));
    let stats = g.get_stats();
    assert_eq!(stats.messages_received, 1);
    assert_eq!(stats.messages_published, 0);
    assert_eq!(stats.last_message_time, None);
}

#[test]
fn publish_plan_for_a_text_packet() {
    let mut c = config("mqtt://h");
    c.qos = 2;
    c.retain = true;
    let mut g = MqttGateway::new(c).unwrap();
    g.on_connected();
    let mut p = text(42, "hi");
    p.to = 9;
    p.id = 77;
    p.channel = 3;
    p.hop_limit = 2;
    p.rx_rssi = -80;
    p.rx_snr = Float32::from_bits(6.25f32.to_bits());
    let plan = g.process_mesh_packet(p, at()).unwrap();
    assert_eq!(plan.topic, "msh/2/c/LongFast/gw1/42");
    assert_eq!(plan.qos, QoS::ExactlyOnce);
    assert!(plan.retain);
    let m = plan.message;
    assert_eq!(m.timestamp, at());
    assert_eq!((m.from, m.to, m.id, m.channel, m.hop_limit), (42, 9, 77, 3, 2));
    assert_eq!(m.payload_type, "TEXT_MESSAGE_APP");
    assert_eq!(m.payload, MqttPayload::Text("hi".to_string()));
    assert_eq!(m.rssi, Some(-80));
    assert_eq!(m.snr, Some(Float32::from_bits(6.25f32.to_bits())));
    assert_eq!(m.gateway_id, "gw1");
}

#[test]
fn bridged_message_of_every_payload() {
    let g = connected_gateway();
    let cases = vec![
        (Some(PayloadVariant::NodeInfo(user("n"))), "NODEINFO_APP", MqttPayload::NodeInfo(user("n"))),
        (
            Some(PayloadVariant::Position(Position::default())),
            "POSITION_APP",
            MqttPayload::Position(Position::default()),
        ),
        (
            Some(PayloadVariant::Telemetry(TelemetryData::default())),
            "TELEMETRY_APP",
            MqttPayload::Telemetry(TelemetryData::default()),
        ),
        (
            Some(PayloadVariant::Admin(AdminMessage::default())),
            "ADMIN_APP",
            MqttPayload::Admin(AdminMessage::default()),
        ),
        (
            Some(PayloadVariant::Routing(Routing::default())),
            "ROUTING_APP",
            MqttPayload::Routing(Routing::default()),
        ),
        (Some(PayloadVariant::Raw(b"hi".to_vec())), "RAW", MqttPayload::Raw("aGk=".to_string())),
        (None, "UNKNOWN", MqttPayload::Empty),
    ];
    for (payload, name, bridged) in cases {
        let m = g.convert_to_mqtt_message(packet(5, 6, payload), at());
        assert_eq!(m.payload_type, name);
        assert_eq!(m.payload, bridged);
        assert_eq!(m.rssi, None);
        assert_eq!(m.snr, None);
        assert_eq!(m.to, BROADCAST_ADDR);
    }
}

#[test]
fn raw_bytes_travel_as_base64() {
    let g = connected_gateway();
    let m = g.convert_to_mqtt_message(
        packet(5, 6, Some(PayloadVariant::Raw(vec![0xFB, 0xEF, 0xFF, 0x00]))),
        at(),
    );
    assert_eq!(m.payload, MqttPayload::Raw("++//AA==".to_string()));
    let empty = g.convert_to_mqtt_message(packet(5, 6, Some(PayloadVariant::Raw(vec![]))), at());
    assert_eq!(empty.payload, MqttPayload::Raw(String::new()));
}

#[test]
fn negative_zero_snr_is_not_reported() {
    let g = connected_gateway();
    let mut p = text(1, "x");
    p.rx_snr = Float32::from_bits((-0.0f32).to_bits());
    assert_eq!(g.convert_to_mqtt_message(p, at()).snr, None);
}

#[test]
fn stats_rise_by_one_per_success() {
    let mut g = connected_gateway();
    let mut last = g.get_stats();
    for i in 0..5u32 {
        let plan = g.process_mesh_packet(text(1, "m"), at());
        assert!(plan.is_some());
        assert_eq!(g.get_stats(), last);
        let now = Timestamp::new(100 + i as i64, 0);
        if i % 2 == 0 {
            assert_eq!(g.finish_packet(PublishOutcome::Published, now), Ok(()));
            let stats = g.get_stats();
            assert_eq!(stats.messages_published, last.messages_published + 1);
            assert_eq!(stats.messages_received, last.messages_received + 1);
            assert_eq!(stats.last_message_time, Some(now));
        } else {
            let failure = MqttError::publish_failed("queue full");
            assert_eq!(g.finish_packet(PublishOutcome::Failed(failure.clone()), now), Err(failure));
            assert_eq!(g.get_stats(), last);
        }
        let stats = g.get_stats();
        assert!(stats.messages_published >= last.messages_published);
        assert!(stats.messages_received >= last.messages_received);
        last = stats;
    }
    assert_eq!(last.messages_published, 3);
    assert_eq!(last.messages_received, 3);
}

#[test]
fn record_published_counts_one() {
    let mut g = connected_gateway();
    g.record_published(at());
    g.record_published(Timestamp::new(5, 0));
    assert_eq!(g.get_stats().messages_published, 2);
    assert_eq!(g.get_stats().last_message_time, Some(Timestamp::new(5, 0)));
    assert_eq!(g.get_stats().messages_received, 0);
}

#[test]
fn node_info_enters_the_directory_before_the_publish() {
    let mut g = connected_gateway();
    let plan = g.process_mesh_packet(packet(9, 1, Some(PayloadVariant::NodeInfo(user("Old")))), at());
    assert!(plan.is_some());
    assert_eq!(g.get_connected_nodes(), vec![(9, user("Old"))]);
    assert_eq!(g.get_stats().connected_nodes, 0);
    g.finish_packet(PublishOutcome::Published, at()).unwrap();
    assert_eq!(g.get_stats().connected_nodes, 1);
    g.process_mesh_packet(packet(9, 2, Some(PayloadVariant::NodeInfo(user("New")))), at());
    g.finish_packet(PublishOutcome::Failed(MqttError::publish_failed("x")), at()).unwrap_err();
    assert_eq!(g.get_connected_nodes(), vec![(9, user("New"))]);
    assert_eq!(g.get_node(9), Some(user("New")));
    assert_eq!(g.get_node(1), None);
    g.process_mesh_packet(packet(10, 3, Some(PayloadVariant::NodeInfo(user("Other")))), at());
    g.finish_packet(PublishOutcome::Published, at()).unwrap();
    assert_eq!(g.get_stats().connected_nodes, 2);
}

#[test]
fn heartbeat_reports_the_time_up() {
    let mut g = connected_gateway();
    g.record_published(at());
    let plan = g.heartbeat(Timestamp::new(1000, 500_000_000), Timestamp::new(1090, 0)).unwrap();
    assert_eq!(plan.topic, "msh/2/stat/gw1/heartbeat");
    assert_eq!(plan.qos, QoS::AtMostOnce);
    assert!(!plan.retain);
    assert_eq!(plan.stats.uptime_seconds, 89);
    assert_eq!(plan.stats.messages_published, 1);
    assert_eq!(g.get_stats(), plan.stats);
    assert!(continue_after_heartbeat(true));
    assert!(continue_after_heartbeat(false));
    assert_eq!(HEARTBEAT_INTERVAL_SECS, 300);
}

#[test]
fn heartbeat_of_an_unconnected_gateway_is_silent() {
    let mut g = gateway();
    assert_eq!(g.heartbeat(Timestamp::new(0, 0), Timestamp::new(50, 0)), None);
    assert_eq!(g.get_stats().uptime_seconds, 0);
}

#[test]
fn uptime_wraps_when_the_clock_went_back() {
    assert_eq!(uptime_seconds(Timestamp::new(10, 0), Timestamp::new(70, 999_999_999)), 60);
    assert_eq!(uptime_seconds(Timestamp::new(10, 0), Timestamp::new(10, 0)), 0);
    assert_eq!(uptime_seconds(Timestamp::new(10, 0), Timestamp::new(9, 500_000_000)), 0);
    assert_eq!(uptime_seconds(Timestamp::new(10, 0), Timestamp::new(9, 0)), (-1i64) as u64);
    assert_eq!(uptime_seconds(Timestamp::new(100, 0), Timestamp::new(0, 0)), (-100i64) as u64);
}

#[test]
fn only_published_messages_are_parsed() {
    assert_eq!(
        on_broker_event(BrokerEvent::Publish { topic: "t".to_string(), payload: vec![1, 2] }),
        EventAction::Parse(vec![1, 2])
    );
    assert_eq!(on_broker_event(BrokerEvent::Incoming), EventAction::Observe);
    assert_eq!(on_broker_event(BrokerEvent::Outgoing), EventAction::Ignore);
    assert_eq!(on_broker_event(BrokerEvent::Failed), EventAction::Stop);
}

#[test]
fn mqtt_error_messages() {
    assert_eq!(MqttError::ConnectionFailed("a".to_string()).message(), "Connection failed: a");
    assert_eq!(MqttError::Mqtt("b".to_string()).message(), "MQTT error: b");
    assert_eq!(MqttError::Serialization("c".to_string()).message(), "Serialization error: c");
    assert_eq!(MqttError::InvalidUrl("d".to_string()).message(), "Invalid URL: d");
    assert_eq!(MqttError::Configuration("e".to_string()).message(), "Configuration error: e");
    assert_eq!(
        MqttError::subscribe_failed("msh/2/stat/+", "timeout"),
        MqttError::ConnectionFailed("Failed to subscribe to msh/2/stat/+: timeout".to_string())
    );
    assert_eq!(
        MqttError::not_found("x"),
        MqttError::Configuration("Gateway 'x' not found".to_string())
    );
}

#[test]
fn unknown_gateway_is_not_found() {
    let mut manager = MqttGatewayManager::new();
    let not_found = MqttError::Configuration("Gateway 'nope' not found".to_string());
    assert_eq!(manager.connect_gateway("nope").unwrap_err(), not_found);
    assert_eq!(manager.on_gateway_connected("nope"), Err(not_found.clone()));
    assert_eq!(manager.is_gateway_connected("nope"), Err(not_found.clone()));
    assert_eq!(manager.disconnect_gateway("nope", Ok(())), Err(not_found.clone()));
    assert_eq!(manager.process_packet("nope", text(1, "x"), at()), Err(not_found.clone()));
    assert_eq!(manager.finish_packet("nope", PublishOutcome::Published, at()), Err(not_found.clone()));
    assert_eq!(
        manager.heartbeat("nope", Timestamp::new(0, 0), Timestamp::new(1, 0)),
        Err(not_found)
    );
    assert_eq!(manager.get_gateway_stats("nope"), None);
    assert!(manager.list_gateways().is_empty());
}

#[test]
fn manager_routes_to_the_named_gateway() {
    let mut manager = MqttGatewayManager::new();
    manager.add_gateway("a".to_string(), config("mqtt://a.example:1")).unwrap();
    manager.add_gateway("b".to_string(), config("mqtt://b.example:2")).unwrap();
    assert_eq!(manager.list_gateways(), vec!["a", "b"]);

    let start = manager.connect_gateway("b").unwrap();
    assert_eq!(start.connection.host, "b.example");
    assert_eq!(start.connection.port, 2);
    assert_eq!(start.heartbeat_interval_secs, 300);
    assert_eq!(manager.is_gateway_connected("b"), Ok(false));
    assert_eq!(manager.on_gateway_connected("b"), Ok(()));
    assert_eq!(manager.is_gateway_connected("b"), Ok(true));
    assert_eq!(manager.is_gateway_connected("a"), Ok(false));

    let plan = manager.process_packet("b", text(42, "hi"), at()).unwrap().unwrap();
    assert_eq!(plan.topic, "msh/2/c/LongFast/gw1/42");
    assert_eq!(manager.finish_packet("b", PublishOutcome::Published, at()), Ok(()));
    assert_eq!(manager.process_packet("a", text(42, "hi"), at()), Ok(None));
    assert_eq!(manager.finish_packet("a", PublishOutcome::Skipped, at()), Ok(()));

    let b = manager.get_gateway_stats("b").unwrap();
    assert_eq!((b.messages_received, b.messages_published, b.mqtt_connections), (1, 1, 1));
    let a = manager.get_gateway_stats("a").unwrap();
    assert_eq!((a.messages_received, a.messages_published, a.mqtt_connections), (1, 0, 0));

    let beat = manager.heartbeat("b", Timestamp::new(0, 0), Timestamp::new(7, 0)).unwrap().unwrap();
    assert_eq!(beat.stats.uptime_seconds, 7);
    assert_eq!(manager.heartbeat("a", Timestamp::new(0, 0), Timestamp::new(7, 0)), Ok(None));

    assert_eq!(manager.disconnect_gateway("b", Ok(())), Ok(()));
    assert_eq!(manager.is_gateway_connected("b"), Ok(false));
    assert_eq!(manager.get_gateway_stats("b").unwrap().mqtt_disconnections, 1);
}

#[test]
fn adding_a_gateway_again_replaces_it() {
    let mut manager = MqttGatewayManager::new();
    manager.add_gateway("a".to_string(), config("mqtt://one.example")).unwrap();
    manager.on_gateway_connected("a").unwrap();
    manager.add_gateway("a".to_string(), config("mqtt://two.example")).unwrap();
    assert_eq!(manager.list_gateways(), vec!["a"]);
    assert_eq!(manager.is_gateway_connected("a"), Ok(false));
    assert_eq!(manager.connect_gateway("a").unwrap().connection.host, "two.example");
    assert_eq!(manager.get_gateway_stats("a"), Some(GatewayStats::default()));
}
