//! One gateway: where it publishes what, what it counts, and what it asks
//! of the task that talks to the broker.

use crate::clock::{seconds_between, whole_seconds_between, Timestamp};
use crate::encoding::{base64_encode, base64_text};
use crate::mqtt::broker_url::{parse_url, parsed_url};
use crate::mqtt::config::{qos_for, qos_of_level, MqttConfig, MqttError, QoS};
use crate::protocol::admin::AdminMessage;
use crate::protocol::directory::{directory_entries, lists_directory};
use crate::protocol::float::Float32;
use crate::protocol::packet::{
    MeshPacket, PayloadVariant, Position, Routing, TelemetryData, User,
};
use crate::text::{append_decimal, decimal_text, owned};
use std::collections::HashMap;
use vstd::prelude::*;
use vstd::string::StringExecFns;

verus! {

broadcast use vstd::std_specs::hash::group_hash_axioms;

/// The port of a broker whose URL names none.
pub const DEFAULT_BROKER_PORT: u16 = 1883;

/// How many requests to the broker may wait in the client's queue.
pub const CLIENT_QUEUE_CAPACITY: usize = 100;

/// The topic of text and node announcements of one node, relayed by one gateway.
pub open spec fn channel_topic(prefix: Seq<char>, client_id: Seq<char>, node: u32) -> Seq<char> {
    prefix + "/2/c/LongFast/"@ + client_id + "/"@ + decimal_text(node as nat)
}

/// The topic of the telemetry of one node.
pub open spec fn stat_topic(prefix: Seq<char>, node: u32) -> Seq<char> {
    prefix + "/2/stat/"@ + decimal_text(node as nat)
}

/// The topic of the heartbeat of one gateway.
pub open spec fn heartbeat_topic(prefix: Seq<char>, client_id: Seq<char>) -> Seq<char> {
    prefix + "/2/stat/"@ + client_id + "/heartbeat"@
}

/// The topic patterns that a gateway subscribes to.
pub open spec fn subscription_topics(prefix: Seq<char>) -> Seq<Seq<char>> {
    seq![prefix + "/2/c/LongFast/+/+"@, prefix + "/2/e/LongFast/+/+"@, prefix + "/2/stat/+"@]
}

/// The topic under which a packet is published: telemetry under the
/// sender's stat topic, everything else under the sender's channel topic.
pub open spec fn publish_topic(prefix: Seq<char>, client_id: Seq<char>, packet: MeshPacket) -> Seq<
    char,
> {
    match packet.payload {
        Some(PayloadVariant::Telemetry(_)) => stat_topic(prefix, packet.from),
        _ => channel_topic(prefix, client_id, packet.from),
    }
}

/// The name of the kind of payload in a bridged message.
pub open spec fn payload_type_name(payload: Option<PayloadVariant>) -> Seq<char> {
    match payload {
        Some(PayloadVariant::Text(_)) => "TEXT_MESSAGE_APP"@,
        Some(PayloadVariant::NodeInfo(_)) => "NODEINFO_APP"@,
        Some(PayloadVariant::Position(_)) => "POSITION_APP"@,
        Some(PayloadVariant::Telemetry(_)) => "TELEMETRY_APP"@,
        Some(PayloadVariant::Admin(_)) => "ADMIN_APP"@,
        Some(PayloadVariant::Routing(_)) => "ROUTING_APP"@,
        Some(PayloadVariant::Raw(_)) => "RAW"@,
        None => "UNKNOWN"@,
    }
}

/// What a bridged message carries.
#[derive(Clone, Debug, PartialEq, Eq)]
pub enum MqttPayload {
    /// A text, under the key `text`.
    Text(String),
    NodeInfo(User),
    Position(Position),
    Telemetry(TelemetryData),
    Admin(AdminMessage),
    Routing(Routing),
    /// Raw bytes as base64 text, under the key `data`.
    Raw(String),
    /// Nothing.
    Empty,
}

/// Whether a bridged payload is the one of a packet's payload: the same
/// content, raw bytes as base64 text, nothing for no payload.
pub open spec fn is_bridged_payload(bridged: MqttPayload, payload: Option<PayloadVariant>) -> bool {
    match payload {
        Some(PayloadVariant::Text(text)) => bridged == MqttPayload::Text(text),
        Some(PayloadVariant::NodeInfo(user)) => bridged == MqttPayload::NodeInfo(user),
        Some(PayloadVariant::Position(position)) => bridged == MqttPayload::Position(position),
        Some(PayloadVariant::Telemetry(telemetry)) => bridged == MqttPayload::Telemetry(telemetry),
        Some(PayloadVariant::Admin(admin)) => bridged == MqttPayload::Admin(admin),
        Some(PayloadVariant::Routing(routing)) => bridged == MqttPayload::Routing(routing),
        Some(PayloadVariant::Raw(data)) => bridged matches MqttPayload::Raw(text) && text@
            == base64_text(data@),
        None => bridged == MqttPayload::Empty,
    }
}

/// A mesh packet as it is published to the broker.
#[derive(Clone, Debug, PartialEq, Eq)]
pub struct MqttMeshtasticMessage {
    /// When the gateway took the packet in.
    pub timestamp: Timestamp,
    pub from: u32,
    /// The destination; all ones for a broadcast.
    pub to: u32,
    pub id: u32,
    pub channel: u8,
    pub payload_type: String,
    pub payload: MqttPayload,
    /// The signal strength, where the packet reports one other than 0.
    pub rssi: Option<i32>,
    /// The signal-to-noise ratio, where the packet reports one other than zero.
    pub snr: Option<Float32>,
    pub hop_limit: u8,
    /// The client id of the gateway that relays the packet.
    pub gateway_id: String,
}

/// Whether a message is the bridged form of a packet, relayed by the
/// gateway with the given client id at the given time.
pub open spec fn is_bridge_message(
    message: MqttMeshtasticMessage,
    packet: MeshPacket,
    client_id: Seq<char>,
    now: Timestamp,
) -> bool {
    &&& message.timestamp == now
    &&& message.from == packet.from
    &&& message.to == packet.to
    &&& message.id == packet.id
    &&& message.channel == packet.channel
    &&& message.payload_type@ == payload_type_name(packet.payload)
    &&& is_bridged_payload(message.payload, packet.payload)
    &&& message.rssi == if packet.rx_rssi != 0 {
        Some(packet.rx_rssi)
    } else {
        None
    }
    &&& message.snr == if !Float32::bits_are_zero(packet.rx_snr.bits) {
        Some(packet.rx_snr)
    } else {
        None
    }
    &&& message.hop_limit == packet.hop_limit
    &&& message.gateway_id@ == client_id
}

/// What a gateway counts.
#[derive(Clone, Copy, Debug, PartialEq, Eq, Default)]
pub struct GatewayStats {
    pub messages_received: u64,
    pub messages_published: u64,
    pub mqtt_connections: u64,
    pub mqtt_disconnections: u64,
    pub last_message_time: Option<Timestamp>,
    pub uptime_seconds: u64,
    pub connected_nodes: u64,
}

impl GatewayStats {
    /// Counts that have all yet to begin.
    pub open spec fn zero() -> GatewayStats {
        GatewayStats {
            messages_received: 0,
            messages_published: 0,
            mqtt_connections: 0,
            mqtt_disconnections: 0,
            last_message_time: None,
            uptime_seconds: 0,
            connected_nodes: 0,
        }
    }

    /// Whether no counter of messages or connections stands lower than it
    /// stood in `earlier`.
    pub open spec fn no_less_than(self, earlier: GatewayStats) -> bool {
        &&& self.messages_received >= earlier.messages_received
        &&& self.messages_published >= earlier.messages_published
        &&& self.mqtt_connections >= earlier.mqtt_connections
        &&& self.mqtt_disconnections >= earlier.mqtt_disconnections
    }

    /// Whether each counter that a publish with the given outcome raises
    /// has room for one more: the received count where nothing was to be
    /// published, the received and the published count where the broker
    /// took the message, none where the publish failed.
    pub open spec fn has_room_for(self, outcome: PublishOutcome) -> bool {
        match outcome {
            PublishOutcome::Failed(_) => true,
            PublishOutcome::Skipped => self.messages_received < u64::MAX,
            PublishOutcome::Published => self.messages_received < u64::MAX
                && self.messages_published < u64::MAX,
        }
    }

    /// Counts that have all yet to begin.
    pub fn new() -> (stats: GatewayStats)
        ensures
            stats == GatewayStats::zero(),
    {
        GatewayStats {
            messages_received: 0,
            messages_published: 0,
            mqtt_connections: 0,
            mqtt_disconnections: 0,
            last_message_time: None,
            uptime_seconds: 0,
            connected_nodes: 0,
        }
    }
}

/// The time that a gateway has been up, in seconds: the whole seconds
/// from `started` to `now`, as an unsigned 64-bit number. Where the clock
/// went backwards and `now` lies before `started`, the negative count
/// wraps round.
pub open spec fn uptime(started: Timestamp, now: Timestamp) -> u64 {
    let elapsed = whole_seconds_between(started, now);
    if elapsed >= 0 {
        elapsed as u64
    } else {
        (elapsed + 0x1_0000_0000_0000_0000) as u64
    }
}

/// The time that a gateway has been up, in seconds.
pub fn uptime_seconds(started: Timestamp, now: Timestamp) -> (seconds: u64)
    requires
        started.valid(),
        now.valid(),
    ensures
        seconds == uptime(started, now),
{
    let elapsed = seconds_between(started, now);
    if elapsed >= 0 {
        elapsed as u64
    } else {
        u64::MAX - ((-(elapsed + 1)) as u64)
    }
}

/// What the task that talks to the broker needs for a connection.
#[derive(Debug, PartialEq, Eq)]
pub struct ConnectionPlan {
    pub client_id: String,
    pub host: String,
    pub port: u16,
    pub keep_alive_secs: u64,
    /// User name and password, where a user name is configured.
    pub credentials: Option<(String, String)>,
    pub use_tls: bool,
    /// The capacity of the client's request queue.
    pub capacity: usize,
    /// The topic patterns to subscribe to, each at `subscribe_qos`.
    pub subscriptions: Vec<String>,
    pub subscribe_qos: QoS,
}

/// What a URL and a configuration give for a connection. A text that is no
/// URL, and a URL without a host, give an error; a URL without a port
/// gives the standard port; a password without a user name is not used,
/// and a user name without a password goes with the empty password.
pub open spec fn planned_connection(config: MqttConfig) -> Result<ConnectionPlanView, Seq<char>> {
    match parsed_url(config.broker_url@) {
        Err(text) => Err("Invalid broker URL: "@ + text),
        Ok(parts) => match parts.host {
            None => Err("No host in URL"@),
            Some(host) => Ok(
                ConnectionPlanView {
                    client_id: config.client_id@,
                    host,
                    port: match parts.port {
                        Some(port) => port,
                        None => DEFAULT_BROKER_PORT,
                    },
                    keep_alive_secs: config.keep_alive,
                    credentials: match config.username {
                        Some(user) => Some(
                            (
                                user@,
                                match config.password {
                                    Some(password) => password@,
                                    None => Seq::empty(),
                                },
                            ),
                        ),
                        None => None,
                    },
                    use_tls: config.use_tls,
                    capacity: CLIENT_QUEUE_CAPACITY,
                    subscriptions: subscription_topics(config.topic_prefix@),
                    subscribe_qos: QoS::AtMostOnce,
                },
            ),
        },
    }
}

/// A connection plan, in the model.
pub struct ConnectionPlanView {
    pub client_id: Seq<char>,
    pub host: Seq<char>,
    pub port: u16,
    pub keep_alive_secs: u64,
    pub credentials: Option<(Seq<char>, Seq<char>)>,
    pub use_tls: bool,
    pub capacity: usize,
    pub subscriptions: Seq<Seq<char>>,
    pub subscribe_qos: QoS,
}

impl View for ConnectionPlan {
    type V = ConnectionPlanView;

    open spec fn view(&self) -> ConnectionPlanView {
        ConnectionPlanView {
            client_id: self.client_id@,
            host: self.host@,
            port: self.port,
            keep_alive_secs: self.keep_alive_secs,
            credentials: match self.credentials {
                Some((user, password)) => Some((user@, password@)),
                None => None,
            },
            use_tls: self.use_tls,
            capacity: self.capacity,
            subscriptions: Seq::new(self.subscriptions@.len(), |i: int| self.subscriptions@[i]@),
            subscribe_qos: self.subscribe_qos,
        }
    }
}

/// What the task that talks to the broker is to publish.
#[derive(Debug, PartialEq, Eq)]
pub struct PublishPlan {
    pub topic: String,
    pub qos: QoS,
    pub retain: bool,
    pub message: MqttMeshtasticMessage,
}

/// Whether a plan is the one for a packet under a configuration.
pub open spec fn is_publish_plan(
    plan: PublishPlan,
    config: MqttConfig,
    packet: MeshPacket,
    now: Timestamp,
) -> bool {
    &&& plan.topic@ == publish_topic(config.topic_prefix@, config.client_id@, packet)
    &&& plan.qos == qos_of_level(config.qos)
    &&& plan.retain == config.retain
    &&& is_bridge_message(plan.message, packet, config.client_id@, now)
}

/// What the task that talks to the broker is to publish as a heartbeat.
#[derive(Debug, PartialEq, Eq)]
pub struct HeartbeatPlan {
    pub topic: String,
    pub qos: QoS,
    pub retain: bool,
    pub stats: GatewayStats,
}

/// How the publish of a packet went.
#[derive(Debug, PartialEq, Eq)]
pub enum PublishOutcome {
    /// There was nothing to publish, as the gateway is not connected.
    Skipped,
    /// The broker took the message.
    Published,
    /// The publish failed.
    Failed(MqttError),
}

/// What the broker's event loop saw.
#[derive(Debug, PartialEq, Eq)]
pub enum BrokerEvent {
    /// A message that was published to a subscribed topic.
    Publish { topic: String, payload: Vec<u8> },
    /// Any other packet from the broker.
    Incoming,
    /// A packet that went out to the broker.
    Outgoing,
    /// The connection failed.
    Failed,
}

/// What the event loop does with an event.
#[derive(Debug, PartialEq, Eq)]
pub enum EventAction {
    /// Read the payload as a bridged message.
    Parse(Vec<u8>),
    /// Take note of the event, no more.
    Observe,
    /// Go on.
    Ignore,
    /// End the loop.
    Stop,
}

/// Decides what the event loop does with an event: only a published
/// message is read as a bridged message, other packets from the broker
/// are taken note of, and a failure ends the loop.
pub fn on_broker_event(event: BrokerEvent) -> (action: EventAction)
    ensures
        action == (match event {
            BrokerEvent::Publish { topic, payload } => EventAction::Parse(payload),
            BrokerEvent::Incoming => EventAction::Observe,
            BrokerEvent::Outgoing => EventAction::Ignore,
            BrokerEvent::Failed => EventAction::Stop,
        }),
{
    match event {
        BrokerEvent::Publish { topic, payload } => EventAction::Parse(payload),
        BrokerEvent::Incoming => EventAction::Observe,
        BrokerEvent::Outgoing => EventAction::Ignore,
        BrokerEvent::Failed => EventAction::Stop,
    }
}

/// The topic of text and node announcements of one node, relayed by one gateway.
pub fn make_channel_topic(prefix: &str, client_id: &str, node: u32) -> (topic: String)
    ensures
        topic@ == channel_topic(prefix@, client_id@, node),
{
    let mut topic = owned(prefix);
    topic.append("/2/c/LongFast/");
    topic.append(client_id);
    topic.append("/");
    append_decimal(&mut topic, node as u64);
    topic
}

/// The topic of the telemetry of one node.
pub fn make_stat_topic(prefix: &str, node: u32) -> (topic: String)
    ensures
        topic@ == stat_topic(prefix@, node),
{
    let mut topic = owned(prefix);
    topic.append("/2/stat/");
    append_decimal(&mut topic, node as u64);
    topic
}

/// The topic of the heartbeat of one gateway.
pub fn make_heartbeat_topic(prefix: &str, client_id: &str) -> (topic: String)
    ensures
        topic@ == heartbeat_topic(prefix@, client_id@),
{
    let mut topic = owned(prefix);
    topic.append("/2/stat/");
    topic.append(client_id);
    topic.append("/heartbeat");
    topic
}

/// The topic under which a packet is published.
pub fn topic_for(prefix: &str, client_id: &str, packet: &MeshPacket) -> (topic: String)
    ensures
        topic@ == publish_topic(prefix@, client_id@, *packet),
{
    match &packet.payload {
        Some(PayloadVariant::Telemetry(_)) => make_stat_topic(prefix, packet.from),
        _ => make_channel_topic(prefix, client_id, packet.from),
    }
}

/// What a gateway is, as far as its decisions go.
pub struct GatewayModel {
    pub config: MqttConfig,
    /// Whether the gateway holds a connection to the broker.
    pub connected: bool,
    /// The gateway's own node directory.
    pub nodes: Map<u32, User>,
    pub stats: GatewayStats,
}

/// A bridge from the mesh to one MQTT broker.
pub struct MqttGateway {
    config: MqttConfig,
    connected: bool,
    node_database: HashMap<u32, User>,
    stats: GatewayStats,
}

impl View for MqttGateway {
    type V = GatewayModel;

    closed spec fn view(&self) -> GatewayModel {
        GatewayModel {
            config: self.config,
            connected: self.connected,
            nodes: self.node_database@,
            stats: self.stats,
        }
    }
}

impl GatewayModel {
    /// The directory after a packet: a node announcement replaces the entry
    /// of its sender, by an identity that says the same.
    pub open spec fn directory_after(self, packet: MeshPacket, nodes: Map<u32, User>) -> bool {
        match packet.payload {
            Some(PayloadVariant::NodeInfo(user)) => {
                &&& nodes.dom() == self.nodes.dom().insert(packet.from)
                &&& nodes[packet.from].same_as(&user)
                &&& forall|id: u32| id != packet.from && self.nodes.contains_key(id) ==> nodes[id]
                    == self.nodes[id]
            },
            _ => nodes == self.nodes,
        }
    }

    /// The counts after the publish of a packet went as `outcome` says, at
    /// `now`, with `nodes` entries in the directory. A failure counts
    /// nothing. Otherwise the packet counts as received and the number of
    /// nodes is brought up to date; where the broker took the message, it
    /// counts as published, at `now`.
    pub open spec fn stats_after(self, outcome: PublishOutcome, now: Timestamp) -> GatewayStats {
        match outcome {
            PublishOutcome::Failed(_) => self.stats,
            PublishOutcome::Skipped => GatewayStats {
                messages_received: (self.stats.messages_received + 1) as u64,
                connected_nodes: self.nodes.dom().len() as u64,
                ..self.stats
            },
            PublishOutcome::Published => GatewayStats {
                messages_received: (self.stats.messages_received + 1) as u64,
                messages_published: (self.stats.messages_published + 1) as u64,
                last_message_time: Some(now),
                connected_nodes: self.nodes.dom().len() as u64,
                ..self.stats
            },
        }
    }
}

impl MqttGateway {
    /// A gateway with the given settings, not connected, with an empty
    /// directory and all counts at zero. The call never fails.
    pub fn new(config: MqttConfig) -> (gateway: Result<MqttGateway, MqttError>)
        ensures
            gateway matches Ok(g) && g@ == (GatewayModel {
                config,
                connected: false,
                nodes: Map::empty(),
                stats: GatewayStats::zero(),
            }),
    {
        Ok(
            MqttGateway {
                config,
                connected: false,
                node_database: HashMap::new(),
                stats: GatewayStats::new(),
            },
        )
    }

    /// The settings.
    pub fn config(&self) -> (config: &MqttConfig)
        ensures
            *config == self@.config,
    {
        &self.config
    }

    /// Whether the gateway holds a connection to the broker.
    pub fn is_connected(&self) -> (connected: bool)
        ensures
            connected == self@.connected,
    {
        self.connected
    }

    /// The counts.
    pub fn get_stats(&self) -> (stats: GatewayStats)
        ensures
            stats == self@.stats,
    {
        self.stats
    }

    /// What a connection to the broker takes: where the broker is, how to
    /// log in, and what to subscribe to. Fails with an invalid-URL error
    /// where the broker URL does not parse or names no host.
    pub fn connect(&self) -> (plan: Result<ConnectionPlan, MqttError>)
        ensures
            match planned_connection(self@.config) {
                Ok(view) => plan matches Ok(p) && p@ == view,
                Err(text) => plan matches Err(e) && e is InvalidUrl && e.detail() == text,
            },
    {
        let parts = match parse_url(self.config.broker_url.as_str()) {
            Ok(parts) => parts,
            Err(text) => {
                return Err(
                    MqttError::InvalidUrl(owned("Invalid broker URL: ").concat(text.as_str())),
                );
            },
        };
        let host = match parts.host {
            Some(host) => host,
            None => {
                return Err(MqttError::InvalidUrl(owned("No host in URL")));
            },
        };
        let port = match parts.port {
            Some(port) => port,
            None => DEFAULT_BROKER_PORT,
        };
        let credentials = match &self.config.username {
            Some(user) => Some(
                (
                    user.clone(),
                    match &self.config.password {
                        Some(password) => password.clone(),
                        None => String::new(),
                    },
                ),
            ),
            None => None,
        };
        let prefix = self.config.topic_prefix.as_str();
        let mut subscriptions: Vec<String> = Vec::new();
        subscriptions.push(owned(prefix).concat("/2/c/LongFast/+/+"));
        subscriptions.push(owned(prefix).concat("/2/e/LongFast/+/+"));
        subscriptions.push(owned(prefix).concat("/2/stat/+"));
        let plan = ConnectionPlan {
            client_id: self.config.client_id.clone(),
            host,
            port,
            keep_alive_secs: self.config.keep_alive,
            credentials,
            use_tls: self.config.use_tls,
            capacity: CLIENT_QUEUE_CAPACITY,
            subscriptions,
            subscribe_qos: QoS::AtMostOnce,
        };
        assert(plan@.subscriptions =~= subscription_topics(self@.config.topic_prefix@));
        Ok(plan)
    }

    /// Notes that the connection to the broker stands and the subscriptions
    /// are in place: one more connection is counted.
    pub fn on_connected(&mut self)
        requires
            old(self)@.stats.mqtt_connections < u64::MAX,
        ensures
            final(self)@ == (GatewayModel {
                connected: true,
                stats: GatewayStats {
                    mqtt_connections: (old(self)@.stats.mqtt_connections + 1) as u64,
                    ..old(self)@.stats
                },
                ..old(self)@
            }),
            final(self)@.stats.no_less_than(old(self)@.stats),
    {
        self.connected = true;
        self.stats.mqtt_connections = self.stats.mqtt_connections + 1;
    }

    /// Takes the result of telling the broker goodbye (a success where
    /// there was no connection to end). A failure leaves the gateway as it
    /// is and comes back as a connection error; otherwise the gateway is
    /// disconnected and one more disconnection is counted, whether or not
    /// it was connected.
    pub fn disconnect(&mut self, goodbye: Result<(), String>) -> (result: Result<
        (),
        MqttError,
    >)
        requires
            old(self)@.stats.mqtt_disconnections < u64::MAX,
        ensures
            match goodbye {
                Ok(_) => result is Ok && final(self)@ == (GatewayModel {
                    connected: false,
                    stats: GatewayStats {
                        mqtt_disconnections: (old(self)@.stats.mqtt_disconnections + 1) as u64,
                        ..old(self)@.stats
                    },
                    ..old(self)@
                }),
                Err(cause) => final(self)@ == old(self)@ && (result matches Err(e) && e
                    is ConnectionFailed && e.detail() == "Failed to disconnect: "@ + cause@),
            },
            final(self)@.stats.no_less_than(old(self)@.stats),
    {
        match goodbye {
            Ok(_) => {
                self.connected = false;
                self.stats.mqtt_disconnections = self.stats.mqtt_disconnections + 1;
                Ok(())
            },
            Err(cause) => Err(MqttError::disconnect_failed(cause.as_str())),
        }
    }

    /// The bridged form of a packet, taken in at `now`.
    pub fn convert_to_mqtt_message(&self, packet: MeshPacket, now: Timestamp) -> (message:
        MqttMeshtasticMessage)
        ensures
            is_bridge_message(message, packet, self@.config.client_id@, now),
    {
        let payload_type = match &packet.payload {
            Some(PayloadVariant::Text(_)) => owned("TEXT_MESSAGE_APP"),
            Some(PayloadVariant::NodeInfo(_)) => owned("NODEINFO_APP"),
            Some(PayloadVariant::Position(_)) => owned("POSITION_APP"),
            Some(PayloadVariant::Telemetry(_)) => owned("TELEMETRY_APP"),
            Some(PayloadVariant::Admin(_)) => owned("ADMIN_APP"),
            Some(PayloadVariant::Routing(_)) => owned("ROUTING_APP"),
            Some(PayloadVariant::Raw(_)) => owned("RAW"),
            None => owned("UNKNOWN"),
        };
        let rssi = if packet.rx_rssi != 0 {
            Some(packet.rx_rssi)
        } else {
            None
        };
        let snr = if !packet.rx_snr.is_zero() {
            Some(packet.rx_snr)
        } else {
            None
        };
        let payload = match packet.payload {
            Some(PayloadVariant::Text(text)) => MqttPayload::Text(text),
            Some(PayloadVariant::NodeInfo(user)) => MqttPayload::NodeInfo(user),
            Some(PayloadVariant::Position(position)) => MqttPayload::Position(position),
            Some(PayloadVariant::Telemetry(telemetry)) => MqttPayload::Telemetry(telemetry),
            Some(PayloadVariant::Admin(admin)) => MqttPayload::Admin(admin),
            Some(PayloadVariant::Routing(routing)) => MqttPayload::Routing(routing),
            Some(PayloadVariant::Raw(data)) => MqttPayload::Raw(base64_encode(data.as_slice())),
            None => MqttPayload::Empty,
        };
        MqttMeshtasticMessage {
            timestamp: now,
            from: packet.from,
            to: packet.to,
            id: packet.id,
            channel: packet.channel,
            payload_type,
            payload,
            rssi,
            snr,
            hop_limit: packet.hop_limit,
            gateway_id: self.config.client_id.clone(),
        }
    }

    /// What is to be published for a packet taken in at `now`: nothing
    /// where the gateway is not connected, else the bridged message under
    /// the packet's topic, with the configured quality of service and
    /// retain flag.
    pub fn publish_mesh_message(&self, packet: MeshPacket, now: Timestamp) -> (plan: Option<
        PublishPlan,
    >)
        ensures
            self@.connected ==> (plan matches Some(p) && is_publish_plan(
                p,
                self@.config,
                packet,
                now,
            )),
            !self@.connected ==> plan is None,
    {
        if !self.connected {
            return None;
        }
        let topic = topic_for(
            self.config.topic_prefix.as_str(),
            self.config.client_id.as_str(),
            &packet,
        );
        let qos = qos_for(self.config.qos);
        let retain = self.config.retain;
        let message = self.convert_to_mqtt_message(packet, now);
        Some(PublishPlan { topic, qos, retain, message })
    }

    /// Notes that the broker took a message at `now`: one more message is
    /// counted as published.
    pub fn record_published(&mut self, now: Timestamp)
        requires
            old(self)@.stats.messages_published < u64::MAX,
        ensures
            final(self)@ == (GatewayModel {
                stats: GatewayStats {
                    messages_published: (old(self)@.stats.messages_published + 1) as u64,
                    last_message_time: Some(now),
                    ..old(self)@.stats
                },
                ..old(self)@
            }),
            final(self)@.stats.no_less_than(old(self)@.stats),
    {
        self.stats.messages_published = self.stats.messages_published + 1;
        self.stats.last_message_time = Some(now);
    }

    /// Takes in a packet at `now`: first puts a node announcement into the
    /// directory, then says what is to be published. The counts stay as
    /// they are until the result of the publish is known.
    pub fn process_mesh_packet(&mut self, packet: MeshPacket, now: Timestamp) -> (plan: Option<
        PublishPlan,
    >)
        ensures
            old(self)@.directory_after(packet, final(self)@.nodes),
            final(self)@.config == old(self)@.config,
            final(self)@.connected == old(self)@.connected,
            final(self)@.stats == old(self)@.stats,
            old(self)@.connected ==> (plan matches Some(p) && is_publish_plan(
                p,
                old(self)@.config,
                packet,
                now,
            )),
            !old(self)@.connected ==> plan is None,
    {
        match &packet.payload {
            Some(PayloadVariant::NodeInfo(user)) => {
                self.node_database.insert(packet.from, user.duplicate());
            },
            _ => {},
        }
        self.publish_mesh_message(packet, now)
    }

    /// Takes the result of the publish that `process_mesh_packet` asked
    /// for, at `now`. A failure comes back as it is and counts nothing. Otherwise
    /// the packet is counted as received, the number of known nodes is
    /// brought up to date, and a message that the broker took is counted
    /// as published.
    pub fn finish_packet(&mut self, outcome: PublishOutcome, now: Timestamp) -> (result: Result<
        (),
        MqttError,
    >)
        requires
            old(self)@.stats.has_room_for(outcome),
        ensures
            final(self)@ == (GatewayModel {
                stats: old(self)@.stats_after(outcome, now),
                ..old(self)@
            }),
            match outcome {
                PublishOutcome::Failed(e) => result == Err::<(), MqttError>(e),
                _ => result is Ok,
            },
            final(self)@.stats.no_less_than(old(self)@.stats),
    {
        match outcome {
            PublishOutcome::Failed(e) => {
                return Err(e);
            },
            PublishOutcome::Published => {
                self.record_published(now);
            },
            PublishOutcome::Skipped => {},
        }
        self.stats.messages_received = self.stats.messages_received + 1;
        self.stats.connected_nodes = self.node_database.len() as u64;
        Ok(())
    }

    /// What the heartbeat publishes at `now` for a gateway that is up since
    /// `started`: nothing where the gateway is not connected, else the
    /// counts with the time up brought up to date, under the heartbeat
    /// topic, delivered at most once and not retained.
    pub fn heartbeat(&mut self, started: Timestamp, now: Timestamp) -> (plan: Option<HeartbeatPlan>)
        requires
            started.valid(),
            now.valid(),
        ensures
            !old(self)@.connected ==> plan is None && final(self)@ == old(self)@,
            old(self)@.connected ==> {
                &&& final(self)@ == (GatewayModel {
                    stats: GatewayStats {
                        uptime_seconds: uptime(started, now),
                        ..old(self)@.stats
                    },
                    ..old(self)@
                })
                &&& plan matches Some(p)
                &&& p.topic@ == heartbeat_topic(
                    old(self)@.config.topic_prefix@,
                    old(self)@.config.client_id@,
                )
                &&& p.qos == QoS::AtMostOnce
                &&& !p.retain
                &&& p.stats == final(self)@.stats
            },
            final(self)@.stats.no_less_than(old(self)@.stats),
    {
        if !self.connected {
            return None;
        }
        self.stats.uptime_seconds = uptime_seconds(started, now);
        Some(
            HeartbeatPlan {
                topic: make_heartbeat_topic(
                    self.config.topic_prefix.as_str(),
                    self.config.client_id.as_str(),
                ),
                qos: QoS::AtMostOnce,
                retain: false,
                stats: self.stats,
            },
        )
    }

    /// Every sender that announced itself to this gateway, with the
    /// identity it announced last, in no particular order.
    pub fn get_connected_nodes(&self) -> (nodes: Vec<(u32, User)>)
        ensures
            lists_directory(nodes@, self@.nodes),
    {
        directory_entries(&self.node_database)
    }

    /// The identity that a sender announced last, if it announced one.
    pub fn get_node(&self, node_id: u32) -> (user: Option<User>)
        ensures
            match user {
                Some(u) => self@.nodes.contains_key(node_id) && u.same_as(&self@.nodes[node_id]),
                None => !self@.nodes.contains_key(node_id),
            },
    {
        match self.node_database.get(&node_id) {
            Some(user) => Some(user.duplicate()),
            None => None,
        }
    }
}

/// Whether the heartbeat goes on after a publish: it does, whether the
/// publish went well or not.
pub fn continue_after_heartbeat(published: bool) -> (go_on: bool)
    ensures
        go_on,
{
    true
}

/// Stats monotonicity, over the whole handling of a packet: whatever the
/// publish brings, no count of messages or connections falls. A message
/// that the broker took raises the published and the received count by
/// exactly one each and sets the time of the last message; a packet for
/// which nothing was published raises the received count by exactly one;
/// either way the number of nodes becomes the size of the directory. A
/// failed publish changes nothing.
pub proof fn lemma_stats_step(gateway: GatewayModel, outcome: PublishOutcome, now: Timestamp)
    requires
        gateway.stats.has_room_for(outcome),
    ensures
        ({
            let before = gateway.stats;
            let after = gateway.stats_after(outcome, now);
            &&& after.no_less_than(before)
            &&& after.mqtt_connections == before.mqtt_connections
            &&& after.mqtt_disconnections == before.mqtt_disconnections
            &&& after.uptime_seconds == before.uptime_seconds
            &&& outcome is Published ==> {
                &&& after.messages_published == before.messages_published + 1
                &&& after.messages_received == before.messages_received + 1
                &&& after.last_message_time == Some(now)
                &&& after.connected_nodes == gateway.nodes.dom().len() as u64
            }
            &&& outcome is Skipped ==> {
                &&& after.messages_published == before.messages_published
                &&& after.messages_received == before.messages_received + 1
                &&& after.last_message_time == before.last_message_time
                &&& after.connected_nodes == gateway.nodes.dom().len() as u64
            }
            &&& outcome is Failed ==> after == before
        }),
{
}

/// Node upsert, in a gateway. After a node announcement the directory
/// holds one entry for the sender, with the identity that was announced,
/// and every other entry as it was; a sender that was known adds no entry,
/// a new one adds exactly one. This holds before the result of the publish
/// is known, and a failed publish leaves it so.
pub proof fn lemma_gateway_upsert(
    before: GatewayModel,
    packet: MeshPacket,
    user: User,
    after: GatewayModel,
)
    requires
        packet.payload == Some(PayloadVariant::NodeInfo(user)),
        before.directory_after(packet, after.nodes),
    ensures
        after.nodes.contains_key(packet.from),
        after.nodes[packet.from].same_as(&user),
        forall|id: u32|
            id != packet.from ==> (after.nodes.contains_key(id) <==> before.nodes.contains_key(id)),
        forall|id: u32|
            id != packet.from && before.nodes.contains_key(id) ==> after.nodes[id]
                == before.nodes[id],
        before.nodes.contains_key(packet.from) ==> after.nodes.dom() == before.nodes.dom(),
        before.nodes.dom().finite() ==> after.nodes.dom().len() == before.nodes.dom().len() + (
        if before.nodes.contains_key(packet.from) {
            0int
        } else {
            1int
        }),
{
    if before.nodes.contains_key(packet.from) {
        assert(before.nodes.dom().insert(packet.from) =~= before.nodes.dom());
    }
}

} // verus!
