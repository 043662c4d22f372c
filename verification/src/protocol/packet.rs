//! The mesh packet and what it can carry.

use crate::clock::now;
use crate::protocol::admin::AdminMessage;
use crate::protocol::float::Float32;
use crate::protocol::message::MessageType;
use crate::random::random_u32;
use crate::text::owned;
use vstd::prelude::*;

verus! {

/// The destination that addresses every reachable node.
pub const BROADCAST_ADDR: u32 = 0xFFFF_FFFF;

/// The number of hops that a packet built here may still take.
pub const DEFAULT_HOP_LIMIT: u8 = 3;

/// How urgently a packet is forwarded.
#[allow(non_camel_case_types)]
#[derive(Clone, Copy, Debug, PartialEq, Eq, Structural)]
pub enum MeshPacket_Priority {
    DEFAULT,
    MIN,
    BACKGROUND,
    RELIABLE,
    ACK,
    MAX,
}

impl MeshPacket_Priority {
    /// The number that stands for the priority on the wire.
    pub open spec fn spec_code(self) -> i32 {
        match self {
            MeshPacket_Priority::DEFAULT => 64,
            MeshPacket_Priority::MIN => 1,
            MeshPacket_Priority::BACKGROUND => 10,
            MeshPacket_Priority::RELIABLE => 70,
            MeshPacket_Priority::ACK => 120,
            MeshPacket_Priority::MAX => 127,
        }
    }

    /// The number that stands for the priority on the wire.
    pub fn code(&self) -> (c: i32)
        ensures
            c == self.spec_code(),
    {
        match self {
            MeshPacket_Priority::DEFAULT => 64,
            MeshPacket_Priority::MIN => 1,
            MeshPacket_Priority::BACKGROUND => 10,
            MeshPacket_Priority::RELIABLE => 70,
            MeshPacket_Priority::ACK => 120,
            MeshPacket_Priority::MAX => 127,
        }
    }
}

impl Default for MeshPacket_Priority {
    fn default() -> (p: Self)
        ensures
            p == MeshPacket_Priority::DEFAULT,
    {
        MeshPacket_Priority::DEFAULT
    }
}

/// The hardware a node runs on.
#[allow(non_camel_case_types)]
#[derive(Clone, Copy, Debug, PartialEq, Eq, Structural)]
pub enum HardwareModel {
    UNSET,
    TLORA_V2,
    TLORA_V1,
    TBEAM,
    HELTEC_V2_0,
    TBEAM_V0_7,
    T_ECHO,
    TLORA_V2_1_1P6,
}

impl HardwareModel {
    /// The number that stands for the model on the wire.
    pub open spec fn spec_code(self) -> i32 {
        match self {
            HardwareModel::UNSET => 0,
            HardwareModel::TLORA_V2 => 1,
            HardwareModel::TLORA_V1 => 2,
            HardwareModel::TBEAM => 3,
            HardwareModel::HELTEC_V2_0 => 4,
            HardwareModel::TBEAM_V0_7 => 5,
            HardwareModel::T_ECHO => 6,
            HardwareModel::TLORA_V2_1_1P6 => 7,
        }
    }

    /// The number that stands for the model on the wire.
    pub fn code(&self) -> (c: i32)
        ensures
            c == self.spec_code(),
    {
        match self {
            HardwareModel::UNSET => 0,
            HardwareModel::TLORA_V2 => 1,
            HardwareModel::TLORA_V1 => 2,
            HardwareModel::TBEAM => 3,
            HardwareModel::HELTEC_V2_0 => 4,
            HardwareModel::TBEAM_V0_7 => 5,
            HardwareModel::T_ECHO => 6,
            HardwareModel::TLORA_V2_1_1P6 => 7,
        }
    }
}

impl Default for HardwareModel {
    fn default() -> (m: Self)
        ensures
            m == HardwareModel::UNSET,
    {
        HardwareModel::UNSET
    }
}

/// What part a node plays in the mesh.
#[allow(non_camel_case_types)]
#[derive(Clone, Copy, Debug, PartialEq, Eq, Structural)]
pub enum Role {
    CLIENT,
    CLIENT_MUTE,
    ROUTER,
    ROUTER_CLIENT,
    REPEATER,
}

impl Role {
    /// The number that stands for the role on the wire.
    pub open spec fn spec_code(self) -> i32 {
        match self {
            Role::CLIENT => 0,
            Role::CLIENT_MUTE => 1,
            Role::ROUTER => 2,
            Role::ROUTER_CLIENT => 3,
            Role::REPEATER => 4,
        }
    }

    /// The number that stands for the role on the wire.
    pub fn code(&self) -> (c: i32)
        ensures
            c == self.spec_code(),
    {
        match self {
            Role::CLIENT => 0,
            Role::CLIENT_MUTE => 1,
            Role::ROUTER => 2,
            Role::ROUTER_CLIENT => 3,
            Role::REPEATER => 4,
        }
    }
}

impl Default for Role {
    fn default() -> (r: Self)
        ensures
            r == Role::CLIENT,
    {
        Role::CLIENT
    }
}

/// Who a node says it is.
#[derive(Clone, Debug, PartialEq, Eq, Default)]
pub struct User {
    pub id: String,
    pub long_name: String,
    pub short_name: String,
    pub macaddr: Vec<u8>,
    pub hw_model: HardwareModel,
    pub is_licensed: bool,
    pub role: Role,
}

impl User {
    /// Whether two identities say the same: characters, bytes and tags alike.
    pub open spec fn same_as(&self, other: &User) -> bool {
        &&& self.id@ == other.id@
        &&& self.long_name@ == other.long_name@
        &&& self.short_name@ == other.short_name@
        &&& self.macaddr@ == other.macaddr@
        &&& self.hw_model == other.hw_model
        &&& self.is_licensed == other.is_licensed
        &&& self.role == other.role
    }

    /// A copy that says the same.
    pub fn duplicate(&self) -> (copy: User)
        ensures
            copy.same_as(self),
    {
        User {
            id: self.id.clone(),
            long_name: self.long_name.clone(),
            short_name: self.short_name.clone(),
            macaddr: self.macaddr.clone(),
            hw_model: self.hw_model,
            is_licensed: self.is_licensed,
            role: self.role,
        }
    }
}

/// Where a node is. Latitude and longitude are in units of 1e-7 degrees.
#[allow(non_snake_case)]
#[derive(Clone, Copy, Debug, PartialEq, Eq, Default)]
pub struct Position {
    pub latitude_i: i32,
    pub longitude_i: i32,
    pub altitude: i32,
    pub battery_level: u32,
    pub time: u32,
    pub PDOP: u32,
    pub ground_speed: u32,
    pub ground_track: u32,
    pub sats_in_view: u32,
    pub precision_bits: u32,
}

/// Readings of the device itself.
#[derive(Clone, Copy, Debug, PartialEq, Eq, Default)]
pub struct DeviceMetrics {
    pub battery_level: u32,
    pub voltage: Float32,
    pub channel_utilization: Float32,
    pub air_util_tx: Float32,
    pub uptime_seconds: u32,
}

/// Readings of the surroundings.
#[derive(Clone, Copy, Debug, PartialEq, Eq, Default)]
pub struct EnvironmentMetrics {
    pub temperature: Float32,
    pub relative_humidity: Float32,
    pub barometric_pressure: Float32,
    pub gas_resistance: Float32,
    pub voltage: Float32,
    pub current: Float32,
}

/// Readings of the power channels.
#[derive(Clone, Copy, Debug, PartialEq, Eq, Default)]
pub struct PowerMetrics {
    pub ch1_voltage: Float32,
    pub ch1_current: Float32,
    pub ch2_voltage: Float32,
    pub ch2_current: Float32,
    pub ch3_voltage: Float32,
    pub ch3_current: Float32,
}

/// The sensor readings that one telemetry packet carries.
#[derive(Clone, Copy, Debug, PartialEq, Eq)]
pub enum TelemetryVariant {
    DeviceMetrics(DeviceMetrics),
    EnvironmentMetrics(EnvironmentMetrics),
    PowerMetrics(PowerMetrics),
}

/// Sensor readings and when they were taken.
#[derive(Clone, Copy, Debug, PartialEq, Eq, Default)]
pub struct TelemetryData {
    pub time: u32,
    pub variant: Option<TelemetryVariant>,
}

/// Why routing failed.
#[allow(non_camel_case_types)]
#[derive(Clone, Copy, Debug, PartialEq, Eq, Structural)]
pub enum Routing_Error {
    NONE,
    NO_ROUTE,
    GOT_NAK,
    TIMEOUT,
    NO_INTERFACE,
    MAX_RETRANSMIT,
    NO_CHANNEL,
    TOO_LARGE,
    NO_RESPONSE,
    DUTY_CYCLE_LIMIT,
    BAD_REQUEST,
    NOT_AUTHORIZED,
}

impl Routing_Error {
    /// The number that stands for the error on the wire.
    pub open spec fn spec_code(self) -> i32 {
        match self {
            Routing_Error::NONE => 0,
            Routing_Error::NO_ROUTE => 1,
            Routing_Error::GOT_NAK => 2,
            Routing_Error::TIMEOUT => 3,
            Routing_Error::NO_INTERFACE => 4,
            Routing_Error::MAX_RETRANSMIT => 5,
            Routing_Error::NO_CHANNEL => 6,
            Routing_Error::TOO_LARGE => 7,
            Routing_Error::NO_RESPONSE => 8,
            Routing_Error::DUTY_CYCLE_LIMIT => 9,
            Routing_Error::BAD_REQUEST => 32,
            Routing_Error::NOT_AUTHORIZED => 33,
        }
    }

    /// The number that stands for the error on the wire.
    pub fn code(&self) -> (c: i32)
        ensures
            c == self.spec_code(),
    {
        match self {
            Routing_Error::NONE => 0,
            Routing_Error::NO_ROUTE => 1,
            Routing_Error::GOT_NAK => 2,
            Routing_Error::TIMEOUT => 3,
            Routing_Error::NO_INTERFACE => 4,
            Routing_Error::MAX_RETRANSMIT => 5,
            Routing_Error::NO_CHANNEL => 6,
            Routing_Error::TOO_LARGE => 7,
            Routing_Error::NO_RESPONSE => 8,
            Routing_Error::DUTY_CYCLE_LIMIT => 9,
            Routing_Error::BAD_REQUEST => 32,
            Routing_Error::NOT_AUTHORIZED => 33,
        }
    }
}

impl Default for Routing_Error {
    fn default() -> (e: Self)
        ensures
            e == Routing_Error::NONE,
    {
        Routing_Error::NONE
    }
}

/// A route through the mesh, and the signal quality met on the way.
#[derive(Clone, Debug, PartialEq, Eq, Default)]
pub struct RouteDiscovery {
    pub route: Vec<u32>,
    pub snr_towards: Vec<i32>,
}

/// What a routing packet carries.
#[derive(Clone, Debug, PartialEq, Eq)]
pub enum RoutingVariant {
    RouteRequest(RouteDiscovery),
    RouteReply(RouteDiscovery),
    ErrorReason(Routing_Error),
}

/// A routing packet.
#[derive(Clone, Debug, PartialEq, Eq, Default)]
pub struct Routing {
    pub variant: Option<RoutingVariant>,
}

/// What a packet carries.
#[derive(Clone, Debug, PartialEq, Eq)]
pub enum PayloadVariant {
    Text(String),
    Position(Position),
    NodeInfo(User),
    Telemetry(TelemetryData),
    Routing(Routing),
    Admin(AdminMessage),
    Raw(Vec<u8>),
}

/// One routed unit of mesh traffic.
#[derive(Clone, Debug, PartialEq, Eq)]
pub struct MeshPacket {
    pub from: u32,
    pub to: u32,
    pub id: u32,
    pub payload: Option<PayloadVariant>,
    pub hop_limit: u8,
    pub want_ack: bool,
    pub priority: MeshPacket_Priority,
    pub rx_time: u32,
    pub rx_snr: Float32,
    pub rx_rssi: i32,
    pub channel: u8,
}

impl MeshPacket {
    /// What every packet built here has in common: three hops to go, no
    /// acknowledgement wanted, nothing received yet, channel 0.
    pub open spec fn is_fresh(&self, from: u32, to: u32, priority: MeshPacket_Priority) -> bool {
        &&& self.from == from
        &&& self.to == to
        &&& self.hop_limit == DEFAULT_HOP_LIMIT
        &&& !self.want_ack
        &&& self.priority == priority
        &&& self.rx_snr.bits == 0
        &&& self.rx_rssi == 0
        &&& self.channel == 0
    }

    /// A packet with the given payload, id and time, and the common
    /// settings of a packet built here.
    pub fn assemble(
        from: u32,
        to: u32,
        id: u32,
        payload: Option<PayloadVariant>,
        priority: MeshPacket_Priority,
        rx_time: u32,
    ) -> (packet: MeshPacket)
        ensures
            packet.is_fresh(from, to, priority),
            packet.id == id,
            packet.payload == payload,
            packet.rx_time == rx_time,
    {
        MeshPacket {
            from,
            to,
            id,
            payload,
            hop_limit: DEFAULT_HOP_LIMIT,
            want_ack: false,
            priority,
            rx_time,
            rx_snr: Float32::zero(),
            rx_rssi: 0,
            channel: 0,
        }
    }

    /// A text packet with a random id, stamped with the current time.
    pub fn new_text_message(from: u32, to: u32, text: &str) -> (packet: MeshPacket)
        ensures
            packet.is_fresh(from, to, MeshPacket_Priority::DEFAULT),
            packet.payload matches Some(PayloadVariant::Text(t)) && t@ == text@,
    {
        MeshPacket::assemble(
            from,
            to,
            random_u32(),
            Some(PayloadVariant::Text(owned(text))),
            MeshPacket_Priority::DEFAULT,
            now().seconds_u32(),
        )
    }

    /// A broadcast packet that announces a node, with a random id, stamped
    /// with the current time.
    pub fn new_node_info(from: u32, user: User) -> (packet: MeshPacket)
        ensures
            packet.is_fresh(from, BROADCAST_ADDR, MeshPacket_Priority::DEFAULT),
            packet.payload == Some(PayloadVariant::NodeInfo(user)),
    {
        MeshPacket::assemble(
            from,
            BROADCAST_ADDR,
            random_u32(),
            Some(PayloadVariant::NodeInfo(user)),
            MeshPacket_Priority::DEFAULT,
            now().seconds_u32(),
        )
    }

    /// A broadcast packet that reports a position, with a random id, stamped
    /// with the current time.
    pub fn new_position(from: u32, position: Position) -> (packet: MeshPacket)
        ensures
            packet.is_fresh(from, BROADCAST_ADDR, MeshPacket_Priority::BACKGROUND),
            packet.payload == Some(PayloadVariant::Position(position)),
    {
        MeshPacket::assemble(
            from,
            BROADCAST_ADDR,
            random_u32(),
            Some(PayloadVariant::Position(position)),
            MeshPacket_Priority::BACKGROUND,
            now().seconds_u32(),
        )
    }

    /// A broadcast packet that reports sensor readings, with a random id,
    /// stamped with the current time.
    pub fn new_telemetry(from: u32, telemetry: TelemetryData) -> (packet: MeshPacket)
        ensures
            packet.is_fresh(from, BROADCAST_ADDR, MeshPacket_Priority::BACKGROUND),
            packet.payload == Some(PayloadVariant::Telemetry(telemetry)),
    {
        MeshPacket::assemble(
            from,
            BROADCAST_ADDR,
            random_u32(),
            Some(PayloadVariant::Telemetry(telemetry)),
            MeshPacket_Priority::BACKGROUND,
            now().seconds_u32(),
        )
    }

    /// Whether the packet addresses every reachable node.
    pub fn is_broadcast(&self) -> (b: bool)
        ensures
            b == (self.to == BROADCAST_ADDR),
    {
        self.to == BROADCAST_ADDR
    }

    /// The kind of message that the payload stands for.
    pub open spec fn spec_message_type(&self) -> MessageType {
        match self.payload {
            Some(PayloadVariant::Text(_)) => MessageType::Text,
            Some(PayloadVariant::Position(_)) => MessageType::Position,
            Some(PayloadVariant::NodeInfo(_)) => MessageType::NodeInfo,
            Some(PayloadVariant::Telemetry(_)) => MessageType::Telemetry,
            Some(PayloadVariant::Routing(_)) => MessageType::Routing,
            Some(PayloadVariant::Admin(_)) => MessageType::Admin,
            _ => MessageType::Unknown,
        }
    }

    /// The kind of message that the payload stands for; raw bytes and a
    /// missing payload are of unknown kind.
    pub fn get_message_type(&self) -> (kind: MessageType)
        ensures
            kind == self.spec_message_type(),
    {
        match &self.payload {
            Some(PayloadVariant::Text(_)) => MessageType::Text,
            Some(PayloadVariant::Position(_)) => MessageType::Position,
            Some(PayloadVariant::NodeInfo(_)) => MessageType::NodeInfo,
            Some(PayloadVariant::Telemetry(_)) => MessageType::Telemetry,
            Some(PayloadVariant::Routing(_)) => MessageType::Routing,
            Some(PayloadVariant::Admin(_)) => MessageType::Admin,
            _ => MessageType::Unknown,
        }
    }
}

impl Default for MeshPacket {
    /// An empty broadcast packet from node 0 with a random id.
    fn default() -> (packet: MeshPacket)
        ensures
            packet.is_fresh(0, BROADCAST_ADDR, MeshPacket_Priority::DEFAULT),
            packet.payload is None,
            packet.rx_time == 0,
    {
        MeshPacket::assemble(
            0,
            BROADCAST_ADDR,
            random_u32(),
            None,
            MeshPacket_Priority::DEFAULT,
            0,
        )
    }
}

} // verus!
