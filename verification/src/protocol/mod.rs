//! The protocol layer: packets, messages, and how one becomes the other.

pub mod admin;
pub mod admin_message;
pub mod directory;
pub mod float;
pub mod handler;
pub mod message;
pub mod packet;
pub mod processor;

pub use admin::{
    AdminMessage, Channel, ChannelSettings, Channel_Role, Config, Config_LoRaConfig_ModemPreset,
    Config_LoRaConfig_RegionCode, GetCannedMessageModuleMessagesRequest, GetChannelRequest,
    GetConfigRequest, GetDeviceMetadataRequest, GetModuleConfigRequest, GetOwnerRequest,
    ModuleConfig, ModuleSettings, RadioConfig,
};
pub use float::Float32;
pub use message::{MeshMessage, MeshMessageView, MessageType, NodeInfo, ProtocolError};
pub use packet::{
    DeviceMetrics, EnvironmentMetrics, HardwareModel, MeshPacket, MeshPacket_Priority,
    PayloadVariant, Position, PowerMetrics, Role, RouteDiscovery, Routing, RoutingVariant,
    Routing_Error, TelemetryData, TelemetryVariant, User, BROADCAST_ADDR, DEFAULT_HOP_LIMIT,
};
pub use processor::{MessageProcessor, ProcessorModel, HISTORY_LIMIT, PACKET_CACHE_LIMIT};
pub use handler::ProtocolHandler;
