//! The bridge between the mesh and an MQTT broker.

pub mod broker_url;
pub mod config;
pub mod gateway;
pub mod manager;

pub use config::{MqttConfig, MqttError, QoS};
pub use gateway::{GatewayStats, MqttGateway, MqttMeshtasticMessage};
pub use manager::MqttGatewayManager;
