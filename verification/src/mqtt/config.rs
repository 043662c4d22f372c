//! The settings of a gateway, the quality of service of a publish, and what
//! can go wrong on the way to the broker.

use crate::random::random_uuid;
use crate::text::owned;
use vstd::prelude::*;
use vstd::string::StringExecFns;

verus! {

/// What can go wrong in a gateway.
#[derive(Clone, Debug, PartialEq, Eq)]
pub enum MqttError {
    ConnectionFailed(String),
    Mqtt(String),
    Serialization(String),
    InvalidUrl(String),
    Configuration(String),
}

impl MqttError {
    /// The error in words.
    pub open spec fn spec_message(&self) -> Seq<char> {
        match self {
            MqttError::ConnectionFailed(detail) => "Connection failed: "@ + detail@,
            MqttError::Mqtt(detail) => "MQTT error: "@ + detail@,
            MqttError::Serialization(detail) => "Serialization error: "@ + detail@,
            MqttError::InvalidUrl(detail) => "Invalid URL: "@ + detail@,
            MqttError::Configuration(detail) => "Configuration error: "@ + detail@,
        }
    }

    /// The error in words.
    pub fn message(&self) -> (text: String)
        ensures
            text@ == self.spec_message(),
    {
        match self {
            MqttError::ConnectionFailed(detail) => owned("Connection failed: ").concat(
                detail.as_str(),
            ),
            MqttError::Mqtt(detail) => owned("MQTT error: ").concat(detail.as_str()),
            MqttError::Serialization(detail) => owned("Serialization error: ").concat(
                detail.as_str(),
            ),
            MqttError::InvalidUrl(detail) => owned("Invalid URL: ").concat(detail.as_str()),
            MqttError::Configuration(detail) => owned("Configuration error: ").concat(
                detail.as_str(),
            ),
        }
    }

    /// The detail that the error carries.
    pub open spec fn detail(&self) -> Seq<char> {
        match self {
            MqttError::ConnectionFailed(detail) => detail@,
            MqttError::Mqtt(detail) => detail@,
            MqttError::Serialization(detail) => detail@,
            MqttError::InvalidUrl(detail) => detail@,
            MqttError::Configuration(detail) => detail@,
        }
    }

    /// The error of an operation on a gateway that the table does not hold.
    pub fn not_found(name: &str) -> (e: MqttError)
        ensures
            e is Configuration,
            e.detail() == "Gateway '"@ + name@ + "' not found"@,
    {
        let mut detail = owned("Gateway '");
        detail.append(name);
        detail.append("' not found");
        MqttError::Configuration(detail)
    }

    /// The error of a subscription that the broker did not take.
    pub fn subscribe_failed(topic: &str, cause: &str) -> (e: MqttError)
        ensures
            e is ConnectionFailed,
            e.detail() == "Failed to subscribe to "@ + topic@ + ": "@ + cause@,
    {
        let mut detail = owned("Failed to subscribe to ");
        detail.append(topic);
        detail.append(": ");
        detail.append(cause);
        MqttError::ConnectionFailed(detail)
    }

    /// The error of a publish that failed.
    pub fn publish_failed(cause: &str) -> (e: MqttError)
        ensures
            e is ConnectionFailed,
            e.detail() == "Failed to publish: "@ + cause@,
    {
        MqttError::ConnectionFailed(owned("Failed to publish: ").concat(cause))
    }

    /// The error of a disconnect that failed.
    pub fn disconnect_failed(cause: &str) -> (e: MqttError)
        ensures
            e is ConnectionFailed,
            e.detail() == "Failed to disconnect: "@ + cause@,
    {
        MqttError::ConnectionFailed(owned("Failed to disconnect: ").concat(cause))
    }
}

/// How hard the broker tries to deliver a message.
#[derive(Clone, Copy, Debug, PartialEq, Eq, Structural)]
pub enum QoS {
    AtMostOnce,
    AtLeastOnce,
    ExactlyOnce,
}

/// The quality of service that a configured level stands for: 0, 1 and 2
/// each for its own, any other level for at-least-once.
pub open spec fn qos_of_level(level: u8) -> QoS {
    if level == 0 {
        QoS::AtMostOnce
    } else if level == 2 {
        QoS::ExactlyOnce
    } else {
        QoS::AtLeastOnce
    }
}

/// The quality of service that a configured level stands for.
pub fn qos_for(level: u8) -> (qos: QoS)
    ensures
        qos == qos_of_level(level),
{
    match level {
        0 => QoS::AtMostOnce,
        1 => QoS::AtLeastOnce,
        2 => QoS::ExactlyOnce,
        _ => QoS::AtLeastOnce,
    }
}

/// The settings of a gateway.
#[derive(Debug, PartialEq, Eq)]
pub struct MqttConfig {
    /// The URL of the broker, such as `mqtt://broker.example.com:1883`.
    pub broker_url: String,
    /// The id under which the gateway connects.
    pub client_id: String,
    /// The user name, where the broker asks for one.
    pub username: Option<String>,
    /// The password, where the broker asks for one.
    pub password: Option<String>,
    /// What every topic of the gateway begins with.
    pub topic_prefix: String,
    /// Whether the connection is encrypted.
    pub use_tls: bool,
    /// The keep-alive interval in seconds.
    pub keep_alive: u64,
    /// The level of service of published messages: 0, 1 or 2.
    pub qos: u8,
    /// Whether the broker retains published messages.
    pub retain: bool,
}

impl Clone for MqttConfig {
    fn clone(&self) -> (copy: MqttConfig)
        ensures
            copy == *self,
    {
        MqttConfig {
            broker_url: self.broker_url.clone(),
            client_id: self.client_id.clone(),
            username: match &self.username {
                Some(s) => Some(s.clone()),
                None => None,
            },
            password: match &self.password {
                Some(s) => Some(s.clone()),
                None => None,
            },
            topic_prefix: self.topic_prefix.clone(),
            use_tls: self.use_tls,
            keep_alive: self.keep_alive,
            qos: self.qos,
            retain: self.retain,
        }
    }
}

impl MqttConfig {
    /// The settings for a broker on this machine, under the given client id:
    /// no credentials, prefix `msh`, no encryption, keep-alive of a minute,
    /// at-least-once delivery, nothing retained.
    pub fn local(client_id: String) -> (config: MqttConfig)
        ensures
            config.broker_url@ == "mqtt://localhost:1883"@,
            config.client_id == client_id,
            config.username is None,
            config.password is None,
            config.topic_prefix@ == "msh"@,
            !config.use_tls,
            config.keep_alive == 60,
            config.qos == 1,
            !config.retain,
    {
        MqttConfig {
            broker_url: owned("mqtt://localhost:1883"),
            client_id,
            username: None,
            password: None,
            topic_prefix: owned("msh"),
            use_tls: false,
            keep_alive: 60,
            qos: 1,
            retain: false,
        }
    }
}

impl Default for MqttConfig {
    /// The settings for a broker on this machine, under a client id that
    /// begins with `lora-comms-` and goes on with a fresh UUID.
    fn default() -> (config: MqttConfig)
        ensures
            config.broker_url@ == "mqtt://localhost:1883"@,
            exists|suffix: Seq<char>| config.client_id@ == "lora-comms-"@ + suffix,
            config.username is None,
            config.password is None,
            config.topic_prefix@ == "msh"@,
            !config.use_tls,
            config.keep_alive == 60,
            config.qos == 1,
            !config.retain,
    {
        let uuid = random_uuid();
        let client_id = owned("lora-comms-").concat(uuid.as_str());
        MqttConfig::local(client_id)
    }
}

} // verus!
