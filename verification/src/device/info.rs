//! What a scan tells of a device, the state of a connection to it, and what
//! can go wrong with it.

use crate::clock::{now, Timestamp};
use crate::text::owned;
use vstd::prelude::*;
use vstd::string::StringExecFns;

verus! {

/// What can go wrong with a device.
#[derive(Clone, Debug, PartialEq, Eq)]
pub enum DeviceError {
    ConnectionFailed { message: String },
    NotFound,
    PermissionDenied,
    Io(String),
    Timeout,
    InvalidResponse,
    InvalidConfiguration { message: String },
}

impl DeviceError {
    /// The error in words.
    pub open spec fn spec_message(&self) -> Seq<char> {
        match self {
            DeviceError::ConnectionFailed { message } => "Connection failed: "@ + message@,
            DeviceError::NotFound => "Device not found"@,
            DeviceError::PermissionDenied => "Permission denied"@,
            DeviceError::Io(detail) => "IO error: "@ + detail@,
            DeviceError::Timeout => "Timeout"@,
            DeviceError::InvalidResponse => "Invalid response"@,
            DeviceError::InvalidConfiguration { message } => "Invalid configuration: "@ + message@,
        }
    }

    /// The error in words.
    pub fn message(&self) -> (text: String)
        ensures
            text@ == self.spec_message(),
    {
        match self {
            DeviceError::ConnectionFailed { message } => owned("Connection failed: ").concat(
                message.as_str(),
            ),
            DeviceError::NotFound => owned("Device not found"),
            DeviceError::PermissionDenied => owned("Permission denied"),
            DeviceError::Io(detail) => owned("IO error: ").concat(detail.as_str()),
            DeviceError::Timeout => owned("Timeout"),
            DeviceError::InvalidResponse => owned("Invalid response"),
            DeviceError::InvalidConfiguration { message } => owned(
                "Invalid configuration: ",
            ).concat(message.as_str()),
        }
    }

    /// Whether the error is a failed connection with the given message.
    pub open spec fn is_connection_failure(&self, text: Seq<char>) -> bool {
        self matches DeviceError::ConnectionFailed { message } && message@ == text
    }

    /// The error of an operation that needs an open port and finds none.
    pub fn not_connected() -> (e: DeviceError)
        ensures
            e.is_connection_failure("Device not connected"@),
    {
        DeviceError::ConnectionFailed { message: owned("Device not connected") }
    }

    /// A failed connection whose message is a fixed introduction followed
    /// by the cause.
    pub fn connection_failed(introduction: &str, cause: &str) -> (e: DeviceError)
        ensures
            e.is_connection_failure(introduction@ + cause@),
    {
        DeviceError::ConnectionFailed { message: owned(introduction).concat(cause) }
    }
}

/// The transports over which a device can be reached.
#[derive(Clone, Copy, Debug, PartialEq, Eq, Structural)]
pub enum DeviceType {
    Serial,
    Bluetooth,
    Tcp,
}

/// What a scan tells of a device.
#[derive(Debug, PartialEq, Eq)]
pub struct DeviceInfo {
    pub id: String,
    pub name: String,
    pub path: String,
    pub device_type: DeviceType,
    pub manufacturer: Option<String>,
    pub vendor_id: Option<String>,
    pub product_id: Option<String>,
    pub is_available: bool,
}

impl Clone for DeviceInfo {
    fn clone(&self) -> (copy: DeviceInfo)
        ensures
            copy == *self,
    {
        DeviceInfo {
            id: self.id.clone(),
            name: self.name.clone(),
            path: self.path.clone(),
            device_type: self.device_type,
            manufacturer: match &self.manufacturer {
                Some(s) => Some(s.clone()),
                None => None,
            },
            vendor_id: match &self.vendor_id {
                Some(s) => Some(s.clone()),
                None => None,
            },
            product_id: match &self.product_id {
                Some(s) => Some(s.clone()),
                None => None,
            },
            is_available: self.is_available,
        }
    }
}

impl DeviceInfo {
    /// An available device of which only name, path and transport are known.
    pub fn new(id: String, name: String, path: String, device_type: DeviceType) -> (info: DeviceInfo)
        ensures
            info == (DeviceInfo {
                id,
                name,
                path,
                device_type,
                manufacturer: None,
                vendor_id: None,
                product_id: None,
                is_available: true,
            }),
    {
        DeviceInfo {
            id,
            name,
            path,
            device_type,
            manufacturer: None,
            vendor_id: None,
            product_id: None,
            is_available: true,
        }
    }

    /// The same device, with its manufacturer.
    pub fn with_manufacturer(self, manufacturer: String) -> (info: DeviceInfo)
        ensures
            info == (DeviceInfo { manufacturer: Some(manufacturer), ..self }),
    {
        let mut info = self;
        info.manufacturer = Some(manufacturer);
        info
    }

    /// The same device, with its vendor id.
    pub fn with_vendor_id(self, vendor_id: String) -> (info: DeviceInfo)
        ensures
            info == (DeviceInfo { vendor_id: Some(vendor_id), ..self }),
    {
        let mut info = self;
        info.vendor_id = Some(vendor_id);
        info
    }

    /// The same device, with its product id.
    pub fn with_product_id(self, product_id: String) -> (info: DeviceInfo)
        ensures
            info == (DeviceInfo { product_id: Some(product_id), ..self }),
    {
        let mut info = self;
        info.product_id = Some(product_id);
        info
    }
}

/// Where a connection stands.
#[derive(Clone, Debug, PartialEq, Eq)]
pub enum ConnectionStatus {
    Disconnected,
    Connecting,
    Connected,
    Error(String),
}

/// A device and the state of the connection to it.
#[derive(Clone, Debug, PartialEq, Eq)]
pub struct DeviceConnection {
    pub device_info: DeviceInfo,
    pub status: ConnectionStatus,
    pub connected_at: Option<Timestamp>,
    pub last_activity: Option<Timestamp>,
}

impl DeviceConnection {
    /// A connection that has not been opened.
    pub fn new(device_info: DeviceInfo) -> (connection: DeviceConnection)
        ensures
            connection == (DeviceConnection {
                device_info,
                status: ConnectionStatus::Disconnected,
                connected_at: None,
                last_activity: None,
            }),
    {
        DeviceConnection {
            device_info,
            status: ConnectionStatus::Disconnected,
            connected_at: None,
            last_activity: None,
        }
    }

    /// Marks the connection as being opened.
    pub fn set_connecting(&mut self)
        ensures
            *final(self) == (DeviceConnection { status: ConnectionStatus::Connecting, ..*old(self) }),
    {
        self.status = ConnectionStatus::Connecting;
    }

    /// Marks the connection as open since `now`, and as active at `now`.
    pub fn set_connected_at(&mut self, now: Timestamp)
        ensures
            *final(self) == (DeviceConnection {
                status: ConnectionStatus::Connected,
                connected_at: Some(now),
                last_activity: Some(now),
                ..*old(self)
            }),
    {
        self.status = ConnectionStatus::Connected;
        self.connected_at = Some(now);
        self.last_activity = Some(now);
    }

    /// Marks the connection as open and active, as of the current time.
    pub fn set_connected(&mut self)
        ensures
            final(self).status == ConnectionStatus::Connected,
            final(self).connected_at is Some,
            final(self).last_activity == final(self).connected_at,
            final(self).device_info == old(self).device_info,
    {
        self.set_connected_at(now());
    }

    /// Marks the connection as closed; when it was last active stays known.
    pub fn set_disconnected(&mut self)
        ensures
            *final(self) == (DeviceConnection {
                status: ConnectionStatus::Disconnected,
                connected_at: None,
                ..*old(self)
            }),
    {
        self.status = ConnectionStatus::Disconnected;
        self.connected_at = None;
    }

    /// Marks the connection as failed, with the reason.
    pub fn set_error(&mut self, error: String)
        ensures
            *final(self) == (DeviceConnection { status: ConnectionStatus::Error(error), ..*old(self) }),
    {
        self.status = ConnectionStatus::Error(error);
    }

    /// Notes that the connection was active at `now`.
    pub fn update_activity_at(&mut self, now: Timestamp)
        ensures
            *final(self) == (DeviceConnection { last_activity: Some(now), ..*old(self) }),
    {
        self.last_activity = Some(now);
    }

    /// Notes that the connection is active at the current time.
    pub fn update_activity(&mut self)
        ensures
            final(self).last_activity is Some,
            final(self).status == old(self).status,
            final(self).connected_at == old(self).connected_at,
            final(self).device_info == old(self).device_info,
    {
        self.update_activity_at(now());
    }
}

} // verus!
