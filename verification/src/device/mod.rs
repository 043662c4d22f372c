//! Devices: what is known of one before and after it is connected.

pub mod discovery;
pub mod info;
pub mod serial;

pub use info::{ConnectionStatus, DeviceConnection, DeviceError, DeviceInfo, DeviceType};
pub use serial::SerialDevice;
