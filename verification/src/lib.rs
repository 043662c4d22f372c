//! Core of a mesh-radio link: wire framing, packet processing and the
//! decisions of the serial transport and the MQTT bridge, with machine-checked
//! contracts.

pub mod bridge;
pub mod buffer;
pub mod checksum;
pub mod clock;
pub mod device;
pub mod encoding;
pub mod frame_laws;
pub mod framing;
pub mod manager;
pub mod mqtt;
pub mod protocol;
pub mod radio;
pub mod random;
pub mod table;
pub mod text;

pub use manager::{LoraCommsError, LoraCommsManager};
