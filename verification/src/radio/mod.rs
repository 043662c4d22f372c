//! Radio settings and their management.

pub mod config;
pub mod manager;

pub use config::{RadioConfig, RadioConfigError, RadioPreset, Region};
pub use manager::RadioManager;
