//! Administrative messages: device configuration as it travels in a packet.

use crate::protocol::admin_message::Variant;
use crate::protocol::float::Float32;
use vstd::prelude::*;

verus! {

/// A message that configures or queries a device.
#[derive(Clone, Debug, PartialEq, Eq, Default)]
pub struct AdminMessage {
    pub variant: Option<Variant>,
}

/// Asks for the settings of one channel.
#[derive(Clone, Copy, Debug, PartialEq, Eq, Default)]
pub struct GetChannelRequest {
    pub index: u32,
}

/// Asks who owns the device.
#[derive(Clone, Copy, Debug, PartialEq, Eq, Default)]
pub struct GetOwnerRequest {}

/// Asks for one part of the configuration.
#[derive(Clone, Copy, Debug, PartialEq, Eq, Default)]
pub struct GetConfigRequest {
    pub config_type: u32,
}

/// Asks for one part of a module's configuration.
#[derive(Clone, Copy, Debug, PartialEq, Eq, Default)]
pub struct GetModuleConfigRequest {
    pub config_type: u32,
}

/// Asks for the canned messages.
#[derive(Clone, Copy, Debug, PartialEq, Eq, Default)]
pub struct GetCannedMessageModuleMessagesRequest {}

/// Asks for the device's metadata.
#[derive(Clone, Copy, Debug, PartialEq, Eq, Default)]
pub struct GetDeviceMetadataRequest {}

/// What a channel is used for.
#[allow(non_camel_case_types)]
#[derive(Clone, Copy, Debug, PartialEq, Eq, Structural)]
pub enum Channel_Role {
    DISABLED,
    PRIMARY,
    SECONDARY,
}

impl Channel_Role {
    /// The number that stands for the role on the wire.
    pub open spec fn spec_code(self) -> i32 {
        match self {
            Channel_Role::DISABLED => 0,
            Channel_Role::PRIMARY => 1,
            Channel_Role::SECONDARY => 2,
        }
    }

    /// The number that stands for the role on the wire.
    pub fn code(&self) -> (c: i32)
        ensures
            c == self.spec_code(),
    {
        match self {
            Channel_Role::DISABLED => 0,
            Channel_Role::PRIMARY => 1,
            Channel_Role::SECONDARY => 2,
        }
    }
}

impl Default for Channel_Role {
    fn default() -> (r: Self)
        ensures
            r == Channel_Role::DISABLED,
    {
        Channel_Role::DISABLED
    }
}

/// Settings of a module on a channel.
#[derive(Clone, Copy, Debug, PartialEq, Eq, Default)]
pub struct ModuleSettings {}

/// The settings of one channel.
#[derive(Clone, Debug, PartialEq, Eq, Default)]
pub struct ChannelSettings {
    pub psk: Vec<u8>,
    pub name: String,
    pub id: u32,
    pub uplink_enabled: bool,
    pub downlink_enabled: bool,
    pub module_settings: Option<ModuleSettings>,
}

/// One channel of a device.
#[derive(Clone, Debug, PartialEq, Eq, Default)]
pub struct Channel {
    pub index: u32,
    pub settings: Option<ChannelSettings>,
    pub role: Channel_Role,
}

/// A part of the device configuration.
#[derive(Clone, Copy, Debug, PartialEq, Eq, Default)]
pub struct Config {}

/// A part of a module's configuration.
#[derive(Clone, Copy, Debug, PartialEq, Eq, Default)]
pub struct ModuleConfig {}

/// The radio settings as a device takes them.
#[derive(Clone, Copy, Debug, PartialEq, Eq, Default)]
pub struct RadioConfig {
    pub use_preset: bool,
    pub modem_preset: i32,
    pub bandwidth: u32,
    pub spread_factor: u32,
    pub coding_rate: u32,
    pub frequency_offset: Float32,
    pub region: i32,
    pub hop_limit: u32,
    pub tx_enabled: bool,
    pub tx_power: i32,
    pub sx126x_rx_boosted_gain: bool,
    pub override_duty_cycle: bool,
}

/// The regulatory regions that a device knows.
#[allow(non_camel_case_types)]
#[derive(Clone, Copy, Debug, PartialEq, Eq, Structural)]
pub enum Config_LoRaConfig_RegionCode {
    UNSET,
    US,
    EU_433,
    EU_868,
    CN,
    JP,
    ANZ,
    KR,
    TW,
    RU,
    IN,
    NZ_865,
    TH,
    LORA_24,
    UA_433,
    UA_868,
    MY_433,
    MY_919,
    SG_923,
}

impl Config_LoRaConfig_RegionCode {
    /// The number that stands for the region on the wire.
    pub open spec fn spec_code(self) -> i32 {
        match self {
            Config_LoRaConfig_RegionCode::UNSET => 0,
            Config_LoRaConfig_RegionCode::US => 1,
            Config_LoRaConfig_RegionCode::EU_433 => 2,
            Config_LoRaConfig_RegionCode::EU_868 => 3,
            Config_LoRaConfig_RegionCode::CN => 4,
            Config_LoRaConfig_RegionCode::JP => 5,
            Config_LoRaConfig_RegionCode::ANZ => 6,
            Config_LoRaConfig_RegionCode::KR => 7,
            Config_LoRaConfig_RegionCode::TW => 8,
            Config_LoRaConfig_RegionCode::RU => 9,
            Config_LoRaConfig_RegionCode::IN => 10,
            Config_LoRaConfig_RegionCode::NZ_865 => 11,
            Config_LoRaConfig_RegionCode::TH => 12,
            Config_LoRaConfig_RegionCode::LORA_24 => 13,
            Config_LoRaConfig_RegionCode::UA_433 => 14,
            Config_LoRaConfig_RegionCode::UA_868 => 15,
            Config_LoRaConfig_RegionCode::MY_433 => 16,
            Config_LoRaConfig_RegionCode::MY_919 => 17,
            Config_LoRaConfig_RegionCode::SG_923 => 18,
        }
    }

    /// The number that stands for the region on the wire.
    pub fn code(&self) -> (c: i32)
        ensures
            c == self.spec_code(),
    {
        match self {
            Config_LoRaConfig_RegionCode::UNSET => 0,
            Config_LoRaConfig_RegionCode::US => 1,
            Config_LoRaConfig_RegionCode::EU_433 => 2,
            Config_LoRaConfig_RegionCode::EU_868 => 3,
            Config_LoRaConfig_RegionCode::CN => 4,
            Config_LoRaConfig_RegionCode::JP => 5,
            Config_LoRaConfig_RegionCode::ANZ => 6,
            Config_LoRaConfig_RegionCode::KR => 7,
            Config_LoRaConfig_RegionCode::TW => 8,
            Config_LoRaConfig_RegionCode::RU => 9,
            Config_LoRaConfig_RegionCode::IN => 10,
            Config_LoRaConfig_RegionCode::NZ_865 => 11,
            Config_LoRaConfig_RegionCode::TH => 12,
            Config_LoRaConfig_RegionCode::LORA_24 => 13,
            Config_LoRaConfig_RegionCode::UA_433 => 14,
            Config_LoRaConfig_RegionCode::UA_868 => 15,
            Config_LoRaConfig_RegionCode::MY_433 => 16,
            Config_LoRaConfig_RegionCode::MY_919 => 17,
            Config_LoRaConfig_RegionCode::SG_923 => 18,
        }
    }
}

impl Default for Config_LoRaConfig_RegionCode {
    fn default() -> (r: Self)
        ensures
            r == Config_LoRaConfig_RegionCode::UNSET,
    {
        Config_LoRaConfig_RegionCode::UNSET
    }
}

/// The modem presets that a device knows.
#[allow(non_camel_case_types)]
#[derive(Clone, Copy, Debug, PartialEq, Eq, Structural)]
pub enum Config_LoRaConfig_ModemPreset {
    LONG_FAST,
    LONG_SLOW,
    VERY_LONG_SLOW,
    MEDIUM_SLOW,
    MEDIUM_FAST,
    SHORT_SLOW,
    SHORT_FAST,
}

impl Config_LoRaConfig_ModemPreset {
    /// The number that stands for the preset on the wire.
    pub open spec fn spec_code(self) -> i32 {
        match self {
            Config_LoRaConfig_ModemPreset::LONG_FAST => 0,
            Config_LoRaConfig_ModemPreset::LONG_SLOW => 1,
            Config_LoRaConfig_ModemPreset::VERY_LONG_SLOW => 2,
            Config_LoRaConfig_ModemPreset::MEDIUM_SLOW => 3,
            Config_LoRaConfig_ModemPreset::MEDIUM_FAST => 4,
            Config_LoRaConfig_ModemPreset::SHORT_SLOW => 5,
            Config_LoRaConfig_ModemPreset::SHORT_FAST => 6,
        }
    }

    /// The number that stands for the preset on the wire.
    pub fn code(&self) -> (c: i32)
        ensures
            c == self.spec_code(),
    {
        match self {
            Config_LoRaConfig_ModemPreset::LONG_FAST => 0,
            Config_LoRaConfig_ModemPreset::LONG_SLOW => 1,
            Config_LoRaConfig_ModemPreset::VERY_LONG_SLOW => 2,
            Config_LoRaConfig_ModemPreset::MEDIUM_SLOW => 3,
            Config_LoRaConfig_ModemPreset::MEDIUM_FAST => 4,
            Config_LoRaConfig_ModemPreset::SHORT_SLOW => 5,
            Config_LoRaConfig_ModemPreset::SHORT_FAST => 6,
        }
    }
}

impl Default for Config_LoRaConfig_ModemPreset {
    fn default() -> (p: Self)
        ensures
            p == Config_LoRaConfig_ModemPreset::LONG_FAST,
    {
        Config_LoRaConfig_ModemPreset::LONG_FAST
    }
}

} // verus!
