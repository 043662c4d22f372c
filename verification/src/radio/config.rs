//! The settings of a radio: region, frequency and the parameters of the
//! LoRa modem. Frequencies are 32-bit floating-point numbers of megahertz,
//! held by their bit patterns; of two such numbers that are neither
//! negative nor NaN, the greater has the greater bit pattern, and that is
//! all this file needs of them.

use crate::protocol::admin::{
    AdminMessage, Config_LoRaConfig_ModemPreset, Config_LoRaConfig_RegionCode,
};
use crate::protocol::admin_message::Variant;
use crate::protocol::float::Float32;
use crate::text::{append_decimal, decimal_text, owned};
use vstd::prelude::*;
use vstd::string::StringExecFns;

verus! {

/// The regions whose rules on frequencies are known, and a region with a
/// frequency of its own.
#[derive(Clone, Copy, Debug, PartialEq, Eq, Structural)]
pub enum Region {
    /// 902-928 MHz
    US,
    /// 433.05-434.79 MHz
    EU433,
    /// 863-870 MHz
    EU868,
    /// 470-510 MHz
    CN,
    /// 920-925 MHz
    JP,
    /// 915-928 MHz
    ANZ,
    /// 920-925 MHz
    KR,
    /// 920-925 MHz
    TW,
    /// 868-870 MHz
    RU,
    /// 865-867 MHz
    IN,
    /// 864-868 MHz
    NZ865,
    /// 920-925 MHz
    TH,
    /// 433.05-434.79 MHz
    UA433,
    /// 868-870 MHz
    UA868,
    /// 433.05-434.79 MHz
    MY433,
    /// 919-924 MHz
    MY919,
    /// 917-925 MHz
    SG923,
    /// A frequency outside the known regions; no rule applies.
    Custom(Float32),
}

/// Settings of the modem that go together, from short range and fast to
/// long range and slow.
#[derive(Clone, Copy, Debug, PartialEq, Eq, Structural)]
pub enum RadioPreset {
    /// Spreading factor 7, 250 kHz.
    ShortFast,
    /// Spreading factor 8, 125 kHz.
    ShortSlow,
    /// Spreading factor 9, 125 kHz.
    MediumFast,
    /// Spreading factor 10, 125 kHz.
    MediumSlow,
    /// Spreading factor 11, 125 kHz.
    LongFast,
    /// Spreading factor 12, 125 kHz.
    LongSlow,
    /// Spreading factor 12, 62.5 kHz.
    VeryLongSlow,
}

/// The settings of a radio.
#[derive(Clone, Copy, Debug, PartialEq, Eq, Structural)]
pub struct RadioConfig {
    /// The frequency in MHz.
    pub frequency: Float32,
    /// The bandwidth in Hz.
    pub bandwidth: u32,
    /// The spreading factor, 7 to 12.
    pub spreading_factor: u8,
    /// The coding rate, 5 to 8.
    pub coding_rate: u8,
    /// The transmit power in dBm.
    pub tx_power: u8,
    pub region: Region,
    pub preset: Option<RadioPreset>,
}

/// 1.0 as a bit pattern.
pub const ONE_BITS: u32 = 0x3F80_0000;

/// 100.0 as a bit pattern.
pub const HUNDRED_BITS: u32 = 0x42C8_0000;

/// 433.05 as a bit pattern.
pub const MHZ_433_05: u32 = 0x43D8_8666;

/// 433.175 as a bit pattern.
pub const MHZ_433_175: u32 = 0x43D8_9666;

/// 434.79 as a bit pattern.
pub const MHZ_434_79: u32 = 0x43D9_651F;

/// 470.0 as a bit pattern.
pub const MHZ_470: u32 = 0x43EB_0000;

/// 490.0 as a bit pattern.
pub const MHZ_490: u32 = 0x43F5_0000;

/// 510.0 as a bit pattern.
pub const MHZ_510: u32 = 0x43FF_0000;

/// 863.0 as a bit pattern.
pub const MHZ_863: u32 = 0x4457_C000;

/// 864.0 as a bit pattern.
pub const MHZ_864: u32 = 0x4458_0000;

/// 865.0 as a bit pattern.
pub const MHZ_865: u32 = 0x4458_4000;

/// 867.0 as a bit pattern.
pub const MHZ_867: u32 = 0x4458_C000;

/// 868.0 as a bit pattern.
pub const MHZ_868: u32 = 0x4459_0000;

/// 870.0 as a bit pattern.
pub const MHZ_870: u32 = 0x4459_8000;

/// 902.0 as a bit pattern.
pub const MHZ_902: u32 = 0x4461_8000;

/// 915.0 as a bit pattern.
pub const MHZ_915: u32 = 0x4464_C000;

/// 917.0 as a bit pattern.
pub const MHZ_917: u32 = 0x4465_4000;

/// 919.0 as a bit pattern.
pub const MHZ_919: u32 = 0x4465_C000;

/// 920.0 as a bit pattern.
pub const MHZ_920: u32 = 0x4466_0000;

/// 923.0 as a bit pattern.
pub const MHZ_923: u32 = 0x4466_C000;

/// 924.0 as a bit pattern.
pub const MHZ_924: u32 = 0x4467_0000;

/// 925.0 as a bit pattern.
pub const MHZ_925: u32 = 0x4467_4000;

/// 928.0 as a bit pattern.
pub const MHZ_928: u32 = 0x4468_0000;

/// The lowest and the highest frequency that a region allows, as bit
/// patterns; none for a region with a frequency of its own.
pub open spec fn allowed_range(region: Region) -> Option<(u32, u32)> {
    match region {
        Region::US => Some((MHZ_902, MHZ_928)),
        Region::EU433 => Some((MHZ_433_05, MHZ_434_79)),
        Region::EU868 => Some((MHZ_863, MHZ_870)),
        Region::CN => Some((MHZ_470, MHZ_510)),
        Region::JP => Some((MHZ_920, MHZ_925)),
        Region::ANZ => Some((MHZ_915, MHZ_928)),
        Region::KR => Some((MHZ_920, MHZ_925)),
        Region::TW => Some((MHZ_920, MHZ_925)),
        Region::RU => Some((MHZ_868, MHZ_870)),
        Region::IN => Some((MHZ_865, MHZ_867)),
        Region::NZ865 => Some((MHZ_864, MHZ_868)),
        Region::TH => Some((MHZ_920, MHZ_925)),
        Region::UA433 => Some((MHZ_433_05, MHZ_434_79)),
        Region::UA868 => Some((MHZ_868, MHZ_870)),
        Region::MY433 => Some((MHZ_433_05, MHZ_434_79)),
        Region::MY919 => Some((MHZ_919, MHZ_924)),
        Region::SG923 => Some((MHZ_917, MHZ_925)),
        Region::Custom(_) => None,
    }
}

/// The frequency that a radio starts with in a region, as a bit pattern.
pub open spec fn region_frequency(region: Region) -> u32 {
    match region {
        Region::US => MHZ_915,
        Region::ANZ => MHZ_915,
        Region::EU433 => MHZ_433_175,
        Region::UA433 => MHZ_433_175,
        Region::MY433 => MHZ_433_175,
        Region::EU868 => MHZ_868,
        Region::RU => MHZ_868,
        Region::IN => MHZ_868,
        Region::NZ865 => MHZ_868,
        Region::UA868 => MHZ_868,
        Region::CN => MHZ_490,
        Region::JP => MHZ_923,
        Region::KR => MHZ_923,
        Region::TW => MHZ_923,
        Region::TH => MHZ_923,
        Region::MY919 => MHZ_919,
        Region::SG923 => MHZ_923,
        Region::Custom(frequency) => frequency.bits,
    }
}

/// Whether a bit pattern stands for no number (NaN).
pub open spec fn is_nan_bits(bits: u32) -> bool {
    bits & 0x7FFF_FFFF > 0x7F80_0000
}

/// Whether a bit pattern stands for a negative number, negative zero included.
pub open spec fn is_negative_bits(bits: u32) -> bool {
    bits & 0x8000_0000 != 0
}

/// Whether a frequency lies below `low` or above `high`, two bounds that
/// are positive numbers: a negative frequency lies below, NaN lies neither
/// below nor above, and any other frequency is compared by its bit pattern.
pub open spec fn outside(frequency: u32, low: u32, high: u32) -> bool {
    !is_nan_bits(frequency) && (is_negative_bits(frequency) || frequency < low || frequency
        > high)
}

/// Whether a bandwidth is one that the modem offers.
pub open spec fn is_valid_bandwidth(bandwidth: u32) -> bool {
    ||| bandwidth == 7800
    ||| bandwidth == 10400
    ||| bandwidth == 15600
    ||| bandwidth == 20800
    ||| bandwidth == 31250
    ||| bandwidth == 41700
    ||| bandwidth == 62500
    ||| bandwidth == 125000
    ||| bandwidth == 250000
    ||| bandwidth == 500000
}

/// What is wrong with a radio configuration.
#[derive(Clone, Copy, Debug, PartialEq, Eq, Structural)]
pub enum RadioConfigError {
    /// The frequency lies outside the range that the region allows.
    Frequency { frequency: Float32, low: Float32, high: Float32, region: Region },
    /// The spreading factor is not one of 7 to 12.
    SpreadingFactor(u8),
    /// The bandwidth is none that the modem offers.
    Bandwidth(u32),
    /// The coding rate is not one of 5 to 8.
    CodingRate(u8),
    /// The transmit power is above 30 dBm.
    TxPower(u8),
}

/// The first thing that is wrong with a configuration, if anything is.
/// Nothing is checked for a region with a frequency of its own. Else the
/// checks come in this order: frequency, spreading factor, bandwidth,
/// coding rate, transmit power.
pub open spec fn first_fault(config: RadioConfig) -> Option<RadioConfigError> {
    match allowed_range(config.region) {
        None => None,
        Some((low, high)) => if outside(config.frequency.bits, low, high) {
            Some(
                RadioConfigError::Frequency {
                    frequency: config.frequency,
                    low: Float32 { bits: low },
                    high: Float32 { bits: high },
                    region: config.region,
                },
            )
        } else if !(7 <= config.spreading_factor <= 12) {
            Some(RadioConfigError::SpreadingFactor(config.spreading_factor))
        } else if !is_valid_bandwidth(config.bandwidth) {
            Some(RadioConfigError::Bandwidth(config.bandwidth))
        } else if !(5 <= config.coding_rate <= 8) {
            Some(RadioConfigError::CodingRate(config.coding_rate))
        } else if config.tx_power > 30 {
            Some(RadioConfigError::TxPower(config.tx_power))
        } else {
            None
        },
    }
}

/// The configuration with the modem settings of a preset.
pub open spec fn preset_applied(config: RadioConfig, preset: RadioPreset) -> RadioConfig {
    let (spreading_factor, bandwidth, coding_rate) = match preset {
        RadioPreset::ShortFast => (7u8, 250000u32, 5u8),
        RadioPreset::ShortSlow => (8u8, 125000u32, 8u8),
        RadioPreset::MediumFast => (9u8, 125000u32, 5u8),
        RadioPreset::MediumSlow => (10u8, 125000u32, 8u8),
        RadioPreset::LongFast => (11u8, 125000u32, 5u8),
        RadioPreset::LongSlow => (12u8, 125000u32, 8u8),
        RadioPreset::VeryLongSlow => (12u8, 62500u32, 8u8),
    };
    RadioConfig { spreading_factor, bandwidth, coding_rate, preset: Some(preset), ..config }
}

/// The configuration that a radio starts with: 915 MHz in the US, 125
/// kHz, spreading factor 10, coding rate 8, 17 dBm, preset medium-slow.
pub open spec fn default_config() -> RadioConfig {
    RadioConfig {
        frequency: Float32 { bits: MHZ_915 },
        bandwidth: 125000,
        spreading_factor: 10,
        coding_rate: 8,
        tx_power: 17,
        region: Region::US,
        preset: Some(RadioPreset::MediumSlow),
    }
}

/// The modem preset that a device is told for a preset; long-fast where
/// the configuration names none.
pub open spec fn modem_preset_of(preset: Option<RadioPreset>) -> Config_LoRaConfig_ModemPreset {
    match preset {
        Some(RadioPreset::ShortFast) => Config_LoRaConfig_ModemPreset::SHORT_FAST,
        Some(RadioPreset::ShortSlow) => Config_LoRaConfig_ModemPreset::SHORT_SLOW,
        Some(RadioPreset::MediumFast) => Config_LoRaConfig_ModemPreset::MEDIUM_FAST,
        Some(RadioPreset::MediumSlow) => Config_LoRaConfig_ModemPreset::MEDIUM_SLOW,
        Some(RadioPreset::LongFast) => Config_LoRaConfig_ModemPreset::LONG_FAST,
        Some(RadioPreset::LongSlow) => Config_LoRaConfig_ModemPreset::LONG_SLOW,
        Some(RadioPreset::VeryLongSlow) => Config_LoRaConfig_ModemPreset::VERY_LONG_SLOW,
        None => Config_LoRaConfig_ModemPreset::LONG_FAST,
    }
}

/// The region code that a device is told for a region; unset for a region
/// with a frequency of its own.
pub open spec fn region_code_of(region: Region) -> Config_LoRaConfig_RegionCode {
    match region {
        Region::US => Config_LoRaConfig_RegionCode::US,
        Region::EU433 => Config_LoRaConfig_RegionCode::EU_433,
        Region::EU868 => Config_LoRaConfig_RegionCode::EU_868,
        Region::CN => Config_LoRaConfig_RegionCode::CN,
        Region::JP => Config_LoRaConfig_RegionCode::JP,
        Region::ANZ => Config_LoRaConfig_RegionCode::ANZ,
        Region::KR => Config_LoRaConfig_RegionCode::KR,
        Region::TW => Config_LoRaConfig_RegionCode::TW,
        Region::RU => Config_LoRaConfig_RegionCode::RU,
        Region::IN => Config_LoRaConfig_RegionCode::IN,
        Region::NZ865 => Config_LoRaConfig_RegionCode::NZ_865,
        Region::TH => Config_LoRaConfig_RegionCode::TH,
        Region::UA433 => Config_LoRaConfig_RegionCode::UA_433,
        Region::UA868 => Config_LoRaConfig_RegionCode::UA_868,
        Region::MY433 => Config_LoRaConfig_RegionCode::MY_433,
        Region::MY919 => Config_LoRaConfig_RegionCode::MY_919,
        Region::SG923 => Config_LoRaConfig_RegionCode::SG_923,
        Region::Custom(_) => Config_LoRaConfig_RegionCode::UNSET,
    }
}

/// The radio settings that a device is told for a configuration.
pub open spec fn device_settings(config: RadioConfig) -> crate::protocol::admin::RadioConfig {
    crate::protocol::admin::RadioConfig {
        use_preset: false,
        modem_preset: modem_preset_of(config.preset).spec_code(),
        bandwidth: config.bandwidth,
        spread_factor: config.spreading_factor as u32,
        coding_rate: config.coding_rate as u32,
        frequency_offset: Float32 { bits: 0 },
        region: region_code_of(config.region).spec_code(),
        hop_limit: 3,
        tx_enabled: true,
        tx_power: config.tx_power as i32,
        sx126x_rx_boosted_gain: false,
        override_duty_cycle: false,
    }
}

impl Region {
    /// The name of the region.
    pub open spec fn spec_name(self) -> Seq<char> {
        match self {
            Region::US => "US"@,
            Region::EU433 => "EU433"@,
            Region::EU868 => "EU868"@,
            Region::CN => "CN"@,
            Region::JP => "JP"@,
            Region::ANZ => "ANZ"@,
            Region::KR => "KR"@,
            Region::TW => "TW"@,
            Region::RU => "RU"@,
            Region::IN => "IN"@,
            Region::NZ865 => "NZ865"@,
            Region::TH => "TH"@,
            Region::UA433 => "UA433"@,
            Region::UA868 => "UA868"@,
            Region::MY433 => "MY433"@,
            Region::MY919 => "MY919"@,
            Region::SG923 => "SG923"@,
            Region::Custom(_) => "Custom"@,
        }
    }

    /// The name of the region.
    pub fn name(&self) -> (name: String)
        ensures
            name@ == self.spec_name(),
    {
        match self {
            Region::US => owned("US"),
            Region::EU433 => owned("EU433"),
            Region::EU868 => owned("EU868"),
            Region::CN => owned("CN"),
            Region::JP => owned("JP"),
            Region::ANZ => owned("ANZ"),
            Region::KR => owned("KR"),
            Region::TW => owned("TW"),
            Region::RU => owned("RU"),
            Region::IN => owned("IN"),
            Region::NZ865 => owned("NZ865"),
            Region::TH => owned("TH"),
            Region::UA433 => owned("UA433"),
            Region::UA868 => owned("UA868"),
            Region::MY433 => owned("MY433"),
            Region::MY919 => owned("MY919"),
            Region::SG923 => owned("SG923"),
            Region::Custom(_) => owned("Custom"),
        }
    }

    /// The lowest and the highest frequency that the region allows.
    pub fn allowed_frequencies(&self) -> (range: Option<(Float32, Float32)>)
        ensures
            match allowed_range(*self) {
                Some((low, high)) => range == Some((Float32 { bits: low }, Float32 { bits: high })),
                None => range is None,
            },
    {
        let bits = match self {
            Region::US => Some((MHZ_902, MHZ_928)),
            Region::EU433 => Some((MHZ_433_05, MHZ_434_79)),
            Region::EU868 => Some((MHZ_863, MHZ_870)),
            Region::CN => Some((MHZ_470, MHZ_510)),
            Region::JP => Some((MHZ_920, MHZ_925)),
            Region::ANZ => Some((MHZ_915, MHZ_928)),
            Region::KR => Some((MHZ_920, MHZ_925)),
            Region::TW => Some((MHZ_920, MHZ_925)),
            Region::RU => Some((MHZ_868, MHZ_870)),
            Region::IN => Some((MHZ_865, MHZ_867)),
            Region::NZ865 => Some((MHZ_864, MHZ_868)),
            Region::TH => Some((MHZ_920, MHZ_925)),
            Region::UA433 => Some((MHZ_433_05, MHZ_434_79)),
            Region::UA868 => Some((MHZ_868, MHZ_870)),
            Region::MY433 => Some((MHZ_433_05, MHZ_434_79)),
            Region::MY919 => Some((MHZ_919, MHZ_924)),
            Region::SG923 => Some((MHZ_917, MHZ_925)),
            Region::Custom(_) => None,
        };
        match bits {
            Some((low, high)) => Some((Float32::from_bits(low), Float32::from_bits(high))),
            None => None,
        }
    }
}

impl RadioConfigError {
    /// What is wrong, in words; `rendered` holds the texts of the
    /// frequency, the lowest and the highest frequency allowed, to one
    /// decimal place each, for the one error that names frequencies.
    pub open spec fn spec_message(self, rendered: Seq<String>) -> Seq<char> {
        match self {
            RadioConfigError::Frequency { frequency, low, high, region } => "Frequency "@
                + crate::protocol::processor::reading(rendered, 0) + " MHz is outside allowed range "@
                + crate::protocol::processor::reading(rendered, 1) + "-"@
                + crate::protocol::processor::reading(rendered, 2) + " MHz for region "@
                + region.spec_name(),
            RadioConfigError::SpreadingFactor(value) => "Spreading factor "@ + decimal_text(
                value as nat,
            ) + " is invalid. Must be between 7 and 12"@,
            RadioConfigError::Bandwidth(value) => "Bandwidth "@ + decimal_text(value as nat)
                + " is invalid. Must be one of: [7800, 10400, 15600, 20800, 31250, 41700, 62500, 125000, 250000, 500000]"@,
            RadioConfigError::CodingRate(value) => "Coding rate "@ + decimal_text(value as nat)
                + " is invalid. Must be between 5 and 8"@,
            RadioConfigError::TxPower(value) => "TX power "@ + decimal_text(value as nat)
                + " dBm is too high. Maximum is 30 dBm"@,
        }
    }

    /// What is wrong, in words (see `spec_message`).
    pub fn message(&self, rendered: &Vec<String>) -> (text: String)
        ensures
            text@ == self.spec_message(rendered@),
    {
        match self {
            RadioConfigError::Frequency { frequency, low, high, region } => {
                let mut text = owned("Frequency ");
                text.append(slot(rendered, 0));
                text.append(" MHz is outside allowed range ");
                text.append(slot(rendered, 1));
                text.append("-");
                text.append(slot(rendered, 2));
                text.append(" MHz for region ");
                text.append(region.name().as_str());
                text
            },
            RadioConfigError::SpreadingFactor(value) => {
                let mut text = owned("Spreading factor ");
                append_decimal(&mut text, *value as u64);
                text.append(" is invalid. Must be between 7 and 12");
                text
            },
            RadioConfigError::Bandwidth(value) => {
                let mut text = owned("Bandwidth ");
                append_decimal(&mut text, *value as u64);
                text.append(
                    " is invalid. Must be one of: [7800, 10400, 15600, 20800, 31250, 41700, 62500, 125000, 250000, 500000]",
                );
                text
            },
            RadioConfigError::CodingRate(value) => {
                let mut text = owned("Coding rate ");
                append_decimal(&mut text, *value as u64);
                text.append(" is invalid. Must be between 5 and 8");
                text
            },
            RadioConfigError::TxPower(value) => {
                let mut text = owned("TX power ");
                append_decimal(&mut text, *value as u64);
                text.append(" dBm is too high. Maximum is 30 dBm");
                text
            },
        }
    }
}

/// The `i`-th rendered text; empty where none was handed in.
fn slot(rendered: &Vec<String>, i: usize) -> (text: &str)
    ensures
        text@ == crate::protocol::processor::reading(rendered@, i as int),
{
    if i < rendered.len() {
        rendered[i].as_str()
    } else {
        proof {
            reveal_strlit("");
        }
        let empty = "";
        empty
    }
}

/// Whether a frequency lies below `low` or above `high`.
fn lies_outside(frequency: Float32, low: Float32, high: Float32) -> (out: bool)
    ensures
        out == outside(frequency.bits, low.bits, high.bits),
{
    let bits = frequency.bits;
    let nan = bits & 0x7FFF_FFFF > 0x7F80_0000;
    let negative = bits & 0x8000_0000 != 0;
    !nan && (negative || bits < low.bits || bits > high.bits)
}

impl RadioConfig {
    /// The configuration that a radio starts with in a region: the
    /// region's frequency, and the modem settings of the default.
    pub fn for_region(region: Region) -> (config: RadioConfig)
        ensures
            config == (RadioConfig {
                frequency: Float32 { bits: region_frequency(region) },
                region,
                ..default_config()
            }),
    {
        let bits = match region {
            Region::US => MHZ_915,
            Region::ANZ => MHZ_915,
            Region::EU433 => MHZ_433_175,
            Region::UA433 => MHZ_433_175,
            Region::MY433 => MHZ_433_175,
            Region::EU868 => MHZ_868,
            Region::RU => MHZ_868,
            Region::IN => MHZ_868,
            Region::NZ865 => MHZ_868,
            Region::UA868 => MHZ_868,
            Region::CN => MHZ_490,
            Region::JP => MHZ_923,
            Region::KR => MHZ_923,
            Region::TW => MHZ_923,
            Region::TH => MHZ_923,
            Region::MY919 => MHZ_919,
            Region::SG923 => MHZ_923,
            Region::Custom(frequency) => frequency.bits,
        };
        RadioConfig {
            frequency: Float32 { bits },
            bandwidth: 125000,
            spreading_factor: 10,
            coding_rate: 8,
            tx_power: 17,
            region,
            preset: Some(RadioPreset::MediumSlow),
        }
    }

    /// The same configuration with the modem settings of a preset.
    pub fn with_preset(self, preset: RadioPreset) -> (config: RadioConfig)
        ensures
            config == preset_applied(self, preset),
    {
        let mut config = self;
        match preset {
            RadioPreset::ShortFast => {
                config.spreading_factor = 7;
                config.bandwidth = 250000;
                config.coding_rate = 5;
            },
            RadioPreset::ShortSlow => {
                config.spreading_factor = 8;
                config.bandwidth = 125000;
                config.coding_rate = 8;
            },
            RadioPreset::MediumFast => {
                config.spreading_factor = 9;
                config.bandwidth = 125000;
                config.coding_rate = 5;
            },
            RadioPreset::MediumSlow => {
                config.spreading_factor = 10;
                config.bandwidth = 125000;
                config.coding_rate = 8;
            },
            RadioPreset::LongFast => {
                config.spreading_factor = 11;
                config.bandwidth = 125000;
                config.coding_rate = 5;
            },
            RadioPreset::LongSlow => {
                config.spreading_factor = 12;
                config.bandwidth = 125000;
                config.coding_rate = 8;
            },
            RadioPreset::VeryLongSlow => {
                config.spreading_factor = 12;
                config.bandwidth = 62500;
                config.coding_rate = 8;
            },
        }
        config.preset = Some(preset);
        config
    }

    /// The administrative message that tells a device these settings.
    pub fn to_admin_message(&self) -> (message: AdminMessage)
        ensures
            message == (AdminMessage { variant: Some(Variant::SetRadio(device_settings(*self))) }),
    {
        let modem_preset = match self.preset {
            Some(RadioPreset::ShortFast) => Config_LoRaConfig_ModemPreset::SHORT_FAST,
            Some(RadioPreset::ShortSlow) => Config_LoRaConfig_ModemPreset::SHORT_SLOW,
            Some(RadioPreset::MediumFast) => Config_LoRaConfig_ModemPreset::MEDIUM_FAST,
            Some(RadioPreset::MediumSlow) => Config_LoRaConfig_ModemPreset::MEDIUM_SLOW,
            Some(RadioPreset::LongFast) => Config_LoRaConfig_ModemPreset::LONG_FAST,
            Some(RadioPreset::LongSlow) => Config_LoRaConfig_ModemPreset::LONG_SLOW,
            Some(RadioPreset::VeryLongSlow) => Config_LoRaConfig_ModemPreset::VERY_LONG_SLOW,
            None => Config_LoRaConfig_ModemPreset::LONG_FAST,
        };
        let region = match self.region {
            Region::US => Config_LoRaConfig_RegionCode::US,
            Region::EU433 => Config_LoRaConfig_RegionCode::EU_433,
            Region::EU868 => Config_LoRaConfig_RegionCode::EU_868,
            Region::CN => Config_LoRaConfig_RegionCode::CN,
            Region::JP => Config_LoRaConfig_RegionCode::JP,
            Region::ANZ => Config_LoRaConfig_RegionCode::ANZ,
            Region::KR => Config_LoRaConfig_RegionCode::KR,
            Region::TW => Config_LoRaConfig_RegionCode::TW,
            Region::RU => Config_LoRaConfig_RegionCode::RU,
            Region::IN => Config_LoRaConfig_RegionCode::IN,
            Region::NZ865 => Config_LoRaConfig_RegionCode::NZ_865,
            Region::TH => Config_LoRaConfig_RegionCode::TH,
            Region::UA433 => Config_LoRaConfig_RegionCode::UA_433,
            Region::UA868 => Config_LoRaConfig_RegionCode::UA_868,
            Region::MY433 => Config_LoRaConfig_RegionCode::MY_433,
            Region::MY919 => Config_LoRaConfig_RegionCode::MY_919,
            Region::SG923 => Config_LoRaConfig_RegionCode::SG_923,
            Region::Custom(_) => Config_LoRaConfig_RegionCode::UNSET,
        };
        AdminMessage {
            variant: Some(
                Variant::SetRadio(
                    crate::protocol::admin::RadioConfig {
                        use_preset: false,
                        modem_preset: modem_preset.code(),
                        bandwidth: self.bandwidth,
                        spread_factor: self.spreading_factor as u32,
                        coding_rate: self.coding_rate as u32,
                        frequency_offset: Float32::zero(),
                        region: region.code(),
                        hop_limit: 3,
                        tx_enabled: true,
                        tx_power: self.tx_power as i32,
                        sx126x_rx_boosted_gain: false,
                        override_duty_cycle: false,
                    },
                ),
            ),
        }
    }

    /// The share of time, in percent, for which the region lets a radio
    /// send: 1.0 in the European and Ukrainian regions, 100.0 elsewhere.
    pub fn duty_cycle_percent(&self) -> (percent: Float32)
        ensures
            percent.bits == (match self.region {
                Region::EU433 => ONE_BITS,
                Region::EU868 => ONE_BITS,
                Region::UA433 => ONE_BITS,
                Region::UA868 => ONE_BITS,
                _ => HUNDRED_BITS,
            }),
    {
        match self.region {
            Region::EU433 | Region::EU868 | Region::UA433 | Region::UA868 => Float32::from_bits(
                ONE_BITS,
            ),
            _ => Float32::from_bits(HUNDRED_BITS),
        }
    }

    /// Checks the configuration against the rules of its region and the
    /// limits of the modem, and reports the first thing that is wrong.
    pub fn validate(&self) -> (result: Result<(), RadioConfigError>)
        ensures
            match first_fault(*self) {
                Some(fault) => result == Err::<(), RadioConfigError>(fault),
                None => result is Ok,
            },
    {
        let (low, high) = match self.region.allowed_frequencies() {
            Some(range) => range,
            None => {
                return Ok(());
            },
        };
        if lies_outside(self.frequency, low, high) {
            return Err(
                RadioConfigError::Frequency {
                    frequency: self.frequency,
                    low,
                    high,
                    region: self.region,
                },
            );
        }
        if self.spreading_factor < 7 || self.spreading_factor > 12 {
            return Err(RadioConfigError::SpreadingFactor(self.spreading_factor));
        }
        let b = self.bandwidth;
        if !(b == 7800 || b == 10400 || b == 15600 || b == 20800 || b == 31250 || b == 41700 || b
            == 62500 || b == 125000 || b == 250000 || b == 500000) {
            return Err(RadioConfigError::Bandwidth(b));
        }
        if self.coding_rate < 5 || self.coding_rate > 8 {
            return Err(RadioConfigError::CodingRate(self.coding_rate));
        }
        if self.tx_power > 30 {
            return Err(RadioConfigError::TxPower(self.tx_power));
        }
        Ok(())
    }
}

impl Default for RadioConfig {
    fn default() -> (config: RadioConfig)
        ensures
            config == default_config(),
    {
        RadioConfig {
            frequency: Float32 { bits: MHZ_915 },
            bandwidth: 125000,
            spreading_factor: 10,
            coding_rate: 8,
            tx_power: 17,
            region: Region::US,
            preset: Some(RadioPreset::MediumSlow),
        }
    }
}

} // verus!
