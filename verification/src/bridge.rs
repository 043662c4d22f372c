//! The numbers under which regions, presets, transports and counts cross
//! the boundary to a host program.

use crate::device::info::DeviceType;
use crate::mqtt::gateway::GatewayStats;
use crate::radio::config::{RadioPreset, Region};
use vstd::prelude::*;

verus! {

/// The counts of a gateway as a host program takes them.
#[derive(Clone, Copy, Debug, PartialEq, Eq, Structural)]
pub struct CGatewayStats {
    pub messages_received: u64,
    pub messages_published: u64,
    pub mqtt_connections: u64,
    pub mqtt_disconnections: u64,
    pub uptime_seconds: u64,
    pub connected_nodes: u64,
    /// The time of the last message in seconds since 1970; 0 for none.
    pub last_message_time: i64,
}

/// The counts of a gateway as a host program takes them.
pub fn rust_gateway_stats_to_c(stats: &GatewayStats) -> (c: CGatewayStats)
    ensures
        c == (CGatewayStats {
            messages_received: stats.messages_received,
            messages_published: stats.messages_published,
            mqtt_connections: stats.mqtt_connections,
            mqtt_disconnections: stats.mqtt_disconnections,
            uptime_seconds: stats.uptime_seconds,
            connected_nodes: stats.connected_nodes,
            last_message_time: match stats.last_message_time {
                Some(t) => t.secs,
                None => 0,
            },
        }),
{
    CGatewayStats {
        messages_received: stats.messages_received,
        messages_published: stats.messages_published,
        mqtt_connections: stats.mqtt_connections,
        mqtt_disconnections: stats.mqtt_disconnections,
        uptime_seconds: stats.uptime_seconds,
        connected_nodes: stats.connected_nodes,
        last_message_time: match stats.last_message_time {
            Some(t) => t.secs,
            None => 0,
        },
    }
}

/// The transport that a number stands for: 0 serial, 1 Bluetooth, 2 TCP.
pub open spec fn device_type_of(code: u32) -> Option<DeviceType> {
    if code == 0 {
        Some(DeviceType::Serial)
    } else if code == 1 {
        Some(DeviceType::Bluetooth)
    } else if code == 2 {
        Some(DeviceType::Tcp)
    } else {
        None
    }
}

/// The transport that a number stands for, if it stands for one.
pub fn device_type_from_code(code: u32) -> (kind: Option<DeviceType>)
    ensures
        kind == device_type_of(code),
{
    match code {
        0 => Some(DeviceType::Serial),
        1 => Some(DeviceType::Bluetooth),
        2 => Some(DeviceType::Tcp),
        _ => None,
    }
}

/// The number that stands for a transport.
pub fn device_type_to_code(kind: DeviceType) -> (code: u32)
    ensures
        device_type_of(code) == Some(kind),
        code <= 2,
{
    match kind {
        DeviceType::Serial => 0,
        DeviceType::Bluetooth => 1,
        DeviceType::Tcp => 2,
    }
}

/// The region that a number stands for: the first ten regions are
/// numbered from 0, and any other number stands for the US.
pub open spec fn region_of(code: u32) -> Region {
    if code == 1 {
        Region::EU433
    } else if code == 2 {
        Region::EU868
    } else if code == 3 {
        Region::CN
    } else if code == 4 {
        Region::JP
    } else if code == 5 {
        Region::ANZ
    } else if code == 6 {
        Region::KR
    } else if code == 7 {
        Region::TW
    } else if code == 8 {
        Region::RU
    } else if code == 9 {
        Region::IN
    } else {
        Region::US
    }
}

/// The number that stands for a region: the first ten regions are
/// numbered from 0, and every other region goes under the number of the US.
pub open spec fn code_of_region(region: Region) -> u32 {
    match region {
        Region::US => 0,
        Region::EU433 => 1,
        Region::EU868 => 2,
        Region::CN => 3,
        Region::JP => 4,
        Region::ANZ => 5,
        Region::KR => 6,
        Region::TW => 7,
        Region::RU => 8,
        Region::IN => 9,
        _ => 0,
    }
}

/// The region that a number stands for.
pub fn region_from_code(code: u32) -> (region: Region)
    ensures
        region == region_of(code),
{
    match code {
        0 => Region::US,
        1 => Region::EU433,
        2 => Region::EU868,
        3 => Region::CN,
        4 => Region::JP,
        5 => Region::ANZ,
        6 => Region::KR,
        7 => Region::TW,
        8 => Region::RU,
        9 => Region::IN,
        _ => Region::US,
    }
}

/// The number that stands for a region.
pub fn region_to_code(region: &Region) -> (code: u32)
    ensures
        code == code_of_region(*region),
{
    match region {
        Region::US => 0,
        Region::EU433 => 1,
        Region::EU868 => 2,
        Region::CN => 3,
        Region::JP => 4,
        Region::ANZ => 5,
        Region::KR => 6,
        Region::TW => 7,
        Region::RU => 8,
        Region::IN => 9,
        _ => 0,
    }
}

/// The preset that a number stands for: the presets are numbered from 0
/// in the order from short-fast to very-long-slow, and any other number
/// stands for medium-slow.
pub open spec fn preset_of(code: u32) -> RadioPreset {
    if code == 0 {
        RadioPreset::ShortFast
    } else if code == 1 {
        RadioPreset::ShortSlow
    } else if code == 2 {
        RadioPreset::MediumFast
    } else if code == 4 {
        RadioPreset::LongFast
    } else if code == 5 {
        RadioPreset::LongSlow
    } else if code == 6 {
        RadioPreset::VeryLongSlow
    } else {
        RadioPreset::MediumSlow
    }
}

/// The number that stands for a preset; no preset goes under the number
/// of medium-slow.
pub open spec fn code_of_preset(preset: Option<RadioPreset>) -> u32 {
    match preset {
        Some(RadioPreset::ShortFast) => 0,
        Some(RadioPreset::ShortSlow) => 1,
        Some(RadioPreset::MediumFast) => 2,
        Some(RadioPreset::MediumSlow) => 3,
        Some(RadioPreset::LongFast) => 4,
        Some(RadioPreset::LongSlow) => 5,
        Some(RadioPreset::VeryLongSlow) => 6,
        None => 3,
    }
}

/// The preset that a number stands for.
pub fn preset_from_code(code: u32) -> (preset: RadioPreset)
    ensures
        preset == preset_of(code),
{
    match code {
        0 => RadioPreset::ShortFast,
        1 => RadioPreset::ShortSlow,
        2 => RadioPreset::MediumFast,
        3 => RadioPreset::MediumSlow,
        4 => RadioPreset::LongFast,
        5 => RadioPreset::LongSlow,
        6 => RadioPreset::VeryLongSlow,
        _ => RadioPreset::MediumSlow,
    }
}

/// The number that stands for a preset.
pub fn preset_to_code(preset: &Option<RadioPreset>) -> (code: u32)
    ensures
        code == code_of_preset(*preset),
{
    match preset {
        Some(RadioPreset::ShortFast) => 0,
        Some(RadioPreset::ShortSlow) => 1,
        Some(RadioPreset::MediumFast) => 2,
        Some(RadioPreset::MediumSlow) => 3,
        Some(RadioPreset::LongFast) => 4,
        Some(RadioPreset::LongSlow) => 5,
        Some(RadioPreset::VeryLongSlow) => 6,
        None => 3,
    }
}

/// Every preset comes back from its number, and so does each of the
/// first ten regions.
pub proof fn lemma_codes_round_trip(preset: RadioPreset, code: u32)
    ensures
        preset_of(code_of_preset(Some(preset))) == preset,
        code <= 9 ==> code_of_region(region_of(code)) == code,
        code <= 6 ==> code_of_preset(Some(preset_of(code))) == code,
{
}

} // verus!
