use lora_comms::bridge::{
    device_type_from_code, device_type_to_code, preset_from_code, preset_to_code,
    region_from_code, region_to_code, rust_gateway_stats_to_c, CGatewayStats,
};
use lora_comms::clock::Timestamp;
use lora_comms::device::{DeviceError, DeviceType};
use lora_comms::mqtt::GatewayStats;
use lora_comms::protocol::admin_message::Variant;
use lora_comms::protocol::{Float32, MessageType};
use lora_comms::radio::{RadioConfig, RadioConfigError, RadioManager, RadioPreset, Region};

fn mhz(config: &RadioConfig) -> f32 {
    f32::from_bits(config.frequency.to_bits())
}

fn with_frequency(mut config: RadioConfig, value: f32) -> RadioConfig {
    config.frequency = Float32::from_bits(value.to_bits());
    config
}

fn all_regions() -> Vec<Region> {
    vec![
        Region::US,
        Region::EU433,
        Region::EU868,
        Region::CN,
        Region::JP,
        Region::ANZ,
        Region::KR,
        Region::TW,
        Region::RU,
        Region::IN,
        Region::NZ865,
        Region::TH,
        Region::UA433,
        Region::UA868,
        Region::MY433,
        Region::MY919,
        Region::SG923,
    ]
}

#[test]
fn test_radio_config_creation() {
    let config = RadioConfig::for_region(Region::EU868);
    assert_eq!(mhz(&config), 868.0);
    assert!(matches!(config.region, Region::EU868));
}

#[test]
fn test_preset_application() {
    let config = RadioConfig::default().with_preset(RadioPreset::LongSlow);
    assert_eq!(config.spreading_factor, 12);
    assert_eq!(config.bandwidth, 125000);
}

#[test]
fn test_radio_manager_creation() {
    let manager = RadioManager::new();
    assert_eq!(mhz(manager.get_config()), 915.0);
}

#[test]
fn test_config_validation() {
    let mut manager = RadioManager::new();

    // Valid configuration
    assert!(manager.validate_config().is_ok());

    // Invalid spreading factor
    let mut config = *manager.get_config();
    config.spreading_factor = 15;
    manager.set_config(config);
    assert!(manager.validate_config().is_err());
}

#[test]
fn default_config_is_medium_slow_in_the_us() {
    let config = RadioConfig::default();
    assert_eq!(mhz(&config), 915.0);
    assert_eq!(config.bandwidth, 125000);
    assert_eq!(config.spreading_factor, 10);
    assert_eq!(config.coding_rate, 8);
    assert_eq!(config.tx_power, 17);
    assert_eq!(config.region, Region::US);
    assert_eq!(config.preset, Some(RadioPreset::MediumSlow));
}

#[test]
fn region_frequencies() {
    let expected = [
        (Region::US, 915.0f32),
        (Region::ANZ, 915.0),
        (Region::EU433, 433.175),
        (Region::UA433, 433.175),
        (Region::MY433, 433.175),
        (Region::EU868, 868.0),
        (Region::RU, 868.0),
        (Region::IN, 868.0),
        (Region::NZ865, 868.0),
        (Region::UA868, 868.0),
        (Region::CN, 490.0),
        (Region::JP, 923.0),
        (Region::KR, 923.0),
        (Region::TW, 923.0),
        (Region::TH, 923.0),
        (Region::MY919, 919.0),
        (Region::SG923, 923.0),
    ];
    for (region, frequency) in expected {
        let config = RadioConfig::for_region(region);
        assert_eq!(mhz(&config), frequency, "{:?}", region);
        assert_eq!(config.region, region);
        assert_eq!(config.spreading_factor, 10);
    }
    let custom = RadioConfig::for_region(Region::Custom(Float32::from_bits(2400.5f32.to_bits())));
    assert_eq!(mhz(&custom), 2400.5);
}

#[test]
fn allowed_ranges_are_the_documented_ones() {
    let expected = [
        (Region::US, 902.0f32, 928.0f32),
        (Region::EU433, 433.05, 434.79),
        (Region::EU868, 863.0, 870.0),
        (Region::CN, 470.0, 510.0),
        (Region::JP, 920.0, 925.0),
        (Region::ANZ, 915.0, 928.0),
        (Region::KR, 920.0, 925.0),
        (Region::TW, 920.0, 925.0),
        (Region::RU, 868.0, 870.0),
        (Region::IN, 865.0, 867.0),
        (Region::NZ865, 864.0, 868.0),
        (Region::TH, 920.0, 925.0),
        (Region::UA433, 433.05, 434.79),
        (Region::UA868, 868.0, 870.0),
        (Region::MY433, 433.05, 434.79),
        (Region::MY919, 919.0, 924.0),
        (Region::SG923, 917.0, 925.0),
    ];
    for (region, low, high) in expected {
        let (l, h) = region.allowed_frequencies().unwrap();
        assert_eq!(f32::from_bits(l.bits), low, "{:?}", region);
        assert_eq!(f32::from_bits(h.bits), high, "{:?}", region);
    }
    assert_eq!(Region::Custom(Float32::from_bits(0)).allowed_frequencies(), None);
}

#[test]
fn presets_set_the_modem() {
    let expected = [
        (RadioPreset::ShortFast, 7, 250000, 5),
        (RadioPreset::ShortSlow, 8, 125000, 8),
        (RadioPreset::MediumFast, 9, 125000, 5),
        (RadioPreset::MediumSlow, 10, 125000, 8),
        (RadioPreset::LongFast, 11, 125000, 5),
        (RadioPreset::LongSlow, 12, 125000, 8),
        (RadioPreset::VeryLongSlow, 12, 62500, 8),
    ];
    for (preset, sf, bw, cr) in expected {
        let config = RadioConfig::for_region(Region::EU868).with_preset(preset);
        assert_eq!((config.spreading_factor, config.bandwidth, config.coding_rate), (sf, bw, cr));
        assert_eq!(config.preset, Some(preset));
        assert_eq!(config.region, Region::EU868);
        assert_eq!(mhz(&config), 868.0);
        assert_eq!(config.tx_power, 17);
    }
}

#[test]
fn region_defaults_are_valid_but_for_india() {
    for region in all_regions() {
        let config = RadioConfig::for_region(region);
        if region == Region::IN {
            // The region starts at 868 MHz, above its own range of 865 to 867 MHz.
            let (low, high) = region.allowed_frequencies().unwrap();
            assert_eq!(
                config.validate(),
                Err(RadioConfigError::Frequency { frequency: config.frequency, low, high, region })
            );
        } else {
            assert_eq!(config.validate(), Ok(()), "{:?}", region);
        }
    }
}

#[test]
fn frequency_is_checked_as_a_number() {
    let base = RadioConfig::for_region(Region::EU433);
    let (low, high) = Region::EU433.allowed_frequencies().unwrap();
    let cases = [
        433.05f32,
        433.04,
        433.049,
        434.79,
        434.80,
        434.0,
        0.0,
        -0.0,
        -434.0,
        1e30,
        f32::INFINITY,
        f32::NEG_INFINITY,
        f32::NAN,
        f32::MIN_POSITIVE,
    ];
    for value in cases {
        let config = with_frequency(base, value);
        let outside = value < 433.05f32 || value > 434.79f32;
        let expected = if outside {
            Err(RadioConfigError::Frequency {
                frequency: config.frequency,
                low,
                high,
                region: Region::EU433,
            })
        } else {
            Ok(())
        };
        assert_eq!(config.validate(), expected, "frequency {}", value);
    }
}

#[test]
fn faults_are_reported_in_order() {
    let good = RadioConfig::default();
    let mut c = good;
    c.spreading_factor = 6;
    c.bandwidth = 1;
    assert_eq!(c.validate(), Err(RadioConfigError::SpreadingFactor(6)));
    c.spreading_factor = 13;
    assert_eq!(c.validate(), Err(RadioConfigError::SpreadingFactor(13)));
    c.spreading_factor = 7;
    c.coding_rate = 4;
    assert_eq!(c.validate(), Err(RadioConfigError::Bandwidth(1)));
    c.bandwidth = 500000;
    c.tx_power = 31;
    assert_eq!(c.validate(), Err(RadioConfigError::CodingRate(4)));
    c.coding_rate = 9;
    assert_eq!(c.validate(), Err(RadioConfigError::CodingRate(9)));
    c.coding_rate = 5;
    assert_eq!(c.validate(), Err(RadioConfigError::TxPower(31)));
    c.tx_power = 30;
    assert_eq!(c.validate(), Ok(()));
    let off = with_frequency(c, 800.0);
    assert!(matches!(off.validate(), Err(RadioConfigError::Frequency { .. })));
}

#[test]
fn every_offered_bandwidth_is_valid() {
    for bandwidth in [7800, 10400, 15600, 20800, 31250, 41700, 62500, 125000, 250000, 500000] {
        let mut c = RadioConfig::default();
        c.bandwidth = bandwidth;
        assert_eq!(c.validate(), Ok(()));
        c.bandwidth = bandwidth + 1;
        assert_eq!(c.validate(), Err(RadioConfigError::Bandwidth(bandwidth + 1)));
    }
}

#[test]
fn custom_region_is_not_checked() {
    let mut c = RadioConfig::for_region(Region::Custom(Float32::from_bits(1.0f32.to_bits())));
    c.spreading_factor = 99;
    c.bandwidth = 3;
    c.tx_power = 200;
    assert_eq!(c.validate(), Ok(()));
}

#[test]
fn fault_messages() {
    let none: Vec<String> = Vec::new();
    assert_eq!(
        RadioConfigError::SpreadingFactor(15).message(&none),
        "Spreading factor 15 is invalid. Must be between 7 and 12"
    );
    assert_eq!(
        RadioConfigError::Bandwidth(1).message(&none),
        "Bandwidth 1 is invalid. Must be one of: [7800, 10400, 15600, 20800, 31250, 41700, 62500, 125000, 250000, 500000]"
    );
    assert_eq!(
        RadioConfigError::CodingRate(9).message(&none),
        "Coding rate 9 is invalid. Must be between 5 and 8"
    );
    assert_eq!(
        RadioConfigError::TxPower(31).message(&none),
        "TX power 31 dBm is too high. Maximum is 30 dBm"
    );
    let (low, high) = Region::EU868.allowed_frequencies().unwrap();
    let fault = RadioConfigError::Frequency {
        frequency: Float32::from_bits(900.0f32.to_bits()),
        low,
        high,
        region: Region::EU868,
    };
    let rendered = vec!["900.0".to_string(), "863.0".to_string(), "870.0".to_string()];
    assert_eq!(
        fault.message(&rendered),
        "Frequency 900.0 MHz is outside allowed range 863.0-870.0 MHz for region EU868"
    );
}

#[test]
fn admin_message_carries_the_settings() {
    let config = RadioConfig::for_region(Region::EU868).with_preset(RadioPreset::ShortFast);
    let message = config.to_admin_message();
    match message.variant {
        Some(Variant::SetRadio(radio)) => {
            assert!(!radio.use_preset);
            assert_eq!(radio.modem_preset, 6);
            assert_eq!(radio.bandwidth, 250000);
            assert_eq!(radio.spread_factor, 7);
            assert_eq!(radio.coding_rate, 5);
            assert_eq!(radio.frequency_offset, Float32::from_bits(0));
            assert_eq!(radio.region, 3);
            assert_eq!(radio.hop_limit, 3);
            assert!(radio.tx_enabled);
            assert_eq!(radio.tx_power, 17);
            assert!(!radio.sx126x_rx_boosted_gain);
            assert!(!radio.override_duty_cycle);
        }
        other => panic!("unexpected variant {:?}", other),
    }
    let mut bare = RadioConfig::for_region(Region::Custom(Float32::from_bits(0)));
    bare.preset = None;
    match bare.to_admin_message().variant {
        Some(Variant::SetRadio(radio)) => {
            assert_eq!(radio.modem_preset, 0);
            assert_eq!(radio.region, 0);
        }
        other => panic!("unexpected variant {:?}", other),
    }
}

#[test]
fn duty_cycle_is_one_percent_in_europe() {
    for region in all_regions() {
        let percent = f32::from_bits(RadioConfig::for_region(region).duty_cycle_percent().bits);
        let limited =
            matches!(region, Region::EU433 | Region::EU868 | Region::UA433 | Region::UA868);
        assert_eq!(percent, if limited { 1.0 } else { 100.0 }, "{:?}", region);
    }
}

#[test]
fn region_names() {
    assert_eq!(Region::US.name(), "US");
    assert_eq!(Region::EU433.name(), "EU433");
    assert_eq!(Region::NZ865.name(), "NZ865");
    assert_eq!(Region::SG923.name(), "SG923");
    for region in all_regions() {
        assert_eq!(region.name(), format!("{:?}", region));
    }
}

#[test]
fn manager_holds_and_replaces_its_config() {
    let mut manager = RadioManager::default();
    assert_eq!(*manager.get_config(), RadioConfig::default());
    let other = RadioConfig::for_region(Region::JP).with_preset(RadioPreset::LongFast);
    manager.set_config(other);
    assert_eq!(*manager.get_config(), other);
    assert_eq!(manager.get_device_config("dev1"), Ok(Some(other)));
    assert_eq!(manager.get_device_config(""), Ok(None));
}

#[test]
fn applying_needs_a_device() {
    let manager = RadioManager::new();
    assert_eq!(
        manager.apply_configuration(),
        Err(DeviceError::ConnectionFailed { message: "No device connected".to_string() })
    );
    let manager = manager.with_device();
    let at = Timestamp::new(50, 0);
    let message = manager.apply_configuration_with(at, 9).unwrap();
    assert_eq!(message.from, "config");
    assert_eq!(message.to, "self");
    assert_eq!(message.text, "Radio configuration update");
    assert_eq!(message.timestamp, at);
    assert_eq!(message.want_ack, Some(true));
    assert_eq!(message.packet_id, Some(9));
    assert_eq!(message.hop_limit, Some(1));
    assert_eq!(message.channel, Some(0));
    assert_eq!(message.message_type, MessageType::Admin);
    assert_eq!(manager.apply_configuration().unwrap().text, "Radio configuration update");
}

#[test]
fn recommendations_and_presets() {
    let list = RadioManager::get_recommendations();
    let labels: Vec<&str> = list.iter().map(|r| r.label.as_str()).collect();
    assert_eq!(
        labels,
        vec![
            "City/Urban - Short Range",
            "Suburban - Medium Range",
            "Rural - Long Range",
            "Remote - Maximum Range"
        ]
    );
    assert_eq!(list[0].config, RadioConfig::default().with_preset(RadioPreset::ShortFast));
    assert_eq!(list[1].config, RadioConfig::default().with_preset(RadioPreset::MediumSlow));
    assert_eq!(list[2].config, RadioConfig::default().with_preset(RadioPreset::LongSlow));
    assert_eq!(list[3].config, RadioConfig::default().with_preset(RadioPreset::VeryLongSlow));
    assert_eq!(
        RadioManager::get_region_presets(&Region::EU868),
        vec![
            RadioPreset::ShortFast,
            RadioPreset::ShortSlow,
            RadioPreset::MediumFast,
            RadioPreset::MediumSlow,
            RadioPreset::LongFast,
            RadioPreset::LongSlow,
            RadioPreset::VeryLongSlow
        ]
    );
}

#[test]
fn device_config_is_checked() {
    let manager = RadioManager::new();
    let none: Vec<String> = Vec::new();
    assert_eq!(manager.set_device_config("dev", RadioConfig::default(), &none), Ok(()));
    let mut bad = RadioConfig::default();
    bad.tx_power = 40;
    assert_eq!(
        manager.set_device_config("dev", bad, &none),
        Err(DeviceError::InvalidConfiguration {
            message: "TX power 40 dBm is too high. Maximum is 30 dBm".to_string()
        })
    );
}

#[test]
fn codes_cross_the_boundary() {
    assert_eq!(device_type_from_code(0), Some(DeviceType::Serial));
    assert_eq!(device_type_from_code(1), Some(DeviceType::Bluetooth));
    assert_eq!(device_type_from_code(2), Some(DeviceType::Tcp));
    assert_eq!(device_type_from_code(3), None);
    assert_eq!(device_type_to_code(DeviceType::Tcp), 2);
    let first_ten = [
        Region::US,
        Region::EU433,
        Region::EU868,
        Region::CN,
        Region::JP,
        Region::ANZ,
        Region::KR,
        Region::TW,
        Region::RU,
        Region::IN,
    ];
    for (code, region) in first_ten.iter().enumerate() {
        assert_eq!(region_from_code(code as u32), *region);
        assert_eq!(region_to_code(region), code as u32);
    }
    assert_eq!(region_from_code(10), Region::US);
    assert_eq!(region_to_code(&Region::SG923), 0);
    assert_eq!(region_to_code(&Region::Custom(Float32::from_bits(1))), 0);
    let presets = [
        RadioPreset::ShortFast,
        RadioPreset::ShortSlow,
        RadioPreset::MediumFast,
        RadioPreset::MediumSlow,
        RadioPreset::LongFast,
        RadioPreset::LongSlow,
        RadioPreset::VeryLongSlow,
    ];
    for (code, preset) in presets.iter().enumerate() {
        assert_eq!(preset_from_code(code as u32), *preset);
        assert_eq!(preset_to_code(&Some(*preset)), code as u32);
    }
    assert_eq!(preset_from_code(7), RadioPreset::MediumSlow);
    assert_eq!(preset_to_code(&None), 3);
}

#[test]
fn gateway_stats_cross_the_boundary() {
    let stats = GatewayStats {
        messages_received: 1,
        messages_published: 2,
        mqtt_connections: 3,
        mqtt_disconnections: 4,
        last_message_time: Some(Timestamp::new(1_700_000_000, 5)),
        uptime_seconds: 6,
        connected_nodes: 7,
    };
    assert_eq!(
        rust_gateway_stats_to_c(&stats),
        CGatewayStats {
            messages_received: 1,
            messages_published: 2,
            mqtt_connections: 3,
            mqtt_disconnections: 4,
            uptime_seconds: 6,
            connected_nodes: 7,
            last_message_time: 1_700_000_000,
        }
    );
    assert_eq!(rust_gateway_stats_to_c(&GatewayStats::default()).last_message_time, 0);
}
