//! The manager of one radio's settings: holds a configuration, checks it,
//! and says what to send to put it into effect.

use crate::clock::{now, Timestamp};
use crate::device::info::DeviceError;
use crate::protocol::message::{MeshMessage, MeshMessageView, MessageType};
use crate::radio::config::{
    default_config, first_fault, preset_applied, RadioConfig, RadioConfigError, RadioPreset,
    Region,
};
use crate::random::random_u32;
use crate::text::owned;
use vstd::prelude::*;

verus! {

/// A use of the radio and the configuration recommended for it.
#[derive(Debug, PartialEq, Eq)]
pub struct Recommendation {
    pub label: String,
    pub config: RadioConfig,
}

/// The recommendations, as labels and presets: from short range in a city
/// to the longest range far from anything.
pub open spec fn recommended() -> Seq<(Seq<char>, RadioPreset)> {
    seq![
        ("City/Urban - Short Range"@, RadioPreset::ShortFast),
        ("Suburban - Medium Range"@, RadioPreset::MediumSlow),
        ("Rural - Long Range"@, RadioPreset::LongSlow),
        ("Remote - Maximum Range"@, RadioPreset::VeryLongSlow),
    ]
}

/// The presets that a region offers: all of them, in every region.
pub open spec fn region_presets() -> Seq<RadioPreset> {
    seq![
        RadioPreset::ShortFast,
        RadioPreset::ShortSlow,
        RadioPreset::MediumFast,
        RadioPreset::MediumSlow,
        RadioPreset::LongFast,
        RadioPreset::LongSlow,
        RadioPreset::VeryLongSlow,
    ]
}

/// The message that announces a configuration update, sent at `now`
/// under the given packet id.
pub open spec fn update_message(now: Timestamp, packet_id: u32) -> MeshMessageView {
    MeshMessageView {
        from: "config"@,
        to: "self"@,
        text: "Radio configuration update"@,
        timestamp: now,
        want_ack: Some(true),
        packet_id: Some(packet_id),
        hop_limit: Some(1),
        channel: Some(0),
        message_type: MessageType::Admin,
    }
}

/// Holds the settings of one radio.
pub struct RadioManager {
    config: RadioConfig,
    has_device: bool,
}

impl RadioManager {
    /// The configuration held.
    pub closed spec fn config(&self) -> RadioConfig {
        self.config
    }

    /// Whether a device is attached to which a configuration can be sent.
    pub closed spec fn attached(&self) -> bool {
        self.has_device
    }

    /// A manager that holds the default configuration, with no device attached.
    pub fn new() -> (manager: RadioManager)
        ensures
            manager.config() == default_config(),
            !manager.attached(),
    {
        RadioManager { config: RadioConfig::default(), has_device: false }
    }

    /// The same manager, with a device attached.
    pub fn with_device(self) -> (manager: RadioManager)
        ensures
            manager.config() == self.config(),
            manager.attached(),
    {
        RadioManager { config: self.config, has_device: true }
    }

    /// Replaces the configuration held, whole.
    pub fn set_config(&mut self, config: RadioConfig)
        ensures
            final(self).config() == config,
            final(self).attached() == old(self).attached(),
    {
        self.config = config;
    }

    /// The configuration held.
    pub fn get_config(&self) -> (config: &RadioConfig)
        ensures
            *config == self.config(),
    {
        &self.config
    }

    /// The message to send through the attached device to put the
    /// configuration into effect, at `now` and under the given packet id.
    /// Fails with "No device connected" where no device is attached.
    pub fn apply_configuration_with(&self, now: Timestamp, packet_id: u32) -> (message: Result<
        MeshMessage,
        DeviceError,
    >)
        ensures
            self.attached() ==> (message matches Ok(m) && m@ == update_message(now, packet_id)),
            !self.attached() ==> (message matches Err(e) && e.is_connection_failure(
                "No device connected"@,
            )),
    {
        if !self.has_device {
            return Err(DeviceError::ConnectionFailed { message: owned("No device connected") });
        }
        Ok(
            MeshMessage {
                from: owned("config"),
                to: owned("self"),
                text: owned("Radio configuration update"),
                timestamp: now,
                want_ack: Some(true),
                packet_id: Some(packet_id),
                hop_limit: Some(1),
                channel: Some(0),
                message_type: MessageType::Admin,
            },
        )
    }

    /// The message to send through the attached device to put the
    /// configuration into effect, stamped with the current time, under a
    /// random packet id. Fails with "No device connected" where no device
    /// is attached.
    pub fn apply_configuration(&self) -> (message: Result<MeshMessage, DeviceError>)
        ensures
            self.attached() ==> (message matches Ok(m) && m.packet_id is Some && m@
                == update_message(m.timestamp, m.packet_id->0)),
            !self.attached() ==> (message matches Err(e) && e.is_connection_failure(
                "No device connected"@,
            )),
    {
        self.apply_configuration_with(now(), random_u32())
    }

    /// The configurations recommended for common uses: the default with
    /// the preset that suits the use.
    pub fn get_recommendations() -> (list: Vec<Recommendation>)
        ensures
            list@.len() == recommended().len(),
            forall|i: int|
                0 <= i < list@.len() ==> list@[i].label@ == recommended()[i].0 && list@[i].config
                    == preset_applied(default_config(), recommended()[i].1),
    {
        let mut list: Vec<Recommendation> = Vec::new();
        list.push(
            Recommendation {
                label: owned("City/Urban - Short Range"),
                config: RadioConfig::default().with_preset(RadioPreset::ShortFast),
            },
        );
        list.push(
            Recommendation {
                label: owned("Suburban - Medium Range"),
                config: RadioConfig::default().with_preset(RadioPreset::MediumSlow),
            },
        );
        list.push(
            Recommendation {
                label: owned("Rural - Long Range"),
                config: RadioConfig::default().with_preset(RadioPreset::LongSlow),
            },
        );
        list.push(
            Recommendation {
                label: owned("Remote - Maximum Range"),
                config: RadioConfig::default().with_preset(RadioPreset::VeryLongSlow),
            },
        );
        list
    }

    /// Checks a configuration for a device. Nothing is stored. A
    /// configuration with a fault is refused as an invalid configuration
    /// whose message names the first fault; `rendered` holds the texts
    /// that the message of a frequency fault needs (see
    /// `RadioConfigError::message`).
    pub fn set_device_config(&self, device_id: &str, config: RadioConfig, rendered: &Vec<String>) -> (result:
        Result<(), DeviceError>)
        ensures
            match first_fault(config) {
                Some(fault) => result matches Err(DeviceError::InvalidConfiguration { message })
                    && message@ == fault.spec_message(rendered@),
                None => result is Ok,
            },
    {
        match config.validate() {
            Ok(_) => Ok(()),
            Err(fault) => Err(
                DeviceError::InvalidConfiguration { message: fault.message(rendered) },
            ),
        }
    }

    /// The configuration of a device: the one held, for any device with a
    /// name; none for the empty name. The call never fails.
    pub fn get_device_config(&self, device_id: &str) -> (config: Result<
        Option<RadioConfig>,
        DeviceError,
    >)
        ensures
            config matches Ok(found) && found == if device_id@.len() > 0 {
                Some(self.config())
            } else {
                None
            },
    {
        if !device_id.is_empty() {
            Ok(Some(self.config))
        } else {
            Ok(None)
        }
    }

    /// The presets that a region offers: all of them, in every region.
    pub fn get_region_presets(region: &Region) -> (presets: Vec<RadioPreset>)
        ensures
            presets@ == region_presets(),
    {
        let mut presets: Vec<RadioPreset> = Vec::new();
        presets.push(RadioPreset::ShortFast);
        presets.push(RadioPreset::ShortSlow);
        presets.push(RadioPreset::MediumFast);
        presets.push(RadioPreset::MediumSlow);
        presets.push(RadioPreset::LongFast);
        presets.push(RadioPreset::LongSlow);
        presets.push(RadioPreset::VeryLongSlow);
        presets
    }

    /// Checks the configuration held against the rules of its region and
    /// the limits of the modem, and reports the first thing that is wrong.
    pub fn validate_config(&self) -> (result: Result<(), RadioConfigError>)
        ensures
            match first_fault(self.config()) {
                Some(fault) => result == Err::<(), RadioConfigError>(fault),
                None => result is Ok,
            },
    {
        self.config.validate()
    }
}

impl Default for RadioManager {
    fn default() -> (manager: RadioManager)
        ensures
            manager.config() == default_config(),
            !manager.attached(),
    {
        RadioManager::new()
    }
}

} // verus!
