//! The requests and commands that an administrative message can carry.

use crate::protocol::admin::{
    Channel, Config, GetCannedMessageModuleMessagesRequest, GetChannelRequest, GetConfigRequest,
    GetDeviceMetadataRequest, GetModuleConfigRequest, GetOwnerRequest, ModuleConfig, RadioConfig,
};
use crate::protocol::packet::{Position, User};
use vstd::prelude::*;

verus! {

/// One request or command to a device.
#[derive(Clone, Debug, PartialEq, Eq)]
pub enum Variant {
    GetChannel(GetChannelRequest),
    GetOwner(GetOwnerRequest),
    GetConfig(GetConfigRequest),
    GetModuleConfig(GetModuleConfigRequest),
    GetCannedMessageModuleMessages(GetCannedMessageModuleMessagesRequest),
    GetDeviceMetadata(GetDeviceMetadataRequest),
    SetOwner(User),
    SetChannel(Channel),
    SetConfig(Config),
    SetModuleConfig(ModuleConfig),
    SetCannedMessageModuleMessages(String),
    SetRingtone(String),
    RemoveByNodenum(u32),
    SetFavoriteNode(u32),
    RemoveFavoriteNode(u32),
    SetFixedPosition(Position),
    RemoveFixedPosition(bool),
    SetTime(u32),
    Shutdown(u32),
    Reboot(u32),
    RebootOta(u32),
    ExitSimulator(bool),
    LoadUrl(String),
    FactoryReset(u32),
    NodedbReset(u32),
    BeginEditSettings(bool),
    CommitEditSettings(bool),
    SetRadio(RadioConfig),
}

} // verus!
