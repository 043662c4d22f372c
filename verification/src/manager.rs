//! The composition root: the table of sessions, one per connected device,
//! each under an id that is made when the device is connected.

use crate::device::discovery::{describes, likely_devices, likely_ports, PortDescription};
use crate::device::info::{DeviceError, DeviceInfo, DeviceType};
use crate::device::serial::{is_outgoing_text, SerialDevice, SerialModel, standard_baud_rates};
use crate::protocol::message::{MeshMessage, NodeInfo, ProtocolError};
use crate::protocol::packet::MeshPacket;
use crate::random::{random_u32, random_uuid};
use crate::clock::{now, Timestamp};
use crate::table::{lemma_position_is, position_of, NamedTable};
use crate::text::owned;
use vstd::prelude::*;
use vstd::string::StringExecFns;

verus! {

/// What can go wrong in the library as a whole.
#[derive(Clone, Debug, PartialEq, Eq)]
pub enum LoraCommsError {
    Device(DeviceError),
    Protocol(ProtocolError),
    Io(String),
    Serialization(String),
    Connection { message: String },
    Timeout,
}

impl LoraCommsError {
    /// The error in words.
    pub open spec fn spec_message(&self) -> Seq<char> {
        match self {
            LoraCommsError::Device(e) => "Device error: "@ + e.spec_message(),
            LoraCommsError::Protocol(e) => "Protocol error: "@ + e.spec_message(),
            LoraCommsError::Io(detail) => "IO error: "@ + detail@,
            LoraCommsError::Serialization(detail) => "Serialization error: "@ + detail@,
            LoraCommsError::Connection { message } => "Connection error: "@ + message@,
            LoraCommsError::Timeout => "Timeout error"@,
        }
    }

    /// The error in words.
    pub fn message(&self) -> (text: String)
        ensures
            text@ == self.spec_message(),
    {
        match self {
            LoraCommsError::Device(e) => owned("Device error: ").concat(e.message().as_str()),
            LoraCommsError::Protocol(e) => owned("Protocol error: ").concat(e.message().as_str()),
            LoraCommsError::Io(detail) => owned("IO error: ").concat(detail.as_str()),
            LoraCommsError::Serialization(detail) => owned("Serialization error: ").concat(
                detail.as_str(),
            ),
            LoraCommsError::Connection { message } => owned("Connection error: ").concat(
                message.as_str(),
            ),
            LoraCommsError::Timeout => owned("Timeout error"),
        }
    }

    /// Whether the error is a connection error with the given message.
    pub open spec fn is_connection(&self, text: Seq<char>) -> bool {
        self matches LoraCommsError::Connection { message } && message@ == text
    }

    /// The error of an operation on a session that the table does not hold.
    pub fn device_not_found() -> (e: LoraCommsError)
        ensures
            e.is_connection("Device not found"@),
    {
        LoraCommsError::Connection { message: owned("Device not found") }
    }
}

/// The message of the error for a transport that cannot be connected;
/// none for the serial transport, which can.
pub open spec fn unsupported_message(kind: DeviceType) -> Option<Seq<char>> {
    match kind {
        DeviceType::Serial => None,
        DeviceType::Bluetooth => Some("Bluetooth not yet implemented"@),
        DeviceType::Tcp => Some("TCP not yet implemented"@),
    }
}

/// The text message that the local user sends: to the destination given,
/// or to every node where none is given.
pub open spec fn is_local_message(
    message: MeshMessage,
    text: Seq<char>,
    destination: Option<&str>,
) -> bool {
    &&& message.from@ == "local"@
    &&& message.to@ == match destination {
        Some(to) => to@,
        None => "broadcast"@,
    }
    &&& message.text@ == text
    &&& message.want_ack == Some(false)
}

/// The sessions of one process.
pub struct LoraCommsManager {
    devices: NamedTable<SerialDevice>,
}

impl LoraCommsManager {
    /// The ids of the sessions, in the order in which they were made.
    pub closed spec fn ids(&self) -> Seq<Seq<char>> {
        self.devices.names()
    }

    /// The devices of the sessions, each at the position of its id.
    pub closed spec fn models(&self) -> Seq<SerialModel> {
        Seq::new(self.devices.values().len(), |i: int| self.devices.values()[i]@)
    }

    /// Every id has its device, and no id occurs twice.
    pub closed spec fn wf(&self) -> bool {
        self.devices.valid()
    }

    /// The device of a session, if the session is there.
    pub open spec fn device(&self, id: Seq<char>) -> Option<SerialModel> {
        match position_of(self.ids(), id) {
            Some(i) => Some(self.models()[i]),
            None => None,
        }
    }

    /// A manager without sessions.
    pub fn new() -> (manager: LoraCommsManager)
        ensures
            manager.wf(),
            manager.ids() == Seq::<Seq<char>>::empty(),
    {
        LoraCommsManager { devices: NamedTable::new() }
    }

    /// The number of sessions.
    pub fn session_count(&self) -> (n: usize)
        requires
            self.wf(),
        ensures
            n == self.ids().len(),
    {
        self.devices.len()
    }

    /// The devices among the listed serial ports that may be mesh radios,
    /// in the order listed. The call never fails.
    pub fn scan_devices(&self, ports: &Vec<PortDescription>) -> (devices: Result<
        Vec<DeviceInfo>,
        LoraCommsError,
    >)
        ensures
            devices matches Ok(list) && list@.len() == likely_ports(ports@).len() && forall|
                i: int,
            |
                0 <= i < list@.len() ==> describes(list@[i], likely_ports(ports@)[i]),
    {
        Ok(likely_devices(ports))
    }

    /// Makes a session under the given id for a device that a scan found.
    /// Only serial devices can be connected; for any other transport the
    /// call fails with a connection error that says so, and changes
    /// nothing. A session that stood under the id is replaced.
    pub fn connect_device_as(&mut self, device_info: &DeviceInfo, device_id: String) -> (id: Result<
        String,
        LoraCommsError,
    >)
        requires
            old(self).wf(),
        ensures
            final(self).wf(),
            match unsupported_message(device_info.device_type) {
                Some(text) => {
                    &&& id matches Err(e) && e.is_connection(text)
                    &&& final(self).ids() == old(self).ids()
                    &&& final(self).models() == old(self).models()
                },
                None => {
                    &&& id matches Ok(made) && made@ == device_id@
                    &&& final(self).device(device_id@) matches Some(d)
                    &&& d.path == device_info.path@
                    &&& !d.connected
                    &&& !d.listening
                    &&& d.buffer == Seq::<u8>::empty()
                    &&& d.candidates == standard_baud_rates()
                    &&& match position_of(old(self).ids(), device_id@) {
                        Some(i) => final(self).ids() == old(self).ids() && final(self).models()
                            == old(self).models().update(i, d),
                        None => final(self).ids() == old(self).ids().push(device_id@)
                            && final(self).models() == old(self).models().push(d),
                    }
                },
            },
    {
        match device_info.device_type {
            DeviceType::Serial => {
                let device = match SerialDevice::new(device_info.path.as_str()) {
                    Ok(device) => device,
                    Err(e) => {
                        return Err(LoraCommsError::Device(e));
                    },
                };
                let ghost at = position_of(self.ids(), device_id@);
                let id = device_id.clone();
                self.devices.insert(device_id, device);
                proof {
                    if at is None {
                        lemma_position_is(self.ids(), id@, old(self).ids().len() as int);
                    }
                }
                Ok(id)
            },
            DeviceType::Bluetooth => Err(
                LoraCommsError::Connection { message: owned("Bluetooth not yet implemented") },
            ),
            DeviceType::Tcp => Err(
                LoraCommsError::Connection { message: owned("TCP not yet implemented") },
            ),
        }
    }

    /// Makes a session under a fresh id for a device that a scan found,
    /// and returns the id. Only serial devices can be connected; for any
    /// other transport the call fails with a connection error that says
    /// so, and changes nothing.
    pub fn connect_device(&mut self, device_info: &DeviceInfo) -> (id: Result<String, LoraCommsError>)
        requires
            old(self).wf(),
        ensures
            final(self).wf(),
            match unsupported_message(device_info.device_type) {
                Some(text) => {
                    &&& id matches Err(e) && e.is_connection(text)
                    &&& final(self).ids() == old(self).ids()
                    &&& final(self).models() == old(self).models()
                },
                None => {
                    &&& id matches Ok(made)
                    &&& final(self).device(made@) matches Some(d)
                    &&& d.path == device_info.path@
                    &&& !d.connected
                    &&& !d.listening
                    &&& d.buffer == Seq::<u8>::empty()
                    &&& d.candidates == standard_baud_rates()
                    &&& match position_of(old(self).ids(), made@) {
                        Some(i) => final(self).ids() == old(self).ids() && final(self).models()
                            == old(self).models().update(i, d),
                        None => final(self).ids() == old(self).ids().push(made@)
                            && final(self).models() == old(self).models().push(d),
                    }
                },
            },
    {
        self.connect_device_as(device_info, random_uuid())
    }

    /// Ends a session: its device leaves the table. Fails with "Device not
    /// found" for an id that the table does not hold, and then changes
    /// nothing.
    pub fn disconnect_device(&mut self, device_id: &str) -> (result: Result<(), LoraCommsError>)
        requires
            old(self).wf(),
        ensures
            final(self).wf(),
            final(self).device(device_id@) is None,
            match position_of(old(self).ids(), device_id@) {
                Some(i) => result is Ok && final(self).ids() == old(self).ids().remove(i)
                    && final(self).models() == old(self).models().remove(i),
                None => (result matches Err(e) && e.is_connection("Device not found"@))
                    && final(self).ids() == old(self).ids() && final(self).models() == old(
                    self,
                ).models(),
            },
    {
        match self.devices.remove(device_id) {
            Some(_) => Ok(()),
            None => Err(LoraCommsError::device_not_found()),
        }
    }

    /// Where the session of an id stands in the table, if it is there.
    pub fn find_device(&self, device_id: &str) -> (at: Option<usize>)
        requires
            self.wf(),
        ensures
            match at {
                Some(i) => position_of(self.ids(), device_id@) == Some(i as int) && i
                    < self.ids().len(),
                None => self.device(device_id@) is None,
            },
    {
        self.devices.find(device_id)
    }

    /// The device at a position of the table.
    pub fn device_at(&self, at: usize) -> (device: &SerialDevice)
        requires
            self.wf(),
            at < self.ids().len(),
        ensures
            device@ == self.models()[at as int],
    {
        self.devices.get(at)
    }

    /// The device at a position of the table, to be driven through a
    /// connect, a disconnect or a read.
    pub fn device_at_mut(&mut self, at: usize) -> (device: &mut SerialDevice)
        requires
            old(self).wf(),
            at < old(self).ids().len(),
        ensures
            device@ == old(self).models()[at as int],
            final(self).wf(),
            final(self).ids() == old(self).ids(),
            final(self).models() == old(self).models().update(at as int, final(device)@),
    {
        self.devices.get_mut(at)
    }

    /// The packet that carries a text of the local user through the
    /// device of a session, with the given packet id and time. Fails
    /// with "Device not found" for an id that the table does not hold, and
    /// with the device's "Device not connected" where its port is not open.
    pub fn send_message_with(
        &self,
        device_id: &str,
        message: &str,
        destination: Option<&str>,
        sent_at: Timestamp,
        packet_id: u32,
    ) -> (packet: Result<MeshPacket, LoraCommsError>)
        requires
            self.wf(),
        ensures
            match self.device(device_id@) {
                None => packet matches Err(e) && e.is_connection("Device not found"@),
                Some(device) => if device.connected {
                    &&& packet matches Ok(p)
                    &&& p.id == packet_id
                    &&& p.rx_time == sent_at.low_seconds()
                    &&& exists|m: MeshMessage|
                        is_local_message(m, message@, destination) && is_outgoing_text(
                            p,
                            device.node,
                            m,
                        )
                } else {
                    packet matches Err(LoraCommsError::Device(e)) && e.is_connection_failure(
                        "Device not connected"@,
                    )
                },
            },
    {
        let at = match self.devices.find(device_id) {
            Some(at) => at,
            None => {
                return Err(LoraCommsError::device_not_found());
            },
        };
        let to = match destination {
            Some(to) => owned(to),
            None => owned("broadcast"),
        };
        let mesh_message = MeshMessage::text_at(
            owned("local"),
            to,
            owned(message),
            sent_at,
            packet_id,
        );
        match self.devices.get(at).send_message_with(
            &mesh_message,
            packet_id,
            sent_at.seconds_u32(),
        ) {
            Ok(packet) => Ok(packet),
            Err(e) => Err(LoraCommsError::Device(e)),
        }
    }

    /// The packet that carries a text of the local user through the
    /// device of a session, with a random packet id, stamped with the
    /// current time. Fails with "Device not found" for an id that the
    /// table does not hold, and with the device's "Device not connected"
    /// where its port is not open.
    pub fn send_message(&self, device_id: &str, message: &str, destination: Option<&str>) -> (packet:
        Result<MeshPacket, LoraCommsError>)
        requires
            self.wf(),
        ensures
            match self.device(device_id@) {
                None => packet matches Err(e) && e.is_connection("Device not found"@),
                Some(device) => if device.connected {
                    &&& packet matches Ok(p)
                    &&& exists|m: MeshMessage|
                        is_local_message(m, message@, destination) && is_outgoing_text(
                            p,
                            device.node,
                            m,
                        )
                } else {
                    packet matches Err(LoraCommsError::Device(e)) && e.is_connection_failure(
                        "Device not connected"@,
                    )
                },
            },
    {
        self.send_message_with(device_id, message, destination, now(), random_u32())
    }

    /// The nodes that the device of a session knows. Fails with "Device
    /// not found" for an id that the table does not hold.
    pub fn get_nodes(&self, device_id: &str) -> (nodes: Result<Vec<NodeInfo>, LoraCommsError>)
        requires
            self.wf(),
        ensures
            match self.device(device_id@) {
                None => nodes matches Err(e) && e.is_connection("Device not found"@),
                Some(_) => nodes matches Ok(list) && list@.len() == 1 && list@[0].id@
                    == "broadcast"@ && list@[0].name@ == "All Nodes"@ && list@[0].short_name@
                    == "ALL"@ && list@[0].is_online,
            },
    {
        match self.devices.find(device_id) {
            None => Err(LoraCommsError::device_not_found()),
            Some(at) => match self.devices.get(at).get_nodes() {
                Ok(nodes) => Ok(nodes),
                Err(e) => Err(LoraCommsError::Device(e)),
            },
        }
    }
}

impl Default for LoraCommsManager {
    fn default() -> (manager: LoraCommsManager)
        ensures
            manager.wf(),
            manager.ids() == Seq::<Seq<char>>::empty(),
    {
        LoraCommsManager::new()
    }
}

} // verus!
