//! The serial transport: which baud rate to try next, what a connected
//! device may do, and what the listening task does with each read. Opening
//! the port, reading and writing are the caller's part; every decision is
//! made here.

use crate::buffer::buffer_bytes;
use crate::clock::now;
use crate::device::info::DeviceError;
use crate::framing::{
    drain, drain_frames, encode_frame, frame_message, next_frame, payloads, scan_frame,
    FrameOutcome, FrameStep,
};
use crate::protocol::handler::{destination_node, destination_of, ProtocolHandler};
use crate::protocol::message::{MeshMessage, NodeInfo};
use crate::protocol::packet::{MeshPacket, MeshPacket_Priority, PayloadVariant};
use crate::protocol::admin::AdminMessage;
use crate::protocol::admin_message::Variant;
use crate::protocol::float::Float32;
use crate::radio::config::{device_settings, RadioConfig};
use crate::random::random_u32;
use crate::text::owned;
use bytes::BytesMut;
use vstd::prelude::*;
use vstd::string::StringExecFns;

verus! {

/// How long one attempt to open the port may take, in seconds.
pub const OPEN_TIMEOUT_SECS: u64 = 2;

/// How long the listening task waits after a read that brought nothing, in
/// milliseconds.
pub const IDLE_WAIT_MILLIS: u64 = 10;

/// The baud rates that are tried, in this order, unless others are given.
pub open spec fn standard_baud_rates() -> Seq<u32> {
    seq![115200, 921600, 57600, 38400, 19200]
}

/// The message of the error that ends a connect in which no rate opened
/// the port: it carries the cause of the last failure, if there was one.
pub open spec fn exhausted_message(last_error: Option<Seq<char>>) -> Seq<char> {
    match last_error {
        Some(cause) => "Failed to connect at any baud rate: Some("@ + cause + ")"@,
        None => "Failed to connect at any baud rate: None"@,
    }
}

/// What a serial device is, as far as its decisions go.
pub struct SerialModel {
    /// The path of the port.
    pub path: Seq<char>,
    /// Whether the port is open.
    pub connected: bool,
    /// Whether received packets are being forwarded.
    pub listening: bool,
    /// The bytes received and not yet consumed.
    pub buffer: Seq<u8>,
    /// The baud rates to try, in order.
    pub candidates: Seq<u32>,
    /// The position of the rate that is being tried, while a connect is under way.
    pub probing: Option<int>,
    /// The rate at which the port is open.
    pub baud_rate: Option<u32>,
    /// The rates that failed in the latest connect, in the order tried.
    pub failed: Seq<u32>,
    /// The cause of the latest failure in the latest connect.
    pub last_error: Option<Seq<char>>,
    /// The number of the local node.
    pub node: u32,
    /// The packet id under which configuration is sent.
    pub config_id: u32,
}

impl SerialModel {
    /// A rate that is being tried is one of the candidates.
    pub open spec fn valid(self) -> bool {
        self.probing matches Some(i) ==> 0 <= i < self.candidates.len()
    }

    /// The device as a disconnect leaves it.
    pub open spec fn disconnected(self) -> SerialModel {
        SerialModel {
            connected: false,
            listening: false,
            buffer: Seq::empty(),
            probing: None,
            baud_rate: None,
            ..self
        }
    }

    /// The device as the beginning of a connect leaves it.
    pub open spec fn connecting(self) -> SerialModel {
        SerialModel {
            probing: if self.candidates.len() > 0 {
                Some(0int)
            } else {
                None
            },
            failed: Seq::empty(),
            last_error: None,
            ..self
        }
    }

    /// The device after the rate that was being tried opened the port.
    pub open spec fn opened(self) -> SerialModel {
        SerialModel {
            connected: true,
            baud_rate: Some(self.candidates[self.probing->0]),
            probing: None,
            ..self
        }
    }

    /// The device after the rate that was being tried failed.
    pub open spec fn failed_once(self, cause: Seq<char>) -> SerialModel {
        let i = self.probing->0;
        SerialModel {
            probing: if i + 1 < self.candidates.len() {
                Some(i + 1)
            } else {
                None
            },
            failed: self.failed.push(self.candidates[i]),
            last_error: Some(cause),
            ..self
        }
    }

    /// What is to be done next in a connect.
    pub open spec fn next_action(self) -> ConnectStep {
        match self.probing {
            Some(i) => ConnectStep::Open(self.candidates[i]),
            None => if self.connected {
                ConnectStep::Connected
            } else {
                ConnectStep::Exhausted(exhausted_message(self.last_error))
            },
        }
    }
}

/// What is to be done next in a connect, in the model.
pub enum ConnectStep {
    /// Try to open the port at this rate.
    Open(u32),
    /// The port is open.
    Connected,
    /// No rate opened the port; this is the message of the error.
    Exhausted(Seq<char>),
}

/// What the caller is to do next in a connect.
#[derive(Debug, PartialEq, Eq)]
pub enum ConnectAction {
    /// Try to open the port at this rate, within the timeout, and report
    /// how it went.
    Open { baud_rate: u32, timeout_secs: u64 },
    /// The connect is over, with this result.
    Done(Result<(), DeviceError>),
}

impl View for ConnectAction {
    type V = ConnectStep;

    open spec fn view(&self) -> ConnectStep {
        match self {
            ConnectAction::Open { baud_rate, timeout_secs } => ConnectStep::Open(*baud_rate),
            ConnectAction::Done(Ok(_)) => ConnectStep::Connected,
            ConnectAction::Done(Err(DeviceError::ConnectionFailed { message })) => ConnectStep::Exhausted(
                message@,
            ),
            ConnectAction::Done(Err(_)) => ConnectStep::Exhausted(Seq::empty()),
        }
    }
}

impl ConnectAction {
    /// An attempt is granted the standard timeout, and a failure is a
    /// failed connection.
    pub open spec fn well_formed(&self) -> bool {
        match self {
            ConnectAction::Open { baud_rate, timeout_secs } => *timeout_secs == OPEN_TIMEOUT_SECS,
            ConnectAction::Done(Ok(_)) => true,
            ConnectAction::Done(Err(e)) => e is ConnectionFailed,
        }
    }
}

/// A mesh radio on a serial port.
pub struct SerialDevice {
    path: String,
    is_connected: bool,
    listening: bool,
    protocol_handler: ProtocolHandler,
    config_id: u32,
    my_node_num: u32,
    buffer: BytesMut,
    baud_rates: Vec<u32>,
    attempt: Option<usize>,
    baud_rate: Option<u32>,
    failed_attempts: Vec<u32>,
    last_error: Option<String>,
}

impl View for SerialDevice {
    type V = SerialModel;

    closed spec fn view(&self) -> SerialModel {
        SerialModel {
            path: self.path@,
            connected: self.is_connected,
            listening: self.listening,
            buffer: buffer_bytes(self.buffer),
            candidates: self.baud_rates@,
            probing: match self.attempt {
                Some(i) => Some(i as int),
                None => None,
            },
            baud_rate: self.baud_rate,
            failed: self.failed_attempts@,
            last_error: match self.last_error {
                Some(cause) => Some(cause@),
                None => None,
            },
            node: self.my_node_num,
            config_id: self.config_id,
        }
    }
}

/// The packet that carries a text message from node `from`: addressed to
/// the node that the message names, asking for an acknowledgement where
/// the message does.
pub open spec fn is_outgoing_text(packet: MeshPacket, from: u32, message: MeshMessage) -> bool {
    &&& packet.from == from
    &&& packet.to == destination_node(message.to@)
    &&& packet.payload matches Some(PayloadVariant::Text(t)) && t@ == message.text@
    &&& packet.hop_limit == 3
    &&& packet.want_ack == (message.want_ack == Some(true))
    &&& packet.priority == MeshPacket_Priority::DEFAULT
    &&& packet.rx_snr.bits == 0
    &&& packet.rx_rssi == 0
    &&& packet.channel == 0
}

impl SerialDevice {
    /// A device on the given port: not connected, with the standard baud
    /// rates to try, local node 0 and a random configuration id.
    /// The call never fails.
    pub fn new(path: &str) -> (device: Result<SerialDevice, DeviceError>)
        ensures
            device matches Ok(d) && d@ == (SerialModel {
                path: path@,
                connected: false,
                listening: false,
                buffer: Seq::empty(),
                candidates: standard_baud_rates(),
                probing: None,
                baud_rate: None,
                failed: Seq::empty(),
                last_error: None,
                node: 0,
                config_id: d@.config_id,
            }),
    {
        let mut baud_rates: Vec<u32> = Vec::new();
        baud_rates.push(115200);
        baud_rates.push(921600);
        baud_rates.push(57600);
        baud_rates.push(38400);
        baud_rates.push(19200);
        assert(baud_rates@ =~= standard_baud_rates());
        Ok(
            SerialDevice {
                path: owned(path),
                is_connected: false,
                listening: false,
                protocol_handler: ProtocolHandler::new(),
                config_id: random_u32(),
                my_node_num: 0,
                buffer: BytesMut::new(),
                baud_rates,
                attempt: None,
                baud_rate: None,
                failed_attempts: Vec::new(),
                last_error: None,
            },
        )
    }

    /// The same device with other baud rates to try. A connect that is
    /// under way is abandoned.
    pub fn with_baud_rates(self, baud_rates: Vec<u32>) -> (device: SerialDevice)
        ensures
            device@ == (SerialModel { candidates: baud_rates@, probing: None, ..self@ }),
    {
        let mut device = self;
        device.baud_rates = baud_rates;
        device.attempt = None;
        device
    }

    /// The same device with the given number for the local node.
    pub fn with_node_num(self, node: u32) -> (device: SerialDevice)
        ensures
            device@ == (SerialModel { node, ..self@ }),
    {
        let mut device = self;
        device.my_node_num = node;
        device
    }

    /// The path of the port.
    pub fn path(&self) -> (path: &String)
        ensures
            path@ == self@.path,
    {
        &self.path
    }

    /// Whether the port is open.
    pub fn is_connected(&self) -> (connected: bool)
        ensures
            connected == self@.connected,
    {
        self.is_connected
    }

    /// Whether received packets are being forwarded.
    pub fn is_listening(&self) -> (listening: bool)
        ensures
            listening == self@.listening,
    {
        self.listening
    }

    /// Whether a connect is under way and waits for the result of an attempt.
    pub fn is_probing(&self) -> (probing: bool)
        ensures
            probing == (self@.probing is Some),
    {
        self.attempt.is_some()
    }

    /// The rate at which the port is open.
    pub fn baud_rate(&self) -> (rate: Option<u32>)
        ensures
            rate == self@.baud_rate,
    {
        self.baud_rate
    }

    /// The rates that failed in the latest connect, in the order tried.
    pub fn failed_attempts(&self) -> (failed: &Vec<u32>)
        ensures
            failed@ == self@.failed,
    {
        &self.failed_attempts
    }

    /// What is to be done next in a connect.
    fn action(&self) -> (action: ConnectAction)
        requires
            self@.valid(),
        ensures
            action@ == self@.next_action(),
            action.well_formed(),
    {
        match self.attempt {
            Some(i) => ConnectAction::Open {
                baud_rate: self.baud_rates[i],
                timeout_secs: OPEN_TIMEOUT_SECS,
            },
            None => if self.is_connected {
                ConnectAction::Done(Ok(()))
            } else {
                let message = match &self.last_error {
                    Some(cause) => {
                        let mut m = owned("Failed to connect at any baud rate: Some(");
                        m.append(cause.as_str());
                        m.append(")");
                        m
                    },
                    None => owned("Failed to connect at any baud rate: None"),
                };
                ConnectAction::Done(Err(DeviceError::ConnectionFailed { message }))
            },
        }
    }

    /// Begins a connect: forgets the failures of the last one and says what
    /// to do first. With no baud rate to try, the connect is over at once.
    pub fn connect(&mut self) -> (action: ConnectAction)
        ensures
            final(self)@ == old(self)@.connecting(),
            final(self)@.valid(),
            action@ == final(self)@.next_action(),
            action.well_formed(),
    {
        self.failed_attempts = Vec::new();
        self.last_error = None;
        self.attempt = if self.baud_rates.len() > 0 {
            Some(0)
        } else {
            None
        };
        self.action()
    }

    /// Takes the result of the attempt that was asked for, and says what
    /// to do next. The first rate that opens the port wins; a rate that
    /// fails is recorded with its cause, and the next one is tried; when
    /// none is left, the connect ends with one error that carries the
    /// cause of the last failure.
    pub fn on_open_result(&mut self, opened: Result<(), String>) -> (action: ConnectAction)
        requires
            old(self)@.valid(),
            old(self)@.probing is Some,
        ensures
            final(self)@ == match opened {
                Ok(_) => old(self)@.opened(),
                Err(cause) => old(self)@.failed_once(cause@),
            },
            final(self)@.valid(),
            action@ == final(self)@.next_action(),
            action.well_formed(),
    {
        let rates = self.baud_rates.len();
        let i = match self.attempt {
            Some(i) => i,
            None => 0,
        };
        match opened {
            Ok(_) => {
                self.is_connected = true;
                self.baud_rate = Some(self.baud_rates[i]);
                self.attempt = None;
            },
            Err(cause) => {
                self.failed_attempts.push(self.baud_rates[i]);
                self.last_error = Some(cause);
                self.attempt = if i + 1 < rates {
                    Some(i + 1)
                } else {
                    None
                };
            },
        }
        self.action()
    }

    /// Closes the connection: the port is given up, the receive buffer is
    /// emptied, forwarding stops and a connect that is under way is
    /// abandoned. The call never fails, and a second call changes nothing.
    pub fn disconnect(&mut self) -> (result: Result<(), DeviceError>)
        ensures
            result is Ok,
            final(self)@ == old(self)@.disconnected(),
            !final(self)@.connected,
    {
        self.is_connected = false;
        self.listening = false;
        self.baud_rate = None;
        self.attempt = None;
        self.buffer.clear();
        Ok(())
    }

    /// Begins to forward received packets. Fails with "Device not
    /// connected" where the port is not open.
    pub fn start_listening(&mut self) -> (result: Result<(), DeviceError>)
        ensures
            old(self)@.connected ==> result is Ok && final(self)@ == (SerialModel {
                listening: true,
                ..old(self)@
            }),
            !old(self)@.connected ==> final(self)@ == old(self)@ && (result matches Err(e)
                && e.is_connection_failure("Device not connected"@)),
    {
        if self.is_connected {
            self.listening = true;
            Ok(())
        } else {
            Err(DeviceError::not_connected())
        }
    }

    /// Stops forwarding received packets. The call never fails.
    pub fn stop_listening(&mut self) -> (result: Result<(), DeviceError>)
        ensures
            result is Ok,
            final(self)@ == (SerialModel { listening: false, ..old(self)@ }),
    {
        self.listening = false;
        Ok(())
    }

    /// The nodes that the device knows: the one entry that stands for all
    /// nodes.
    pub fn get_nodes(&self) -> (nodes: Result<Vec<NodeInfo>, DeviceError>)
        ensures
            nodes matches Ok(list) && list@.len() == 1 && list@[0].id@ == "broadcast"@
                && list@[0].name@ == "All Nodes"@ && list@[0].short_name@ == "ALL"@
                && list@[0].is_online,
    {
        let mut list: Vec<NodeInfo> = Vec::new();
        list.push(NodeInfo::broadcast_node());
        Ok(list)
    }

    /// One line about the device.
    pub fn get_device_info(&self) -> (info: Result<String, DeviceError>)
        ensures
            info matches Ok(line) && line@ == "Serial device connected on "@ + self@.path,
    {
        Ok(owned("Serial device connected on ").concat(self.path.as_str()))
    }

    /// The packet that carries a text message from the local node, with
    /// the given id and time. Fails with "Device not connected" where the
    /// port is not open.
    pub fn send_message_with(&self, message: &MeshMessage, id: u32, rx_time: u32) -> (packet:
        Result<MeshPacket, DeviceError>)
        ensures
            self@.connected ==> (packet matches Ok(p) && is_outgoing_text(p, self@.node, *message)
                && p.id == id && p.rx_time == rx_time),
            !self@.connected ==> (packet matches Err(e) && e.is_connection_failure(
                "Device not connected"@,
            )),
    {
        if !self.is_connected {
            return Err(DeviceError::not_connected());
        }
        Ok(
            MeshPacket {
                from: self.my_node_num,
                to: destination_of(&message.to),
                id,
                payload: Some(PayloadVariant::Text(message.text.clone())),
                hop_limit: 3,
                want_ack: match message.want_ack {
                    Some(wanted) => wanted,
                    None => false,
                },
                priority: MeshPacket_Priority::DEFAULT,
                rx_time,
                rx_snr: Float32::zero(),
                rx_rssi: 0,
                channel: 0,
            },
        )
    }

    /// The packet that carries a text message from the local node, with a
    /// random id, stamped with the current time. Fails with "Device not
    /// connected" where the port is not open.
    pub fn send_message(&self, message: &MeshMessage) -> (packet: Result<
        MeshPacket,
        DeviceError,
    >)
        ensures
            self@.connected ==> (packet matches Ok(p) && is_outgoing_text(p, self@.node, *message)),
            !self@.connected ==> (packet matches Err(e) && e.is_connection_failure(
                "Device not connected"@,
            )),
    {
        self.send_message_with(message, random_u32(), now().seconds_u32())
    }

    /// The packet that tells the device a radio configuration, with the
    /// given time: from the local node to itself, under the device's
    /// configuration id, reliable and acknowledged. Fails with "Device not
    /// connected" where the port is not open.
    pub fn configure_radio_at(&self, config: &RadioConfig, rx_time: u32) -> (packet: Result<
        MeshPacket,
        DeviceError,
    >)
        ensures
            self@.connected ==> (packet matches Ok(p) && p == (MeshPacket {
                from: self@.node,
                to: self@.node,
                id: self@.config_id,
                payload: Some(
                    PayloadVariant::Admin(
                        AdminMessage { variant: Some(Variant::SetRadio(device_settings(*config))) },
                    ),
                ),
                hop_limit: 3,
                want_ack: true,
                priority: MeshPacket_Priority::RELIABLE,
                rx_time,
                rx_snr: Float32 { bits: 0 },
                rx_rssi: 0,
                channel: 0,
            })),
            !self@.connected ==> (packet matches Err(e) && e.is_connection_failure(
                "Device not connected"@,
            )),
    {
        if !self.is_connected {
            return Err(DeviceError::not_connected());
        }
        Ok(
            MeshPacket {
                from: self.my_node_num,
                to: self.my_node_num,
                id: self.config_id,
                payload: Some(PayloadVariant::Admin(config.to_admin_message())),
                hop_limit: 3,
                want_ack: true,
                priority: MeshPacket_Priority::RELIABLE,
                rx_time,
                rx_snr: Float32::zero(),
                rx_rssi: 0,
                channel: 0,
            },
        )
    }

    /// The packet that tells the device a radio configuration, stamped
    /// with the current time (see `configure_radio_at`).
    pub fn configure_radio(&self, config: &RadioConfig) -> (packet: Result<MeshPacket, DeviceError>)
        ensures
            self@.connected ==> (packet matches Ok(p) && p.from == self@.node && p.to
                == self@.node && p.id == self@.config_id && p.payload == Some(
                PayloadVariant::Admin(
                    AdminMessage { variant: Some(Variant::SetRadio(device_settings(*config))) },
                ),
            ) && p.hop_limit == 3 && p.want_ack && p.priority == MeshPacket_Priority::RELIABLE),
            !self@.connected ==> (packet matches Err(e) && e.is_connection_failure(
                "Device not connected"@,
            )),
    {
        self.configure_radio_at(config, now().seconds_u32())
    }

    /// The frame that carries an encoded packet. This is a pure function
    /// of the bytes; the state of the device plays no part.
    pub fn frame_message(&self, data: &[u8]) -> (framed: Vec<u8>)
        ensures
            framed@ == encode_frame(data@),
    {
        frame_message(data)
    }

    /// The bytes to write for an encoded packet: its frame. Fails with
    /// "Device not connected" where the port is not open.
    pub fn frame_outgoing(&self, encoded: &[u8]) -> (framed: Result<Vec<u8>, DeviceError>)
        ensures
            self@.connected ==> (framed matches Ok(bytes) && bytes@ == encode_frame(encoded@)),
            !self@.connected ==> (framed matches Err(e) && e.is_connection_failure(
                "Device not connected"@,
            )),
    {
        if self.is_connected {
            Ok(frame_message(encoded))
        } else {
            Err(DeviceError::not_connected())
        }
    }

    /// Takes the next good frame's payload out of the receive buffer (see
    /// `extract_frame_from_buffer`).
    pub fn extract_frame(&mut self) -> (frame: Option<Vec<u8>>)
        ensures
            match scan_frame(old(self)@.buffer).step {
                FrameStep::Frame(payload) => frame matches Some(v) && v@ == payload,
                _ => frame is None,
            },
            final(self)@ == (SerialModel { buffer: scan_frame(old(self)@.buffer).rest, ..old(self)@ }),
    {
        match next_frame(&mut self.buffer) {
            FrameOutcome::Frame(payload) => Some(payload),
            _ => None,
        }
    }

    /// Appends received bytes to the receive buffer and takes every
    /// complete frame out of it: returns the payloads of the good frames in
    /// order of arrival, each to be decoded as a packet. The call never fails.
    pub fn process_incoming_data(&mut self, new_data: &[u8]) -> (frames: Result<
        Vec<Vec<u8>>,
        DeviceError,
    >)
        ensures
            frames matches Ok(list) && payloads(list@) == drain(
                old(self)@.buffer + new_data@,
            ).frames,
            final(self)@ == (SerialModel {
                buffer: drain(old(self)@.buffer + new_data@).rest,
                ..old(self)@
            }),
    {
        self.buffer.extend_from_slice(new_data);
        Ok(drain_frames(&mut self.buffer))
    }
}

/// Idempotent disconnect: a second disconnect finds nothing left to do, and
/// the device stays disconnected.
pub proof fn lemma_disconnect_is_idempotent(device: SerialModel)
    ensures
        device.disconnected().disconnected() == device.disconnected(),
        !device.disconnected().connected,
        !device.disconnected().listening,
{
}

/// The device after the attempts of a connect failed one after the other
/// with the given causes.
pub open spec fn after_failures(device: SerialModel, causes: Seq<Seq<char>>) -> SerialModel
    decreases causes.len(),
{
    if causes.len() == 0 {
        device
    } else {
        after_failures(device, causes.drop_last()).failed_once(causes.last())
    }
}

/// The first rate that opens the port wins: when the first `k` candidates
/// fail and the next one opens, the device is connected at that candidate,
/// the `k` candidates before it are recorded as failed, in order, and the
/// connect is over.
pub proof fn lemma_first_open_wins(device: SerialModel, causes: Seq<Seq<char>>)
    requires
        causes.len() < device.candidates.len(),
    ensures
        ({
            let k = causes.len() as int;
            let tried = after_failures(device.connecting(), causes);
            &&& tried.valid()
            &&& tried.probing == Some(k)
            &&& tried.candidates == device.candidates
            &&& tried.failed == device.candidates.take(k)
            &&& tried.next_action() == ConnectStep::Open(device.candidates[k])
            &&& tried.opened().connected
            &&& tried.opened().baud_rate == Some(device.candidates[k])
            &&& tried.opened().failed == device.candidates.take(k)
            &&& tried.opened().next_action() == ConnectStep::Connected
        }),
    decreases causes.len(),
{
    if causes.len() > 0 {
        lemma_first_open_wins(device, causes.drop_last());
    }
}

/// When every candidate fails, the connect ends with one error that
/// carries the cause of the last failure, and the device is no more
/// connected than it was.
pub proof fn lemma_all_candidates_fail(device: SerialModel, causes: Seq<Seq<char>>)
    requires
        causes.len() == device.candidates.len(),
        causes.len() > 0,
        !device.connected,
    ensures
        ({
            let tried = after_failures(device.connecting(), causes);
            &&& tried.probing is None
            &&& !tried.connected
            &&& tried.failed == device.candidates
            &&& tried.next_action() == ConnectStep::Exhausted(
                exhausted_message(Some(causes.last())),
            )
        }),
{
    lemma_first_open_wins(device, causes.drop_last());
    lemma_failures_keep_connection(device.connecting(), causes.drop_last());
}

/// A failed attempt leaves the connection as it is.
proof fn lemma_failures_keep_connection(device: SerialModel, causes: Seq<Seq<char>>)
    ensures
        after_failures(device, causes).connected == device.connected,
        after_failures(device, causes).candidates == device.candidates,
    decreases causes.len(),
{
    if causes.len() > 0 {
        lemma_failures_keep_connection(device, causes.drop_last());
    }
}

/// What one read of the port brought.
#[derive(Debug, PartialEq, Eq)]
pub enum ReadEvent {
    /// These bytes; at least one.
    Data(Vec<u8>),
    /// Nothing.
    Empty,
    /// The read failed.
    Failed,
}

/// What the listening task does after a read.
#[derive(Debug, PartialEq, Eq)]
pub enum ListenAction {
    /// Decode these payloads as packets and forward the ones that decode, in
    /// order; stop when the receiver is gone.
    Forward(Vec<Vec<u8>>),
    /// Wait this many milliseconds, then read again.
    Wait(u64),
    /// Stop.
    Stop,
}

/// What the listening task does after a read, in the model.
pub enum ListenStep {
    Forward(Seq<Seq<u8>>),
    Wait(u64),
    Stop,
}

impl View for ListenAction {
    type V = ListenStep;

    open spec fn view(&self) -> ListenStep {
        match self {
            ListenAction::Forward(frames) => ListenStep::Forward(payloads(frames@)),
            ListenAction::Wait(millis) => ListenStep::Wait(*millis),
            ListenAction::Stop => ListenStep::Stop,
        }
    }
}

/// The decision of the listening task after a read, for a receive buffer
/// that holds `buffer`: bytes are appended and every complete frame is
/// taken out; an empty read leads to a short wait; a failed read ends the
/// task. Only bytes change the buffer.
pub open spec fn listen_step(buffer: Seq<u8>, event: ReadEvent) -> (ListenStep, Seq<u8>) {
    match event {
        ReadEvent::Data(bytes) => (
            ListenStep::Forward(drain(buffer + bytes@).frames),
            drain(buffer + bytes@).rest,
        ),
        ReadEvent::Empty => (ListenStep::Wait(IDLE_WAIT_MILLIS), buffer),
        ReadEvent::Failed => (ListenStep::Stop, buffer),
    }
}

/// Decides what the listening task does after a read.
pub fn on_read(buffer: &mut BytesMut, event: ReadEvent) -> (action: ListenAction)
    ensures
        action@ == listen_step(buffer_bytes(*old(buffer)), event).0,
        buffer_bytes(*final(buffer)) == listen_step(buffer_bytes(*old(buffer)), event).1,
{
    match event {
        ReadEvent::Data(bytes) => {
            buffer.extend_from_slice(bytes.as_slice());
            ListenAction::Forward(drain_frames(buffer))
        },
        ReadEvent::Empty => ListenAction::Wait(IDLE_WAIT_MILLIS),
        ReadEvent::Failed => ListenAction::Stop,
    }
}

/// Whether the listening task goes on after it tried to forward a packet:
/// it does while the receiver is there.
pub fn continue_after_forward(delivered: bool) -> (go_on: bool)
    ensures
        go_on == delivered,
{
    delivered
}

/// The value of each entry that is `Ok`, in order.
pub open spec fn successes<T, E>(results: Seq<Result<T, E>>) -> Seq<T>
    decreases results.len(),
{
    if results.len() == 0 {
        Seq::empty()
    } else {
        match results.last() {
            Ok(value) => successes(results.drop_last()).push(value),
            Err(_) => successes(results.drop_last()),
        }
    }
}

/// Keeps the packets that decoded and drops the failures, in order.
pub fn keep_decoded<E>(results: Vec<Result<MeshPacket, E>>) -> (packets: Vec<MeshPacket>)
    ensures
        packets@ == successes(results@),
{
    let ghost all = results@;
    let mut packets: Vec<MeshPacket> = Vec::new();
    for result in it: results
        invariant
            it.seq() == all,
            packets@ == successes(all.take(it.index() as int)),
    {
        proof {
            let next = all.take(it.index() + 1);
            assert(next.drop_last() =~= all.take(it.index() as int));
        }
        match result {
            Ok(packet) => {
                packets.push(packet);
            },
            Err(_) => {},
        }
    }
    assert(all.take(all.len() as int) =~= all);
    packets
}

} // verus!
