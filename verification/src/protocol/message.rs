//! Messages as a user sees them, the nodes of the mesh, and what can go
//! wrong in the protocol layer.

use crate::clock::{now, Timestamp};
use crate::random::random_u32;
use crate::text::{owned, text_is};
use vstd::prelude::*;
use vstd::string::StringExecFns;

verus! {

/// The kinds of message.
#[derive(Clone, Copy, Debug, PartialEq, Eq, Structural)]
pub enum MessageType {
    Text,
    Position,
    NodeInfo,
    Telemetry,
    Routing,
    Admin,
    Unknown,
}

/// The user-facing form of a packet: who sent what to whom, and when.
#[derive(Debug, PartialEq, Eq)]
pub struct MeshMessage {
    pub from: String,
    pub to: String,
    pub text: String,
    pub timestamp: Timestamp,
    pub want_ack: Option<bool>,
    pub packet_id: Option<u32>,
    pub hop_limit: Option<u8>,
    pub channel: Option<u8>,
    pub message_type: MessageType,
}

/// A message as mathematics sees it: texts are sequences of characters.
pub struct MeshMessageView {
    pub from: Seq<char>,
    pub to: Seq<char>,
    pub text: Seq<char>,
    pub timestamp: Timestamp,
    pub want_ack: Option<bool>,
    pub packet_id: Option<u32>,
    pub hop_limit: Option<u8>,
    pub channel: Option<u8>,
    pub message_type: MessageType,
}

impl View for MeshMessage {
    type V = MeshMessageView;

    open spec fn view(&self) -> MeshMessageView {
        MeshMessageView {
            from: self.from@,
            to: self.to@,
            text: self.text@,
            timestamp: self.timestamp,
            want_ack: self.want_ack,
            packet_id: self.packet_id,
            hop_limit: self.hop_limit,
            channel: self.channel,
            message_type: self.message_type,
        }
    }
}

impl Clone for MeshMessage {
    fn clone(&self) -> (copy: MeshMessage)
        ensures
            copy == *self,
    {
        MeshMessage {
            from: self.from.clone(),
            to: self.to.clone(),
            text: self.text.clone(),
            timestamp: self.timestamp,
            want_ack: self.want_ack,
            packet_id: self.packet_id,
            hop_limit: self.hop_limit,
            channel: self.channel,
            message_type: self.message_type,
        }
    }
}

impl MeshMessage {
    /// A text message as it is before it is sent: no acknowledgement
    /// wanted, three hops, channel 0.
    pub open spec fn outgoing_text(
        from: Seq<char>,
        to: Seq<char>,
        text: Seq<char>,
        timestamp: Timestamp,
        packet_id: u32,
    ) -> MeshMessageView {
        MeshMessageView {
            from,
            to,
            text,
            timestamp,
            want_ack: Some(false),
            packet_id: Some(packet_id),
            hop_limit: Some(3),
            channel: Some(0),
            message_type: MessageType::Text,
        }
    }

    /// A text message with the given time and packet id.
    pub fn text_at(from: String, to: String, text: String, timestamp: Timestamp, packet_id: u32) -> (m:
        MeshMessage)
        ensures
            m@ == MeshMessage::outgoing_text(from@, to@, text@, timestamp, packet_id),
    {
        MeshMessage {
            from,
            to,
            text,
            timestamp,
            want_ack: Some(false),
            packet_id: Some(packet_id),
            hop_limit: Some(3),
            channel: Some(0),
            message_type: MessageType::Text,
        }
    }

    /// A text message stamped with the current time, with a random packet id.
    pub fn new_text(from: String, to: String, text: String) -> (m: MeshMessage)
        ensures
            m.packet_id is Some,
            m.timestamp.valid(),
            m@ == MeshMessage::outgoing_text(from@, to@, text@, m.timestamp, m.packet_id->0),
    {
        MeshMessage::text_at(from, to, text, now(), random_u32())
    }

    /// A text message to every node, stamped with the current time, with a
    /// random packet id.
    pub fn new_broadcast(from: String, text: String) -> (m: MeshMessage)
        ensures
            m.packet_id is Some,
            m.timestamp.valid(),
            m@ == MeshMessage::outgoing_text(
                from@,
                "broadcast"@,
                text@,
                m.timestamp,
                m.packet_id->0,
            ),
    {
        MeshMessage::new_text(from, owned("broadcast"), text)
    }

    /// Whether the message addresses every node.
    pub fn is_broadcast(&self) -> (b: bool)
        ensures
            b == (self.to@ == "broadcast"@ || self.to@ == "^all"@),
    {
        text_is(&self.to, "broadcast") || text_is(&self.to, "^all")
    }

    /// Whether the sender wants an acknowledgement; no, where it did not say.
    pub fn requires_ack(&self) -> (b: bool)
        ensures
            b == (self.want_ack == Some(true)),
    {
        match self.want_ack {
            Some(wanted) => wanted,
            None => false,
        }
    }
}

/// A node of the mesh as a user sees it.
#[derive(Debug, PartialEq, Eq)]
pub struct NodeInfo {
    pub id: String,
    pub name: String,
    pub short_name: String,
    pub is_online: bool,
}

impl Clone for NodeInfo {
    fn clone(&self) -> (copy: NodeInfo)
        ensures
            copy == *self,
    {
        NodeInfo {
            id: self.id.clone(),
            name: self.name.clone(),
            short_name: self.short_name.clone(),
            is_online: self.is_online,
        }
    }
}

impl NodeInfo {
    /// A node that has not been heard yet.
    pub fn new(id: String, name: String, short_name: String) -> (node: NodeInfo)
        ensures
            node == (NodeInfo { id, name, short_name, is_online: false }),
    {
        NodeInfo { id, name, short_name, is_online: false }
    }

    /// The entry that stands for all nodes together.
    pub fn broadcast_node() -> (node: NodeInfo)
        ensures
            node.id@ == "broadcast"@,
            node.name@ == "All Nodes"@,
            node.short_name@ == "ALL"@,
            node.is_online,
    {
        NodeInfo {
            id: owned("broadcast"),
            name: owned("All Nodes"),
            short_name: owned("ALL"),
            is_online: true,
        }
    }
}

/// What can go wrong in the protocol layer.
#[derive(Clone, Debug, PartialEq, Eq)]
pub enum ProtocolError {
    InvalidFormat,
    UnsupportedType,
    Serialization(String),
    Encoding(String),
    Decoding(String),
    Protobuf(String),
    InvalidNodeId,
}

impl ProtocolError {
    /// The error in words.
    pub open spec fn spec_message(&self) -> Seq<char> {
        match self {
            ProtocolError::InvalidFormat => "Invalid message format"@,
            ProtocolError::UnsupportedType => "Unsupported message type"@,
            ProtocolError::Serialization(detail) => "Serialization error: "@ + detail@,
            ProtocolError::Encoding(detail) => "Encoding error: "@ + detail@,
            ProtocolError::Decoding(detail) => "Decoding error: "@ + detail@,
            ProtocolError::Protobuf(detail) => "Protobuf error: "@ + detail@,
            ProtocolError::InvalidNodeId => "Invalid node ID"@,
        }
    }

    /// The error in words.
    pub fn message(&self) -> (text: String)
        ensures
            text@ == self.spec_message(),
    {
        match self {
            ProtocolError::InvalidFormat => owned("Invalid message format"),
            ProtocolError::UnsupportedType => owned("Unsupported message type"),
            ProtocolError::Serialization(detail) => owned("Serialization error: ").concat(
                detail.as_str(),
            ),
            ProtocolError::Encoding(detail) => owned("Encoding error: ").concat(detail.as_str()),
            ProtocolError::Decoding(detail) => owned("Decoding error: ").concat(detail.as_str()),
            ProtocolError::Protobuf(detail) => owned("Protobuf error: ").concat(detail.as_str()),
            ProtocolError::InvalidNodeId => owned("Invalid node ID"),
        }
    }
}

} // verus!
