//! The protocol handler: the length-prefixed envelope around an encoded
//! packet, and the step from a text message to a packet and back.

use crate::clock::{now, Timestamp};
use crate::protocol::message::{MeshMessage, ProtocolError};
use crate::protocol::packet::{
    MeshPacket, MeshPacket_Priority, PayloadVariant, BROADCAST_ADDR,
};
use crate::protocol::processor::{describe_packet, packet_event};
use crate::random::random_u32;
use crate::text::{parse_decimal, parse_u32, text_is};
use vstd::prelude::*;

verus! {

/// The first byte of an envelope.
pub const ENVELOPE_START_1: u8 = 0x94;

/// The second byte of an envelope.
pub const ENVELOPE_START_2: u8 = 0xC3;

/// All bytes of a sequence xor-ed together; 0 for none.
pub open spec fn xor_fold(data: Seq<u8>) -> u8
    decreases data.len(),
{
    if data.len() == 0 {
        0
    } else {
        xor_fold(data.drop_last()) ^ data.last()
    }
}

/// The envelope of a payload: the two start bytes, the length of the
/// payload in 16 bits (low byte first; of a longer payload the low 16 bits
/// of its length), the payload, and the xor of its bytes.
pub open spec fn envelope(data: Seq<u8>) -> Seq<u8> {
    seq![
        ENVELOPE_START_1,
        ENVELOPE_START_2,
        (data.len() % 256) as u8,
        ((data.len() / 256) % 256) as u8,
    ] + data + seq![xor_fold(data)]
}

/// The payload of an envelope: present where the start bytes are right, the
/// announced count of payload bytes and one more byte are there, and that
/// byte is the xor of the payload. What follows it is not looked at.
pub open spec fn envelope_payload(data: Seq<u8>) -> Option<Seq<u8>> {
    if data.len() < 5 || data[0] != ENVELOPE_START_1 || data[1] != ENVELOPE_START_2 {
        None
    } else {
        let len = data[2] as int + 256 * (data[3] as int);
        if data.len() < 4 + len + 1 {
            None
        } else {
            let payload = data.subrange(4, 4 + len);
            if data[4 + len] == xor_fold(payload) {
                Some(payload)
            } else {
                None
            }
        }
    }
}

/// The node that a destination text names: every node for the word
/// `broadcast` and for anything that is no 32-bit number, else the number.
pub open spec fn destination_node(to: Seq<char>) -> u32 {
    if to == "broadcast"@ {
        BROADCAST_ADDR
    } else {
        match parse_decimal(to) {
            Some(node) => node,
            None => BROADCAST_ADDR,
        }
    }
}

/// The node that a destination text names.
pub fn destination_of(to: &String) -> (node: u32)
    ensures
        node == destination_node(to@),
{
    if text_is(to, "broadcast") {
        BROADCAST_ADDR
    } else {
        match parse_u32(to.as_str()) {
            Some(node) => node,
            None => BROADCAST_ADDR,
        }
    }
}

/// The xor of all bytes of a slice.
fn xor_of(data: &[u8]) -> (x: u8)
    ensures
        x == xor_fold(data@),
{
    let mut x: u8 = 0;
    let mut i: usize = 0;
    while i < data.len()
        invariant
            i <= data.len(),
            x == xor_fold(data@.take(i as int)),
        decreases data.len() - i,
    {
        proof {
            let next = data@.take(i + 1);
            assert(next.drop_last() =~= data@.take(i as int));
        }
        x = x ^ data[i];
        i = i + 1;
    }
    assert(data@.take(data.len() as int) =~= data@);
    x
}

/// Turns messages into packets and envelopes into payloads, on behalf of
/// one local node.
#[derive(Clone, Copy, Debug, PartialEq, Eq)]
pub struct ProtocolHandler {
    local_node_id: u32,
}

impl ProtocolHandler {
    /// The id of the local node.
    pub closed spec fn node_id(&self) -> u32 {
        self.local_node_id
    }

    /// A handler for a local node with a random id.
    pub fn new() -> (handler: ProtocolHandler) {
        ProtocolHandler { local_node_id: random_u32() }
    }

    /// A handler for the local node with the given id.
    pub fn with_node_id(local_node_id: u32) -> (handler: ProtocolHandler)
        ensures
            handler.node_id() == local_node_id,
    {
        ProtocolHandler { local_node_id }
    }

    /// The id of the local node.
    pub fn get_local_node_id(&self) -> (id: u32)
        ensures
            id == self.node_id(),
    {
        self.local_node_id
    }

    /// The packet that carries a text message from the local node, with the
    /// given id and time.
    pub fn text_packet_with(&self, message: &MeshMessage, id: u32, rx_time: u32) -> (packet:
        MeshPacket)
        ensures
            packet.is_fresh(
                self.node_id(),
                destination_node(message.to@),
                MeshPacket_Priority::DEFAULT,
            ),
            packet.id == id,
            packet.rx_time == rx_time,
            packet.payload matches Some(PayloadVariant::Text(t)) && t@ == message.text@,
    {
        MeshPacket::assemble(
            self.local_node_id,
            destination_of(&message.to),
            id,
            Some(PayloadVariant::Text(message.text.clone())),
            MeshPacket_Priority::DEFAULT,
            rx_time,
        )
    }

    /// The packet that carries a text message from the local node, with a
    /// random id, stamped with the current time.
    pub fn text_packet(&self, message: &MeshMessage) -> (packet: MeshPacket)
        ensures
            packet.is_fresh(
                self.node_id(),
                destination_node(message.to@),
                MeshPacket_Priority::DEFAULT,
            ),
            packet.payload matches Some(PayloadVariant::Text(t)) && t@ == message.text@,
    {
        self.text_packet_with(message, random_u32(), now().seconds_u32())
    }

    /// Puts an encoded packet into its envelope.
    pub fn frame_data(&self, data: &[u8]) -> (framed: Vec<u8>)
        ensures
            framed@ == envelope(data@),
    {
        let len = data.len();
        let mut framed: Vec<u8> = Vec::new();
        framed.push(ENVELOPE_START_1);
        framed.push(ENVELOPE_START_2);
        framed.push((len % 256) as u8);
        framed.push(((len / 256) % 256) as u8);
        let ghost head = framed@;
        let mut i: usize = 0;
        while i < len
            invariant
                i <= len,
                len == data@.len(),
                framed@ == head + data@.take(i as int),
            decreases len - i,
        {
            framed.push(data[i]);
            i = i + 1;
        }
        framed.push(xor_of(data));
        framed
    }

    /// Takes the payload out of its envelope. Fails with `InvalidFormat`
    /// where the bytes are no envelope: too short, wrong start bytes, fewer
    /// bytes than announced, or a wrong check byte.
    pub fn unframe_data(&self, data: &[u8]) -> (payload: Result<Vec<u8>, ProtocolError>)
        ensures
            match envelope_payload(data@) {
                Some(bytes) => payload matches Ok(v) && v@ == bytes,
                None => payload == Err::<Vec<u8>, ProtocolError>(ProtocolError::InvalidFormat),
            },
    {
        if data.len() < 5 {
            return Err(ProtocolError::InvalidFormat);
        }
        if data[0] != ENVELOPE_START_1 || data[1] != ENVELOPE_START_2 {
            return Err(ProtocolError::InvalidFormat);
        }
        let len: usize = data[2] as usize + 256 * (data[3] as usize);
        if data.len() - 5 < len {
            return Err(ProtocolError::InvalidFormat);
        }
        let mut payload: Vec<u8> = Vec::new();
        let mut x: u8 = 0;
        let mut i: usize = 0;
        let ghost body = data@.subrange(4, 4 + len);
        while i < len
            invariant
                i <= len,
                4 + len < data@.len(),
                data@.len() <= usize::MAX,
                body == data@.subrange(4, 4 + len),
                payload@ == body.take(i as int),
                x == xor_fold(body.take(i as int)),
            decreases len - i,
        {
            proof {
                let next = body.take(i + 1);
                assert(next.drop_last() =~= body.take(i as int));
            }
            payload.push(data[4 + i]);
            x = x ^ data[4 + i];
            i = i + 1;
        }
        assert(body.take(len as int) =~= body);
        if data[4 + len] != x {
            return Err(ProtocolError::InvalidFormat);
        }
        Ok(payload)
    }

    /// The text message that a decoded packet stands for, received at
    /// `now`. Fails with `UnsupportedType` for a packet that carries no text.
    pub fn message_from_packet(&self, packet: &MeshPacket, now: Timestamp) -> (message: Result<
        MeshMessage,
        ProtocolError,
    >)
        ensures
            match packet.payload {
                Some(PayloadVariant::Text(_)) => message matches Ok(m) && Some(m@) == packet_event(
                    *packet,
                    Seq::empty(),
                    now,
                ),
                _ => message == Err::<MeshMessage, ProtocolError>(ProtocolError::UnsupportedType),
            },
    {
        match &packet.payload {
            Some(PayloadVariant::Text(_)) => {
                let rendered: Vec<String> = Vec::new();
                match describe_packet(packet, &rendered, now) {
                    Some(m) => Ok(m),
                    None => Err(ProtocolError::UnsupportedType),
                }
            },
            _ => Err(ProtocolError::UnsupportedType),
        }
    }
}

impl Default for ProtocolHandler {
    fn default() -> (handler: ProtocolHandler) {
        ProtocolHandler::new()
    }
}

/// An envelope gives back the payload that was put into it, provided the
/// payload's length fits in 16 bits; bytes behind the envelope do no harm.
pub proof fn lemma_envelope_round_trip(data: Seq<u8>, behind: Seq<u8>)
    requires
        data.len() <= 0xFFFF,
    ensures
        envelope_payload(envelope(data) + behind) == Some(data),
{
    let whole = envelope(data) + behind;
    let n = data.len() as int;
    assert(whole.subrange(4, 4 + n) =~= data);
}

} // verus!
