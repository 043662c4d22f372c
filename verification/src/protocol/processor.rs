//! The message processor: drops packets it has seen, keeps the node
//! directory and the message history, and says which event a packet gives.

use crate::clock::Timestamp;
use crate::protocol::directory::{directory_entries, lists_directory};
use crate::protocol::message::{MeshMessage, MeshMessageView, MessageType, ProtocolError};
use crate::protocol::packet::{
    MeshPacket, PayloadVariant, Position, TelemetryData, TelemetryVariant, User, BROADCAST_ADDR,
};
use crate::text::{append_decimal, append_signed_decimal, decimal_text, owned, signed_decimal_text};
use std::collections::{HashMap, HashSet};
use vstd::prelude::*;
use vstd::string::StringExecFns;

verus! {

broadcast use vstd::std_specs::hash::group_hash_axioms;

/// How many packet ids are remembered before all are forgotten at once.
pub const PACKET_CACHE_LIMIT: usize = 1000;

/// How many messages the history keeps.
pub const HISTORY_LIMIT: usize = 10000;

/// The text that was rendered for the `i`-th floating-point reading of a
/// payload; empty where none was handed in.
pub open spec fn reading(rendered: Seq<String>, i: int) -> Seq<char> {
    if 0 <= i < rendered.len() {
        rendered[i]@
    } else {
        Seq::empty()
    }
}

/// The sender or destination of a packet as text.
pub open spec fn node_text(id: u32) -> Seq<char> {
    decimal_text(id as nat)
}

/// The destination of a packet as text: the word for all nodes, or the number.
pub open spec fn destination_text(to: u32) -> Seq<char> {
    if to == BROADCAST_ADDR {
        "broadcast"@
    } else {
        decimal_text(to as nat)
    }
}

/// What an announcement of a node says.
pub open spec fn node_info_text(user: User) -> Seq<char> {
    "Node info: "@ + user.long_name@ + " ("@ + user.short_name@ + ")"@
}

/// What a position report says. Latitude and longitude are the first two
/// rendered readings.
pub open spec fn position_text(position: Position, rendered: Seq<String>) -> Seq<char> {
    "Position: "@ + reading(rendered, 0) + ", "@ + reading(rendered, 1) + " (alt: "@
        + signed_decimal_text(position.altitude as int) + "m)"@
}

/// What a telemetry report says: the readings of the one group that the
/// packet carries. The floating-point readings are taken from the rendered
/// texts, in the order in which the sentence names them.
pub open spec fn telemetry_text(telemetry: TelemetryData, rendered: Seq<String>) -> Seq<char> {
    match telemetry.variant {
        Some(TelemetryVariant::DeviceMetrics(m)) => "Battery: "@ + decimal_text(
            m.battery_level as nat,
        ) + "%, Voltage: "@ + reading(rendered, 0) + "V, Uptime: "@ + decimal_text(
            m.uptime_seconds as nat,
        ) + "s"@,
        Some(TelemetryVariant::EnvironmentMetrics(_)) => "Temp: "@ + reading(rendered, 0)
            + "°C, Humidity: "@ + reading(rendered, 1) + "%, Pressure: "@ + reading(rendered, 2)
            + "hPa"@,
        Some(TelemetryVariant::PowerMetrics(_)) => "Power: "@ + reading(rendered, 0) + "V/"@
            + reading(rendered, 1) + "A"@,
        None => "Telemetry data"@,
    }
}

/// The event of a packet with the given text, destination and kind.
pub open spec fn event_of(
    packet: MeshPacket,
    text: Seq<char>,
    to: Seq<char>,
    want_ack: bool,
    kind: MessageType,
    now: Timestamp,
) -> MeshMessageView {
    MeshMessageView {
        from: node_text(packet.from),
        to,
        text,
        timestamp: now,
        want_ack: Some(want_ack),
        packet_id: Some(packet.id),
        hop_limit: Some(packet.hop_limit),
        channel: Some(packet.channel),
        message_type: kind,
    }
}

/// The event that a packet gives, if its payload gives one: text, node
/// announcements, positions, telemetry and administrative messages do;
/// routing, raw bytes and an empty packet do not.
pub open spec fn packet_event(packet: MeshPacket, rendered: Seq<String>, now: Timestamp) -> Option<
    MeshMessageView,
> {
    match packet.payload {
        Some(PayloadVariant::Text(text)) => Some(
            event_of(
                packet,
                text@,
                destination_text(packet.to),
                packet.want_ack,
                MessageType::Text,
                now,
            ),
        ),
        Some(PayloadVariant::NodeInfo(user)) => Some(
            event_of(
                packet,
                node_info_text(user),
                "broadcast"@,
                false,
                MessageType::NodeInfo,
                now,
            ),
        ),
        Some(PayloadVariant::Position(position)) => Some(
            event_of(
                packet,
                position_text(position, rendered),
                "broadcast"@,
                false,
                MessageType::Position,
                now,
            ),
        ),
        Some(PayloadVariant::Telemetry(telemetry)) => Some(
            event_of(
                packet,
                telemetry_text(telemetry, rendered),
                "broadcast"@,
                false,
                MessageType::Telemetry,
                now,
            ),
        ),
        Some(PayloadVariant::Admin(_)) => Some(
            event_of(
                packet,
                "Admin message"@,
                node_text(packet.to),
                packet.want_ack,
                MessageType::Admin,
                now,
            ),
        ),
        _ => None,
    }
}

/// The history with one more message: the oldest one leaves where the
/// history was full.
pub open spec fn history_with(history: Seq<MeshMessageView>, message: MeshMessageView) -> Seq<
    MeshMessageView,
> {
    if history.len() >= HISTORY_LIMIT {
        history.skip(1).push(message)
    } else {
        history.push(message)
    }
}

/// The remembered ids with one more: all are forgotten, the new one too,
/// where the memory was full.
pub open spec fn seen_with(seen: Set<u32>, id: u32) -> Set<u32> {
    if seen.len() >= PACKET_CACHE_LIMIT {
        Set::empty()
    } else {
        seen.insert(id)
    }
}

/// What the processor knows.
pub struct ProcessorModel {
    /// The node directory: who announced itself under which sender id.
    pub nodes: Map<u32, User>,
    /// The text messages received, oldest first.
    pub history: Seq<MeshMessageView>,
    /// The ids of the packets seen lately.
    pub seen: Set<u32>,
}

impl ProcessorModel {
    /// The bounds that the processor keeps.
    pub open spec fn valid(self) -> bool {
        &&& self.nodes.dom().finite()
        &&& self.seen.finite()
        &&& self.seen.len() <= PACKET_CACHE_LIMIT
        &&& self.history.len() <= HISTORY_LIMIT
    }

    /// The knowledge after a packet. A packet whose id is remembered changes
    /// nothing. Any other packet has its id remembered, a node announcement
    /// replaces the directory entry of its sender, and a text message joins
    /// the history.
    pub open spec fn after(self, packet: MeshPacket, rendered: Seq<String>, now: Timestamp) -> Self {
        if self.seen.contains(packet.id) {
            self
        } else {
            ProcessorModel {
                nodes: match packet.payload {
                    Some(PayloadVariant::NodeInfo(user)) => self.nodes.insert(packet.from, user),
                    _ => self.nodes,
                },
                history: match packet.payload {
                    Some(PayloadVariant::Text(_)) => history_with(
                        self.history,
                        packet_event(packet, rendered, now)->0,
                    ),
                    _ => self.history,
                },
                seen: seen_with(self.seen, packet.id),
            }
        }
    }

    /// The event that a packet is forwarded as: none for a packet whose id
    /// is remembered, else the event of its payload.
    pub open spec fn forwards(self, packet: MeshPacket, rendered: Seq<String>, now: Timestamp) -> Option<
        MeshMessageView,
    > {
        if self.seen.contains(packet.id) {
            None
        } else {
            packet_event(packet, rendered, now)
        }
    }
}

/// The views of a list of messages.
pub open spec fn message_views(messages: Seq<MeshMessage>) -> Seq<MeshMessageView> {
    Seq::new(messages.len(), |i: int| messages[i]@)
}

/// Whether an optional message is the given optional event.
pub open spec fn is_event(message: Option<MeshMessage>, event: Option<MeshMessageView>) -> bool {
    match (message, event) {
        (Some(m), Some(e)) => m@ == e,
        (None, None) => true,
        _ => false,
    }
}

/// The rendered text of the `i`-th floating-point reading.
fn reading_of(rendered: &Vec<String>, i: usize) -> (text: &str)
    ensures
        text@ == reading(rendered@, i as int),
{
    if i < rendered.len() {
        rendered[i].as_str()
    } else {
        proof {
            reveal_strlit("");
        }
        let empty = "";
        empty
    }
}

/// The sender or destination of a packet as text.
fn node_string(id: u32) -> (s: String)
    ensures
        s@ == node_text(id),
{
    let mut s = String::new();
    append_decimal(&mut s, id as u64);
    s
}

/// The destination of a packet as text.
fn destination_string(to: u32) -> (s: String)
    ensures
        s@ == destination_text(to),
{
    if to == BROADCAST_ADDR {
        owned("broadcast")
    } else {
        node_string(to)
    }
}

/// The text of a node announcement.
fn node_info_string(user: &User) -> (s: String)
    ensures
        s@ == node_info_text(*user),
{
    let mut s = owned("Node info: ");
    s.append(user.long_name.as_str());
    s.append(" (");
    s.append(user.short_name.as_str());
    s.append(")");
    s
}

/// The text of a position report.
fn position_string(position: &Position, rendered: &Vec<String>) -> (s: String)
    ensures
        s@ == position_text(*position, rendered@),
{
    let mut s = owned("Position: ");
    s.append(reading_of(rendered, 0));
    s.append(", ");
    s.append(reading_of(rendered, 1));
    s.append(" (alt: ");
    append_signed_decimal(&mut s, position.altitude as i64);
    s.append("m)");
    s
}

/// The text of a telemetry report.
fn telemetry_string(telemetry: &TelemetryData, rendered: &Vec<String>) -> (s: String)
    ensures
        s@ == telemetry_text(*telemetry, rendered@),
{
    match &telemetry.variant {
        Some(TelemetryVariant::DeviceMetrics(m)) => {
            let mut s = owned("Battery: ");
            append_decimal(&mut s, m.battery_level as u64);
            s.append("%, Voltage: ");
            s.append(reading_of(rendered, 0));
            s.append("V, Uptime: ");
            append_decimal(&mut s, m.uptime_seconds as u64);
            s.append("s");
            s
        },
        Some(TelemetryVariant::EnvironmentMetrics(_)) => {
            let mut s = owned("Temp: ");
            s.append(reading_of(rendered, 0));
            s.append("°C, Humidity: ");
            s.append(reading_of(rendered, 1));
            s.append("%, Pressure: ");
            s.append(reading_of(rendered, 2));
            s.append("hPa");
            s
        },
        Some(TelemetryVariant::PowerMetrics(_)) => {
            let mut s = owned("Power: ");
            s.append(reading_of(rendered, 0));
            s.append("V/");
            s.append(reading_of(rendered, 1));
            s.append("A");
            s
        },
        None => owned("Telemetry data"),
    }
}

/// Builds the event of a packet from its parts.
fn make_event(
    packet: &MeshPacket,
    text: String,
    to: String,
    want_ack: bool,
    kind: MessageType,
    now: Timestamp,
) -> (m: MeshMessage)
    ensures
        m@ == event_of(*packet, text@, to@, want_ack, kind, now),
{
    MeshMessage {
        from: node_string(packet.from),
        to,
        text,
        timestamp: now,
        want_ack: Some(want_ack),
        packet_id: Some(packet.id),
        hop_limit: Some(packet.hop_limit),
        channel: Some(packet.channel),
        message_type: kind,
    }
}

/// The event that a packet gives, if its payload gives one. `rendered`
/// holds the texts of the payload's floating-point readings, in the order
/// in which the event names them: latitude and longitude of a position,
/// voltage of device metrics, temperature, humidity and pressure of
/// environment metrics, voltage and current of power metrics.
pub fn describe_packet(packet: &MeshPacket, rendered: &Vec<String>, now: Timestamp) -> (event:
    Option<MeshMessage>)
    ensures
        is_event(event, packet_event(*packet, rendered@, now)),
{
    match &packet.payload {
        Some(PayloadVariant::Text(text)) => Some(
            make_event(
                packet,
                text.clone(),
                destination_string(packet.to),
                packet.want_ack,
                MessageType::Text,
                now,
            ),
        ),
        Some(PayloadVariant::NodeInfo(user)) => Some(
            make_event(
                packet,
                node_info_string(user),
                owned("broadcast"),
                false,
                MessageType::NodeInfo,
                now,
            ),
        ),
        Some(PayloadVariant::Position(position)) => Some(
            make_event(
                packet,
                position_string(position, rendered),
                owned("broadcast"),
                false,
                MessageType::Position,
                now,
            ),
        ),
        Some(PayloadVariant::Telemetry(telemetry)) => Some(
            make_event(
                packet,
                telemetry_string(telemetry, rendered),
                owned("broadcast"),
                false,
                MessageType::Telemetry,
                now,
            ),
        ),
        Some(PayloadVariant::Admin(_)) => Some(
            make_event(
                packet,
                owned("Admin message"),
                node_string(packet.to),
                packet.want_ack,
                MessageType::Admin,
                now,
            ),
        ),
        _ => None,
    }
}

/// Keeps what packets have taught: the node directory, the message history
/// and the ids of the packets seen lately.
pub struct MessageProcessor {
    node_database: HashMap<u32, User>,
    message_history: Vec<MeshMessage>,
    packet_cache: HashSet<u32>,
}

impl View for MessageProcessor {
    type V = ProcessorModel;

    closed spec fn view(&self) -> ProcessorModel {
        ProcessorModel {
            nodes: self.node_database@,
            history: message_views(self.message_history@),
            seen: self.packet_cache@,
        }
    }
}

impl MessageProcessor {
    /// A processor that knows nothing yet.
    pub fn new() -> (processor: MessageProcessor)
        ensures
            processor@ == (ProcessorModel {
                nodes: Map::empty(),
                history: Seq::empty(),
                seen: Set::empty(),
            }),
            processor@.valid(),
    {
        let processor = MessageProcessor {
            node_database: HashMap::new(),
            message_history: Vec::new(),
            packet_cache: HashSet::new(),
        };
        assert(processor@.history =~= Seq::empty());
        processor
    }

    /// Appends a message to the history; the oldest one leaves where the
    /// history was full.
    fn store_message(&mut self, message: MeshMessage)
        ensures
            final(self)@.history == history_with(old(self)@.history, message@),
            final(self)@.nodes == old(self)@.nodes,
            final(self)@.seen == old(self)@.seen,
    {
        if self.message_history.len() >= HISTORY_LIMIT {
            self.message_history.remove(0);
        }
        self.message_history.push(message);
    }

    /// Puts a node's identity into the directory, in place of what the
    /// directory held for that sender.
    fn update_node_info(&mut self, node_id: u32, user: User)
        ensures
            final(self)@.nodes == old(self)@.nodes.insert(node_id, user),
            final(self)@.history == old(self)@.history,
            final(self)@.seen == old(self)@.seen,
    {
        self.node_database.insert(node_id, user);
    }

    /// Remembers a packet id, unless it is remembered already. Returns
    /// whether the id was new. Where the memory is full, a new id empties it.
    fn remember(&mut self, id: u32) -> (fresh: bool)
        ensures
            fresh == !old(self)@.seen.contains(id),
            final(self)@.seen == if fresh {
                seen_with(old(self)@.seen, id)
            } else {
                old(self)@.seen
            },
            final(self)@.nodes == old(self)@.nodes,
            final(self)@.history == old(self)@.history,
    {
        if self.packet_cache.contains(&id) {
            return false;
        }
        if self.packet_cache.len() >= PACKET_CACHE_LIMIT {
            self.packet_cache.clear();
        } else {
            self.packet_cache.insert(id);
        }
        true
    }

    /// Takes in one packet that arrived at `now`, and returns the event to
    /// forward, if there is one. `rendered` holds the texts of the payload's
    /// floating-point readings (see `describe_packet`).
    ///
    /// A packet whose id is remembered is dropped without a trace. Any other
    /// packet has its id remembered; a node announcement replaces the
    /// directory entry of its sender; a text message joins the history.
    /// The call never fails.
    pub fn process_packet(
        &mut self,
        packet: MeshPacket,
        rendered: &Vec<String>,
        now: Timestamp,
    ) -> (result: Result<Option<MeshMessage>, ProtocolError>)
        ensures
            result is Ok,
            is_event(result->Ok_0, old(self)@.forwards(packet, rendered@, now)),
            final(self)@ == old(self)@.after(packet, rendered@, now),
            old(self)@.valid() ==> final(self)@.valid(),
    {
        if !self.remember(packet.id) {
            return Ok(None);
        }
        let event = describe_packet(&packet, rendered, now);
        match packet.payload {
            Some(PayloadVariant::Text(_)) => {
                match &event {
                    Some(message) => {
                        self.store_message(message.clone());
                    },
                    None => {},
                }
            },
            Some(PayloadVariant::NodeInfo(user)) => {
                self.update_node_info(packet.from, user);
            },
            _ => {},
        }
        Ok(event)
    }

    /// The identity that a sender announced last, if it announced one.
    pub fn get_node_info(&self, node_id: u32) -> (user: Option<User>)
        ensures
            match user {
                Some(u) => self@.nodes.contains_key(node_id) && u.same_as(&self@.nodes[node_id]),
                None => !self@.nodes.contains_key(node_id),
            },
    {
        match self.node_database.get(&node_id) {
            Some(user) => Some(user.duplicate()),
            None => None,
        }
    }

    /// Empties the message history; directory and remembered ids stay.
    pub fn clear_history(&mut self)
        ensures
            final(self)@ == (ProcessorModel { history: Seq::empty(), ..old(self)@ }),
    {
        self.message_history.clear();
        assert(self@.history =~= Seq::empty());
    }

    /// Empties the node directory; history and remembered ids stay.
    pub fn reset_directory(&mut self)
        ensures
            final(self)@ == (ProcessorModel { nodes: Map::empty(), ..old(self)@ }),
    {
        self.node_database.clear();
    }

    /// Every sender that announced itself, with the identity it announced
    /// last, in no particular order.
    pub fn get_all_nodes(&self) -> (nodes: Vec<(u32, User)>)
        ensures
            lists_directory(nodes@, self@.nodes),
    {
        directory_entries(&self.node_database)
    }

    /// The text messages received, oldest first.
    pub fn get_message_history(&self) -> (messages: Vec<MeshMessage>)
        ensures
            message_views(messages@) == self@.history,
    {
        let all = self.get_recent_messages(self.message_history.len());
        all
    }

    /// The last `limit` text messages received, oldest first; all of them
    /// where there are no more than `limit`.
    pub fn get_recent_messages(&self, limit: usize) -> (messages: Vec<MeshMessage>)
        ensures
            message_views(messages@) == if self@.history.len() > limit {
                self@.history.skip(self@.history.len() - limit)
            } else {
                self@.history
            },
    {
        let n = self.message_history.len();
        let start: usize = if n > limit {
            n - limit
        } else {
            0
        };
        let mut messages: Vec<MeshMessage> = Vec::new();
        let mut i: usize = start;
        while i < n
            invariant
                start <= i <= n,
                n == self.message_history@.len(),
                messages@.len() == i - start,
                forall|j: int| 0 <= j < i - start ==> messages@[j] == self.message_history@[start + j],
            decreases n - i,
        {
            messages.push(self.message_history[i].clone());
            i = i + 1;
        }
        messages
    }
}

impl Default for MessageProcessor {
    fn default() -> (processor: MessageProcessor)
        ensures
            processor@ == (ProcessorModel {
                nodes: Map::empty(),
                history: Seq::empty(),
                seen: Set::empty(),
            }),
    {
        MessageProcessor::new()
    }
}

/// De-duplication: of two packets that share an id, whichever arrives first
/// is forwarded as the event of its payload, and the other is dropped
/// without changing anything. This holds while the memory of ids has room
/// for the first one.
pub proof fn lemma_duplicate_is_dropped(
    known: ProcessorModel,
    first: MeshPacket,
    second: MeshPacket,
    rendered_first: Seq<String>,
    rendered_second: Seq<String>,
    first_time: Timestamp,
    second_time: Timestamp,
)
    requires
        known.valid(),
        first.id == second.id,
        !known.seen.contains(first.id),
        known.seen.len() < PACKET_CACHE_LIMIT,
    ensures
        known.forwards(first, rendered_first, first_time) == packet_event(
            first,
            rendered_first,
            first_time,
        ),
        known.after(first, rendered_first, first_time).forwards(
            second,
            rendered_second,
            second_time,
        ) is None,
        known.after(first, rendered_first, first_time).after(second, rendered_second, second_time)
            == known.after(first, rendered_first, first_time),
{
}

/// Node upsert: two announcements from one sender, in packets that are both
/// new, leave the directory with exactly one entry for that sender, holding
/// what the second announced; no other entry changes.
pub proof fn lemma_node_upsert(
    known: ProcessorModel,
    first: MeshPacket,
    second: MeshPacket,
    rendered: Seq<String>,
    first_time: Timestamp,
    second_time: Timestamp,
)
    requires
        known.valid(),
        first.from == second.from,
        first.payload matches Some(PayloadVariant::NodeInfo(_)),
        second.payload matches Some(PayloadVariant::NodeInfo(_)),
        first.id != second.id,
        !known.seen.contains(first.id),
        !known.seen.contains(second.id),
    ensures
        ({
            let end = known.after(first, rendered, first_time).after(second, rendered, second_time);
            &&& second.payload matches Some(PayloadVariant::NodeInfo(latest))
            &&& end.nodes == known.nodes.insert(second.from, latest)
            &&& end.nodes.dom() == known.nodes.dom().insert(second.from)
            &&& end.nodes[second.from] == latest
            &&& end.nodes.remove(second.from) == known.nodes.remove(second.from)
        }),
{
}

} // verus!
