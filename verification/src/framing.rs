//! The frame codec: a payload travels as
//! `START, escaped payload, escaped checksum (low byte first), END`.
//!
//! The first half of this file says what a frame is, as functions on byte
//! sequences; the second half holds the executable encoder and the streaming
//! extractor, each proved to compute those functions.

use crate::buffer::buffer_bytes;
use crate::checksum::{checksum, crc16};
use bytes::BytesMut;
use vstd::prelude::*;

verus! {

/// Marks the beginning of a frame.
pub const FRAME_START: u8 = 0x94;

/// Marks the end of a frame.
pub const FRAME_END: u8 = 0x7E;

/// Introduces an escaped byte.
pub const ESCAPE: u8 = 0x7D;

/// What an escaped byte is xor-ed with.
pub const ESCAPE_XOR: u8 = 0x20;

/// The bytes that never travel as themselves inside a frame.
pub open spec fn is_reserved(b: u8) -> bool {
    b == FRAME_START || b == FRAME_END || b == ESCAPE
}

/// How one byte travels: a reserved byte as `ESCAPE` and the byte xor-ed
/// with the mask, any other byte as itself.
pub open spec fn escape_byte(b: u8) -> Seq<u8> {
    if is_reserved(b) {
        seq![ESCAPE, b ^ ESCAPE_XOR]
    } else {
        seq![b]
    }
}

/// How a byte sequence travels: each byte escaped in turn.
pub open spec fn escape(data: Seq<u8>) -> Seq<u8>
    decreases data.len(),
{
    if data.len() == 0 {
        Seq::empty()
    } else {
        escape(data.drop_last()) + escape_byte(data.last())
    }
}

/// What a received span stands for. An `ESCAPE` followed by a byte gives that
/// byte xor-ed with the mask; an `ESCAPE` that ends the span stands for itself.
pub open spec fn unescape(wire: Seq<u8>) -> Seq<u8>
    decreases wire.len(),
{
    if wire.len() == 0 {
        Seq::empty()
    } else if wire[0] == ESCAPE && wire.len() >= 2 {
        seq![wire[1] ^ ESCAPE_XOR] + unescape(wire.skip(2))
    } else {
        seq![wire[0]] + unescape(wire.skip(1))
    }
}

/// The low byte of a checksum.
pub open spec fn low_byte(c: u16) -> u8 {
    (c & 0xff) as u8
}

/// The high byte of a checksum.
pub open spec fn high_byte(c: u16) -> u8 {
    (c >> 8) as u8
}

/// A checksum as it is sent: low byte first.
pub open spec fn checksum_bytes(c: u16) -> Seq<u8> {
    seq![low_byte(c), high_byte(c)]
}

/// The checksum that two received bytes stand for, low byte first.
pub open spec fn checksum_from(lo: u8, hi: u8) -> u16 {
    (lo as u16) | ((hi as u16) << 8)
}

/// The wire form of a payload.
pub open spec fn encode_frame(payload: Seq<u8>) -> Seq<u8> {
    seq![FRAME_START] + escape(payload) + escape(checksum_bytes(crc16(payload))) + seq![
        FRAME_END,
    ]
}

/// The first position at or after `from` that holds `b`, if there is one.
pub open spec fn find_byte(s: Seq<u8>, b: u8, from: int) -> Option<int>
    decreases s.len() - from,
{
    if from < 0 || from >= s.len() {
        None
    } else if s[from] == b {
        Some(from)
    } else {
        find_byte(s, b, from + 1)
    }
}

/// What one look at the receive buffer finds.
pub enum FrameStep {
    /// No complete frame is in the buffer yet.
    Incomplete,
    /// A complete frame was there, and it was too short or its checksum was wrong.
    Rejected,
    /// A complete frame with this payload.
    Frame(Seq<u8>),
}

/// What one look at the receive buffer finds, and what the buffer holds afterwards.
pub struct Scan {
    pub step: FrameStep,
    pub rest: Seq<u8>,
}

/// The payload of unescaped frame contents: all but the last two bytes,
/// provided those two are the checksum of the others.
pub open spec fn checked_payload(contents: Seq<u8>) -> Option<Seq<u8>> {
    if contents.len() >= 2 {
        let payload = contents.take(contents.len() - 2);
        let received = checksum_from(contents[contents.len() - 2], contents[contents.len() - 1]);
        if received == crc16(payload) {
            Some(payload)
        } else {
            None
        }
    } else {
        None
    }
}

/// What the span between a `START` and the next `END` yields.
pub open spec fn decode_body(body: Seq<u8>) -> FrameStep {
    match checked_payload(unescape(body)) {
        Some(payload) => FrameStep::Frame(payload),
        None => FrameStep::Rejected,
    }
}

/// One look at the receive buffer.
///
/// Without a `START` nothing is ready and the buffer stays as it is. With a
/// `START` and no `END` behind it nothing is ready either, and the bytes before
/// that `START` are dropped. Otherwise the span between the first `START` and
/// the first `END` behind it is decoded, and everything up to and including
/// that `END` is consumed, whether the frame was good or not.
pub open spec fn scan_frame(buf: Seq<u8>) -> Scan {
    match find_byte(buf, FRAME_START, 0) {
        None => Scan { step: FrameStep::Incomplete, rest: buf },
        Some(start) => match find_byte(buf, FRAME_END, start + 1) {
            None => Scan { step: FrameStep::Incomplete, rest: buf.skip(start) },
            Some(end) => Scan {
                step: decode_body(buf.subrange(start + 1, end)),
                rest: buf.skip(end + 1),
            },
        },
    }
}

/// The payloads that looking again and again finds, in order, and what the
/// buffer holds once nothing more is ready. Rejected frames are passed over.
pub struct Drained {
    pub frames: Seq<Seq<u8>>,
    pub rest: Seq<u8>,
}

/// Looking again and again until no complete frame is left.
pub open spec fn drain(buf: Seq<u8>) -> Drained
    decreases buf.len(),
    via drain_terminates
{
    let scan = scan_frame(buf);
    match scan.step {
        FrameStep::Incomplete => Drained { frames: Seq::empty(), rest: scan.rest },
        FrameStep::Rejected => drain(scan.rest),
        FrameStep::Frame(payload) => Drained {
            frames: seq![payload] + drain(scan.rest).frames,
            rest: drain(scan.rest).rest,
        },
    }
}

/// Every look that finds a complete frame leaves a shorter buffer.
#[via_fn]
proof fn drain_terminates(buf: Seq<u8>) {
    lemma_scan_consumes(buf);
}

/// What `find_byte` finds is the first occurrence, and where it finds nothing
/// there is none.
pub proof fn lemma_find_byte(s: Seq<u8>, b: u8, from: int)
    requires
        0 <= from,
    ensures
        match find_byte(s, b, from) {
            Some(i) => from <= i < s.len() && s[i] == b && forall|j: int|
                from <= j < i ==> s[j] != b,
            None => forall|j: int| from <= j < s.len() ==> s[j] != b,
        },
    decreases s.len() - from,
{
    if from < s.len() && s[from] != b {
        lemma_find_byte(s, b, from + 1);
    }
}

/// A position that holds `b`, with no `b` between `from` and it, is what
/// `find_byte` finds.
pub proof fn lemma_find_byte_is(s: Seq<u8>, b: u8, from: int, i: int)
    requires
        0 <= from <= i < s.len(),
        s[i] == b,
        forall|j: int| from <= j < i ==> s[j] != b,
    ensures
        find_byte(s, b, from) == Some(i),
    decreases i - from,
{
    if from < i {
        lemma_find_byte_is(s, b, from + 1, i);
    }
}

/// Where no position from `from` on holds `b`, `find_byte` finds nothing.
pub proof fn lemma_find_byte_none(s: Seq<u8>, b: u8, from: int)
    requires
        0 <= from,
        forall|j: int| from <= j < s.len() ==> s[j] != b,
    ensures
        find_byte(s, b, from) is None,
    decreases s.len() - from,
{
    if from < s.len() {
        lemma_find_byte_none(s, b, from + 1);
    }
}

/// A scan that finds a complete frame consumes at least its two delimiters.
pub proof fn lemma_scan_consumes(buf: Seq<u8>)
    ensures
        !(scan_frame(buf).step is Incomplete) ==> scan_frame(buf).rest.len() + 2 <= buf.len(),
        scan_frame(buf).rest.len() <= buf.len(),
{
    lemma_find_byte(buf, FRAME_START, 0);
    match find_byte(buf, FRAME_START, 0) {
        Some(start) => {
            lemma_find_byte(buf, FRAME_END, start + 1);
        },
        None => {},
    }
}

/// What one look at the buffer gave.
#[derive(Debug, PartialEq, Eq)]
pub enum FrameOutcome {
    /// No complete frame is in the buffer yet.
    Incomplete,
    /// A complete frame was consumed and dropped: too short, or its checksum was wrong.
    Rejected,
    /// A complete frame was consumed; this is its payload.
    Frame(Vec<u8>),
}

impl View for FrameOutcome {
    type V = FrameStep;

    open spec fn view(&self) -> FrameStep {
        match self {
            FrameOutcome::Incomplete => FrameStep::Incomplete,
            FrameOutcome::Rejected => FrameStep::Rejected,
            FrameOutcome::Frame(payload) => FrameStep::Frame(payload@),
        }
    }
}

/// Appends the wire form of one byte.
fn push_escaped_byte(out: &mut Vec<u8>, b: u8)
    ensures
        final(out)@ == old(out)@ + escape_byte(b),
{
    if b == FRAME_START || b == FRAME_END || b == ESCAPE {
        out.push(ESCAPE);
        out.push(b ^ ESCAPE_XOR);
    } else {
        out.push(b);
    }
}

/// Appends the wire form of a byte sequence.
fn push_escaped(out: &mut Vec<u8>, data: &[u8])
    ensures
        final(out)@ == old(out)@ + escape(data@),
{
    let ghost before = out@;
    let mut i: usize = 0;
    while i < data.len()
        invariant
            i <= data.len(),
            out@ == before + escape(data@.take(i as int)),
        decreases data.len() - i,
    {
        push_escaped_byte(out, data[i]);
        proof {
            let next = data@.take(i + 1);
            assert(next.drop_last() =~= data@.take(i as int));
        }
        i = i + 1;
    }
    assert(data@.take(data.len() as int) =~= data@);
}

/// Encodes a payload as one frame: `START`, the escaped payload, the escaped
/// checksum of the payload (low byte first), `END`.
pub fn frame_message(data: &[u8]) -> (framed: Vec<u8>)
    ensures
        framed@ == encode_frame(data@),
{
    let c = checksum(data);
    let lo: u8 = (c & 0xff) as u8;
    let hi: u8 = (c >> 8) as u8;
    let mut framed: Vec<u8> = Vec::new();
    framed.push(FRAME_START);
    push_escaped(&mut framed, data);
    push_escaped_byte(&mut framed, lo);
    push_escaped_byte(&mut framed, hi);
    framed.push(FRAME_END);
    proof {
        reveal_with_fuel(escape, 3);
    }
    framed
}

/// The first position at or after `from` at which the buffer holds `byte`.
fn find_in_buffer(buffer: &BytesMut, byte: u8, from: usize) -> (found: Option<usize>)
    requires
        from <= buffer_bytes(*buffer).len(),
    ensures
        match found {
            Some(i) => find_byte(buffer_bytes(*buffer), byte, from as int) == Some(i as int) && i
                < usize::MAX,
            None => find_byte(buffer_bytes(*buffer), byte, from as int) is None,
        },
{
    let len = buffer.len();
    let mut i: usize = from;
    while i < len
        invariant
            from <= i <= len,
            len == buffer_bytes(*buffer).len(),
            forall|j: int| from <= j < i ==> buffer_bytes(*buffer)[j] != byte,
        decreases len - i,
    {
        if buffer[i] == byte {
            proof {
                lemma_find_byte_is(buffer_bytes(*buffer), byte, from as int, i as int);
            }
            return Some(i);
        }
        i = i + 1;
    }
    proof {
        lemma_find_byte_none(buffer_bytes(*buffer), byte, from as int);
    }
    None
}

/// What the buffer's bytes from `from` up to `to` stand for.
fn unescape_range(buffer: &BytesMut, from: usize, to: usize) -> (contents: Vec<u8>)
    requires
        from <= to <= buffer_bytes(*buffer).len(),
    ensures
        contents@ == unescape(buffer_bytes(*buffer).subrange(from as int, to as int)),
{
    let ghost bytes = buffer_bytes(*buffer);
    let ghost body = bytes.subrange(from as int, to as int);
    let mut contents: Vec<u8> = Vec::new();
    let mut i: usize = from;
    while i < to
        invariant
            from <= i <= to <= bytes.len(),
            bytes == buffer_bytes(*buffer),
            body == bytes.subrange(from as int, to as int),
            contents@ + unescape(bytes.subrange(i as int, to as int)) == unescape(body),
        decreases to - i,
    {
        let ghost span = bytes.subrange(i as int, to as int);
        let b = buffer[i];
        if b == ESCAPE && i + 1 < to {
            let next = buffer[i + 1];
            contents.push(next ^ ESCAPE_XOR);
            proof {
                assert(span.skip(2) =~= bytes.subrange(i + 2, to as int));
            }
            i = i + 2;
        } else {
            contents.push(b);
            proof {
                assert(span.skip(1) =~= bytes.subrange(i + 1, to as int));
            }
            i = i + 1;
        }
    }
    contents
}

/// Splits unescaped frame contents into payload and checksum and compares.
fn check_contents(contents: Vec<u8>) -> (outcome: FrameOutcome)
    ensures
        outcome@ == match checked_payload(contents@) {
            Some(payload) => FrameStep::Frame(payload),
            None => FrameStep::Rejected,
        },
{
    let n = contents.len();
    if n < 2 {
        return FrameOutcome::Rejected;
    }
    let received: u16 = (contents[n - 2] as u16) | ((contents[n - 1] as u16) << 8);
    let mut payload = contents;
    payload.truncate(n - 2);
    let computed = checksum(payload.as_slice());
    if received == computed {
        FrameOutcome::Frame(payload)
    } else {
        FrameOutcome::Rejected
    }
}

/// Looks at the receive buffer once: finds, consumes and decodes the next
/// complete frame.
pub fn next_frame(buffer: &mut BytesMut) -> (outcome: FrameOutcome)
    ensures
        outcome@ == scan_frame(buffer_bytes(*old(buffer))).step,
        buffer_bytes(*final(buffer)) == scan_frame(buffer_bytes(*old(buffer))).rest,
{
    let start = match find_in_buffer(buffer, FRAME_START, 0) {
        Some(start) => start,
        None => {
            return FrameOutcome::Incomplete;
        },
    };
    proof {
        lemma_find_byte(buffer_bytes(*buffer), FRAME_START, 0);
    }
    let end = match find_in_buffer(buffer, FRAME_END, start + 1) {
        Some(end) => end,
        None => {
            let _ = buffer.split_to(start);
            return FrameOutcome::Incomplete;
        },
    };
    proof {
        lemma_find_byte(buffer_bytes(*buffer), FRAME_END, start + 1);
    }
    let contents = unescape_range(buffer, start + 1, end);
    let _ = buffer.split_to(end + 1);
    check_contents(contents)
}

/// Takes the next good frame's payload out of the receive buffer, if the
/// next complete frame is a good one. `None` stands both for "nothing ready
/// yet" and for a frame that was consumed and dropped; `next_frame` tells
/// the two apart.
pub fn extract_frame_from_buffer(buffer: &mut BytesMut) -> (frame: Option<Vec<u8>>)
    ensures
        match scan_frame(buffer_bytes(*old(buffer))).step {
            FrameStep::Frame(payload) => frame matches Some(v) && v@ == payload,
            _ => frame is None,
        },
        buffer_bytes(*final(buffer)) == scan_frame(buffer_bytes(*old(buffer))).rest,
{
    match next_frame(buffer) {
        FrameOutcome::Frame(payload) => Some(payload),
        _ => None,
    }
}

/// The payloads of a list of frames, as sequences.
pub open spec fn payloads(frames: Seq<Vec<u8>>) -> Seq<Seq<u8>> {
    Seq::new(frames.len(), |i: int| frames[i]@)
}

/// Takes every complete frame out of the receive buffer and returns the
/// payloads of the good ones, in order of arrival.
pub fn drain_frames(buffer: &mut BytesMut) -> (frames: Vec<Vec<u8>>)
    ensures
        payloads(frames@) == drain(buffer_bytes(*old(buffer))).frames,
        buffer_bytes(*final(buffer)) == drain(buffer_bytes(*old(buffer))).rest,
{
    let ghost whole = drain(buffer_bytes(*buffer));
    let mut frames: Vec<Vec<u8>> = Vec::new();
    loop
        invariant_except_break
            payloads(frames@) + drain(buffer_bytes(*buffer)).frames == whole.frames,
            drain(buffer_bytes(*buffer)).rest == whole.rest,
        ensures
            payloads(frames@) == whole.frames,
            buffer_bytes(*buffer) == whole.rest,
        decreases buffer_bytes(*buffer).len(),
    {
        proof {
            lemma_scan_consumes(buffer_bytes(*buffer));
        }
        match next_frame(buffer) {
            FrameOutcome::Incomplete => {
                break ;
            },
            FrameOutcome::Rejected => {},
            FrameOutcome::Frame(payload) => {
                frames.push(payload);
            },
        }
    }
    frames
}

} // verus!
