//! What holds of the frame codec as a whole: encoding and extraction are
//! inverse to each other, a frame in which one byte changed on the way is
//! dropped, and the frames that come out do not depend on how the byte
//! stream was cut into reads.

use crate::checksum::{crc16, lemma_checksum_tells_one_byte_apart};
use crate::framing::{
    checksum_from, drain, encode_frame, escape, escape_byte, find_byte, high_byte, is_reserved,
    lemma_find_byte, lemma_find_byte_is, lemma_scan_consumes, low_byte, scan_frame, unescape,
    Drained, FrameStep, Scan, ESCAPE, ESCAPE_XOR, FRAME_END, FRAME_START,
};
use vstd::prelude::*;

verus! {

/// Escaping a concatenation escapes its parts.
pub proof fn lemma_escape_concat(a: Seq<u8>, b: Seq<u8>)
    ensures
        escape(a + b) == escape(a) + escape(b),
    decreases b.len(),
{
    if b.len() > 0 {
        lemma_escape_concat(a, b.drop_last());
        assert((a + b).drop_last() =~= a + b.drop_last());
    }
}

/// Escaping a single byte.
pub proof fn lemma_escape_single(b: u8)
    ensures
        escape(seq![b]) == escape_byte(b),
{
    reveal_with_fuel(escape, 2);
}

/// An escaped byte, xor-ed again, is the byte; and it is no delimiter.
proof fn lemma_mask(b: u8)
    ensures
        (b ^ ESCAPE_XOR) ^ ESCAPE_XOR == b,
        is_reserved(b) ==> !is_reserved(b ^ ESCAPE_XOR),
{
    assert((b ^ 0x20u8) ^ 0x20u8 == b) by (bit_vector);
    assert(0x94u8 ^ 0x20u8 == 0xB4u8) by (bit_vector);
    assert(0x7Eu8 ^ 0x20u8 == 0x5Eu8) by (bit_vector);
    assert(0x7Du8 ^ 0x20u8 == 0x5Du8) by (bit_vector);
}

/// The two bytes of a checksum give the checksum back.
pub proof fn lemma_checksum_bytes(c: u16)
    ensures
        checksum_from(low_byte(c), high_byte(c)) == c,
{
    assert((((c & 0xff) as u8) as u16) | ((((c >> 8) as u8) as u16) << 8) == c) by (bit_vector);
}

/// Two different byte pairs stand for different checksums.
pub proof fn lemma_checksum_from_injective(lo1: u8, hi1: u8, lo2: u8, hi2: u8)
    requires
        checksum_from(lo1, hi1) == checksum_from(lo2, hi2),
    ensures
        lo1 == lo2,
        hi1 == hi2,
{
    assert(((lo1 as u16) | ((hi1 as u16) << 8)) == ((lo2 as u16) | ((hi2 as u16) << 8)) ==> lo1
        == lo2 && hi1 == hi2) by (bit_vector);
}

/// No escaped sequence holds a frame delimiter.
pub proof fn lemma_escape_has_no_delimiter(data: Seq<u8>, i: int)
    requires
        0 <= i < escape(data).len(),
    ensures
        escape(data)[i] != FRAME_START,
        escape(data)[i] != FRAME_END,
    decreases data.len(),
{
    if data.len() > 0 {
        let head = escape(data.drop_last());
        if i < head.len() {
            lemma_escape_has_no_delimiter(data.drop_last(), i);
        } else {
            lemma_mask(data.last());
        }
    }
}

/// Unescaping what was escaped gives it back, whatever follows.
pub proof fn lemma_unescape_escape(data: Seq<u8>, tail: Seq<u8>)
    ensures
        unescape(escape(data) + tail) == data + unescape(tail),
    decreases data.len(),
{
    if data.len() > 0 {
        let first = data[0];
        let others = data.skip(1);
        assert(data =~= seq![first] + others);
        lemma_escape_concat(seq![first], others);
        lemma_escape_single(first);
        lemma_mask(first);
        let wire = escape(data) + tail;
        let behind = escape(others) + tail;
        lemma_unescape_escape(others, tail);
        if is_reserved(first) {
            assert(wire.skip(2) =~= behind);
        } else {
            assert(wire.skip(1) =~= behind);
        }
    }
}

/// A frame as it is sent, with any two bytes in the checksum field.
pub open spec fn frame_with_checksum(payload: Seq<u8>, lo: u8, hi: u8) -> Seq<u8> {
    seq![FRAME_START] + escape(payload) + escape(seq![lo, hi]) + seq![FRAME_END]
}

/// What a scan makes of a frame that follows bytes without a `START` and is
/// followed by anything: the frame's contents are checked, and what followed
/// is left in the buffer.
pub proof fn lemma_scan_framed(before: Seq<u8>, payload: Seq<u8>, lo: u8, hi: u8, after: Seq<u8>)
    requires
        forall|j: int| 0 <= j < before.len() ==> before[j] != FRAME_START,
    ensures
        scan_frame(before + frame_with_checksum(payload, lo, hi) + after) == (Scan {
            step: if checksum_from(lo, hi) == crc16(payload) {
                FrameStep::Frame(payload)
            } else {
                FrameStep::Rejected
            },
            rest: after,
        }),
{
    let contents = payload + seq![lo, hi];
    let body = escape(contents);
    lemma_escape_concat(payload, seq![lo, hi]);
    let buf = before + frame_with_checksum(payload, lo, hi) + after;
    let start = before.len() as int;
    let end = start + 1 + body.len();
    lemma_find_byte_is(buf, FRAME_START, 0, start);
    assert forall|j: int| start + 1 <= j < end implies buf[j] != FRAME_END by {
        lemma_escape_has_no_delimiter(contents, j - start - 1);
    }
    lemma_find_byte_is(buf, FRAME_END, start + 1, end);
    assert(buf.subrange(start + 1, end) =~= body);
    assert(buf.skip(end + 1) =~= after);
    lemma_unescape_escape(contents, Seq::empty());
    assert(contents.take(contents.len() - 2) =~= payload);
}

/// An encoded frame is a frame whose checksum field holds the checksum.
pub proof fn lemma_encode_frame(payload: Seq<u8>)
    ensures
        encode_frame(payload) == frame_with_checksum(
            payload,
            low_byte(crc16(payload)),
            high_byte(crc16(payload)),
        ),
{
}

/// Round trip: whatever the payload holds, reserved bytes included, the
/// extractor takes exactly that payload out of its encoded frame and leaves
/// nothing behind.
pub proof fn lemma_round_trip(payload: Seq<u8>)
    ensures
        scan_frame(encode_frame(payload)) == (Scan {
            step: FrameStep::Frame(payload),
            rest: Seq::empty(),
        }),
{
    lemma_round_trip_in_stream(Seq::empty(), payload, Seq::empty());
    assert(Seq::<u8>::empty() + encode_frame(payload) + Seq::<u8>::empty() =~= encode_frame(
        payload,
    ));
}

/// Round trip inside a stream: an encoded frame that follows bytes without a
/// `START` comes out with its payload, and what followed it stays in the buffer.
pub proof fn lemma_round_trip_in_stream(before: Seq<u8>, payload: Seq<u8>, after: Seq<u8>)
    requires
        forall|j: int| 0 <= j < before.len() ==> before[j] != FRAME_START,
    ensures
        scan_frame(before + encode_frame(payload) + after) == (Scan {
            step: FrameStep::Frame(payload),
            rest: after,
        }),
{
    let c = crc16(payload);
    lemma_checksum_bytes(c);
    lemma_scan_framed(before, payload, low_byte(c), high_byte(c), after);
}

/// Draining a buffer that begins with an encoded frame gives that frame's
/// payload first, then whatever draining the rest gives.
pub proof fn lemma_drain_encoded(payload: Seq<u8>, after: Seq<u8>)
    ensures
        drain(encode_frame(payload) + after) == (Drained {
            frames: seq![payload] + drain(after).frames,
            rest: drain(after).rest,
        }),
{
    lemma_round_trip_in_stream(Seq::empty(), payload, after);
}

/// Checksum sensitivity: a frame whose checksum field is not the checksum of
/// the payload it carries is consumed and dropped, and what follows it in
/// the buffer stays extractable.
pub proof fn lemma_mismatched_checksum_rejected(payload: Seq<u8>, lo: u8, hi: u8, after: Seq<u8>)
    requires
        checksum_from(lo, hi) != crc16(payload),
    ensures
        scan_frame(frame_with_checksum(payload, lo, hi) + after) == (Scan {
            step: FrameStep::Rejected,
            rest: after,
        }),
{
    lemma_scan_framed(Seq::empty(), payload, lo, hi, after);
    assert(Seq::<u8>::empty() + frame_with_checksum(payload, lo, hi) + after
        =~= frame_with_checksum(payload, lo, hi) + after);
}

/// Whatever bytes a buffer holds, a payload comes out of it only together
/// with its own checksum: the span between the first `START` and the next
/// `END` stands for the payload followed by the two bytes of the payload's
/// checksum, low byte first.
pub proof fn lemma_frames_carry_their_checksum(buf: Seq<u8>)
    ensures
        scan_frame(buf).step matches FrameStep::Frame(payload) ==> {
            let start = find_byte(buf, FRAME_START, 0)->0;
            let end = find_byte(buf, FRAME_END, start + 1)->0;
            unescape(buf.subrange(start + 1, end)) == payload + seq![
                low_byte(crc16(payload)),
                high_byte(crc16(payload)),
            ]
        },
{
    match scan_frame(buf).step {
        FrameStep::Frame(payload) => {
            let start = find_byte(buf, FRAME_START, 0)->0;
            let end = find_byte(buf, FRAME_END, start + 1)->0;
            let contents = unescape(buf.subrange(start + 1, end));
            let n = contents.len() as int;
            lemma_checksum_bytes(crc16(payload));
            lemma_checksum_from_injective(
                contents[n - 2],
                contents[n - 1],
                low_byte(crc16(payload)),
                high_byte(crc16(payload)),
            );
            assert(contents =~= payload + seq![contents[n - 2], contents[n - 1]]);
        },
        _ => {},
    }
}

/// Where a payload byte stands in the encoded frame, provided it travels
/// unescaped.
pub open spec fn wire_position(payload: Seq<u8>, i: int) -> int {
    1 + escape(payload.take(i)).len() as int
}

/// Replacing a payload byte that travels unescaped by another such byte
/// changes exactly one byte of the escaped sequence.
proof fn lemma_escape_update(payload: Seq<u8>, i: int, b: u8)
    requires
        0 <= i < payload.len(),
        !is_reserved(payload[i]),
        !is_reserved(b),
    ensures
        escape(payload.take(i)).len() < escape(payload).len(),
        escape(payload.update(i, b)) == escape(payload).update(
            escape(payload.take(i)).len() as int,
            b,
        ),
        escape(payload)[escape(payload.take(i)).len() as int] == payload[i],
{
    let head = payload.take(i);
    let tail = payload.skip(i + 1);
    assert(payload =~= head + seq![payload[i]] + tail);
    assert(payload.update(i, b) =~= head + seq![b] + tail);
    lemma_escape_concat(head, seq![payload[i]]);
    lemma_escape_concat(head + seq![payload[i]], tail);
    lemma_escape_concat(head, seq![b]);
    lemma_escape_concat(head + seq![b], tail);
    lemma_escape_single(payload[i]);
    lemma_escape_single(b);
}

/// Checksum sensitivity, payload side. Flip bit `bit` of payload byte `i` in
/// an encoded frame, where that byte travels unescaped before and after the
/// flip. The extractor then consumes the frame and drops it.
pub proof fn lemma_payload_bit_flip(payload: Seq<u8>, i: int, bit: u8)
    requires
        0 <= i < payload.len(),
        bit < 8,
        !is_reserved(payload[i]),
        !is_reserved(payload[i] ^ (1u8 << bit)),
    ensures
        ({
            let sent = encode_frame(payload);
            let at = wire_position(payload, i);
            let seen = scan_frame(sent.update(at, sent[at] ^ (1u8 << bit)));
            &&& 0 < at < sent.len() - 1
            &&& sent[at] == payload[i]
            &&& seen == Scan { step: FrameStep::Rejected, rest: Seq::empty() }
        }),
{
    let old_byte = payload[i];
    let new_byte = old_byte ^ (1u8 << bit);
    assert(old_byte ^ (1u8 << bit) != old_byte) by (bit_vector)
        requires
            bit < 8,
    ;
    let sent = encode_frame(payload);
    let at = wire_position(payload, i);
    lemma_escape_update(payload, i, new_byte);
    lemma_changed_byte_rejected(payload, at, new_byte);
}

/// Checksum sensitivity, checksum side. Flip bit `bit` of one of the two
/// checksum bytes of an encoded frame (`which` is 0 for the low byte, 1 for
/// the high byte), where both checksum bytes travel unescaped before and
/// after the flip. The extractor then drops the frame.
pub proof fn lemma_checksum_bit_flip(payload: Seq<u8>, which: int, bit: u8)
    requires
        which == 0 || which == 1,
        bit < 8,
        !is_reserved(low_byte(crc16(payload))),
        !is_reserved(high_byte(crc16(payload))),
        which == 0 ==> !is_reserved(low_byte(crc16(payload)) ^ (1u8 << bit)),
        which == 1 ==> !is_reserved(high_byte(crc16(payload)) ^ (1u8 << bit)),
    ensures
        ({
            let sent = encode_frame(payload);
            let at = sent.len() - 3 + which;
            let seen = scan_frame(sent.update(at, sent[at] ^ (1u8 << bit)));
            &&& 0 < at < sent.len() - 1
            &&& seen == Scan { step: FrameStep::Rejected, rest: Seq::empty() }
        }),
{
    let c = crc16(payload);
    let lo = low_byte(c);
    let hi = high_byte(c);
    let sent = encode_frame(payload);
    let at = sent.len() - 3 + which;
    lemma_checksum_bytes(c);
    lemma_escape_concat(seq![lo], seq![hi]);
    lemma_escape_single(lo);
    lemma_escape_single(hi);
    assert(seq![lo] + seq![hi] =~= seq![lo, hi]);
    let new_lo = if which == 0 {
        lo ^ (1u8 << bit)
    } else {
        lo
    };
    let new_hi = if which == 1 {
        hi ^ (1u8 << bit)
    } else {
        hi
    };
    assert(lo ^ (1u8 << bit) != lo) by (bit_vector)
        requires
            bit < 8,
    ;
    assert(hi ^ (1u8 << bit) != hi) by (bit_vector)
        requires
            bit < 8,
    ;
    lemma_escape_concat(seq![new_lo], seq![new_hi]);
    lemma_escape_single(new_lo);
    lemma_escape_single(new_hi);
    assert(seq![new_lo] + seq![new_hi] =~= seq![new_lo, new_hi]);
    assert(sent.update(at, sent[at] ^ (1u8 << bit)) =~= frame_with_checksum(
        payload,
        new_lo,
        new_hi,
    ));
    if checksum_from(new_lo, new_hi) == c {
        lemma_checksum_from_injective(new_lo, new_hi, lo, hi);
    }
    lemma_mismatched_checksum_rejected(payload, new_lo, new_hi, Seq::empty());
    assert(frame_with_checksum(payload, new_lo, new_hi) + Seq::<u8>::empty()
        =~= frame_with_checksum(payload, new_lo, new_hi));
}

/// The byte of `data` whose escaped form holds position `k` of the escaped
/// sequence.
spec fn carried_byte(data: Seq<u8>, k: int) -> int
    decreases data.len(),
{
    if data.len() == 0 {
        0
    } else if k < escape(data.drop_last()).len() {
        carried_byte(data.drop_last(), k)
    } else {
        data.len() - 1
    }
}

/// Every byte of an escaped sequence that is no `ESCAPE` is the last byte of
/// the escaped form of one byte of the data.
proof fn lemma_carried_byte(data: Seq<u8>, k: int)
    requires
        0 <= k < escape(data).len(),
        escape(data)[k] != ESCAPE,
    ensures
        0 <= carried_byte(data, k) < data.len(),
        escape(data.take(carried_byte(data, k) + 1)).len() == k + 1,
    decreases data.len(),
{
    let front = data.drop_last();
    if k < escape(front).len() {
        lemma_carried_byte(front, k);
        assert(data.take(carried_byte(front, k) + 1) =~= front.take(carried_byte(front, k) + 1));
    } else {
        assert(data.take(data.len() as int) =~= data);
    }
}

/// What a received span stands for once one of its bytes is replaced. Take
/// the escaped form of `data` and put `byte` in place of the byte at `k`,
/// where neither is reserved. The span then stands for `data` with exactly
/// one byte changed, and it still holds no delimiter.
proof fn lemma_unescape_changed(data: Seq<u8>, k: int, byte: u8)
    requires
        0 <= k < escape(data).len(),
        !is_reserved(escape(data)[k]),
        !is_reserved(byte),
        byte != escape(data)[k],
    ensures
        ({
            let j = carried_byte(data, k);
            let seen = unescape(escape(data).update(k, byte));
            &&& 0 <= j < data.len()
            &&& seen.len() == data.len()
            &&& seen[j] != data[j]
            &&& seen == data.update(j, seen[j])
        }),
{
    lemma_carried_byte(data, k);
    let j = carried_byte(data, k);
    let head = data.take(j);
    let v = data[j];
    let tail = data.skip(j + 1);
    assert(data =~= head + seq![v] + tail);
    assert(data.take(j + 1) =~= head + seq![v]);
    lemma_escape_concat(head, seq![v]);
    lemma_escape_concat(head + seq![v], tail);
    lemma_escape_single(v);
    lemma_mask(v);
    let body = escape(data);
    let changed = if is_reserved(v) {
        seq![ESCAPE, byte]
    } else {
        seq![byte]
    };
    let behind = changed + escape(tail);
    assert(body.update(k, byte) =~= escape(head) + behind);
    lemma_unescape_escape(head, behind);
    lemma_unescape_escape(tail, Seq::empty());
    assert(escape(tail) + Seq::<u8>::empty() =~= escape(tail));
    assert(unescape(Seq::<u8>::empty()) =~= Seq::<u8>::empty());
    let value = if is_reserved(v) {
        byte ^ ESCAPE_XOR
    } else {
        byte
    };
    if is_reserved(v) {
        assert(behind.skip(2) =~= escape(tail));
        assert(byte != v ^ 0x20u8 ==> byte ^ 0x20u8 != v) by (bit_vector);
    } else {
        assert(behind.skip(1) =~= escape(tail));
    }
    assert(unescape(behind) =~= seq![value] + tail);
    assert(head + (seq![value] + tail) =~= data.update(j, value));
}

/// Checksum sensitivity. Put another byte in place of any one byte between
/// the delimiters of an encoded frame, where neither the byte that was sent
/// nor the byte that arrives is reserved. The extractor then consumes the
/// frame and drops it: it hands out neither the payload that was sent nor any
/// other.
pub proof fn lemma_changed_byte_rejected(payload: Seq<u8>, at: int, byte: u8)
    requires
        0 < at < encode_frame(payload).len() - 1,
        !is_reserved(encode_frame(payload)[at]),
        !is_reserved(byte),
        byte != encode_frame(payload)[at],
    ensures
        scan_frame(encode_frame(payload).update(at, byte)) == (Scan {
            step: FrameStep::Rejected,
            rest: Seq::empty(),
        }),
{
    let c = crc16(payload);
    let contents = payload + seq![low_byte(c), high_byte(c)];
    let body = escape(contents);
    lemma_escape_concat(payload, seq![low_byte(c), high_byte(c)]);
    let sent = encode_frame(payload);
    assert(sent =~= seq![FRAME_START] + body + seq![FRAME_END]);
    let k = at - 1;
    assert(body[k] == sent[at]);
    lemma_unescape_changed(contents, k, byte);
    let j = carried_byte(contents, k);
    let seen_body = body.update(k, byte);
    let seen = unescape(seen_body);
    let buf = sent.update(at, byte);
    let end = 1 + body.len() as int;
    lemma_find_byte_is(buf, FRAME_START, 0, 0);
    assert forall|p: int| 1 <= p < end implies buf[p] != FRAME_END by {
        if p != at {
            lemma_escape_has_no_delimiter(contents, p - 1);
        }
    }
    lemma_find_byte_is(buf, FRAME_END, 1, end);
    assert(buf.subrange(1, end) =~= seen_body);
    assert(buf.skip(end + 1) =~= Seq::<u8>::empty());
    let n = payload.len() as int;
    lemma_checksum_bytes(c);
    if j < n {
        assert(seen.take(n) =~= payload.update(j, seen[j]));
        lemma_checksum_tells_one_byte_apart(payload, j, seen[j]);
    } else {
        assert(seen.take(n) =~= payload);
        if checksum_from(seen[n], seen[n + 1]) == c {
            lemma_checksum_from_injective(seen[n], seen[n + 1], low_byte(c), high_byte(c));
        }
    }
}

/// Checksum sensitivity, bit by bit. Flip one bit of any one byte between the
/// delimiters of an encoded frame, where the byte is reserved neither before
/// nor after the flip. The extractor then consumes the frame and drops it.
pub proof fn lemma_bit_flip_rejected(payload: Seq<u8>, at: int, bit: u8)
    requires
        0 < at < encode_frame(payload).len() - 1,
        bit < 8,
        !is_reserved(encode_frame(payload)[at]),
        !is_reserved(encode_frame(payload)[at] ^ (1u8 << bit)),
    ensures
        scan_frame(
            encode_frame(payload).update(at, encode_frame(payload)[at] ^ (1u8 << bit)),
        ) == (Scan { step: FrameStep::Rejected, rest: Seq::empty() }),
{
    let sent_byte = encode_frame(payload)[at];
    assert(sent_byte ^ (1u8 << bit) != sent_byte) by (bit_vector)
        requires
            bit < 8,
    ;
    lemma_changed_byte_rejected(payload, at, sent_byte ^ (1u8 << bit));
}

/// Searching behind a dropped prefix finds the same position, counted from
/// the new beginning.
proof fn lemma_find_byte_skip(s: Seq<u8>, b: u8, k: int, from: int)
    requires
        0 <= k <= s.len(),
        0 <= from,
    ensures
        find_byte(s.skip(k), b, from) == match find_byte(s, b, from + k) {
            Some(i) => Some(i - k),
            None => None,
        },
    decreases s.len() - k - from,
{
    if from < s.len() - k {
        if s[from + k] != b {
            lemma_find_byte_skip(s, b, k, from + 1);
        }
    }
}

/// Searching a sequence with more bytes behind it finds what the search
/// found before, if it found something.
proof fn lemma_find_byte_append(s: Seq<u8>, t: Seq<u8>, b: u8, from: int)
    requires
        0 <= from,
        find_byte(s, b, from) is Some,
    ensures
        find_byte(s + t, b, from) == find_byte(s, b, from),
    decreases s.len() - from,
{
    if from < s.len() {
        if s[from] != b {
            lemma_find_byte_append(s, t, b, from + 1);
        }
    }
}

/// A complete frame is found and decoded alike whatever arrives behind it.
pub proof fn lemma_scan_append_complete(buf: Seq<u8>, more: Seq<u8>)
    requires
        !(scan_frame(buf).step is Incomplete),
    ensures
        scan_frame(buf + more) == (Scan {
            step: scan_frame(buf).step,
            rest: scan_frame(buf).rest + more,
        }),
{
    let start = find_byte(buf, FRAME_START, 0)->0;
    lemma_find_byte_append(buf, more, FRAME_START, 0);
    lemma_find_byte(buf, FRAME_END, start + 1);
    let end = find_byte(buf, FRAME_END, start + 1)->0;
    lemma_find_byte_append(buf, more, FRAME_END, start + 1);
    assert((buf + more).subrange(start + 1, end) =~= buf.subrange(start + 1, end));
    assert((buf + more).skip(end + 1) =~= buf.skip(end + 1) + more);
}

/// Where no frame was complete, what the scan left in the buffer is as good
/// as the whole buffer once more bytes arrive.
pub proof fn lemma_scan_append_incomplete(buf: Seq<u8>, more: Seq<u8>)
    requires
        scan_frame(buf).step is Incomplete,
    ensures
        scan_frame(buf + more) == scan_frame(scan_frame(buf).rest + more),
{
    lemma_find_byte(buf, FRAME_START, 0);
    match find_byte(buf, FRAME_START, 0) {
        None => {},
        Some(start) => {
            let whole = buf + more;
            let kept = buf.skip(start) + more;
            assert(kept =~= whole.skip(start));
            lemma_find_byte_append(buf, more, FRAME_START, 0);
            lemma_find_byte_skip(whole, FRAME_END, start, 1);
            match find_byte(whole, FRAME_END, start + 1) {
                None => {
                    assert(kept.skip(0) =~= whole.skip(start));
                },
                Some(end) => {
                    lemma_find_byte(whole, FRAME_END, start + 1);
                    assert(kept.subrange(1, end - start) =~= whole.subrange(start + 1, end));
                    assert(kept.skip(end - start + 1) =~= whole.skip(end + 1));
                },
            }
        },
    }
}

/// Draining, then appending and draining again, finds the same frames in
/// the same order as appending first and draining once.
pub proof fn lemma_drain_append(buf: Seq<u8>, more: Seq<u8>)
    ensures
        drain(buf + more) == (Drained {
            frames: drain(buf).frames + drain(drain(buf).rest + more).frames,
            rest: drain(drain(buf).rest + more).rest,
        }),
    decreases buf.len(),
{
    let scan = scan_frame(buf);
    lemma_scan_consumes(buf);
    match scan.step {
        FrameStep::Incomplete => {
            lemma_scan_append_incomplete(buf, more);
            assert(drain(buf).frames + drain(scan.rest + more).frames =~= drain(
                scan.rest + more,
            ).frames);
        },
        FrameStep::Rejected => {
            lemma_scan_append_complete(buf, more);
            lemma_drain_append(scan.rest, more);
        },
        FrameStep::Frame(payload) => {
            lemma_scan_append_complete(buf, more);
            lemma_drain_append(scan.rest, more);
            let later = drain(scan.rest);
            let last = drain(later.rest + more);
            assert(seq![payload] + (later.frames + last.frames) =~= (seq![payload] + later.frames)
                + last.frames);
        },
    }
}

/// The bytes of a list of reads, one after the other.
pub open spec fn join(chunks: Seq<Seq<u8>>) -> Seq<u8>
    decreases chunks.len(),
{
    if chunks.len() == 0 {
        Seq::empty()
    } else {
        chunks[0] + join(chunks.skip(1))
    }
}

/// What comes out when reads arrive one by one and the buffer is drained
/// after each: the payloads in order, and what the buffer holds at the end.
pub open spec fn feed(buf: Seq<u8>, chunks: Seq<Seq<u8>>) -> Drained
    decreases chunks.len(),
{
    if chunks.len() == 0 {
        Drained { frames: Seq::empty(), rest: buf }
    } else {
        let first = drain(buf + chunks[0]);
        let later = feed(first.rest, chunks.skip(1));
        Drained { frames: first.frames + later.frames, rest: later.rest }
    }
}

/// Draining what a drain left finds nothing more and leaves it as it is.
pub proof fn lemma_drain_settles(buf: Seq<u8>)
    ensures
        drain(drain(buf).rest) == (Drained { frames: Seq::empty(), rest: drain(buf).rest }),
    decreases buf.len(),
{
    let scan = scan_frame(buf);
    lemma_scan_consumes(buf);
    match scan.step {
        FrameStep::Incomplete => {
            lemma_find_byte(buf, FRAME_START, 0);
            match find_byte(buf, FRAME_START, 0) {
                None => {},
                Some(start) => {
                    let kept = buf.skip(start);
                    lemma_find_byte_skip(buf, FRAME_END, start, 1);
                    assert(kept.skip(0) =~= kept);
                },
            }
        },
        _ => {
            lemma_drain_settles(scan.rest);
        },
    }
}

/// Streaming robustness: however a byte stream is cut into reads, feeding
/// the reads one by one into a buffer yields the same payloads in the same
/// order, and leaves the same bytes behind, as feeding the whole stream at once.
pub proof fn lemma_feed_is_drain_of_join(buf: Seq<u8>, chunks: Seq<Seq<u8>>)
    requires
        chunks.len() > 0,
    ensures
        feed(buf, chunks) == drain(buf + join(chunks)),
    decreases chunks.len(),
{
    let first = drain(buf + chunks[0]);
    let others = chunks.skip(1);
    assert(buf + join(chunks) =~= (buf + chunks[0]) + join(others));
    lemma_drain_append(buf + chunks[0], join(others));
    if others.len() > 0 {
        lemma_feed_is_drain_of_join(first.rest, others);
    }
    assert(feed(buf, chunks).rest == feed(first.rest, others).rest);
}

/// Streaming robustness for two ways of cutting: two lists of reads that
/// carry the same bytes yield the same payloads in the same order.
pub proof fn lemma_chunking_does_not_matter(
    buf: Seq<u8>,
    chunks_a: Seq<Seq<u8>>,
    chunks_b: Seq<Seq<u8>>,
)
    requires
        chunks_a.len() > 0,
        chunks_b.len() > 0,
        join(chunks_a) == join(chunks_b),
    ensures
        feed(buf, chunks_a) == feed(buf, chunks_b),
{
    lemma_feed_is_drain_of_join(buf, chunks_a);
    lemma_feed_is_drain_of_join(buf, chunks_b);
}

/// The wire form of a list of payloads: their frames, one after the other.
pub open spec fn encode_frames(payloads: Seq<Seq<u8>>) -> Seq<u8>
    decreases payloads.len(),
{
    if payloads.len() == 0 {
        Seq::empty()
    } else {
        encode_frame(payloads[0]) + encode_frames(payloads.skip(1))
    }
}

/// Draining the frames of a list of payloads gives the payloads back, in
/// order, and leaves nothing behind.
pub proof fn lemma_drain_encoded_frames(payloads: Seq<Seq<u8>>)
    ensures
        drain(encode_frames(payloads)) == (Drained { frames: payloads, rest: Seq::empty() }),
    decreases payloads.len(),
{
    if payloads.len() == 0 {
        assert(find_byte(Seq::<u8>::empty(), FRAME_START, 0) is None);
        assert(payloads =~= Seq::<Seq<u8>>::empty());
    } else {
        let others = payloads.skip(1);
        lemma_drain_encoded(payloads[0], encode_frames(others));
        lemma_drain_encoded_frames(others);
        assert(seq![payloads[0]] + others =~= payloads);
    }
}

/// Streaming robustness, from end to end: cut the frames of a list of
/// payloads into reads wherever you like, inside a frame or between an
/// `ESCAPE` and the byte behind it, and feed the reads one by one into an
/// empty buffer. What comes out are the payloads, in order, and the buffer
/// is empty at the end.
pub proof fn lemma_stream_of_frames(payloads: Seq<Seq<u8>>, chunks: Seq<Seq<u8>>)
    requires
        join(chunks) == encode_frames(payloads),
    ensures
        feed(Seq::empty(), chunks) == (Drained { frames: payloads, rest: Seq::empty() }),
{
    lemma_drain_encoded_frames(payloads);
    if chunks.len() > 0 {
        lemma_feed_is_drain_of_join(Seq::empty(), chunks);
        assert(Seq::<u8>::empty() + join(chunks) =~= join(chunks));
    } else {
        if payloads.len() > 0 {
            assert(encode_frames(payloads).len() > 0);
        }
        assert(payloads =~= Seq::<Seq<u8>>::empty());
    }
}

} // verus!
