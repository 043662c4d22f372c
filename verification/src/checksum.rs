//! The frame checksum: CRC-16/IBM-3740, computed by the `crc` crate, and
//! what holds of it.

use vstd::prelude::*;

verus! {

/// One shift of the checksum register: one bit to the left, and the
/// polynomial 0x1021 xor-ed in where a one left the register.
pub open spec fn crc_shift(value: u16) -> u16 {
    if (value >> 15u16) & 1u16 == 1u16 {
        (value << 1u16) ^ 0x1021u16
    } else {
        value << 1u16
    }
}

/// Eight shifts of the register.
pub open spec fn crc_shift8(value: u16) -> u16 {
    crc_shift(
        crc_shift(crc_shift(crc_shift(crc_shift(crc_shift(crc_shift(crc_shift(value))))))),
    )
}

/// The entry of the lookup table at an index below 256: the index, put
/// into the high byte of the register and shifted eight times.
pub open spec fn crc_table(index: u16) -> u16 {
    crc_shift8(index << 8u16)
}

/// The register after one more byte: the table entry at the high byte of
/// the register xor-ed with the byte, xor-ed with the register moved up by
/// one byte.
pub open spec fn crc_step(register: u16, byte: u8) -> u16 {
    crc_table(((register >> 8u16) ^ (byte as u16)) & 0xFFu16) ^ (register << 8u16)
}

/// The register after the bytes of `data`, one after the other.
pub open spec fn crc_from(register: u16, data: Seq<u8>) -> u16
    decreases data.len(),
{
    if data.len() == 0 {
        register
    } else {
        crc_step(crc_from(register, data.drop_last()), data.last())
    }
}

/// The CRC-16/IBM-3740 checksum of a byte sequence: polynomial 0x1021,
/// register 0xFFFF at the beginning, no reflection, no final xor.
pub open spec fn crc16(data: Seq<u8>) -> u16 {
    crc_from(0xFFFFu16, data)
}

/// Calls `crc::Crc::<u16>::checksum` with the `CRC_16_IBM_3740` parameters.
/// Trusted: the result is the checksum of the bytes handed in, as `crc16`
/// states it. The `crc` crate fills its table of 256 entries by eight
/// shifts each and takes one entry per byte, as `crc_table` and `crc_step`
/// say; with these parameters it neither reflects nor xors at the end.
#[verifier::external_body]
pub(crate) fn checksum(data: &[u8]) -> (c: u16)
    ensures
        c == crc16(data@),
{
    crc::Crc::<u16>::new(&crc::CRC_16_IBM_3740).checksum(data)
}

/// A shift of the xor of two registers is the xor of their shifts.
proof fn lemma_shift_linear(a: u16, b: u16)
    ensures
        crc_shift(a ^ b) == crc_shift(a) ^ crc_shift(b),
{
    let ra = crc_shift(a);
    let rb = crc_shift(b);
    let rab = crc_shift(a ^ b);
    assert(rab == ra ^ rb) by (bit_vector)
        requires
            ra == (if (a >> 15u16) & 1u16 == 1u16 {
                (a << 1u16) ^ 0x1021u16
            } else {
                a << 1u16
            }),
            rb == (if (b >> 15u16) & 1u16 == 1u16 {
                (b << 1u16) ^ 0x1021u16
            } else {
                b << 1u16
            }),
            rab == (if ((a ^ b) >> 15u16) & 1u16 == 1u16 {
                ((a ^ b) << 1u16) ^ 0x1021u16
            } else {
                (a ^ b) << 1u16
            }),
    ;
}

/// A shift gives zero for the zero register only.
proof fn lemma_shift_zero(a: u16)
    ensures
        crc_shift(a) == 0 <==> a == 0,
{
    let ra = crc_shift(a);
    assert(ra == 0 <==> a == 0) by (bit_vector)
        requires
            ra == (if (a >> 15u16) & 1u16 == 1u16 {
                (a << 1u16) ^ 0x1021u16
            } else {
                a << 1u16
            }),
    ;
}

/// A shift of a register with room at the top only moves the bits.
proof fn lemma_shift_low(a: u16, k: u16)
    requires
        k < 8,
        a < (0x100u16 << k),
    ensures
        crc_shift(a) == a << 1u16,
        k < 7 ==> crc_shift(a) < (0x100u16 << ((k + 1) as u16)),
{
    let ra = crc_shift(a);
    let k1 = (k + 1) as u16;
    assert(ra == a << 1u16 && (k < 7 ==> ra < (0x100u16 << k1))) by (bit_vector)
        requires
            k < 8,
            k1 == k + 1,
            a < (0x100u16 << k),
            ra == (if (a >> 15u16) & 1u16 == 1u16 {
                (a << 1u16) ^ 0x1021u16
            } else {
                a << 1u16
            }),
    ;
}

/// Eight shifts of the xor of two registers are the xor of their eight shifts.
proof fn lemma_shift8_linear(a: u16, b: u16)
    ensures
        crc_shift8(a ^ b) == crc_shift8(a) ^ crc_shift8(b),
{
    let a1 = crc_shift(a);
    let b1 = crc_shift(b);
    lemma_shift_linear(a, b);
    let a2 = crc_shift(a1);
    let b2 = crc_shift(b1);
    lemma_shift_linear(a1, b1);
    let a3 = crc_shift(a2);
    let b3 = crc_shift(b2);
    lemma_shift_linear(a2, b2);
    let a4 = crc_shift(a3);
    let b4 = crc_shift(b3);
    lemma_shift_linear(a3, b3);
    let a5 = crc_shift(a4);
    let b5 = crc_shift(b4);
    lemma_shift_linear(a4, b4);
    let a6 = crc_shift(a5);
    let b6 = crc_shift(b5);
    lemma_shift_linear(a5, b5);
    let a7 = crc_shift(a6);
    let b7 = crc_shift(b6);
    lemma_shift_linear(a6, b6);
    lemma_shift_linear(a7, b7);
}

/// Eight shifts give zero for the zero register only.
proof fn lemma_shift8_zero(a: u16)
    ensures
        crc_shift8(a) == 0 <==> a == 0,
{
    let a1 = crc_shift(a);
    lemma_shift_zero(a);
    let a2 = crc_shift(a1);
    lemma_shift_zero(a1);
    let a3 = crc_shift(a2);
    lemma_shift_zero(a2);
    let a4 = crc_shift(a3);
    lemma_shift_zero(a3);
    let a5 = crc_shift(a4);
    lemma_shift_zero(a4);
    let a6 = crc_shift(a5);
    lemma_shift_zero(a5);
    let a7 = crc_shift(a6);
    lemma_shift_zero(a6);
    lemma_shift_zero(a7);
}

/// Eight shifts of a register whose high byte is empty move its low byte up.
proof fn lemma_shift8_low(a: u16)
    requires
        a < 0x100,
    ensures
        crc_shift8(a) == a << 8u16,
{
    assert(a < (0x100u16 << 0u16)) by (bit_vector)
        requires
            a < 0x100,
    ;
    let a1 = crc_shift(a);
    lemma_shift_low(a, 0);
    let a2 = crc_shift(a1);
    lemma_shift_low(a1, 1);
    let a3 = crc_shift(a2);
    lemma_shift_low(a2, 2);
    let a4 = crc_shift(a3);
    lemma_shift_low(a3, 3);
    let a5 = crc_shift(a4);
    lemma_shift_low(a4, 4);
    let a6 = crc_shift(a5);
    lemma_shift_low(a5, 5);
    let a7 = crc_shift(a6);
    lemma_shift_low(a6, 6);
    let a8 = crc_shift(a7);
    lemma_shift_low(a7, 7);
    assert(a8 == a << 8u16) by (bit_vector)
        requires
            a1 == a << 1u16,
            a2 == a1 << 1u16,
            a3 == a2 << 1u16,
            a4 == a3 << 1u16,
            a5 == a4 << 1u16,
            a6 == a5 << 1u16,
            a7 == a6 << 1u16,
            a8 == a7 << 1u16,
    ;
}

/// From one register, two different bytes lead to two different registers.
pub proof fn lemma_step_tells_bytes_apart(register: u16, x: u8, y: u8)
    requires
        x != y,
    ensures
        crc_step(register, x) != crc_step(register, y),
{
    let ix = ((register >> 8u16) ^ (x as u16)) & 0xFFu16;
    let iy = ((register >> 8u16) ^ (y as u16)) & 0xFFu16;
    let ax = ix << 8u16;
    let ay = iy << 8u16;
    assert(ax ^ ay != 0) by (bit_vector)
        requires
            x != y,
            ax == (((register >> 8u16) ^ (x as u16)) & 0xFFu16) << 8u16,
            ay == (((register >> 8u16) ^ (y as u16)) & 0xFFu16) << 8u16,
    ;
    lemma_shift8_linear(ax, ay);
    lemma_shift8_zero(ax ^ ay);
    let tx = crc_shift8(ax);
    let ty = crc_shift8(ay);
    let up = register << 8u16;
    assert(tx ^ up != ty ^ up) by (bit_vector)
        requires
            tx ^ ty != 0,
    ;
}

/// With one byte, two different registers lead to two different registers.
pub proof fn lemma_step_tells_registers_apart(first: u16, second: u16, byte: u8)
    requires
        first != second,
    ensures
        crc_step(first, byte) != crc_step(second, byte),
{
    let d = first ^ second;
    let a1 = (((first >> 8u16) ^ (byte as u16)) & 0xFFu16) << 8u16;
    let a2 = (((second >> 8u16) ^ (byte as u16)) & 0xFFu16) << 8u16;
    let up1 = first << 8u16;
    let up2 = second << 8u16;
    let high = d & 0xFF00u16;
    let low = d & 0xFFu16;
    assert(a1 ^ a2 == high && up1 ^ up2 == low << 8u16 && high ^ low == d && d != 0 && low
        < 0x100) by (bit_vector)
        requires
            first != second,
            d == first ^ second,
            a1 == (((first >> 8u16) ^ (byte as u16)) & 0xFFu16) << 8u16,
            a2 == (((second >> 8u16) ^ (byte as u16)) & 0xFFu16) << 8u16,
            up1 == first << 8u16,
            up2 == second << 8u16,
            high == d & 0xFF00u16,
            low == d & 0xFFu16,
    ;
    lemma_shift8_linear(a1, a2);
    lemma_shift8_low(low);
    lemma_shift8_linear(high, low);
    lemma_shift8_zero(d);
    let t1 = crc_shift8(a1);
    let t2 = crc_shift8(a2);
    let th = crc_shift8(high);
    let tl = crc_shift8(low);
    let td = crc_shift8(d);
    assert(t1 ^ up1 != t2 ^ up2) by (bit_vector)
        requires
            t1 ^ t2 == th,
            up1 ^ up2 == tl,
            td == th ^ tl,
            td != 0,
    ;
}

/// Two byte sequences that differ in exactly one byte leave different
/// registers behind, whatever the register was at the beginning.
pub proof fn lemma_register_tells_one_byte_apart(register: u16, data: Seq<u8>, i: int, byte: u8)
    requires
        0 <= i < data.len(),
        byte != data[i],
    ensures
        crc_from(register, data.update(i, byte)) != crc_from(register, data),
    decreases data.len(),
{
    let changed = data.update(i, byte);
    if i == data.len() - 1 {
        assert(changed.drop_last() =~= data.drop_last());
        lemma_step_tells_bytes_apart(crc_from(register, data.drop_last()), byte, data[i]);
    } else {
        assert(changed.drop_last() =~= data.drop_last().update(i, byte));
        lemma_register_tells_one_byte_apart(register, data.drop_last(), i, byte);
        lemma_step_tells_registers_apart(
            crc_from(register, changed.drop_last()),
            crc_from(register, data.drop_last()),
            data.last(),
        );
    }
}

/// The checksum tells apart any two byte sequences that differ in exactly
/// one byte, and so any two that differ in one bit.
pub proof fn lemma_checksum_tells_one_byte_apart(data: Seq<u8>, i: int, byte: u8)
    requires
        0 <= i < data.len(),
        byte != data[i],
    ensures
        crc16(data.update(i, byte)) != crc16(data),
{
    lemma_register_tells_one_byte_apart(0xFFFFu16, data, i, byte);
}

} // verus!
