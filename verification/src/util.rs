use vstd::prelude::*;
use crate::bits::{lemma_byte_bits, lemma_set_bit, shift_factor};

verus! {

/// Bit `i` of a delta-modulation stream: the encoded bits, then padding.
pub open spec fn dm_stream_bit(bits: Seq<bool>, pad: bool, i: int) -> bool {
    if i < bits.len() {
        bits[i]
    } else {
        pad
    }
}

/// Bit `i` of the stream as a number, 0 or 1.
pub open spec fn dm_bit_value(bits: Seq<bool>, pad: bool, i: int) -> int {
    if dm_stream_bit(bits, pad, i) {
        1
    } else {
        0
    }
}

/// The value of the first `c` bits of byte `k` of the packed stream, bit
/// `8 * k` being the least significant.
pub open spec fn dm_partial(bits: Seq<bool>, pad: bool, k: int, c: nat) -> int
    decreases c,
{
    if c == 0 {
        0
    } else {
        dm_partial(bits, pad, k, (c - 1) as nat) + dm_bit_value(bits, pad, 8 * k + c - 1)
            * shift_factor((c - 1) as u8)
    }
}

/// Byte `k` of the packed stream: stream bits `8 * k` to `8 * k + 7`, the
/// first in the least significant bit.
pub open spec fn dm_byte(bits: Seq<bool>, pad: bool, k: int) -> u8 {
    dm_partial(bits, pad, k, 8) as u8
}

/// The byte value as the plain sum of its eight weighted bits.
proof fn lemma_dm_byte_sum(bits: Seq<bool>, pad: bool, k: int)
    ensures
        dm_partial(bits, pad, k, 8) == dm_bit_value(bits, pad, 8 * k) + 2 * dm_bit_value(
            bits,
            pad,
            8 * k + 1,
        ) + 4 * dm_bit_value(bits, pad, 8 * k + 2) + 8 * dm_bit_value(bits, pad, 8 * k + 3) + 16
            * dm_bit_value(bits, pad, 8 * k + 4) + 32 * dm_bit_value(bits, pad, 8 * k + 5) + 64
            * dm_bit_value(bits, pad, 8 * k + 6) + 128 * dm_bit_value(bits, pad, 8 * k + 7),
{
    let v = |i: int| dm_bit_value(bits, pad, 8 * k + i);
    assert(dm_partial(bits, pad, k, 0) == 0);
    assert(dm_partial(bits, pad, k, 1) == v(0));
    assert(dm_partial(bits, pad, k, 2) == dm_partial(bits, pad, k, 1) + v(1) * 2);
    assert(dm_partial(bits, pad, k, 3) == dm_partial(bits, pad, k, 2) + v(2) * 4);
    assert(dm_partial(bits, pad, k, 4) == dm_partial(bits, pad, k, 3) + v(3) * 8);
    assert(dm_partial(bits, pad, k, 5) == dm_partial(bits, pad, k, 4) + v(4) * 16);
    assert(dm_partial(bits, pad, k, 6) == dm_partial(bits, pad, k, 5) + v(5) * 32);
    assert(dm_partial(bits, pad, k, 7) == dm_partial(bits, pad, k, 6) + v(6) * 64);
    assert(dm_partial(bits, pad, k, 8) == dm_partial(bits, pad, k, 7) + v(7) * 128);
}

/// Law: the delta-modulation channel, which plays each byte from its least
/// significant bit up, plays back exactly the packed stream: bit `j` of byte
/// `k` is stream bit `8 * k + j`.
pub proof fn lemma_dm_byte_bits(bits: Seq<bool>, pad: bool, k: int, j: u8)
    requires
        j < 8,
    ensures
        ((dm_byte(bits, pad, k) as int / shift_factor(j) as int) % 2 == 1) == dm_stream_bit(bits, pad, 8 * k + j),
{
    lemma_dm_byte_sum(bits, pad, k);
    let b0 = dm_bit_value(bits, pad, 8 * k) as u8;
    let b1 = dm_bit_value(bits, pad, 8 * k + 1) as u8;
    let b2 = dm_bit_value(bits, pad, 8 * k + 2) as u8;
    let b3 = dm_bit_value(bits, pad, 8 * k + 3) as u8;
    let b4 = dm_bit_value(bits, pad, 8 * k + 4) as u8;
    let b5 = dm_bit_value(bits, pad, 8 * k + 5) as u8;
    let b6 = dm_bit_value(bits, pad, 8 * k + 6) as u8;
    let b7 = dm_bit_value(bits, pad, 8 * k + 7) as u8;
    lemma_byte_bits(b0, b1, b2, b3, b4, b5, b6, b7);
    let v = b0 + 2 * b1 + 4 * b2 + 8 * b3 + 16 * b4 + 32 * b5 + 64 * b6 + 128 * b7;
    assert(dm_partial(bits, pad, k, 8) == v);
    assert(dm_byte(bits, pad, k) as int == v);
    if j == 0 {
        assert(shift_factor(j) == 1);
    } else if j == 1 {
        assert(shift_factor(j) == 2);
    } else if j == 2 {
        assert(shift_factor(j) == 4);
    } else if j == 3 {
        assert(shift_factor(j) == 8);
    } else if j == 4 {
        assert(shift_factor(j) == 16);
    } else if j == 5 {
        assert(shift_factor(j) == 32);
    } else if j == 6 {
        assert(shift_factor(j) == 64);
    } else {
        assert(shift_factor(j) == 128);
    }
}

/// Packs the bits of a delta-modulation encoding into sample bytes, eight
/// bits to a byte, least significant bit first, and fills the last byte
/// with `pad`. The last byte is always written, so a stream whose length is
/// a multiple of 8 gains a full byte of padding.
pub fn pack_dm_bits(bits: &Vec<bool>, pad: bool) -> (out: Vec<u8>)
    ensures
        out.len() == bits.len() / 8 + 1,
        forall|k: int| 0 <= k < out.len() ==> #[trigger] out@[k] == dm_byte(bits@, pad, k),
{
    let mut out: Vec<u8> = Vec::new();
    let mut bit_count: u8 = 0;
    let mut code: u8 = 0;
    let mut i: usize = 0;
    while i < bits.len()
        invariant
            bit_count < 8,
            i <= bits.len(),
            i == out.len() * 8 + bit_count,
            code < shift_factor(bit_count),
            code == dm_partial(bits@, pad, out.len() as int, bit_count as nat),
            forall|k: int| 0 <= k < out.len() ==> #[trigger] out@[k] == dm_byte(bits@, pad, k),
        decreases bits.len() - i,
    {
        let bit: u8 = if bits[i] {
            1
        } else {
            0
        };
        proof {
            lemma_set_bit(code, bit, bit_count);
        }
        code |= bit << bit_count;
        bit_count += 1;
        if bit_count == 8 {
            bit_count = 0;
            out.push(code);
            code = 0;
        }
        i += 1;
    }
    while bit_count < 8
        invariant
            bit_count <= 8,
            out.len() * 8 + bit_count >= bits.len(),
            out.len() == bits.len() / 8,
            code < shift_factor(bit_count),
            code == dm_partial(bits@, pad, out.len() as int, bit_count as nat),
            forall|k: int| 0 <= k < out.len() ==> #[trigger] out@[k] == dm_byte(bits@, pad, k),
        decreases 8 - bit_count,
    {
        let bit: u8 = if pad {
            1
        } else {
            0
        };
        proof {
            lemma_set_bit(code, bit, bit_count);
        }
        code |= bit << bit_count;
        bit_count += 1;
    }
    out.push(code);
    out
}

} // verus!
