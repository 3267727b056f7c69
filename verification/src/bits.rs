use vstd::prelude::*;

verus! {

/// `2` to the power `n`, for `n` from 0 to 8.
pub open spec fn shift_factor(n: u8) -> u16 {
    if n == 0 {
        1
    } else if n == 1 {
        2
    } else if n == 2 {
        4
    } else if n == 3 {
        8
    } else if n == 4 {
        16
    } else if n == 5 {
        32
    } else if n == 6 {
        64
    } else if n == 7 {
        128
    } else {
        256
    }
}

/// The register fields the APU reads from a written byte, as masks and
/// shifts and as the arithmetic they amount to.
pub proof fn lemma_byte_fields(byte: u8)
    by (bit_vector)
    ensures
        (byte & 0x80 > 0) == (byte >= 0x80),
        (byte & 0x40 > 0) == ((byte / 0x40) % 2 == 1),
        (byte & 0x20 > 0) == ((byte / 0x20) % 2 == 1),
        (byte & 0x10 > 0) == ((byte / 0x10) % 2 == 1),
        (byte & 0x08 > 0) == ((byte / 0x08) % 2 == 1),
        (byte & 0x04 > 0) == ((byte / 0x04) % 2 == 1),
        (byte & 0x02 > 0) == ((byte / 0x02) % 2 == 1),
        (byte & 0x01 > 0) == (byte % 2 == 1),
        (byte & 0x01 == 1) == (byte % 2 == 1),
        (byte & 0x01 == 0) == (byte % 2 == 0),
        byte & 0x7F == byte % 0x80,
        byte & 0x0F == byte % 0x10,
        byte & 0x07 == byte % 0x08,
        byte >> 6 == byte / 0x40,
        byte >> 3 == byte / 0x08,
        byte >> 1 == byte / 0x02,
        (byte & 0x70) >> 4 == (byte / 0x10) % 0x08,
{
}

/// Replacing the low byte, or the high three bits, of an 11-bit period.
pub proof fn lemma_period_fields(period: u16, byte: u8)
    by (bit_vector)
    ensures
        (period & 0xFF00) + (byte as u16) == (period / 0x100) * 0x100 + byte,
        (period & 0x00FF) + (((byte & 0x07) as u16) << 8) == period % 0x100 + (byte % 0x08) * 0x100,
{
}

/// Shifting right by `n` divides by `2` to the power `n`.
pub proof fn lemma_shift_right(value: u16, n: u8)
    by (bit_vector)
    requires
        n < 8,
    ensures
        value >> n == value / shift_factor(n),
{
}

/// Multiplying a byte by 64 or 16 as a 16-bit shift.
pub proof fn lemma_byte_scaled(byte: u8)
    by (bit_vector)
    ensures
        ((byte as u16) << 6) == 64 * byte,
        ((byte as u16) << 4) == 16 * byte,
{
}

/// Setting bit `c` of a byte whose bits from `c` on are clear is adding
/// `2` to the power `c`.
pub proof fn lemma_set_bit(code: u8, bit: u8, c: u8)
    by (bit_vector)
    requires
        c < 8,
        bit <= 1,
        code < shift_factor(c),
    ensures
        code | (bit << c) == code + bit * shift_factor(c),
        code + bit * shift_factor(c) < shift_factor((c + 1) as u8),
{
}

/// The eight bits of a byte built from eight bit values, least significant
/// first, read back one by one.
pub proof fn lemma_byte_bits(b0: u8, b1: u8, b2: u8, b3: u8, b4: u8, b5: u8, b6: u8, b7: u8)
    by (bit_vector)
    requires
        b0 <= 1,
        b1 <= 1,
        b2 <= 1,
        b3 <= 1,
        b4 <= 1,
        b5 <= 1,
        b6 <= 1,
        b7 <= 1,
    ensures
        ({
            let v = b0 + 2 * b1 + 4 * b2 + 8 * b3 + 16 * b4 + 32 * b5 + 64 * b6 + 128 * b7;
            &&& v % 2 == b0
            &&& (v / 2) % 2 == b1
            &&& (v / 4) % 2 == b2
            &&& (v / 8) % 2 == b3
            &&& (v / 16) % 2 == b4
            &&& (v / 32) % 2 == b5
            &&& (v / 64) % 2 == b6
            &&& (v / 128) % 2 == b7
            &&& v <= 255
        }),
{
}

} // verus!
