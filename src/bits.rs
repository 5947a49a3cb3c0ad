use vstd::prelude::*;

verus! {

/// Shifting a byte left by one doubles it modulo 256; the carried-in bit
/// fills bit 0.
pub proof fn lemma_shift_left(m: u8, c: u8)
    by (bit_vector)
    requires
        c <= 1,
    ensures
        m << 1u8 == ((m as int * 2) % 256) as u8,
        (m << 1u8) | c == ((m as int * 2 + c) % 256) as u8,
{
}

/// Shifting a byte right by one halves it; the carried-in bit fills bit 7.
pub proof fn lemma_shift_right(m: u8, c: u8)
    by (bit_vector)
    requires
        c == 0 || c == 0x80,
    ensures
        m >> 1u8 == m / 2,
        (m >> 1u8) | c == (m / 2 + c) as u8,
        (m & 1 != 0) == (m % 2 == 1),
{
}

/// Bits 3 to 5 and bit 0 of an opcode.
pub proof fn lemma_opcode_fields(op: u8)
    by (bit_vector)
    ensures
        (op >> 3u8) & 7 == (op / 8) % 8,
        (op & 1 == 0) == (op % 2 == 0),
{
}

/// Joining two bytes, the first as the high one.
pub proof fn lemma_join_bytes(hi: usize, lo: usize)
    by (bit_vector)
    requires
        hi < 256,
        lo < 256,
    ensures
        (hi << 8usize) | lo == hi * 256 + lo,
{
}

/// Masking to the low eight bits.
pub proof fn lemma_low_bits(w: usize)
    by (bit_vector)
    ensures
        w & 255 == w % 256,
{
}

} // verus!
