use vstd::prelude::*;

verus! {

/// The eight condition flags of the processor.
#[derive(Clone, Copy, Debug, PartialEq, Eq, Structural)]
pub struct Flags {
    pub carry: bool,
    pub zero: bool,
    pub interrupt_disable: bool,
    pub decimal: bool,
    pub brk: bool,
    pub unused: bool,
    pub overflow: bool,
    pub sign: bool,
}

/// `mask` when `b` holds, zero otherwise.
pub open spec fn bit_if(b: bool, mask: u8) -> u8 {
    if b {
        mask
    } else {
        0
    }
}

/// The packed status byte, least significant bit first:
/// C, Z, I, D, B, unused, V, N.
pub open spec fn status_byte(f: Flags) -> u8 {
    bit_if(f.carry, 0x01) | bit_if(f.zero, 0x02) | bit_if(f.interrupt_disable, 0x04) | bit_if(
        f.decimal,
        0x08,
    ) | bit_if(f.brk, 0x10) | bit_if(f.unused, 0x20) | bit_if(f.overflow, 0x40) | bit_if(
        f.sign,
        0x80,
    )
}

/// The flags unpacked from a status byte; the unused flag is always set.
pub open spec fn flags_of_byte(v: u8) -> Flags {
    Flags {
        carry: v & 0x01 != 0,
        zero: v & 0x02 != 0,
        interrupt_disable: v & 0x04 != 0,
        decimal: v & 0x08 != 0,
        brk: v & 0x10 != 0,
        unused: true,
        overflow: v & 0x40 != 0,
        sign: v & 0x80 != 0,
    }
}

fn bit_if_exec(b: bool, mask: u8) -> (r: u8)
    ensures
        r == bit_if(b, mask),
{
    if b {
        mask
    } else {
        0
    }
}

impl Flags {
    /// Packs the flags into the status byte.
    pub fn to_byte(&self) -> (r: u8)
        ensures
            r == status_byte(*self),
    {
        bit_if_exec(self.carry, 0x01) | bit_if_exec(self.zero, 0x02) | bit_if_exec(
            self.interrupt_disable,
            0x04,
        ) | bit_if_exec(self.decimal, 0x08) | bit_if_exec(self.brk, 0x10) | bit_if_exec(
            self.unused,
            0x20,
        ) | bit_if_exec(self.overflow, 0x40) | bit_if_exec(self.sign, 0x80)
    }

    /// Unpacks a status byte; the unused flag is forced on.
    pub fn from_byte(v: u8) -> (r: Flags)
        ensures
            r == flags_of_byte(v),
    {
        Flags {
            carry: v & 0x01 != 0,
            zero: v & 0x02 != 0,
            interrupt_disable: v & 0x04 != 0,
            decimal: v & 0x08 != 0,
            brk: v & 0x10 != 0,
            unused: true,
            overflow: v & 0x40 != 0,
            sign: v & 0x80 != 0,
        }
    }
}

/// Packing the flags unpacked from `v` gives `v` back, with the unused bit set.
pub proof fn lemma_status_round_trip(v: u8)
    ensures
        status_byte(flags_of_byte(v)) == v | 0x20,
{
    let f = flags_of_byte(v);
    assert(bit_if(v & 0x01 != 0, 0x01) | bit_if(v & 0x02 != 0, 0x02) | bit_if(v & 0x04 != 0, 0x04)
        | bit_if(v & 0x08 != 0, 0x08) | bit_if(v & 0x10 != 0, 0x10) | bit_if(true, 0x20) | bit_if(
        v & 0x40 != 0,
        0x40,
    ) | bit_if(v & 0x80 != 0, 0x80) == v | 0x20) by (bit_vector);
}

proof fn lemma_packed_bits(c: bool, z: bool, i: bool, d: bool, b: bool, v: bool, n: bool)
    by (bit_vector)
    ensures
        ({
            let s = bit_if(c, 0x01) | bit_if(z, 0x02) | bit_if(i, 0x04) | bit_if(d, 0x08) | bit_if(
                b,
                0x10,
            ) | bit_if(true, 0x20) | bit_if(v, 0x40) | bit_if(n, 0x80);
            &&& (s & 0x01 != 0) == c
            &&& (s & 0x02 != 0) == z
            &&& (s & 0x04 != 0) == i
            &&& (s & 0x08 != 0) == d
            &&& (s & 0x10 != 0) == b
            &&& (s & 0x40 != 0) == v
            &&& (s & 0x80 != 0) == n
        }),
{
}

/// Unpacking a packed status gives the flags back whenever the unused flag is set.
pub proof fn lemma_flags_round_trip(f: Flags)
    requires
        f.unused,
    ensures
        flags_of_byte(status_byte(f)) == f,
{
    lemma_packed_bits(f.carry, f.zero, f.interrupt_disable, f.decimal, f.brk, f.overflow, f.sign);
}

} // verus!
