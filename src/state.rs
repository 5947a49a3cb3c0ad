use vstd::prelude::*;
use crate::flags::Flags;

verus! {

/// Bytes in the flat address space.
pub const MEMORY_SIZE: usize = 0x10000;

/// First address of the stack page.
pub const STACK_PAGE: usize = 0x100;

/// Address of the two-byte vector that `BRK` jumps through.
pub const BREAK_VECTOR: usize = 0xFFFE;

/// The operand of one instruction, as resolved from its addressing mode.
/// `Immediate` and `Implied` are read-only: a store to them changes nothing.
#[derive(Clone, Copy, Debug, PartialEq, Eq, Structural)]
pub enum Operand {
    Immediate(u8),
    Memory(usize),
    Accumulator,
    RegisterX,
    RegisterY,
    Implied,
}

/// The mathematical picture of the processor: registers, flags and memory.
pub struct CpuState {
    pub a: u8,
    pub x: u8,
    pub y: u8,
    pub sp: u8,
    pub pc: int,
    pub cycles: u16,
    pub mem: Seq<u8>,
    pub flags: Flags,
}

/// A full address space, a program counter inside it, and the unused flag set.
pub open spec fn valid_state(s: CpuState) -> bool {
    &&& s.mem.len() == MEMORY_SIZE
    &&& 0 <= s.pc < MEMORY_SIZE
    &&& s.flags.unused
}

/// A memory operand names an address inside the address space.
pub open spec fn operand_in_range(op: Operand) -> bool {
    match op {
        Operand::Memory(addr) => addr < MEMORY_SIZE,
        _ => true,
    }
}

/// `n` reduced modulo 256.
pub open spec fn wrap8(n: int) -> u8 {
    (n % 256) as u8
}

/// `n` reduced modulo the size of the address space.
pub open spec fn wrap16(n: int) -> int {
    n % (MEMORY_SIZE as int)
}

/// Bit 7 of `v`.
pub open spec fn is_negative(v: u8) -> bool {
    v >= 0x80
}

/// `d` read as a two's-complement displacement.
pub open spec fn signed(d: u8) -> int {
    if d >= 0x80 {
        d - 256
    } else {
        d as int
    }
}

/// A 16-bit address from its high and low bytes.
pub open spec fn word(hi: u8, lo: u8) -> int {
    hi * 256 + lo
}

pub open spec fn high_byte(w: int) -> u8 {
    wrap8(w / 256)
}

pub open spec fn low_byte(w: int) -> u8 {
    wrap8(w)
}

/// The address stored at `addr`, high byte first.
pub open spec fn read_word(s: CpuState, addr: int) -> int {
    word(s.mem[addr], s.mem[wrap16(addr + 1)])
}

/// The byte an operand reads.
pub open spec fn value_of(s: CpuState, op: Operand) -> u8 {
    match op {
        Operand::Immediate(v) => v,
        Operand::Memory(addr) => s.mem[addr as int],
        Operand::Accumulator => s.a,
        Operand::RegisterX => s.x,
        Operand::RegisterY => s.y,
        Operand::Implied => 0,
    }
}

/// The state after writing `v` to an operand; read-only operands are left alone.
pub open spec fn store(s: CpuState, op: Operand, v: u8) -> CpuState {
    match op {
        Operand::Memory(addr) => CpuState { mem: s.mem.update(addr as int, v), ..s },
        Operand::Accumulator => CpuState { a: v, ..s },
        Operand::RegisterX => CpuState { x: v, ..s },
        Operand::RegisterY => CpuState { y: v, ..s },
        _ => s,
    }
}

pub open spec fn with_flags(s: CpuState, f: Flags) -> CpuState {
    CpuState { flags: f, ..s }
}

/// N and Z set from `v`.
pub open spec fn with_nz(s: CpuState, v: u8) -> CpuState {
    with_flags(s, Flags { sign: is_negative(v), zero: v == 0, ..s.flags })
}

pub open spec fn with_carry(s: CpuState, c: bool) -> CpuState {
    with_flags(s, Flags { carry: c, ..s.flags })
}

pub open spec fn with_pc(s: CpuState, pc: int) -> CpuState {
    CpuState { pc: pc, ..s }
}

/// Push: write at the stack pointer inside page one, then move it up.
pub open spec fn push_state(s: CpuState, v: u8) -> CpuState {
    CpuState { mem: s.mem.update(STACK_PAGE + s.sp, v), sp: wrap8(s.sp + 1), ..s }
}

/// The byte a pull returns: the one just below the stack pointer.
pub open spec fn top_byte(s: CpuState) -> u8 {
    s.mem[STACK_PAGE + wrap8(s.sp - 1)]
}

/// Pull: move the stack pointer down.
pub open spec fn pull_state(s: CpuState) -> CpuState {
    CpuState { sp: wrap8(s.sp - 1), ..s }
}

} // verus!
