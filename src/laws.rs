use vstd::prelude::*;
use crate::decode::decode_spec;
use crate::flags::{Flags, lemma_flags_round_trip};
use crate::semantics::{
    asl_state, brk_state, execute_state, jsr_state, lsr_state, ror_state, rti_state, rts_state,
    step_state,
};
use crate::state::{
    CpuState, MEMORY_SIZE, Operand, high_byte, low_byte, signed, valid_state, word,
    wrap16, wrap8,
};

verus! {

/// A 16-bit address split into its two bytes and joined again is unchanged.
proof fn lemma_split_join(w: int)
    requires
        0 <= w < MEMORY_SIZE,
    ensures
        word(high_byte(w), low_byte(w)) == w,
{
    assert(w / 256 < 256);
    assert(wrap8(w / 256) == w / 256);
    assert(wrap8(w) == w % 256);
    assert((w / 256) * 256 + w % 256 == w);
}

/// Three consecutive stack slots are distinct addresses of page one.
proof fn lemma_stack_slots(sp: u8)
    ensures
        wrap8(sp + 1) != sp,
        wrap8(wrap8(sp + 1) + 1) != sp,
        wrap8(wrap8(sp + 1) + 1) != wrap8(sp + 1),
        wrap8(wrap8(wrap8(sp + 1) + 1) + 1 - 1) == wrap8(wrap8(sp + 1) + 1),
        wrap8(wrap8(wrap8(sp + 1) + 1) - 1) == wrap8(sp + 1),
        wrap8(wrap8(sp + 1) - 1) == sp,
{
}

/// Returning from a call made with `JSR` goes back to the instruction after
/// the call, with the stack pointer where it was before the call.
pub proof fn law_call_then_return(s: CpuState, op: Operand)
    requires
        valid_state(s),
        op is Memory,
    ensures
        rts_state(jsr_state(s, op)).pc == s.pc,
        rts_state(jsr_state(s, op)).sp == s.sp,
{
    let ret = wrap16(s.pc - 1);
    lemma_split_join(ret);
    lemma_stack_slots(s.sp);
}

/// `BRK` followed by `RTI` restores every flag but B, which stays set as it
/// was pushed, restores the stack pointer, and resumes one byte past the
/// program counter that `BRK` saw.
pub proof fn law_break_then_return(s: CpuState)
    requires
        valid_state(s),
    ensures
        rti_state(brk_state(s)).flags == (Flags { brk: true, ..s.flags }),
        rti_state(brk_state(s)).sp == s.sp,
        rti_state(brk_state(s)).pc == wrap16(s.pc + 1),
{
    let ret = wrap16(s.pc + 1);
    lemma_split_join(ret);
    lemma_stack_slots(s.sp);
    lemma_flags_round_trip(Flags { brk: true, ..s.flags });
}

/// Whether the branch opcode `opcode` is taken under `f`.
pub open spec fn branch_taken(opcode: u8, f: Flags) -> bool {
    match opcode {
        0x10 => !f.sign,
        0x30 => f.sign,
        0x50 => !f.overflow,
        0x70 => f.overflow,
        0x90 => !f.carry,
        0xB0 => f.carry,
        0xD0 => !f.zero,
        _ => f.zero,
    }
}

pub open spec fn is_branch_opcode(opcode: u8) -> bool {
    opcode == 0x10 || opcode == 0x30 || opcode == 0x50 || opcode == 0x70 || opcode == 0x90
        || opcode == 0xB0 || opcode == 0xD0 || opcode == 0xF0
}

/// A branch instruction moves the program counter past its two bytes, and
/// when taken adds the signed displacement to that address; registers,
/// flags and memory stay as they were.
pub proof fn law_branch_step(s: CpuState)
    requires
        valid_state(s),
        is_branch_opcode(s.mem[s.pc]),
    ensures
        ({
            let after = wrap16(s.pc + 2);
            let d = s.mem[wrap16(s.pc + 1)];
            step_state(s) == (CpuState {
                pc: if branch_taken(s.mem[s.pc], s.flags) {
                    wrap16(after + signed(d))
                } else {
                    after
                },
                cycles: ((s.cycles + 1) % 0x10000) as u16,
                ..s
            })
        }),
{
    reveal(decode_spec);
    reveal(execute_state);
}

/// Shifting a memory cell left and rotating it back right through the carry
/// gives the original byte.
pub proof fn law_shift_left_rotate_right(s: CpuState, addr: usize)
    requires
        valid_state(s),
        addr < MEMORY_SIZE,
    ensures
        ror_state(asl_state(s, Operand::Memory(addr)), Operand::Memory(addr)).mem[addr as int]
            == s.mem[addr as int],
{
}

/// Shifting a memory cell left and then right gives the original byte when
/// its bit 7 was clear.
pub proof fn law_shift_left_then_right(s: CpuState, addr: usize)
    requires
        valid_state(s),
        addr < MEMORY_SIZE,
        s.mem[addr as int] < 0x80,
    ensures
        lsr_state(asl_state(s, Operand::Memory(addr)), Operand::Memory(addr)).mem[addr as int]
            == s.mem[addr as int],
{
}

} // verus!
