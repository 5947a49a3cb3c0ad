use vstd::prelude::*;
use crate::decode::{Mnemonic, Mode, decode_spec, resolved_length, resolved_operand};
use crate::flags::{Flags, status_byte, flags_of_byte};
use crate::state::{
    BREAK_VECTOR, CpuState, Operand, high_byte, is_negative, low_byte, pull_state, push_state,
    read_word, signed, store, top_byte, value_of, with_carry, with_flags, with_nz, with_pc, word,
    wrap16, wrap8,
};

verus! {

/// The carry flag as a number.
pub open spec fn carry_in(s: CpuState) -> int {
    if s.flags.carry {
        1
    } else {
        0
    }
}

/// Add with carry: C is the carry out of the 9-bit sum, V is set when two
/// operands of one sign give a result of the other.
pub open spec fn adc_state(s: CpuState, op: Operand) -> CpuState {
    let m = value_of(s, op);
    let sum = s.a + m + carry_in(s);
    let r = wrap8(sum);
    let f = Flags {
        carry: sum > 0xFF,
        overflow: is_negative(s.a) == is_negative(m) && is_negative(r) != is_negative(s.a),
        ..s.flags
    };
    with_nz(CpuState { a: r, flags: f, ..s }, r)
}

/// Subtract with borrow, the borrow being the clear carry: C is set when no
/// borrow occurs, V when operands of different sign give a result whose sign
/// differs from the accumulator's.
pub open spec fn sbc_state(s: CpuState, op: Operand) -> CpuState {
    let m = value_of(s, op);
    let borrow = 1 - carry_in(s);
    let r = wrap8(s.a - m - borrow);
    let f = Flags {
        carry: s.a >= m + borrow,
        overflow: is_negative(s.a) != is_negative(m) && is_negative(r) != is_negative(s.a),
        ..s.flags
    };
    with_nz(CpuState { a: r, flags: f, ..s }, r)
}

/// Compare a register with the operand: C when the register is not below it,
/// N and Z from the wrapped difference.
pub open spec fn compare_state(s: CpuState, op: Operand, register: u8) -> CpuState {
    let m = value_of(s, op);
    with_nz(with_carry(s, register >= m), wrap8(register - m))
}

pub open spec fn and_state(s: CpuState, op: Operand) -> CpuState {
    let r = s.a & value_of(s, op);
    with_nz(CpuState { a: r, ..s }, r)
}

pub open spec fn ora_state(s: CpuState, op: Operand) -> CpuState {
    let r = s.a | value_of(s, op);
    with_nz(CpuState { a: r, ..s }, r)
}

pub open spec fn eor_state(s: CpuState, op: Operand) -> CpuState {
    let r = s.a ^ value_of(s, op);
    with_nz(CpuState { a: r, ..s }, r)
}

/// Shift left: bit 7 goes to C, bit 0 becomes clear.
pub open spec fn asl_state(s: CpuState, op: Operand) -> CpuState {
    let m = value_of(s, op);
    let r = wrap8(m * 2);
    with_nz(with_carry(store(s, op, r), is_negative(m)), r)
}

/// Shift right: bit 0 goes to C, bit 7 becomes clear.
pub open spec fn lsr_state(s: CpuState, op: Operand) -> CpuState {
    let m = value_of(s, op);
    let r = m / 2;
    with_nz(with_carry(store(s, op, r), m % 2 == 1), r)
}

/// Rotate left through the carry.
pub open spec fn rol_state(s: CpuState, op: Operand) -> CpuState {
    let m = value_of(s, op);
    let r = wrap8(m * 2 + carry_in(s));
    with_nz(with_carry(store(s, op, r), is_negative(m)), r)
}

/// Rotate right through the carry.
pub open spec fn ror_state(s: CpuState, op: Operand) -> CpuState {
    let m = value_of(s, op);
    let r = (m / 2 + 0x80 * carry_in(s)) as u8;
    with_nz(with_carry(store(s, op, r), m % 2 == 1), r)
}

/// Bit test: N and V from bits 7 and 6 of the operand, Z from its
/// conjunction with the accumulator.
pub open spec fn bit_state(s: CpuState, op: Operand) -> CpuState {
    let m = value_of(s, op);
    with_flags(
        s,
        Flags { sign: is_negative(m), overflow: m & 0x40 != 0, zero: m & s.a == 0, ..s.flags },
    )
}

/// A relative branch: when `taken`, the operand is added to the program
/// counter as a signed displacement.
pub open spec fn branch_state(s: CpuState, taken: bool, op: Operand) -> CpuState {
    if taken {
        with_pc(s, wrap16(s.pc + signed(value_of(s, op))))
    } else {
        s
    }
}

pub open spec fn inc_state(s: CpuState, op: Operand) -> CpuState {
    let r = wrap8(value_of(s, op) + 1);
    with_nz(store(s, op, r), r)
}

pub open spec fn dec_state(s: CpuState, op: Operand) -> CpuState {
    let r = wrap8(value_of(s, op) - 1);
    with_nz(store(s, op, r), r)
}

/// Load `v` into the register that `op` names, N and Z from `v`.
pub open spec fn load_state(s: CpuState, op: Operand, v: u8) -> CpuState {
    with_nz(store(s, op, v), v)
}

/// The address a jump or call goes to.
pub open spec fn target_of(op: Operand) -> int {
    match op {
        Operand::Memory(addr) => addr as int,
        _ => 0,
    }
}

pub open spec fn jmp_state(s: CpuState, op: Operand) -> CpuState {
    with_pc(s, target_of(op))
}

/// Call: push the address before the next instruction, high byte first.
pub open spec fn jsr_state(s: CpuState, op: Operand) -> CpuState {
    let ret = wrap16(s.pc - 1);
    with_pc(push_state(push_state(s, high_byte(ret)), low_byte(ret)), target_of(op))
}

/// Return: pull the address that a call pushed, and go one past it.
pub open spec fn rts_state(s: CpuState) -> CpuState {
    let lo = top_byte(s);
    let s1 = pull_state(s);
    let hi = top_byte(s1);
    with_pc(pull_state(s1), wrap16(word(hi, lo) + 1))
}

pub open spec fn pha_state(s: CpuState) -> CpuState {
    push_state(s, s.a)
}

pub open spec fn php_state(s: CpuState) -> CpuState {
    push_state(s, status_byte(s.flags))
}

pub open spec fn pla_state(s: CpuState) -> CpuState {
    let v = top_byte(s);
    with_nz(CpuState { a: v, ..pull_state(s) }, v)
}

pub open spec fn plp_state(s: CpuState) -> CpuState {
    with_flags(pull_state(s), flags_of_byte(top_byte(s)))
}

/// Software interrupt: push the program counter plus one, set B, push the
/// status, set I, and jump through the break vector.
pub open spec fn brk_state(s: CpuState) -> CpuState {
    let ret = wrap16(s.pc + 1);
    let s1 = push_state(push_state(s, high_byte(ret)), low_byte(ret));
    let s2 = with_flags(s1, Flags { brk: true, ..s1.flags });
    let s3 = push_state(s2, status_byte(s2.flags));
    let s4 = with_flags(s3, Flags { interrupt_disable: true, ..s3.flags });
    with_pc(s4, read_word(s4, BREAK_VECTOR as int))
}

/// Return from interrupt: pull the status, then the program counter.
pub open spec fn rti_state(s: CpuState) -> CpuState {
    let s1 = plp_state(s);
    let lo = top_byte(s1);
    let s2 = pull_state(s1);
    let hi = top_byte(s2);
    with_pc(pull_state(s2), word(hi, lo))
}


/// The program counter moved past the opcode and `n` operand bytes.
pub open spec fn advanced(s: CpuState, n: int) -> CpuState {
    with_pc(s, wrap16(s.pc + 1 + n))
}

/// Reading the operand of the instruction at the program counter: the state
/// with the program counter past the instruction, and the operand.
pub open spec fn fetch_state(s: CpuState, mode: Mode) -> (CpuState, Operand) {
    let next = wrap16(s.pc + 1);
    match mode {
        Mode::Implied => (advanced(s, 0), Operand::Implied),
        Mode::Accumulator => (advanced(s, 0), Operand::Accumulator),
        Mode::Relative => (advanced(s, 1), Operand::Immediate(s.mem[next])),
        Mode::Absolute => (advanced(s, 2), Operand::Memory(read_word(s, next) as usize)),
        Mode::Indirect => (
            advanced(s, 2),
            Operand::Memory(read_word(s, read_word(s, next)) as usize),
        ),
        Mode::Resolved => (advanced(s, resolved_length(s.mem[s.pc])), resolved_operand(s)),
    }
}

/// What an operation does once its operand is known.
#[verifier::opaque]
pub open spec fn execute_state(s: CpuState, m: Mnemonic, op: Operand) -> CpuState {
    match m {
        Mnemonic::Adc => adc_state(s, op),
        Mnemonic::And => and_state(s, op),
        Mnemonic::Asl => asl_state(s, op),
        Mnemonic::Bcc => branch_state(s, !s.flags.carry, op),
        Mnemonic::Bcs => branch_state(s, s.flags.carry, op),
        Mnemonic::Beq => branch_state(s, s.flags.zero, op),
        Mnemonic::Bit => bit_state(s, op),
        Mnemonic::Bmi => branch_state(s, s.flags.sign, op),
        Mnemonic::Bne => branch_state(s, !s.flags.zero, op),
        Mnemonic::Bpl => branch_state(s, !s.flags.sign, op),
        Mnemonic::Brk => brk_state(s),
        Mnemonic::Bvc => branch_state(s, !s.flags.overflow, op),
        Mnemonic::Bvs => branch_state(s, s.flags.overflow, op),
        Mnemonic::Clc => with_carry(s, false),
        Mnemonic::Cld => with_flags(s, Flags { decimal: false, ..s.flags }),
        Mnemonic::Cli => with_flags(s, Flags { interrupt_disable: false, ..s.flags }),
        Mnemonic::Clv => with_flags(s, Flags { overflow: false, ..s.flags }),
        Mnemonic::Cmp => compare_state(s, op, s.a),
        Mnemonic::Cpx => compare_state(s, op, s.x),
        Mnemonic::Cpy => compare_state(s, op, s.y),
        Mnemonic::Dec => dec_state(s, op),
        Mnemonic::Dex => load_state(s, Operand::RegisterX, wrap8(s.x - 1)),
        Mnemonic::Dey => load_state(s, Operand::RegisterY, wrap8(s.y - 1)),
        Mnemonic::Eor => eor_state(s, op),
        Mnemonic::Inc => inc_state(s, op),
        Mnemonic::Inx => load_state(s, Operand::RegisterX, wrap8(s.x + 1)),
        Mnemonic::Iny => load_state(s, Operand::RegisterY, wrap8(s.y + 1)),
        Mnemonic::Jmp => if op is Memory {
            jmp_state(s, op)
        } else {
            s
        },
        Mnemonic::Jsr => if op is Memory {
            jsr_state(s, op)
        } else {
            s
        },
        Mnemonic::Lda => load_state(s, Operand::Accumulator, value_of(s, op)),
        Mnemonic::Ldx => load_state(s, Operand::RegisterX, value_of(s, op)),
        Mnemonic::Ldy => load_state(s, Operand::RegisterY, value_of(s, op)),
        Mnemonic::Lsr => lsr_state(s, op),
        Mnemonic::Ora => ora_state(s, op),
        Mnemonic::Pha => pha_state(s),
        Mnemonic::Php => php_state(s),
        Mnemonic::Pla => pla_state(s),
        Mnemonic::Plp => plp_state(s),
        Mnemonic::Rol => rol_state(s, op),
        Mnemonic::Ror => ror_state(s, op),
        Mnemonic::Rti => rti_state(s),
        Mnemonic::Rts => rts_state(s),
        Mnemonic::Sbc => sbc_state(s, op),
        Mnemonic::Sec => with_carry(s, true),
        Mnemonic::Sed => with_flags(s, Flags { decimal: true, ..s.flags }),
        Mnemonic::Sei => with_flags(s, Flags { interrupt_disable: true, ..s.flags }),
        Mnemonic::Sta => store(s, op, s.a),
        Mnemonic::Stx => store(s, op, s.x),
        Mnemonic::Sty => store(s, op, s.y),
        Mnemonic::Tax => load_state(s, Operand::RegisterX, s.a),
        Mnemonic::Tay => load_state(s, Operand::RegisterY, s.a),
        Mnemonic::Tsx => load_state(s, Operand::RegisterX, s.sp),
        Mnemonic::Txa => load_state(s, Operand::Accumulator, s.x),
        Mnemonic::Txs => CpuState { sp: s.x, ..s },
        Mnemonic::Tya => load_state(s, Operand::Accumulator, s.y),
        Mnemonic::Nop => s,
    }
}

/// One instruction: fetch, decode, resolve the operand, execute, and count
/// one cycle.
pub open spec fn step_state(s: CpuState) -> CpuState {
    let (m, mode) = decode_spec(s.mem[s.pc]);
    let (t, op) = fetch_state(s, mode);
    let u = execute_state(t, m, op);
    CpuState { cycles: ((u.cycles + 1) % 0x10000) as u16, ..u }
}

} // verus!
