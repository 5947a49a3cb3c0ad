use vstd::prelude::*;
use crate::state::{CpuState, Operand, read_word, wrap16, wrap8};

verus! {

/// The operation an opcode names. `Nop` stands for every opcode outside the
/// table: it only moves past the opcode byte.
#[derive(Clone, Copy, Debug, PartialEq, Eq, Structural)]
pub enum Mnemonic {
    Adc,
    And,
    Asl,
    Bcc,
    Bcs,
    Beq,
    Bit,
    Bmi,
    Bne,
    Bpl,
    Brk,
    Bvc,
    Bvs,
    Clc,
    Cld,
    Cli,
    Clv,
    Cmp,
    Cpx,
    Cpy,
    Dec,
    Dex,
    Dey,
    Eor,
    Inc,
    Inx,
    Iny,
    Jmp,
    Jsr,
    Lda,
    Ldx,
    Ldy,
    Lsr,
    Ora,
    Pha,
    Php,
    Pla,
    Plp,
    Rol,
    Ror,
    Rti,
    Rts,
    Sbc,
    Sec,
    Sed,
    Sei,
    Sta,
    Stx,
    Sty,
    Tax,
    Tay,
    Tsx,
    Txa,
    Txs,
    Tya,
    Nop,
}

/// Where an instruction's operand comes from.
#[derive(Clone, Copy, Debug, PartialEq, Eq, Structural)]
pub enum Mode {
    /// No operand bytes.
    Implied,
    /// The accumulator, no operand bytes.
    Accumulator,
    /// One byte, a signed displacement.
    Relative,
    /// Two bytes, an address.
    Absolute,
    /// Two bytes, the address of an address.
    Indirect,
    /// Chosen by the opcode's mode group and bit 0.
    Resolved,
}

/// The table of opcodes.
#[verifier::opaque]
pub open spec fn decode_spec(opcode: u8) -> (Mnemonic, Mode) {
    match opcode {
        0x61 | 0x65 | 0x69 | 0x6D | 0x71 | 0x75 | 0x79 | 0x7D => (Mnemonic::Adc, Mode::Resolved),
        0x21 | 0x25 | 0x29 | 0x2D | 0x31 | 0x35 | 0x39 | 0x3D => (Mnemonic::And, Mode::Resolved),
        0x06 | 0x0E | 0x16 | 0x1E => (Mnemonic::Asl, Mode::Resolved),
        0x0A => (Mnemonic::Asl, Mode::Accumulator),
        0x90 => (Mnemonic::Bcc, Mode::Relative),
        0xB0 => (Mnemonic::Bcs, Mode::Relative),
        0xF0 => (Mnemonic::Beq, Mode::Relative),
        0x24 | 0x2C => (Mnemonic::Bit, Mode::Resolved),
        0x30 => (Mnemonic::Bmi, Mode::Relative),
        0xD0 => (Mnemonic::Bne, Mode::Relative),
        0x10 => (Mnemonic::Bpl, Mode::Relative),
        0x00 => (Mnemonic::Brk, Mode::Implied),
        0x50 => (Mnemonic::Bvc, Mode::Relative),
        0x70 => (Mnemonic::Bvs, Mode::Relative),
        0x18 => (Mnemonic::Clc, Mode::Implied),
        0xD8 => (Mnemonic::Cld, Mode::Implied),
        0x58 => (Mnemonic::Cli, Mode::Implied),
        0xB8 => (Mnemonic::Clv, Mode::Implied),
        0xC1 | 0xC5 | 0xC9 | 0xCD | 0xD1 | 0xD5 | 0xD9 | 0xDD => (Mnemonic::Cmp, Mode::Resolved),
        0xE0 | 0xE4 | 0xEC => (Mnemonic::Cpx, Mode::Resolved),
        0xC0 | 0xC4 | 0xCC => (Mnemonic::Cpy, Mode::Resolved),
        0xC6 | 0xCE | 0xD6 | 0xDE => (Mnemonic::Dec, Mode::Resolved),
        0xCA => (Mnemonic::Dex, Mode::Implied),
        0x88 => (Mnemonic::Dey, Mode::Implied),
        0x41 | 0x45 | 0x49 | 0x4D | 0x51 | 0x55 | 0x59 | 0x5D => (Mnemonic::Eor, Mode::Resolved),
        0xE6 | 0xEE | 0xF6 | 0xFE => (Mnemonic::Inc, Mode::Resolved),
        0xE8 => (Mnemonic::Inx, Mode::Implied),
        0xC8 => (Mnemonic::Iny, Mode::Implied),
        0x4C => (Mnemonic::Jmp, Mode::Absolute),
        0x6C => (Mnemonic::Jmp, Mode::Indirect),
        0x20 => (Mnemonic::Jsr, Mode::Absolute),
        0xA1 | 0xA5 | 0xA9 | 0xAD | 0xB1 | 0xB5 | 0xB9 | 0xBD => (Mnemonic::Lda, Mode::Resolved),
        0xA2 | 0xA6 | 0xAE | 0xB6 | 0xBE => (Mnemonic::Ldx, Mode::Resolved),
        0xA0 | 0xA4 | 0xAC | 0xB4 | 0xBC => (Mnemonic::Ldy, Mode::Resolved),
        0x46 | 0x4E | 0x56 | 0x5E => (Mnemonic::Lsr, Mode::Resolved),
        0x4A => (Mnemonic::Lsr, Mode::Accumulator),
        0x01 | 0x05 | 0x09 | 0x0D | 0x11 | 0x15 | 0x19 | 0x1D => (Mnemonic::Ora, Mode::Resolved),
        0x48 => (Mnemonic::Pha, Mode::Implied),
        0x08 => (Mnemonic::Php, Mode::Implied),
        0x68 => (Mnemonic::Pla, Mode::Implied),
        0x28 => (Mnemonic::Plp, Mode::Implied),
        0x26 | 0x2E | 0x36 | 0x3E => (Mnemonic::Rol, Mode::Resolved),
        0x2A => (Mnemonic::Rol, Mode::Accumulator),
        0x66 | 0x6E | 0x76 | 0x7E => (Mnemonic::Ror, Mode::Resolved),
        0x6A => (Mnemonic::Ror, Mode::Accumulator),
        0x40 => (Mnemonic::Rti, Mode::Implied),
        0x60 => (Mnemonic::Rts, Mode::Implied),
        0xE1 | 0xE5 | 0xE9 | 0xED | 0xF1 | 0xF5 | 0xF9 | 0xFD => (Mnemonic::Sbc, Mode::Resolved),
        0x38 => (Mnemonic::Sec, Mode::Implied),
        0xF8 => (Mnemonic::Sed, Mode::Implied),
        0x78 => (Mnemonic::Sei, Mode::Implied),
        0x81 | 0x85 | 0x89 | 0x8D | 0x91 | 0x95 | 0x99 | 0x9D => (Mnemonic::Sta, Mode::Resolved),
        0x86 | 0x8E | 0x96 => (Mnemonic::Stx, Mode::Resolved),
        0x84 | 0x8C | 0x94 => (Mnemonic::Sty, Mode::Resolved),
        0xAA => (Mnemonic::Tax, Mode::Implied),
        0xA8 => (Mnemonic::Tay, Mode::Implied),
        0xBA => (Mnemonic::Tsx, Mode::Implied),
        0x8A => (Mnemonic::Txa, Mode::Implied),
        0x9A => (Mnemonic::Txs, Mode::Implied),
        0x98 => (Mnemonic::Tya, Mode::Implied),
        _ => (Mnemonic::Nop, Mode::Implied),
    }
}

/// Looks an opcode up in the table.
pub fn decode(opcode: u8) -> (r: (Mnemonic, Mode))
    ensures
        r == decode_spec(opcode),
{
    reveal(decode_spec);
    match opcode {
        0x61 | 0x65 | 0x69 | 0x6D | 0x71 | 0x75 | 0x79 | 0x7D => (Mnemonic::Adc, Mode::Resolved),
        0x21 | 0x25 | 0x29 | 0x2D | 0x31 | 0x35 | 0x39 | 0x3D => (Mnemonic::And, Mode::Resolved),
        0x06 | 0x0E | 0x16 | 0x1E => (Mnemonic::Asl, Mode::Resolved),
        0x0A => (Mnemonic::Asl, Mode::Accumulator),
        0x90 => (Mnemonic::Bcc, Mode::Relative),
        0xB0 => (Mnemonic::Bcs, Mode::Relative),
        0xF0 => (Mnemonic::Beq, Mode::Relative),
        0x24 | 0x2C => (Mnemonic::Bit, Mode::Resolved),
        0x30 => (Mnemonic::Bmi, Mode::Relative),
        0xD0 => (Mnemonic::Bne, Mode::Relative),
        0x10 => (Mnemonic::Bpl, Mode::Relative),
        0x00 => (Mnemonic::Brk, Mode::Implied),
        0x50 => (Mnemonic::Bvc, Mode::Relative),
        0x70 => (Mnemonic::Bvs, Mode::Relative),
        0x18 => (Mnemonic::Clc, Mode::Implied),
        0xD8 => (Mnemonic::Cld, Mode::Implied),
        0x58 => (Mnemonic::Cli, Mode::Implied),
        0xB8 => (Mnemonic::Clv, Mode::Implied),
        0xC1 | 0xC5 | 0xC9 | 0xCD | 0xD1 | 0xD5 | 0xD9 | 0xDD => (Mnemonic::Cmp, Mode::Resolved),
        0xE0 | 0xE4 | 0xEC => (Mnemonic::Cpx, Mode::Resolved),
        0xC0 | 0xC4 | 0xCC => (Mnemonic::Cpy, Mode::Resolved),
        0xC6 | 0xCE | 0xD6 | 0xDE => (Mnemonic::Dec, Mode::Resolved),
        0xCA => (Mnemonic::Dex, Mode::Implied),
        0x88 => (Mnemonic::Dey, Mode::Implied),
        0x41 | 0x45 | 0x49 | 0x4D | 0x51 | 0x55 | 0x59 | 0x5D => (Mnemonic::Eor, Mode::Resolved),
        0xE6 | 0xEE | 0xF6 | 0xFE => (Mnemonic::Inc, Mode::Resolved),
        0xE8 => (Mnemonic::Inx, Mode::Implied),
        0xC8 => (Mnemonic::Iny, Mode::Implied),
        0x4C => (Mnemonic::Jmp, Mode::Absolute),
        0x6C => (Mnemonic::Jmp, Mode::Indirect),
        0x20 => (Mnemonic::Jsr, Mode::Absolute),
        0xA1 | 0xA5 | 0xA9 | 0xAD | 0xB1 | 0xB5 | 0xB9 | 0xBD => (Mnemonic::Lda, Mode::Resolved),
        0xA2 | 0xA6 | 0xAE | 0xB6 | 0xBE => (Mnemonic::Ldx, Mode::Resolved),
        0xA0 | 0xA4 | 0xAC | 0xB4 | 0xBC => (Mnemonic::Ldy, Mode::Resolved),
        0x46 | 0x4E | 0x56 | 0x5E => (Mnemonic::Lsr, Mode::Resolved),
        0x4A => (Mnemonic::Lsr, Mode::Accumulator),
        0x01 | 0x05 | 0x09 | 0x0D | 0x11 | 0x15 | 0x19 | 0x1D => (Mnemonic::Ora, Mode::Resolved),
        0x48 => (Mnemonic::Pha, Mode::Implied),
        0x08 => (Mnemonic::Php, Mode::Implied),
        0x68 => (Mnemonic::Pla, Mode::Implied),
        0x28 => (Mnemonic::Plp, Mode::Implied),
        0x26 | 0x2E | 0x36 | 0x3E => (Mnemonic::Rol, Mode::Resolved),
        0x2A => (Mnemonic::Rol, Mode::Accumulator),
        0x66 | 0x6E | 0x76 | 0x7E => (Mnemonic::Ror, Mode::Resolved),
        0x6A => (Mnemonic::Ror, Mode::Accumulator),
        0x40 => (Mnemonic::Rti, Mode::Implied),
        0x60 => (Mnemonic::Rts, Mode::Implied),
        0xE1 | 0xE5 | 0xE9 | 0xED | 0xF1 | 0xF5 | 0xF9 | 0xFD => (Mnemonic::Sbc, Mode::Resolved),
        0x38 => (Mnemonic::Sec, Mode::Implied),
        0xF8 => (Mnemonic::Sed, Mode::Implied),
        0x78 => (Mnemonic::Sei, Mode::Implied),
        0x81 | 0x85 | 0x89 | 0x8D | 0x91 | 0x95 | 0x99 | 0x9D => (Mnemonic::Sta, Mode::Resolved),
        0x86 | 0x8E | 0x96 => (Mnemonic::Stx, Mode::Resolved),
        0x84 | 0x8C | 0x94 => (Mnemonic::Sty, Mode::Resolved),
        0xAA => (Mnemonic::Tax, Mode::Implied),
        0xA8 => (Mnemonic::Tay, Mode::Implied),
        0xBA => (Mnemonic::Tsx, Mode::Implied),
        0x8A => (Mnemonic::Txa, Mode::Implied),
        0x9A => (Mnemonic::Txs, Mode::Implied),
        0x98 => (Mnemonic::Tya, Mode::Implied),
        _ => (Mnemonic::Nop, Mode::Implied),
    }
}

/// Bits 3 to 5 of an opcode.
pub open spec fn mode_group(opcode: u8) -> u8 {
    ((opcode / 8) % 8) as u8
}

/// The operand that the mode group and bit 0 of the opcode at the program
/// counter select. Two-byte addresses are read high byte first.
pub open spec fn resolved_operand(s: CpuState) -> Operand {
    let opcode = s.mem[s.pc];
    let next = wrap16(s.pc + 1);
    let b = s.mem[next];
    match mode_group(opcode) {
        0 => if opcode % 2 == 0 {
            Operand::Immediate(b)
        } else {
            Operand::Memory(wrap8(b + s.x) as usize)
        },
        1 => Operand::Memory(b as usize),
        2 => if opcode % 2 == 0 {
            Operand::Accumulator
        } else {
            Operand::Immediate(b)
        },
        3 => Operand::Memory(read_word(s, next) as usize),
        4 => Operand::Memory(((read_word(s, b as int) + s.y) % 256) as usize),
        5 => Operand::Memory(read_word(s, wrap8(b + s.x) as int) as usize),
        6 => Operand::Memory(wrap16(read_word(s, next) + s.y) as usize),
        _ => Operand::Memory(wrap16(read_word(s, next) + s.x) as usize),
    }
}

/// The bytes the resolved operand takes after the opcode.
pub open spec fn resolved_length(opcode: u8) -> int {
    match mode_group(opcode) {
        2 => if opcode % 2 == 0 {
            0
        } else {
            1
        },
        3 | 6 | 7 => 2,
        _ => 1,
    }
}

} // verus!
