use vstd::prelude::*;
use crate::decode::{Mnemonic, Mode, decode, resolved_length, resolved_operand};
use crate::bits::{
    lemma_join_bytes, lemma_low_bits, lemma_opcode_fields, lemma_shift_left, lemma_shift_right,
};
use crate::flags::{Flags, flags_of_byte, status_byte};
use crate::semantics::{
    adc_state, and_state, asl_state, bit_state, branch_state, brk_state, compare_state,
    dec_state, eor_state, inc_state, jmp_state, jsr_state, load_state, lsr_state, ora_state,
    pha_state, php_state, pla_state, plp_state, rol_state, ror_state, rti_state, rts_state,
    sbc_state, target_of, advanced, execute_state, fetch_state, step_state,
};
use crate::state::{
    BREAK_VECTOR, CpuState, MEMORY_SIZE, Operand, STACK_PAGE, high_byte, low_byte,
    operand_in_range, pull_state,
    push_state, read_word, store, top_byte, valid_state, value_of, with_carry, with_flags,
    with_nz, with_pc, wrap16, wrap8,
};

verus! {

/// A Ricoh 2A03 processor core and the 64K bytes of memory it owns.
pub struct CPU2A03 {
    a: u8,
    x: u8,
    y: u8,
    sp: u8,
    pc: usize,
    cc: u16,
    mem: Vec<u8>,
    flags: Flags,
}

/// The state right after construction: registers zero, memory zero, only the
/// unused flag set.
pub open spec fn initial_state() -> CpuState {
    CpuState {
        a: 0,
        x: 0,
        y: 0,
        sp: 0,
        pc: 0,
        cycles: 0,
        mem: Seq::new(MEMORY_SIZE as nat, |i: int| 0u8),
        flags: Flags {
            carry: false,
            zero: false,
            interrupt_disable: false,
            decimal: false,
            brk: false,
            unused: true,
            overflow: false,
            sign: false,
        },
    }
}

impl View for CPU2A03 {
    type V = CpuState;

    closed spec fn view(&self) -> CpuState {
        CpuState {
            a: self.a,
            x: self.x,
            y: self.y,
            sp: self.sp,
            pc: self.pc as int,
            cycles: self.cc,
            mem: self.mem@,
            flags: self.flags,
        }
    }
}

impl CPU2A03 {
    pub open spec fn wf(&self) -> bool {
        valid_state(self@)
    }

    pub fn new() -> (r: CPU2A03)
        ensures
            r.wf(),
            r@ == initial_state(),
    {
        let mem: Vec<u8> = vec![0u8; MEMORY_SIZE];
        let r = CPU2A03 {
            a: 0,
            x: 0,
            y: 0,
            sp: 0,
            pc: 0,
            cc: 0,
            mem: mem,
            flags: Flags {
                carry: false,
                zero: false,
                interrupt_disable: false,
                decimal: false,
                brk: false,
                unused: true,
                overflow: false,
                sign: false,
            },
        };
        assert(r@.mem =~= initial_state().mem);
        r
    }

    pub fn a(&self) -> (r: u8)
        ensures
            r == self@.a,
    {
        self.a
    }

    pub fn x(&self) -> (r: u8)
        ensures
            r == self@.x,
    {
        self.x
    }

    pub fn y(&self) -> (r: u8)
        ensures
            r == self@.y,
    {
        self.y
    }

    pub fn sp(&self) -> (r: u8)
        ensures
            r == self@.sp,
    {
        self.sp
    }

    pub fn pc(&self) -> (r: usize)
        ensures
            r == self@.pc,
    {
        self.pc
    }

    pub fn cycles(&self) -> (r: u16)
        ensures
            r == self@.cycles,
    {
        self.cc
    }

    pub fn flags(&self) -> (r: Flags)
        ensures
            r == self@.flags,
    {
        self.flags
    }

    /// The byte at `addr`.
    pub fn read(&self, addr: u16) -> (r: u8)
        requires
            self.wf(),
        ensures
            r == self@.mem[addr as int],
    {
        self.mem[addr as usize]
    }

    /// Stores `value` at `addr`; nothing else changes.
    pub fn write(&mut self, addr: u16, value: u8)
        requires
            old(self).wf(),
        ensures
            final(self).wf(),
            final(self)@ == (CpuState { mem: old(self)@.mem.update(addr as int, value), ..old(self)@ }),
    {
        self.mem.set(addr as usize, value);
    }

    /// Points the program counter at `addr`; nothing else changes.
    pub fn set_pc(&mut self, addr: u16)
        requires
            old(self).wf(),
        ensures
            final(self).wf(),
            final(self)@ == with_pc(old(self)@, addr as int),
    {
        self.pc = addr as usize;
    }

    fn get_address_from_memory(&self, location: usize) -> (r: usize)
        requires
            self.wf(),
            location < MEMORY_SIZE,
        ensures
            r == read_word(self@, location as int),
            r < MEMORY_SIZE,
    {
        let hi: usize = self.mem[location] as usize;
        let lo: usize = self.mem[(location + 1) % MEMORY_SIZE] as usize;
        proof {
            lemma_join_bytes(hi, lo);
        }
        (hi << 8) | lo
    }

    fn get_address_from_code(&mut self) -> (r: usize)
        requires
            old(self).wf(),
        ensures
            final(self).wf(),
            r == read_word(old(self)@, old(self)@.pc),
            r < MEMORY_SIZE,
            final(self)@ == with_pc(old(self)@, wrap16(old(self)@.pc + 2)),
    {
        let r = self.get_address_from_memory(self.pc);
        self.pc = (self.pc + 2) % MEMORY_SIZE;
        r
    }

    fn get_address(&self, op: Operand) -> (r: usize)
        requires
            op is Memory,
        ensures
            r == target_of(op),
    {
        match op {
            Operand::Memory(addr) => addr,
            _ => 0,
        }
    }

    fn get_next_byte(&mut self) -> (r: u8)
        requires
            old(self).wf(),
        ensures
            final(self).wf(),
            r == old(self)@.mem[old(self)@.pc],
            final(self)@ == with_pc(old(self)@, wrap16(old(self)@.pc + 1)),
    {
        let value: u8 = self.mem[self.pc];
        self.pc = (self.pc + 1) % MEMORY_SIZE;
        value
    }

    fn get_value(&self, op: Operand) -> (r: u8)
        requires
            self.wf(),
            operand_in_range(op),
        ensures
            r == value_of(self@, op),
    {
        match op {
            Operand::Memory(addr) => self.mem[addr],
            Operand::Immediate(val) => val,
            Operand::Accumulator => self.a,
            Operand::RegisterX => self.x,
            Operand::RegisterY => self.y,
            Operand::Implied => 0,
        }
    }

    fn set_value(&mut self, op: Operand, value: u8)
        requires
            old(self).wf(),
            operand_in_range(op),
        ensures
            final(self).wf(),
            final(self)@ == store(old(self)@, op, value),
    {
        match op {
            Operand::Memory(addr) => self.mem.set(addr, value),
            Operand::Accumulator => self.a = value,
            Operand::RegisterX => self.x = value,
            Operand::RegisterY => self.y = value,
            _ => (),
        }
    }

    fn push(&mut self, value: u8)
        requires
            old(self).wf(),
        ensures
            final(self).wf(),
            final(self)@ == push_state(old(self)@, value),
    {
        self.mem.set(STACK_PAGE + self.sp as usize, value);
        self.sp = self.sp.wrapping_add(1);
    }

    fn pull(&mut self) -> (r: u8)
        requires
            old(self).wf(),
        ensures
            final(self).wf(),
            r == top_byte(old(self)@),
            final(self)@ == pull_state(old(self)@),
    {
        self.sp = self.sp.wrapping_sub(1);
        self.mem[STACK_PAGE + self.sp as usize]
    }

    /// The packed status byte.
    pub fn get_status(&self) -> (r: u8)
        ensures
            r == status_byte(self@.flags),
    {
        self.flags.to_byte()
    }

    /// Unpacks `value` into the flags; the unused flag stays set.
    pub fn set_status(&mut self, value: u8)
        requires
            old(self).wf(),
        ensures
            final(self).wf(),
            final(self)@ == with_flags(old(self)@, flags_of_byte(value)),
    {
        self.flags = Flags::from_byte(value);
    }

    fn set_sign(&mut self, value: u8)
        requires
            old(self).wf(),
        ensures
            final(self).wf(),
            final(self)@ == with_flags(old(self)@, Flags { sign: value >= 0x80, ..old(self)@.flags }),
    {
        self.flags.sign = value >= 0x80;
    }

    fn set_carry(&mut self, carry: bool)
        requires
            old(self).wf(),
        ensures
            final(self).wf(),
            final(self)@ == with_carry(old(self)@, carry),
    {
        self.flags.carry = carry;
    }

    fn set_overflow(&mut self, overflow: bool)
        requires
            old(self).wf(),
        ensures
            final(self).wf(),
            final(self)@ == with_flags(old(self)@, Flags { overflow: overflow, ..old(self)@.flags }),
    {
        self.flags.overflow = overflow;
    }

    fn set_zero(&mut self, value: u8)
        requires
            old(self).wf(),
        ensures
            final(self).wf(),
            final(self)@ == with_flags(old(self)@, Flags { zero: value == 0, ..old(self)@.flags }),
    {
        self.flags.zero = value == 0;
    }

    fn set_interrupt_disable(&mut self, disable: bool)
        requires
            old(self).wf(),
        ensures
            final(self).wf(),
            final(self)@ == with_flags(
                old(self)@,
                Flags { interrupt_disable: disable, ..old(self)@.flags },
            ),
    {
        self.flags.interrupt_disable = disable;
    }

    fn set_decimal_mode(&mut self, decimal_mode: bool)
        requires
            old(self).wf(),
        ensures
            final(self).wf(),
            final(self)@ == with_flags(old(self)@, Flags { decimal: decimal_mode, ..old(self)@.flags }),
    {
        self.flags.decimal = decimal_mode;
    }

    /// N and Z from `value`.
    fn set_nz(&mut self, value: u8)
        requires
            old(self).wf(),
        ensures
            final(self).wf(),
            final(self)@ == with_nz(old(self)@, value),
    {
        self.set_sign(value);
        self.set_zero(value);
    }
}

impl CPU2A03 {
    /// Common part of the compare instructions.
    fn compare(&mut self, op: Operand, register: u8)
        requires
            old(self).wf(),
            operand_in_range(op),
        ensures
            final(self).wf(),
            final(self)@ == compare_state(old(self)@, op, register),
    {
        let value = self.get_value(op);
        let res = register.wrapping_sub(value);
        self.set_carry(register >= value);
        self.set_nz(res);
    }

    pub fn adc(&mut self, op: Operand)
        requires
            old(self).wf(),
            operand_in_range(op),
        ensures
            final(self).wf(),
            final(self)@ == adc_state(old(self)@, op),
    {
        let value: u8 = self.get_value(op);
        let acc: u8 = self.a;
        let carry: u16 = if self.flags.carry {
            1
        } else {
            0
        };
        let sum: u16 = value as u16 + acc as u16 + carry;
        let res: u8 = (sum % 256) as u8;
        self.set_carry(sum > 0xFF);
        self.set_overflow((value >= 0x80) == (acc >= 0x80) && (res >= 0x80) != (acc >= 0x80));
        self.a = res;
        self.set_nz(res);
    }

    pub fn sbc(&mut self, op: Operand)
        requires
            old(self).wf(),
            operand_in_range(op),
        ensures
            final(self).wf(),
            final(self)@ == sbc_state(old(self)@, op),
    {
        let value = self.get_value(op);
        let acc: u8 = self.a;
        let borrow: u8 = if self.flags.carry {
            0
        } else {
            1
        };
        let res: u8 = acc.wrapping_sub(value).wrapping_sub(borrow);
        self.set_carry(acc as u16 >= value as u16 + borrow as u16);
        self.set_overflow((value >= 0x80) != (acc >= 0x80) && (res >= 0x80) != (acc >= 0x80));
        self.a = res;
        self.set_nz(res);
    }

    pub fn and(&mut self, op: Operand)
        requires
            old(self).wf(),
            operand_in_range(op),
        ensures
            final(self).wf(),
            final(self)@ == and_state(old(self)@, op),
    {
        let res = self.a & self.get_value(op);
        self.a = res;
        self.set_nz(res);
    }

    pub fn ora(&mut self, op: Operand)
        requires
            old(self).wf(),
            operand_in_range(op),
        ensures
            final(self).wf(),
            final(self)@ == ora_state(old(self)@, op),
    {
        let res = self.a | self.get_value(op);
        self.a = res;
        self.set_nz(res);
    }

    pub fn eor(&mut self, op: Operand)
        requires
            old(self).wf(),
            operand_in_range(op),
        ensures
            final(self).wf(),
            final(self)@ == eor_state(old(self)@, op),
    {
        let res = self.a ^ self.get_value(op);
        self.a = res;
        self.set_nz(res);
    }

    pub fn asl(&mut self, op: Operand)
        requires
            old(self).wf(),
            operand_in_range(op),
        ensures
            final(self).wf(),
            final(self)@ == asl_state(old(self)@, op),
    {
        let value = self.get_value(op);
        let res = value << 1u8;
        proof {
            lemma_shift_left(value, 0);
        }
        self.set_value(op, res);
        self.set_carry(value >= 0x80);
        self.set_nz(res);
    }

    pub fn lsr(&mut self, op: Operand)
        requires
            old(self).wf(),
            operand_in_range(op),
        ensures
            final(self).wf(),
            final(self)@ == lsr_state(old(self)@, op),
    {
        let value = self.get_value(op);
        let res = value >> 1u8;
        proof {
            lemma_shift_right(value, 0);
        }
        self.set_value(op, res);
        self.set_carry(value & 1 != 0);
        self.set_nz(res);
    }

    /// Rotate left through the carry, on memory or any other operand.
    pub fn rol_mem(&mut self, op: Operand)
        requires
            old(self).wf(),
            operand_in_range(op),
        ensures
            final(self).wf(),
            final(self)@ == rol_state(old(self)@, op),
    {
        let value = self.get_value(op);
        let carry_in: u8 = if self.flags.carry {
            1
        } else {
            0
        };
        let res = (value << 1u8) | carry_in;
        proof {
            lemma_shift_left(value, carry_in);
        }
        self.set_value(op, res);
        self.set_carry(value >= 0x80);
        self.set_nz(res);
    }

    /// Rotate the accumulator left through the carry.
    pub fn rol_acc(&mut self)
        requires
            old(self).wf(),
        ensures
            final(self).wf(),
            final(self)@ == rol_state(old(self)@, Operand::Accumulator),
    {
        self.rol_mem(Operand::Accumulator);
    }

    /// Rotate right through the carry, on memory or any other operand.
    pub fn ror_mem(&mut self, op: Operand)
        requires
            old(self).wf(),
            operand_in_range(op),
        ensures
            final(self).wf(),
            final(self)@ == ror_state(old(self)@, op),
    {
        let value = self.get_value(op);
        let carry_in: u8 = if self.flags.carry {
            0x80
        } else {
            0
        };
        let res = (value >> 1u8) | carry_in;
        proof {
            lemma_shift_right(value, carry_in);
        }
        self.set_value(op, res);
        self.set_carry(value & 1 != 0);
        self.set_nz(res);
    }

    /// Rotate the accumulator right through the carry.
    pub fn ror_acc(&mut self)
        requires
            old(self).wf(),
        ensures
            final(self).wf(),
            final(self)@ == ror_state(old(self)@, Operand::Accumulator),
    {
        self.ror_mem(Operand::Accumulator);
    }

    pub fn bit(&mut self, op: Operand)
        requires
            old(self).wf(),
            operand_in_range(op),
        ensures
            final(self).wf(),
            final(self)@ == bit_state(old(self)@, op),
    {
        let value = self.get_value(op);
        let acc = self.a;
        self.set_sign(value);
        self.set_overflow(value & 0x40 != 0);
        self.set_zero(value & acc);
    }

    /// Adds the operand, read as a signed displacement, to the program counter.
    fn branch(&mut self, op: Operand)
        requires
            old(self).wf(),
            operand_in_range(op),
        ensures
            final(self).wf(),
            final(self)@ == branch_state(old(self)@, true, op),
    {
        let displacement = self.get_value(op);
        if displacement >= 0x80 {
            self.pc = (self.pc + MEMORY_SIZE - 0x100 + displacement as usize) % MEMORY_SIZE;
        } else {
            self.pc = (self.pc + displacement as usize) % MEMORY_SIZE;
        }
    }

    /// Branch when the carry is clear.
    pub fn bcc(&mut self, op: Operand)
        requires
            old(self).wf(),
            operand_in_range(op),
        ensures
            final(self).wf(),
            final(self)@ == branch_state(old(self)@, !old(self)@.flags.carry, op),
    {
        if !self.flags.carry {
            self.branch(op)
        }
    }

    /// Branch when the carry is set.
    pub fn bcs(&mut self, op: Operand)
        requires
            old(self).wf(),
            operand_in_range(op),
        ensures
            final(self).wf(),
            final(self)@ == branch_state(old(self)@, old(self)@.flags.carry, op),
    {
        if self.flags.carry {
            self.branch(op)
        }
    }

    /// Branch when the zero flag is set.
    pub fn beq(&mut self, op: Operand)
        requires
            old(self).wf(),
            operand_in_range(op),
        ensures
            final(self).wf(),
            final(self)@ == branch_state(old(self)@, old(self)@.flags.zero, op),
    {
        if self.flags.zero {
            self.branch(op)
        }
    }

    /// Branch when the sign flag is set.
    pub fn bmi(&mut self, op: Operand)
        requires
            old(self).wf(),
            operand_in_range(op),
        ensures
            final(self).wf(),
            final(self)@ == branch_state(old(self)@, old(self)@.flags.sign, op),
    {
        if self.flags.sign {
            self.branch(op)
        }
    }

    /// Branch when the zero flag is clear.
    pub fn bne(&mut self, op: Operand)
        requires
            old(self).wf(),
            operand_in_range(op),
        ensures
            final(self).wf(),
            final(self)@ == branch_state(old(self)@, !old(self)@.flags.zero, op),
    {
        if !self.flags.zero {
            self.branch(op)
        }
    }

    /// Branch when the sign flag is clear.
    pub fn bpl(&mut self, op: Operand)
        requires
            old(self).wf(),
            operand_in_range(op),
        ensures
            final(self).wf(),
            final(self)@ == branch_state(old(self)@, !old(self)@.flags.sign, op),
    {
        if !self.flags.sign {
            self.branch(op)
        }
    }

    /// Branch when the overflow flag is clear.
    pub fn bvc(&mut self, op: Operand)
        requires
            old(self).wf(),
            operand_in_range(op),
        ensures
            final(self).wf(),
            final(self)@ == branch_state(old(self)@, !old(self)@.flags.overflow, op),
    {
        if !self.flags.overflow {
            self.branch(op)
        }
    }

    /// Branch when the overflow flag is set.
    pub fn bvs(&mut self, op: Operand)
        requires
            old(self).wf(),
            operand_in_range(op),
        ensures
            final(self).wf(),
            final(self)@ == branch_state(old(self)@, old(self)@.flags.overflow, op),
    {
        if self.flags.overflow {
            self.branch(op)
        }
    }

    /// Clear the carry.
    pub fn clc(&mut self)
        requires
            old(self).wf(),
        ensures
            final(self).wf(),
            final(self)@ == with_carry(old(self)@, false),
    {
        self.set_carry(false)
    }

    /// Set the carry.
    pub fn sec(&mut self)
        requires
            old(self).wf(),
        ensures
            final(self).wf(),
            final(self)@ == with_carry(old(self)@, true),
    {
        self.set_carry(true)
    }

    /// Clear decimal mode.
    pub fn cld(&mut self)
        requires
            old(self).wf(),
        ensures
            final(self).wf(),
            final(self)@ == with_flags(old(self)@, Flags { decimal: false, ..old(self)@.flags }),
    {
        self.set_decimal_mode(false)
    }

    /// Set decimal mode.
    pub fn sed(&mut self)
        requires
            old(self).wf(),
        ensures
            final(self).wf(),
            final(self)@ == with_flags(old(self)@, Flags { decimal: true, ..old(self)@.flags }),
    {
        self.set_decimal_mode(true)
    }

    /// Clear interrupt disable.
    pub fn cli(&mut self)
        requires
            old(self).wf(),
        ensures
            final(self).wf(),
            final(self)@ == with_flags(old(self)@, Flags { interrupt_disable: false, ..old(self)@.flags }),
    {
        self.set_interrupt_disable(false)
    }

    /// Set interrupt disable.
    pub fn sei(&mut self)
        requires
            old(self).wf(),
        ensures
            final(self).wf(),
            final(self)@ == with_flags(old(self)@, Flags { interrupt_disable: true, ..old(self)@.flags }),
    {
        self.set_interrupt_disable(true)
    }

    /// Clear the overflow flag.
    pub fn clv(&mut self)
        requires
            old(self).wf(),
        ensures
            final(self).wf(),
            final(self)@ == with_flags(old(self)@, Flags { overflow: false, ..old(self)@.flags }),
    {
        self.set_overflow(false)
    }

    pub fn cmp(&mut self, op: Operand)
        requires
            old(self).wf(),
            operand_in_range(op),
        ensures
            final(self).wf(),
            final(self)@ == compare_state(old(self)@, op, old(self)@.a),
    {
        let value = self.a;
        self.compare(op, value)
    }

    pub fn cpx(&mut self, op: Operand)
        requires
            old(self).wf(),
            operand_in_range(op),
        ensures
            final(self).wf(),
            final(self)@ == compare_state(old(self)@, op, old(self)@.x),
    {
        let value = self.x;
        self.compare(op, value)
    }

    pub fn cpy(&mut self, op: Operand)
        requires
            old(self).wf(),
            operand_in_range(op),
        ensures
            final(self).wf(),
            final(self)@ == compare_state(old(self)@, op, old(self)@.y),
    {
        let value = self.y;
        self.compare(op, value)
    }

    pub fn dec(&mut self, op: Operand)
        requires
            old(self).wf(),
            operand_in_range(op),
        ensures
            final(self).wf(),
            final(self)@ == dec_state(old(self)@, op),
    {
        let res = self.get_value(op).wrapping_sub(1);
        self.set_value(op, res);
        self.set_nz(res);
    }

    pub fn inc(&mut self, op: Operand)
        requires
            old(self).wf(),
            operand_in_range(op),
        ensures
            final(self).wf(),
            final(self)@ == inc_state(old(self)@, op),
    {
        let res = self.get_value(op).wrapping_add(1);
        self.set_value(op, res);
        self.set_nz(res);
    }

    /// Decrement X.
    pub fn dex(&mut self)
        requires
            old(self).wf(),
        ensures
            final(self).wf(),
            final(self)@ == load_state(old(self)@, Operand::RegisterX, wrap8(old(self)@.x - 1)),
    {
        let res = self.x.wrapping_sub(1);
        self.x = res;
        self.set_nz(res);
    }

    /// Decrement Y.
    pub fn dey(&mut self)
        requires
            old(self).wf(),
        ensures
            final(self).wf(),
            final(self)@ == load_state(old(self)@, Operand::RegisterY, wrap8(old(self)@.y - 1)),
    {
        let res = self.y.wrapping_sub(1);
        self.y = res;
        self.set_nz(res);
    }

    /// Increment X.
    pub fn inx(&mut self)
        requires
            old(self).wf(),
        ensures
            final(self).wf(),
            final(self)@ == load_state(old(self)@, Operand::RegisterX, wrap8(old(self)@.x + 1)),
    {
        let res = self.x.wrapping_add(1);
        self.x = res;
        self.set_nz(res);
    }

    /// Increment Y.
    pub fn iny(&mut self)
        requires
            old(self).wf(),
        ensures
            final(self).wf(),
            final(self)@ == load_state(old(self)@, Operand::RegisterY, wrap8(old(self)@.y + 1)),
    {
        let res = self.y.wrapping_add(1);
        self.y = res;
        self.set_nz(res);
    }

    pub fn jmp(&mut self, op: Operand)
        requires
            old(self).wf(),
            operand_in_range(op),
            op is Memory,
        ensures
            final(self).wf(),
            final(self)@ == jmp_state(old(self)@, op),
    {
        self.pc = self.get_address(op)
    }

    /// Call: push the program counter minus one, high byte first, and jump.
    pub fn jsr(&mut self, op: Operand)
        requires
            old(self).wf(),
            operand_in_range(op),
            op is Memory,
        ensures
            final(self).wf(),
            final(self)@ == jsr_state(old(self)@, op),
    {
        let pc = (self.pc + MEMORY_SIZE - 1) % MEMORY_SIZE;
        assert(pc == wrap16(old(self)@.pc - 1));
        let hi = (pc / 256) as u8;
        let lo = (pc % 256) as u8;
        assert(hi == high_byte(pc as int) && lo == low_byte(pc as int));
        self.push(hi);
        self.push(lo);
        self.pc = self.get_address(op);
    }

    /// Return from a call: pull the address a call pushed and go one past it.
    pub fn rts(&mut self)
        requires
            old(self).wf(),
        ensures
            final(self).wf(),
            final(self)@ == rts_state(old(self)@),
    {
        let lo = self.pull() as usize;
        let hi = self.pull() as usize;
        proof {
            lemma_join_bytes(hi, lo);
        }
        self.pc = (((hi << 8) | lo) + 1) % MEMORY_SIZE;
    }

    /// Software interrupt.
    pub fn brk(&mut self)
        requires
            old(self).wf(),
        ensures
            final(self).wf(),
            final(self)@ == brk_state(old(self)@),
    {
        let pc = (self.pc + 1) % MEMORY_SIZE;
        self.push((pc / 256) as u8);
        self.push((pc % 256) as u8);
        self.flags.brk = true;
        let status = self.get_status();
        self.push(status);
        self.set_interrupt_disable(true);
        self.pc = self.get_address_from_memory(BREAK_VECTOR);
    }

    /// Return from interrupt: pull the status, then the program counter.
    pub fn rti(&mut self)
        requires
            old(self).wf(),
        ensures
            final(self).wf(),
            final(self)@ == rti_state(old(self)@),
    {
        let status = self.pull();
        self.set_status(status);
        let lo = self.pull() as usize;
        let hi = self.pull() as usize;
        proof {
            lemma_join_bytes(hi, lo);
        }
        self.pc = (hi << 8) | lo;
    }

    /// Load the accumulator.
    pub fn lda(&mut self, op: Operand)
        requires
            old(self).wf(),
            operand_in_range(op),
        ensures
            final(self).wf(),
            final(self)@ == load_state(old(self)@, Operand::Accumulator, value_of(old(self)@, op)),
    {
        let value = self.get_value(op);
        self.a = value;
        self.set_nz(value);
    }

    /// Load X.
    pub fn ldx(&mut self, op: Operand)
        requires
            old(self).wf(),
            operand_in_range(op),
        ensures
            final(self).wf(),
            final(self)@ == load_state(old(self)@, Operand::RegisterX, value_of(old(self)@, op)),
    {
        let value = self.get_value(op);
        self.x = value;
        self.set_nz(value);
    }

    /// Load Y.
    pub fn ldy(&mut self, op: Operand)
        requires
            old(self).wf(),
            operand_in_range(op),
        ensures
            final(self).wf(),
            final(self)@ == load_state(old(self)@, Operand::RegisterY, value_of(old(self)@, op)),
    {
        let value = self.get_value(op);
        self.y = value;
        self.set_nz(value);
    }

    pub fn pha(&mut self)
        requires
            old(self).wf(),
        ensures
            final(self).wf(),
            final(self)@ == pha_state(old(self)@),
    {
        let value = self.a;
        self.push(value)
    }

    pub fn php(&mut self)
        requires
            old(self).wf(),
        ensures
            final(self).wf(),
            final(self)@ == php_state(old(self)@),
    {
        let value = self.get_status();
        self.push(value)
    }

    pub fn pla(&mut self)
        requires
            old(self).wf(),
        ensures
            final(self).wf(),
            final(self)@ == pla_state(old(self)@),
    {
        let res = self.pull();
        self.a = res;
        self.set_nz(res);
    }

    pub fn plp(&mut self)
        requires
            old(self).wf(),
        ensures
            final(self).wf(),
            final(self)@ == plp_state(old(self)@),
    {
        let value = self.pull();
        self.set_status(value)
    }

    /// Store the accumulator.
    pub fn sta(&mut self, op: Operand)
        requires
            old(self).wf(),
            operand_in_range(op),
        ensures
            final(self).wf(),
            final(self)@ == store(old(self)@, op, old(self)@.a),
    {
        let value = self.a;
        self.set_value(op, value)
    }

    /// Store X.
    pub fn stx(&mut self, op: Operand)
        requires
            old(self).wf(),
            operand_in_range(op),
        ensures
            final(self).wf(),
            final(self)@ == store(old(self)@, op, old(self)@.x),
    {
        let value = self.x;
        self.set_value(op, value)
    }

    /// Store Y.
    pub fn sty(&mut self, op: Operand)
        requires
            old(self).wf(),
            operand_in_range(op),
        ensures
            final(self).wf(),
            final(self)@ == store(old(self)@, op, old(self)@.y),
    {
        let value = self.y;
        self.set_value(op, value)
    }

    /// Copy A to X.
    pub fn tax(&mut self)
        requires
            old(self).wf(),
        ensures
            final(self).wf(),
            final(self)@ == load_state(old(self)@, Operand::RegisterX, old(self)@.a),
    {
        let src = self.a;
        self.x = src;
        self.set_nz(src);
    }

    /// Copy A to Y.
    pub fn tay(&mut self)
        requires
            old(self).wf(),
        ensures
            final(self).wf(),
            final(self)@ == load_state(old(self)@, Operand::RegisterY, old(self)@.a),
    {
        let src = self.a;
        self.y = src;
        self.set_nz(src);
    }

    /// Copy the stack pointer to X.
    pub fn tsx(&mut self)
        requires
            old(self).wf(),
        ensures
            final(self).wf(),
            final(self)@ == load_state(old(self)@, Operand::RegisterX, old(self)@.sp),
    {
        let src = self.sp;
        self.x = src;
        self.set_nz(src);
    }

    /// Copy X to A.
    pub fn txa(&mut self)
        requires
            old(self).wf(),
        ensures
            final(self).wf(),
            final(self)@ == load_state(old(self)@, Operand::Accumulator, old(self)@.x),
    {
        let src = self.x;
        self.a = src;
        self.set_nz(src);
    }

    /// Copy Y to A.
    pub fn tya(&mut self)
        requires
            old(self).wf(),
        ensures
            final(self).wf(),
            final(self)@ == load_state(old(self)@, Operand::Accumulator, old(self)@.y),
    {
        let src = self.y;
        self.a = src;
        self.set_nz(src);
    }

    /// Copy X to the stack pointer; no flag changes.
    pub fn txs(&mut self)
        requires
            old(self).wf(),
        ensures
            final(self).wf(),
            final(self)@ == (CpuState { sp: old(self)@.x, ..old(self)@ }),
    {
        self.sp = self.x;
    }

    /// Reads the opcode at the program counter and resolves its operand from
    /// the opcode's mode group (bits 3 to 5) and bit 0, moving the program
    /// counter past the bytes used.
    fn get_instruction_operand(&mut self) -> (r: Operand)
        requires
            old(self).wf(),
        ensures
            final(self).wf(),
            operand_in_range(r),
            r == resolved_operand(old(self)@),
            final(self)@ == advanced(old(self)@, resolved_length(old(self)@.mem[old(self)@.pc])),
    {
        let instruction = self.get_next_byte();
        proof {
            lemma_opcode_fields(instruction);
        }
        let group = (instruction >> 3u8) & 7;
        if group == 0 {
            if instruction & 1 == 0 {
                Operand::Immediate(self.get_next_byte())
            } else {
                // Zero page pre-indexed X
                Operand::Memory(self.get_next_byte().wrapping_add(self.x) as usize)
            }
        } else if group == 1 {
            // Zero page
            Operand::Memory(self.get_next_byte() as usize)
        } else if group == 2 {
            if instruction & 1 == 0 {
                Operand::Accumulator
            } else {
                Operand::Immediate(self.get_next_byte())
            }
        } else if group == 3 {
            Operand::Memory(self.get_address_from_code())
        } else if group == 4 {
            // Zero page post-indexed Y, kept inside page zero
            let location = self.get_next_byte() as usize;
            let address = self.get_address_from_memory(location) + self.y as usize;
            proof {
                lemma_low_bits(address);
            }
            Operand::Memory(address & 255)
        } else if group == 5 {
            // Zero page indexed X
            let location = self.get_next_byte().wrapping_add(self.x) as usize;
            Operand::Memory(self.get_address_from_memory(location))
        } else if group == 6 {
            // Absolute indexed Y
            Operand::Memory((self.get_address_from_code() + self.y as usize) % MEMORY_SIZE)
        } else {
            // Absolute indexed X
            Operand::Memory((self.get_address_from_code() + self.x as usize) % MEMORY_SIZE)
        }
    }

    /// Moves the program counter past the instruction and returns its operand.
    fn fetch_operand(&mut self, mode: Mode) -> (r: Operand)
        requires
            old(self).wf(),
        ensures
            final(self).wf(),
            operand_in_range(r),
            (final(self)@, r) == fetch_state(old(self)@, mode),
    {
        match mode {
            Mode::Implied => {
                self.get_next_byte();
                Operand::Implied
            },
            Mode::Accumulator => {
                self.get_next_byte();
                Operand::Accumulator
            },
            Mode::Relative => {
                self.get_next_byte();
                Operand::Immediate(self.get_next_byte())
            },
            Mode::Absolute => {
                self.get_next_byte();
                Operand::Memory(self.get_address_from_code())
            },
            Mode::Indirect => {
                self.get_next_byte();
                let pointer = self.get_address_from_code();
                Operand::Memory(self.get_address_from_memory(pointer))
            },
            Mode::Resolved => self.get_instruction_operand(),
        }
    }

    /// Carries out one operation on an operand already fetched.
    fn execute(&mut self, m: Mnemonic, op: Operand)
        requires
            old(self).wf(),
            operand_in_range(op),
        ensures
            final(self).wf(),
            final(self)@ == execute_state(old(self)@, m, op),
    {
        reveal(execute_state);
        match m {
            Mnemonic::Adc => self.adc(op),
            Mnemonic::And => self.and(op),
            Mnemonic::Asl => self.asl(op),
            Mnemonic::Bcc => self.bcc(op),
            Mnemonic::Bcs => self.bcs(op),
            Mnemonic::Beq => self.beq(op),
            Mnemonic::Bit => self.bit(op),
            Mnemonic::Bmi => self.bmi(op),
            Mnemonic::Bne => self.bne(op),
            Mnemonic::Bpl => self.bpl(op),
            Mnemonic::Brk => self.brk(),
            Mnemonic::Bvc => self.bvc(op),
            Mnemonic::Bvs => self.bvs(op),
            Mnemonic::Clc => self.clc(),
            Mnemonic::Cld => self.cld(),
            Mnemonic::Cli => self.cli(),
            Mnemonic::Clv => self.clv(),
            Mnemonic::Cmp => self.cmp(op),
            Mnemonic::Cpx => self.cpx(op),
            Mnemonic::Cpy => self.cpy(op),
            Mnemonic::Dec => self.dec(op),
            Mnemonic::Dex => self.dex(),
            Mnemonic::Dey => self.dey(),
            Mnemonic::Eor => self.eor(op),
            Mnemonic::Inc => self.inc(op),
            Mnemonic::Inx => self.inx(),
            Mnemonic::Iny => self.iny(),
            Mnemonic::Jmp => {
                if let Operand::Memory(_) = op {
                    self.jmp(op)
                }
            },
            Mnemonic::Jsr => {
                if let Operand::Memory(_) = op {
                    self.jsr(op)
                }
            },
            Mnemonic::Lda => self.lda(op),
            Mnemonic::Ldx => self.ldx(op),
            Mnemonic::Ldy => self.ldy(op),
            Mnemonic::Lsr => self.lsr(op),
            Mnemonic::Ora => self.ora(op),
            Mnemonic::Pha => self.pha(),
            Mnemonic::Php => self.php(),
            Mnemonic::Pla => self.pla(),
            Mnemonic::Plp => self.plp(),
            Mnemonic::Rol => self.rol_mem(op),
            Mnemonic::Ror => self.ror_mem(op),
            Mnemonic::Rti => self.rti(),
            Mnemonic::Rts => self.rts(),
            Mnemonic::Sbc => self.sbc(op),
            Mnemonic::Sec => self.sec(),
            Mnemonic::Sed => self.sed(),
            Mnemonic::Sei => self.sei(),
            Mnemonic::Sta => self.sta(op),
            Mnemonic::Stx => self.stx(op),
            Mnemonic::Sty => self.sty(op),
            Mnemonic::Tax => self.tax(),
            Mnemonic::Tay => self.tay(),
            Mnemonic::Tsx => self.tsx(),
            Mnemonic::Txa => self.txa(),
            Mnemonic::Txs => self.txs(),
            Mnemonic::Tya => self.tya(),
            Mnemonic::Nop => (),
        }
    }

    /// Executes the instruction at the program counter and counts one cycle.
    pub fn step(&mut self)
        requires
            old(self).wf(),
        ensures
            final(self).wf(),
            final(self)@ == step_state(old(self)@),
    {
        let opcode = self.mem[self.pc];
        let (m, mode) = decode(opcode);
        let op = self.fetch_operand(mode);
        self.execute(m, op);
        self.cc = self.cc.wrapping_add(1);
    }
}

} // verus!
