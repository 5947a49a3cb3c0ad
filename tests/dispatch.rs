use cpu2a03::{Flags, CPU2A03};

fn load(cpu: &mut CPU2A03, at: u16, bytes: &[u8]) {
    for (i, b) in bytes.iter().enumerate() {
        cpu.write(at + i as u16, *b);
    }
}

#[test]
fn jsr_then_rts_returns_after_call() {
    let mut cpu = CPU2A03::new();
    load(&mut cpu, 0x1000, &[0x20, 0x20, 0x00]);
    load(&mut cpu, 0x2000, &[0x60]);
    cpu.set_pc(0x1000);
    cpu.step();
    assert_eq!(cpu.pc(), 0x2000);
    assert_eq!(cpu.sp(), 2);
    assert_eq!(cpu.read(0x0100), 0x10);
    assert_eq!(cpu.read(0x0101), 0x02);
    cpu.step();
    assert_eq!(cpu.pc(), 0x1003);
    assert_eq!(cpu.sp(), 0);
    assert_eq!(cpu.cycles(), 2);
}

#[test]
fn brk_then_rti_restores_flags() {
    let mut cpu = CPU2A03::new();
    load(&mut cpu, 0xFFFE, &[0x30, 0x00]);
    load(&mut cpu, 0x3000, &[0x40]);
    load(&mut cpu, 0x0400, &[0x00]);
    cpu.sec();
    cpu.sed();
    let before: Flags = cpu.flags();
    cpu.set_pc(0x0400);
    cpu.step();
    assert_eq!(cpu.pc(), 0x3000);
    assert!(cpu.flags().interrupt_disable);
    assert!(cpu.flags().brk);
    assert_eq!(cpu.read(0x0100), 0x04);
    assert_eq!(cpu.read(0x0101), 0x02);
    assert_eq!(cpu.read(0x0102), 0x39);
    assert_eq!(cpu.sp(), 3);
    cpu.step();
    assert_eq!(cpu.pc(), 0x0402);
    assert_eq!(cpu.sp(), 0);
    assert_eq!(cpu.flags(), Flags { brk: true, ..before });
}

#[test]
fn branch_taken_and_not_taken() {
    let mut cpu = CPU2A03::new();
    load(&mut cpu, 0x0600, &[0xD0, 0x05]);
    load(&mut cpu, 0x0700, &[0xD0, 0xFB]);
    cpu.ldx(cpu2a03::Operand::Immediate(1));
    let flags = cpu.get_status();
    cpu.set_pc(0x0600);
    cpu.step();
    assert_eq!(cpu.pc(), 0x0607);
    cpu.set_pc(0x0700);
    cpu.step();
    assert_eq!(cpu.pc(), 0x0702 - 5);
    assert_eq!(cpu.get_status(), flags);
    cpu.ldx(cpu2a03::Operand::Immediate(0));
    cpu.set_pc(0x0600);
    cpu.step();
    assert_eq!(cpu.pc(), 0x0602);
    cpu.set_pc(0x0700);
    cpu.step();
    assert_eq!(cpu.pc(), 0x0702);
}

#[test]
fn every_branch_condition() {
    // opcode, status byte under which it is taken
    let cases: [(u8, u8); 8] = [
        (0x10, 0x00),
        (0x30, 0x80),
        (0x50, 0x00),
        (0x70, 0x40),
        (0x90, 0x00),
        (0xB0, 0x01),
        (0xD0, 0x00),
        (0xF0, 0x02),
    ];
    for (opcode, taken_status) in cases {
        let mut cpu = CPU2A03::new();
        load(&mut cpu, 0x0800, &[opcode, 0x10]);
        cpu.set_status(taken_status);
        cpu.set_pc(0x0800);
        cpu.step();
        assert_eq!(cpu.pc(), 0x0812);
        cpu.set_status(taken_status ^ 0xC3);
        cpu.set_pc(0x0800);
        cpu.step();
        assert_eq!(cpu.pc(), 0x0802);
    }
}

#[test]
fn resolve_group0_immediate() {
    let mut cpu = CPU2A03::new();
    cpu.ldy(cpu2a03::Operand::Immediate(0x05));
    load(&mut cpu, 0x0700, &[0xC0, 0x05]);
    cpu.set_pc(0x0700);
    cpu.step();
    assert!(cpu.flags().zero);
    assert!(cpu.flags().carry);
    assert_eq!(cpu.pc(), 0x0702);
}

#[test]
fn resolve_group0_zero_page_x() {
    let mut cpu = CPU2A03::new();
    cpu.ldx(cpu2a03::Operand::Immediate(0x04));
    cpu.lda(cpu2a03::Operand::Immediate(0x30));
    cpu.write(0x02, 0x0F);
    load(&mut cpu, 0x0700, &[0x01, 0xFE]);
    cpu.set_pc(0x0700);
    cpu.step();
    assert_eq!(cpu.a(), 0x3F);
    assert_eq!(cpu.pc(), 0x0702);
}

#[test]
fn resolve_group1_zero_page() {
    let mut cpu = CPU2A03::new();
    cpu.write(0x20, 0x81);
    load(&mut cpu, 0x0700, &[0x09, 0x20]);
    cpu.set_pc(0x0700);
    cpu.step();
    assert_eq!(cpu.a(), 0x81);
    assert!(cpu.flags().sign);
    assert_eq!(cpu.pc(), 0x0702);
}

#[test]
fn resolve_group2_accumulator_and_immediate() {
    let mut cpu = CPU2A03::new();
    cpu.lda(cpu2a03::Operand::Immediate(0x40));
    load(&mut cpu, 0x0700, &[0x16, 0x11, 0x03]);
    cpu.set_pc(0x0700);
    cpu.step();
    assert_eq!(cpu.a(), 0x80);
    assert_eq!(cpu.pc(), 0x0701);
    cpu.step();
    assert_eq!(cpu.a(), 0x83);
    assert_eq!(cpu.pc(), 0x0703);
}

#[test]
fn resolve_group3_absolute_high_byte_first() {
    let mut cpu = CPU2A03::new();
    cpu.write(0x1234, 0x55);
    load(&mut cpu, 0x0700, &[0x19, 0x12, 0x34]);
    cpu.set_pc(0x0700);
    cpu.step();
    assert_eq!(cpu.a(), 0x55);
    assert_eq!(cpu.pc(), 0x0703);
}

#[test]
fn resolve_group4_indirect_y_in_page_zero() {
    let mut cpu = CPU2A03::new();
    cpu.lda(cpu2a03::Operand::Immediate(0xFF));
    cpu.ldy(cpu2a03::Operand::Immediate(0x10));
    load(&mut cpu, 0x40, &[0x12, 0x34]);
    cpu.write(0x44, 0x0F);
    load(&mut cpu, 0x0700, &[0x21, 0x40]);
    cpu.set_pc(0x0700);
    cpu.step();
    assert_eq!(cpu.a(), 0x0F);
    assert_eq!(cpu.pc(), 0x0702);
}

#[test]
fn resolve_group5_indirect_x() {
    let mut cpu = CPU2A03::new();
    cpu.lda(cpu2a03::Operand::Immediate(0xFF));
    cpu.ldx(cpu2a03::Operand::Immediate(0x02));
    load(&mut cpu, 0x42, &[0x05, 0x00]);
    cpu.write(0x0500, 0xF0);
    load(&mut cpu, 0x0700, &[0x29, 0x40]);
    cpu.set_pc(0x0700);
    cpu.step();
    assert_eq!(cpu.a(), 0xF0);
    assert_eq!(cpu.pc(), 0x0702);
}

#[test]
fn resolve_group6_absolute_y() {
    let mut cpu = CPU2A03::new();
    cpu.lda(cpu2a03::Operand::Immediate(0xFF));
    cpu.ldy(cpu2a03::Operand::Immediate(0x05));
    cpu.write(0x1205, 0x3C);
    load(&mut cpu, 0x0700, &[0x31, 0x12, 0x00]);
    cpu.set_pc(0x0700);
    cpu.step();
    assert_eq!(cpu.a(), 0x3C);
    assert_eq!(cpu.pc(), 0x0703);
}

#[test]
fn resolve_group7_absolute_x_wraps() {
    let mut cpu = CPU2A03::new();
    cpu.lda(cpu2a03::Operand::Immediate(0xFF));
    cpu.ldx(cpu2a03::Operand::Immediate(0x02));
    cpu.write(0x0001, 0x66);
    load(&mut cpu, 0x0700, &[0x39, 0xFF, 0xFF]);
    cpu.set_pc(0x0700);
    cpu.step();
    assert_eq!(cpu.a(), 0x66);
    assert_eq!(cpu.pc(), 0x0703);
}

#[test]
fn jmp_absolute_and_indirect() {
    let mut cpu = CPU2A03::new();
    load(&mut cpu, 0x0700, &[0x4C, 0x20, 0x00]);
    load(&mut cpu, 0x2000, &[0x6C, 0x30, 0x00]);
    load(&mut cpu, 0x3000, &[0x45, 0x67]);
    cpu.set_pc(0x0700);
    cpu.step();
    assert_eq!(cpu.pc(), 0x2000);
    cpu.step();
    assert_eq!(cpu.pc(), 0x4567);
}

#[test]
fn accumulator_shift_opcodes() {
    let mut cpu = CPU2A03::new();
    cpu.lda(cpu2a03::Operand::Immediate(0x81));
    load(&mut cpu, 0x0700, &[0x0A, 0x4A, 0x2A, 0x6A]);
    cpu.set_pc(0x0700);
    cpu.step();
    assert_eq!(cpu.a(), 0x02);
    assert!(cpu.flags().carry);
    cpu.step();
    assert_eq!(cpu.a(), 0x01);
    assert!(!cpu.flags().carry);
    cpu.step();
    assert_eq!(cpu.a(), 0x02);
    cpu.step();
    assert_eq!(cpu.a(), 0x01);
    assert_eq!(cpu.pc(), 0x0704);
}

#[test]
fn unknown_opcode_only_advances() {
    let mut cpu = CPU2A03::new();
    load(&mut cpu, 0x0700, &[0xFF]);
    cpu.set_pc(0x0700);
    let status = cpu.get_status();
    cpu.step();
    assert_eq!(cpu.pc(), 0x0701);
    assert_eq!(cpu.cycles(), 1);
    assert_eq!(cpu.get_status(), status);
    assert_eq!(cpu.a(), 0);
}

#[test]
fn pc_and_cycle_counter_wrap() {
    let mut cpu = CPU2A03::new();
    for addr in 0..=0xFFFFu16 {
        cpu.write(addr, 0xEA);
    }
    cpu.set_pc(0xFFFF);
    cpu.step();
    assert_eq!(cpu.pc(), 0);
    for _ in 1..0x10000u32 {
        cpu.step();
    }
    assert_eq!(cpu.cycles(), 0);
    assert_eq!(cpu.pc(), 0xFFFF);
}
