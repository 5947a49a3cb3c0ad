use cpu2a03::{Flags, Operand, CPU2A03};

fn cpu_with_a(a: u8) -> CPU2A03 {
    let mut cpu = CPU2A03::new();
    cpu.lda(Operand::Immediate(a));
    cpu
}

#[test]
fn new_cpu_is_zeroed() {
    let cpu = CPU2A03::new();
    assert_eq!(cpu.a(), 0);
    assert_eq!(cpu.x(), 0);
    assert_eq!(cpu.y(), 0);
    assert_eq!(cpu.sp(), 0);
    assert_eq!(cpu.pc(), 0);
    assert_eq!(cpu.cycles(), 0);
    assert_eq!(cpu.get_status(), 0x20);
    assert_eq!(cpu.read(0), 0);
    assert_eq!(cpu.read(0xFFFF), 0);
    assert!(cpu.flags().unused);
}

#[test]
fn status_round_trips_for_every_byte() {
    let mut cpu = CPU2A03::new();
    for v in 0..=255u8 {
        cpu.set_status(v);
        assert_eq!(cpu.get_status(), v | 0x20);
        assert!(cpu.flags().unused);
    }
}

#[test]
fn status_bit_order() {
    let mut cpu = CPU2A03::new();
    cpu.set_status(0x01);
    assert!(cpu.flags().carry);
    cpu.set_status(0x02);
    assert!(cpu.flags().zero);
    cpu.set_status(0x04);
    assert!(cpu.flags().interrupt_disable);
    cpu.set_status(0x08);
    assert!(cpu.flags().decimal);
    cpu.set_status(0x10);
    assert!(cpu.flags().brk);
    cpu.set_status(0x40);
    assert!(cpu.flags().overflow);
    cpu.set_status(0x80);
    assert!(cpu.flags().sign);
    assert!(!cpu.flags().carry);
}

#[test]
fn adc_signed_overflow() {
    let mut cpu = cpu_with_a(0x50);
    cpu.clc();
    cpu.adc(Operand::Immediate(0x50));
    assert_eq!(cpu.a(), 0xA0);
    let f = cpu.flags();
    assert!(f.sign);
    assert!(!f.zero);
    assert!(!f.carry);
    assert!(f.overflow);
}

#[test]
fn adc_carry_in_and_out() {
    let mut cpu = cpu_with_a(0xFF);
    cpu.sec();
    cpu.adc(Operand::Immediate(0x00));
    assert_eq!(cpu.a(), 0x00);
    let f = cpu.flags();
    assert!(f.carry);
    assert!(f.zero);
    assert!(!f.sign);
    assert!(!f.overflow);
}

#[test]
fn sbc_borrow_wraps() {
    let mut cpu = cpu_with_a(0x50);
    cpu.sec();
    cpu.sbc(Operand::Immediate(0xF0));
    assert_eq!(cpu.a(), 0x60);
    assert!(!cpu.flags().carry);
    assert!(!cpu.flags().overflow);
}

#[test]
fn sbc_borrow_in_and_overflow() {
    let mut cpu = cpu_with_a(0x80);
    cpu.clc();
    cpu.sbc(Operand::Immediate(0x00));
    assert_eq!(cpu.a(), 0x7F);
    assert!(cpu.flags().carry);
    assert!(cpu.flags().overflow);
    assert!(!cpu.flags().sign);
}

#[test]
fn cmp_register_below_operand() {
    let mut cpu = cpu_with_a(0x10);
    cpu.cmp(Operand::Immediate(0x20));
    let f = cpu.flags();
    assert!(!f.carry);
    assert!(f.sign);
    assert!(!f.zero);
    assert_eq!(cpu.a(), 0x10);
}

#[test]
fn cpx_cpy_equal_and_above() {
    let mut cpu = CPU2A03::new();
    cpu.ldx(Operand::Immediate(0x40));
    cpu.cpx(Operand::Immediate(0x40));
    assert!(cpu.flags().carry);
    assert!(cpu.flags().zero);
    cpu.ldy(Operand::Immediate(0x90));
    cpu.cpy(Operand::Immediate(0x10));
    assert!(cpu.flags().carry);
    assert!(!cpu.flags().zero);
    assert!(cpu.flags().sign);
}

#[test]
fn logic_ops_set_nz() {
    let mut cpu = cpu_with_a(0xF0);
    cpu.and(Operand::Immediate(0x0F));
    assert_eq!(cpu.a(), 0);
    assert!(cpu.flags().zero);
    cpu.ora(Operand::Immediate(0x81));
    assert_eq!(cpu.a(), 0x81);
    assert!(cpu.flags().sign);
    cpu.eor(Operand::Immediate(0xFF));
    assert_eq!(cpu.a(), 0x7E);
    assert!(!cpu.flags().sign);
    assert!(!cpu.flags().zero);
}

#[test]
fn bit_takes_n_v_from_operand() {
    let mut cpu = cpu_with_a(0x01);
    cpu.bit(Operand::Immediate(0xC0));
    let f = cpu.flags();
    assert!(f.sign);
    assert!(f.overflow);
    assert!(f.zero);
    assert_eq!(cpu.a(), 0x01);
}

#[test]
fn asl_then_ror_restores_cell() {
    let mut cpu = CPU2A03::new();
    cpu.write(0x0200, 0x81);
    cpu.asl(Operand::Memory(0x0200));
    assert_eq!(cpu.read(0x0200), 0x02);
    assert!(cpu.flags().carry);
    cpu.ror_mem(Operand::Memory(0x0200));
    assert_eq!(cpu.read(0x0200), 0x81);
    assert!(!cpu.flags().carry);
}

#[test]
fn asl_then_lsr_restores_when_bit7_clear() {
    let mut cpu = CPU2A03::new();
    cpu.write(0x0300, 0x41);
    cpu.asl(Operand::Memory(0x0300));
    assert_eq!(cpu.read(0x0300), 0x82);
    assert!(!cpu.flags().carry);
    cpu.lsr(Operand::Memory(0x0300));
    assert_eq!(cpu.read(0x0300), 0x41);
    assert!(!cpu.flags().carry);
    cpu.write(0x0300, 0x81);
    cpu.asl(Operand::Memory(0x0300));
    cpu.lsr(Operand::Memory(0x0300));
    assert_eq!(cpu.read(0x0300), 0x01);
}

#[test]
fn rotates_on_accumulator() {
    let mut cpu = cpu_with_a(0x80);
    cpu.clc();
    cpu.rol_acc();
    assert_eq!(cpu.a(), 0x00);
    assert!(cpu.flags().carry);
    assert!(cpu.flags().zero);
    cpu.rol_acc();
    assert_eq!(cpu.a(), 0x01);
    assert!(!cpu.flags().carry);
    cpu.ror_acc();
    assert_eq!(cpu.a(), 0x00);
    assert!(cpu.flags().carry);
    cpu.ror_acc();
    assert_eq!(cpu.a(), 0x80);
    assert!(cpu.flags().sign);
}

#[test]
fn inc_dec_wrap() {
    let mut cpu = CPU2A03::new();
    cpu.write(0x10, 0xFF);
    cpu.inc(Operand::Memory(0x10));
    assert_eq!(cpu.read(0x10), 0x00);
    assert!(cpu.flags().zero);
    cpu.dec(Operand::Memory(0x10));
    assert_eq!(cpu.read(0x10), 0xFF);
    assert!(cpu.flags().sign);
    cpu.dex();
    assert_eq!(cpu.x(), 0xFF);
    cpu.inx();
    assert_eq!(cpu.x(), 0x00);
    assert!(cpu.flags().zero);
    cpu.dey();
    assert_eq!(cpu.y(), 0xFF);
    cpu.iny();
    assert_eq!(cpu.y(), 0x00);
}

#[test]
fn transfers() {
    let mut cpu = cpu_with_a(0x80);
    cpu.tax();
    assert_eq!(cpu.x(), 0x80);
    assert!(cpu.flags().sign);
    cpu.tay();
    assert_eq!(cpu.y(), 0x80);
    cpu.lda(Operand::Immediate(0x00));
    cpu.txa();
    assert_eq!(cpu.a(), 0x80);
    cpu.ldy(Operand::Immediate(0x05));
    cpu.tya();
    assert_eq!(cpu.a(), 0x05);
    cpu.ldx(Operand::Immediate(0x00));
    let before = cpu.get_status();
    cpu.ldx(Operand::Immediate(0x33));
    let before_txs = cpu.get_status();
    cpu.txs();
    assert_eq!(cpu.sp(), 0x33);
    assert_eq!(cpu.get_status(), before_txs);
    assert_ne!(before, before_txs);
    cpu.ldx(Operand::Immediate(0x00));
    cpu.tsx();
    assert_eq!(cpu.x(), 0x33);
    assert!(!cpu.flags().zero);
}

#[test]
fn stores_and_read_only_operands() {
    let mut cpu = cpu_with_a(0x42);
    cpu.sta(Operand::Memory(0x0400));
    assert_eq!(cpu.read(0x0400), 0x42);
    cpu.ldx(Operand::Immediate(0x43));
    cpu.stx(Operand::Memory(0x0401));
    assert_eq!(cpu.read(0x0401), 0x43);
    cpu.ldy(Operand::Immediate(0x44));
    cpu.sty(Operand::Memory(0x0402));
    assert_eq!(cpu.read(0x0402), 0x44);
    cpu.sta(Operand::Immediate(0x00));
    cpu.sta(Operand::Implied);
    assert_eq!(cpu.a(), 0x42);
}

#[test]
fn stack_push_pull() {
    let mut cpu = cpu_with_a(0x99);
    cpu.pha();
    assert_eq!(cpu.sp(), 1);
    assert_eq!(cpu.read(0x0100), 0x99);
    cpu.sec();
    cpu.php();
    assert_eq!(cpu.read(0x0101), 0xA1);
    cpu.clc();
    cpu.plp();
    assert!(cpu.flags().carry);
    cpu.lda(Operand::Immediate(0));
    cpu.pla();
    assert_eq!(cpu.a(), 0x99);
    assert!(cpu.flags().sign);
    assert_eq!(cpu.sp(), 0);
}

#[test]
fn stack_pointer_wraps_in_page_one() {
    let mut cpu = CPU2A03::new();
    cpu.ldx(Operand::Immediate(0xFF));
    cpu.txs();
    cpu.lda(Operand::Immediate(0x12));
    cpu.pha();
    assert_eq!(cpu.read(0x01FF), 0x12);
    assert_eq!(cpu.sp(), 0x00);
    cpu.pla();
    assert_eq!(cpu.sp(), 0xFF);
    assert_eq!(cpu.a(), 0x12);
}

#[test]
fn flag_instructions() {
    let mut cpu = CPU2A03::new();
    cpu.sec();
    cpu.sed();
    cpu.sei();
    assert_eq!(cpu.get_status(), 0x2D);
    cpu.clc();
    cpu.cld();
    cpu.cli();
    assert_eq!(cpu.get_status(), 0x20);
    cpu.set_status(0x40);
    cpu.clv();
    assert_eq!(cpu.get_status(), 0x20);
    assert_eq!(
        cpu.flags(),
        Flags {
            carry: false,
            zero: false,
            interrupt_disable: false,
            decimal: false,
            brk: false,
            unused: true,
            overflow: false,
            sign: false,
        }
    );
}

#[test]
fn jmp_sets_pc() {
    let mut cpu = CPU2A03::new();
    cpu.jmp(Operand::Memory(0x1234));
    assert_eq!(cpu.pc(), 0x1234);
}
