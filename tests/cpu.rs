use nespump::cpu::StepError;
use nespump::Nes;

fn console_at(pc: u16, program: &[u8]) -> Nes {
    let mut nes = Nes::default();
    for (i, &b) in program.iter().enumerate() {
        nes.write(pc.wrapping_add(i as u16), b);
    }
    nes.pc = pc;
    nes
}

#[test]
fn lda_immediate_loads_and_sets_flags() {
    let mut nes = console_at(0xc000, &[0xa9, 0x42]);
    assert_eq!(nes.step(), Ok(()));
    assert_eq!(nes.a, 0x42);
    assert!(!nes.zero);
    assert!(!nes.negative);
    assert_eq!(nes.pc, 0xc002);
    assert_eq!(nes.cycles, 2);
}

#[test]
fn adc_immediate_signed_overflow() {
    let mut nes = console_at(0xc000, &[0x69, 0x50]);
    nes.a = 0x50;
    nes.carry = false;
    assert_eq!(nes.step(), Ok(()));
    assert_eq!(nes.a, 0xa0);
    assert!(!nes.carry);
    assert!(nes.overflow);
    assert!(nes.negative);
    assert!(!nes.zero);
    assert_eq!(nes.cycles, 2);
}

#[test]
fn jsr_then_rts() {
    let mut nes = console_at(0xc000, &[0x20, 0x05, 0xc0, 0xea, 0xea, 0x60]);
    assert_eq!(nes.s, 0xfd);
    assert_eq!(nes.step(), Ok(()));
    assert_eq!(nes.s, 0xfb);
    assert_eq!(nes.ram[0x1fd], 0xc0);
    assert_eq!(nes.ram[0x1fc], 0x02);
    assert_eq!(nes.pc, 0xc005);
    assert_eq!(nes.cycles, 6);
    assert_eq!(nes.step(), Ok(()));
    assert_eq!(nes.s, 0xfd);
    assert_eq!(nes.pc, 0xc003);
    assert_eq!(nes.cycles, 12);
}

#[test]
fn taken_branch_across_page() {
    let mut nes = console_at(0x80f5, &[0xd0, 0x10]);
    nes.zero = false;
    assert_eq!(nes.step(), Ok(()));
    assert_eq!(nes.pc, 0x8107);
    assert_eq!(nes.cycles, 4);
}

#[test]
fn branch_not_taken_costs_two() {
    let mut nes = console_at(0x80f5, &[0xd0, 0x10]);
    nes.zero = true;
    assert_eq!(nes.step(), Ok(()));
    assert_eq!(nes.pc, 0x80f7);
    assert_eq!(nes.cycles, 2);
}

#[test]
fn taken_branch_same_page_backwards() {
    let mut nes = console_at(0xc010, &[0xf0, 0xfc]);
    nes.zero = true;
    assert_eq!(nes.step(), Ok(()));
    assert_eq!(nes.pc, 0xc00e);
    assert_eq!(nes.cycles, 3);
}

#[test]
fn indirect_jump_wraps_within_page() {
    let mut nes = console_at(0xc000, &[0x6c, 0xff, 0x02]);
    nes.write(0x02ff, 0x34);
    nes.write(0x0200, 0x12);
    nes.write(0x0300, 0x56);
    assert_eq!(nes.step(), Ok(()));
    assert_eq!(nes.pc, 0x1234);
    assert_eq!(nes.cycles, 5);
}

#[test]
fn absolute_x_read_pays_for_page_cross() {
    let mut nes = console_at(0xc000, &[0xbd, 0xff, 0x00]);
    nes.x = 1;
    nes.write(0x0100, 0x77);
    assert_eq!(nes.step(), Ok(()));
    assert_eq!(nes.a, 0x77);
    assert_eq!(nes.cycles, 5);
}

#[test]
fn absolute_x_store_has_fixed_cost() {
    let mut nes = console_at(0xc000, &[0x9d, 0xff, 0x00]);
    nes.x = 1;
    nes.a = 0x99;
    assert_eq!(nes.step(), Ok(()));
    assert_eq!(nes.ram[0x0100], 0x99);
    assert_eq!(nes.cycles, 5);
}

#[test]
fn indirect_y_read_pays_for_page_cross() {
    let mut nes = console_at(0xc000, &[0xb1, 0x10]);
    nes.write(0x0010, 0xff);
    nes.write(0x0011, 0x02);
    nes.write(0x0300, 0x5a);
    nes.y = 1;
    assert_eq!(nes.step(), Ok(()));
    assert_eq!(nes.a, 0x5a);
    assert_eq!(nes.cycles, 6);
}

#[test]
fn indexed_indirect_wraps_in_zero_page() {
    let mut nes = console_at(0xc000, &[0xa1, 0xfe]);
    nes.x = 1;
    nes.write(0x00ff, 0x34);
    nes.write(0x0000, 0x02);
    nes.write(0x0234, 0x66);
    assert_eq!(nes.step(), Ok(()));
    assert_eq!(nes.a, 0x66);
    assert_eq!(nes.cycles, 6);
}

#[test]
fn zero_page_x_wraps() {
    let mut nes = console_at(0xc000, &[0xb5, 0xf0]);
    nes.x = 0x20;
    nes.write(0x0010, 0x44);
    assert_eq!(nes.step(), Ok(()));
    assert_eq!(nes.a, 0x44);
    assert_eq!(nes.cycles, 4);
}

#[test]
fn illegal_opcode_is_reported() {
    let mut nes = console_at(0xc000, &[0x02]);
    assert_eq!(nes.step(), Err(StepError::IllegalOpcode(0x02)));
    assert_eq!(nes.cycles, 0);
}

#[test]
fn php_pushes_status_with_bits_4_and_5() {
    let mut nes = console_at(0xc000, &[0x08]);
    nes.carry = true;
    nes.interrupt_disable = false;
    assert_eq!(nes.step(), Ok(()));
    assert_eq!(nes.ram[0x1fd], 0x31);
    assert_eq!(nes.s, 0xfc);
    assert_eq!(nes.cycles, 3);
}

#[test]
fn plp_restores_flags_from_php() {
    let mut nes = console_at(0xc000, &[0x08, 0x18, 0xb8, 0x28]);
    nes.carry = true;
    nes.overflow = true;
    nes.negative = true;
    assert_eq!(nes.step(), Ok(()));
    assert_eq!(nes.step(), Ok(()));
    assert_eq!(nes.step(), Ok(()));
    assert!(!nes.carry && !nes.overflow);
    assert_eq!(nes.step(), Ok(()));
    assert!(nes.carry && nes.overflow && nes.negative);
    assert_eq!(nes.s, 0xfd);
}

#[test]
fn brk_pushes_and_jumps_through_vector() {
    let mut nes = console_at(0xc000, &[0x00]);
    nes.write(0xfffe, 0x00);
    nes.write(0xffff, 0xd0);
    nes.interrupt_disable = false;
    assert_eq!(nes.step(), Ok(()));
    assert_eq!(nes.pc, 0xd000);
    assert!(nes.interrupt_disable);
    assert_eq!(nes.ram[0x1fd], 0xc0);
    assert_eq!(nes.ram[0x1fc], 0x02);
    assert_eq!(nes.ram[0x1fb], 0x30);
    assert_eq!(nes.s, 0xfa);
    assert_eq!(nes.cycles, 7);
}

#[test]
fn rti_returns_from_brk() {
    let mut nes = console_at(0xc000, &[0x00]);
    nes.write(0xfffe, 0x00);
    nes.write(0xffff, 0xd0);
    nes.write(0xd000, 0x40);
    nes.carry = true;
    nes.interrupt_disable = false;
    assert_eq!(nes.step(), Ok(()));
    assert_eq!(nes.step(), Ok(()));
    assert_eq!(nes.pc, 0xc002);
    assert!(nes.carry);
    assert!(!nes.interrupt_disable);
    assert_eq!(nes.s, 0xfd);
    assert_eq!(nes.cycles, 13);
}

#[test]
fn ppuctrl_nmi_enable_enters_nmi_on_next_step() {
    let mut nes = console_at(0xc000, &[0xa9, 0x80, 0x8d, 0x00, 0x20, 0xea]);
    nes.write(0xfffa, 0x00);
    nes.write(0xfffb, 0xe0);
    assert_eq!(nes.step(), Ok(()));
    assert_eq!(nes.step(), Ok(()));
    assert!(nes.nmi_pending);
    assert_eq!(nes.pc, 0xc005);
    assert_eq!(nes.cycles, 6);
    assert_eq!(nes.step(), Ok(()));
    assert!(!nes.nmi_pending);
    assert_eq!(nes.pc, 0xe000);
    assert_eq!(nes.cycles, 13);
    assert_eq!(nes.ram[0x1fd], 0xc0);
    assert_eq!(nes.ram[0x1fc], 0x05);
    // pushed with B clear and bit 5 set
    assert_eq!(nes.ram[0x1fb] & 0x30, 0x20);
}

#[test]
fn sbc_immediate_borrows() {
    let mut nes = console_at(0xc000, &[0xe9, 0x01]);
    nes.a = 0x00;
    nes.carry = true;
    assert_eq!(nes.step(), Ok(()));
    assert_eq!(nes.a, 0xff);
    assert!(!nes.carry);
    assert!(nes.negative);
    assert!(!nes.overflow);
}

#[test]
fn cmp_sets_carry_and_flags() {
    let mut nes = console_at(0xc000, &[0xc9, 0x10, 0xc9, 0x30]);
    nes.a = 0x20;
    assert_eq!(nes.step(), Ok(()));
    assert!(nes.carry && !nes.zero && !nes.negative);
    assert_eq!(nes.step(), Ok(()));
    assert!(!nes.carry && !nes.zero && nes.negative);
    assert_eq!(nes.a, 0x20);
}

#[test]
fn inc_memory_read_modify_write() {
    let mut nes = console_at(0xc000, &[0xee, 0x00, 0x03]);
    nes.write(0x0300, 0xff);
    assert_eq!(nes.step(), Ok(()));
    assert_eq!(nes.ram[0x0300], 0x00);
    assert!(nes.zero);
    assert_eq!(nes.cycles, 6);
}

#[test]
fn asl_accumulator_and_memory() {
    let mut nes = console_at(0xc000, &[0x0a, 0x06, 0x10]);
    nes.a = 0x81;
    nes.write(0x0010, 0x40);
    assert_eq!(nes.step(), Ok(()));
    assert_eq!(nes.a, 0x02);
    assert!(nes.carry);
    assert_eq!(nes.step(), Ok(()));
    assert_eq!(nes.ram[0x10], 0x80);
    assert!(!nes.carry && nes.negative);
    assert_eq!(nes.cycles, 7);
}

#[test]
fn transfers_and_txs_flags() {
    let mut nes = console_at(0xc000, &[0xaa, 0x9a, 0xba]);
    nes.a = 0x00;
    nes.negative = true;
    assert_eq!(nes.step(), Ok(()));
    assert!(nes.zero && !nes.negative);
    nes.x = 0x80;
    nes.zero = false;
    assert_eq!(nes.step(), Ok(()));
    assert_eq!(nes.s, 0x80);
    assert!(!nes.zero && !nes.negative);
    assert_eq!(nes.step(), Ok(()));
    assert!(nes.negative);
}

#[test]
fn decimal_flag_does_not_change_adc() {
    let mut nes = console_at(0xc000, &[0xf8, 0x69, 0x09]);
    nes.a = 0x09;
    assert_eq!(nes.step(), Ok(()));
    assert!(nes.decimal_mode);
    assert_eq!(nes.step(), Ok(()));
    assert_eq!(nes.a, 0x12);
}

#[test]
fn every_step_advances_cycles() {
    let mut nes = console_at(0xc000, &[0xea, 0xe8, 0xc8, 0x18, 0x38, 0x48, 0x68]);
    let mut last = nes.cycles;
    for _ in 0..7 {
        assert_eq!(nes.step(), Ok(()));
        assert!(nes.cycles > last);
        last = nes.cycles;
    }
    assert_eq!(nes.cycles, 2 + 2 + 2 + 2 + 2 + 3 + 4);
}

#[test]
fn irq_masked_by_interrupt_disable() {
    let mut nes = console_at(0xc000, &[0xea]);
    nes.write(0xfffe, 0x00);
    nes.write(0xffff, 0xd0);
    nes.irq_interrupt();
    assert_eq!(nes.pc, 0xc000);
    assert_eq!(nes.cycles, 0);
    nes.interrupt_disable = false;
    nes.irq_interrupt();
    assert_eq!(nes.pc, 0xd000);
    assert!(nes.interrupt_disable);
    assert_eq!(nes.ram[0x1fb], 0x20);
    assert_eq!(nes.cycles, 7);
}

#[test]
fn modify_absolute_x_has_fixed_cost_across_page() {
    let mut nes = console_at(0xc000, &[0x1e, 0xff, 0x00, 0x91, 0x10]);
    nes.x = 1;
    nes.write(0x0100, 0x01);
    assert_eq!(nes.step(), Ok(()));
    assert_eq!(nes.ram[0x0100], 0x02);
    assert_eq!(nes.cycles, 7);
    nes.write(0x0010, 0xff);
    nes.write(0x0011, 0x02);
    nes.y = 1;
    nes.a = 0x3c;
    assert_eq!(nes.step(), Ok(()));
    assert_eq!(nes.ram[0x0300], 0x3c);
    assert_eq!(nes.cycles, 13);
}
