use nespump::Nes;

#[test]
fn asl_and_lsr_shift() {
    let mut nes = Nes::default();
    for x in 0..=255u8 {
        assert_eq!(nes.asl(x), x << 1);
        assert_eq!(nes.carry, x >= 0x80);
        assert_eq!(nes.lsr(x), x >> 1);
        assert_eq!(nes.carry, x & 1 == 1);
    }
}

#[test]
fn ror_undoes_rol() {
    let mut nes = Nes::default();
    for c in [false, true] {
        for x in 0..=255u8 {
            nes.carry = c;
            let y = nes.rol(x);
            assert_eq!(nes.ror(y), x);
            assert_eq!(nes.carry, c);
        }
    }
}

#[test]
fn rol_exact_values() {
    let mut nes = Nes::default();
    nes.carry = true;
    assert_eq!(nes.rol(0x80), 0x01);
    assert!(nes.carry);
    assert_eq!(nes.ror(0x01), 0x80);
    assert!(nes.carry);
    assert!(nes.negative);
}

#[test]
fn adc_then_sbc_restores_a() {
    let mut nes = Nes::default();
    for a in (0..=255u8).step_by(7) {
        for op in (0..=255u8).step_by(5) {
            nes.a = a;
            nes.carry = false;
            nes.a = nes.adc(op);
            nes.carry = true;
            assert_eq!(nes.sbc(op), a);
            if (a as u16) + (op as u16) + 1 <= 0xff {
                nes.a = a;
                nes.carry = true;
                nes.a = nes.adc(op);
                assert_eq!(nes.sbc(op), a);
            }
        }
    }
}

#[test]
fn adc_carry_out_and_zero() {
    let mut nes = Nes::default();
    nes.a = 0xff;
    nes.carry = false;
    assert_eq!(nes.adc(0x01), 0x00);
    assert!(nes.carry && nes.zero && !nes.overflow);
}

#[test]
fn bit_copies_top_bits() {
    let mut nes = Nes::default();
    nes.a = 0x01;
    nes.bit(0xc0);
    assert!(nes.zero && nes.overflow && nes.negative);
}

#[test]
fn inc_dec_wrap() {
    let mut nes = Nes::default();
    assert_eq!(nes.inc(0xff), 0x00);
    assert!(nes.zero);
    assert_eq!(nes.dec(0x00), 0xff);
    assert!(nes.negative);
}

#[test]
fn logic_ops() {
    let mut nes = Nes::default();
    nes.a = 0xf0;
    assert_eq!(nes.and(0x3c), 0x30);
    assert_eq!(nes.ora(0x0f), 0xff);
    assert!(nes.negative);
    assert_eq!(nes.eor(0xf0), 0x00);
    assert!(nes.zero);
}

#[test]
fn status_byte_layout() {
    let mut nes = Nes::default();
    assert_eq!(nes.get_flags_byte(false), 0x24);
    assert_eq!(nes.get_flags_byte(true), 0x34);
    nes.negative = true;
    nes.carry = true;
    nes.interrupt_disable = false;
    assert_eq!(nes.get_flags_byte(false), 0xa1);
    nes.push(0xff);
    nes.pop_flags();
    assert!(nes.negative && nes.overflow && nes.decimal_mode && nes.interrupt_disable);
    assert!(nes.zero && nes.carry);
}

#[test]
fn is_negative_checks_top_bit() {
    assert!(nespump::is_negative(0x80));
    assert!(!nespump::is_negative(0x7f));
}
