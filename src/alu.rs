use vstd::prelude::*;
use crate::bus::wrap8;
use crate::state::{is_negative, Nes, NesState};

verus! {

/// Whether a byte is negative as a two's complement number.
pub open spec fn neg(v: u8) -> bool {
    v >= 0x80
}

pub open spec fn carry_in(s: NesState) -> int {
    if s.carry {
        1
    } else {
        0
    }
}

/// ADC: A + op + C; C from the unsigned overflow, V when A and op share a sign
/// that the result does not.
pub open spec fn adc_spec(s: NesState, op: u8) -> (NesState, u8) {
    let sum = s.a + op + carry_in(s);
    let r = wrap8(sum);
    (
        NesState { carry: sum > 0xff, overflow: neg(s.a) == neg(op) && neg(r) != neg(op), ..s.with_nz(r) },
        r,
    )
}

/// SBC is ADC of the complemented operand (no decimal mode on this CPU).
pub open spec fn sbc_spec(s: NesState, op: u8) -> (NesState, u8) {
    adc_spec(s, (0xff - op) as u8)
}

pub open spec fn and_spec(s: NesState, op: u8) -> (NesState, u8) {
    (s.with_nz(s.a & op), s.a & op)
}

pub open spec fn ora_spec(s: NesState, op: u8) -> (NesState, u8) {
    (s.with_nz(s.a | op), s.a | op)
}

pub open spec fn eor_spec(s: NesState, op: u8) -> (NesState, u8) {
    (s.with_nz(s.a ^ op), s.a ^ op)
}

/// ASL: shift left, bit 7 into C.
pub open spec fn asl_spec(s: NesState, op: u8) -> (NesState, u8) {
    let r = wrap8(op * 2);
    (NesState { carry: neg(op), ..s.with_nz(r) }, r)
}

/// LSR: shift right, bit 0 into C.
pub open spec fn lsr_spec(s: NesState, op: u8) -> (NesState, u8) {
    let r = (op / 2) as u8;
    (NesState { carry: op % 2 == 1, ..s.with_nz(r) }, r)
}

/// ROL: shift left through the carry.
pub open spec fn rol_spec(s: NesState, op: u8) -> (NesState, u8) {
    let r = wrap8(op * 2 + carry_in(s));
    (NesState { carry: neg(op), ..s.with_nz(r) }, r)
}

/// ROR: shift right through the carry.
pub open spec fn ror_spec(s: NesState, op: u8) -> (NesState, u8) {
    let r = (carry_in(s) * 0x80 + op / 2) as u8;
    (NesState { carry: op % 2 == 1, ..s.with_nz(r) }, r)
}

/// BIT: Z from A & op, V and N copied from bits 6 and 7 of op.
pub open spec fn bit_spec(s: NesState, op: u8) -> NesState {
    NesState { zero: s.a & op == 0, overflow: op & 0x40 != 0, negative: neg(op), ..s }
}

/// CMP, CPX, CPY: C when reg >= op, N and Z from reg - op.
pub open spec fn cmp_spec(s: NesState, reg: u8, op: u8) -> NesState {
    NesState { carry: reg >= op, ..s.with_nz(wrap8(reg - op)) }
}

pub open spec fn inc_spec(s: NesState, v: u8) -> (NesState, u8) {
    (s.with_nz(wrap8(v + 1)), wrap8(v + 1))
}

pub open spec fn dec_spec(s: NesState, v: u8) -> (NesState, u8) {
    (s.with_nz(wrap8(v - 1)), wrap8(v - 1))
}

/// ROR undoes ROL when the carry that ROL produced is fed back, and the
/// carry comes back as it was.
pub proof fn lemma_ror_undoes_rol(s: NesState, x: u8)
    ensures
        ror_spec(rol_spec(s, x).0, rol_spec(s, x).1).1 == x,
        ror_spec(rol_spec(s, x).0, rol_spec(s, x).1).0.carry == s.carry,
{
}

/// ROL undoes ROR when the carry that ROR produced is fed back, and the
/// carry comes back as it was.
pub proof fn lemma_rol_undoes_ror(s: NesState, x: u8)
    ensures
        rol_spec(ror_spec(s, x).0, ror_spec(s, x).1).1 == x,
        rol_spec(ror_spec(s, x).0, ror_spec(s, x).1).0.carry == s.carry,
{
}

/// With C set, ADC of `op` then SBC of `op` (the carry handed on from the ADC)
/// gives A back, for every A and op whose sum A + op + 1 fits in a byte.
pub proof fn lemma_adc_then_sbc_restores_a(s: NesState, op: u8)
    requires
        s.carry,
        s.a + op + 1 <= 0xff,
    ensures
        ({
            let (s1, r1) = adc_spec(s, op);
            sbc_spec(NesState { a: r1, ..s1 }, op).1 == s.a
        }),
{
}

/// ADC of `op` with C clear, then SBC of `op` with C set, gives A back for every A and op.
pub proof fn lemma_adc_clear_then_sbc_set_restores_a(s: NesState, op: u8)
    requires
        !s.carry,
    ensures
        ({
            let (s1, r1) = adc_spec(s, op);
            sbc_spec(NesState { a: r1, carry: true, ..s1 }, op).1 == s.a
        }),
{
}

impl Nes {
    pub fn adc(&mut self, op: u8) -> (r: u8)
        ensures
            (final(self)@, r) == adc_spec(old(self)@, op),
    {
        let sum: u16 = self.a as u16 + op as u16 + if self.carry { 1 } else { 0 };
        let result: u8 = (sum % 0x100) as u8;
        self.carry = sum > 0xff;
        self.overflow = (is_negative(self.a) == is_negative(op)) && (is_negative(
            result,
        ) != is_negative(op));
        self.update_nz_flags(result);
        result
    }

    pub fn sbc(&mut self, op: u8) -> (r: u8)
        ensures
            (final(self)@, r) == sbc_spec(old(self)@, op),
    {
        assert(!op == (0xff - op) as u8) by (bit_vector);
        self.adc(!op)
    }

    pub fn and(&mut self, op: u8) -> (r: u8)
        ensures
            (final(self)@, r) == and_spec(old(self)@, op),
    {
        let result: u8 = self.a & op;
        self.update_nz_flags(result);
        result
    }

    pub fn ora(&mut self, op: u8) -> (r: u8)
        ensures
            (final(self)@, r) == ora_spec(old(self)@, op),
    {
        let result: u8 = self.a | op;
        self.update_nz_flags(result);
        result
    }

    pub fn eor(&mut self, op: u8) -> (r: u8)
        ensures
            (final(self)@, r) == eor_spec(old(self)@, op),
    {
        let result: u8 = self.a ^ op;
        self.update_nz_flags(result);
        result
    }

    pub fn asl(&mut self, op: u8) -> (r: u8)
        ensures
            (final(self)@, r) == asl_spec(old(self)@, op),
            r == op << 1u8,
    {
        let result: u8 = op << 1u8;
        assert(op << 1u8 == ((op * 2) % 0x100) as u8) by (bit_vector);
        self.update_nz_flags(result);
        self.carry = is_negative(op);
        result
    }

    pub fn lsr(&mut self, op: u8) -> (r: u8)
        ensures
            (final(self)@, r) == lsr_spec(old(self)@, op),
            r == op >> 1u8,
    {
        let result: u8 = op >> 1u8;
        assert(op >> 1u8 == op / 2) by (bit_vector);
        self.update_nz_flags(result);
        self.carry = op & 1 != 0;
        assert((op & 1 != 0) == (op % 2 == 1)) by (bit_vector);
        result
    }

    pub fn rol(&mut self, op: u8) -> (r: u8)
        ensures
            (final(self)@, r) == rol_spec(old(self)@, op),
    {
        let c: u8 = if self.carry { 1 } else { 0 };
        let result: u8 = (op << 1u8) | c;
        assert(c <= 1 ==> (op << 1u8) | c == ((op * 2 + c) % 0x100) as u8) by (bit_vector);
        self.carry = is_negative(op);
        self.update_nz_flags(result);
        result
    }

    pub fn ror(&mut self, op: u8) -> (r: u8)
        ensures
            (final(self)@, r) == ror_spec(old(self)@, op),
    {
        let c: u8 = if self.carry { 1 } else { 0 };
        let result: u8 = (c << 7u8) | (op >> 1u8);
        assert(c <= 1 ==> (c << 7u8) | (op >> 1u8) == (c * 0x80 + op / 2) as u8) by (bit_vector);
        self.carry = op & 1 != 0;
        assert((op & 1 != 0) == (op % 2 == 1)) by (bit_vector);
        self.update_nz_flags(result);
        result
    }

    pub fn bit(&mut self, op: u8)
        ensures
            final(self)@ == bit_spec(old(self)@, op),
    {
        let result: u8 = self.a & op;
        self.zero = result == 0;
        self.overflow = (op & 0x40) != 0;
        self.negative = is_negative(op);
    }

    pub fn cmp(&mut self, op1: u8, op2: u8)
        ensures
            final(self)@ == cmp_spec(old(self)@, op1, op2),
    {
        self.carry = op1 >= op2;
        self.update_nz_flags(op1.wrapping_sub(op2));
    }

    pub fn inc(&mut self, val: u8) -> (r: u8)
        ensures
            (final(self)@, r) == inc_spec(old(self)@, val),
    {
        let result: u8 = val.wrapping_add(1);
        self.update_nz_flags(result);
        result
    }

    pub fn dec(&mut self, val: u8) -> (r: u8)
        ensures
            (final(self)@, r) == dec_spec(old(self)@, val),
    {
        let result: u8 = val.wrapping_sub(1);
        self.update_nz_flags(result);
        result
    }
}

} // verus!
