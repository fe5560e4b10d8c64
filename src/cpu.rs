use vstd::prelude::*;
use crate::alu::{
    adc_spec, and_spec, asl_spec, bit_spec, cmp_spec, dec_spec, eor_spec, inc_spec, lsr_spec,
    ora_spec, rol_spec, ror_spec, sbc_spec,
};
use crate::bus::{
    pop16_spec, pop_spec, push16_spec, push_spec, read16_spec, read_spec, word, wrap16, wrap8,
    write_spec, lemma_word_bits, same_registers,
};
use crate::opcodes::{decode, instruction_length, instruction_of, length_of, Instruction, Mnemonic, Mode};
use crate::state::{
    status_byte, with_status, Nes, NesState, BRK_VECTOR, CYCLE_LIMIT, NMI_VECTOR, OAMDMA,
    lemma_status_byte_bit5,
};

verus! {

/// An operand's effective address, and whether indexing it crossed a page.
#[derive(Clone, Copy, Debug, PartialEq, Eq)]
pub struct Operand {
    pub addr: u16,
    pub page_crossed: bool,
}

/// Why `step` could not run an instruction.
#[derive(Clone, Copy, Debug, PartialEq, Eq)]
pub enum StepError {
    /// The byte at PC is not a documented opcode.
    IllegalOpcode(u8),
}

/// The high byte of an address.
pub open spec fn page_of(addr: u16) -> int {
    (addr / 0x100) as int
}

/// The 6502 indirect-jump pointer read: the high byte comes from `ptr + 1`
/// within the same page, so a pointer at 0xXXFF wraps to 0xXX00.
pub open spec fn indirect_target_spec(s: NesState, ptr: u16) -> (NesState, u16) {
    let (s1, hi) = read_spec(s, (ptr - ptr % 0x100 + (ptr % 0x100 + 1) % 0x100) as u16);
    let (s2, lo) = read_spec(s1, ptr);
    (s2, word(hi, lo))
}

/// The indirect jump through 0x02FF takes its high byte from 0x0200, not 0x0300.
pub proof fn lemma_indirect_jump_page_wrap(s: NesState)
    ensures
        indirect_target_spec(s, 0x02ff) == ({
            let (s1, hi) = read_spec(s, 0x0200);
            let (s2, lo) = read_spec(s1, 0x02ff);
            (s2, word(hi, lo))
        }),
{
}

/// A little-endian pointer in zero page at `p` and `p + 1`, wrapping in zero page.
pub open spec fn zero_page_word_spec(s: NesState, p: u8) -> (NesState, u16) {
    let (s1, hi) = read_spec(s, wrap8(p + 1) as u16);
    let (s2, lo) = read_spec(s1, p as u16);
    (s2, word(hi, lo))
}

/// Zero page operands: the byte at PC + 1 plus `index`, wrapping in zero page.
pub open spec fn zero_page_operand_spec(s: NesState, index: u8) -> (NesState, Operand) {
    let (s1, b) = read_spec(s, wrap16(s.pc + 1));
    (s1, Operand { addr: wrap8(b + index) as u16, page_crossed: false })
}

/// Absolute operands: the word at PC + 1 plus `index`, wrapping; the page is
/// crossed when the high byte changed.
pub open spec fn absolute_operand_spec(s: NesState, index: u8) -> (NesState, Operand) {
    let (s1, w) = read16_spec(s, wrap16(s.pc + 1));
    let e = wrap16(w + index);
    (s1, Operand { addr: e, page_crossed: page_of(e) != page_of(w) })
}

/// JMP (ind): the word at PC + 1 points at the target.
pub open spec fn indirect_operand_spec(s: NesState) -> (NesState, Operand) {
    let (s1, w) = read16_spec(s, wrap16(s.pc + 1));
    let (s2, t) = indirect_target_spec(s1, w);
    (s2, Operand { addr: t, page_crossed: false })
}

/// (zp,X): the zero page pointer at the byte at PC + 1 plus X.
pub open spec fn indexed_indirect_operand_spec(s: NesState) -> (NesState, Operand) {
    let (s1, b) = read_spec(s, wrap16(s.pc + 1));
    let (s2, t) = zero_page_word_spec(s1, wrap8(b + s.x));
    (s2, Operand { addr: t, page_crossed: false })
}

/// (zp),Y: the zero page pointer at the byte at PC + 1, plus Y.
pub open spec fn indirect_indexed_operand_spec(s: NesState) -> (NesState, Operand) {
    let (s1, b) = read_spec(s, wrap16(s.pc + 1));
    let (s2, base) = zero_page_word_spec(s1, b);
    let e = wrap16(base + s.y);
    (s2, Operand { addr: e, page_crossed: page_of(e) != page_of(base) })
}

/// The operand of an instruction at PC in the given mode. Immediate and relative
/// operands are the byte at PC + 1; implied and accumulator instructions ignore it.
#[verifier::opaque]
pub open spec fn operand_spec(s: NesState, mode: Mode) -> (NesState, Operand) {
    match mode {
        Mode::ZeroPage => zero_page_operand_spec(s, 0),
        Mode::ZeroPageX => zero_page_operand_spec(s, s.x),
        Mode::ZeroPageY => zero_page_operand_spec(s, s.y),
        Mode::Absolute => absolute_operand_spec(s, 0),
        Mode::AbsoluteX => absolute_operand_spec(s, s.x),
        Mode::AbsoluteY => absolute_operand_spec(s, s.y),
        Mode::Indirect => indirect_operand_spec(s),
        Mode::IndirectX => indexed_indirect_operand_spec(s),
        Mode::IndirectY => indirect_indexed_operand_spec(s),
        _ => (s, Operand { addr: wrap16(s.pc + 1), page_crossed: false }),
    }
}

/// The address of the next instruction.
pub open spec fn next_pc(s: NesState, mode: Mode) -> u16 {
    wrap16(s.pc + length_of(mode))
}

// ---------------------------------------------------------------------------
// Instruction groups
// ---------------------------------------------------------------------------

/// Instructions that read their operand and charge one more cycle when indexing crossed a page.
pub open spec fn is_read_op(m: Mnemonic) -> bool {
    match m {
        Mnemonic::Adc | Mnemonic::Sbc | Mnemonic::And | Mnemonic::Ora | Mnemonic::Eor
        | Mnemonic::Cmp | Mnemonic::Cpx | Mnemonic::Cpy | Mnemonic::Bit | Mnemonic::Lda
        | Mnemonic::Ldx | Mnemonic::Ldy => true,
        _ => false,
    }
}

/// Read-modify-write instructions (or, for the shifts, the accumulator form).
pub open spec fn is_modify_op(m: Mnemonic) -> bool {
    match m {
        Mnemonic::Asl | Mnemonic::Lsr | Mnemonic::Rol | Mnemonic::Ror | Mnemonic::Inc
        | Mnemonic::Dec => true,
        _ => false,
    }
}

pub open spec fn is_store_op(m: Mnemonic) -> bool {
    match m {
        Mnemonic::Sta | Mnemonic::Stx | Mnemonic::Sty => true,
        _ => false,
    }
}

pub open spec fn is_branch_op(m: Mnemonic) -> bool {
    match m {
        Mnemonic::Bcc | Mnemonic::Bcs | Mnemonic::Beq | Mnemonic::Bne | Mnemonic::Bmi
        | Mnemonic::Bpl | Mnemonic::Bvc | Mnemonic::Bvs => true,
        _ => false,
    }
}

pub open spec fn is_stack_op(m: Mnemonic) -> bool {
    match m {
        Mnemonic::Pha | Mnemonic::Php | Mnemonic::Pla | Mnemonic::Plp => true,
        _ => false,
    }
}

pub open spec fn is_jump_op(m: Mnemonic) -> bool {
    match m {
        Mnemonic::Jmp | Mnemonic::Jsr | Mnemonic::Rts | Mnemonic::Rti | Mnemonic::Brk => true,
        _ => false,
    }
}

/// Whether an instruction stores to OAMDMA, which stalls the CPU for the copy.
pub open spec fn starts_dma(ins: Instruction, opd: Operand) -> bool {
    (is_store_op(ins.mnemonic) || (is_modify_op(ins.mnemonic) && ins.mode != Mode::Accumulator))
        && opd.addr == OAMDMA
}

/// The cycles a non-branch instruction adds to its base cost: one for a
/// read-type instruction whose indexed address crossed a page, none for stores
/// and read-modify-write instructions, which always charge their fixed cost.
pub open spec fn page_surcharge(ins: Instruction, opd: Operand) -> u64 {
    if is_read_op(ins.mnemonic) && opd.page_crossed {
        1
    } else {
        0
    }
}

/// The effect of a read-type instruction on the value `v` it read.
pub open spec fn read_result_spec(s: NesState, m: Mnemonic, v: u8) -> NesState {
    match m {
        Mnemonic::Adc => NesState { a: adc_spec(s, v).1, ..adc_spec(s, v).0 },
        Mnemonic::Sbc => NesState { a: sbc_spec(s, v).1, ..sbc_spec(s, v).0 },
        Mnemonic::And => NesState { a: and_spec(s, v).1, ..and_spec(s, v).0 },
        Mnemonic::Ora => NesState { a: ora_spec(s, v).1, ..ora_spec(s, v).0 },
        Mnemonic::Eor => NesState { a: eor_spec(s, v).1, ..eor_spec(s, v).0 },
        Mnemonic::Cmp => cmp_spec(s, s.a, v),
        Mnemonic::Cpx => cmp_spec(s, s.x, v),
        Mnemonic::Cpy => cmp_spec(s, s.y, v),
        Mnemonic::Bit => bit_spec(s, v),
        Mnemonic::Lda => NesState { a: v, ..s.with_nz(v) },
        Mnemonic::Ldx => NesState { x: v, ..s.with_nz(v) },
        _ => NesState { y: v, ..s.with_nz(v) },
    }
}

/// A read-type instruction: load the operand, apply the operation, charge the
/// page-crossing cycle.
#[verifier::opaque]
pub open spec fn read_op_spec(s: NesState, ins: Instruction, opd: Operand) -> (NesState, u64) {
    let (s1, v) = read_spec(s, opd.addr);
    (
        NesState { pc: next_pc(s, ins.mode), ..read_result_spec(s1, ins.mnemonic, v) },
        if opd.page_crossed { 1 } else { 0 },
    )
}

/// The result of a shift, rotate, increment or decrement of `v`.
pub open spec fn modify_spec(s: NesState, m: Mnemonic, v: u8) -> (NesState, u8) {
    match m {
        Mnemonic::Asl => asl_spec(s, v),
        Mnemonic::Lsr => lsr_spec(s, v),
        Mnemonic::Rol => rol_spec(s, v),
        Mnemonic::Ror => ror_spec(s, v),
        Mnemonic::Inc => inc_spec(s, v),
        _ => dec_spec(s, v),
    }
}

/// A read-modify-write instruction, on A in accumulator mode, else on memory.
#[verifier::opaque]
pub open spec fn modify_op_spec(s: NesState, ins: Instruction, opd: Operand) -> NesState {
    let s2 = if ins.mode == Mode::Accumulator {
        let (s1, r) = modify_spec(s, ins.mnemonic, s.a);
        NesState { a: r, ..s1 }
    } else {
        let (s1, v) = read_spec(s, opd.addr);
        let (s2, r) = modify_spec(s1, ins.mnemonic, v);
        write_spec(s2, opd.addr, r)
    };
    NesState { pc: next_pc(s, ins.mode), ..s2 }
}

#[verifier::opaque]
pub open spec fn store_op_spec(s: NesState, ins: Instruction, opd: Operand) -> NesState {
    let v = match ins.mnemonic {
        Mnemonic::Sta => s.a,
        Mnemonic::Stx => s.x,
        _ => s.y,
    };
    NesState { pc: next_pc(s, ins.mode), ..write_spec(s, opd.addr, v) }
}

/// Whether a branch instruction's condition holds.
pub open spec fn branch_taken(s: NesState, m: Mnemonic) -> bool {
    match m {
        Mnemonic::Bcc => !s.carry,
        Mnemonic::Bcs => s.carry,
        Mnemonic::Beq => s.zero,
        Mnemonic::Bne => !s.zero,
        Mnemonic::Bmi => s.negative,
        Mnemonic::Bpl => !s.negative,
        Mnemonic::Bvc => !s.overflow,
        _ => s.overflow,
    }
}

/// The signed value of a branch offset.
pub open spec fn signed(offset: u8) -> int {
    if offset < 0x80 {
        offset as int
    } else {
        offset - 0x100
    }
}

/// A two-byte branch at PC: the next PC, and the cycles added to the base 2,
/// one when taken and one more when the target lies in another page than PC + 2.
pub open spec fn branch_spec(s: NesState, cond: bool, offset: u8) -> (NesState, u64) {
    let next = wrap16(s.pc + 2);
    let target = wrap16(next + signed(offset));
    if cond {
        (NesState { pc: target, ..s }, if page_of(target) != page_of(next) { 2 } else { 1 })
    } else {
        (NesState { pc: next, ..s }, 0)
    }
}

/// INX, INY, DEX, DEY.
pub open spec fn count_op_spec(s: NesState, m: Mnemonic) -> NesState {
    match m {
        Mnemonic::Inx => NesState { x: inc_spec(s, s.x).1, ..inc_spec(s, s.x).0 },
        Mnemonic::Iny => NesState { y: inc_spec(s, s.y).1, ..inc_spec(s, s.y).0 },
        Mnemonic::Dex => NesState { x: dec_spec(s, s.x).1, ..dec_spec(s, s.x).0 },
        _ => NesState { y: dec_spec(s, s.y).1, ..dec_spec(s, s.y).0 },
    }
}

/// TAX, TAY, TSX, TXA, TYA set N and Z; TXS leaves the flags alone.
pub open spec fn transfer_op_spec(s: NesState, m: Mnemonic) -> NesState {
    match m {
        Mnemonic::Tax => NesState { x: s.a, ..s.with_nz(s.a) },
        Mnemonic::Tay => NesState { y: s.a, ..s.with_nz(s.a) },
        Mnemonic::Tsx => NesState { x: s.s, ..s.with_nz(s.s) },
        Mnemonic::Txa => NesState { a: s.x, ..s.with_nz(s.x) },
        Mnemonic::Tya => NesState { a: s.y, ..s.with_nz(s.y) },
        _ => NesState { s: s.x, ..s },
    }
}

/// The flag instructions, and NOP.
pub open spec fn flag_op_spec(s: NesState, m: Mnemonic) -> NesState {
    match m {
        Mnemonic::Clc => NesState { carry: false, ..s },
        Mnemonic::Sec => NesState { carry: true, ..s },
        Mnemonic::Cld => NesState { decimal_mode: false, ..s },
        Mnemonic::Sed => NesState { decimal_mode: true, ..s },
        Mnemonic::Cli => NesState { interrupt_disable: false, ..s },
        Mnemonic::Sei => NesState { interrupt_disable: true, ..s },
        Mnemonic::Clv => NesState { overflow: false, ..s },
        _ => s,
    }
}

pub open spec fn is_count_op(m: Mnemonic) -> bool {
    match m {
        Mnemonic::Inx | Mnemonic::Iny | Mnemonic::Dex | Mnemonic::Dey => true,
        _ => false,
    }
}

pub open spec fn is_transfer_op(m: Mnemonic) -> bool {
    match m {
        Mnemonic::Tax | Mnemonic::Tay | Mnemonic::Tsx | Mnemonic::Txa | Mnemonic::Tya
        | Mnemonic::Txs => true,
        _ => false,
    }
}

/// Implied instructions on registers and flags.
#[verifier::opaque]
pub open spec fn register_op_spec(s: NesState, ins: Instruction) -> NesState {
    let s2 = if is_count_op(ins.mnemonic) {
        count_op_spec(s, ins.mnemonic)
    } else if is_transfer_op(ins.mnemonic) {
        transfer_op_spec(s, ins.mnemonic)
    } else {
        flag_op_spec(s, ins.mnemonic)
    };
    NesState { pc: next_pc(s, ins.mode), ..s2 }
}

/// PHA, PHP (with B set), PLA, PLP (bits 4 and 5 ignored).
#[verifier::opaque]
pub open spec fn stack_op_spec(s: NesState, ins: Instruction) -> NesState {
    let s2 = match ins.mnemonic {
        Mnemonic::Pha => push_spec(s, s.a),
        Mnemonic::Php => push_spec(s, status_byte(s, true)),
        Mnemonic::Pla => NesState { a: pop_spec(s).1, ..pop_spec(s).0.with_nz(pop_spec(s).1) },
        _ => with_status(pop_spec(s).0, pop_spec(s).1),
    };
    NesState { pc: next_pc(s, ins.mode), ..s2 }
}

/// BRK: push PC + 2 and the status with B set, jump through the IRQ/BRK vector, set I.
#[verifier::opaque]
pub open spec fn brk_spec(s: NesState) -> NesState {
    let s1 = push16_spec(s, wrap16(s.pc + 2));
    let s2 = push_spec(s1, status_byte(s1, true));
    let (s3, target) = read16_spec(s2, BRK_VECTOR);
    NesState { pc: target, interrupt_disable: true, ..s3 }
}

/// JSR: push the address of its last byte, PC + 2, then jump.
pub open spec fn jsr_spec(s: NesState, target: u16) -> NesState {
    NesState { pc: target, ..push16_spec(s, wrap16(s.pc + 2)) }
}

/// RTS: pop the return address and continue one past it.
pub open spec fn rts_spec(s: NesState) -> NesState {
    NesState { pc: wrap16(pop16_spec(s).1 + 1), ..pop16_spec(s).0 }
}

/// RTI: pop the status (bits 4 and 5 ignored), then PC.
pub open spec fn rti_spec(s: NesState) -> NesState {
    let (s1, p) = pop_spec(s);
    let (s2, target) = pop16_spec(with_status(s1, p));
    NesState { pc: target, ..s2 }
}

/// JMP, JSR, RTS, RTI, BRK.
#[verifier::opaque]
pub open spec fn jump_op_spec(s: NesState, ins: Instruction, opd: Operand) -> NesState {
    match ins.mnemonic {
        Mnemonic::Jmp => NesState { pc: opd.addr, ..s },
        Mnemonic::Jsr => jsr_spec(s, opd.addr),
        Mnemonic::Rts => rts_spec(s),
        Mnemonic::Rti => rti_spec(s),
        _ => brk_spec(s),
    }
}

/// The effect of an instruction whose operand has been resolved, and the cycles
/// it adds to its base cost.
#[verifier::opaque]
pub open spec fn execute_spec(s: NesState, ins: Instruction, opd: Operand) -> (NesState, u64) {
    if is_read_op(ins.mnemonic) {
        read_op_spec(s, ins, opd)
    } else if is_modify_op(ins.mnemonic) {
        (modify_op_spec(s, ins, opd), 0)
    } else if is_store_op(ins.mnemonic) {
        (store_op_spec(s, ins, opd), 0)
    } else if is_branch_op(ins.mnemonic) {
        let (s1, offset) = read_spec(s, opd.addr);
        branch_spec(s1, branch_taken(s1, ins.mnemonic), offset)
    } else if is_stack_op(ins.mnemonic) {
        (stack_op_spec(s, ins), 0)
    } else if is_jump_op(ins.mnemonic) {
        (jump_op_spec(s, ins, opd), 0)
    } else {
        (register_op_spec(s, ins), 0)
    }
}

/// NMI entry: push PC and the status with B clear, set I, jump through the NMI
/// vector; 7 cycles.
#[verifier::opaque]
pub open spec fn nmi_spec(s: NesState) -> NesState {
    let s1 = push16_spec(s, s.pc);
    let s2 = push_spec(s1, status_byte(s1, false));
    let (s3, target) = read16_spec(NesState { interrupt_disable: true, ..s2 }, NMI_VECTOR);
    NesState { pc: target, cycles: (s3.cycles + 7) as u64, ..s3 }
}

/// PHP stores the status byte with B set at 0x0100 + S, so bits 4 and 5 of
/// the pushed byte are both 1.
pub proof fn lemma_php_pushes_status(s: NesState, ins: Instruction)
    requires
        s.wf(),
        ins.mnemonic == Mnemonic::Php,
    ensures
        stack_op_spec(s, ins).ram[0x100 + s.s] == status_byte(s, true),
        stack_op_spec(s, ins).ram[0x100 + s.s] & 0x30 == 0x30,
        stack_op_spec(s, ins).s == wrap8(s.s - 1),
{
    reveal(stack_op_spec);
    reveal(write_spec);
    lemma_status_byte_bit5(s, true);
    let p = status_byte(s, true);
    assert(p & 0x20 == 0x20 && p & 0x10 == 0x10 ==> p & 0x30 == 0x30) by (bit_vector);
}

/// IRQ: ignored while I is set; otherwise entered like an NMI but through the
/// IRQ/BRK vector.
#[verifier::opaque]
pub open spec fn irq_spec(s: NesState) -> NesState {
    if s.interrupt_disable {
        s
    } else {
        let s1 = push16_spec(s, s.pc);
        let s2 = push_spec(s1, status_byte(s1, false));
        let (s3, target) = read16_spec(NesState { interrupt_disable: true, ..s2 }, BRK_VECTOR);
        NesState { pc: target, cycles: (s3.cycles + 7) as u64, ..s3 }
    }
}

/// One step: a pending NMI is entered between instructions; otherwise the
/// instruction at PC is fetched, decoded and run, and its base cost plus
/// surcharges is charged. An undocumented opcode is returned after its fetch.
pub open spec fn step_spec(s: NesState) -> (NesState, Option<u8>) {
    if s.nmi_pending {
        (nmi_spec(NesState { nmi_pending: false, ..s }), None)
    } else {
        let (s1, opcode) = read_spec(s, s.pc);
        match instruction_of(opcode) {
            None => (s1, Some(opcode)),
            Some(ins) => {
                let (s2, opd) = operand_spec(s1, ins.mode);
                let (s3, extra) = execute_spec(s2, ins, opd);
                (NesState { cycles: (s3.cycles + ins.cycles + extra) as u64, ..s3 }, None)
            },
        }
    }
}

impl Nes {
    fn read_zero_page_word(&mut self, p: u8) -> (r: u16)
        requires
            old(self).wf(),
        ensures
            final(self).wf(),
            final(self).cycles == old(self).cycles,
            same_registers(final(self)@, old(self)@),
            (final(self)@, r) == zero_page_word_spec(old(self)@, p),
    {
        let hi: u8 = self.read(p.wrapping_add(1) as u16);
        let lo: u8 = self.read(p as u16);
        proof {
            lemma_word_bits(hi, lo);
        }
        ((hi as u16) << 8u16) | (lo as u16)
    }

    fn read_indirect_target(&mut self, ptr: u16) -> (r: u16)
        requires
            old(self).wf(),
        ensures
            final(self).wf(),
            final(self).cycles == old(self).cycles,
            same_registers(final(self)@, old(self)@),
            (final(self)@, r) == indirect_target_spec(old(self)@, ptr),
    {
        // the high byte's address keeps the page of `ptr`
        let hi_addr: u16 = ptr - ptr % 0x100 + (ptr % 0x100 + 1) % 0x100;
        let hi: u8 = self.read(hi_addr);
        let lo: u8 = self.read(ptr);
        proof {
            lemma_word_bits(hi, lo);
        }
        ((hi as u16) << 8u16) | (lo as u16)
    }

    fn zero_page_operand(&mut self, index: u8) -> (r: Operand)
        requires
            old(self).wf(),
        ensures
            final(self).wf(),
            final(self).cycles == old(self).cycles,
            (final(self)@, r) == zero_page_operand_spec(old(self)@, index),
    {
        let b: u8 = self.read(self.pc.wrapping_add(1));
        Operand { addr: b.wrapping_add(index) as u16, page_crossed: false }
    }

    fn absolute_operand(&mut self, index: u8) -> (r: Operand)
        requires
            old(self).wf(),
        ensures
            final(self).wf(),
            final(self).cycles == old(self).cycles,
            (final(self)@, r) == absolute_operand_spec(old(self)@, index),
    {
        let w: u16 = self.read16(self.pc.wrapping_add(1));
        let e: u16 = w.wrapping_add(index as u16);
        Operand { addr: e, page_crossed: e / 0x100 != w / 0x100 }
    }

    fn indirect_operand(&mut self) -> (r: Operand)
        requires
            old(self).wf(),
        ensures
            final(self).wf(),
            final(self).cycles == old(self).cycles,
            (final(self)@, r) == indirect_operand_spec(old(self)@),
    {
        let w: u16 = self.read16(self.pc.wrapping_add(1));
        let t: u16 = self.read_indirect_target(w);
        Operand { addr: t, page_crossed: false }
    }

    fn indexed_indirect_operand(&mut self) -> (r: Operand)
        requires
            old(self).wf(),
        ensures
            final(self).wf(),
            final(self).cycles == old(self).cycles,
            (final(self)@, r) == indexed_indirect_operand_spec(old(self)@),
    {
        let b: u8 = self.read(self.pc.wrapping_add(1));
        let t: u16 = self.read_zero_page_word(b.wrapping_add(self.x));
        Operand { addr: t, page_crossed: false }
    }

    fn indirect_indexed_operand(&mut self) -> (r: Operand)
        requires
            old(self).wf(),
        ensures
            final(self).wf(),
            final(self).cycles == old(self).cycles,
            (final(self)@, r) == indirect_indexed_operand_spec(old(self)@),
    {
        let b: u8 = self.read(self.pc.wrapping_add(1));
        let base: u16 = self.read_zero_page_word(b);
        let e: u16 = base.wrapping_add(self.y as u16);
        Operand { addr: e, page_crossed: e / 0x100 != base / 0x100 }
    }

    /// Resolves the operand of the instruction at PC.
    fn operand(&mut self, mode: Mode) -> (r: Operand)
        requires
            old(self).wf(),
        ensures
            final(self).wf(),
            final(self).cycles == old(self).cycles,
            (final(self)@, r) == operand_spec(old(self)@, mode),
    {
        reveal(operand_spec);
        match mode {
            Mode::ZeroPage => self.zero_page_operand(0),
            Mode::ZeroPageX => self.zero_page_operand(self.x),
            Mode::ZeroPageY => self.zero_page_operand(self.y),
            Mode::Absolute => self.absolute_operand(0),
            Mode::AbsoluteX => self.absolute_operand(self.x),
            Mode::AbsoluteY => self.absolute_operand(self.y),
            Mode::Indirect => self.indirect_operand(),
            Mode::IndirectX => self.indexed_indirect_operand(),
            Mode::IndirectY => self.indirect_indexed_operand(),
            _ => Operand { addr: self.pc.wrapping_add(1), page_crossed: false },
        }
    }

    #[verifier::spinoff_prover]
    fn apply_read_op(&mut self, m: Mnemonic, v: u8)
        requires
            is_read_op(m),
        ensures
            final(self)@ == read_result_spec(old(self)@, m, v),
    {
        match m {
            Mnemonic::Adc => {
                self.a = self.adc(v);
            },
            Mnemonic::Sbc => {
                self.a = self.sbc(v);
            },
            Mnemonic::And => {
                self.a = self.and(v);
            },
            Mnemonic::Ora => {
                self.a = self.ora(v);
            },
            Mnemonic::Eor => {
                self.a = self.eor(v);
            },
            Mnemonic::Cmp => {
                let a: u8 = self.a;
                self.cmp(a, v);
            },
            Mnemonic::Cpx => {
                let x: u8 = self.x;
                self.cmp(x, v);
            },
            Mnemonic::Cpy => {
                let y: u8 = self.y;
                self.cmp(y, v);
            },
            Mnemonic::Bit => {
                self.bit(v);
            },
            Mnemonic::Lda => {
                self.a = v;
                self.update_nz_flags(v);
            },
            Mnemonic::Ldx => {
                self.x = v;
                self.update_nz_flags(v);
            },
            _ => {
                self.y = v;
                self.update_nz_flags(v);
            },
        }
    }

    fn execute_read(&mut self, ins: Instruction, opd: Operand) -> (extra: u64)
        requires
            old(self).wf(),
            is_read_op(ins.mnemonic),
        ensures
            final(self).wf(),
            final(self).cycles == old(self).cycles,
            extra == (if opd.page_crossed { 1u64 } else { 0u64 }),
            (final(self)@, extra) == read_op_spec(old(self)@, ins, opd),
    {
        reveal(read_op_spec);
        let next: u16 = self.pc.wrapping_add(instruction_length(ins.mode));
        let v: u8 = self.read(opd.addr);
        self.apply_read_op(ins.mnemonic, v);
        self.pc = next;
        if opd.page_crossed {
            1
        } else {
            0
        }
    }

    fn modify(&mut self, m: Mnemonic, v: u8) -> (r: u8)
        ensures
            (final(self)@, r) == modify_spec(old(self)@, m, v),
    {
        match m {
            Mnemonic::Asl => self.asl(v),
            Mnemonic::Lsr => self.lsr(v),
            Mnemonic::Rol => self.rol(v),
            Mnemonic::Ror => self.ror(v),
            Mnemonic::Inc => self.inc(v),
            _ => self.dec(v),
        }
    }

    fn execute_modify(&mut self, ins: Instruction, opd: Operand)
        requires
            old(self).wf(),
            old(self).cycles <= CYCLE_LIMIT,
        ensures
            final(self).wf(),
            final(self).cycles >= old(self).cycles,
            final(self).cycles <= old(self).cycles + 514,
            ins.mode == Mode::Accumulator || opd.addr != OAMDMA ==> final(self).cycles == old(self).cycles,
            final(self)@ == modify_op_spec(old(self)@, ins, opd),
    {
        reveal(modify_op_spec);
        let next: u16 = self.pc.wrapping_add(instruction_length(ins.mode));
        if let Mode::Accumulator = ins.mode {
            let a: u8 = self.a;
            self.a = self.modify(ins.mnemonic, a);
        } else {
            let v: u8 = self.read(opd.addr);
            let r: u8 = self.modify(ins.mnemonic, v);
            self.write(opd.addr, r);
        }
        self.pc = next;
    }

    fn execute_store(&mut self, ins: Instruction, opd: Operand)
        requires
            old(self).wf(),
            old(self).cycles <= CYCLE_LIMIT,
        ensures
            final(self).wf(),
            final(self).cycles >= old(self).cycles,
            final(self).cycles <= old(self).cycles + 514,
            opd.addr != OAMDMA ==> final(self).cycles == old(self).cycles,
            final(self)@ == store_op_spec(old(self)@, ins, opd),
    {
        reveal(store_op_spec);
        let next: u16 = self.pc.wrapping_add(instruction_length(ins.mode));
        let v: u8 = match ins.mnemonic {
            Mnemonic::Sta => self.a,
            Mnemonic::Stx => self.x,
            _ => self.y,
        };
        self.write(opd.addr, v);
        self.pc = next;
    }

    /// A two-byte branch at PC: moves PC past it, or to the target when `cond`
    /// holds, and returns the cycles that the branch adds to its base cost.
    pub fn branch(&mut self, cond: bool, op: u8) -> (extra: u64)
        ensures
            (final(self)@, extra) == branch_spec(old(self)@, cond, op),
    {
        let next: u16 = self.pc.wrapping_add(2);
        let target: u16 = branch_target(next, op);
        if cond {
            self.pc = target;
            if target / 0x100 != next / 0x100 {
                2
            } else {
                1
            }
        } else {
            self.pc = next;
            0
        }
    }

    fn branch_condition(&self, m: Mnemonic) -> (r: bool)
        ensures
            r == branch_taken(self@, m),
    {
        match m {
            Mnemonic::Bcc => !self.carry,
            Mnemonic::Bcs => self.carry,
            Mnemonic::Beq => self.zero,
            Mnemonic::Bne => !self.zero,
            Mnemonic::Bmi => self.negative,
            Mnemonic::Bpl => !self.negative,
            Mnemonic::Bvc => !self.overflow,
            _ => self.overflow,
        }
    }

    #[verifier::spinoff_prover]
    fn execute_count(&mut self, m: Mnemonic)
        requires
            is_count_op(m),
        ensures
            final(self)@ == count_op_spec(old(self)@, m),
    {
        match m {
            Mnemonic::Inx => {
                let x: u8 = self.x;
                self.x = self.inc(x);
            },
            Mnemonic::Iny => {
                let y: u8 = self.y;
                self.y = self.inc(y);
            },
            Mnemonic::Dex => {
                let x: u8 = self.x;
                self.x = self.dec(x);
            },
            _ => {
                let y: u8 = self.y;
                self.y = self.dec(y);
            },
        }
    }

    #[verifier::spinoff_prover]
    fn execute_transfer(&mut self, m: Mnemonic)
        requires
            is_transfer_op(m),
        ensures
            final(self)@ == transfer_op_spec(old(self)@, m),
    {
        match m {
            Mnemonic::Tax => {
                self.x = self.a;
                self.update_nz_flags(self.a);
            },
            Mnemonic::Tay => {
                self.y = self.a;
                self.update_nz_flags(self.a);
            },
            Mnemonic::Tsx => {
                self.x = self.s;
                self.update_nz_flags(self.s);
            },
            Mnemonic::Txa => {
                self.a = self.x;
                self.update_nz_flags(self.x);
            },
            Mnemonic::Tya => {
                self.a = self.y;
                self.update_nz_flags(self.y);
            },
            _ => {
                // TXS is the one transfer that leaves the flags alone
                self.s = self.x;
            },
        }
    }

    #[verifier::spinoff_prover]
    fn execute_flag(&mut self, m: Mnemonic)
        ensures
            final(self)@ == flag_op_spec(old(self)@, m),
    {
        match m {
            Mnemonic::Clc => {
                self.carry = false;
            },
            Mnemonic::Sec => {
                self.carry = true;
            },
            Mnemonic::Cld => {
                self.decimal_mode = false;
            },
            Mnemonic::Sed => {
                self.decimal_mode = true;
            },
            Mnemonic::Cli => {
                self.interrupt_disable = false;
            },
            Mnemonic::Sei => {
                self.interrupt_disable = true;
            },
            Mnemonic::Clv => {
                self.overflow = false;
            },
            _ => {},
        }
    }

    fn execute_register(&mut self, ins: Instruction)
        requires
            old(self).wf(),
        ensures
            final(self).wf(),
            final(self).cycles == old(self).cycles,
            final(self)@ == register_op_spec(old(self)@, ins),
    {
        reveal(register_op_spec);
        let next: u16 = self.pc.wrapping_add(instruction_length(ins.mode));
        match ins.mnemonic {
            Mnemonic::Inx | Mnemonic::Iny | Mnemonic::Dex | Mnemonic::Dey => {
                self.execute_count(ins.mnemonic)
            },
            Mnemonic::Tax | Mnemonic::Tay | Mnemonic::Tsx | Mnemonic::Txa | Mnemonic::Tya
            | Mnemonic::Txs => self.execute_transfer(ins.mnemonic),
            _ => self.execute_flag(ins.mnemonic),
        }
        self.pc = next;
    }

    #[verifier::spinoff_prover]
    #[verifier::rlimit(100)]
    fn execute_stack(&mut self, ins: Instruction)
        requires
            old(self).wf(),
        ensures
            final(self).wf(),
            final(self).cycles == old(self).cycles,
            final(self)@ == stack_op_spec(old(self)@, ins),
    {
        reveal(stack_op_spec);
        let next: u16 = self.pc.wrapping_add(instruction_length(ins.mode));
        match ins.mnemonic {
            Mnemonic::Pha => {
                let a: u8 = self.a;
                self.push(a);
            },
            Mnemonic::Php => {
                let p: u8 = self.get_flags_byte(true);
                self.push(p);
            },
            Mnemonic::Pla => {
                let v: u8 = self.pop();
                self.a = v;
                self.update_nz_flags(v);
            },
            _ => {
                self.pop_flags();
            },
        }
        self.pc = next;
    }

    #[verifier::spinoff_prover]
    fn jsr(&mut self, target: u16)
        requires
            old(self).wf(),
        ensures
            final(self).wf(),
            final(self).cycles == old(self).cycles,
            final(self)@ == jsr_spec(old(self)@, target),
    {
        let ret: u16 = self.pc.wrapping_add(2);
        self.push16(ret);
        self.pc = target;
    }

    #[verifier::spinoff_prover]
    fn rts(&mut self)
        requires
            old(self).wf(),
        ensures
            final(self).wf(),
            final(self).cycles == old(self).cycles,
            final(self)@ == rts_spec(old(self)@),
    {
        let ret: u16 = self.pop16();
        self.pc = ret.wrapping_add(1);
    }

    #[verifier::spinoff_prover]
    fn rti(&mut self)
        requires
            old(self).wf(),
        ensures
            final(self).wf(),
            final(self).cycles == old(self).cycles,
            final(self)@ == rti_spec(old(self)@),
    {
        self.pop_flags();
        self.pc = self.pop16();
    }

    #[verifier::spinoff_prover]
    #[verifier::rlimit(100)]
    fn brk(&mut self)
        requires
            old(self).wf(),
        ensures
            final(self).wf(),
            final(self).cycles == old(self).cycles,
            final(self)@ == brk_spec(old(self)@),
    {
        reveal(brk_spec);
        let ret: u16 = self.pc.wrapping_add(2);
        self.push16(ret);
        let p: u8 = self.get_flags_byte(true);
        self.push(p);
        self.pc = self.read16(BRK_VECTOR);
        self.interrupt_disable = true;
    }

    #[verifier::spinoff_prover]
    fn execute_jump(&mut self, ins: Instruction, opd: Operand)
        requires
            old(self).wf(),
        ensures
            final(self).wf(),
            final(self).cycles == old(self).cycles,
            final(self)@ == jump_op_spec(old(self)@, ins, opd),
    {
        reveal(jump_op_spec);
        match ins.mnemonic {
            Mnemonic::Jmp => {
                self.pc = opd.addr;
            },
            Mnemonic::Jsr => self.jsr(opd.addr),
            Mnemonic::Rts => self.rts(),
            Mnemonic::Rti => self.rti(),
            _ => self.brk(),
        }
    }

    /// Runs a decoded instruction whose operand is resolved; returns the cycles
    /// it adds to its base cost.
    #[verifier::spinoff_prover]
    fn execute(&mut self, ins: Instruction, opd: Operand) -> (extra: u64)
        requires
            old(self).wf(),
            old(self).cycles <= CYCLE_LIMIT,
        ensures
            final(self).wf(),
            final(self).cycles >= old(self).cycles,
            final(self).cycles <= old(self).cycles + 514,
            extra <= 2,
            !is_branch_op(ins.mnemonic) ==> extra == page_surcharge(ins, opd),
            !starts_dma(ins, opd) ==> final(self).cycles == old(self).cycles,
            (final(self)@, extra) == execute_spec(old(self)@, ins, opd),
    {
        reveal(execute_spec);
        match ins.mnemonic {
            Mnemonic::Adc | Mnemonic::Sbc | Mnemonic::And | Mnemonic::Ora | Mnemonic::Eor
            | Mnemonic::Cmp | Mnemonic::Cpx | Mnemonic::Cpy | Mnemonic::Bit | Mnemonic::Lda
            | Mnemonic::Ldx | Mnemonic::Ldy => self.execute_read(ins, opd),
            Mnemonic::Asl | Mnemonic::Lsr | Mnemonic::Rol | Mnemonic::Ror | Mnemonic::Inc
            | Mnemonic::Dec => {
                self.execute_modify(ins, opd);
                0
            },
            Mnemonic::Sta | Mnemonic::Stx | Mnemonic::Sty => {
                self.execute_store(ins, opd);
                0
            },
            Mnemonic::Bcc | Mnemonic::Bcs | Mnemonic::Beq | Mnemonic::Bne | Mnemonic::Bmi
            | Mnemonic::Bpl | Mnemonic::Bvc | Mnemonic::Bvs => {
                let offset: u8 = self.read(opd.addr);
                let cond: bool = self.branch_condition(ins.mnemonic);
                self.branch(cond, offset)
            },
            Mnemonic::Pha | Mnemonic::Php | Mnemonic::Pla | Mnemonic::Plp => {
                self.execute_stack(ins);
                0
            },
            Mnemonic::Jmp | Mnemonic::Jsr | Mnemonic::Rts | Mnemonic::Rti | Mnemonic::Brk => {
                self.execute_jump(ins, opd);
                0
            },
            _ => {
                self.execute_register(ins);
                0
            },
        }
    }

    /// Enters the NMI handler: pushes PC and the status with B clear, sets I,
    /// loads PC from the NMI vector and charges 7 cycles.
    #[verifier::spinoff_prover]
    #[verifier::rlimit(100)]
    pub fn nmi_interrupt(&mut self)
        requires
            old(self).wf(),
            old(self).cycles <= CYCLE_LIMIT,
        ensures
            final(self).wf(),
            final(self).cycles == old(self).cycles + 7,
            final(self)@ == nmi_spec(old(self)@),
    {
        reveal(nmi_spec);
        let pc: u16 = self.pc;
        self.push16(pc);
        let p: u8 = self.get_flags_byte(false);
        self.push(p);
        self.interrupt_disable = true;
        self.pc = self.read16(NMI_VECTOR);
        self.cycles = self.cycles + 7;
    }

    /// Raises the IRQ line: unless I is set, pushes PC and the status with B
    /// clear, sets I, loads PC from the IRQ/BRK vector and charges 7 cycles.
    #[verifier::rlimit(100)]
    pub fn irq_interrupt(&mut self)
        requires
            old(self).wf(),
            old(self).cycles <= CYCLE_LIMIT,
        ensures
            final(self).wf(),
            final(self)@ == irq_spec(old(self)@),
    {
        reveal(irq_spec);
        if self.interrupt_disable {
            return;
        }
        let pc: u16 = self.pc;
        self.push16(pc);
        let p: u8 = self.get_flags_byte(false);
        self.push(p);
        self.interrupt_disable = true;
        self.pc = self.read16(BRK_VECTOR);
        self.cycles = self.cycles + 7;
    }

    /// Runs one instruction, or enters a pending NMI.
    #[verifier::spinoff_prover]
    pub fn step(&mut self) -> (r: Result<(), StepError>)
        requires
            old(self).wf(),
            old(self).cycles <= CYCLE_LIMIT,
        ensures
            final(self).wf(),
            final(self)@ == step_spec(old(self)@).0,
            r == match step_spec(old(self)@).1 {
                Some(op) => Err(StepError::IllegalOpcode(op)),
                None => Ok(()),
            },
            r is Ok ==> final(self).cycles > old(self).cycles,
            old(self).nmi_pending ==> final(self).cycles == old(self).cycles + 7,
            !old(self).nmi_pending ==> match instruction_of(read_spec(old(self)@, old(self).pc).1) {
                Some(ins) => {
                    let opd = operand_spec(read_spec(old(self)@, old(self).pc).0, ins.mode).1;
                    &&& old(self).cycles + ins.cycles <= final(self).cycles <= old(self).cycles
                        + ins.cycles + 2 + 514
                    &&& !is_branch_op(ins.mnemonic) && !starts_dma(ins, opd) ==> final(self).cycles
                        == old(self).cycles + ins.cycles + page_surcharge(ins, opd)
                    &&& is_branch_op(ins.mnemonic) ==> old(self).cycles + ins.cycles <= final(self).cycles <= old(self).cycles + ins.cycles + 2
                },
                None => final(self).cycles == old(self).cycles,
            },
    {
        if self.nmi_pending {
            self.nmi_pending = false;
            self.nmi_interrupt();
            return Ok(());
        }
        let opcode: u8 = self.read(self.pc);
        match decode(opcode) {
            None => Err(StepError::IllegalOpcode(opcode)),
            Some(ins) => {
                let opd: Operand = self.operand(ins.mode);
                let extra: u64 = self.execute(ins, opd);
                self.cycles = self.cycles + ins.cycles as u64 + extra;
                Ok(())
            },
        }
    }
}

/// `next` moved by a signed 8-bit offset, wrapping.
fn branch_target(next: u16, offset: u8) -> (r: u16)
    ensures
        r == wrap16(next + signed(offset)),
{
    if offset < 0x80 {
        next.wrapping_add(offset as u16)
    } else {
        next.wrapping_sub(0x100 - offset as u16)
    }
}

} // verus!
