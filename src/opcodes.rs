use vstd::prelude::*;

verus! {

/// The 56 documented 6502 mnemonics.
#[derive(Clone, Copy, Debug, PartialEq, Eq)]
pub enum Mnemonic {
    Adc, And, Asl, Bcc, Bcs, Beq, Bit, Bmi, Bne, Bpl, Brk, Bvc, Bvs, Clc,
    Cld, Cli, Clv, Cmp, Cpx, Cpy, Dec, Dex, Dey, Eor, Inc, Inx, Iny, Jmp,
    Jsr, Lda, Ldx, Ldy, Lsr, Nop, Ora, Pha, Php, Pla, Plp, Rol, Ror, Rti,
    Rts, Sbc, Sec, Sed, Sei, Sta, Stx, Sty, Tax, Tay, Tsx, Txa, Txs, Tya,
}

/// How an instruction finds its operand.
#[derive(Clone, Copy, Debug, PartialEq, Eq)]
pub enum Mode {
    Implied,
    Accumulator,
    Immediate,
    ZeroPage,
    ZeroPageX,
    ZeroPageY,
    Absolute,
    AbsoluteX,
    AbsoluteY,
    Indirect,
    IndirectX,
    IndirectY,
    Relative,
}

/// One row of the opcode table: what the instruction does, how it addresses its
/// operand, and its base cost in cycles.
#[derive(Clone, Copy, Debug, PartialEq, Eq)]
pub struct Instruction {
    pub mnemonic: Mnemonic,
    pub mode: Mode,
    pub cycles: u8,
}

/// Bytes taken by an instruction in the given mode, opcode included.
pub open spec fn length_of(mode: Mode) -> u16 {
    match mode {
        Mode::Implied | Mode::Accumulator => 1,
        Mode::Absolute | Mode::AbsoluteX | Mode::AbsoluteY | Mode::Indirect => 3,
        _ => 2,
    }
}

pub fn instruction_length(mode: Mode) -> (r: u16)
    ensures
        r == length_of(mode),
{
    match mode {
        Mode::Implied | Mode::Accumulator => 1,
        Mode::Absolute | Mode::AbsoluteX | Mode::AbsoluteY | Mode::Indirect => 3,
        _ => 2,
    }
}

/// The documented opcodes; every other byte is illegal.
#[verifier::opaque]
pub open spec fn instruction_of(opcode: u8) -> Option<Instruction> {
    match opcode {
        0x00 => Some(Instruction { mnemonic: Mnemonic::Brk, mode: Mode::Implied, cycles: 7 }),
        0x01 => Some(Instruction { mnemonic: Mnemonic::Ora, mode: Mode::IndirectX, cycles: 6 }),
        0x05 => Some(Instruction { mnemonic: Mnemonic::Ora, mode: Mode::ZeroPage, cycles: 3 }),
        0x06 => Some(Instruction { mnemonic: Mnemonic::Asl, mode: Mode::ZeroPage, cycles: 5 }),
        0x08 => Some(Instruction { mnemonic: Mnemonic::Php, mode: Mode::Implied, cycles: 3 }),
        0x09 => Some(Instruction { mnemonic: Mnemonic::Ora, mode: Mode::Immediate, cycles: 2 }),
        0x0a => Some(Instruction { mnemonic: Mnemonic::Asl, mode: Mode::Accumulator, cycles: 2 }),
        0x0d => Some(Instruction { mnemonic: Mnemonic::Ora, mode: Mode::Absolute, cycles: 4 }),
        0x0e => Some(Instruction { mnemonic: Mnemonic::Asl, mode: Mode::Absolute, cycles: 6 }),
        0x10 => Some(Instruction { mnemonic: Mnemonic::Bpl, mode: Mode::Relative, cycles: 2 }),
        0x11 => Some(Instruction { mnemonic: Mnemonic::Ora, mode: Mode::IndirectY, cycles: 5 }),
        0x15 => Some(Instruction { mnemonic: Mnemonic::Ora, mode: Mode::ZeroPageX, cycles: 4 }),
        0x16 => Some(Instruction { mnemonic: Mnemonic::Asl, mode: Mode::ZeroPageX, cycles: 6 }),
        0x18 => Some(Instruction { mnemonic: Mnemonic::Clc, mode: Mode::Implied, cycles: 2 }),
        0x19 => Some(Instruction { mnemonic: Mnemonic::Ora, mode: Mode::AbsoluteY, cycles: 4 }),
        0x1d => Some(Instruction { mnemonic: Mnemonic::Ora, mode: Mode::AbsoluteX, cycles: 4 }),
        0x1e => Some(Instruction { mnemonic: Mnemonic::Asl, mode: Mode::AbsoluteX, cycles: 7 }),
        0x20 => Some(Instruction { mnemonic: Mnemonic::Jsr, mode: Mode::Absolute, cycles: 6 }),
        0x21 => Some(Instruction { mnemonic: Mnemonic::And, mode: Mode::IndirectX, cycles: 6 }),
        0x24 => Some(Instruction { mnemonic: Mnemonic::Bit, mode: Mode::ZeroPage, cycles: 3 }),
        0x25 => Some(Instruction { mnemonic: Mnemonic::And, mode: Mode::ZeroPage, cycles: 3 }),
        0x26 => Some(Instruction { mnemonic: Mnemonic::Rol, mode: Mode::ZeroPage, cycles: 5 }),
        0x28 => Some(Instruction { mnemonic: Mnemonic::Plp, mode: Mode::Implied, cycles: 4 }),
        0x29 => Some(Instruction { mnemonic: Mnemonic::And, mode: Mode::Immediate, cycles: 2 }),
        0x2a => Some(Instruction { mnemonic: Mnemonic::Rol, mode: Mode::Accumulator, cycles: 2 }),
        0x2c => Some(Instruction { mnemonic: Mnemonic::Bit, mode: Mode::Absolute, cycles: 4 }),
        0x2d => Some(Instruction { mnemonic: Mnemonic::And, mode: Mode::Absolute, cycles: 4 }),
        0x2e => Some(Instruction { mnemonic: Mnemonic::Rol, mode: Mode::Absolute, cycles: 6 }),
        0x30 => Some(Instruction { mnemonic: Mnemonic::Bmi, mode: Mode::Relative, cycles: 2 }),
        0x31 => Some(Instruction { mnemonic: Mnemonic::And, mode: Mode::IndirectY, cycles: 5 }),
        0x35 => Some(Instruction { mnemonic: Mnemonic::And, mode: Mode::ZeroPageX, cycles: 4 }),
        0x36 => Some(Instruction { mnemonic: Mnemonic::Rol, mode: Mode::ZeroPageX, cycles: 6 }),
        0x38 => Some(Instruction { mnemonic: Mnemonic::Sec, mode: Mode::Implied, cycles: 2 }),
        0x39 => Some(Instruction { mnemonic: Mnemonic::And, mode: Mode::AbsoluteY, cycles: 4 }),
        0x3d => Some(Instruction { mnemonic: Mnemonic::And, mode: Mode::AbsoluteX, cycles: 4 }),
        0x3e => Some(Instruction { mnemonic: Mnemonic::Rol, mode: Mode::AbsoluteX, cycles: 7 }),
        0x40 => Some(Instruction { mnemonic: Mnemonic::Rti, mode: Mode::Implied, cycles: 6 }),
        0x41 => Some(Instruction { mnemonic: Mnemonic::Eor, mode: Mode::IndirectX, cycles: 6 }),
        0x45 => Some(Instruction { mnemonic: Mnemonic::Eor, mode: Mode::ZeroPage, cycles: 3 }),
        0x46 => Some(Instruction { mnemonic: Mnemonic::Lsr, mode: Mode::ZeroPage, cycles: 5 }),
        0x48 => Some(Instruction { mnemonic: Mnemonic::Pha, mode: Mode::Implied, cycles: 3 }),
        0x49 => Some(Instruction { mnemonic: Mnemonic::Eor, mode: Mode::Immediate, cycles: 2 }),
        0x4a => Some(Instruction { mnemonic: Mnemonic::Lsr, mode: Mode::Accumulator, cycles: 2 }),
        0x4c => Some(Instruction { mnemonic: Mnemonic::Jmp, mode: Mode::Absolute, cycles: 3 }),
        0x4d => Some(Instruction { mnemonic: Mnemonic::Eor, mode: Mode::Absolute, cycles: 4 }),
        0x4e => Some(Instruction { mnemonic: Mnemonic::Lsr, mode: Mode::Absolute, cycles: 6 }),
        0x50 => Some(Instruction { mnemonic: Mnemonic::Bvc, mode: Mode::Relative, cycles: 2 }),
        0x51 => Some(Instruction { mnemonic: Mnemonic::Eor, mode: Mode::IndirectY, cycles: 5 }),
        0x55 => Some(Instruction { mnemonic: Mnemonic::Eor, mode: Mode::ZeroPageX, cycles: 4 }),
        0x56 => Some(Instruction { mnemonic: Mnemonic::Lsr, mode: Mode::ZeroPageX, cycles: 6 }),
        0x58 => Some(Instruction { mnemonic: Mnemonic::Cli, mode: Mode::Implied, cycles: 2 }),
        0x59 => Some(Instruction { mnemonic: Mnemonic::Eor, mode: Mode::AbsoluteY, cycles: 4 }),
        0x5d => Some(Instruction { mnemonic: Mnemonic::Eor, mode: Mode::AbsoluteX, cycles: 4 }),
        0x5e => Some(Instruction { mnemonic: Mnemonic::Lsr, mode: Mode::AbsoluteX, cycles: 7 }),
        0x60 => Some(Instruction { mnemonic: Mnemonic::Rts, mode: Mode::Implied, cycles: 6 }),
        0x61 => Some(Instruction { mnemonic: Mnemonic::Adc, mode: Mode::IndirectX, cycles: 6 }),
        0x65 => Some(Instruction { mnemonic: Mnemonic::Adc, mode: Mode::ZeroPage, cycles: 3 }),
        0x66 => Some(Instruction { mnemonic: Mnemonic::Ror, mode: Mode::ZeroPage, cycles: 5 }),
        0x68 => Some(Instruction { mnemonic: Mnemonic::Pla, mode: Mode::Implied, cycles: 4 }),
        0x69 => Some(Instruction { mnemonic: Mnemonic::Adc, mode: Mode::Immediate, cycles: 2 }),
        0x6a => Some(Instruction { mnemonic: Mnemonic::Ror, mode: Mode::Accumulator, cycles: 2 }),
        0x6c => Some(Instruction { mnemonic: Mnemonic::Jmp, mode: Mode::Indirect, cycles: 5 }),
        0x6d => Some(Instruction { mnemonic: Mnemonic::Adc, mode: Mode::Absolute, cycles: 4 }),
        0x6e => Some(Instruction { mnemonic: Mnemonic::Ror, mode: Mode::Absolute, cycles: 6 }),
        0x70 => Some(Instruction { mnemonic: Mnemonic::Bvs, mode: Mode::Relative, cycles: 2 }),
        0x71 => Some(Instruction { mnemonic: Mnemonic::Adc, mode: Mode::IndirectY, cycles: 5 }),
        0x75 => Some(Instruction { mnemonic: Mnemonic::Adc, mode: Mode::ZeroPageX, cycles: 4 }),
        0x76 => Some(Instruction { mnemonic: Mnemonic::Ror, mode: Mode::ZeroPageX, cycles: 6 }),
        0x78 => Some(Instruction { mnemonic: Mnemonic::Sei, mode: Mode::Implied, cycles: 2 }),
        0x79 => Some(Instruction { mnemonic: Mnemonic::Adc, mode: Mode::AbsoluteY, cycles: 4 }),
        0x7d => Some(Instruction { mnemonic: Mnemonic::Adc, mode: Mode::AbsoluteX, cycles: 4 }),
        0x7e => Some(Instruction { mnemonic: Mnemonic::Ror, mode: Mode::AbsoluteX, cycles: 7 }),
        0x81 => Some(Instruction { mnemonic: Mnemonic::Sta, mode: Mode::IndirectX, cycles: 6 }),
        0x84 => Some(Instruction { mnemonic: Mnemonic::Sty, mode: Mode::ZeroPage, cycles: 3 }),
        0x85 => Some(Instruction { mnemonic: Mnemonic::Sta, mode: Mode::ZeroPage, cycles: 3 }),
        0x86 => Some(Instruction { mnemonic: Mnemonic::Stx, mode: Mode::ZeroPage, cycles: 3 }),
        0x88 => Some(Instruction { mnemonic: Mnemonic::Dey, mode: Mode::Implied, cycles: 2 }),
        0x8a => Some(Instruction { mnemonic: Mnemonic::Txa, mode: Mode::Implied, cycles: 2 }),
        0x8c => Some(Instruction { mnemonic: Mnemonic::Sty, mode: Mode::Absolute, cycles: 4 }),
        0x8d => Some(Instruction { mnemonic: Mnemonic::Sta, mode: Mode::Absolute, cycles: 4 }),
        0x8e => Some(Instruction { mnemonic: Mnemonic::Stx, mode: Mode::Absolute, cycles: 4 }),
        0x90 => Some(Instruction { mnemonic: Mnemonic::Bcc, mode: Mode::Relative, cycles: 2 }),
        0x91 => Some(Instruction { mnemonic: Mnemonic::Sta, mode: Mode::IndirectY, cycles: 6 }),
        0x94 => Some(Instruction { mnemonic: Mnemonic::Sty, mode: Mode::ZeroPageX, cycles: 4 }),
        0x95 => Some(Instruction { mnemonic: Mnemonic::Sta, mode: Mode::ZeroPageX, cycles: 4 }),
        0x96 => Some(Instruction { mnemonic: Mnemonic::Stx, mode: Mode::ZeroPageY, cycles: 4 }),
        0x98 => Some(Instruction { mnemonic: Mnemonic::Tya, mode: Mode::Implied, cycles: 2 }),
        0x99 => Some(Instruction { mnemonic: Mnemonic::Sta, mode: Mode::AbsoluteY, cycles: 5 }),
        0x9a => Some(Instruction { mnemonic: Mnemonic::Txs, mode: Mode::Implied, cycles: 2 }),
        0x9d => Some(Instruction { mnemonic: Mnemonic::Sta, mode: Mode::AbsoluteX, cycles: 5 }),
        0xa0 => Some(Instruction { mnemonic: Mnemonic::Ldy, mode: Mode::Immediate, cycles: 2 }),
        0xa1 => Some(Instruction { mnemonic: Mnemonic::Lda, mode: Mode::IndirectX, cycles: 6 }),
        0xa2 => Some(Instruction { mnemonic: Mnemonic::Ldx, mode: Mode::Immediate, cycles: 2 }),
        0xa4 => Some(Instruction { mnemonic: Mnemonic::Ldy, mode: Mode::ZeroPage, cycles: 3 }),
        0xa5 => Some(Instruction { mnemonic: Mnemonic::Lda, mode: Mode::ZeroPage, cycles: 3 }),
        0xa6 => Some(Instruction { mnemonic: Mnemonic::Ldx, mode: Mode::ZeroPage, cycles: 3 }),
        0xa8 => Some(Instruction { mnemonic: Mnemonic::Tay, mode: Mode::Implied, cycles: 2 }),
        0xa9 => Some(Instruction { mnemonic: Mnemonic::Lda, mode: Mode::Immediate, cycles: 2 }),
        0xaa => Some(Instruction { mnemonic: Mnemonic::Tax, mode: Mode::Implied, cycles: 2 }),
        0xac => Some(Instruction { mnemonic: Mnemonic::Ldy, mode: Mode::Absolute, cycles: 4 }),
        0xad => Some(Instruction { mnemonic: Mnemonic::Lda, mode: Mode::Absolute, cycles: 4 }),
        0xae => Some(Instruction { mnemonic: Mnemonic::Ldx, mode: Mode::Absolute, cycles: 4 }),
        0xb0 => Some(Instruction { mnemonic: Mnemonic::Bcs, mode: Mode::Relative, cycles: 2 }),
        0xb1 => Some(Instruction { mnemonic: Mnemonic::Lda, mode: Mode::IndirectY, cycles: 5 }),
        0xb4 => Some(Instruction { mnemonic: Mnemonic::Ldy, mode: Mode::ZeroPageX, cycles: 4 }),
        0xb5 => Some(Instruction { mnemonic: Mnemonic::Lda, mode: Mode::ZeroPageX, cycles: 4 }),
        0xb6 => Some(Instruction { mnemonic: Mnemonic::Ldx, mode: Mode::ZeroPageY, cycles: 4 }),
        0xb8 => Some(Instruction { mnemonic: Mnemonic::Clv, mode: Mode::Implied, cycles: 2 }),
        0xb9 => Some(Instruction { mnemonic: Mnemonic::Lda, mode: Mode::AbsoluteY, cycles: 4 }),
        0xba => Some(Instruction { mnemonic: Mnemonic::Tsx, mode: Mode::Implied, cycles: 2 }),
        0xbc => Some(Instruction { mnemonic: Mnemonic::Ldy, mode: Mode::AbsoluteX, cycles: 4 }),
        0xbd => Some(Instruction { mnemonic: Mnemonic::Lda, mode: Mode::AbsoluteX, cycles: 4 }),
        0xbe => Some(Instruction { mnemonic: Mnemonic::Ldx, mode: Mode::AbsoluteY, cycles: 4 }),
        0xc0 => Some(Instruction { mnemonic: Mnemonic::Cpy, mode: Mode::Immediate, cycles: 2 }),
        0xc1 => Some(Instruction { mnemonic: Mnemonic::Cmp, mode: Mode::IndirectX, cycles: 6 }),
        0xc4 => Some(Instruction { mnemonic: Mnemonic::Cpy, mode: Mode::ZeroPage, cycles: 3 }),
        0xc5 => Some(Instruction { mnemonic: Mnemonic::Cmp, mode: Mode::ZeroPage, cycles: 3 }),
        0xc6 => Some(Instruction { mnemonic: Mnemonic::Dec, mode: Mode::ZeroPage, cycles: 5 }),
        0xc8 => Some(Instruction { mnemonic: Mnemonic::Iny, mode: Mode::Implied, cycles: 2 }),
        0xc9 => Some(Instruction { mnemonic: Mnemonic::Cmp, mode: Mode::Immediate, cycles: 2 }),
        0xca => Some(Instruction { mnemonic: Mnemonic::Dex, mode: Mode::Implied, cycles: 2 }),
        0xcc => Some(Instruction { mnemonic: Mnemonic::Cpy, mode: Mode::Absolute, cycles: 4 }),
        0xcd => Some(Instruction { mnemonic: Mnemonic::Cmp, mode: Mode::Absolute, cycles: 4 }),
        0xce => Some(Instruction { mnemonic: Mnemonic::Dec, mode: Mode::Absolute, cycles: 6 }),
        0xd0 => Some(Instruction { mnemonic: Mnemonic::Bne, mode: Mode::Relative, cycles: 2 }),
        0xd1 => Some(Instruction { mnemonic: Mnemonic::Cmp, mode: Mode::IndirectY, cycles: 5 }),
        0xd5 => Some(Instruction { mnemonic: Mnemonic::Cmp, mode: Mode::ZeroPageX, cycles: 4 }),
        0xd6 => Some(Instruction { mnemonic: Mnemonic::Dec, mode: Mode::ZeroPageX, cycles: 6 }),
        0xd8 => Some(Instruction { mnemonic: Mnemonic::Cld, mode: Mode::Implied, cycles: 2 }),
        0xd9 => Some(Instruction { mnemonic: Mnemonic::Cmp, mode: Mode::AbsoluteY, cycles: 4 }),
        0xdd => Some(Instruction { mnemonic: Mnemonic::Cmp, mode: Mode::AbsoluteX, cycles: 4 }),
        0xde => Some(Instruction { mnemonic: Mnemonic::Dec, mode: Mode::AbsoluteX, cycles: 7 }),
        0xe0 => Some(Instruction { mnemonic: Mnemonic::Cpx, mode: Mode::Immediate, cycles: 2 }),
        0xe1 => Some(Instruction { mnemonic: Mnemonic::Sbc, mode: Mode::IndirectX, cycles: 6 }),
        0xe4 => Some(Instruction { mnemonic: Mnemonic::Cpx, mode: Mode::ZeroPage, cycles: 3 }),
        0xe5 => Some(Instruction { mnemonic: Mnemonic::Sbc, mode: Mode::ZeroPage, cycles: 3 }),
        0xe6 => Some(Instruction { mnemonic: Mnemonic::Inc, mode: Mode::ZeroPage, cycles: 5 }),
        0xe8 => Some(Instruction { mnemonic: Mnemonic::Inx, mode: Mode::Implied, cycles: 2 }),
        0xe9 => Some(Instruction { mnemonic: Mnemonic::Sbc, mode: Mode::Immediate, cycles: 2 }),
        0xea => Some(Instruction { mnemonic: Mnemonic::Nop, mode: Mode::Implied, cycles: 2 }),
        0xec => Some(Instruction { mnemonic: Mnemonic::Cpx, mode: Mode::Absolute, cycles: 4 }),
        0xed => Some(Instruction { mnemonic: Mnemonic::Sbc, mode: Mode::Absolute, cycles: 4 }),
        0xee => Some(Instruction { mnemonic: Mnemonic::Inc, mode: Mode::Absolute, cycles: 6 }),
        0xf0 => Some(Instruction { mnemonic: Mnemonic::Beq, mode: Mode::Relative, cycles: 2 }),
        0xf1 => Some(Instruction { mnemonic: Mnemonic::Sbc, mode: Mode::IndirectY, cycles: 5 }),
        0xf5 => Some(Instruction { mnemonic: Mnemonic::Sbc, mode: Mode::ZeroPageX, cycles: 4 }),
        0xf6 => Some(Instruction { mnemonic: Mnemonic::Inc, mode: Mode::ZeroPageX, cycles: 6 }),
        0xf8 => Some(Instruction { mnemonic: Mnemonic::Sed, mode: Mode::Implied, cycles: 2 }),
        0xf9 => Some(Instruction { mnemonic: Mnemonic::Sbc, mode: Mode::AbsoluteY, cycles: 4 }),
        0xfd => Some(Instruction { mnemonic: Mnemonic::Sbc, mode: Mode::AbsoluteX, cycles: 4 }),
        0xfe => Some(Instruction { mnemonic: Mnemonic::Inc, mode: Mode::AbsoluteX, cycles: 7 }),
        _ => None,
    }
}

/// Looks an opcode up in the table.
pub fn decode(opcode: u8) -> (r: Option<Instruction>)
    ensures
        r == instruction_of(opcode),
        r matches Some(ins) ==> ins.cycles >= 2,
{
    reveal(instruction_of);
    match opcode {
        0x00 => Some(Instruction { mnemonic: Mnemonic::Brk, mode: Mode::Implied, cycles: 7 }),
        0x01 => Some(Instruction { mnemonic: Mnemonic::Ora, mode: Mode::IndirectX, cycles: 6 }),
        0x05 => Some(Instruction { mnemonic: Mnemonic::Ora, mode: Mode::ZeroPage, cycles: 3 }),
        0x06 => Some(Instruction { mnemonic: Mnemonic::Asl, mode: Mode::ZeroPage, cycles: 5 }),
        0x08 => Some(Instruction { mnemonic: Mnemonic::Php, mode: Mode::Implied, cycles: 3 }),
        0x09 => Some(Instruction { mnemonic: Mnemonic::Ora, mode: Mode::Immediate, cycles: 2 }),
        0x0a => Some(Instruction { mnemonic: Mnemonic::Asl, mode: Mode::Accumulator, cycles: 2 }),
        0x0d => Some(Instruction { mnemonic: Mnemonic::Ora, mode: Mode::Absolute, cycles: 4 }),
        0x0e => Some(Instruction { mnemonic: Mnemonic::Asl, mode: Mode::Absolute, cycles: 6 }),
        0x10 => Some(Instruction { mnemonic: Mnemonic::Bpl, mode: Mode::Relative, cycles: 2 }),
        0x11 => Some(Instruction { mnemonic: Mnemonic::Ora, mode: Mode::IndirectY, cycles: 5 }),
        0x15 => Some(Instruction { mnemonic: Mnemonic::Ora, mode: Mode::ZeroPageX, cycles: 4 }),
        0x16 => Some(Instruction { mnemonic: Mnemonic::Asl, mode: Mode::ZeroPageX, cycles: 6 }),
        0x18 => Some(Instruction { mnemonic: Mnemonic::Clc, mode: Mode::Implied, cycles: 2 }),
        0x19 => Some(Instruction { mnemonic: Mnemonic::Ora, mode: Mode::AbsoluteY, cycles: 4 }),
        0x1d => Some(Instruction { mnemonic: Mnemonic::Ora, mode: Mode::AbsoluteX, cycles: 4 }),
        0x1e => Some(Instruction { mnemonic: Mnemonic::Asl, mode: Mode::AbsoluteX, cycles: 7 }),
        0x20 => Some(Instruction { mnemonic: Mnemonic::Jsr, mode: Mode::Absolute, cycles: 6 }),
        0x21 => Some(Instruction { mnemonic: Mnemonic::And, mode: Mode::IndirectX, cycles: 6 }),
        0x24 => Some(Instruction { mnemonic: Mnemonic::Bit, mode: Mode::ZeroPage, cycles: 3 }),
        0x25 => Some(Instruction { mnemonic: Mnemonic::And, mode: Mode::ZeroPage, cycles: 3 }),
        0x26 => Some(Instruction { mnemonic: Mnemonic::Rol, mode: Mode::ZeroPage, cycles: 5 }),
        0x28 => Some(Instruction { mnemonic: Mnemonic::Plp, mode: Mode::Implied, cycles: 4 }),
        0x29 => Some(Instruction { mnemonic: Mnemonic::And, mode: Mode::Immediate, cycles: 2 }),
        0x2a => Some(Instruction { mnemonic: Mnemonic::Rol, mode: Mode::Accumulator, cycles: 2 }),
        0x2c => Some(Instruction { mnemonic: Mnemonic::Bit, mode: Mode::Absolute, cycles: 4 }),
        0x2d => Some(Instruction { mnemonic: Mnemonic::And, mode: Mode::Absolute, cycles: 4 }),
        0x2e => Some(Instruction { mnemonic: Mnemonic::Rol, mode: Mode::Absolute, cycles: 6 }),
        0x30 => Some(Instruction { mnemonic: Mnemonic::Bmi, mode: Mode::Relative, cycles: 2 }),
        0x31 => Some(Instruction { mnemonic: Mnemonic::And, mode: Mode::IndirectY, cycles: 5 }),
        0x35 => Some(Instruction { mnemonic: Mnemonic::And, mode: Mode::ZeroPageX, cycles: 4 }),
        0x36 => Some(Instruction { mnemonic: Mnemonic::Rol, mode: Mode::ZeroPageX, cycles: 6 }),
        0x38 => Some(Instruction { mnemonic: Mnemonic::Sec, mode: Mode::Implied, cycles: 2 }),
        0x39 => Some(Instruction { mnemonic: Mnemonic::And, mode: Mode::AbsoluteY, cycles: 4 }),
        0x3d => Some(Instruction { mnemonic: Mnemonic::And, mode: Mode::AbsoluteX, cycles: 4 }),
        0x3e => Some(Instruction { mnemonic: Mnemonic::Rol, mode: Mode::AbsoluteX, cycles: 7 }),
        0x40 => Some(Instruction { mnemonic: Mnemonic::Rti, mode: Mode::Implied, cycles: 6 }),
        0x41 => Some(Instruction { mnemonic: Mnemonic::Eor, mode: Mode::IndirectX, cycles: 6 }),
        0x45 => Some(Instruction { mnemonic: Mnemonic::Eor, mode: Mode::ZeroPage, cycles: 3 }),
        0x46 => Some(Instruction { mnemonic: Mnemonic::Lsr, mode: Mode::ZeroPage, cycles: 5 }),
        0x48 => Some(Instruction { mnemonic: Mnemonic::Pha, mode: Mode::Implied, cycles: 3 }),
        0x49 => Some(Instruction { mnemonic: Mnemonic::Eor, mode: Mode::Immediate, cycles: 2 }),
        0x4a => Some(Instruction { mnemonic: Mnemonic::Lsr, mode: Mode::Accumulator, cycles: 2 }),
        0x4c => Some(Instruction { mnemonic: Mnemonic::Jmp, mode: Mode::Absolute, cycles: 3 }),
        0x4d => Some(Instruction { mnemonic: Mnemonic::Eor, mode: Mode::Absolute, cycles: 4 }),
        0x4e => Some(Instruction { mnemonic: Mnemonic::Lsr, mode: Mode::Absolute, cycles: 6 }),
        0x50 => Some(Instruction { mnemonic: Mnemonic::Bvc, mode: Mode::Relative, cycles: 2 }),
        0x51 => Some(Instruction { mnemonic: Mnemonic::Eor, mode: Mode::IndirectY, cycles: 5 }),
        0x55 => Some(Instruction { mnemonic: Mnemonic::Eor, mode: Mode::ZeroPageX, cycles: 4 }),
        0x56 => Some(Instruction { mnemonic: Mnemonic::Lsr, mode: Mode::ZeroPageX, cycles: 6 }),
        0x58 => Some(Instruction { mnemonic: Mnemonic::Cli, mode: Mode::Implied, cycles: 2 }),
        0x59 => Some(Instruction { mnemonic: Mnemonic::Eor, mode: Mode::AbsoluteY, cycles: 4 }),
        0x5d => Some(Instruction { mnemonic: Mnemonic::Eor, mode: Mode::AbsoluteX, cycles: 4 }),
        0x5e => Some(Instruction { mnemonic: Mnemonic::Lsr, mode: Mode::AbsoluteX, cycles: 7 }),
        0x60 => Some(Instruction { mnemonic: Mnemonic::Rts, mode: Mode::Implied, cycles: 6 }),
        0x61 => Some(Instruction { mnemonic: Mnemonic::Adc, mode: Mode::IndirectX, cycles: 6 }),
        0x65 => Some(Instruction { mnemonic: Mnemonic::Adc, mode: Mode::ZeroPage, cycles: 3 }),
        0x66 => Some(Instruction { mnemonic: Mnemonic::Ror, mode: Mode::ZeroPage, cycles: 5 }),
        0x68 => Some(Instruction { mnemonic: Mnemonic::Pla, mode: Mode::Implied, cycles: 4 }),
        0x69 => Some(Instruction { mnemonic: Mnemonic::Adc, mode: Mode::Immediate, cycles: 2 }),
        0x6a => Some(Instruction { mnemonic: Mnemonic::Ror, mode: Mode::Accumulator, cycles: 2 }),
        0x6c => Some(Instruction { mnemonic: Mnemonic::Jmp, mode: Mode::Indirect, cycles: 5 }),
        0x6d => Some(Instruction { mnemonic: Mnemonic::Adc, mode: Mode::Absolute, cycles: 4 }),
        0x6e => Some(Instruction { mnemonic: Mnemonic::Ror, mode: Mode::Absolute, cycles: 6 }),
        0x70 => Some(Instruction { mnemonic: Mnemonic::Bvs, mode: Mode::Relative, cycles: 2 }),
        0x71 => Some(Instruction { mnemonic: Mnemonic::Adc, mode: Mode::IndirectY, cycles: 5 }),
        0x75 => Some(Instruction { mnemonic: Mnemonic::Adc, mode: Mode::ZeroPageX, cycles: 4 }),
        0x76 => Some(Instruction { mnemonic: Mnemonic::Ror, mode: Mode::ZeroPageX, cycles: 6 }),
        0x78 => Some(Instruction { mnemonic: Mnemonic::Sei, mode: Mode::Implied, cycles: 2 }),
        0x79 => Some(Instruction { mnemonic: Mnemonic::Adc, mode: Mode::AbsoluteY, cycles: 4 }),
        0x7d => Some(Instruction { mnemonic: Mnemonic::Adc, mode: Mode::AbsoluteX, cycles: 4 }),
        0x7e => Some(Instruction { mnemonic: Mnemonic::Ror, mode: Mode::AbsoluteX, cycles: 7 }),
        0x81 => Some(Instruction { mnemonic: Mnemonic::Sta, mode: Mode::IndirectX, cycles: 6 }),
        0x84 => Some(Instruction { mnemonic: Mnemonic::Sty, mode: Mode::ZeroPage, cycles: 3 }),
        0x85 => Some(Instruction { mnemonic: Mnemonic::Sta, mode: Mode::ZeroPage, cycles: 3 }),
        0x86 => Some(Instruction { mnemonic: Mnemonic::Stx, mode: Mode::ZeroPage, cycles: 3 }),
        0x88 => Some(Instruction { mnemonic: Mnemonic::Dey, mode: Mode::Implied, cycles: 2 }),
        0x8a => Some(Instruction { mnemonic: Mnemonic::Txa, mode: Mode::Implied, cycles: 2 }),
        0x8c => Some(Instruction { mnemonic: Mnemonic::Sty, mode: Mode::Absolute, cycles: 4 }),
        0x8d => Some(Instruction { mnemonic: Mnemonic::Sta, mode: Mode::Absolute, cycles: 4 }),
        0x8e => Some(Instruction { mnemonic: Mnemonic::Stx, mode: Mode::Absolute, cycles: 4 }),
        0x90 => Some(Instruction { mnemonic: Mnemonic::Bcc, mode: Mode::Relative, cycles: 2 }),
        0x91 => Some(Instruction { mnemonic: Mnemonic::Sta, mode: Mode::IndirectY, cycles: 6 }),
        0x94 => Some(Instruction { mnemonic: Mnemonic::Sty, mode: Mode::ZeroPageX, cycles: 4 }),
        0x95 => Some(Instruction { mnemonic: Mnemonic::Sta, mode: Mode::ZeroPageX, cycles: 4 }),
        0x96 => Some(Instruction { mnemonic: Mnemonic::Stx, mode: Mode::ZeroPageY, cycles: 4 }),
        0x98 => Some(Instruction { mnemonic: Mnemonic::Tya, mode: Mode::Implied, cycles: 2 }),
        0x99 => Some(Instruction { mnemonic: Mnemonic::Sta, mode: Mode::AbsoluteY, cycles: 5 }),
        0x9a => Some(Instruction { mnemonic: Mnemonic::Txs, mode: Mode::Implied, cycles: 2 }),
        0x9d => Some(Instruction { mnemonic: Mnemonic::Sta, mode: Mode::AbsoluteX, cycles: 5 }),
        0xa0 => Some(Instruction { mnemonic: Mnemonic::Ldy, mode: Mode::Immediate, cycles: 2 }),
        0xa1 => Some(Instruction { mnemonic: Mnemonic::Lda, mode: Mode::IndirectX, cycles: 6 }),
        0xa2 => Some(Instruction { mnemonic: Mnemonic::Ldx, mode: Mode::Immediate, cycles: 2 }),
        0xa4 => Some(Instruction { mnemonic: Mnemonic::Ldy, mode: Mode::ZeroPage, cycles: 3 }),
        0xa5 => Some(Instruction { mnemonic: Mnemonic::Lda, mode: Mode::ZeroPage, cycles: 3 }),
        0xa6 => Some(Instruction { mnemonic: Mnemonic::Ldx, mode: Mode::ZeroPage, cycles: 3 }),
        0xa8 => Some(Instruction { mnemonic: Mnemonic::Tay, mode: Mode::Implied, cycles: 2 }),
        0xa9 => Some(Instruction { mnemonic: Mnemonic::Lda, mode: Mode::Immediate, cycles: 2 }),
        0xaa => Some(Instruction { mnemonic: Mnemonic::Tax, mode: Mode::Implied, cycles: 2 }),
        0xac => Some(Instruction { mnemonic: Mnemonic::Ldy, mode: Mode::Absolute, cycles: 4 }),
        0xad => Some(Instruction { mnemonic: Mnemonic::Lda, mode: Mode::Absolute, cycles: 4 }),
        0xae => Some(Instruction { mnemonic: Mnemonic::Ldx, mode: Mode::Absolute, cycles: 4 }),
        0xb0 => Some(Instruction { mnemonic: Mnemonic::Bcs, mode: Mode::Relative, cycles: 2 }),
        0xb1 => Some(Instruction { mnemonic: Mnemonic::Lda, mode: Mode::IndirectY, cycles: 5 }),
        0xb4 => Some(Instruction { mnemonic: Mnemonic::Ldy, mode: Mode::ZeroPageX, cycles: 4 }),
        0xb5 => Some(Instruction { mnemonic: Mnemonic::Lda, mode: Mode::ZeroPageX, cycles: 4 }),
        0xb6 => Some(Instruction { mnemonic: Mnemonic::Ldx, mode: Mode::ZeroPageY, cycles: 4 }),
        0xb8 => Some(Instruction { mnemonic: Mnemonic::Clv, mode: Mode::Implied, cycles: 2 }),
        0xb9 => Some(Instruction { mnemonic: Mnemonic::Lda, mode: Mode::AbsoluteY, cycles: 4 }),
        0xba => Some(Instruction { mnemonic: Mnemonic::Tsx, mode: Mode::Implied, cycles: 2 }),
        0xbc => Some(Instruction { mnemonic: Mnemonic::Ldy, mode: Mode::AbsoluteX, cycles: 4 }),
        0xbd => Some(Instruction { mnemonic: Mnemonic::Lda, mode: Mode::AbsoluteX, cycles: 4 }),
        0xbe => Some(Instruction { mnemonic: Mnemonic::Ldx, mode: Mode::AbsoluteY, cycles: 4 }),
        0xc0 => Some(Instruction { mnemonic: Mnemonic::Cpy, mode: Mode::Immediate, cycles: 2 }),
        0xc1 => Some(Instruction { mnemonic: Mnemonic::Cmp, mode: Mode::IndirectX, cycles: 6 }),
        0xc4 => Some(Instruction { mnemonic: Mnemonic::Cpy, mode: Mode::ZeroPage, cycles: 3 }),
        0xc5 => Some(Instruction { mnemonic: Mnemonic::Cmp, mode: Mode::ZeroPage, cycles: 3 }),
        0xc6 => Some(Instruction { mnemonic: Mnemonic::Dec, mode: Mode::ZeroPage, cycles: 5 }),
        0xc8 => Some(Instruction { mnemonic: Mnemonic::Iny, mode: Mode::Implied, cycles: 2 }),
        0xc9 => Some(Instruction { mnemonic: Mnemonic::Cmp, mode: Mode::Immediate, cycles: 2 }),
        0xca => Some(Instruction { mnemonic: Mnemonic::Dex, mode: Mode::Implied, cycles: 2 }),
        0xcc => Some(Instruction { mnemonic: Mnemonic::Cpy, mode: Mode::Absolute, cycles: 4 }),
        0xcd => Some(Instruction { mnemonic: Mnemonic::Cmp, mode: Mode::Absolute, cycles: 4 }),
        0xce => Some(Instruction { mnemonic: Mnemonic::Dec, mode: Mode::Absolute, cycles: 6 }),
        0xd0 => Some(Instruction { mnemonic: Mnemonic::Bne, mode: Mode::Relative, cycles: 2 }),
        0xd1 => Some(Instruction { mnemonic: Mnemonic::Cmp, mode: Mode::IndirectY, cycles: 5 }),
        0xd5 => Some(Instruction { mnemonic: Mnemonic::Cmp, mode: Mode::ZeroPageX, cycles: 4 }),
        0xd6 => Some(Instruction { mnemonic: Mnemonic::Dec, mode: Mode::ZeroPageX, cycles: 6 }),
        0xd8 => Some(Instruction { mnemonic: Mnemonic::Cld, mode: Mode::Implied, cycles: 2 }),
        0xd9 => Some(Instruction { mnemonic: Mnemonic::Cmp, mode: Mode::AbsoluteY, cycles: 4 }),
        0xdd => Some(Instruction { mnemonic: Mnemonic::Cmp, mode: Mode::AbsoluteX, cycles: 4 }),
        0xde => Some(Instruction { mnemonic: Mnemonic::Dec, mode: Mode::AbsoluteX, cycles: 7 }),
        0xe0 => Some(Instruction { mnemonic: Mnemonic::Cpx, mode: Mode::Immediate, cycles: 2 }),
        0xe1 => Some(Instruction { mnemonic: Mnemonic::Sbc, mode: Mode::IndirectX, cycles: 6 }),
        0xe4 => Some(Instruction { mnemonic: Mnemonic::Cpx, mode: Mode::ZeroPage, cycles: 3 }),
        0xe5 => Some(Instruction { mnemonic: Mnemonic::Sbc, mode: Mode::ZeroPage, cycles: 3 }),
        0xe6 => Some(Instruction { mnemonic: Mnemonic::Inc, mode: Mode::ZeroPage, cycles: 5 }),
        0xe8 => Some(Instruction { mnemonic: Mnemonic::Inx, mode: Mode::Implied, cycles: 2 }),
        0xe9 => Some(Instruction { mnemonic: Mnemonic::Sbc, mode: Mode::Immediate, cycles: 2 }),
        0xea => Some(Instruction { mnemonic: Mnemonic::Nop, mode: Mode::Implied, cycles: 2 }),
        0xec => Some(Instruction { mnemonic: Mnemonic::Cpx, mode: Mode::Absolute, cycles: 4 }),
        0xed => Some(Instruction { mnemonic: Mnemonic::Sbc, mode: Mode::Absolute, cycles: 4 }),
        0xee => Some(Instruction { mnemonic: Mnemonic::Inc, mode: Mode::Absolute, cycles: 6 }),
        0xf0 => Some(Instruction { mnemonic: Mnemonic::Beq, mode: Mode::Relative, cycles: 2 }),
        0xf1 => Some(Instruction { mnemonic: Mnemonic::Sbc, mode: Mode::IndirectY, cycles: 5 }),
        0xf5 => Some(Instruction { mnemonic: Mnemonic::Sbc, mode: Mode::ZeroPageX, cycles: 4 }),
        0xf6 => Some(Instruction { mnemonic: Mnemonic::Inc, mode: Mode::ZeroPageX, cycles: 6 }),
        0xf8 => Some(Instruction { mnemonic: Mnemonic::Sed, mode: Mode::Implied, cycles: 2 }),
        0xf9 => Some(Instruction { mnemonic: Mnemonic::Sbc, mode: Mode::AbsoluteY, cycles: 4 }),
        0xfd => Some(Instruction { mnemonic: Mnemonic::Sbc, mode: Mode::AbsoluteX, cycles: 4 }),
        0xfe => Some(Instruction { mnemonic: Mnemonic::Inc, mode: Mode::AbsoluteX, cycles: 7 }),
        _ => None,
    }
}

} // verus!
