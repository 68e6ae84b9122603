//! The 256-entry opcode table: instruction, addressing mode and base
//! cycle count of each of the 151 official 6502 opcodes.

use vstd::prelude::*;
use super::addr::AddrMode;

verus! {

/// 6502 instructions (with separate accumulator and memory forms of
/// the shifts and rotates).
#[derive(Debug, Clone, Copy, PartialEq, Eq, Structural)]
pub enum Op {
    Adc, And, AslAcc, AslMem, Bcc, Bcs, Beq, Bmi, Bne, Bpl, Bvc, Bvs, Bit, Brk, Clc, Cld, Cli, Clv, Cmp, Cpx, Cpy, Dec, Dex, Dey, Eor, Inc, Inx, Iny, Jmp, Jsr, Lda, Ldx, Ldy, LsrAcc, LsrMem, Nop, Ora, Pha, Php, Pla, Plp, RolAcc, RolMem, RorAcc, RorMem, Rti, Rts, Sbc, Sec, Sed, Sei, Sta, Stx, Sty, Tax, Tay, Tsx, Txa, Txs, Tya,
}

/// One opcode table entry.
#[derive(Debug, Clone, Copy, PartialEq, Eq, Structural)]
pub struct OpEntry {
    /// The instruction.
    pub op: Op,
    /// How the operand is addressed.
    pub mode: AddrMode,
    /// Cycles before page-cross and branch penalties.
    pub base_cycles: u8,
}

/// The table entry of `opcode`, or `None` for an illegal opcode.
pub open spec fn spec_lookup(opcode: u8) -> Option<OpEntry> {
    match opcode {
        0x00 => Some(OpEntry { op: Op::Brk, mode: AddrMode::Implicit, base_cycles: 7 }),
        0x01 => Some(OpEntry { op: Op::Ora, mode: AddrMode::IndirectX, base_cycles: 6 }),
        0x05 => Some(OpEntry { op: Op::Ora, mode: AddrMode::ZeroPage, base_cycles: 3 }),
        0x06 => Some(OpEntry { op: Op::AslMem, mode: AddrMode::ZeroPage, base_cycles: 5 }),
        0x08 => Some(OpEntry { op: Op::Php, mode: AddrMode::Implicit, base_cycles: 3 }),
        0x09 => Some(OpEntry { op: Op::Ora, mode: AddrMode::Immediate, base_cycles: 2 }),
        0x0A => Some(OpEntry { op: Op::AslAcc, mode: AddrMode::Accumulator, base_cycles: 2 }),
        0x0D => Some(OpEntry { op: Op::Ora, mode: AddrMode::Absolute, base_cycles: 4 }),
        0x0E => Some(OpEntry { op: Op::AslMem, mode: AddrMode::Absolute, base_cycles: 6 }),
        0x10 => Some(OpEntry { op: Op::Bpl, mode: AddrMode::Relative, base_cycles: 2 }),
        0x11 => Some(OpEntry { op: Op::Ora, mode: AddrMode::IndirectY, base_cycles: 5 }),
        0x15 => Some(OpEntry { op: Op::Ora, mode: AddrMode::ZeroPageX, base_cycles: 4 }),
        0x16 => Some(OpEntry { op: Op::AslMem, mode: AddrMode::ZeroPageX, base_cycles: 6 }),
        0x18 => Some(OpEntry { op: Op::Clc, mode: AddrMode::Implicit, base_cycles: 2 }),
        0x19 => Some(OpEntry { op: Op::Ora, mode: AddrMode::AbsoluteY, base_cycles: 4 }),
        0x1D => Some(OpEntry { op: Op::Ora, mode: AddrMode::AbsoluteX, base_cycles: 4 }),
        0x1E => Some(OpEntry { op: Op::AslMem, mode: AddrMode::AbsoluteX, base_cycles: 7 }),
        0x20 => Some(OpEntry { op: Op::Jsr, mode: AddrMode::Absolute, base_cycles: 6 }),
        0x21 => Some(OpEntry { op: Op::And, mode: AddrMode::IndirectX, base_cycles: 6 }),
        0x24 => Some(OpEntry { op: Op::Bit, mode: AddrMode::ZeroPage, base_cycles: 3 }),
        0x25 => Some(OpEntry { op: Op::And, mode: AddrMode::ZeroPage, base_cycles: 3 }),
        0x26 => Some(OpEntry { op: Op::RolMem, mode: AddrMode::ZeroPage, base_cycles: 5 }),
        0x28 => Some(OpEntry { op: Op::Plp, mode: AddrMode::Implicit, base_cycles: 4 }),
        0x29 => Some(OpEntry { op: Op::And, mode: AddrMode::Immediate, base_cycles: 2 }),
        0x2A => Some(OpEntry { op: Op::RolAcc, mode: AddrMode::Accumulator, base_cycles: 2 }),
        0x2C => Some(OpEntry { op: Op::Bit, mode: AddrMode::Absolute, base_cycles: 4 }),
        0x2D => Some(OpEntry { op: Op::And, mode: AddrMode::Absolute, base_cycles: 4 }),
        0x2E => Some(OpEntry { op: Op::RolMem, mode: AddrMode::Absolute, base_cycles: 6 }),
        0x30 => Some(OpEntry { op: Op::Bmi, mode: AddrMode::Relative, base_cycles: 2 }),
        0x31 => Some(OpEntry { op: Op::And, mode: AddrMode::IndirectY, base_cycles: 5 }),
        0x35 => Some(OpEntry { op: Op::And, mode: AddrMode::ZeroPageX, base_cycles: 4 }),
        0x36 => Some(OpEntry { op: Op::RolMem, mode: AddrMode::ZeroPageX, base_cycles: 6 }),
        0x38 => Some(OpEntry { op: Op::Sec, mode: AddrMode::Implicit, base_cycles: 2 }),
        0x39 => Some(OpEntry { op: Op::And, mode: AddrMode::AbsoluteY, base_cycles: 4 }),
        0x3D => Some(OpEntry { op: Op::And, mode: AddrMode::AbsoluteX, base_cycles: 4 }),
        0x3E => Some(OpEntry { op: Op::RolMem, mode: AddrMode::AbsoluteX, base_cycles: 7 }),
        0x40 => Some(OpEntry { op: Op::Rti, mode: AddrMode::Implicit, base_cycles: 6 }),
        0x41 => Some(OpEntry { op: Op::Eor, mode: AddrMode::IndirectX, base_cycles: 6 }),
        0x45 => Some(OpEntry { op: Op::Eor, mode: AddrMode::ZeroPage, base_cycles: 3 }),
        0x46 => Some(OpEntry { op: Op::LsrMem, mode: AddrMode::ZeroPage, base_cycles: 5 }),
        0x48 => Some(OpEntry { op: Op::Pha, mode: AddrMode::Implicit, base_cycles: 3 }),
        0x49 => Some(OpEntry { op: Op::Eor, mode: AddrMode::Immediate, base_cycles: 2 }),
        0x4A => Some(OpEntry { op: Op::LsrAcc, mode: AddrMode::Accumulator, base_cycles: 2 }),
        0x4C => Some(OpEntry { op: Op::Jmp, mode: AddrMode::Absolute, base_cycles: 3 }),
        0x4D => Some(OpEntry { op: Op::Eor, mode: AddrMode::Absolute, base_cycles: 4 }),
        0x4E => Some(OpEntry { op: Op::LsrMem, mode: AddrMode::Absolute, base_cycles: 6 }),
        0x50 => Some(OpEntry { op: Op::Bvc, mode: AddrMode::Relative, base_cycles: 2 }),
        0x51 => Some(OpEntry { op: Op::Eor, mode: AddrMode::IndirectY, base_cycles: 5 }),
        0x55 => Some(OpEntry { op: Op::Eor, mode: AddrMode::ZeroPageX, base_cycles: 4 }),
        0x56 => Some(OpEntry { op: Op::LsrMem, mode: AddrMode::ZeroPageX, base_cycles: 6 }),
        0x58 => Some(OpEntry { op: Op::Cli, mode: AddrMode::Implicit, base_cycles: 2 }),
        0x59 => Some(OpEntry { op: Op::Eor, mode: AddrMode::AbsoluteY, base_cycles: 4 }),
        0x5D => Some(OpEntry { op: Op::Eor, mode: AddrMode::AbsoluteX, base_cycles: 4 }),
        0x5E => Some(OpEntry { op: Op::LsrMem, mode: AddrMode::AbsoluteX, base_cycles: 7 }),
        0x60 => Some(OpEntry { op: Op::Rts, mode: AddrMode::Implicit, base_cycles: 6 }),
        0x61 => Some(OpEntry { op: Op::Adc, mode: AddrMode::IndirectX, base_cycles: 6 }),
        0x65 => Some(OpEntry { op: Op::Adc, mode: AddrMode::ZeroPage, base_cycles: 3 }),
        0x66 => Some(OpEntry { op: Op::RorMem, mode: AddrMode::ZeroPage, base_cycles: 5 }),
        0x68 => Some(OpEntry { op: Op::Pla, mode: AddrMode::Implicit, base_cycles: 4 }),
        0x69 => Some(OpEntry { op: Op::Adc, mode: AddrMode::Immediate, base_cycles: 2 }),
        0x6A => Some(OpEntry { op: Op::RorAcc, mode: AddrMode::Accumulator, base_cycles: 2 }),
        0x6C => Some(OpEntry { op: Op::Jmp, mode: AddrMode::Indirect, base_cycles: 5 }),
        0x6D => Some(OpEntry { op: Op::Adc, mode: AddrMode::Absolute, base_cycles: 4 }),
        0x6E => Some(OpEntry { op: Op::RorMem, mode: AddrMode::Absolute, base_cycles: 6 }),
        0x70 => Some(OpEntry { op: Op::Bvs, mode: AddrMode::Relative, base_cycles: 2 }),
        0x71 => Some(OpEntry { op: Op::Adc, mode: AddrMode::IndirectY, base_cycles: 5 }),
        0x75 => Some(OpEntry { op: Op::Adc, mode: AddrMode::ZeroPageX, base_cycles: 4 }),
        0x76 => Some(OpEntry { op: Op::RorMem, mode: AddrMode::ZeroPageX, base_cycles: 6 }),
        0x78 => Some(OpEntry { op: Op::Sei, mode: AddrMode::Implicit, base_cycles: 2 }),
        0x79 => Some(OpEntry { op: Op::Adc, mode: AddrMode::AbsoluteY, base_cycles: 4 }),
        0x7D => Some(OpEntry { op: Op::Adc, mode: AddrMode::AbsoluteX, base_cycles: 4 }),
        0x7E => Some(OpEntry { op: Op::RorMem, mode: AddrMode::AbsoluteX, base_cycles: 7 }),
        0x81 => Some(OpEntry { op: Op::Sta, mode: AddrMode::IndirectX, base_cycles: 6 }),
        0x84 => Some(OpEntry { op: Op::Sty, mode: AddrMode::ZeroPage, base_cycles: 3 }),
        0x85 => Some(OpEntry { op: Op::Sta, mode: AddrMode::ZeroPage, base_cycles: 3 }),
        0x86 => Some(OpEntry { op: Op::Stx, mode: AddrMode::ZeroPage, base_cycles: 3 }),
        0x88 => Some(OpEntry { op: Op::Dey, mode: AddrMode::Implicit, base_cycles: 2 }),
        0x8A => Some(OpEntry { op: Op::Txa, mode: AddrMode::Implicit, base_cycles: 2 }),
        0x8C => Some(OpEntry { op: Op::Sty, mode: AddrMode::Absolute, base_cycles: 4 }),
        0x8D => Some(OpEntry { op: Op::Sta, mode: AddrMode::Absolute, base_cycles: 4 }),
        0x8E => Some(OpEntry { op: Op::Stx, mode: AddrMode::Absolute, base_cycles: 4 }),
        0x90 => Some(OpEntry { op: Op::Bcc, mode: AddrMode::Relative, base_cycles: 2 }),
        0x91 => Some(OpEntry { op: Op::Sta, mode: AddrMode::IndirectY, base_cycles: 6 }),
        0x94 => Some(OpEntry { op: Op::Sty, mode: AddrMode::ZeroPageX, base_cycles: 4 }),
        0x95 => Some(OpEntry { op: Op::Sta, mode: AddrMode::ZeroPageX, base_cycles: 4 }),
        0x96 => Some(OpEntry { op: Op::Stx, mode: AddrMode::ZeroPageY, base_cycles: 4 }),
        0x98 => Some(OpEntry { op: Op::Tya, mode: AddrMode::Implicit, base_cycles: 2 }),
        0x99 => Some(OpEntry { op: Op::Sta, mode: AddrMode::AbsoluteY, base_cycles: 5 }),
        0x9A => Some(OpEntry { op: Op::Txs, mode: AddrMode::Implicit, base_cycles: 2 }),
        0x9D => Some(OpEntry { op: Op::Sta, mode: AddrMode::AbsoluteX, base_cycles: 5 }),
        0xA0 => Some(OpEntry { op: Op::Ldy, mode: AddrMode::Immediate, base_cycles: 2 }),
        0xA1 => Some(OpEntry { op: Op::Lda, mode: AddrMode::IndirectX, base_cycles: 6 }),
        0xA2 => Some(OpEntry { op: Op::Ldx, mode: AddrMode::Immediate, base_cycles: 2 }),
        0xA4 => Some(OpEntry { op: Op::Ldy, mode: AddrMode::ZeroPage, base_cycles: 3 }),
        0xA5 => Some(OpEntry { op: Op::Lda, mode: AddrMode::ZeroPage, base_cycles: 3 }),
        0xA6 => Some(OpEntry { op: Op::Ldx, mode: AddrMode::ZeroPage, base_cycles: 3 }),
        0xA8 => Some(OpEntry { op: Op::Tay, mode: AddrMode::Implicit, base_cycles: 2 }),
        0xA9 => Some(OpEntry { op: Op::Lda, mode: AddrMode::Immediate, base_cycles: 2 }),
        0xAA => Some(OpEntry { op: Op::Tax, mode: AddrMode::Implicit, base_cycles: 2 }),
        0xAC => Some(OpEntry { op: Op::Ldy, mode: AddrMode::Absolute, base_cycles: 4 }),
        0xAD => Some(OpEntry { op: Op::Lda, mode: AddrMode::Absolute, base_cycles: 4 }),
        0xAE => Some(OpEntry { op: Op::Ldx, mode: AddrMode::Absolute, base_cycles: 4 }),
        0xB0 => Some(OpEntry { op: Op::Bcs, mode: AddrMode::Relative, base_cycles: 2 }),
        0xB1 => Some(OpEntry { op: Op::Lda, mode: AddrMode::IndirectY, base_cycles: 5 }),
        0xB4 => Some(OpEntry { op: Op::Ldy, mode: AddrMode::ZeroPageX, base_cycles: 4 }),
        0xB5 => Some(OpEntry { op: Op::Lda, mode: AddrMode::ZeroPageX, base_cycles: 4 }),
        0xB6 => Some(OpEntry { op: Op::Ldx, mode: AddrMode::ZeroPageY, base_cycles: 4 }),
        0xB8 => Some(OpEntry { op: Op::Clv, mode: AddrMode::Implicit, base_cycles: 2 }),
        0xB9 => Some(OpEntry { op: Op::Lda, mode: AddrMode::AbsoluteY, base_cycles: 4 }),
        0xBA => Some(OpEntry { op: Op::Tsx, mode: AddrMode::Implicit, base_cycles: 2 }),
        0xBC => Some(OpEntry { op: Op::Ldy, mode: AddrMode::AbsoluteX, base_cycles: 4 }),
        0xBD => Some(OpEntry { op: Op::Lda, mode: AddrMode::AbsoluteX, base_cycles: 4 }),
        0xBE => Some(OpEntry { op: Op::Ldx, mode: AddrMode::AbsoluteY, base_cycles: 4 }),
        0xC0 => Some(OpEntry { op: Op::Cpy, mode: AddrMode::Immediate, base_cycles: 2 }),
        0xC1 => Some(OpEntry { op: Op::Cmp, mode: AddrMode::IndirectX, base_cycles: 6 }),
        0xC4 => Some(OpEntry { op: Op::Cpy, mode: AddrMode::ZeroPage, base_cycles: 3 }),
        0xC5 => Some(OpEntry { op: Op::Cmp, mode: AddrMode::ZeroPage, base_cycles: 3 }),
        0xC6 => Some(OpEntry { op: Op::Dec, mode: AddrMode::ZeroPage, base_cycles: 5 }),
        0xC8 => Some(OpEntry { op: Op::Iny, mode: AddrMode::Implicit, base_cycles: 2 }),
        0xC9 => Some(OpEntry { op: Op::Cmp, mode: AddrMode::Immediate, base_cycles: 2 }),
        0xCA => Some(OpEntry { op: Op::Dex, mode: AddrMode::Implicit, base_cycles: 2 }),
        0xCC => Some(OpEntry { op: Op::Cpy, mode: AddrMode::Absolute, base_cycles: 4 }),
        0xCD => Some(OpEntry { op: Op::Cmp, mode: AddrMode::Absolute, base_cycles: 4 }),
        0xCE => Some(OpEntry { op: Op::Dec, mode: AddrMode::Absolute, base_cycles: 6 }),
        0xD0 => Some(OpEntry { op: Op::Bne, mode: AddrMode::Relative, base_cycles: 2 }),
        0xD1 => Some(OpEntry { op: Op::Cmp, mode: AddrMode::IndirectY, base_cycles: 5 }),
        0xD5 => Some(OpEntry { op: Op::Cmp, mode: AddrMode::ZeroPageX, base_cycles: 4 }),
        0xD6 => Some(OpEntry { op: Op::Dec, mode: AddrMode::ZeroPageX, base_cycles: 6 }),
        0xD8 => Some(OpEntry { op: Op::Cld, mode: AddrMode::Implicit, base_cycles: 2 }),
        0xD9 => Some(OpEntry { op: Op::Cmp, mode: AddrMode::AbsoluteY, base_cycles: 4 }),
        0xDD => Some(OpEntry { op: Op::Cmp, mode: AddrMode::AbsoluteX, base_cycles: 4 }),
        0xDE => Some(OpEntry { op: Op::Dec, mode: AddrMode::AbsoluteX, base_cycles: 7 }),
        0xE0 => Some(OpEntry { op: Op::Cpx, mode: AddrMode::Immediate, base_cycles: 2 }),
        0xE1 => Some(OpEntry { op: Op::Sbc, mode: AddrMode::IndirectX, base_cycles: 6 }),
        0xE4 => Some(OpEntry { op: Op::Cpx, mode: AddrMode::ZeroPage, base_cycles: 3 }),
        0xE5 => Some(OpEntry { op: Op::Sbc, mode: AddrMode::ZeroPage, base_cycles: 3 }),
        0xE6 => Some(OpEntry { op: Op::Inc, mode: AddrMode::ZeroPage, base_cycles: 5 }),
        0xE8 => Some(OpEntry { op: Op::Inx, mode: AddrMode::Implicit, base_cycles: 2 }),
        0xE9 => Some(OpEntry { op: Op::Sbc, mode: AddrMode::Immediate, base_cycles: 2 }),
        0xEA => Some(OpEntry { op: Op::Nop, mode: AddrMode::Implicit, base_cycles: 2 }),
        0xEC => Some(OpEntry { op: Op::Cpx, mode: AddrMode::Absolute, base_cycles: 4 }),
        0xED => Some(OpEntry { op: Op::Sbc, mode: AddrMode::Absolute, base_cycles: 4 }),
        0xEE => Some(OpEntry { op: Op::Inc, mode: AddrMode::Absolute, base_cycles: 6 }),
        0xF0 => Some(OpEntry { op: Op::Beq, mode: AddrMode::Relative, base_cycles: 2 }),
        0xF1 => Some(OpEntry { op: Op::Sbc, mode: AddrMode::IndirectY, base_cycles: 5 }),
        0xF5 => Some(OpEntry { op: Op::Sbc, mode: AddrMode::ZeroPageX, base_cycles: 4 }),
        0xF6 => Some(OpEntry { op: Op::Inc, mode: AddrMode::ZeroPageX, base_cycles: 6 }),
        0xF8 => Some(OpEntry { op: Op::Sed, mode: AddrMode::Implicit, base_cycles: 2 }),
        0xF9 => Some(OpEntry { op: Op::Sbc, mode: AddrMode::AbsoluteY, base_cycles: 4 }),
        0xFD => Some(OpEntry { op: Op::Sbc, mode: AddrMode::AbsoluteX, base_cycles: 4 }),
        0xFE => Some(OpEntry { op: Op::Inc, mode: AddrMode::AbsoluteX, base_cycles: 7 }),
        _ => None,
    }
}

/// Looks up an opcode; `None` for illegal and undocumented opcodes.
pub fn lookup(opcode: u8) -> (e: Option<OpEntry>)
    ensures
        e == spec_lookup(opcode),
        e matches Some(x) ==> x.base_cycles <= 7,
{
    match opcode {
        0x00 => Some(OpEntry { op: Op::Brk, mode: AddrMode::Implicit, base_cycles: 7 }),
        0x01 => Some(OpEntry { op: Op::Ora, mode: AddrMode::IndirectX, base_cycles: 6 }),
        0x05 => Some(OpEntry { op: Op::Ora, mode: AddrMode::ZeroPage, base_cycles: 3 }),
        0x06 => Some(OpEntry { op: Op::AslMem, mode: AddrMode::ZeroPage, base_cycles: 5 }),
        0x08 => Some(OpEntry { op: Op::Php, mode: AddrMode::Implicit, base_cycles: 3 }),
        0x09 => Some(OpEntry { op: Op::Ora, mode: AddrMode::Immediate, base_cycles: 2 }),
        0x0A => Some(OpEntry { op: Op::AslAcc, mode: AddrMode::Accumulator, base_cycles: 2 }),
        0x0D => Some(OpEntry { op: Op::Ora, mode: AddrMode::Absolute, base_cycles: 4 }),
        0x0E => Some(OpEntry { op: Op::AslMem, mode: AddrMode::Absolute, base_cycles: 6 }),
        0x10 => Some(OpEntry { op: Op::Bpl, mode: AddrMode::Relative, base_cycles: 2 }),
        0x11 => Some(OpEntry { op: Op::Ora, mode: AddrMode::IndirectY, base_cycles: 5 }),
        0x15 => Some(OpEntry { op: Op::Ora, mode: AddrMode::ZeroPageX, base_cycles: 4 }),
        0x16 => Some(OpEntry { op: Op::AslMem, mode: AddrMode::ZeroPageX, base_cycles: 6 }),
        0x18 => Some(OpEntry { op: Op::Clc, mode: AddrMode::Implicit, base_cycles: 2 }),
        0x19 => Some(OpEntry { op: Op::Ora, mode: AddrMode::AbsoluteY, base_cycles: 4 }),
        0x1D => Some(OpEntry { op: Op::Ora, mode: AddrMode::AbsoluteX, base_cycles: 4 }),
        0x1E => Some(OpEntry { op: Op::AslMem, mode: AddrMode::AbsoluteX, base_cycles: 7 }),
        0x20 => Some(OpEntry { op: Op::Jsr, mode: AddrMode::Absolute, base_cycles: 6 }),
        0x21 => Some(OpEntry { op: Op::And, mode: AddrMode::IndirectX, base_cycles: 6 }),
        0x24 => Some(OpEntry { op: Op::Bit, mode: AddrMode::ZeroPage, base_cycles: 3 }),
        0x25 => Some(OpEntry { op: Op::And, mode: AddrMode::ZeroPage, base_cycles: 3 }),
        0x26 => Some(OpEntry { op: Op::RolMem, mode: AddrMode::ZeroPage, base_cycles: 5 }),
        0x28 => Some(OpEntry { op: Op::Plp, mode: AddrMode::Implicit, base_cycles: 4 }),
        0x29 => Some(OpEntry { op: Op::And, mode: AddrMode::Immediate, base_cycles: 2 }),
        0x2A => Some(OpEntry { op: Op::RolAcc, mode: AddrMode::Accumulator, base_cycles: 2 }),
        0x2C => Some(OpEntry { op: Op::Bit, mode: AddrMode::Absolute, base_cycles: 4 }),
        0x2D => Some(OpEntry { op: Op::And, mode: AddrMode::Absolute, base_cycles: 4 }),
        0x2E => Some(OpEntry { op: Op::RolMem, mode: AddrMode::Absolute, base_cycles: 6 }),
        0x30 => Some(OpEntry { op: Op::Bmi, mode: AddrMode::Relative, base_cycles: 2 }),
        0x31 => Some(OpEntry { op: Op::And, mode: AddrMode::IndirectY, base_cycles: 5 }),
        0x35 => Some(OpEntry { op: Op::And, mode: AddrMode::ZeroPageX, base_cycles: 4 }),
        0x36 => Some(OpEntry { op: Op::RolMem, mode: AddrMode::ZeroPageX, base_cycles: 6 }),
        0x38 => Some(OpEntry { op: Op::Sec, mode: AddrMode::Implicit, base_cycles: 2 }),
        0x39 => Some(OpEntry { op: Op::And, mode: AddrMode::AbsoluteY, base_cycles: 4 }),
        0x3D => Some(OpEntry { op: Op::And, mode: AddrMode::AbsoluteX, base_cycles: 4 }),
        0x3E => Some(OpEntry { op: Op::RolMem, mode: AddrMode::AbsoluteX, base_cycles: 7 }),
        0x40 => Some(OpEntry { op: Op::Rti, mode: AddrMode::Implicit, base_cycles: 6 }),
        0x41 => Some(OpEntry { op: Op::Eor, mode: AddrMode::IndirectX, base_cycles: 6 }),
        0x45 => Some(OpEntry { op: Op::Eor, mode: AddrMode::ZeroPage, base_cycles: 3 }),
        0x46 => Some(OpEntry { op: Op::LsrMem, mode: AddrMode::ZeroPage, base_cycles: 5 }),
        0x48 => Some(OpEntry { op: Op::Pha, mode: AddrMode::Implicit, base_cycles: 3 }),
        0x49 => Some(OpEntry { op: Op::Eor, mode: AddrMode::Immediate, base_cycles: 2 }),
        0x4A => Some(OpEntry { op: Op::LsrAcc, mode: AddrMode::Accumulator, base_cycles: 2 }),
        0x4C => Some(OpEntry { op: Op::Jmp, mode: AddrMode::Absolute, base_cycles: 3 }),
        0x4D => Some(OpEntry { op: Op::Eor, mode: AddrMode::Absolute, base_cycles: 4 }),
        0x4E => Some(OpEntry { op: Op::LsrMem, mode: AddrMode::Absolute, base_cycles: 6 }),
        0x50 => Some(OpEntry { op: Op::Bvc, mode: AddrMode::Relative, base_cycles: 2 }),
        0x51 => Some(OpEntry { op: Op::Eor, mode: AddrMode::IndirectY, base_cycles: 5 }),
        0x55 => Some(OpEntry { op: Op::Eor, mode: AddrMode::ZeroPageX, base_cycles: 4 }),
        0x56 => Some(OpEntry { op: Op::LsrMem, mode: AddrMode::ZeroPageX, base_cycles: 6 }),
        0x58 => Some(OpEntry { op: Op::Cli, mode: AddrMode::Implicit, base_cycles: 2 }),
        0x59 => Some(OpEntry { op: Op::Eor, mode: AddrMode::AbsoluteY, base_cycles: 4 }),
        0x5D => Some(OpEntry { op: Op::Eor, mode: AddrMode::AbsoluteX, base_cycles: 4 }),
        0x5E => Some(OpEntry { op: Op::LsrMem, mode: AddrMode::AbsoluteX, base_cycles: 7 }),
        0x60 => Some(OpEntry { op: Op::Rts, mode: AddrMode::Implicit, base_cycles: 6 }),
        0x61 => Some(OpEntry { op: Op::Adc, mode: AddrMode::IndirectX, base_cycles: 6 }),
        0x65 => Some(OpEntry { op: Op::Adc, mode: AddrMode::ZeroPage, base_cycles: 3 }),
        0x66 => Some(OpEntry { op: Op::RorMem, mode: AddrMode::ZeroPage, base_cycles: 5 }),
        0x68 => Some(OpEntry { op: Op::Pla, mode: AddrMode::Implicit, base_cycles: 4 }),
        0x69 => Some(OpEntry { op: Op::Adc, mode: AddrMode::Immediate, base_cycles: 2 }),
        0x6A => Some(OpEntry { op: Op::RorAcc, mode: AddrMode::Accumulator, base_cycles: 2 }),
        0x6C => Some(OpEntry { op: Op::Jmp, mode: AddrMode::Indirect, base_cycles: 5 }),
        0x6D => Some(OpEntry { op: Op::Adc, mode: AddrMode::Absolute, base_cycles: 4 }),
        0x6E => Some(OpEntry { op: Op::RorMem, mode: AddrMode::Absolute, base_cycles: 6 }),
        0x70 => Some(OpEntry { op: Op::Bvs, mode: AddrMode::Relative, base_cycles: 2 }),
        0x71 => Some(OpEntry { op: Op::Adc, mode: AddrMode::IndirectY, base_cycles: 5 }),
        0x75 => Some(OpEntry { op: Op::Adc, mode: AddrMode::ZeroPageX, base_cycles: 4 }),
        0x76 => Some(OpEntry { op: Op::RorMem, mode: AddrMode::ZeroPageX, base_cycles: 6 }),
        0x78 => Some(OpEntry { op: Op::Sei, mode: AddrMode::Implicit, base_cycles: 2 }),
        0x79 => Some(OpEntry { op: Op::Adc, mode: AddrMode::AbsoluteY, base_cycles: 4 }),
        0x7D => Some(OpEntry { op: Op::Adc, mode: AddrMode::AbsoluteX, base_cycles: 4 }),
        0x7E => Some(OpEntry { op: Op::RorMem, mode: AddrMode::AbsoluteX, base_cycles: 7 }),
        0x81 => Some(OpEntry { op: Op::Sta, mode: AddrMode::IndirectX, base_cycles: 6 }),
        0x84 => Some(OpEntry { op: Op::Sty, mode: AddrMode::ZeroPage, base_cycles: 3 }),
        0x85 => Some(OpEntry { op: Op::Sta, mode: AddrMode::ZeroPage, base_cycles: 3 }),
        0x86 => Some(OpEntry { op: Op::Stx, mode: AddrMode::ZeroPage, base_cycles: 3 }),
        0x88 => Some(OpEntry { op: Op::Dey, mode: AddrMode::Implicit, base_cycles: 2 }),
        0x8A => Some(OpEntry { op: Op::Txa, mode: AddrMode::Implicit, base_cycles: 2 }),
        0x8C => Some(OpEntry { op: Op::Sty, mode: AddrMode::Absolute, base_cycles: 4 }),
        0x8D => Some(OpEntry { op: Op::Sta, mode: AddrMode::Absolute, base_cycles: 4 }),
        0x8E => Some(OpEntry { op: Op::Stx, mode: AddrMode::Absolute, base_cycles: 4 }),
        0x90 => Some(OpEntry { op: Op::Bcc, mode: AddrMode::Relative, base_cycles: 2 }),
        0x91 => Some(OpEntry { op: Op::Sta, mode: AddrMode::IndirectY, base_cycles: 6 }),
        0x94 => Some(OpEntry { op: Op::Sty, mode: AddrMode::ZeroPageX, base_cycles: 4 }),
        0x95 => Some(OpEntry { op: Op::Sta, mode: AddrMode::ZeroPageX, base_cycles: 4 }),
        0x96 => Some(OpEntry { op: Op::Stx, mode: AddrMode::ZeroPageY, base_cycles: 4 }),
        0x98 => Some(OpEntry { op: Op::Tya, mode: AddrMode::Implicit, base_cycles: 2 }),
        0x99 => Some(OpEntry { op: Op::Sta, mode: AddrMode::AbsoluteY, base_cycles: 5 }),
        0x9A => Some(OpEntry { op: Op::Txs, mode: AddrMode::Implicit, base_cycles: 2 }),
        0x9D => Some(OpEntry { op: Op::Sta, mode: AddrMode::AbsoluteX, base_cycles: 5 }),
        0xA0 => Some(OpEntry { op: Op::Ldy, mode: AddrMode::Immediate, base_cycles: 2 }),
        0xA1 => Some(OpEntry { op: Op::Lda, mode: AddrMode::IndirectX, base_cycles: 6 }),
        0xA2 => Some(OpEntry { op: Op::Ldx, mode: AddrMode::Immediate, base_cycles: 2 }),
        0xA4 => Some(OpEntry { op: Op::Ldy, mode: AddrMode::ZeroPage, base_cycles: 3 }),
        0xA5 => Some(OpEntry { op: Op::Lda, mode: AddrMode::ZeroPage, base_cycles: 3 }),
        0xA6 => Some(OpEntry { op: Op::Ldx, mode: AddrMode::ZeroPage, base_cycles: 3 }),
        0xA8 => Some(OpEntry { op: Op::Tay, mode: AddrMode::Implicit, base_cycles: 2 }),
        0xA9 => Some(OpEntry { op: Op::Lda, mode: AddrMode::Immediate, base_cycles: 2 }),
        0xAA => Some(OpEntry { op: Op::Tax, mode: AddrMode::Implicit, base_cycles: 2 }),
        0xAC => Some(OpEntry { op: Op::Ldy, mode: AddrMode::Absolute, base_cycles: 4 }),
        0xAD => Some(OpEntry { op: Op::Lda, mode: AddrMode::Absolute, base_cycles: 4 }),
        0xAE => Some(OpEntry { op: Op::Ldx, mode: AddrMode::Absolute, base_cycles: 4 }),
        0xB0 => Some(OpEntry { op: Op::Bcs, mode: AddrMode::Relative, base_cycles: 2 }),
        0xB1 => Some(OpEntry { op: Op::Lda, mode: AddrMode::IndirectY, base_cycles: 5 }),
        0xB4 => Some(OpEntry { op: Op::Ldy, mode: AddrMode::ZeroPageX, base_cycles: 4 }),
        0xB5 => Some(OpEntry { op: Op::Lda, mode: AddrMode::ZeroPageX, base_cycles: 4 }),
        0xB6 => Some(OpEntry { op: Op::Ldx, mode: AddrMode::ZeroPageY, base_cycles: 4 }),
        0xB8 => Some(OpEntry { op: Op::Clv, mode: AddrMode::Implicit, base_cycles: 2 }),
        0xB9 => Some(OpEntry { op: Op::Lda, mode: AddrMode::AbsoluteY, base_cycles: 4 }),
        0xBA => Some(OpEntry { op: Op::Tsx, mode: AddrMode::Implicit, base_cycles: 2 }),
        0xBC => Some(OpEntry { op: Op::Ldy, mode: AddrMode::AbsoluteX, base_cycles: 4 }),
        0xBD => Some(OpEntry { op: Op::Lda, mode: AddrMode::AbsoluteX, base_cycles: 4 }),
        0xBE => Some(OpEntry { op: Op::Ldx, mode: AddrMode::AbsoluteY, base_cycles: 4 }),
        0xC0 => Some(OpEntry { op: Op::Cpy, mode: AddrMode::Immediate, base_cycles: 2 }),
        0xC1 => Some(OpEntry { op: Op::Cmp, mode: AddrMode::IndirectX, base_cycles: 6 }),
        0xC4 => Some(OpEntry { op: Op::Cpy, mode: AddrMode::ZeroPage, base_cycles: 3 }),
        0xC5 => Some(OpEntry { op: Op::Cmp, mode: AddrMode::ZeroPage, base_cycles: 3 }),
        0xC6 => Some(OpEntry { op: Op::Dec, mode: AddrMode::ZeroPage, base_cycles: 5 }),
        0xC8 => Some(OpEntry { op: Op::Iny, mode: AddrMode::Implicit, base_cycles: 2 }),
        0xC9 => Some(OpEntry { op: Op::Cmp, mode: AddrMode::Immediate, base_cycles: 2 }),
        0xCA => Some(OpEntry { op: Op::Dex, mode: AddrMode::Implicit, base_cycles: 2 }),
        0xCC => Some(OpEntry { op: Op::Cpy, mode: AddrMode::Absolute, base_cycles: 4 }),
        0xCD => Some(OpEntry { op: Op::Cmp, mode: AddrMode::Absolute, base_cycles: 4 }),
        0xCE => Some(OpEntry { op: Op::Dec, mode: AddrMode::Absolute, base_cycles: 6 }),
        0xD0 => Some(OpEntry { op: Op::Bne, mode: AddrMode::Relative, base_cycles: 2 }),
        0xD1 => Some(OpEntry { op: Op::Cmp, mode: AddrMode::IndirectY, base_cycles: 5 }),
        0xD5 => Some(OpEntry { op: Op::Cmp, mode: AddrMode::ZeroPageX, base_cycles: 4 }),
        0xD6 => Some(OpEntry { op: Op::Dec, mode: AddrMode::ZeroPageX, base_cycles: 6 }),
        0xD8 => Some(OpEntry { op: Op::Cld, mode: AddrMode::Implicit, base_cycles: 2 }),
        0xD9 => Some(OpEntry { op: Op::Cmp, mode: AddrMode::AbsoluteY, base_cycles: 4 }),
        0xDD => Some(OpEntry { op: Op::Cmp, mode: AddrMode::AbsoluteX, base_cycles: 4 }),
        0xDE => Some(OpEntry { op: Op::Dec, mode: AddrMode::AbsoluteX, base_cycles: 7 }),
        0xE0 => Some(OpEntry { op: Op::Cpx, mode: AddrMode::Immediate, base_cycles: 2 }),
        0xE1 => Some(OpEntry { op: Op::Sbc, mode: AddrMode::IndirectX, base_cycles: 6 }),
        0xE4 => Some(OpEntry { op: Op::Cpx, mode: AddrMode::ZeroPage, base_cycles: 3 }),
        0xE5 => Some(OpEntry { op: Op::Sbc, mode: AddrMode::ZeroPage, base_cycles: 3 }),
        0xE6 => Some(OpEntry { op: Op::Inc, mode: AddrMode::ZeroPage, base_cycles: 5 }),
        0xE8 => Some(OpEntry { op: Op::Inx, mode: AddrMode::Implicit, base_cycles: 2 }),
        0xE9 => Some(OpEntry { op: Op::Sbc, mode: AddrMode::Immediate, base_cycles: 2 }),
        0xEA => Some(OpEntry { op: Op::Nop, mode: AddrMode::Implicit, base_cycles: 2 }),
        0xEC => Some(OpEntry { op: Op::Cpx, mode: AddrMode::Absolute, base_cycles: 4 }),
        0xED => Some(OpEntry { op: Op::Sbc, mode: AddrMode::Absolute, base_cycles: 4 }),
        0xEE => Some(OpEntry { op: Op::Inc, mode: AddrMode::Absolute, base_cycles: 6 }),
        0xF0 => Some(OpEntry { op: Op::Beq, mode: AddrMode::Relative, base_cycles: 2 }),
        0xF1 => Some(OpEntry { op: Op::Sbc, mode: AddrMode::IndirectY, base_cycles: 5 }),
        0xF5 => Some(OpEntry { op: Op::Sbc, mode: AddrMode::ZeroPageX, base_cycles: 4 }),
        0xF6 => Some(OpEntry { op: Op::Inc, mode: AddrMode::ZeroPageX, base_cycles: 6 }),
        0xF8 => Some(OpEntry { op: Op::Sed, mode: AddrMode::Implicit, base_cycles: 2 }),
        0xF9 => Some(OpEntry { op: Op::Sbc, mode: AddrMode::AbsoluteY, base_cycles: 4 }),
        0xFD => Some(OpEntry { op: Op::Sbc, mode: AddrMode::AbsoluteX, base_cycles: 4 }),
        0xFE => Some(OpEntry { op: Op::Inc, mode: AddrMode::AbsoluteX, base_cycles: 7 }),
        _ => None,
    }
}

} // verus!
