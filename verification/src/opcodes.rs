//! The dispatch table: a pure, static mapping from one-byte opcode to
//! addressing mode, instruction byte length and mnemonic.
//!
//! The table is purely descriptive data. `spec_opcode` is the
//! specification-level table; `opcode_entry` is the executable copy,
//! proved to agree with it on every byte.

use vstd::prelude::*;

verus! {

/// The rule by which an instruction's operand address is computed.
#[derive(Clone, Copy, PartialEq, Eq, Structural, Debug)]
pub enum AddressingMode {
    /// The operand is the byte following the opcode itself.
    Immediate,
    /// The next byte, zero-extended to 16 bits.
    ZeroPage,
    /// The next byte plus X, wrapped to 8 bits, zero-extended.
    ZeroPageX,
    /// The next byte plus Y, wrapped to 8 bits, zero-extended.
    ZeroPageY,
    /// The next two bytes as a little-endian word.
    Absolute,
    /// The absolute word plus X, wrapped to 16 bits.
    AbsoluteX,
    /// The absolute word plus Y, wrapped to 16 bits.
    AbsoluteY,
    /// The next byte plus X (8-bit wrap) names a zero-page pointer; the
    /// word there (high byte fetched with 8-bit wrap) is the address.
    IndirectX,
    /// The word at the zero-page address given by the next byte (high byte
    /// fetched with 8-bit wrap), plus Y, wrapped to 16 bits.
    IndirectY,
    /// The instruction takes no operand address.
    NoneAddressing,
}

/// The operation an opcode selects, for dispatch and diagnostics.
#[derive(Clone, Copy, PartialEq, Eq, Structural, Debug)]
pub enum Mnemonic {
    Adc,
    And,
    Asl,
    AslAcc,
    Bcc,
    Bcs,
    Beq,
    Bit,
    Bmi,
    Bne,
    Bpl,
    Brk,
    Bvc,
    Bvs,
    Clc,
    Cld,
    Cli,
    Clv,
    Cmp,
    Cpx,
    Cpy,
    Dec,
    Dex,
    Dey,
    Eor,
    Inc,
    Inx,
    Iny,
    JmpAbs,
    JmpInd,
    Jsr,
    Lda,
    Ldx,
    Ldy,
    Lsr,
    LsrAcc,
    Nop,
    Ora,
    Pha,
    Php,
    Pla,
    Plp,
    Rol,
    RolAcc,
    Ror,
    RorAcc,
    Rti,
    Rts,
    Sbc,
    Sec,
    Sed,
    Sei,
    Sta,
    Stx,
    Sty,
    Tax,
    Tay,
    Tsx,
    Txa,
    Txs,
    Tya,
}

/// One dispatch-table entry: what the opcode does, how its operand address
/// is found, and how many bytes the instruction occupies, opcode included.
#[derive(Clone, Copy, PartialEq, Eq, Structural, Debug)]
pub struct OpCode {
    pub mnemonic: Mnemonic,
    pub mode: AddressingMode,
    pub len: u8,
}

/// A present table entry.
pub open spec fn some_op(mnemonic: Mnemonic, mode: AddressingMode, len: u8) -> Option<OpCode> {
    Some(OpCode { mnemonic, mode, len })
}

/// Whether instructions with this mnemonic resolve an operand address.
pub open spec fn takes_operand(mnemonic: Mnemonic) -> bool {
    match mnemonic {
        Mnemonic::Adc | Mnemonic::And | Mnemonic::Asl | Mnemonic::Bit | Mnemonic::Cmp
            | Mnemonic::Cpx | Mnemonic::Cpy | Mnemonic::Dec | Mnemonic::Eor | Mnemonic::Inc
            | Mnemonic::Lda | Mnemonic::Ldx | Mnemonic::Ldy | Mnemonic::Lsr | Mnemonic::Ora
            | Mnemonic::Rol | Mnemonic::Ror | Mnemonic::Sbc | Mnemonic::Sta | Mnemonic::Stx
            | Mnemonic::Sty => true,
        _ => false,
    }
}

/// The dispatch table at the specification level.
pub open spec fn spec_opcode(code: u8) -> Option<OpCode> {
    match code {
        0x00 => some_op(Mnemonic::Brk, AddressingMode::NoneAddressing, 1),
        0x01 => some_op(Mnemonic::Ora, AddressingMode::IndirectX, 2),
        0x05 => some_op(Mnemonic::Ora, AddressingMode::ZeroPage, 2),
        0x06 => some_op(Mnemonic::Asl, AddressingMode::ZeroPage, 2),
        0x08 => some_op(Mnemonic::Php, AddressingMode::NoneAddressing, 1),
        0x09 => some_op(Mnemonic::Ora, AddressingMode::Immediate, 2),
        0x0a => some_op(Mnemonic::AslAcc, AddressingMode::NoneAddressing, 1),
        0x0d => some_op(Mnemonic::Ora, AddressingMode::Absolute, 3),
        0x0e => some_op(Mnemonic::Asl, AddressingMode::Absolute, 3),
        0x10 => some_op(Mnemonic::Bpl, AddressingMode::NoneAddressing, 2),
        0x11 => some_op(Mnemonic::Ora, AddressingMode::IndirectY, 2),
        0x15 => some_op(Mnemonic::Ora, AddressingMode::ZeroPageX, 2),
        0x16 => some_op(Mnemonic::Asl, AddressingMode::ZeroPageX, 2),
        0x18 => some_op(Mnemonic::Clc, AddressingMode::NoneAddressing, 1),
        0x19 => some_op(Mnemonic::Ora, AddressingMode::AbsoluteY, 3),
        0x1d => some_op(Mnemonic::Ora, AddressingMode::AbsoluteX, 3),
        0x1e => some_op(Mnemonic::Asl, AddressingMode::AbsoluteX, 3),
        0x20 => some_op(Mnemonic::Jsr, AddressingMode::NoneAddressing, 3),
        0x21 => some_op(Mnemonic::And, AddressingMode::IndirectX, 2),
        0x24 => some_op(Mnemonic::Bit, AddressingMode::ZeroPage, 2),
        0x25 => some_op(Mnemonic::And, AddressingMode::ZeroPage, 2),
        0x26 => some_op(Mnemonic::Rol, AddressingMode::ZeroPage, 2),
        0x28 => some_op(Mnemonic::Plp, AddressingMode::NoneAddressing, 1),
        0x29 => some_op(Mnemonic::And, AddressingMode::Immediate, 2),
        0x2a => some_op(Mnemonic::RolAcc, AddressingMode::NoneAddressing, 1),
        0x2c => some_op(Mnemonic::Bit, AddressingMode::Absolute, 3),
        0x2d => some_op(Mnemonic::And, AddressingMode::Absolute, 3),
        0x2e => some_op(Mnemonic::Rol, AddressingMode::Absolute, 3),
        0x30 => some_op(Mnemonic::Bmi, AddressingMode::NoneAddressing, 2),
        0x31 => some_op(Mnemonic::And, AddressingMode::IndirectY, 2),
        0x35 => some_op(Mnemonic::And, AddressingMode::ZeroPageX, 2),
        0x36 => some_op(Mnemonic::Rol, AddressingMode::ZeroPageX, 2),
        0x38 => some_op(Mnemonic::Sec, AddressingMode::NoneAddressing, 1),
        0x39 => some_op(Mnemonic::And, AddressingMode::AbsoluteY, 3),
        0x3d => some_op(Mnemonic::And, AddressingMode::AbsoluteX, 3),
        0x3e => some_op(Mnemonic::Rol, AddressingMode::AbsoluteX, 3),
        0x40 => some_op(Mnemonic::Rti, AddressingMode::NoneAddressing, 1),
        0x41 => some_op(Mnemonic::Eor, AddressingMode::IndirectX, 2),
        0x45 => some_op(Mnemonic::Eor, AddressingMode::ZeroPage, 2),
        0x46 => some_op(Mnemonic::Lsr, AddressingMode::ZeroPage, 2),
        0x48 => some_op(Mnemonic::Pha, AddressingMode::NoneAddressing, 1),
        0x49 => some_op(Mnemonic::Eor, AddressingMode::Immediate, 2),
        0x4a => some_op(Mnemonic::LsrAcc, AddressingMode::NoneAddressing, 1),
        0x4c => some_op(Mnemonic::JmpAbs, AddressingMode::NoneAddressing, 3),
        0x4d => some_op(Mnemonic::Eor, AddressingMode::Absolute, 3),
        0x4e => some_op(Mnemonic::Lsr, AddressingMode::Absolute, 3),
        0x50 => some_op(Mnemonic::Bvc, AddressingMode::NoneAddressing, 2),
        0x51 => some_op(Mnemonic::Eor, AddressingMode::IndirectY, 2),
        0x55 => some_op(Mnemonic::Eor, AddressingMode::ZeroPageX, 2),
        0x56 => some_op(Mnemonic::Lsr, AddressingMode::ZeroPageX, 2),
        0x58 => some_op(Mnemonic::Cli, AddressingMode::NoneAddressing, 1),
        0x59 => some_op(Mnemonic::Eor, AddressingMode::AbsoluteY, 3),
        0x5d => some_op(Mnemonic::Eor, AddressingMode::AbsoluteX, 3),
        0x5e => some_op(Mnemonic::Lsr, AddressingMode::AbsoluteX, 3),
        0x60 => some_op(Mnemonic::Rts, AddressingMode::NoneAddressing, 1),
        0x61 => some_op(Mnemonic::Adc, AddressingMode::IndirectX, 2),
        0x65 => some_op(Mnemonic::Adc, AddressingMode::ZeroPage, 2),
        0x66 => some_op(Mnemonic::Ror, AddressingMode::ZeroPage, 2),
        0x68 => some_op(Mnemonic::Pla, AddressingMode::NoneAddressing, 1),
        0x69 => some_op(Mnemonic::Adc, AddressingMode::Immediate, 2),
        0x6a => some_op(Mnemonic::RorAcc, AddressingMode::NoneAddressing, 1),
        0x6c => some_op(Mnemonic::JmpInd, AddressingMode::NoneAddressing, 3),
        0x6d => some_op(Mnemonic::Adc, AddressingMode::Absolute, 3),
        0x6e => some_op(Mnemonic::Ror, AddressingMode::Absolute, 3),
        0x70 => some_op(Mnemonic::Bvs, AddressingMode::NoneAddressing, 2),
        0x71 => some_op(Mnemonic::Adc, AddressingMode::IndirectY, 2),
        0x75 => some_op(Mnemonic::Adc, AddressingMode::ZeroPageX, 2),
        0x76 => some_op(Mnemonic::Ror, AddressingMode::ZeroPageX, 2),
        0x78 => some_op(Mnemonic::Sei, AddressingMode::NoneAddressing, 1),
        0x79 => some_op(Mnemonic::Adc, AddressingMode::AbsoluteY, 3),
        0x7d => some_op(Mnemonic::Adc, AddressingMode::AbsoluteX, 3),
        0x7e => some_op(Mnemonic::Ror, AddressingMode::AbsoluteX, 3),
        0x81 => some_op(Mnemonic::Sta, AddressingMode::IndirectX, 2),
        0x84 => some_op(Mnemonic::Sty, AddressingMode::ZeroPage, 2),
        0x85 => some_op(Mnemonic::Sta, AddressingMode::ZeroPage, 2),
        0x86 => some_op(Mnemonic::Stx, AddressingMode::ZeroPage, 2),
        0x88 => some_op(Mnemonic::Dey, AddressingMode::NoneAddressing, 1),
        0x8a => some_op(Mnemonic::Txa, AddressingMode::NoneAddressing, 1),
        0x8c => some_op(Mnemonic::Sty, AddressingMode::Absolute, 3),
        0x8d => some_op(Mnemonic::Sta, AddressingMode::Absolute, 3),
        0x8e => some_op(Mnemonic::Stx, AddressingMode::Absolute, 3),
        0x90 => some_op(Mnemonic::Bcc, AddressingMode::NoneAddressing, 2),
        0x91 => some_op(Mnemonic::Sta, AddressingMode::IndirectY, 2),
        0x94 => some_op(Mnemonic::Sty, AddressingMode::ZeroPageX, 2),
        0x95 => some_op(Mnemonic::Sta, AddressingMode::ZeroPageX, 2),
        0x96 => some_op(Mnemonic::Stx, AddressingMode::ZeroPageY, 2),
        0x98 => some_op(Mnemonic::Tya, AddressingMode::NoneAddressing, 1),
        0x99 => some_op(Mnemonic::Sta, AddressingMode::AbsoluteY, 3),
        0x9a => some_op(Mnemonic::Txs, AddressingMode::NoneAddressing, 1),
        0x9d => some_op(Mnemonic::Sta, AddressingMode::AbsoluteX, 3),
        0xa0 => some_op(Mnemonic::Ldy, AddressingMode::Immediate, 2),
        0xa1 => some_op(Mnemonic::Lda, AddressingMode::IndirectX, 2),
        0xa2 => some_op(Mnemonic::Ldx, AddressingMode::Immediate, 2),
        0xa4 => some_op(Mnemonic::Ldy, AddressingMode::ZeroPage, 2),
        0xa5 => some_op(Mnemonic::Lda, AddressingMode::ZeroPage, 2),
        0xa6 => some_op(Mnemonic::Ldx, AddressingMode::ZeroPage, 2),
        0xa8 => some_op(Mnemonic::Tay, AddressingMode::NoneAddressing, 1),
        0xa9 => some_op(Mnemonic::Lda, AddressingMode::Immediate, 2),
        0xaa => some_op(Mnemonic::Tax, AddressingMode::NoneAddressing, 1),
        0xac => some_op(Mnemonic::Ldy, AddressingMode::Absolute, 3),
        0xad => some_op(Mnemonic::Lda, AddressingMode::Absolute, 3),
        0xae => some_op(Mnemonic::Ldx, AddressingMode::Absolute, 3),
        0xb0 => some_op(Mnemonic::Bcs, AddressingMode::NoneAddressing, 2),
        0xb1 => some_op(Mnemonic::Lda, AddressingMode::IndirectY, 2),
        0xb4 => some_op(Mnemonic::Ldy, AddressingMode::ZeroPageX, 2),
        0xb5 => some_op(Mnemonic::Lda, AddressingMode::ZeroPageX, 2),
        0xb6 => some_op(Mnemonic::Ldx, AddressingMode::ZeroPageY, 2),
        0xb8 => some_op(Mnemonic::Clv, AddressingMode::NoneAddressing, 1),
        0xb9 => some_op(Mnemonic::Lda, AddressingMode::AbsoluteY, 3),
        0xba => some_op(Mnemonic::Tsx, AddressingMode::NoneAddressing, 1),
        0xbc => some_op(Mnemonic::Ldy, AddressingMode::AbsoluteX, 3),
        0xbd => some_op(Mnemonic::Lda, AddressingMode::AbsoluteX, 3),
        0xbe => some_op(Mnemonic::Ldx, AddressingMode::AbsoluteY, 3),
        0xc0 => some_op(Mnemonic::Cpy, AddressingMode::Immediate, 2),
        0xc1 => some_op(Mnemonic::Cmp, AddressingMode::IndirectX, 2),
        0xc4 => some_op(Mnemonic::Cpy, AddressingMode::ZeroPage, 2),
        0xc5 => some_op(Mnemonic::Cmp, AddressingMode::ZeroPage, 2),
        0xc6 => some_op(Mnemonic::Dec, AddressingMode::ZeroPage, 2),
        0xc8 => some_op(Mnemonic::Iny, AddressingMode::NoneAddressing, 1),
        0xc9 => some_op(Mnemonic::Cmp, AddressingMode::Immediate, 2),
        0xca => some_op(Mnemonic::Dex, AddressingMode::NoneAddressing, 1),
        0xcc => some_op(Mnemonic::Cpy, AddressingMode::Absolute, 3),
        0xcd => some_op(Mnemonic::Cmp, AddressingMode::Absolute, 3),
        0xce => some_op(Mnemonic::Dec, AddressingMode::Absolute, 3),
        0xd0 => some_op(Mnemonic::Bne, AddressingMode::NoneAddressing, 2),
        0xd1 => some_op(Mnemonic::Cmp, AddressingMode::IndirectY, 2),
        0xd5 => some_op(Mnemonic::Cmp, AddressingMode::ZeroPageX, 2),
        0xd6 => some_op(Mnemonic::Dec, AddressingMode::ZeroPageX, 2),
        0xd8 => some_op(Mnemonic::Cld, AddressingMode::NoneAddressing, 1),
        0xd9 => some_op(Mnemonic::Cmp, AddressingMode::AbsoluteY, 3),
        0xdd => some_op(Mnemonic::Cmp, AddressingMode::AbsoluteX, 3),
        0xde => some_op(Mnemonic::Dec, AddressingMode::AbsoluteX, 3),
        0xe0 => some_op(Mnemonic::Cpx, AddressingMode::Immediate, 2),
        0xe1 => some_op(Mnemonic::Sbc, AddressingMode::IndirectX, 2),
        0xe4 => some_op(Mnemonic::Cpx, AddressingMode::ZeroPage, 2),
        0xe5 => some_op(Mnemonic::Sbc, AddressingMode::ZeroPage, 2),
        0xe6 => some_op(Mnemonic::Inc, AddressingMode::ZeroPage, 2),
        0xe8 => some_op(Mnemonic::Inx, AddressingMode::NoneAddressing, 1),
        0xe9 => some_op(Mnemonic::Sbc, AddressingMode::Immediate, 2),
        0xea => some_op(Mnemonic::Nop, AddressingMode::NoneAddressing, 1),
        0xec => some_op(Mnemonic::Cpx, AddressingMode::Absolute, 3),
        0xed => some_op(Mnemonic::Sbc, AddressingMode::Absolute, 3),
        0xee => some_op(Mnemonic::Inc, AddressingMode::Absolute, 3),
        0xf0 => some_op(Mnemonic::Beq, AddressingMode::NoneAddressing, 2),
        0xf1 => some_op(Mnemonic::Sbc, AddressingMode::IndirectY, 2),
        0xf5 => some_op(Mnemonic::Sbc, AddressingMode::ZeroPageX, 2),
        0xf6 => some_op(Mnemonic::Inc, AddressingMode::ZeroPageX, 2),
        0xf8 => some_op(Mnemonic::Sed, AddressingMode::NoneAddressing, 1),
        0xf9 => some_op(Mnemonic::Sbc, AddressingMode::AbsoluteY, 3),
        0xfd => some_op(Mnemonic::Sbc, AddressingMode::AbsoluteX, 3),
        0xfe => some_op(Mnemonic::Inc, AddressingMode::AbsoluteX, 3),
        _ => None,
    }
}

fn mk(mnemonic: Mnemonic, mode: AddressingMode, len: u8) -> (r: Option<OpCode>)
    ensures
        r == some_op(mnemonic, mode, len),
{
    Some(OpCode { mnemonic, mode, len })
}

/// The executable dispatch table; agrees with `spec_opcode` on every byte.
/// Every entry is 1 to 3 bytes long, and every mnemonic that resolves an
/// operand address comes with an address-taking mode.
pub fn opcode_entry(code: u8) -> (r: Option<OpCode>)
    ensures
        r == spec_opcode(code),
        r matches Some(op) ==> 1 <= op.len <= 3,
        r matches Some(op) ==> (takes_operand(op.mnemonic) ==> op.mode
            != AddressingMode::NoneAddressing),
{
    match code {
        0x00 => mk(Mnemonic::Brk, AddressingMode::NoneAddressing, 1),
        0x01 => mk(Mnemonic::Ora, AddressingMode::IndirectX, 2),
        0x05 => mk(Mnemonic::Ora, AddressingMode::ZeroPage, 2),
        0x06 => mk(Mnemonic::Asl, AddressingMode::ZeroPage, 2),
        0x08 => mk(Mnemonic::Php, AddressingMode::NoneAddressing, 1),
        0x09 => mk(Mnemonic::Ora, AddressingMode::Immediate, 2),
        0x0a => mk(Mnemonic::AslAcc, AddressingMode::NoneAddressing, 1),
        0x0d => mk(Mnemonic::Ora, AddressingMode::Absolute, 3),
        0x0e => mk(Mnemonic::Asl, AddressingMode::Absolute, 3),
        0x10 => mk(Mnemonic::Bpl, AddressingMode::NoneAddressing, 2),
        0x11 => mk(Mnemonic::Ora, AddressingMode::IndirectY, 2),
        0x15 => mk(Mnemonic::Ora, AddressingMode::ZeroPageX, 2),
        0x16 => mk(Mnemonic::Asl, AddressingMode::ZeroPageX, 2),
        0x18 => mk(Mnemonic::Clc, AddressingMode::NoneAddressing, 1),
        0x19 => mk(Mnemonic::Ora, AddressingMode::AbsoluteY, 3),
        0x1d => mk(Mnemonic::Ora, AddressingMode::AbsoluteX, 3),
        0x1e => mk(Mnemonic::Asl, AddressingMode::AbsoluteX, 3),
        0x20 => mk(Mnemonic::Jsr, AddressingMode::NoneAddressing, 3),
        0x21 => mk(Mnemonic::And, AddressingMode::IndirectX, 2),
        0x24 => mk(Mnemonic::Bit, AddressingMode::ZeroPage, 2),
        0x25 => mk(Mnemonic::And, AddressingMode::ZeroPage, 2),
        0x26 => mk(Mnemonic::Rol, AddressingMode::ZeroPage, 2),
        0x28 => mk(Mnemonic::Plp, AddressingMode::NoneAddressing, 1),
        0x29 => mk(Mnemonic::And, AddressingMode::Immediate, 2),
        0x2a => mk(Mnemonic::RolAcc, AddressingMode::NoneAddressing, 1),
        0x2c => mk(Mnemonic::Bit, AddressingMode::Absolute, 3),
        0x2d => mk(Mnemonic::And, AddressingMode::Absolute, 3),
        0x2e => mk(Mnemonic::Rol, AddressingMode::Absolute, 3),
        0x30 => mk(Mnemonic::Bmi, AddressingMode::NoneAddressing, 2),
        0x31 => mk(Mnemonic::And, AddressingMode::IndirectY, 2),
        0x35 => mk(Mnemonic::And, AddressingMode::ZeroPageX, 2),
        0x36 => mk(Mnemonic::Rol, AddressingMode::ZeroPageX, 2),
        0x38 => mk(Mnemonic::Sec, AddressingMode::NoneAddressing, 1),
        0x39 => mk(Mnemonic::And, AddressingMode::AbsoluteY, 3),
        0x3d => mk(Mnemonic::And, AddressingMode::AbsoluteX, 3),
        0x3e => mk(Mnemonic::Rol, AddressingMode::AbsoluteX, 3),
        0x40 => mk(Mnemonic::Rti, AddressingMode::NoneAddressing, 1),
        0x41 => mk(Mnemonic::Eor, AddressingMode::IndirectX, 2),
        0x45 => mk(Mnemonic::Eor, AddressingMode::ZeroPage, 2),
        0x46 => mk(Mnemonic::Lsr, AddressingMode::ZeroPage, 2),
        0x48 => mk(Mnemonic::Pha, AddressingMode::NoneAddressing, 1),
        0x49 => mk(Mnemonic::Eor, AddressingMode::Immediate, 2),
        0x4a => mk(Mnemonic::LsrAcc, AddressingMode::NoneAddressing, 1),
        0x4c => mk(Mnemonic::JmpAbs, AddressingMode::NoneAddressing, 3),
        0x4d => mk(Mnemonic::Eor, AddressingMode::Absolute, 3),
        0x4e => mk(Mnemonic::Lsr, AddressingMode::Absolute, 3),
        0x50 => mk(Mnemonic::Bvc, AddressingMode::NoneAddressing, 2),
        0x51 => mk(Mnemonic::Eor, AddressingMode::IndirectY, 2),
        0x55 => mk(Mnemonic::Eor, AddressingMode::ZeroPageX, 2),
        0x56 => mk(Mnemonic::Lsr, AddressingMode::ZeroPageX, 2),
        0x58 => mk(Mnemonic::Cli, AddressingMode::NoneAddressing, 1),
        0x59 => mk(Mnemonic::Eor, AddressingMode::AbsoluteY, 3),
        0x5d => mk(Mnemonic::Eor, AddressingMode::AbsoluteX, 3),
        0x5e => mk(Mnemonic::Lsr, AddressingMode::AbsoluteX, 3),
        0x60 => mk(Mnemonic::Rts, AddressingMode::NoneAddressing, 1),
        0x61 => mk(Mnemonic::Adc, AddressingMode::IndirectX, 2),
        0x65 => mk(Mnemonic::Adc, AddressingMode::ZeroPage, 2),
        0x66 => mk(Mnemonic::Ror, AddressingMode::ZeroPage, 2),
        0x68 => mk(Mnemonic::Pla, AddressingMode::NoneAddressing, 1),
        0x69 => mk(Mnemonic::Adc, AddressingMode::Immediate, 2),
        0x6a => mk(Mnemonic::RorAcc, AddressingMode::NoneAddressing, 1),
        0x6c => mk(Mnemonic::JmpInd, AddressingMode::NoneAddressing, 3),
        0x6d => mk(Mnemonic::Adc, AddressingMode::Absolute, 3),
        0x6e => mk(Mnemonic::Ror, AddressingMode::Absolute, 3),
        0x70 => mk(Mnemonic::Bvs, AddressingMode::NoneAddressing, 2),
        0x71 => mk(Mnemonic::Adc, AddressingMode::IndirectY, 2),
        0x75 => mk(Mnemonic::Adc, AddressingMode::ZeroPageX, 2),
        0x76 => mk(Mnemonic::Ror, AddressingMode::ZeroPageX, 2),
        0x78 => mk(Mnemonic::Sei, AddressingMode::NoneAddressing, 1),
        0x79 => mk(Mnemonic::Adc, AddressingMode::AbsoluteY, 3),
        0x7d => mk(Mnemonic::Adc, AddressingMode::AbsoluteX, 3),
        0x7e => mk(Mnemonic::Ror, AddressingMode::AbsoluteX, 3),
        0x81 => mk(Mnemonic::Sta, AddressingMode::IndirectX, 2),
        0x84 => mk(Mnemonic::Sty, AddressingMode::ZeroPage, 2),
        0x85 => mk(Mnemonic::Sta, AddressingMode::ZeroPage, 2),
        0x86 => mk(Mnemonic::Stx, AddressingMode::ZeroPage, 2),
        0x88 => mk(Mnemonic::Dey, AddressingMode::NoneAddressing, 1),
        0x8a => mk(Mnemonic::Txa, AddressingMode::NoneAddressing, 1),
        0x8c => mk(Mnemonic::Sty, AddressingMode::Absolute, 3),
        0x8d => mk(Mnemonic::Sta, AddressingMode::Absolute, 3),
        0x8e => mk(Mnemonic::Stx, AddressingMode::Absolute, 3),
        0x90 => mk(Mnemonic::Bcc, AddressingMode::NoneAddressing, 2),
        0x91 => mk(Mnemonic::Sta, AddressingMode::IndirectY, 2),
        0x94 => mk(Mnemonic::Sty, AddressingMode::ZeroPageX, 2),
        0x95 => mk(Mnemonic::Sta, AddressingMode::ZeroPageX, 2),
        0x96 => mk(Mnemonic::Stx, AddressingMode::ZeroPageY, 2),
        0x98 => mk(Mnemonic::Tya, AddressingMode::NoneAddressing, 1),
        0x99 => mk(Mnemonic::Sta, AddressingMode::AbsoluteY, 3),
        0x9a => mk(Mnemonic::Txs, AddressingMode::NoneAddressing, 1),
        0x9d => mk(Mnemonic::Sta, AddressingMode::AbsoluteX, 3),
        0xa0 => mk(Mnemonic::Ldy, AddressingMode::Immediate, 2),
        0xa1 => mk(Mnemonic::Lda, AddressingMode::IndirectX, 2),
        0xa2 => mk(Mnemonic::Ldx, AddressingMode::Immediate, 2),
        0xa4 => mk(Mnemonic::Ldy, AddressingMode::ZeroPage, 2),
        0xa5 => mk(Mnemonic::Lda, AddressingMode::ZeroPage, 2),
        0xa6 => mk(Mnemonic::Ldx, AddressingMode::ZeroPage, 2),
        0xa8 => mk(Mnemonic::Tay, AddressingMode::NoneAddressing, 1),
        0xa9 => mk(Mnemonic::Lda, AddressingMode::Immediate, 2),
        0xaa => mk(Mnemonic::Tax, AddressingMode::NoneAddressing, 1),
        0xac => mk(Mnemonic::Ldy, AddressingMode::Absolute, 3),
        0xad => mk(Mnemonic::Lda, AddressingMode::Absolute, 3),
        0xae => mk(Mnemonic::Ldx, AddressingMode::Absolute, 3),
        0xb0 => mk(Mnemonic::Bcs, AddressingMode::NoneAddressing, 2),
        0xb1 => mk(Mnemonic::Lda, AddressingMode::IndirectY, 2),
        0xb4 => mk(Mnemonic::Ldy, AddressingMode::ZeroPageX, 2),
        0xb5 => mk(Mnemonic::Lda, AddressingMode::ZeroPageX, 2),
        0xb6 => mk(Mnemonic::Ldx, AddressingMode::ZeroPageY, 2),
        0xb8 => mk(Mnemonic::Clv, AddressingMode::NoneAddressing, 1),
        0xb9 => mk(Mnemonic::Lda, AddressingMode::AbsoluteY, 3),
        0xba => mk(Mnemonic::Tsx, AddressingMode::NoneAddressing, 1),
        0xbc => mk(Mnemonic::Ldy, AddressingMode::AbsoluteX, 3),
        0xbd => mk(Mnemonic::Lda, AddressingMode::AbsoluteX, 3),
        0xbe => mk(Mnemonic::Ldx, AddressingMode::AbsoluteY, 3),
        0xc0 => mk(Mnemonic::Cpy, AddressingMode::Immediate, 2),
        0xc1 => mk(Mnemonic::Cmp, AddressingMode::IndirectX, 2),
        0xc4 => mk(Mnemonic::Cpy, AddressingMode::ZeroPage, 2),
        0xc5 => mk(Mnemonic::Cmp, AddressingMode::ZeroPage, 2),
        0xc6 => mk(Mnemonic::Dec, AddressingMode::ZeroPage, 2),
        0xc8 => mk(Mnemonic::Iny, AddressingMode::NoneAddressing, 1),
        0xc9 => mk(Mnemonic::Cmp, AddressingMode::Immediate, 2),
        0xca => mk(Mnemonic::Dex, AddressingMode::NoneAddressing, 1),
        0xcc => mk(Mnemonic::Cpy, AddressingMode::Absolute, 3),
        0xcd => mk(Mnemonic::Cmp, AddressingMode::Absolute, 3),
        0xce => mk(Mnemonic::Dec, AddressingMode::Absolute, 3),
        0xd0 => mk(Mnemonic::Bne, AddressingMode::NoneAddressing, 2),
        0xd1 => mk(Mnemonic::Cmp, AddressingMode::IndirectY, 2),
        0xd5 => mk(Mnemonic::Cmp, AddressingMode::ZeroPageX, 2),
        0xd6 => mk(Mnemonic::Dec, AddressingMode::ZeroPageX, 2),
        0xd8 => mk(Mnemonic::Cld, AddressingMode::NoneAddressing, 1),
        0xd9 => mk(Mnemonic::Cmp, AddressingMode::AbsoluteY, 3),
        0xdd => mk(Mnemonic::Cmp, AddressingMode::AbsoluteX, 3),
        0xde => mk(Mnemonic::Dec, AddressingMode::AbsoluteX, 3),
        0xe0 => mk(Mnemonic::Cpx, AddressingMode::Immediate, 2),
        0xe1 => mk(Mnemonic::Sbc, AddressingMode::IndirectX, 2),
        0xe4 => mk(Mnemonic::Cpx, AddressingMode::ZeroPage, 2),
        0xe5 => mk(Mnemonic::Sbc, AddressingMode::ZeroPage, 2),
        0xe6 => mk(Mnemonic::Inc, AddressingMode::ZeroPage, 2),
        0xe8 => mk(Mnemonic::Inx, AddressingMode::NoneAddressing, 1),
        0xe9 => mk(Mnemonic::Sbc, AddressingMode::Immediate, 2),
        0xea => mk(Mnemonic::Nop, AddressingMode::NoneAddressing, 1),
        0xec => mk(Mnemonic::Cpx, AddressingMode::Absolute, 3),
        0xed => mk(Mnemonic::Sbc, AddressingMode::Absolute, 3),
        0xee => mk(Mnemonic::Inc, AddressingMode::Absolute, 3),
        0xf0 => mk(Mnemonic::Beq, AddressingMode::NoneAddressing, 2),
        0xf1 => mk(Mnemonic::Sbc, AddressingMode::IndirectY, 2),
        0xf5 => mk(Mnemonic::Sbc, AddressingMode::ZeroPageX, 2),
        0xf6 => mk(Mnemonic::Inc, AddressingMode::ZeroPageX, 2),
        0xf8 => mk(Mnemonic::Sed, AddressingMode::NoneAddressing, 1),
        0xf9 => mk(Mnemonic::Sbc, AddressingMode::AbsoluteY, 3),
        0xfd => mk(Mnemonic::Sbc, AddressingMode::AbsoluteX, 3),
        0xfe => mk(Mnemonic::Inc, AddressingMode::AbsoluteX, 3),
        _ => None,
    }
}

} // verus!
