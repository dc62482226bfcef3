//! The instruction set: which instruction each opcode is.
use vstd::prelude::*;

verus! {

/// How an instruction finds its operand.
#[derive(Clone, Copy, Debug, PartialEq, Eq, Structural)]
pub enum Mode {
    Immediate,
    ZeroPage,
    ZeroPageX,
    ZeroPageY,
    Absolute,
    AbsoluteX,
    AbsoluteY,
    IndirectX,
    IndirectY,
}

/// The instructions that read their operand.
#[derive(Clone, Copy, Debug, PartialEq, Eq, Structural)]
pub enum ReadOp {
    Ora,
    And,
    Eor,
    Adc,
    Sbc,
    Compare,
    Cpx,
    Cpy,
    Bit,
    Lda,
    Ldx,
    Ldy,
    Lax,
    Nop,
}

/// The instructions that write one byte.
#[derive(Clone, Copy, Debug, PartialEq, Eq, Structural)]
pub enum WriteOp {
    Sta,
    Stx,
    Sty,
    Sax,
}

/// The instructions that read a byte, change it and write it back.
#[derive(Clone, Copy, Debug, PartialEq, Eq, Structural)]
pub enum ModifyOp {
    Asl,
    Lsr,
    Rol,
    Ror,
    Inc,
    Dec,
    Slo,
    Rla,
    Sre,
    Rra,
    Dcp,
    Isc,
}

/// The instructions that work on the registers alone.
#[derive(Clone, Copy, Debug, PartialEq, Eq, Structural)]
pub enum ImpliedOp {
    Clc,
    Sec,
    Cli,
    Sei,
    Clv,
    Cld,
    Sed,
    Inx,
    Iny,
    Dex,
    Dey,
    Tax,
    Tay,
    Txa,
    Tya,
    Tsx,
    Txs,
    Nop,
}

/// The conditional branches.
#[derive(Clone, Copy, Debug, PartialEq, Eq, Structural)]
pub enum BranchOp {
    Bpl,
    Bmi,
    Bvc,
    Bvs,
    Bcc,
    Bcs,
    Bne,
    Beq,
}

/// An instruction: what it does, and for those with an operand in memory,
/// how it finds it.
#[derive(Clone, Copy, Debug, PartialEq, Eq, Structural)]
pub enum Instruction {
    Read(ReadOp, Mode),
    Write(WriteOp, Mode),
    Modify(ModifyOp, Mode),
    /// A shift or rotation of the accumulator.
    Accumulator(ModifyOp),
    Implied(ImpliedOp),
    Branch(BranchOp),
    Brk,
    Jmp,
    JmpIndirect,
    Jsr,
    Rts,
    Rti,
    Pha,
    Php,
    Pla,
    Plp,
    /// An opcode that the processor does not implement.
    Illegal,
}

/// The instruction that an opcode stands for: the 151 documented opcodes, and
/// of the undocumented ones SLO, RLA, SRE, RRA, SAX, LAX, DCP and ISC, the
/// NOPs with and without operand, and the second SBC.
pub open spec fn instruction_of(opcode: u8) -> Instruction {
    match opcode {
        0x00 => Instruction::Brk,
        0x01 => Instruction::Read(ReadOp::Ora, Mode::IndirectX),
        0x03 => Instruction::Modify(ModifyOp::Slo, Mode::IndirectX),
        0x04 => Instruction::Read(ReadOp::Nop, Mode::ZeroPage),
        0x05 => Instruction::Read(ReadOp::Ora, Mode::ZeroPage),
        0x06 => Instruction::Modify(ModifyOp::Asl, Mode::ZeroPage),
        0x07 => Instruction::Modify(ModifyOp::Slo, Mode::ZeroPage),
        0x08 => Instruction::Php,
        0x09 => Instruction::Read(ReadOp::Ora, Mode::Immediate),
        0x0a => Instruction::Accumulator(ModifyOp::Asl),
        0x0c => Instruction::Read(ReadOp::Nop, Mode::Absolute),
        0x0d => Instruction::Read(ReadOp::Ora, Mode::Absolute),
        0x0e => Instruction::Modify(ModifyOp::Asl, Mode::Absolute),
        0x0f => Instruction::Modify(ModifyOp::Slo, Mode::Absolute),
        0x10 => Instruction::Branch(BranchOp::Bpl),
        0x11 => Instruction::Read(ReadOp::Ora, Mode::IndirectY),
        0x13 => Instruction::Modify(ModifyOp::Slo, Mode::IndirectY),
        0x14 => Instruction::Read(ReadOp::Nop, Mode::ZeroPageX),
        0x15 => Instruction::Read(ReadOp::Ora, Mode::ZeroPageX),
        0x16 => Instruction::Modify(ModifyOp::Asl, Mode::ZeroPageX),
        0x17 => Instruction::Modify(ModifyOp::Slo, Mode::ZeroPageX),
        0x18 => Instruction::Implied(ImpliedOp::Clc),
        0x19 => Instruction::Read(ReadOp::Ora, Mode::AbsoluteY),
        0x1a => Instruction::Implied(ImpliedOp::Nop),
        0x1b => Instruction::Modify(ModifyOp::Slo, Mode::AbsoluteY),
        0x1c => Instruction::Read(ReadOp::Nop, Mode::AbsoluteX),
        0x1d => Instruction::Read(ReadOp::Ora, Mode::AbsoluteX),
        0x1e => Instruction::Modify(ModifyOp::Asl, Mode::AbsoluteX),
        0x1f => Instruction::Modify(ModifyOp::Slo, Mode::AbsoluteX),
        0x20 => Instruction::Jsr,
        0x21 => Instruction::Read(ReadOp::And, Mode::IndirectX),
        0x23 => Instruction::Modify(ModifyOp::Rla, Mode::IndirectX),
        0x24 => Instruction::Read(ReadOp::Bit, Mode::ZeroPage),
        0x25 => Instruction::Read(ReadOp::And, Mode::ZeroPage),
        0x26 => Instruction::Modify(ModifyOp::Rol, Mode::ZeroPage),
        0x27 => Instruction::Modify(ModifyOp::Rla, Mode::ZeroPage),
        0x28 => Instruction::Plp,
        0x29 => Instruction::Read(ReadOp::And, Mode::Immediate),
        0x2a => Instruction::Accumulator(ModifyOp::Rol),
        0x2c => Instruction::Read(ReadOp::Bit, Mode::Absolute),
        0x2d => Instruction::Read(ReadOp::And, Mode::Absolute),
        0x2e => Instruction::Modify(ModifyOp::Rol, Mode::Absolute),
        0x2f => Instruction::Modify(ModifyOp::Rla, Mode::Absolute),
        0x30 => Instruction::Branch(BranchOp::Bmi),
        0x31 => Instruction::Read(ReadOp::And, Mode::IndirectY),
        0x33 => Instruction::Modify(ModifyOp::Rla, Mode::IndirectY),
        0x34 => Instruction::Read(ReadOp::Nop, Mode::ZeroPageX),
        0x35 => Instruction::Read(ReadOp::And, Mode::ZeroPageX),
        0x36 => Instruction::Modify(ModifyOp::Rol, Mode::ZeroPageX),
        0x37 => Instruction::Modify(ModifyOp::Rla, Mode::ZeroPageX),
        0x38 => Instruction::Implied(ImpliedOp::Sec),
        0x39 => Instruction::Read(ReadOp::And, Mode::AbsoluteY),
        0x3a => Instruction::Implied(ImpliedOp::Nop),
        0x3b => Instruction::Modify(ModifyOp::Rla, Mode::AbsoluteY),
        0x3c => Instruction::Read(ReadOp::Nop, Mode::AbsoluteX),
        0x3d => Instruction::Read(ReadOp::And, Mode::AbsoluteX),
        0x3e => Instruction::Modify(ModifyOp::Rol, Mode::AbsoluteX),
        0x3f => Instruction::Modify(ModifyOp::Rla, Mode::AbsoluteX),
        0x40 => Instruction::Rti,
        0x41 => Instruction::Read(ReadOp::Eor, Mode::IndirectX),
        0x43 => Instruction::Modify(ModifyOp::Sre, Mode::IndirectX),
        0x44 => Instruction::Read(ReadOp::Nop, Mode::ZeroPage),
        0x45 => Instruction::Read(ReadOp::Eor, Mode::ZeroPage),
        0x46 => Instruction::Modify(ModifyOp::Lsr, Mode::ZeroPage),
        0x47 => Instruction::Modify(ModifyOp::Sre, Mode::ZeroPage),
        0x48 => Instruction::Pha,
        0x49 => Instruction::Read(ReadOp::Eor, Mode::Immediate),
        0x4a => Instruction::Accumulator(ModifyOp::Lsr),
        0x4c => Instruction::Jmp,
        0x4d => Instruction::Read(ReadOp::Eor, Mode::Absolute),
        0x4e => Instruction::Modify(ModifyOp::Lsr, Mode::Absolute),
        0x4f => Instruction::Modify(ModifyOp::Sre, Mode::Absolute),
        0x50 => Instruction::Branch(BranchOp::Bvc),
        0x51 => Instruction::Read(ReadOp::Eor, Mode::IndirectY),
        0x53 => Instruction::Modify(ModifyOp::Sre, Mode::IndirectY),
        0x54 => Instruction::Read(ReadOp::Nop, Mode::ZeroPageX),
        0x55 => Instruction::Read(ReadOp::Eor, Mode::ZeroPageX),
        0x56 => Instruction::Modify(ModifyOp::Lsr, Mode::ZeroPageX),
        0x57 => Instruction::Modify(ModifyOp::Sre, Mode::ZeroPageX),
        0x58 => Instruction::Implied(ImpliedOp::Cli),
        0x59 => Instruction::Read(ReadOp::Eor, Mode::AbsoluteY),
        0x5a => Instruction::Implied(ImpliedOp::Nop),
        0x5b => Instruction::Modify(ModifyOp::Sre, Mode::AbsoluteY),
        0x5c => Instruction::Read(ReadOp::Nop, Mode::AbsoluteX),
        0x5d => Instruction::Read(ReadOp::Eor, Mode::AbsoluteX),
        0x5e => Instruction::Modify(ModifyOp::Lsr, Mode::AbsoluteX),
        0x5f => Instruction::Modify(ModifyOp::Sre, Mode::AbsoluteX),
        0x60 => Instruction::Rts,
        0x61 => Instruction::Read(ReadOp::Adc, Mode::IndirectX),
        0x63 => Instruction::Modify(ModifyOp::Rra, Mode::IndirectX),
        0x64 => Instruction::Read(ReadOp::Nop, Mode::ZeroPage),
        0x65 => Instruction::Read(ReadOp::Adc, Mode::ZeroPage),
        0x66 => Instruction::Modify(ModifyOp::Ror, Mode::ZeroPage),
        0x67 => Instruction::Modify(ModifyOp::Rra, Mode::ZeroPage),
        0x68 => Instruction::Pla,
        0x69 => Instruction::Read(ReadOp::Adc, Mode::Immediate),
        0x6a => Instruction::Accumulator(ModifyOp::Ror),
        0x6c => Instruction::JmpIndirect,
        0x6d => Instruction::Read(ReadOp::Adc, Mode::Absolute),
        0x6e => Instruction::Modify(ModifyOp::Ror, Mode::Absolute),
        0x6f => Instruction::Modify(ModifyOp::Rra, Mode::Absolute),
        0x70 => Instruction::Branch(BranchOp::Bvs),
        0x71 => Instruction::Read(ReadOp::Adc, Mode::IndirectY),
        0x73 => Instruction::Modify(ModifyOp::Rra, Mode::IndirectY),
        0x74 => Instruction::Read(ReadOp::Nop, Mode::ZeroPageX),
        0x75 => Instruction::Read(ReadOp::Adc, Mode::ZeroPageX),
        0x76 => Instruction::Modify(ModifyOp::Ror, Mode::ZeroPageX),
        0x77 => Instruction::Modify(ModifyOp::Rra, Mode::ZeroPageX),
        0x78 => Instruction::Implied(ImpliedOp::Sei),
        0x79 => Instruction::Read(ReadOp::Adc, Mode::AbsoluteY),
        0x7a => Instruction::Implied(ImpliedOp::Nop),
        0x7b => Instruction::Modify(ModifyOp::Rra, Mode::AbsoluteY),
        0x7c => Instruction::Read(ReadOp::Nop, Mode::AbsoluteX),
        0x7d => Instruction::Read(ReadOp::Adc, Mode::AbsoluteX),
        0x7e => Instruction::Modify(ModifyOp::Ror, Mode::AbsoluteX),
        0x7f => Instruction::Modify(ModifyOp::Rra, Mode::AbsoluteX),
        0x80 => Instruction::Read(ReadOp::Nop, Mode::Immediate),
        0x81 => Instruction::Write(WriteOp::Sta, Mode::IndirectX),
        0x82 => Instruction::Read(ReadOp::Nop, Mode::Immediate),
        0x83 => Instruction::Write(WriteOp::Sax, Mode::IndirectX),
        0x84 => Instruction::Write(WriteOp::Sty, Mode::ZeroPage),
        0x85 => Instruction::Write(WriteOp::Sta, Mode::ZeroPage),
        0x86 => Instruction::Write(WriteOp::Stx, Mode::ZeroPage),
        0x87 => Instruction::Write(WriteOp::Sax, Mode::ZeroPage),
        0x88 => Instruction::Implied(ImpliedOp::Dey),
        0x89 => Instruction::Read(ReadOp::Nop, Mode::Immediate),
        0x8a => Instruction::Implied(ImpliedOp::Txa),
        0x8c => Instruction::Write(WriteOp::Sty, Mode::Absolute),
        0x8d => Instruction::Write(WriteOp::Sta, Mode::Absolute),
        0x8e => Instruction::Write(WriteOp::Stx, Mode::Absolute),
        0x8f => Instruction::Write(WriteOp::Sax, Mode::Absolute),
        0x90 => Instruction::Branch(BranchOp::Bcc),
        0x91 => Instruction::Write(WriteOp::Sta, Mode::IndirectY),
        0x94 => Instruction::Write(WriteOp::Sty, Mode::ZeroPageX),
        0x95 => Instruction::Write(WriteOp::Sta, Mode::ZeroPageX),
        0x96 => Instruction::Write(WriteOp::Stx, Mode::ZeroPageY),
        0x97 => Instruction::Write(WriteOp::Sax, Mode::ZeroPageY),
        0x98 => Instruction::Implied(ImpliedOp::Tya),
        0x99 => Instruction::Write(WriteOp::Sta, Mode::AbsoluteY),
        0x9a => Instruction::Implied(ImpliedOp::Txs),
        0x9d => Instruction::Write(WriteOp::Sta, Mode::AbsoluteX),
        0xa0 => Instruction::Read(ReadOp::Ldy, Mode::Immediate),
        0xa1 => Instruction::Read(ReadOp::Lda, Mode::IndirectX),
        0xa2 => Instruction::Read(ReadOp::Ldx, Mode::Immediate),
        0xa3 => Instruction::Read(ReadOp::Lax, Mode::IndirectX),
        0xa4 => Instruction::Read(ReadOp::Ldy, Mode::ZeroPage),
        0xa5 => Instruction::Read(ReadOp::Lda, Mode::ZeroPage),
        0xa6 => Instruction::Read(ReadOp::Ldx, Mode::ZeroPage),
        0xa7 => Instruction::Read(ReadOp::Lax, Mode::ZeroPage),
        0xa8 => Instruction::Implied(ImpliedOp::Tay),
        0xa9 => Instruction::Read(ReadOp::Lda, Mode::Immediate),
        0xaa => Instruction::Implied(ImpliedOp::Tax),
        0xac => Instruction::Read(ReadOp::Ldy, Mode::Absolute),
        0xad => Instruction::Read(ReadOp::Lda, Mode::Absolute),
        0xae => Instruction::Read(ReadOp::Ldx, Mode::Absolute),
        0xaf => Instruction::Read(ReadOp::Lax, Mode::Absolute),
        0xb0 => Instruction::Branch(BranchOp::Bcs),
        0xb1 => Instruction::Read(ReadOp::Lda, Mode::IndirectY),
        0xb3 => Instruction::Read(ReadOp::Lax, Mode::IndirectY),
        0xb4 => Instruction::Read(ReadOp::Ldy, Mode::ZeroPageX),
        0xb5 => Instruction::Read(ReadOp::Lda, Mode::ZeroPageX),
        0xb6 => Instruction::Read(ReadOp::Ldx, Mode::ZeroPageY),
        0xb7 => Instruction::Read(ReadOp::Lax, Mode::ZeroPageY),
        0xb8 => Instruction::Implied(ImpliedOp::Clv),
        0xb9 => Instruction::Read(ReadOp::Lda, Mode::AbsoluteY),
        0xba => Instruction::Implied(ImpliedOp::Tsx),
        0xbc => Instruction::Read(ReadOp::Ldy, Mode::AbsoluteX),
        0xbd => Instruction::Read(ReadOp::Lda, Mode::AbsoluteX),
        0xbe => Instruction::Read(ReadOp::Ldx, Mode::AbsoluteY),
        0xbf => Instruction::Read(ReadOp::Lax, Mode::AbsoluteY),
        0xc0 => Instruction::Read(ReadOp::Cpy, Mode::Immediate),
        0xc1 => Instruction::Read(ReadOp::Compare, Mode::IndirectX),
        0xc2 => Instruction::Read(ReadOp::Nop, Mode::Immediate),
        0xc3 => Instruction::Modify(ModifyOp::Dcp, Mode::IndirectX),
        0xc4 => Instruction::Read(ReadOp::Cpy, Mode::ZeroPage),
        0xc5 => Instruction::Read(ReadOp::Compare, Mode::ZeroPage),
        0xc6 => Instruction::Modify(ModifyOp::Dec, Mode::ZeroPage),
        0xc7 => Instruction::Modify(ModifyOp::Dcp, Mode::ZeroPage),
        0xc8 => Instruction::Implied(ImpliedOp::Iny),
        0xc9 => Instruction::Read(ReadOp::Compare, Mode::Immediate),
        0xca => Instruction::Implied(ImpliedOp::Dex),
        0xcc => Instruction::Read(ReadOp::Cpy, Mode::Absolute),
        0xcd => Instruction::Read(ReadOp::Compare, Mode::Absolute),
        0xce => Instruction::Modify(ModifyOp::Dec, Mode::Absolute),
        0xcf => Instruction::Modify(ModifyOp::Dcp, Mode::Absolute),
        0xd0 => Instruction::Branch(BranchOp::Bne),
        0xd1 => Instruction::Read(ReadOp::Compare, Mode::IndirectY),
        0xd3 => Instruction::Modify(ModifyOp::Dcp, Mode::IndirectY),
        0xd4 => Instruction::Read(ReadOp::Nop, Mode::ZeroPageX),
        0xd5 => Instruction::Read(ReadOp::Compare, Mode::ZeroPageX),
        0xd6 => Instruction::Modify(ModifyOp::Dec, Mode::ZeroPageX),
        0xd7 => Instruction::Modify(ModifyOp::Dcp, Mode::ZeroPageX),
        0xd8 => Instruction::Implied(ImpliedOp::Cld),
        0xd9 => Instruction::Read(ReadOp::Compare, Mode::AbsoluteY),
        0xda => Instruction::Implied(ImpliedOp::Nop),
        0xdb => Instruction::Modify(ModifyOp::Dcp, Mode::AbsoluteY),
        0xdc => Instruction::Read(ReadOp::Nop, Mode::AbsoluteX),
        0xdd => Instruction::Read(ReadOp::Compare, Mode::AbsoluteX),
        0xde => Instruction::Modify(ModifyOp::Dec, Mode::AbsoluteX),
        0xdf => Instruction::Modify(ModifyOp::Dcp, Mode::AbsoluteX),
        0xe0 => Instruction::Read(ReadOp::Cpx, Mode::Immediate),
        0xe1 => Instruction::Read(ReadOp::Sbc, Mode::IndirectX),
        0xe2 => Instruction::Read(ReadOp::Nop, Mode::Immediate),
        0xe3 => Instruction::Modify(ModifyOp::Isc, Mode::IndirectX),
        0xe4 => Instruction::Read(ReadOp::Cpx, Mode::ZeroPage),
        0xe5 => Instruction::Read(ReadOp::Sbc, Mode::ZeroPage),
        0xe6 => Instruction::Modify(ModifyOp::Inc, Mode::ZeroPage),
        0xe7 => Instruction::Modify(ModifyOp::Isc, Mode::ZeroPage),
        0xe8 => Instruction::Implied(ImpliedOp::Inx),
        0xe9 => Instruction::Read(ReadOp::Sbc, Mode::Immediate),
        0xea => Instruction::Implied(ImpliedOp::Nop),
        0xeb => Instruction::Read(ReadOp::Sbc, Mode::Immediate),
        0xec => Instruction::Read(ReadOp::Cpx, Mode::Absolute),
        0xed => Instruction::Read(ReadOp::Sbc, Mode::Absolute),
        0xee => Instruction::Modify(ModifyOp::Inc, Mode::Absolute),
        0xef => Instruction::Modify(ModifyOp::Isc, Mode::Absolute),
        0xf0 => Instruction::Branch(BranchOp::Beq),
        0xf1 => Instruction::Read(ReadOp::Sbc, Mode::IndirectY),
        0xf3 => Instruction::Modify(ModifyOp::Isc, Mode::IndirectY),
        0xf4 => Instruction::Read(ReadOp::Nop, Mode::ZeroPageX),
        0xf5 => Instruction::Read(ReadOp::Sbc, Mode::ZeroPageX),
        0xf6 => Instruction::Modify(ModifyOp::Inc, Mode::ZeroPageX),
        0xf7 => Instruction::Modify(ModifyOp::Isc, Mode::ZeroPageX),
        0xf8 => Instruction::Implied(ImpliedOp::Sed),
        0xf9 => Instruction::Read(ReadOp::Sbc, Mode::AbsoluteY),
        0xfa => Instruction::Implied(ImpliedOp::Nop),
        0xfb => Instruction::Modify(ModifyOp::Isc, Mode::AbsoluteY),
        0xfc => Instruction::Read(ReadOp::Nop, Mode::AbsoluteX),
        0xfd => Instruction::Read(ReadOp::Sbc, Mode::AbsoluteX),
        0xfe => Instruction::Modify(ModifyOp::Inc, Mode::AbsoluteX),
        0xff => Instruction::Modify(ModifyOp::Isc, Mode::AbsoluteX),
        _ => Instruction::Illegal,
    }
}

/// Decodes an opcode.
pub fn decode(opcode: u8) -> (r: Instruction)
    ensures
        r == instruction_of(opcode),
{
    match opcode {
        0x00 => Instruction::Brk,
        0x01 => Instruction::Read(ReadOp::Ora, Mode::IndirectX),
        0x03 => Instruction::Modify(ModifyOp::Slo, Mode::IndirectX),
        0x04 => Instruction::Read(ReadOp::Nop, Mode::ZeroPage),
        0x05 => Instruction::Read(ReadOp::Ora, Mode::ZeroPage),
        0x06 => Instruction::Modify(ModifyOp::Asl, Mode::ZeroPage),
        0x07 => Instruction::Modify(ModifyOp::Slo, Mode::ZeroPage),
        0x08 => Instruction::Php,
        0x09 => Instruction::Read(ReadOp::Ora, Mode::Immediate),
        0x0a => Instruction::Accumulator(ModifyOp::Asl),
        0x0c => Instruction::Read(ReadOp::Nop, Mode::Absolute),
        0x0d => Instruction::Read(ReadOp::Ora, Mode::Absolute),
        0x0e => Instruction::Modify(ModifyOp::Asl, Mode::Absolute),
        0x0f => Instruction::Modify(ModifyOp::Slo, Mode::Absolute),
        0x10 => Instruction::Branch(BranchOp::Bpl),
        0x11 => Instruction::Read(ReadOp::Ora, Mode::IndirectY),
        0x13 => Instruction::Modify(ModifyOp::Slo, Mode::IndirectY),
        0x14 => Instruction::Read(ReadOp::Nop, Mode::ZeroPageX),
        0x15 => Instruction::Read(ReadOp::Ora, Mode::ZeroPageX),
        0x16 => Instruction::Modify(ModifyOp::Asl, Mode::ZeroPageX),
        0x17 => Instruction::Modify(ModifyOp::Slo, Mode::ZeroPageX),
        0x18 => Instruction::Implied(ImpliedOp::Clc),
        0x19 => Instruction::Read(ReadOp::Ora, Mode::AbsoluteY),
        0x1a => Instruction::Implied(ImpliedOp::Nop),
        0x1b => Instruction::Modify(ModifyOp::Slo, Mode::AbsoluteY),
        0x1c => Instruction::Read(ReadOp::Nop, Mode::AbsoluteX),
        0x1d => Instruction::Read(ReadOp::Ora, Mode::AbsoluteX),
        0x1e => Instruction::Modify(ModifyOp::Asl, Mode::AbsoluteX),
        0x1f => Instruction::Modify(ModifyOp::Slo, Mode::AbsoluteX),
        0x20 => Instruction::Jsr,
        0x21 => Instruction::Read(ReadOp::And, Mode::IndirectX),
        0x23 => Instruction::Modify(ModifyOp::Rla, Mode::IndirectX),
        0x24 => Instruction::Read(ReadOp::Bit, Mode::ZeroPage),
        0x25 => Instruction::Read(ReadOp::And, Mode::ZeroPage),
        0x26 => Instruction::Modify(ModifyOp::Rol, Mode::ZeroPage),
        0x27 => Instruction::Modify(ModifyOp::Rla, Mode::ZeroPage),
        0x28 => Instruction::Plp,
        0x29 => Instruction::Read(ReadOp::And, Mode::Immediate),
        0x2a => Instruction::Accumulator(ModifyOp::Rol),
        0x2c => Instruction::Read(ReadOp::Bit, Mode::Absolute),
        0x2d => Instruction::Read(ReadOp::And, Mode::Absolute),
        0x2e => Instruction::Modify(ModifyOp::Rol, Mode::Absolute),
        0x2f => Instruction::Modify(ModifyOp::Rla, Mode::Absolute),
        0x30 => Instruction::Branch(BranchOp::Bmi),
        0x31 => Instruction::Read(ReadOp::And, Mode::IndirectY),
        0x33 => Instruction::Modify(ModifyOp::Rla, Mode::IndirectY),
        0x34 => Instruction::Read(ReadOp::Nop, Mode::ZeroPageX),
        0x35 => Instruction::Read(ReadOp::And, Mode::ZeroPageX),
        0x36 => Instruction::Modify(ModifyOp::Rol, Mode::ZeroPageX),
        0x37 => Instruction::Modify(ModifyOp::Rla, Mode::ZeroPageX),
        0x38 => Instruction::Implied(ImpliedOp::Sec),
        0x39 => Instruction::Read(ReadOp::And, Mode::AbsoluteY),
        0x3a => Instruction::Implied(ImpliedOp::Nop),
        0x3b => Instruction::Modify(ModifyOp::Rla, Mode::AbsoluteY),
        0x3c => Instruction::Read(ReadOp::Nop, Mode::AbsoluteX),
        0x3d => Instruction::Read(ReadOp::And, Mode::AbsoluteX),
        0x3e => Instruction::Modify(ModifyOp::Rol, Mode::AbsoluteX),
        0x3f => Instruction::Modify(ModifyOp::Rla, Mode::AbsoluteX),
        0x40 => Instruction::Rti,
        0x41 => Instruction::Read(ReadOp::Eor, Mode::IndirectX),
        0x43 => Instruction::Modify(ModifyOp::Sre, Mode::IndirectX),
        0x44 => Instruction::Read(ReadOp::Nop, Mode::ZeroPage),
        0x45 => Instruction::Read(ReadOp::Eor, Mode::ZeroPage),
        0x46 => Instruction::Modify(ModifyOp::Lsr, Mode::ZeroPage),
        0x47 => Instruction::Modify(ModifyOp::Sre, Mode::ZeroPage),
        0x48 => Instruction::Pha,
        0x49 => Instruction::Read(ReadOp::Eor, Mode::Immediate),
        0x4a => Instruction::Accumulator(ModifyOp::Lsr),
        0x4c => Instruction::Jmp,
        0x4d => Instruction::Read(ReadOp::Eor, Mode::Absolute),
        0x4e => Instruction::Modify(ModifyOp::Lsr, Mode::Absolute),
        0x4f => Instruction::Modify(ModifyOp::Sre, Mode::Absolute),
        0x50 => Instruction::Branch(BranchOp::Bvc),
        0x51 => Instruction::Read(ReadOp::Eor, Mode::IndirectY),
        0x53 => Instruction::Modify(ModifyOp::Sre, Mode::IndirectY),
        0x54 => Instruction::Read(ReadOp::Nop, Mode::ZeroPageX),
        0x55 => Instruction::Read(ReadOp::Eor, Mode::ZeroPageX),
        0x56 => Instruction::Modify(ModifyOp::Lsr, Mode::ZeroPageX),
        0x57 => Instruction::Modify(ModifyOp::Sre, Mode::ZeroPageX),
        0x58 => Instruction::Implied(ImpliedOp::Cli),
        0x59 => Instruction::Read(ReadOp::Eor, Mode::AbsoluteY),
        0x5a => Instruction::Implied(ImpliedOp::Nop),
        0x5b => Instruction::Modify(ModifyOp::Sre, Mode::AbsoluteY),
        0x5c => Instruction::Read(ReadOp::Nop, Mode::AbsoluteX),
        0x5d => Instruction::Read(ReadOp::Eor, Mode::AbsoluteX),
        0x5e => Instruction::Modify(ModifyOp::Lsr, Mode::AbsoluteX),
        0x5f => Instruction::Modify(ModifyOp::Sre, Mode::AbsoluteX),
        0x60 => Instruction::Rts,
        0x61 => Instruction::Read(ReadOp::Adc, Mode::IndirectX),
        0x63 => Instruction::Modify(ModifyOp::Rra, Mode::IndirectX),
        0x64 => Instruction::Read(ReadOp::Nop, Mode::ZeroPage),
        0x65 => Instruction::Read(ReadOp::Adc, Mode::ZeroPage),
        0x66 => Instruction::Modify(ModifyOp::Ror, Mode::ZeroPage),
        0x67 => Instruction::Modify(ModifyOp::Rra, Mode::ZeroPage),
        0x68 => Instruction::Pla,
        0x69 => Instruction::Read(ReadOp::Adc, Mode::Immediate),
        0x6a => Instruction::Accumulator(ModifyOp::Ror),
        0x6c => Instruction::JmpIndirect,
        0x6d => Instruction::Read(ReadOp::Adc, Mode::Absolute),
        0x6e => Instruction::Modify(ModifyOp::Ror, Mode::Absolute),
        0x6f => Instruction::Modify(ModifyOp::Rra, Mode::Absolute),
        0x70 => Instruction::Branch(BranchOp::Bvs),
        0x71 => Instruction::Read(ReadOp::Adc, Mode::IndirectY),
        0x73 => Instruction::Modify(ModifyOp::Rra, Mode::IndirectY),
        0x74 => Instruction::Read(ReadOp::Nop, Mode::ZeroPageX),
        0x75 => Instruction::Read(ReadOp::Adc, Mode::ZeroPageX),
        0x76 => Instruction::Modify(ModifyOp::Ror, Mode::ZeroPageX),
        0x77 => Instruction::Modify(ModifyOp::Rra, Mode::ZeroPageX),
        0x78 => Instruction::Implied(ImpliedOp::Sei),
        0x79 => Instruction::Read(ReadOp::Adc, Mode::AbsoluteY),
        0x7a => Instruction::Implied(ImpliedOp::Nop),
        0x7b => Instruction::Modify(ModifyOp::Rra, Mode::AbsoluteY),
        0x7c => Instruction::Read(ReadOp::Nop, Mode::AbsoluteX),
        0x7d => Instruction::Read(ReadOp::Adc, Mode::AbsoluteX),
        0x7e => Instruction::Modify(ModifyOp::Ror, Mode::AbsoluteX),
        0x7f => Instruction::Modify(ModifyOp::Rra, Mode::AbsoluteX),
        0x80 => Instruction::Read(ReadOp::Nop, Mode::Immediate),
        0x81 => Instruction::Write(WriteOp::Sta, Mode::IndirectX),
        0x82 => Instruction::Read(ReadOp::Nop, Mode::Immediate),
        0x83 => Instruction::Write(WriteOp::Sax, Mode::IndirectX),
        0x84 => Instruction::Write(WriteOp::Sty, Mode::ZeroPage),
        0x85 => Instruction::Write(WriteOp::Sta, Mode::ZeroPage),
        0x86 => Instruction::Write(WriteOp::Stx, Mode::ZeroPage),
        0x87 => Instruction::Write(WriteOp::Sax, Mode::ZeroPage),
        0x88 => Instruction::Implied(ImpliedOp::Dey),
        0x89 => Instruction::Read(ReadOp::Nop, Mode::Immediate),
        0x8a => Instruction::Implied(ImpliedOp::Txa),
        0x8c => Instruction::Write(WriteOp::Sty, Mode::Absolute),
        0x8d => Instruction::Write(WriteOp::Sta, Mode::Absolute),
        0x8e => Instruction::Write(WriteOp::Stx, Mode::Absolute),
        0x8f => Instruction::Write(WriteOp::Sax, Mode::Absolute),
        0x90 => Instruction::Branch(BranchOp::Bcc),
        0x91 => Instruction::Write(WriteOp::Sta, Mode::IndirectY),
        0x94 => Instruction::Write(WriteOp::Sty, Mode::ZeroPageX),
        0x95 => Instruction::Write(WriteOp::Sta, Mode::ZeroPageX),
        0x96 => Instruction::Write(WriteOp::Stx, Mode::ZeroPageY),
        0x97 => Instruction::Write(WriteOp::Sax, Mode::ZeroPageY),
        0x98 => Instruction::Implied(ImpliedOp::Tya),
        0x99 => Instruction::Write(WriteOp::Sta, Mode::AbsoluteY),
        0x9a => Instruction::Implied(ImpliedOp::Txs),
        0x9d => Instruction::Write(WriteOp::Sta, Mode::AbsoluteX),
        0xa0 => Instruction::Read(ReadOp::Ldy, Mode::Immediate),
        0xa1 => Instruction::Read(ReadOp::Lda, Mode::IndirectX),
        0xa2 => Instruction::Read(ReadOp::Ldx, Mode::Immediate),
        0xa3 => Instruction::Read(ReadOp::Lax, Mode::IndirectX),
        0xa4 => Instruction::Read(ReadOp::Ldy, Mode::ZeroPage),
        0xa5 => Instruction::Read(ReadOp::Lda, Mode::ZeroPage),
        0xa6 => Instruction::Read(ReadOp::Ldx, Mode::ZeroPage),
        0xa7 => Instruction::Read(ReadOp::Lax, Mode::ZeroPage),
        0xa8 => Instruction::Implied(ImpliedOp::Tay),
        0xa9 => Instruction::Read(ReadOp::Lda, Mode::Immediate),
        0xaa => Instruction::Implied(ImpliedOp::Tax),
        0xac => Instruction::Read(ReadOp::Ldy, Mode::Absolute),
        0xad => Instruction::Read(ReadOp::Lda, Mode::Absolute),
        0xae => Instruction::Read(ReadOp::Ldx, Mode::Absolute),
        0xaf => Instruction::Read(ReadOp::Lax, Mode::Absolute),
        0xb0 => Instruction::Branch(BranchOp::Bcs),
        0xb1 => Instruction::Read(ReadOp::Lda, Mode::IndirectY),
        0xb3 => Instruction::Read(ReadOp::Lax, Mode::IndirectY),
        0xb4 => Instruction::Read(ReadOp::Ldy, Mode::ZeroPageX),
        0xb5 => Instruction::Read(ReadOp::Lda, Mode::ZeroPageX),
        0xb6 => Instruction::Read(ReadOp::Ldx, Mode::ZeroPageY),
        0xb7 => Instruction::Read(ReadOp::Lax, Mode::ZeroPageY),
        0xb8 => Instruction::Implied(ImpliedOp::Clv),
        0xb9 => Instruction::Read(ReadOp::Lda, Mode::AbsoluteY),
        0xba => Instruction::Implied(ImpliedOp::Tsx),
        0xbc => Instruction::Read(ReadOp::Ldy, Mode::AbsoluteX),
        0xbd => Instruction::Read(ReadOp::Lda, Mode::AbsoluteX),
        0xbe => Instruction::Read(ReadOp::Ldx, Mode::AbsoluteY),
        0xbf => Instruction::Read(ReadOp::Lax, Mode::AbsoluteY),
        0xc0 => Instruction::Read(ReadOp::Cpy, Mode::Immediate),
        0xc1 => Instruction::Read(ReadOp::Compare, Mode::IndirectX),
        0xc2 => Instruction::Read(ReadOp::Nop, Mode::Immediate),
        0xc3 => Instruction::Modify(ModifyOp::Dcp, Mode::IndirectX),
        0xc4 => Instruction::Read(ReadOp::Cpy, Mode::ZeroPage),
        0xc5 => Instruction::Read(ReadOp::Compare, Mode::ZeroPage),
        0xc6 => Instruction::Modify(ModifyOp::Dec, Mode::ZeroPage),
        0xc7 => Instruction::Modify(ModifyOp::Dcp, Mode::ZeroPage),
        0xc8 => Instruction::Implied(ImpliedOp::Iny),
        0xc9 => Instruction::Read(ReadOp::Compare, Mode::Immediate),
        0xca => Instruction::Implied(ImpliedOp::Dex),
        0xcc => Instruction::Read(ReadOp::Cpy, Mode::Absolute),
        0xcd => Instruction::Read(ReadOp::Compare, Mode::Absolute),
        0xce => Instruction::Modify(ModifyOp::Dec, Mode::Absolute),
        0xcf => Instruction::Modify(ModifyOp::Dcp, Mode::Absolute),
        0xd0 => Instruction::Branch(BranchOp::Bne),
        0xd1 => Instruction::Read(ReadOp::Compare, Mode::IndirectY),
        0xd3 => Instruction::Modify(ModifyOp::Dcp, Mode::IndirectY),
        0xd4 => Instruction::Read(ReadOp::Nop, Mode::ZeroPageX),
        0xd5 => Instruction::Read(ReadOp::Compare, Mode::ZeroPageX),
        0xd6 => Instruction::Modify(ModifyOp::Dec, Mode::ZeroPageX),
        0xd7 => Instruction::Modify(ModifyOp::Dcp, Mode::ZeroPageX),
        0xd8 => Instruction::Implied(ImpliedOp::Cld),
        0xd9 => Instruction::Read(ReadOp::Compare, Mode::AbsoluteY),
        0xda => Instruction::Implied(ImpliedOp::Nop),
        0xdb => Instruction::Modify(ModifyOp::Dcp, Mode::AbsoluteY),
        0xdc => Instruction::Read(ReadOp::Nop, Mode::AbsoluteX),
        0xdd => Instruction::Read(ReadOp::Compare, Mode::AbsoluteX),
        0xde => Instruction::Modify(ModifyOp::Dec, Mode::AbsoluteX),
        0xdf => Instruction::Modify(ModifyOp::Dcp, Mode::AbsoluteX),
        0xe0 => Instruction::Read(ReadOp::Cpx, Mode::Immediate),
        0xe1 => Instruction::Read(ReadOp::Sbc, Mode::IndirectX),
        0xe2 => Instruction::Read(ReadOp::Nop, Mode::Immediate),
        0xe3 => Instruction::Modify(ModifyOp::Isc, Mode::IndirectX),
        0xe4 => Instruction::Read(ReadOp::Cpx, Mode::ZeroPage),
        0xe5 => Instruction::Read(ReadOp::Sbc, Mode::ZeroPage),
        0xe6 => Instruction::Modify(ModifyOp::Inc, Mode::ZeroPage),
        0xe7 => Instruction::Modify(ModifyOp::Isc, Mode::ZeroPage),
        0xe8 => Instruction::Implied(ImpliedOp::Inx),
        0xe9 => Instruction::Read(ReadOp::Sbc, Mode::Immediate),
        0xea => Instruction::Implied(ImpliedOp::Nop),
        0xeb => Instruction::Read(ReadOp::Sbc, Mode::Immediate),
        0xec => Instruction::Read(ReadOp::Cpx, Mode::Absolute),
        0xed => Instruction::Read(ReadOp::Sbc, Mode::Absolute),
        0xee => Instruction::Modify(ModifyOp::Inc, Mode::Absolute),
        0xef => Instruction::Modify(ModifyOp::Isc, Mode::Absolute),
        0xf0 => Instruction::Branch(BranchOp::Beq),
        0xf1 => Instruction::Read(ReadOp::Sbc, Mode::IndirectY),
        0xf3 => Instruction::Modify(ModifyOp::Isc, Mode::IndirectY),
        0xf4 => Instruction::Read(ReadOp::Nop, Mode::ZeroPageX),
        0xf5 => Instruction::Read(ReadOp::Sbc, Mode::ZeroPageX),
        0xf6 => Instruction::Modify(ModifyOp::Inc, Mode::ZeroPageX),
        0xf7 => Instruction::Modify(ModifyOp::Isc, Mode::ZeroPageX),
        0xf8 => Instruction::Implied(ImpliedOp::Sed),
        0xf9 => Instruction::Read(ReadOp::Sbc, Mode::AbsoluteY),
        0xfa => Instruction::Implied(ImpliedOp::Nop),
        0xfb => Instruction::Modify(ModifyOp::Isc, Mode::AbsoluteY),
        0xfc => Instruction::Read(ReadOp::Nop, Mode::AbsoluteX),
        0xfd => Instruction::Read(ReadOp::Sbc, Mode::AbsoluteX),
        0xfe => Instruction::Modify(ModifyOp::Inc, Mode::AbsoluteX),
        0xff => Instruction::Modify(ModifyOp::Isc, Mode::AbsoluteX),
        _ => Instruction::Illegal,
    }
}

} // verus!
