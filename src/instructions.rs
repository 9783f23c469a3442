//! The opcode table: for each opcode byte its mnemonic, addressing mode,
//! base cycle count and length.
use vstd::prelude::*;

verus! {

/// The 56 documented 6502 instructions, and `Illegal` for every other opcode.
#[derive(Clone, Copy, Debug, PartialEq, Eq, Structural)]
pub enum Mnemonic {
    Adc,
    And,
    Asl,
    Bcc,
    Bcs,
    Beq,
    Bit,
    Bmi,
    Bne,
    Bpl,
    Brk,
    Bvc,
    Bvs,
    Clc,
    Cld,
    Cli,
    Clv,
    Cmp,
    Cpx,
    Cpy,
    Dec,
    Dex,
    Dey,
    Eor,
    Inc,
    Inx,
    Iny,
    Jmp,
    Jsr,
    Lda,
    Ldx,
    Ldy,
    Lsr,
    Nop,
    Ora,
    Pha,
    Php,
    Pla,
    Plp,
    Rol,
    Ror,
    Rti,
    Rts,
    Sbc,
    Sec,
    Sed,
    Sei,
    Sta,
    Stx,
    Sty,
    Tax,
    Tay,
    Tsx,
    Txa,
    Txs,
    Tya,
    Illegal,
}

#[derive(Clone, Copy, Debug, PartialEq, Eq, Structural)]
pub enum AddressingMode {
    Implicit,
    Accumulator,
    Immediate,
    ZeroPage,
    ZeroPageX,
    ZeroPageY,
    Relative,
    Absolute,
    AbsoluteX,
    AbsoluteY,
    Indirect,
    IndirectX,
    IndirectY,
    NoMode,
}

/// One entry of the opcode table.
#[derive(Clone, Copy, Debug, PartialEq, Eq, Structural)]
pub struct CpuInstruction {
    pub opcode: u8,
    pub mnemonic: Mnemonic,
    pub addressing_mode: AddressingMode,
    /// Base cycle count, before page-cross and branch penalties.
    pub cycles: u8,
    /// Length in bytes, opcode included.
    pub bytes: u8,
    /// One more cycle when the effective address crosses a page.
    pub page_cross_penalty: bool,
}

/// Number of operand bytes that follow the opcode.
pub open spec fn operand_len(mode: AddressingMode) -> u8 {
    match mode {
        AddressingMode::Implicit | AddressingMode::Accumulator | AddressingMode::NoMode => 0,
        AddressingMode::Absolute | AddressingMode::AbsoluteX | AddressingMode::AbsoluteY
        | AddressingMode::Indirect => 2,
        _ => 1,
    }
}

/// Read-only instructions pay one cycle when an indexed address crosses a
/// page; stores and read-modify-write instructions always pay the worst case.
pub open spec fn pays_page_cross(m: Mnemonic) -> bool {
    match m {
        Mnemonic::Adc | Mnemonic::And | Mnemonic::Cmp | Mnemonic::Eor | Mnemonic::Lda
        | Mnemonic::Ldx | Mnemonic::Ldy | Mnemonic::Ora | Mnemonic::Sbc => true,
        _ => false,
    }
}

/// How an instruction uses its operand.
#[derive(Clone, Copy, Debug, PartialEq, Eq, Structural)]
pub enum InstructionKind {
    /// Reads a value (or stores a register) and updates registers and flags.
    Read,
    /// Reads, changes and writes back A or memory.
    Modify,
    /// Touches registers and flags only.
    Register,
    /// Branches, jumps, calls, returns and the stack.
    Control,
}

pub open spec fn kind_of(m: Mnemonic) -> InstructionKind {
    match m {
        Mnemonic::Lda | Mnemonic::Ldx | Mnemonic::Ldy | Mnemonic::Sta | Mnemonic::Stx
        | Mnemonic::Sty | Mnemonic::Adc | Mnemonic::Sbc | Mnemonic::And | Mnemonic::Ora
        | Mnemonic::Eor | Mnemonic::Cmp | Mnemonic::Cpx | Mnemonic::Cpy
        | Mnemonic::Bit => InstructionKind::Read,
        Mnemonic::Asl | Mnemonic::Lsr | Mnemonic::Rol | Mnemonic::Ror | Mnemonic::Inc
        | Mnemonic::Dec => InstructionKind::Modify,
        Mnemonic::Bpl | Mnemonic::Bmi | Mnemonic::Bvc | Mnemonic::Bvs | Mnemonic::Bcc
        | Mnemonic::Bcs | Mnemonic::Bne | Mnemonic::Beq | Mnemonic::Jmp | Mnemonic::Jsr
        | Mnemonic::Rts | Mnemonic::Rti | Mnemonic::Pha | Mnemonic::Php | Mnemonic::Pla
        | Mnemonic::Plp | Mnemonic::Brk => InstructionKind::Control,
        _ => InstructionKind::Register,
    }
}

pub fn kind(m: Mnemonic) -> (r: InstructionKind)
    ensures
        r == kind_of(m),
{
    match m {
        Mnemonic::Lda | Mnemonic::Ldx | Mnemonic::Ldy | Mnemonic::Sta | Mnemonic::Stx
        | Mnemonic::Sty | Mnemonic::Adc | Mnemonic::Sbc | Mnemonic::And | Mnemonic::Ora
        | Mnemonic::Eor | Mnemonic::Cmp | Mnemonic::Cpx | Mnemonic::Cpy
        | Mnemonic::Bit => InstructionKind::Read,
        Mnemonic::Asl | Mnemonic::Lsr | Mnemonic::Rol | Mnemonic::Ror | Mnemonic::Inc
        | Mnemonic::Dec => InstructionKind::Modify,
        Mnemonic::Bpl | Mnemonic::Bmi | Mnemonic::Bvc | Mnemonic::Bvs | Mnemonic::Bcc
        | Mnemonic::Bcs | Mnemonic::Bne | Mnemonic::Beq | Mnemonic::Jmp | Mnemonic::Jsr
        | Mnemonic::Rts | Mnemonic::Rti | Mnemonic::Pha | Mnemonic::Php | Mnemonic::Pla
        | Mnemonic::Plp | Mnemonic::Brk => InstructionKind::Control,
        _ => InstructionKind::Register,
    }
}

/// The documented opcodes: mnemonic, addressing mode and base cycles.
#[verifier::opaque]
pub open spec fn opcode_entry(op: u8) -> (Mnemonic, AddressingMode, u8) {
    match op {
        0x00 => (Mnemonic::Brk, AddressingMode::Implicit, 7u8),
        0x01 => (Mnemonic::Ora, AddressingMode::IndirectX, 6u8),
        0x05 => (Mnemonic::Ora, AddressingMode::ZeroPage, 3u8),
        0x06 => (Mnemonic::Asl, AddressingMode::ZeroPage, 5u8),
        0x08 => (Mnemonic::Php, AddressingMode::Implicit, 3u8),
        0x09 => (Mnemonic::Ora, AddressingMode::Immediate, 2u8),
        0x0A => (Mnemonic::Asl, AddressingMode::Accumulator, 2u8),
        0x0D => (Mnemonic::Ora, AddressingMode::Absolute, 4u8),
        0x0E => (Mnemonic::Asl, AddressingMode::Absolute, 6u8),
        0x10 => (Mnemonic::Bpl, AddressingMode::Relative, 2u8),
        0x11 => (Mnemonic::Ora, AddressingMode::IndirectY, 5u8),
        0x15 => (Mnemonic::Ora, AddressingMode::ZeroPageX, 4u8),
        0x16 => (Mnemonic::Asl, AddressingMode::ZeroPageX, 6u8),
        0x18 => (Mnemonic::Clc, AddressingMode::Implicit, 2u8),
        0x19 => (Mnemonic::Ora, AddressingMode::AbsoluteY, 4u8),
        0x1D => (Mnemonic::Ora, AddressingMode::AbsoluteX, 4u8),
        0x1E => (Mnemonic::Asl, AddressingMode::AbsoluteX, 7u8),
        0x20 => (Mnemonic::Jsr, AddressingMode::Absolute, 6u8),
        0x21 => (Mnemonic::And, AddressingMode::IndirectX, 6u8),
        0x24 => (Mnemonic::Bit, AddressingMode::ZeroPage, 3u8),
        0x25 => (Mnemonic::And, AddressingMode::ZeroPage, 3u8),
        0x26 => (Mnemonic::Rol, AddressingMode::ZeroPage, 5u8),
        0x28 => (Mnemonic::Plp, AddressingMode::Implicit, 4u8),
        0x29 => (Mnemonic::And, AddressingMode::Immediate, 2u8),
        0x2A => (Mnemonic::Rol, AddressingMode::Accumulator, 2u8),
        0x2C => (Mnemonic::Bit, AddressingMode::Absolute, 4u8),
        0x2D => (Mnemonic::And, AddressingMode::Absolute, 4u8),
        0x2E => (Mnemonic::Rol, AddressingMode::Absolute, 6u8),
        0x30 => (Mnemonic::Bmi, AddressingMode::Relative, 2u8),
        0x31 => (Mnemonic::And, AddressingMode::IndirectY, 5u8),
        0x35 => (Mnemonic::And, AddressingMode::ZeroPageX, 4u8),
        0x36 => (Mnemonic::Rol, AddressingMode::ZeroPageX, 6u8),
        0x38 => (Mnemonic::Sec, AddressingMode::Implicit, 2u8),
        0x39 => (Mnemonic::And, AddressingMode::AbsoluteY, 4u8),
        0x3D => (Mnemonic::And, AddressingMode::AbsoluteX, 4u8),
        0x3E => (Mnemonic::Rol, AddressingMode::AbsoluteX, 7u8),
        0x40 => (Mnemonic::Rti, AddressingMode::Implicit, 6u8),
        0x41 => (Mnemonic::Eor, AddressingMode::IndirectX, 6u8),
        0x45 => (Mnemonic::Eor, AddressingMode::ZeroPage, 3u8),
        0x46 => (Mnemonic::Lsr, AddressingMode::ZeroPage, 5u8),
        0x48 => (Mnemonic::Pha, AddressingMode::Implicit, 3u8),
        0x49 => (Mnemonic::Eor, AddressingMode::Immediate, 2u8),
        0x4A => (Mnemonic::Lsr, AddressingMode::Accumulator, 2u8),
        0x4C => (Mnemonic::Jmp, AddressingMode::Absolute, 3u8),
        0x4D => (Mnemonic::Eor, AddressingMode::Absolute, 4u8),
        0x4E => (Mnemonic::Lsr, AddressingMode::Absolute, 6u8),
        0x50 => (Mnemonic::Bvc, AddressingMode::Relative, 2u8),
        0x51 => (Mnemonic::Eor, AddressingMode::IndirectY, 5u8),
        0x55 => (Mnemonic::Eor, AddressingMode::ZeroPageX, 4u8),
        0x56 => (Mnemonic::Lsr, AddressingMode::ZeroPageX, 6u8),
        0x58 => (Mnemonic::Cli, AddressingMode::Implicit, 2u8),
        0x59 => (Mnemonic::Eor, AddressingMode::AbsoluteY, 4u8),
        0x5D => (Mnemonic::Eor, AddressingMode::AbsoluteX, 4u8),
        0x5E => (Mnemonic::Lsr, AddressingMode::AbsoluteX, 7u8),
        0x60 => (Mnemonic::Rts, AddressingMode::Implicit, 6u8),
        0x61 => (Mnemonic::Adc, AddressingMode::IndirectX, 6u8),
        0x65 => (Mnemonic::Adc, AddressingMode::ZeroPage, 3u8),
        0x66 => (Mnemonic::Ror, AddressingMode::ZeroPage, 5u8),
        0x68 => (Mnemonic::Pla, AddressingMode::Implicit, 4u8),
        0x69 => (Mnemonic::Adc, AddressingMode::Immediate, 2u8),
        0x6A => (Mnemonic::Ror, AddressingMode::Accumulator, 2u8),
        0x6C => (Mnemonic::Jmp, AddressingMode::Indirect, 5u8),
        0x6D => (Mnemonic::Adc, AddressingMode::Absolute, 4u8),
        0x6E => (Mnemonic::Ror, AddressingMode::Absolute, 6u8),
        0x70 => (Mnemonic::Bvs, AddressingMode::Relative, 2u8),
        0x71 => (Mnemonic::Adc, AddressingMode::IndirectY, 5u8),
        0x75 => (Mnemonic::Adc, AddressingMode::ZeroPageX, 4u8),
        0x76 => (Mnemonic::Ror, AddressingMode::ZeroPageX, 6u8),
        0x78 => (Mnemonic::Sei, AddressingMode::Implicit, 2u8),
        0x79 => (Mnemonic::Adc, AddressingMode::AbsoluteY, 4u8),
        0x7D => (Mnemonic::Adc, AddressingMode::AbsoluteX, 4u8),
        0x7E => (Mnemonic::Ror, AddressingMode::AbsoluteX, 7u8),
        0x81 => (Mnemonic::Sta, AddressingMode::IndirectX, 6u8),
        0x84 => (Mnemonic::Sty, AddressingMode::ZeroPage, 3u8),
        0x85 => (Mnemonic::Sta, AddressingMode::ZeroPage, 3u8),
        0x86 => (Mnemonic::Stx, AddressingMode::ZeroPage, 3u8),
        0x88 => (Mnemonic::Dey, AddressingMode::Implicit, 2u8),
        0x8A => (Mnemonic::Txa, AddressingMode::Implicit, 2u8),
        0x8C => (Mnemonic::Sty, AddressingMode::Absolute, 4u8),
        0x8D => (Mnemonic::Sta, AddressingMode::Absolute, 4u8),
        0x8E => (Mnemonic::Stx, AddressingMode::Absolute, 4u8),
        0x90 => (Mnemonic::Bcc, AddressingMode::Relative, 2u8),
        0x91 => (Mnemonic::Sta, AddressingMode::IndirectY, 6u8),
        0x94 => (Mnemonic::Sty, AddressingMode::ZeroPageX, 4u8),
        0x95 => (Mnemonic::Sta, AddressingMode::ZeroPageX, 4u8),
        0x96 => (Mnemonic::Stx, AddressingMode::ZeroPageY, 4u8),
        0x98 => (Mnemonic::Tya, AddressingMode::Implicit, 2u8),
        0x99 => (Mnemonic::Sta, AddressingMode::AbsoluteY, 5u8),
        0x9A => (Mnemonic::Txs, AddressingMode::Implicit, 2u8),
        0x9D => (Mnemonic::Sta, AddressingMode::AbsoluteX, 5u8),
        0xA0 => (Mnemonic::Ldy, AddressingMode::Immediate, 2u8),
        0xA1 => (Mnemonic::Lda, AddressingMode::IndirectX, 6u8),
        0xA2 => (Mnemonic::Ldx, AddressingMode::Immediate, 2u8),
        0xA4 => (Mnemonic::Ldy, AddressingMode::ZeroPage, 3u8),
        0xA5 => (Mnemonic::Lda, AddressingMode::ZeroPage, 3u8),
        0xA6 => (Mnemonic::Ldx, AddressingMode::ZeroPage, 3u8),
        0xA8 => (Mnemonic::Tay, AddressingMode::Implicit, 2u8),
        0xA9 => (Mnemonic::Lda, AddressingMode::Immediate, 2u8),
        0xAA => (Mnemonic::Tax, AddressingMode::Implicit, 2u8),
        0xAC => (Mnemonic::Ldy, AddressingMode::Absolute, 4u8),
        0xAD => (Mnemonic::Lda, AddressingMode::Absolute, 4u8),
        0xAE => (Mnemonic::Ldx, AddressingMode::Absolute, 4u8),
        0xB0 => (Mnemonic::Bcs, AddressingMode::Relative, 2u8),
        0xB1 => (Mnemonic::Lda, AddressingMode::IndirectY, 5u8),
        0xB4 => (Mnemonic::Ldy, AddressingMode::ZeroPageX, 4u8),
        0xB5 => (Mnemonic::Lda, AddressingMode::ZeroPageX, 4u8),
        0xB6 => (Mnemonic::Ldx, AddressingMode::ZeroPageY, 4u8),
        0xB8 => (Mnemonic::Clv, AddressingMode::Implicit, 2u8),
        0xB9 => (Mnemonic::Lda, AddressingMode::AbsoluteY, 4u8),
        0xBA => (Mnemonic::Tsx, AddressingMode::Implicit, 2u8),
        0xBC => (Mnemonic::Ldy, AddressingMode::AbsoluteX, 4u8),
        0xBD => (Mnemonic::Lda, AddressingMode::AbsoluteX, 4u8),
        0xBE => (Mnemonic::Ldx, AddressingMode::AbsoluteY, 4u8),
        0xC0 => (Mnemonic::Cpy, AddressingMode::Immediate, 2u8),
        0xC1 => (Mnemonic::Cmp, AddressingMode::IndirectX, 6u8),
        0xC4 => (Mnemonic::Cpy, AddressingMode::ZeroPage, 3u8),
        0xC5 => (Mnemonic::Cmp, AddressingMode::ZeroPage, 3u8),
        0xC6 => (Mnemonic::Dec, AddressingMode::ZeroPage, 5u8),
        0xC8 => (Mnemonic::Iny, AddressingMode::Implicit, 2u8),
        0xC9 => (Mnemonic::Cmp, AddressingMode::Immediate, 2u8),
        0xCA => (Mnemonic::Dex, AddressingMode::Implicit, 2u8),
        0xCC => (Mnemonic::Cpy, AddressingMode::Absolute, 4u8),
        0xCD => (Mnemonic::Cmp, AddressingMode::Absolute, 4u8),
        0xCE => (Mnemonic::Dec, AddressingMode::Absolute, 6u8),
        0xD0 => (Mnemonic::Bne, AddressingMode::Relative, 2u8),
        0xD1 => (Mnemonic::Cmp, AddressingMode::IndirectY, 5u8),
        0xD5 => (Mnemonic::Cmp, AddressingMode::ZeroPageX, 4u8),
        0xD6 => (Mnemonic::Dec, AddressingMode::ZeroPageX, 6u8),
        0xD8 => (Mnemonic::Cld, AddressingMode::Implicit, 2u8),
        0xD9 => (Mnemonic::Cmp, AddressingMode::AbsoluteY, 4u8),
        0xDD => (Mnemonic::Cmp, AddressingMode::AbsoluteX, 4u8),
        0xDE => (Mnemonic::Dec, AddressingMode::AbsoluteX, 7u8),
        0xE0 => (Mnemonic::Cpx, AddressingMode::Immediate, 2u8),
        0xE1 => (Mnemonic::Sbc, AddressingMode::IndirectX, 6u8),
        0xE4 => (Mnemonic::Cpx, AddressingMode::ZeroPage, 3u8),
        0xE5 => (Mnemonic::Sbc, AddressingMode::ZeroPage, 3u8),
        0xE6 => (Mnemonic::Inc, AddressingMode::ZeroPage, 5u8),
        0xE8 => (Mnemonic::Inx, AddressingMode::Implicit, 2u8),
        0xE9 => (Mnemonic::Sbc, AddressingMode::Immediate, 2u8),
        0xEA => (Mnemonic::Nop, AddressingMode::Implicit, 2u8),
        0xEC => (Mnemonic::Cpx, AddressingMode::Absolute, 4u8),
        0xED => (Mnemonic::Sbc, AddressingMode::Absolute, 4u8),
        0xEE => (Mnemonic::Inc, AddressingMode::Absolute, 6u8),
        0xF0 => (Mnemonic::Beq, AddressingMode::Relative, 2u8),
        0xF1 => (Mnemonic::Sbc, AddressingMode::IndirectY, 5u8),
        0xF5 => (Mnemonic::Sbc, AddressingMode::ZeroPageX, 4u8),
        0xF6 => (Mnemonic::Inc, AddressingMode::ZeroPageX, 6u8),
        0xF8 => (Mnemonic::Sed, AddressingMode::Implicit, 2u8),
        0xF9 => (Mnemonic::Sbc, AddressingMode::AbsoluteY, 4u8),
        0xFD => (Mnemonic::Sbc, AddressingMode::AbsoluteX, 4u8),
        0xFE => (Mnemonic::Inc, AddressingMode::AbsoluteX, 7u8),
        _ => (Mnemonic::Illegal, AddressingMode::NoMode, 0u8),
    }
}

pub open spec fn instruction_spec(op: u8) -> CpuInstruction {
    let (m, mode, cycles) = opcode_entry(op);
    CpuInstruction {
        opcode: op,
        mnemonic: m,
        addressing_mode: mode,
        cycles,
        bytes: (1 + operand_len(mode)) as u8,
        page_cross_penalty: pays_page_cross(m),
    }
}

pub open spec fn is_legal_spec(op: u8) -> bool {
    opcode_entry(op).0 != Mnemonic::Illegal
}

impl AddressingMode {
    pub fn operand_len(self) -> (r: u8)
        ensures
            r == operand_len(self),
    {
        match self {
            AddressingMode::Implicit | AddressingMode::Accumulator | AddressingMode::NoMode => 0,
            AddressingMode::Absolute | AddressingMode::AbsoluteX | AddressingMode::AbsoluteY
            | AddressingMode::Indirect => 2,
            _ => 1,
        }
    }
}

impl Mnemonic {
    pub fn pays_page_cross(self) -> (r: bool)
        ensures
            r == pays_page_cross(self),
    {
        match self {
            Mnemonic::Adc | Mnemonic::And | Mnemonic::Cmp | Mnemonic::Eor | Mnemonic::Lda
            | Mnemonic::Ldx | Mnemonic::Ldy | Mnemonic::Ora | Mnemonic::Sbc => true,
            _ => false,
        }
    }
}

/// Looks an opcode up in the table.
pub fn decode(op: u8) -> (r: CpuInstruction)
    ensures
        r == instruction_spec(op),
{
    proof {
        reveal(opcode_entry);
    }
    let (m, mode, cycles): (Mnemonic, AddressingMode, u8) = match op {
        0x00 => (Mnemonic::Brk, AddressingMode::Implicit, 7),
        0x01 => (Mnemonic::Ora, AddressingMode::IndirectX, 6),
        0x05 => (Mnemonic::Ora, AddressingMode::ZeroPage, 3),
        0x06 => (Mnemonic::Asl, AddressingMode::ZeroPage, 5),
        0x08 => (Mnemonic::Php, AddressingMode::Implicit, 3),
        0x09 => (Mnemonic::Ora, AddressingMode::Immediate, 2),
        0x0A => (Mnemonic::Asl, AddressingMode::Accumulator, 2),
        0x0D => (Mnemonic::Ora, AddressingMode::Absolute, 4),
        0x0E => (Mnemonic::Asl, AddressingMode::Absolute, 6),
        0x10 => (Mnemonic::Bpl, AddressingMode::Relative, 2),
        0x11 => (Mnemonic::Ora, AddressingMode::IndirectY, 5),
        0x15 => (Mnemonic::Ora, AddressingMode::ZeroPageX, 4),
        0x16 => (Mnemonic::Asl, AddressingMode::ZeroPageX, 6),
        0x18 => (Mnemonic::Clc, AddressingMode::Implicit, 2),
        0x19 => (Mnemonic::Ora, AddressingMode::AbsoluteY, 4),
        0x1D => (Mnemonic::Ora, AddressingMode::AbsoluteX, 4),
        0x1E => (Mnemonic::Asl, AddressingMode::AbsoluteX, 7),
        0x20 => (Mnemonic::Jsr, AddressingMode::Absolute, 6),
        0x21 => (Mnemonic::And, AddressingMode::IndirectX, 6),
        0x24 => (Mnemonic::Bit, AddressingMode::ZeroPage, 3),
        0x25 => (Mnemonic::And, AddressingMode::ZeroPage, 3),
        0x26 => (Mnemonic::Rol, AddressingMode::ZeroPage, 5),
        0x28 => (Mnemonic::Plp, AddressingMode::Implicit, 4),
        0x29 => (Mnemonic::And, AddressingMode::Immediate, 2),
        0x2A => (Mnemonic::Rol, AddressingMode::Accumulator, 2),
        0x2C => (Mnemonic::Bit, AddressingMode::Absolute, 4),
        0x2D => (Mnemonic::And, AddressingMode::Absolute, 4),
        0x2E => (Mnemonic::Rol, AddressingMode::Absolute, 6),
        0x30 => (Mnemonic::Bmi, AddressingMode::Relative, 2),
        0x31 => (Mnemonic::And, AddressingMode::IndirectY, 5),
        0x35 => (Mnemonic::And, AddressingMode::ZeroPageX, 4),
        0x36 => (Mnemonic::Rol, AddressingMode::ZeroPageX, 6),
        0x38 => (Mnemonic::Sec, AddressingMode::Implicit, 2),
        0x39 => (Mnemonic::And, AddressingMode::AbsoluteY, 4),
        0x3D => (Mnemonic::And, AddressingMode::AbsoluteX, 4),
        0x3E => (Mnemonic::Rol, AddressingMode::AbsoluteX, 7),
        0x40 => (Mnemonic::Rti, AddressingMode::Implicit, 6),
        0x41 => (Mnemonic::Eor, AddressingMode::IndirectX, 6),
        0x45 => (Mnemonic::Eor, AddressingMode::ZeroPage, 3),
        0x46 => (Mnemonic::Lsr, AddressingMode::ZeroPage, 5),
        0x48 => (Mnemonic::Pha, AddressingMode::Implicit, 3),
        0x49 => (Mnemonic::Eor, AddressingMode::Immediate, 2),
        0x4A => (Mnemonic::Lsr, AddressingMode::Accumulator, 2),
        0x4C => (Mnemonic::Jmp, AddressingMode::Absolute, 3),
        0x4D => (Mnemonic::Eor, AddressingMode::Absolute, 4),
        0x4E => (Mnemonic::Lsr, AddressingMode::Absolute, 6),
        0x50 => (Mnemonic::Bvc, AddressingMode::Relative, 2),
        0x51 => (Mnemonic::Eor, AddressingMode::IndirectY, 5),
        0x55 => (Mnemonic::Eor, AddressingMode::ZeroPageX, 4),
        0x56 => (Mnemonic::Lsr, AddressingMode::ZeroPageX, 6),
        0x58 => (Mnemonic::Cli, AddressingMode::Implicit, 2),
        0x59 => (Mnemonic::Eor, AddressingMode::AbsoluteY, 4),
        0x5D => (Mnemonic::Eor, AddressingMode::AbsoluteX, 4),
        0x5E => (Mnemonic::Lsr, AddressingMode::AbsoluteX, 7),
        0x60 => (Mnemonic::Rts, AddressingMode::Implicit, 6),
        0x61 => (Mnemonic::Adc, AddressingMode::IndirectX, 6),
        0x65 => (Mnemonic::Adc, AddressingMode::ZeroPage, 3),
        0x66 => (Mnemonic::Ror, AddressingMode::ZeroPage, 5),
        0x68 => (Mnemonic::Pla, AddressingMode::Implicit, 4),
        0x69 => (Mnemonic::Adc, AddressingMode::Immediate, 2),
        0x6A => (Mnemonic::Ror, AddressingMode::Accumulator, 2),
        0x6C => (Mnemonic::Jmp, AddressingMode::Indirect, 5),
        0x6D => (Mnemonic::Adc, AddressingMode::Absolute, 4),
        0x6E => (Mnemonic::Ror, AddressingMode::Absolute, 6),
        0x70 => (Mnemonic::Bvs, AddressingMode::Relative, 2),
        0x71 => (Mnemonic::Adc, AddressingMode::IndirectY, 5),
        0x75 => (Mnemonic::Adc, AddressingMode::ZeroPageX, 4),
        0x76 => (Mnemonic::Ror, AddressingMode::ZeroPageX, 6),
        0x78 => (Mnemonic::Sei, AddressingMode::Implicit, 2),
        0x79 => (Mnemonic::Adc, AddressingMode::AbsoluteY, 4),
        0x7D => (Mnemonic::Adc, AddressingMode::AbsoluteX, 4),
        0x7E => (Mnemonic::Ror, AddressingMode::AbsoluteX, 7),
        0x81 => (Mnemonic::Sta, AddressingMode::IndirectX, 6),
        0x84 => (Mnemonic::Sty, AddressingMode::ZeroPage, 3),
        0x85 => (Mnemonic::Sta, AddressingMode::ZeroPage, 3),
        0x86 => (Mnemonic::Stx, AddressingMode::ZeroPage, 3),
        0x88 => (Mnemonic::Dey, AddressingMode::Implicit, 2),
        0x8A => (Mnemonic::Txa, AddressingMode::Implicit, 2),
        0x8C => (Mnemonic::Sty, AddressingMode::Absolute, 4),
        0x8D => (Mnemonic::Sta, AddressingMode::Absolute, 4),
        0x8E => (Mnemonic::Stx, AddressingMode::Absolute, 4),
        0x90 => (Mnemonic::Bcc, AddressingMode::Relative, 2),
        0x91 => (Mnemonic::Sta, AddressingMode::IndirectY, 6),
        0x94 => (Mnemonic::Sty, AddressingMode::ZeroPageX, 4),
        0x95 => (Mnemonic::Sta, AddressingMode::ZeroPageX, 4),
        0x96 => (Mnemonic::Stx, AddressingMode::ZeroPageY, 4),
        0x98 => (Mnemonic::Tya, AddressingMode::Implicit, 2),
        0x99 => (Mnemonic::Sta, AddressingMode::AbsoluteY, 5),
        0x9A => (Mnemonic::Txs, AddressingMode::Implicit, 2),
        0x9D => (Mnemonic::Sta, AddressingMode::AbsoluteX, 5),
        0xA0 => (Mnemonic::Ldy, AddressingMode::Immediate, 2),
        0xA1 => (Mnemonic::Lda, AddressingMode::IndirectX, 6),
        0xA2 => (Mnemonic::Ldx, AddressingMode::Immediate, 2),
        0xA4 => (Mnemonic::Ldy, AddressingMode::ZeroPage, 3),
        0xA5 => (Mnemonic::Lda, AddressingMode::ZeroPage, 3),
        0xA6 => (Mnemonic::Ldx, AddressingMode::ZeroPage, 3),
        0xA8 => (Mnemonic::Tay, AddressingMode::Implicit, 2),
        0xA9 => (Mnemonic::Lda, AddressingMode::Immediate, 2),
        0xAA => (Mnemonic::Tax, AddressingMode::Implicit, 2),
        0xAC => (Mnemonic::Ldy, AddressingMode::Absolute, 4),
        0xAD => (Mnemonic::Lda, AddressingMode::Absolute, 4),
        0xAE => (Mnemonic::Ldx, AddressingMode::Absolute, 4),
        0xB0 => (Mnemonic::Bcs, AddressingMode::Relative, 2),
        0xB1 => (Mnemonic::Lda, AddressingMode::IndirectY, 5),
        0xB4 => (Mnemonic::Ldy, AddressingMode::ZeroPageX, 4),
        0xB5 => (Mnemonic::Lda, AddressingMode::ZeroPageX, 4),
        0xB6 => (Mnemonic::Ldx, AddressingMode::ZeroPageY, 4),
        0xB8 => (Mnemonic::Clv, AddressingMode::Implicit, 2),
        0xB9 => (Mnemonic::Lda, AddressingMode::AbsoluteY, 4),
        0xBA => (Mnemonic::Tsx, AddressingMode::Implicit, 2),
        0xBC => (Mnemonic::Ldy, AddressingMode::AbsoluteX, 4),
        0xBD => (Mnemonic::Lda, AddressingMode::AbsoluteX, 4),
        0xBE => (Mnemonic::Ldx, AddressingMode::AbsoluteY, 4),
        0xC0 => (Mnemonic::Cpy, AddressingMode::Immediate, 2),
        0xC1 => (Mnemonic::Cmp, AddressingMode::IndirectX, 6),
        0xC4 => (Mnemonic::Cpy, AddressingMode::ZeroPage, 3),
        0xC5 => (Mnemonic::Cmp, AddressingMode::ZeroPage, 3),
        0xC6 => (Mnemonic::Dec, AddressingMode::ZeroPage, 5),
        0xC8 => (Mnemonic::Iny, AddressingMode::Implicit, 2),
        0xC9 => (Mnemonic::Cmp, AddressingMode::Immediate, 2),
        0xCA => (Mnemonic::Dex, AddressingMode::Implicit, 2),
        0xCC => (Mnemonic::Cpy, AddressingMode::Absolute, 4),
        0xCD => (Mnemonic::Cmp, AddressingMode::Absolute, 4),
        0xCE => (Mnemonic::Dec, AddressingMode::Absolute, 6),
        0xD0 => (Mnemonic::Bne, AddressingMode::Relative, 2),
        0xD1 => (Mnemonic::Cmp, AddressingMode::IndirectY, 5),
        0xD5 => (Mnemonic::Cmp, AddressingMode::ZeroPageX, 4),
        0xD6 => (Mnemonic::Dec, AddressingMode::ZeroPageX, 6),
        0xD8 => (Mnemonic::Cld, AddressingMode::Implicit, 2),
        0xD9 => (Mnemonic::Cmp, AddressingMode::AbsoluteY, 4),
        0xDD => (Mnemonic::Cmp, AddressingMode::AbsoluteX, 4),
        0xDE => (Mnemonic::Dec, AddressingMode::AbsoluteX, 7),
        0xE0 => (Mnemonic::Cpx, AddressingMode::Immediate, 2),
        0xE1 => (Mnemonic::Sbc, AddressingMode::IndirectX, 6),
        0xE4 => (Mnemonic::Cpx, AddressingMode::ZeroPage, 3),
        0xE5 => (Mnemonic::Sbc, AddressingMode::ZeroPage, 3),
        0xE6 => (Mnemonic::Inc, AddressingMode::ZeroPage, 5),
        0xE8 => (Mnemonic::Inx, AddressingMode::Implicit, 2),
        0xE9 => (Mnemonic::Sbc, AddressingMode::Immediate, 2),
        0xEA => (Mnemonic::Nop, AddressingMode::Implicit, 2),
        0xEC => (Mnemonic::Cpx, AddressingMode::Absolute, 4),
        0xED => (Mnemonic::Sbc, AddressingMode::Absolute, 4),
        0xEE => (Mnemonic::Inc, AddressingMode::Absolute, 6),
        0xF0 => (Mnemonic::Beq, AddressingMode::Relative, 2),
        0xF1 => (Mnemonic::Sbc, AddressingMode::IndirectY, 5),
        0xF5 => (Mnemonic::Sbc, AddressingMode::ZeroPageX, 4),
        0xF6 => (Mnemonic::Inc, AddressingMode::ZeroPageX, 6),
        0xF8 => (Mnemonic::Sed, AddressingMode::Implicit, 2),
        0xF9 => (Mnemonic::Sbc, AddressingMode::AbsoluteY, 4),
        0xFD => (Mnemonic::Sbc, AddressingMode::AbsoluteX, 4),
        0xFE => (Mnemonic::Inc, AddressingMode::AbsoluteX, 7),
        _ => (Mnemonic::Illegal, AddressingMode::NoMode, 0),
    };
    CpuInstruction {
        opcode: op,
        mnemonic: m,
        addressing_mode: mode,
        cycles,
        bytes: 1 + mode.operand_len(),
        page_cross_penalty: m.pays_page_cross(),
    }
}

/// Whether `op` is one of the 151 documented opcodes.
pub fn is_legal(op: u8) -> (r: bool)
    ensures
        r == is_legal_spec(op),
{
    let ins = decode(op);
    match ins.mnemonic {
        Mnemonic::Illegal => false,
        _ => true,
    }
}

} // verus!
