//! The decode table of the 6502: which byte is which instruction.

use vstd::prelude::*;

verus! {

/// The 56 instruction names of the legal 6502 instruction set.
#[derive(Clone, Copy, Debug, PartialEq, Eq, Structural)]
pub enum Mnemonic {
    Adc, And, Asl, Bcc, Bcs, Beq, Bit, Bmi, Bne, Bpl, Brk, Bvc, Bvs, Clc,
    Cld, Cli, Clv, Cmp, Cpx, Cpy, Dec, Dex, Dey, Eor, Inc, Inx, Iny, Jmp,
    Jsr, Lda, Ldx, Ldy, Lsr, Nop, Ora, Pha, Php, Pla, Plp, Rol, Ror, Rti,
    Rts, Sbc, Sec, Sed, Sei, Sta, Stx, Sty, Tax, Tay, Tsx, Txa, Txs, Tya,
}

/// The rule by which an instruction finds its operand.
#[derive(Clone, Copy, Debug, PartialEq, Eq, Structural)]
pub enum AddressingMode {
    Accumulator, Absolute, AbsoluteX, AbsoluteY,
    Immediate,   Implied,  Indirect,  IndirectX,
    IndirectY,   Relative, ZeroPage,  ZeroPageX,
    ZeroPageY,
}

/// The first byte of an instruction.
pub type Opcode = u8;

/// What the decode table records for one opcode.
#[derive(Clone, Copy, Debug, PartialEq, Eq, Structural)]
pub struct OpcodeInfo {
    /// Length of the whole instruction in bytes, the opcode included.
    pub byte: u8,
    /// Nominal number of clock cycles.
    pub cycle: u8,
    pub name: Mnemonic,
    pub mode: AddressingMode,
}

impl AddressingMode {
    /// Length in bytes of an instruction with this addressing mode: the
    /// opcode and its operand bytes.
    pub open spec fn instruction_length(self) -> u8 {
        match self {
            AddressingMode::Accumulator | AddressingMode::Implied => 1,
            AddressingMode::Absolute
            | AddressingMode::AbsoluteX
            | AddressingMode::AbsoluteY
            | AddressingMode::Indirect => 3,
            _ => 2,
        }
    }
}

/// The instruction that a legal opcode encodes; `None` for the 105 bytes
/// that encode no legal instruction.
pub open spec fn mnemonic_of(opcode: Opcode) -> Option<Mnemonic> {
    match opcode {
        0x69 | 0x65 | 0x75 | 0x6D | 0x7D | 0x79 | 0x61 | 0x71 => Some(Mnemonic::Adc),
        0x29 | 0x25 | 0x35 | 0x2D | 0x3D | 0x39 | 0x21 | 0x31 => Some(Mnemonic::And),
        0x0A | 0x06 | 0x16 | 0x0E | 0x1E => Some(Mnemonic::Asl),
        0x90 => Some(Mnemonic::Bcc),
        0xB0 => Some(Mnemonic::Bcs),
        0xF0 => Some(Mnemonic::Beq),
        0x24 | 0x2C => Some(Mnemonic::Bit),
        0x30 => Some(Mnemonic::Bmi),
        0xD0 => Some(Mnemonic::Bne),
        0x10 => Some(Mnemonic::Bpl),
        0x00 => Some(Mnemonic::Brk),
        0x50 => Some(Mnemonic::Bvc),
        0x70 => Some(Mnemonic::Bvs),
        0x18 => Some(Mnemonic::Clc),
        0xD8 => Some(Mnemonic::Cld),
        0x58 => Some(Mnemonic::Cli),
        0xB8 => Some(Mnemonic::Clv),
        0xC9 | 0xC5 | 0xD5 | 0xCD | 0xDD | 0xD9 | 0xC1 | 0xD1 => Some(Mnemonic::Cmp),
        0xE0 | 0xE4 | 0xEC => Some(Mnemonic::Cpx),
        0xC0 | 0xC4 | 0xCC => Some(Mnemonic::Cpy),
        0xC6 | 0xD6 | 0xCE | 0xDE => Some(Mnemonic::Dec),
        0xCA => Some(Mnemonic::Dex),
        0x88 => Some(Mnemonic::Dey),
        0x49 | 0x45 | 0x55 | 0x4D | 0x5D | 0x59 | 0x41 | 0x51 => Some(Mnemonic::Eor),
        0xE6 | 0xF6 | 0xEE | 0xFE => Some(Mnemonic::Inc),
        0xE8 => Some(Mnemonic::Inx),
        0xC8 => Some(Mnemonic::Iny),
        0x4C | 0x6C => Some(Mnemonic::Jmp),
        0x20 => Some(Mnemonic::Jsr),
        0xA9 | 0xA5 | 0xB5 | 0xAD | 0xBD | 0xB9 | 0xA1 | 0xB1 => Some(Mnemonic::Lda),
        0xA2 | 0xA6 | 0xB6 | 0xAE | 0xBE => Some(Mnemonic::Ldx),
        0xA0 | 0xA4 | 0xB4 | 0xAC | 0xBC => Some(Mnemonic::Ldy),
        0x4A | 0x46 | 0x56 | 0x4E | 0x5E => Some(Mnemonic::Lsr),
        0xEA => Some(Mnemonic::Nop),
        0x09 | 0x05 | 0x15 | 0x0D | 0x1D | 0x19 | 0x01 | 0x11 => Some(Mnemonic::Ora),
        0x48 => Some(Mnemonic::Pha),
        0x08 => Some(Mnemonic::Php),
        0x68 => Some(Mnemonic::Pla),
        0x28 => Some(Mnemonic::Plp),
        0x2A | 0x26 | 0x36 | 0x2E | 0x3E => Some(Mnemonic::Rol),
        0x6A | 0x66 | 0x76 | 0x6E | 0x7E => Some(Mnemonic::Ror),
        0x40 => Some(Mnemonic::Rti),
        0x60 => Some(Mnemonic::Rts),
        0xE9 | 0xE5 | 0xF5 | 0xED | 0xFD | 0xF9 | 0xE1 | 0xF1 => Some(Mnemonic::Sbc),
        0x38 => Some(Mnemonic::Sec),
        0xF8 => Some(Mnemonic::Sed),
        0x78 => Some(Mnemonic::Sei),
        0x85 | 0x95 | 0x8D | 0x9D | 0x99 | 0x81 | 0x91 => Some(Mnemonic::Sta),
        0x86 | 0x96 | 0x8E => Some(Mnemonic::Stx),
        0x84 | 0x94 | 0x8C => Some(Mnemonic::Sty),
        0xAA => Some(Mnemonic::Tax),
        0xA8 => Some(Mnemonic::Tay),
        0xBA => Some(Mnemonic::Tsx),
        0x8A => Some(Mnemonic::Txa),
        0x9A => Some(Mnemonic::Txs),
        0x98 => Some(Mnemonic::Tya),
        _ => None,
    }
}

/// The addressing mode of a legal opcode. Every legal opcode that is not
/// listed takes no operand.
pub open spec fn mode_of(opcode: Opcode) -> AddressingMode {
    match opcode {
        0x0A | 0x2A | 0x4A | 0x6A => AddressingMode::Accumulator,
        0x0D | 0x0E | 0x20 | 0x2C | 0x2D | 0x2E | 0x4C | 0x4D
        | 0x4E | 0x6D | 0x6E | 0x8C | 0x8D | 0x8E | 0xAC | 0xAD
        | 0xAE | 0xCC | 0xCD | 0xCE | 0xEC | 0xED | 0xEE => AddressingMode::Absolute,
        0x1D | 0x1E | 0x3D | 0x3E | 0x5D | 0x5E | 0x7D | 0x7E
        | 0x9D | 0xBC | 0xBD | 0xDD | 0xDE | 0xFD | 0xFE => AddressingMode::AbsoluteX,
        0x19 | 0x39 | 0x59 | 0x79 | 0x99 | 0xB9 | 0xBE | 0xD9
        | 0xF9 => AddressingMode::AbsoluteY,
        0x09 | 0x29 | 0x49 | 0x69 | 0xA0 | 0xA2 | 0xA9 | 0xC0
        | 0xC9 | 0xE0 | 0xE9 => AddressingMode::Immediate,
        0x6C => AddressingMode::Indirect,
        0x01 | 0x21 | 0x41 | 0x61 | 0x81 | 0xA1 | 0xC1 | 0xE1 => AddressingMode::IndirectX,
        0x11 | 0x31 | 0x51 | 0x71 | 0x91 | 0xB1 | 0xD1 | 0xF1 => AddressingMode::IndirectY,
        0x10 | 0x30 | 0x50 | 0x70 | 0x90 | 0xB0 | 0xD0 | 0xF0 => AddressingMode::Relative,
        0x05 | 0x06 | 0x24 | 0x25 | 0x26 | 0x45 | 0x46 | 0x65
        | 0x66 | 0x84 | 0x85 | 0x86 | 0xA4 | 0xA5 | 0xA6 | 0xC4
        | 0xC5 | 0xC6 | 0xE4 | 0xE5 | 0xE6 => AddressingMode::ZeroPage,
        0x15 | 0x16 | 0x35 | 0x36 | 0x55 | 0x56 | 0x75 | 0x76
        | 0x94 | 0x95 | 0xB4 | 0xB5 | 0xD5 | 0xD6 | 0xF5 | 0xF6 => AddressingMode::ZeroPageX,
        0x96 | 0xB6 => AddressingMode::ZeroPageY,
        _ => AddressingMode::Implied,
    }
}

/// The nominal cycle count of a legal opcode. Every legal opcode that is not
/// listed takes two cycles.
pub open spec fn cycles_of(opcode: Opcode) -> u8 {
    match opcode {
        0x05 | 0x08 | 0x24 | 0x25 | 0x45 | 0x48 | 0x4C | 0x65
        | 0x84 | 0x85 | 0x86 | 0xA4 | 0xA5 | 0xA6 | 0xC4 | 0xC5
        | 0xE4 | 0xE5 => 3,
        0x0D | 0x15 | 0x19 | 0x1D | 0x28 | 0x2C | 0x2D | 0x35
        | 0x39 | 0x3D | 0x4D | 0x55 | 0x59 | 0x5D | 0x68 | 0x6D
        | 0x75 | 0x79 | 0x7D | 0x8C | 0x8D | 0x8E | 0x94 | 0x95
        | 0x96 | 0x99 | 0x9D | 0xAC | 0xAD | 0xAE | 0xB4 | 0xB5
        | 0xB6 | 0xB9 | 0xBC | 0xBD | 0xBE | 0xCC | 0xCD | 0xD5
        | 0xD9 | 0xDD | 0xEC | 0xED | 0xF5 | 0xF9 | 0xFD => 4,
        0x06 | 0x11 | 0x26 | 0x31 | 0x46 | 0x51 | 0x66 | 0x6C
        | 0x71 | 0x91 | 0xB1 | 0xC6 | 0xD1 | 0xE6 | 0xF1 => 5,
        0x01 | 0x0E | 0x16 | 0x20 | 0x21 | 0x2E | 0x36 | 0x40
        | 0x41 | 0x4E | 0x56 | 0x60 | 0x61 | 0x6E | 0x76 | 0x81
        | 0xA1 | 0xC1 | 0xCE | 0xD6 | 0xE1 | 0xEE | 0xF6 => 6,
        0x00 | 0x1E | 0x3E | 0x5E | 0x7E | 0xDE | 0xFE => 7,
        _ => 2,
    }
}

/// The decode table as a function: the record of a legal opcode, `None` for
/// an illegal one.
pub open spec fn opcode_table(opcode: Opcode) -> Option<OpcodeInfo> {
    match mnemonic_of(opcode) {
        Some(name) => Some(
            OpcodeInfo {
                byte: mode_of(opcode).instruction_length(),
                cycle: cycles_of(opcode),
                name,
                mode: mode_of(opcode),
            },
        ),
        None => None,
    }
}

impl OpcodeInfo {
    pub fn new(byte: u8, cycle: u8, name: Mnemonic, mode: AddressingMode) -> (info: Self)
        ensures
            info == (OpcodeInfo { byte, cycle, name, mode }),
    {
        Self { byte, cycle, name, mode }
    }

    /// Looks an opcode up in the decode table.
    pub fn lookup(opcode: Opcode) -> (info: Option<OpcodeInfo>)
        ensures
            info == opcode_table(opcode),
    {
        match opcode {
            0x69 => Some(OpcodeInfo::new(2, 2, Mnemonic::Adc, AddressingMode::Immediate)),
            0x65 => Some(OpcodeInfo::new(2, 3, Mnemonic::Adc, AddressingMode::ZeroPage)),
            0x75 => Some(OpcodeInfo::new(2, 4, Mnemonic::Adc, AddressingMode::ZeroPageX)),
            0x6D => Some(OpcodeInfo::new(3, 4, Mnemonic::Adc, AddressingMode::Absolute)),
            0x7D => Some(OpcodeInfo::new(3, 4, Mnemonic::Adc, AddressingMode::AbsoluteX)),
            0x79 => Some(OpcodeInfo::new(3, 4, Mnemonic::Adc, AddressingMode::AbsoluteY)),
            0x61 => Some(OpcodeInfo::new(2, 6, Mnemonic::Adc, AddressingMode::IndirectX)),
            0x71 => Some(OpcodeInfo::new(2, 5, Mnemonic::Adc, AddressingMode::IndirectY)),
            0x29 => Some(OpcodeInfo::new(2, 2, Mnemonic::And, AddressingMode::Immediate)),
            0x25 => Some(OpcodeInfo::new(2, 3, Mnemonic::And, AddressingMode::ZeroPage)),
            0x35 => Some(OpcodeInfo::new(2, 4, Mnemonic::And, AddressingMode::ZeroPageX)),
            0x2D => Some(OpcodeInfo::new(3, 4, Mnemonic::And, AddressingMode::Absolute)),
            0x3D => Some(OpcodeInfo::new(3, 4, Mnemonic::And, AddressingMode::AbsoluteX)),
            0x39 => Some(OpcodeInfo::new(3, 4, Mnemonic::And, AddressingMode::AbsoluteY)),
            0x21 => Some(OpcodeInfo::new(2, 6, Mnemonic::And, AddressingMode::IndirectX)),
            0x31 => Some(OpcodeInfo::new(2, 5, Mnemonic::And, AddressingMode::IndirectY)),
            0x0A => Some(OpcodeInfo::new(1, 2, Mnemonic::Asl, AddressingMode::Accumulator)),
            0x06 => Some(OpcodeInfo::new(2, 5, Mnemonic::Asl, AddressingMode::ZeroPage)),
            0x16 => Some(OpcodeInfo::new(2, 6, Mnemonic::Asl, AddressingMode::ZeroPageX)),
            0x0E => Some(OpcodeInfo::new(3, 6, Mnemonic::Asl, AddressingMode::Absolute)),
            0x1E => Some(OpcodeInfo::new(3, 7, Mnemonic::Asl, AddressingMode::AbsoluteX)),
            0x90 => Some(OpcodeInfo::new(2, 2, Mnemonic::Bcc, AddressingMode::Relative)),
            0xB0 => Some(OpcodeInfo::new(2, 2, Mnemonic::Bcs, AddressingMode::Relative)),
            0xF0 => Some(OpcodeInfo::new(2, 2, Mnemonic::Beq, AddressingMode::Relative)),
            0x24 => Some(OpcodeInfo::new(2, 3, Mnemonic::Bit, AddressingMode::ZeroPage)),
            0x2C => Some(OpcodeInfo::new(3, 4, Mnemonic::Bit, AddressingMode::Absolute)),
            0x30 => Some(OpcodeInfo::new(2, 2, Mnemonic::Bmi, AddressingMode::Relative)),
            0xD0 => Some(OpcodeInfo::new(2, 2, Mnemonic::Bne, AddressingMode::Relative)),
            0x10 => Some(OpcodeInfo::new(2, 2, Mnemonic::Bpl, AddressingMode::Relative)),
            0x00 => Some(OpcodeInfo::new(1, 7, Mnemonic::Brk, AddressingMode::Implied)),
            0x50 => Some(OpcodeInfo::new(2, 2, Mnemonic::Bvc, AddressingMode::Relative)),
            0x70 => Some(OpcodeInfo::new(2, 2, Mnemonic::Bvs, AddressingMode::Relative)),
            0x18 => Some(OpcodeInfo::new(1, 2, Mnemonic::Clc, AddressingMode::Implied)),
            0xD8 => Some(OpcodeInfo::new(1, 2, Mnemonic::Cld, AddressingMode::Implied)),
            0x58 => Some(OpcodeInfo::new(1, 2, Mnemonic::Cli, AddressingMode::Implied)),
            0xB8 => Some(OpcodeInfo::new(1, 2, Mnemonic::Clv, AddressingMode::Implied)),
            0xC9 => Some(OpcodeInfo::new(2, 2, Mnemonic::Cmp, AddressingMode::Immediate)),
            0xC5 => Some(OpcodeInfo::new(2, 3, Mnemonic::Cmp, AddressingMode::ZeroPage)),
            0xD5 => Some(OpcodeInfo::new(2, 4, Mnemonic::Cmp, AddressingMode::ZeroPageX)),
            0xCD => Some(OpcodeInfo::new(3, 4, Mnemonic::Cmp, AddressingMode::Absolute)),
            0xDD => Some(OpcodeInfo::new(3, 4, Mnemonic::Cmp, AddressingMode::AbsoluteX)),
            0xD9 => Some(OpcodeInfo::new(3, 4, Mnemonic::Cmp, AddressingMode::AbsoluteY)),
            0xC1 => Some(OpcodeInfo::new(2, 6, Mnemonic::Cmp, AddressingMode::IndirectX)),
            0xD1 => Some(OpcodeInfo::new(2, 5, Mnemonic::Cmp, AddressingMode::IndirectY)),
            0xE0 => Some(OpcodeInfo::new(2, 2, Mnemonic::Cpx, AddressingMode::Immediate)),
            0xE4 => Some(OpcodeInfo::new(2, 3, Mnemonic::Cpx, AddressingMode::ZeroPage)),
            0xEC => Some(OpcodeInfo::new(3, 4, Mnemonic::Cpx, AddressingMode::Absolute)),
            0xC0 => Some(OpcodeInfo::new(2, 2, Mnemonic::Cpy, AddressingMode::Immediate)),
            0xC4 => Some(OpcodeInfo::new(2, 3, Mnemonic::Cpy, AddressingMode::ZeroPage)),
            0xCC => Some(OpcodeInfo::new(3, 4, Mnemonic::Cpy, AddressingMode::Absolute)),
            0xC6 => Some(OpcodeInfo::new(2, 5, Mnemonic::Dec, AddressingMode::ZeroPage)),
            0xD6 => Some(OpcodeInfo::new(2, 6, Mnemonic::Dec, AddressingMode::ZeroPageX)),
            0xCE => Some(OpcodeInfo::new(3, 6, Mnemonic::Dec, AddressingMode::Absolute)),
            0xDE => Some(OpcodeInfo::new(3, 7, Mnemonic::Dec, AddressingMode::AbsoluteX)),
            0xCA => Some(OpcodeInfo::new(1, 2, Mnemonic::Dex, AddressingMode::Implied)),
            0x88 => Some(OpcodeInfo::new(1, 2, Mnemonic::Dey, AddressingMode::Implied)),
            0x49 => Some(OpcodeInfo::new(2, 2, Mnemonic::Eor, AddressingMode::Immediate)),
            0x45 => Some(OpcodeInfo::new(2, 3, Mnemonic::Eor, AddressingMode::ZeroPage)),
            0x55 => Some(OpcodeInfo::new(2, 4, Mnemonic::Eor, AddressingMode::ZeroPageX)),
            0x4D => Some(OpcodeInfo::new(3, 4, Mnemonic::Eor, AddressingMode::Absolute)),
            0x5D => Some(OpcodeInfo::new(3, 4, Mnemonic::Eor, AddressingMode::AbsoluteX)),
            0x59 => Some(OpcodeInfo::new(3, 4, Mnemonic::Eor, AddressingMode::AbsoluteY)),
            0x41 => Some(OpcodeInfo::new(2, 6, Mnemonic::Eor, AddressingMode::IndirectX)),
            0x51 => Some(OpcodeInfo::new(2, 5, Mnemonic::Eor, AddressingMode::IndirectY)),
            0xE6 => Some(OpcodeInfo::new(2, 5, Mnemonic::Inc, AddressingMode::ZeroPage)),
            0xF6 => Some(OpcodeInfo::new(2, 6, Mnemonic::Inc, AddressingMode::ZeroPageX)),
            0xEE => Some(OpcodeInfo::new(3, 6, Mnemonic::Inc, AddressingMode::Absolute)),
            0xFE => Some(OpcodeInfo::new(3, 7, Mnemonic::Inc, AddressingMode::AbsoluteX)),
            0xE8 => Some(OpcodeInfo::new(1, 2, Mnemonic::Inx, AddressingMode::Implied)),
            0xC8 => Some(OpcodeInfo::new(1, 2, Mnemonic::Iny, AddressingMode::Implied)),
            0x4C => Some(OpcodeInfo::new(3, 3, Mnemonic::Jmp, AddressingMode::Absolute)),
            0x6C => Some(OpcodeInfo::new(3, 5, Mnemonic::Jmp, AddressingMode::Indirect)),
            0x20 => Some(OpcodeInfo::new(3, 6, Mnemonic::Jsr, AddressingMode::Absolute)),
            0xA9 => Some(OpcodeInfo::new(2, 2, Mnemonic::Lda, AddressingMode::Immediate)),
            0xA5 => Some(OpcodeInfo::new(2, 3, Mnemonic::Lda, AddressingMode::ZeroPage)),
            0xB5 => Some(OpcodeInfo::new(2, 4, Mnemonic::Lda, AddressingMode::ZeroPageX)),
            0xAD => Some(OpcodeInfo::new(3, 4, Mnemonic::Lda, AddressingMode::Absolute)),
            0xBD => Some(OpcodeInfo::new(3, 4, Mnemonic::Lda, AddressingMode::AbsoluteX)),
            0xB9 => Some(OpcodeInfo::new(3, 4, Mnemonic::Lda, AddressingMode::AbsoluteY)),
            0xA1 => Some(OpcodeInfo::new(2, 6, Mnemonic::Lda, AddressingMode::IndirectX)),
            0xB1 => Some(OpcodeInfo::new(2, 5, Mnemonic::Lda, AddressingMode::IndirectY)),
            0xA2 => Some(OpcodeInfo::new(2, 2, Mnemonic::Ldx, AddressingMode::Immediate)),
            0xA6 => Some(OpcodeInfo::new(2, 3, Mnemonic::Ldx, AddressingMode::ZeroPage)),
            0xB6 => Some(OpcodeInfo::new(2, 4, Mnemonic::Ldx, AddressingMode::ZeroPageY)),
            0xAE => Some(OpcodeInfo::new(3, 4, Mnemonic::Ldx, AddressingMode::Absolute)),
            0xBE => Some(OpcodeInfo::new(3, 4, Mnemonic::Ldx, AddressingMode::AbsoluteY)),
            0xA0 => Some(OpcodeInfo::new(2, 2, Mnemonic::Ldy, AddressingMode::Immediate)),
            0xA4 => Some(OpcodeInfo::new(2, 3, Mnemonic::Ldy, AddressingMode::ZeroPage)),
            0xB4 => Some(OpcodeInfo::new(2, 4, Mnemonic::Ldy, AddressingMode::ZeroPageX)),
            0xAC => Some(OpcodeInfo::new(3, 4, Mnemonic::Ldy, AddressingMode::Absolute)),
            0xBC => Some(OpcodeInfo::new(3, 4, Mnemonic::Ldy, AddressingMode::AbsoluteX)),
            0x4A => Some(OpcodeInfo::new(1, 2, Mnemonic::Lsr, AddressingMode::Accumulator)),
            0x46 => Some(OpcodeInfo::new(2, 5, Mnemonic::Lsr, AddressingMode::ZeroPage)),
            0x56 => Some(OpcodeInfo::new(2, 6, Mnemonic::Lsr, AddressingMode::ZeroPageX)),
            0x4E => Some(OpcodeInfo::new(3, 6, Mnemonic::Lsr, AddressingMode::Absolute)),
            0x5E => Some(OpcodeInfo::new(3, 7, Mnemonic::Lsr, AddressingMode::AbsoluteX)),
            0xEA => Some(OpcodeInfo::new(1, 2, Mnemonic::Nop, AddressingMode::Implied)),
            0x09 => Some(OpcodeInfo::new(2, 2, Mnemonic::Ora, AddressingMode::Immediate)),
            0x05 => Some(OpcodeInfo::new(2, 3, Mnemonic::Ora, AddressingMode::ZeroPage)),
            0x15 => Some(OpcodeInfo::new(2, 4, Mnemonic::Ora, AddressingMode::ZeroPageX)),
            0x0D => Some(OpcodeInfo::new(3, 4, Mnemonic::Ora, AddressingMode::Absolute)),
            0x1D => Some(OpcodeInfo::new(3, 4, Mnemonic::Ora, AddressingMode::AbsoluteX)),
            0x19 => Some(OpcodeInfo::new(3, 4, Mnemonic::Ora, AddressingMode::AbsoluteY)),
            0x01 => Some(OpcodeInfo::new(2, 6, Mnemonic::Ora, AddressingMode::IndirectX)),
            0x11 => Some(OpcodeInfo::new(2, 5, Mnemonic::Ora, AddressingMode::IndirectY)),
            0x48 => Some(OpcodeInfo::new(1, 3, Mnemonic::Pha, AddressingMode::Implied)),
            0x08 => Some(OpcodeInfo::new(1, 3, Mnemonic::Php, AddressingMode::Implied)),
            0x68 => Some(OpcodeInfo::new(1, 4, Mnemonic::Pla, AddressingMode::Implied)),
            0x28 => Some(OpcodeInfo::new(1, 4, Mnemonic::Plp, AddressingMode::Implied)),
            0x2A => Some(OpcodeInfo::new(1, 2, Mnemonic::Rol, AddressingMode::Accumulator)),
            0x26 => Some(OpcodeInfo::new(2, 5, Mnemonic::Rol, AddressingMode::ZeroPage)),
            0x36 => Some(OpcodeInfo::new(2, 6, Mnemonic::Rol, AddressingMode::ZeroPageX)),
            0x2E => Some(OpcodeInfo::new(3, 6, Mnemonic::Rol, AddressingMode::Absolute)),
            0x3E => Some(OpcodeInfo::new(3, 7, Mnemonic::Rol, AddressingMode::AbsoluteX)),
            0x6A => Some(OpcodeInfo::new(1, 2, Mnemonic::Ror, AddressingMode::Accumulator)),
            0x66 => Some(OpcodeInfo::new(2, 5, Mnemonic::Ror, AddressingMode::ZeroPage)),
            0x76 => Some(OpcodeInfo::new(2, 6, Mnemonic::Ror, AddressingMode::ZeroPageX)),
            0x6E => Some(OpcodeInfo::new(3, 6, Mnemonic::Ror, AddressingMode::Absolute)),
            0x7E => Some(OpcodeInfo::new(3, 7, Mnemonic::Ror, AddressingMode::AbsoluteX)),
            0x40 => Some(OpcodeInfo::new(1, 6, Mnemonic::Rti, AddressingMode::Implied)),
            0x60 => Some(OpcodeInfo::new(1, 6, Mnemonic::Rts, AddressingMode::Implied)),
            0xE9 => Some(OpcodeInfo::new(2, 2, Mnemonic::Sbc, AddressingMode::Immediate)),
            0xE5 => Some(OpcodeInfo::new(2, 3, Mnemonic::Sbc, AddressingMode::ZeroPage)),
            0xF5 => Some(OpcodeInfo::new(2, 4, Mnemonic::Sbc, AddressingMode::ZeroPageX)),
            0xED => Some(OpcodeInfo::new(3, 4, Mnemonic::Sbc, AddressingMode::Absolute)),
            0xFD => Some(OpcodeInfo::new(3, 4, Mnemonic::Sbc, AddressingMode::AbsoluteX)),
            0xF9 => Some(OpcodeInfo::new(3, 4, Mnemonic::Sbc, AddressingMode::AbsoluteY)),
            0xE1 => Some(OpcodeInfo::new(2, 6, Mnemonic::Sbc, AddressingMode::IndirectX)),
            0xF1 => Some(OpcodeInfo::new(2, 5, Mnemonic::Sbc, AddressingMode::IndirectY)),
            0x38 => Some(OpcodeInfo::new(1, 2, Mnemonic::Sec, AddressingMode::Implied)),
            0xF8 => Some(OpcodeInfo::new(1, 2, Mnemonic::Sed, AddressingMode::Implied)),
            0x78 => Some(OpcodeInfo::new(1, 2, Mnemonic::Sei, AddressingMode::Implied)),
            0x85 => Some(OpcodeInfo::new(2, 3, Mnemonic::Sta, AddressingMode::ZeroPage)),
            0x95 => Some(OpcodeInfo::new(2, 4, Mnemonic::Sta, AddressingMode::ZeroPageX)),
            0x8D => Some(OpcodeInfo::new(3, 4, Mnemonic::Sta, AddressingMode::Absolute)),
            0x9D => Some(OpcodeInfo::new(3, 4, Mnemonic::Sta, AddressingMode::AbsoluteX)),
            0x99 => Some(OpcodeInfo::new(3, 4, Mnemonic::Sta, AddressingMode::AbsoluteY)),
            0x81 => Some(OpcodeInfo::new(2, 6, Mnemonic::Sta, AddressingMode::IndirectX)),
            0x91 => Some(OpcodeInfo::new(2, 5, Mnemonic::Sta, AddressingMode::IndirectY)),
            0x86 => Some(OpcodeInfo::new(2, 3, Mnemonic::Stx, AddressingMode::ZeroPage)),
            0x96 => Some(OpcodeInfo::new(2, 4, Mnemonic::Stx, AddressingMode::ZeroPageY)),
            0x8E => Some(OpcodeInfo::new(3, 4, Mnemonic::Stx, AddressingMode::Absolute)),
            0x84 => Some(OpcodeInfo::new(2, 3, Mnemonic::Sty, AddressingMode::ZeroPage)),
            0x94 => Some(OpcodeInfo::new(2, 4, Mnemonic::Sty, AddressingMode::ZeroPageX)),
            0x8C => Some(OpcodeInfo::new(3, 4, Mnemonic::Sty, AddressingMode::Absolute)),
            0xAA => Some(OpcodeInfo::new(1, 2, Mnemonic::Tax, AddressingMode::Implied)),
            0xA8 => Some(OpcodeInfo::new(1, 2, Mnemonic::Tay, AddressingMode::Implied)),
            0xBA => Some(OpcodeInfo::new(1, 2, Mnemonic::Tsx, AddressingMode::Implied)),
            0x8A => Some(OpcodeInfo::new(1, 2, Mnemonic::Txa, AddressingMode::Implied)),
            0x9A => Some(OpcodeInfo::new(1, 2, Mnemonic::Txs, AddressingMode::Implied)),
            0x98 => Some(OpcodeInfo::new(1, 2, Mnemonic::Tya, AddressingMode::Implied)),
            _ => None,
        }
    }
}

/// Every record of the table has the length that its addressing mode calls
/// for, which is 1, 2 or 3 bytes.
pub proof fn lemma_length_follows_mode(opcode: Opcode)
    requires
        opcode_table(opcode) is Some,
    ensures
        opcode_table(opcode).unwrap().byte == opcode_table(opcode).unwrap().mode.instruction_length(),
        1 <= opcode_table(opcode).unwrap().byte <= 3,
{
}

/// The only opcode of `Brk` is `0x00`.
pub proof fn lemma_brk_is_zero(opcode: Opcode)
    ensures
        mnemonic_of(opcode) == Some(Mnemonic::Brk) <==> opcode == 0x00,
{
}

} // verus!
