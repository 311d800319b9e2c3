//! The conditions that end interpretation and cannot be recovered from.

use vstd::prelude::*;
use crate::cpu::opcode::{AddressingMode, Mnemonic};
use crate::types::{Address, Byte};

verus! {

/// A part of the machine that is not emulated.
#[derive(Clone, Copy, Debug, PartialEq, Eq, Structural)]
pub enum Feature {
    /// A register of the picture unit, by the address of the register in
    /// `0x2000..=0x2007` that the access comes down to.
    PpuRegister(Address),
    /// An instruction that the decode table knows and the interpreter does
    /// not run.
    Instruction(Mnemonic),
}

/// Why the interpreter stopped where it could not go on.
#[derive(Clone, Copy, Debug, PartialEq, Eq, Structural)]
pub enum Fatal {
    /// The byte at the program counter encodes no legal instruction.
    IllegalOpcode(Byte),
    /// A write to the program ROM window, by its address.
    RomWriteAttempt(Address),
    /// An access to, or an instruction of, what is not emulated.
    Unimplemented(Feature),
    /// An instruction was dispatched with an addressing mode that it does
    /// not have.
    IllegalModeForMnemonic(Mnemonic, AddressingMode),
}

} // verus!
