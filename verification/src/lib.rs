//! The core of a NES emulator: a 6502 interpreter, the address bus that it
//! works on, and the loader of cartridge images in the iNES format.

pub mod bus;
pub mod cartridge;
pub mod cpu;
pub mod fault;
pub mod types;
