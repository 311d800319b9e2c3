//! What the processor asks of a memory.

use vstd::prelude::*;
use crate::fault::Fatal;
use crate::types::{high_byte, low_byte, word, Address, Byte, Word};

verus! {

/// The word made of two byte reads, the low byte read first; the fault of
/// the first read that failed, if one did.
pub open spec fn join_reads(lo: Result<Byte, Fatal>, hi: Result<Byte, Fatal>) -> Result<
    Word,
    Fatal,
> {
    match lo {
        Ok(l) => match hi {
            Ok(h) => Ok(word(l, h)),
            Err(e) => Err(e),
        },
        Err(e) => Err(e),
    }
}

/// A memory of bytes under 16-bit addresses.
///
/// Every address can be read and written: an access that the memory cannot
/// serve comes back as a fault and leaves the memory as it was.
pub trait Memory: Sized {
    /// What a read of `addr` gives in this state of the memory. A memory
    /// that is verified says here what it holds; for any other the value is
    /// left open.
    open spec fn peek(&self, addr: Address) -> Result<Byte, Fatal> {
        arbitrary()
    }

    /// The state of the memory after `value` was written to `addr`, or the
    /// fault that the write ends in. A memory that is verified says here how
    /// it changes; for any other the value is left open.
    open spec fn poke(&self, addr: Address, value: Byte) -> Result<Self, Fatal> {
        arbitrary()
    }

    /// Reads the byte at `addr`.
    fn read_byte(&self, addr: Address) -> (r: Result<Byte, Fatal>)
        ensures
            r == self.peek(addr),
    ;

    /// Writes `value` to `addr`.
    fn write_byte(&mut self, addr: Address, value: Byte) -> (r: Result<(), Fatal>)
        ensures
            match old(self).poke(addr, value) {
                Ok(next) => r is Ok && *final(self) == next,
                Err(e) => r == Err::<(), Fatal>(e) && *final(self) == *old(self),
            },
    ;

    /// Reads the little-endian word at `addr`: its low byte from `addr`,
    /// then its high byte from the address after it, which is 0 after
    /// `0xFFFF`.
    fn read_word(&self, addr: Address) -> (r: Result<Word, Fatal>)
        ensures
            r == join_reads(self.peek(addr), self.peek(addr.wrapping_add(1))),
    {
        match self.read_byte(addr) {
            Ok(lo) => match self.read_byte(addr.wrapping_add(1)) {
                Ok(hi) => Ok(word(lo, hi)),
                Err(e) => Err(e),
            },
            Err(e) => Err(e),
        }
    }

    /// Writes `value` as a little-endian word: its low byte to `addr`, then
    /// its high byte to the address after it, which is 0 after `0xFFFF`.
    /// Where the second write fails, the first has been made.
    fn write_word(&mut self, addr: Address, value: Word) -> (r: Result<(), Fatal>)
        ensures
            match old(self).poke(addr, low_byte(value)) {
                Ok(mid) => match mid.poke(addr.wrapping_add(1), high_byte(value)) {
                    Ok(next) => r is Ok && *final(self) == next,
                    Err(e) => r == Err::<(), Fatal>(e) && *final(self) == mid,
                },
                Err(e) => r == Err::<(), Fatal>(e) && *final(self) == *old(self),
            },
    {
        match self.write_byte(addr, low_byte(value)) {
            Ok(()) => self.write_byte(addr.wrapping_add(1), high_byte(value)),
            Err(e) => Err(e),
        }
    }
}

} // verus!
