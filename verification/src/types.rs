//! The machine's word sizes.

use vstd::prelude::*;

verus! {

/// An unsigned 8-bit quantity.
pub type Byte = u8;

/// An unsigned 16-bit quantity.
pub type Word = u16;

/// A location in the 16-bit address space.
pub type Address = u16;

/// The word whose low byte is `lo` and whose high byte is `hi`.
#[verifier::allow_in_spec]
pub fn word(lo: Byte, hi: Byte) -> Word
    returns
        ((hi as Word) * 256 + (lo as Word)) as Word,
{
    (hi as Word) * 256 + (lo as Word)
}

/// The low byte of a word.
#[verifier::allow_in_spec]
pub fn low_byte(w: Word) -> Byte
    returns
        (w % 256) as Byte,
{
    (w % 256) as Byte
}

/// The high byte of a word.
#[verifier::allow_in_spec]
pub fn high_byte(w: Word) -> Byte
    returns
        (w / 256) as Byte,
{
    (w / 256) as Byte
}

/// A byte as a word: the word with that low byte and a high byte of 0.
#[verifier::allow_in_spec]
pub fn widen(b: Byte) -> Word
    returns
        b as Word,
{
    b as Word
}

/// The address after `addr` in the same page of 256 bytes: after the last
/// byte of a page comes the first byte of that page.
#[verifier::allow_in_spec]
pub fn next_in_page(addr: Address) -> Address
    returns
        (if addr % 256 == 255 {
            (addr - 255) as Address
        } else {
            (addr + 1) as Address
        }),
{
    if addr % 256 == 255 {
        addr - 255
    } else {
        addr + 1
    }
}

/// A word is made of its two bytes, and `word` is the little-endian
/// composition by shift and or.
pub proof fn lemma_word_bytes(lo: Byte, hi: Byte, w: Word)
    ensures
        low_byte(word(lo, hi)) == lo,
        high_byte(word(lo, hi)) == hi,
        word(low_byte(w), high_byte(w)) == w,
        word(lo, hi) == ((hi as Word) << 8) | (lo as Word),
        low_byte(w) == (w & 0xFF) as Byte,
        high_byte(w) == (w >> 8) as Byte,
{
    assert((((hi as u16) * 256 + (lo as u16)) as u16) == ((hi as u16) << 8) | (lo as u16))
        by (bit_vector);
    assert((w % 256) as u8 == (w & 0xFF) as u8 && (w / 256) as u8 == (w >> 8) as u8)
        by (bit_vector);
}

} // verus!
