//! The register file of the 6502 and its processor status flags.

use vstd::prelude::*;
use crate::types::{Address, Byte, Word};

verus! {

/// A set of processor status flags, held as one byte with a bit for each
/// flag: bit 0 carry, 1 zero, 2 interrupt disable, 3 decimal, 4 and 5 the
/// two break bits, 6 overflow, 7 negative.
#[derive(Clone, Copy, Debug, PartialEq, Eq, Structural)]
pub struct Status {
    pub bits: u8,
}

/// Whether bit 7 of a byte is set, which is to say whether it is negative
/// as a two's-complement number.
pub open spec fn sign_bit(value: Byte) -> bool {
    value >= 0x80
}

/// The three ways to say that bit 7 is set agree.
pub proof fn lemma_sign_bit(value: Byte)
    ensures
        sign_bit(value) <==> value >> 7 == 1,
        sign_bit(value) <==> value & 0x80 == 0x80,
{
    assert((value >= 0x80) == (value >> 7 == 1) && (value >= 0x80) == (value & 0x80 == 0x80))
        by (bit_vector);
}

impl Status {
    /// The carry flag alone.
    #[verifier::allow_in_spec]
    pub fn carry() -> Status
        returns
            (Status { bits: 0b0000_0001 }),
    {
        Status { bits: 0b0000_0001 }
    }

    /// The zero flag alone.
    #[verifier::allow_in_spec]
    pub fn zero() -> Status
        returns
            (Status { bits: 0b0000_0010 }),
    {
        Status { bits: 0b0000_0010 }
    }

    /// The interrupt-disable flag alone.
    #[verifier::allow_in_spec]
    pub fn interrupt() -> Status
        returns
            (Status { bits: 0b0000_0100 }),
    {
        Status { bits: 0b0000_0100 }
    }

    /// The decimal flag alone.
    #[verifier::allow_in_spec]
    pub fn decimal() -> Status
        returns
            (Status { bits: 0b0000_1000 }),
    {
        Status { bits: 0b0000_1000 }
    }

    /// The first break flag alone.
    #[verifier::allow_in_spec]
    pub fn break1() -> Status
        returns
            (Status { bits: 0b0001_0000 }),
    {
        Status { bits: 0b0001_0000 }
    }

    /// The second break flag alone, which power-on sets.
    #[verifier::allow_in_spec]
    pub fn break2() -> Status
        returns
            (Status { bits: 0b0010_0000 }),
    {
        Status { bits: 0b0010_0000 }
    }

    /// The overflow flag alone.
    #[verifier::allow_in_spec]
    pub fn overflow() -> Status
        returns
            (Status { bits: 0b0100_0000 }),
    {
        Status { bits: 0b0100_0000 }
    }

    /// The negative flag alone.
    #[verifier::allow_in_spec]
    pub fn negative() -> Status
        returns
            (Status { bits: 0b1000_0000 }),
    {
        Status { bits: 0b1000_0000 }
    }

    /// No flag.
    #[verifier::allow_in_spec]
    pub fn empty() -> Status
        returns
            (Status { bits: 0 }),
    {
        Status { bits: 0 }
    }

    /// All eight flags.
    #[verifier::allow_in_spec]
    pub fn all() -> Status
        returns
            (Status { bits: 0xFF }),
    {
        Status { bits: 0xFF }
    }

    /// Whether `self` is exactly one of the eight flags.
    pub open spec fn is_flag(self) -> bool {
        self == Status::carry() || self == Status::zero() || self == Status::interrupt()
            || self == Status::decimal() || self == Status::break1() || self == Status::break2()
            || self == Status::overflow() || self == Status::negative()
    }

    /// Whether every flag of `other` is in `self`.
    pub open spec fn has(self, other: Status) -> bool {
        self.bits & other.bits == other.bits
    }

    /// `self` with the flags of `other` put in (`value` true) or taken out
    /// (`value` false).
    pub open spec fn with(self, other: Status, value: bool) -> Status {
        if value {
            Status { bits: self.bits | other.bits }
        } else {
            Status { bits: self.bits & !other.bits }
        }
    }

    /// `self` with the zero and negative flags made to describe `result`:
    /// zero is in exactly if `result` is 0, negative exactly if its bit 7 is
    /// set.
    pub open spec fn with_zero_and_negative(self, result: Byte) -> Status {
        self.with(Status::zero(), result == 0).with(Status::negative(), sign_bit(result))
    }

    /// The status after power-on in a fresh register file: the second break
    /// flag and nothing else.
    pub fn new() -> (status: Self)
        ensures
            status == Status::break2(),
    {
        Status::break2()
    }

    /// The flags as a byte.
    pub fn bits(&self) -> (bits: u8)
        ensures
            bits == self.bits,
    {
        self.bits
    }

    /// The set of flags whose bits are set in `bits`. Every bit is a flag, so
    /// nothing is cut off.
    pub fn from_bits_truncate(bits: u8) -> (status: Self)
        ensures
            status.bits == bits,
    {
        Status { bits }
    }

    pub fn is_empty(&self) -> (r: bool)
        ensures
            r <==> *self == Status::empty(),
    {
        self.bits == 0
    }

    pub fn is_all(&self) -> (r: bool)
        ensures
            r <==> *self == Status::all(),
    {
        self.bits == 0xFF
    }

    /// Whether every flag of `other` is set in `self`.
    pub fn contains(&self, other: Status) -> (r: bool)
        ensures
            r == self.has(other),
    {
        self.bits & other.bits == other.bits
    }

    /// Sets the flags of `other`.
    pub fn insert(&mut self, other: Status)
        ensures
            *final(self) == old(self).with(other, true),
    {
        self.bits = self.bits | other.bits;
    }

    /// Clears the flags of `other`.
    pub fn remove(&mut self, other: Status)
        ensures
            *final(self) == old(self).with(other, false),
    {
        self.bits = self.bits & !other.bits;
    }

    /// Sets the flags of `other` if `value` is true, and clears them if not.
    pub fn set(&mut self, other: Status, value: bool)
        ensures
            *final(self) == old(self).with(other, value),
    {
        if value {
            self.insert(other);
        } else {
            self.remove(other);
        }
    }

    /// The flags that are in `self` or in `other`.
    pub fn union(self, other: Status) -> (r: Status)
        ensures
            r.bits == self.bits | other.bits,
    {
        Status { bits: self.bits | other.bits }
    }

    /// The flags that are in both `self` and `other`.
    pub fn intersection(self, other: Status) -> (r: Status)
        ensures
            r.bits == self.bits & other.bits,
    {
        Status { bits: self.bits & other.bits }
    }

    /// Makes the zero and negative flags describe `result`, the value that an
    /// instruction has just produced. All other flags stay.
    pub fn update_zero_and_negative(&mut self, result: Byte)
        ensures
            *final(self) == old(self).with_zero_and_negative(result),
            final(self).has(Status::zero()) <==> result == 0,
            final(self).has(Status::negative()) <==> result >> 7 == 1,
            final(self).bits & 0b0111_1101 == old(self).bits & 0b0111_1101,
    {
        if result == 0 {
            self.insert(Status::zero());
        } else {
            self.remove(Status::zero());
        }
        if result >> 7 == 1 {
            self.insert(Status::negative());
        } else {
            self.remove(Status::negative());
        }
        proof {
            lemma_sign_bit(result);
            lemma_zero_and_negative(*old(self), result);
        }
    }
}

impl std::ops::BitOr for Status {
    type Output = Status;

    fn bitor(self, rhs: Status) -> (r: Status) {
        Status { bits: self.bits | rhs.bits }
    }
}

impl vstd::std_specs::ops::BitOrSpecImpl for Status {
    open spec fn obeys_bitor_spec() -> bool {
        true
    }

    open spec fn bitor_req(self, rhs: Status) -> bool {
        true
    }

    open spec fn bitor_spec(self, rhs: Status) -> Status {
        Status { bits: self.bits | rhs.bits }
    }
}

impl std::ops::BitAnd for Status {
    type Output = Status;

    fn bitand(self, rhs: Status) -> (r: Status) {
        Status { bits: self.bits & rhs.bits }
    }
}

impl vstd::std_specs::ops::BitAndSpecImpl for Status {
    open spec fn obeys_bitand_spec() -> bool {
        true
    }

    open spec fn bitand_req(self, rhs: Status) -> bool {
        true
    }

    open spec fn bitand_spec(self, rhs: Status) -> Status {
        Status { bits: self.bits & rhs.bits }
    }
}

/// Putting a flag in or taking it out decides whether that flag is set, and
/// changes no other flag.
pub proof fn lemma_with_flag(status: Status, flag: Status, value: bool, other: Status)
    requires
        flag.is_flag(),
        other.is_flag(),
    ensures
        status.with(flag, value).has(flag) == value,
        other != flag ==> status.with(flag, value).has(other) == status.has(other),
{
    let s = status.bits;
    let f = flag.bits;
    let o = other.bits;
    assert(((s | f) & f == f) && !((s & !f) & f == f) && (o != f ==> ((s | f) & o == o) == (s & o
        == o) && ((s & !f) & o == o) == (s & o == o))) by (bit_vector)
        requires
            f == 1 || f == 2 || f == 4 || f == 8 || f == 16 || f == 32 || f == 64 || f == 128,
            o == 1 || o == 2 || o == 4 || o == 8 || o == 16 || o == 32 || o == 64 || o == 128,
    ;
}

/// After the zero and negative flags were made to describe `result`, zero
/// is set exactly if `result` is 0, negative exactly if bit 7 of `result` is
/// set, and the six other flags are as before.
pub proof fn lemma_zero_and_negative(status: Status, result: Byte)
    ensures
        status.with_zero_and_negative(result).has(Status::zero()) <==> result == 0,
        status.with_zero_and_negative(result).has(Status::negative()) <==> sign_bit(result),
        status.with_zero_and_negative(result).bits & 0b0111_1101 == status.bits & 0b0111_1101,
        forall|flag: Status|
            flag.is_flag() && flag != Status::zero() && flag != Status::negative() ==> (
            #[trigger] status.with_zero_and_negative(result).has(flag)) == status.has(flag),
{
    let mid = status.with(Status::zero(), result == 0);
    lemma_with_flag(status, Status::zero(), result == 0, Status::zero());
    lemma_with_flag(mid, Status::negative(), sign_bit(result), Status::zero());
    lemma_with_flag(mid, Status::negative(), sign_bit(result), Status::negative());
    let s = status.bits;
    assert(((s | 2) | 0x80) & 0x7D == s & 0x7D && ((s | 2) & !0x80u8) & 0x7D == s & 0x7D && ((s
        & !2u8) | 0x80) & 0x7D == s & 0x7D && ((s & !2u8) & !0x80u8) & 0x7D == s & 0x7D)
        by (bit_vector);
    assert forall|flag: Status|
        flag.is_flag() && flag != Status::zero() && flag != Status::negative() implies (
    #[trigger] status.with_zero_and_negative(result).has(flag)) == status.has(flag) by {
        lemma_with_flag(status, Status::zero(), result == 0, flag);
        lemma_with_flag(mid, Status::negative(), sign_bit(result), flag);
    }
}

/// The six registers of the 6502.
#[derive(Clone, Copy, Debug, PartialEq, Eq, Structural)]
pub struct Register {
    /// Accumulator.
    pub a: Byte,
    /// Index register X.
    pub x: Byte,
    /// Index register Y.
    pub y: Byte,
    /// Program counter.
    pub pc: Address,
    /// Stack pointer: the stack's next free byte is at `0x0100 + s`.
    pub s: Byte,
    /// Processor status.
    pub p: Status,
}

impl Register {
    /// A register file with every register 0 and only the second break flag
    /// set.
    pub fn new() -> (regs: Self)
        ensures
            regs == (Register { a: 0, x: 0, y: 0, pc: 0, s: 0, p: Status::break2() }),
    {
        Self { a: 0, x: 0, y: 0, pc: 0, s: 0, p: Status::new() }
    }

    /// The carry flag as a number: 1 if it is set, 0 if not.
    pub open spec fn carry_in(self) -> Byte {
        if self.p.has(Status::carry()) {
            1
        } else {
            0
        }
    }

    /// These registers after `value` was put in the accumulator: the zero
    /// and negative flags describe `value`.
    pub open spec fn with_a(self, value: Byte) -> Register {
        Register { a: value, p: self.p.with_zero_and_negative(value), ..self }
    }

    /// These registers after `value` was put in X: the zero and negative
    /// flags describe `value`.
    pub open spec fn with_x(self, value: Byte) -> Register {
        Register { x: value, p: self.p.with_zero_and_negative(value), ..self }
    }

    /// These registers after `value` was put in Y: the zero and negative
    /// flags describe `value`.
    pub open spec fn with_y(self, value: Byte) -> Register {
        Register { y: value, p: self.p.with_zero_and_negative(value), ..self }
    }

    /// These registers with the stack pointer at `s`.
    pub open spec fn with_s(self, s: Byte) -> Register {
        Register { s, ..self }
    }

    /// These registers with the status `p`.
    pub open spec fn with_p(self, p: Status) -> Register {
        Register { p, ..self }
    }

    /// These registers with the program counter at `pc`.
    pub open spec fn with_pc(self, pc: Address) -> Register {
        Register { pc, ..self }
    }

    /// These registers with `flags` set (`value` true) or cleared.
    pub open spec fn with_flag(self, flags: Status, value: bool) -> Register {
        Register { p: self.p.with(flags, value), ..self }
    }

    /// The status after an operation that produced `result` and moved
    /// `carry_out` into the carry flag.
    pub open spec fn status_after(self, carry_out: bool, result: Byte) -> Status {
        self.p.with(Status::carry(), carry_out).with_zero_and_negative(result)
    }

    /// Addition with carry: the accumulator takes the low eight bits of
    /// accumulator + `operand` + carry. Carry is set exactly if that sum is
    /// over 255. Overflow is set exactly if the accumulator and the operand
    /// with the carry added to it (modulo 256) have the same sign, and the
    /// result has the other one.
    pub open spec fn adc(self, operand: Byte) -> Register {
        let sum: int = self.a + operand + self.carry_in();
        let result = (sum % 256) as Byte;
        let addend = ((operand + self.carry_in()) % 256) as Byte;
        let overflow = sign_bit(self.a) == sign_bit(addend) && sign_bit(self.a) != sign_bit(
            result,
        );
        Register {
            a: result,
            p: self.p.with(Status::carry(), sum > 255).with(
                Status::overflow(),
                overflow,
            ).with_zero_and_negative(result),
            ..self
        }
    }

    /// Subtraction with borrow, the borrow being the carry flag inverted:
    /// the accumulator takes the low eight bits of accumulator - `operand` -
    /// borrow. Carry is set exactly if nothing had to be borrowed, that is if
    /// the accumulator is at least `operand` + borrow. The processor
    /// subtracts by adding the operand's complement: overflow is set exactly
    /// if the accumulator and that complement with the carry added to it
    /// (modulo 256) have the same sign, and the result has the other one.
    pub open spec fn sbc(self, operand: Byte) -> Register {
        let borrow: int = 1 - self.carry_in();
        let difference: int = self.a - operand - borrow;
        let result = (difference % 256) as Byte;
        let addend = ((255 - operand + self.carry_in()) % 256) as Byte;
        let overflow = sign_bit(self.a) == sign_bit(addend) && sign_bit(self.a) != sign_bit(
            result,
        );
        Register {
            a: result,
            p: self.p.with(Status::carry(), difference >= 0).with(
                Status::overflow(),
                overflow,
            ).with_zero_and_negative(result),
            ..self
        }
    }

    /// The registers after `register` was compared with `operand`: carry is
    /// set exactly if `register` is at least `operand`; zero and negative
    /// describe their difference modulo 256, which is kept nowhere.
    pub open spec fn compare(self, register: Byte, operand: Byte) -> Register {
        Register {
            p: self.status_after(register >= operand, register.wrapping_sub(operand)),
            ..self
        }
    }

    /// The registers after a bit test of `operand`: negative is its bit 7,
    /// overflow its bit 6, and zero is set exactly if the accumulator and
    /// `operand` have no bit in common.
    pub open spec fn bit_test(self, operand: Byte) -> Register {
        Register {
            p: self.p.with(Status::negative(), sign_bit(operand)).with(
                Status::overflow(),
                operand & 0b0100_0000 != 0,
            ).with(Status::zero(), self.a & operand == 0),
            ..self
        }
    }
}

/// Where the stack keeps the byte that the stack pointer `s` points at: in
/// page 1, at `0x0100 + s`.
#[verifier::allow_in_spec]
pub fn stack_address(s: Byte) -> Address
    returns
        (0x0100 + s) as Address,
{
    0x0100 + (s as Address)
}

/// A branch offset as a word: the offset as a two's-complement number,
/// taken modulo 65536.
#[verifier::allow_in_spec]
pub fn sign_extend(offset: Byte) -> Word
    returns
        (if offset >= 0x80 {
            (0xFF00 + offset) as Word
        } else {
            offset as Word
        }),
{
    if offset >= 0x80 {
        0xFF00 + (offset as Word)
    } else {
        offset as Word
    }
}

/// A shift to the left by one bit: what it makes of `value`, and the bit
/// that it moves out, which goes to the carry flag.
pub open spec fn shift_left(value: Byte) -> (Byte, bool) {
    (value << 1, sign_bit(value))
}

/// A shift to the right by one bit, and the bit that it moves out.
pub open spec fn shift_right(value: Byte) -> (Byte, bool) {
    (value >> 1, value & 1 == 1)
}

/// Rotation to the left through carry: bit 0 takes `carry`.
pub open spec fn rotate_left(value: Byte, carry: bool) -> (Byte, bool) {
    (
        (value << 1) | (if carry {
            1u8
        } else {
            0u8
        }),
        sign_bit(value),
    )
}

/// Rotation to the right through carry: bit 7 takes `carry`.
pub open spec fn rotate_right(value: Byte, carry: bool) -> (Byte, bool) {
    (
        (value >> 1) | (if carry {
            0b1000_0000u8
        } else {
            0u8
        }),
        value & 1 == 1,
    )
}

} // verus!
