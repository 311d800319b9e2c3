//! The 6502 interpreter: registers, a memory, and the instructions that
//! work on them.

pub mod laws;
pub mod memory;
pub mod opcode;
pub mod register;

use vstd::prelude::*;
use crate::cpu::memory::{join_reads, Memory};
use crate::cpu::opcode::{opcode_table, AddressingMode, Mnemonic, OpcodeInfo};
use crate::cpu::register::{
    rotate_left, rotate_right, shift_left, shift_right, sign_extend, stack_address, Register,
    Status,
};
use crate::fault::{Fatal, Feature};
use crate::types::{high_byte, low_byte, next_in_page, widen, word, Address, Byte, Word};

verus! {

/// Whether the interpreter goes on after an instruction.
#[derive(Clone, Copy, Debug, PartialEq, Eq, Structural)]
pub enum Flow {
    /// The next instruction is due.
    Continue,
    /// The program has ended.
    Halt,
}

/// A 6502 with the memory that it works on.
pub struct Cpu<M: Memory> {
    pub regs: Register,
    pub mem: M,
}

/// That `after` and `r` are what is left of the machine `before` by an
/// operation that `want` describes: on success the machine that `want`
/// holds; on a fault that fault, with the machine as it was.
pub open spec fn settled<M: Memory>(
    want: Result<Cpu<M>, Fatal>,
    before: Cpu<M>,
    after: Cpu<M>,
    r: Result<(), Fatal>,
) -> bool {
    match want {
        Ok(next) => r is Ok && after == next,
        Err(e) => r == Err::<(), Fatal>(e) && after == before,
    }
}

/// Whether the instruction `name` can be dispatched with the addressing
/// mode `mode`. The shifts and rotations work on the accumulator or on
/// memory and so need an operand; the instructions that have no operand take
/// no other mode than `Implied`; every other instruction is dispatched with
/// whatever mode it was decoded with.
pub open spec fn accepts(name: Mnemonic, mode: AddressingMode) -> bool {
    match name {
        Mnemonic::Asl | Mnemonic::Lsr | Mnemonic::Rol | Mnemonic::Ror => mode
            != AddressingMode::Implied,
        Mnemonic::Clc
        | Mnemonic::Cld
        | Mnemonic::Cli
        | Mnemonic::Clv
        | Mnemonic::Dex
        | Mnemonic::Dey
        | Mnemonic::Inx
        | Mnemonic::Iny
        | Mnemonic::Pha
        | Mnemonic::Php
        | Mnemonic::Pla
        | Mnemonic::Plp
        | Mnemonic::Rti
        | Mnemonic::Rts
        | Mnemonic::Sec
        | Mnemonic::Sed
        | Mnemonic::Sei
        | Mnemonic::Tax
        | Mnemonic::Tay
        | Mnemonic::Tsx
        | Mnemonic::Txa
        | Mnemonic::Txs
        | Mnemonic::Tya => mode == AddressingMode::Implied,
        _ => true,
    }
}

/// With `Continue` beside it, the machine that an instruction leaves.
pub open spec fn proceed<M: Memory>(next: Result<Cpu<M>, Fatal>) -> Result<(Cpu<M>, Flow), Fatal> {
    match next {
        Ok(cpu) => Ok((cpu, Flow::Continue)),
        Err(e) => Err(e),
    }
}

// The processor as a mathematical object: what each addressing mode
// addresses and what each instruction makes of the machine.
impl<M: Memory> Cpu<M> {
    /// This machine with other registers.
    pub open spec fn with_regs(self, regs: Register) -> Self {
        Cpu { regs, mem: self.mem }
    }

    /// The little-endian word at `addr`: low byte at `addr`, high byte at
    /// the address after it, which is 0 after `0xFFFF`.
    pub open spec fn peek_word(self, addr: Address) -> Result<Word, Fatal> {
        join_reads(self.mem.peek(addr), self.mem.peek(addr.wrapping_add(1)))
    }

    /// Absolute addressing: the word at the program counter, with `index`
    /// added to it modulo 65536.
    pub open spec fn absolute_with_index(self, index: Byte) -> Result<Address, Fatal> {
        match self.peek_word(self.regs.pc) {
            Ok(base) => Ok(base.wrapping_add(widen(index))),
            Err(e) => Err(e),
        }
    }

    /// Indirect addressing: the word that the word at the program counter
    /// points at. Its high byte is taken from the pointer's own page: where
    /// the pointer is the last byte of a page, from the first byte of that
    /// page.
    pub open spec fn indirect(self) -> Result<Address, Fatal> {
        match self.peek_word(self.regs.pc) {
            Ok(pointer) => join_reads(
                self.mem.peek(pointer),
                self.mem.peek(next_in_page(pointer)),
            ),
            Err(e) => Err(e),
        }
    }

    /// Indexed indirect addressing: the byte at the program counter, with
    /// `pre` added to it modulo 256, is the address of a word in the zero
    /// page; that word, with `post` added to it modulo 65536, is the address.
    pub open spec fn indirect_with_index(self, pre: Byte, post: Byte) -> Result<Address, Fatal> {
        match self.mem.peek(self.regs.pc) {
            Ok(base) => match self.peek_word(widen(base.wrapping_add(pre))) {
                Ok(pointer) => Ok(pointer.wrapping_add(widen(post))),
                Err(e) => Err(e),
            },
            Err(e) => Err(e),
        }
    }

    /// Relative addressing: the address after the operand byte, moved by
    /// that byte taken as a two's-complement offset, modulo 65536.
    pub open spec fn relative(self) -> Result<Address, Fatal> {
        match self.mem.peek(self.regs.pc) {
            Ok(offset) => Ok(self.regs.pc.wrapping_add(1).wrapping_add(sign_extend(offset))),
            Err(e) => Err(e),
        }
    }

    /// Zero page addressing: the byte at the program counter, with `index`
    /// added to it modulo 256, so that the address stays in the zero page.
    pub open spec fn zero_page_with_index(self, index: Byte) -> Result<Address, Fatal> {
        match self.mem.peek(self.regs.pc) {
            Ok(base) => Ok(widen(base.wrapping_add(index))),
            Err(e) => Err(e),
        }
    }

    /// The address that an instruction with addressing mode `mode` works
    /// on, when the program counter is at its first operand byte. Where the
    /// mode has no address, it is 0.
    pub open spec fn effective_address(self, mode: AddressingMode) -> Result<Address, Fatal> {
        match mode {
            AddressingMode::Accumulator | AddressingMode::Implied => Ok(0),
            AddressingMode::Absolute => self.absolute_with_index(0),
            AddressingMode::AbsoluteX => self.absolute_with_index(self.regs.x),
            AddressingMode::AbsoluteY => self.absolute_with_index(self.regs.y),
            AddressingMode::Immediate => Ok(self.regs.pc),
            AddressingMode::Indirect => self.indirect(),
            AddressingMode::IndirectX => self.indirect_with_index(self.regs.x, 0),
            AddressingMode::IndirectY => self.indirect_with_index(0, self.regs.y),
            AddressingMode::Relative => self.relative(),
            AddressingMode::ZeroPage => self.zero_page_with_index(0),
            AddressingMode::ZeroPageX => self.zero_page_with_index(self.regs.x),
            AddressingMode::ZeroPageY => self.zero_page_with_index(self.regs.y),
        }
    }

    /// The machine after the operand fetch of an instruction whose decode
    /// record is `info`: the program counter has moved over the operand
    /// bytes.
    pub open spec fn past_operand(self, info: OpcodeInfo) -> Self {
        self.with_regs(
            self.regs.with_pc(self.regs.pc.wrapping_add(widen(info.byte).wrapping_sub(1))),
        )
    }

    /// The machine after an instruction that reads its operand at `addr`
    /// and leaves the registers `then(operand)`.
    pub open spec fn reading(self, addr: Address, then: spec_fn(Byte) -> Register) -> Result<
        Self,
        Fatal,
    > {
        match self.mem.peek(addr) {
            Ok(operand) => Ok(self.with_regs(then(operand))),
            Err(e) => Err(e),
        }
    }

    /// The machine after an instruction that writes `value` to `addr` and
    /// leaves the registers `regs`.
    pub open spec fn writing(self, addr: Address, value: Byte, regs: Register) -> Result<
        Self,
        Fatal,
    > {
        match self.mem.poke(addr, value) {
            Ok(mem) => Ok(Cpu { regs, mem }),
            Err(e) => Err(e),
        }
    }

    /// The machine after a shift or rotation of the byte at `addr`: `change`
    /// gives the new byte and the bit moved out, which goes to carry; zero
    /// and negative describe the new byte.
    pub open spec fn shifting(self, addr: Address, change: spec_fn(Byte) -> (Byte, bool)) -> Result<
        Self,
        Fatal,
    > {
        match self.mem.peek(addr) {
            Ok(value) => self.writing(
                addr,
                change(value).0,
                self.regs.with_p(self.regs.status_after(change(value).1, change(value).0)),
            ),
            Err(e) => Err(e),
        }
    }

    /// The machine after a shift or rotation of the accumulator.
    pub open spec fn shifting_a(self, change: spec_fn(Byte) -> (Byte, bool)) -> Self {
        self.with_regs(
            Register {
                a: change(self.regs.a).0,
                p: self.regs.status_after(change(self.regs.a).1, change(self.regs.a).0),
                ..self.regs
            },
        )
    }

    /// The machine after the byte at `addr` was replaced by `change` of it:
    /// zero and negative describe the new byte.
    pub open spec fn stepping(self, addr: Address, change: spec_fn(Byte) -> Byte) -> Result<
        Self,
        Fatal,
    > {
        match self.mem.peek(addr) {
            Ok(value) => self.writing(
                addr,
                change(value),
                self.regs.with_p(self.regs.p.with_zero_and_negative(change(value))),
            ),
            Err(e) => Err(e),
        }
    }

    /// The machine after a branch to `addr` that is taken exactly if
    /// `taken`.
    pub open spec fn branching(self, addr: Address, taken: bool) -> Self {
        if taken {
            self.with_regs(self.regs.with_pc(addr))
        } else {
            self
        }
    }

    /// The machine after `value` was pushed: it is written where the stack
    /// pointer points, and the stack pointer goes down by one, modulo 256.
    pub open spec fn pushing(self, value: Byte) -> Result<Self, Fatal> {
        self.writing(
            stack_address(self.regs.s),
            value,
            self.regs.with_s(self.regs.s.wrapping_sub(1)),
        )
    }

    /// The byte that a pull gives: the byte above the one that the stack
    /// pointer points at.
    pub open spec fn pulled(self) -> Result<Byte, Fatal> {
        self.mem.peek(stack_address(self.regs.s.wrapping_add(1)))
    }

    /// The machine after a pull that leaves the registers `then(byte)`,
    /// where `then` is given the registers with the stack pointer already
    /// moved up by one, modulo 256.
    pub open spec fn pulling(self, then: spec_fn(Register, Byte) -> Register) -> Result<
        Self,
        Fatal,
    > {
        match self.pulled() {
            Ok(value) => Ok(
                self.with_regs(then(self.regs.with_s(self.regs.s.wrapping_add(1)), value)),
            ),
            Err(e) => Err(e),
        }
    }

    /// What the instruction `name` makes of the machine when it is
    /// dispatched with the mode `mode` and the effective address `addr`.
    /// It is stated here for the instructions that change the machine and for
    /// `Nop`; `Brk` and the instructions that are not run change nothing.
    pub open spec fn instruction(
        self,
        name: Mnemonic,
        mode: AddressingMode,
        addr: Address,
    ) -> Result<Self, Fatal> {
        let regs = self.regs;
        let p = self.regs.p;
        let carry = p.has(Status::carry());
        match name {
            Mnemonic::Adc => self.reading(addr, |m: Byte| regs.adc(m)),
            Mnemonic::And => self.reading(addr, |m: Byte| regs.with_a(regs.a & m)),
            Mnemonic::Asl => if mode == AddressingMode::Accumulator {
                Ok(self.shifting_a(|v: Byte| shift_left(v)))
            } else {
                self.shifting(addr, |v: Byte| shift_left(v))
            },
            Mnemonic::Bcc => Ok(self.branching(addr, !p.has(Status::carry()))),
            Mnemonic::Bcs => Ok(self.branching(addr, p.has(Status::carry()))),
            Mnemonic::Beq => Ok(self.branching(addr, p.has(Status::zero()))),
            Mnemonic::Bit => self.reading(addr, |m: Byte| regs.bit_test(m)),
            Mnemonic::Bmi => Ok(self.branching(addr, p.has(Status::negative()))),
            Mnemonic::Bne => Ok(self.branching(addr, !p.has(Status::zero()))),
            Mnemonic::Bpl => Ok(self.branching(addr, !p.has(Status::negative()))),
            Mnemonic::Bvc => Ok(self.branching(addr, !p.has(Status::overflow()))),
            Mnemonic::Bvs => Ok(self.branching(addr, p.has(Status::overflow()))),
            Mnemonic::Clc => Ok(self.with_regs(regs.with_flag(Status::carry(), false))),
            Mnemonic::Cld => Ok(self.with_regs(regs.with_flag(Status::decimal(), false))),
            Mnemonic::Cli => Ok(self.with_regs(regs.with_flag(Status::interrupt(), false))),
            Mnemonic::Clv => Ok(self.with_regs(regs.with_flag(Status::overflow(), false))),
            Mnemonic::Cmp => self.reading(addr, |m: Byte| regs.compare(regs.a, m)),
            Mnemonic::Cpx => self.reading(addr, |m: Byte| regs.compare(regs.x, m)),
            Mnemonic::Cpy => self.reading(addr, |m: Byte| regs.compare(regs.y, m)),
            Mnemonic::Dec => self.stepping(addr, |v: Byte| v.wrapping_sub(1)),
            Mnemonic::Dex => Ok(self.with_regs(regs.with_x(regs.x.wrapping_sub(1)))),
            Mnemonic::Dey => Ok(self.with_regs(regs.with_y(regs.y.wrapping_sub(1)))),
            Mnemonic::Eor => self.reading(addr, |m: Byte| regs.with_a(regs.a ^ m)),
            Mnemonic::Inc => self.stepping(addr, |v: Byte| v.wrapping_add(1)),
            Mnemonic::Inx => Ok(self.with_regs(regs.with_x(regs.x.wrapping_add(1)))),
            Mnemonic::Iny => Ok(self.with_regs(regs.with_y(regs.y.wrapping_add(1)))),
            Mnemonic::Jmp => Ok(self.with_regs(regs.with_pc(addr))),
            Mnemonic::Lda => self.reading(addr, |m: Byte| regs.with_a(m)),
            Mnemonic::Ldx => self.reading(addr, |m: Byte| regs.with_x(m)),
            Mnemonic::Ldy => self.reading(addr, |m: Byte| regs.with_y(m)),
            Mnemonic::Lsr => if mode == AddressingMode::Accumulator {
                Ok(self.shifting_a(|v: Byte| shift_right(v)))
            } else {
                self.shifting(addr, |v: Byte| shift_right(v))
            },
            Mnemonic::Ora => self.reading(addr, |m: Byte| regs.with_a(regs.a | m)),
            Mnemonic::Pha => self.pushing(regs.a),
            Mnemonic::Php => self.pushing(p.bits),
            Mnemonic::Pla => self.pulling(|r: Register, v: Byte| r.with_a(v)),
            Mnemonic::Plp => self.pulling(|r: Register, v: Byte| r.with_p(Status { bits: v })),
            Mnemonic::Rol => if mode == AddressingMode::Accumulator {
                Ok(self.shifting_a(|v: Byte| rotate_left(v, carry)))
            } else {
                self.shifting(addr, |v: Byte| rotate_left(v, carry))
            },
            Mnemonic::Ror => if mode == AddressingMode::Accumulator {
                Ok(self.shifting_a(|v: Byte| rotate_right(v, carry)))
            } else {
                self.shifting(addr, |v: Byte| rotate_right(v, carry))
            },
            Mnemonic::Sbc => self.reading(addr, |m: Byte| regs.sbc(m)),
            Mnemonic::Sec => Ok(self.with_regs(regs.with_flag(Status::carry(), true))),
            Mnemonic::Sed => Ok(self.with_regs(regs.with_flag(Status::decimal(), true))),
            Mnemonic::Sei => Ok(self.with_regs(regs.with_flag(Status::interrupt(), true))),
            Mnemonic::Sta => self.writing(addr, regs.a, regs),
            Mnemonic::Stx => self.writing(addr, regs.x, regs),
            Mnemonic::Sty => self.writing(addr, regs.y, regs),
            Mnemonic::Tax => Ok(self.with_regs(regs.with_x(regs.a))),
            Mnemonic::Tay => Ok(self.with_regs(regs.with_y(regs.a))),
            Mnemonic::Tsx => Ok(self.with_regs(regs.with_x(regs.s))),
            Mnemonic::Txa => Ok(self.with_regs(regs.with_a(regs.x))),
            Mnemonic::Txs => Ok(self.with_regs(regs.with_s(regs.x))),
            Mnemonic::Tya => Ok(self.with_regs(regs.with_a(regs.y))),
            Mnemonic::Brk | Mnemonic::Jsr | Mnemonic::Nop | Mnemonic::Rti | Mnemonic::Rts => Ok(
                self,
            ),
        }
    }

    /// What the dispatch of the instruction `name` with the mode `mode` and
    /// the effective address `addr` comes to: a mode that the instruction
    /// does not have is a fault, `Brk` halts, the subroutine and interrupt
    /// instructions are not run, and every other instruction changes the
    /// machine as `instruction` says.
    pub open spec fn execute_spec(
        self,
        name: Mnemonic,
        mode: AddressingMode,
        addr: Address,
    ) -> Result<(Self, Flow), Fatal> {
        if !accepts(name, mode) {
            Err(Fatal::IllegalModeForMnemonic(name, mode))
        } else {
            match name {
                Mnemonic::Brk => Ok((self, Flow::Halt)),
                Mnemonic::Jsr | Mnemonic::Rti | Mnemonic::Rts => Err(
                    Fatal::Unimplemented(Feature::Instruction(name)),
                ),
                _ => proceed(self.instruction(name, mode, addr)),
            }
        }
    }

    /// One instruction: the opcode at the program counter is fetched and
    /// decoded, the program counter moves over the instruction, and the
    /// instruction is dispatched with its effective address.
    pub open spec fn step_spec(self) -> Result<(Self, Flow), Fatal> {
        match self.mem.peek(self.regs.pc) {
            Ok(opcode) => match opcode_table(opcode) {
                Some(info) => {
                    let fetched = self.with_regs(
                        self.regs.with_pc(self.regs.pc.wrapping_add(1)),
                    );
                    match fetched.effective_address(info.mode) {
                        Ok(addr) => fetched.past_operand(info).execute_spec(
                            info.name,
                            info.mode,
                            addr,
                        ),
                        Err(e) => Err(e),
                    }
                },
                None => Err(Fatal::IllegalOpcode(opcode)),
            },
            Err(e) => Err(e),
        }
    }

    /// The machine after at most `limit` instructions, and how the run
    /// ended: `Halt` after a `Brk`, the fault of the instruction that could
    /// not be run, with the machine as it was before that instruction, or
    /// `Continue` after `limit` instructions with none of the two.
    pub open spec fn run_spec(self, limit: nat) -> (Self, Result<Flow, Fatal>)
        decreases limit,
    {
        if limit == 0 {
            (self, Ok(Flow::Continue))
        } else {
            match self.step_spec() {
                Ok((next, Flow::Continue)) => next.run_spec((limit - 1) as nat),
                Ok((next, Flow::Halt)) => (next, Ok(Flow::Halt)),
                Err(e) => (self, Err(e)),
            }
        }
    }

    /// The machine after power-on: the accumulator and the index registers
    /// are 0, the stack pointer is `0xFD`, the interrupt-disable flag and
    /// the two break flags are set and no other, and the program counter
    /// holds the reset vector, the word at `0xFFFC`.
    pub open spec fn powered_on(self) -> Result<Self, Fatal> {
        match self.peek_word(0xFFFC) {
            Ok(pc) => Ok(
                self.with_regs(
                    Register { a: 0, x: 0, y: 0, pc, s: 0xFD, p: Status { bits: 0b0011_0100 } },
                ),
            ),
            Err(e) => Err(e),
        }
    }

    /// The machine after a reset: the program counter holds the reset
    /// vector, the stack pointer has gone down by 3 modulo 256, and the
    /// interrupt-disable flag is set. Everything else stays.
    pub open spec fn reset_spec(self) -> Result<Self, Fatal> {
        match self.peek_word(0xFFFC) {
            Ok(pc) => Ok(
                self.with_regs(
                    Register {
                        pc,
                        s: self.regs.s.wrapping_sub(3),
                        p: self.regs.p.with(Status::interrupt(), true),
                        ..self.regs
                    },
                ),
            ),
            Err(e) => Err(e),
        }
    }
}

impl<M: Memory> Cpu<M> {
    /// A processor on the memory `mem`, with fresh registers.
    pub fn new(mem: M) -> (cpu: Self)
        ensures
            cpu.mem == mem,
            cpu.regs == (Register { a: 0, x: 0, y: 0, pc: 0, s: 0, p: Status::break2() }),
    {
        Self { regs: Register::new(), mem }
    }

    /// Reads the opcode at the program counter and moves the program
    /// counter past it.
    pub fn fetch_opcode(&mut self) -> (r: Result<Byte, Fatal>)
        ensures
            r == old(self).mem.peek(old(self).regs.pc),
            r is Ok ==> *final(self) == old(self).with_regs(
                old(self).regs.with_pc(old(self).regs.pc.wrapping_add(1)),
            ),
            r is Err ==> *final(self) == *old(self),
    {
        let opcode: Byte = self.mem.read_byte(self.regs.pc)?;
        self.regs.pc = self.regs.pc.wrapping_add(1);
        Ok(opcode)
    }

    /// Computes the effective address of the instruction whose decode
    /// record is `info`, with the program counter at the instruction's first
    /// operand byte, and moves the program counter past the operand.
    pub fn fetch_address(&mut self, info: &OpcodeInfo) -> (r: Result<
        (Address, AddressingMode),
        Fatal,
    >)
        ensures
            match old(self).effective_address(info.mode) {
                Ok(addr) => r == Ok::<(Address, AddressingMode), Fatal>((addr, info.mode))
                    && *final(self) == old(self).past_operand(*info),
                Err(e) => r == Err::<(Address, AddressingMode), Fatal>(e) && *final(self) == *old(
                    self,
                ),
            },
    {
        let address: Address = match info.mode {
            AddressingMode::Accumulator | AddressingMode::Implied => 0,
            AddressingMode::Absolute => self.fetch_absolute_with_index(0)?,
            AddressingMode::AbsoluteX => self.fetch_absolute_with_index(self.regs.x)?,
            AddressingMode::AbsoluteY => self.fetch_absolute_with_index(self.regs.y)?,
            AddressingMode::Immediate => self.fetch_immediate(),
            AddressingMode::Indirect => self.fetch_indirect()?,
            AddressingMode::IndirectX => self.fetch_indirect_with_index(self.regs.x, 0)?,
            AddressingMode::IndirectY => self.fetch_indirect_with_index(0, self.regs.y)?,
            AddressingMode::Relative => self.fetch_relative()?,
            AddressingMode::ZeroPage => self.fetch_zero_page_with_index(0)?,
            AddressingMode::ZeroPageX => self.fetch_zero_page_with_index(self.regs.x)?,
            AddressingMode::ZeroPageY => self.fetch_zero_page_with_index(self.regs.y)?,
        };
        self.regs.pc = self.regs.pc.wrapping_add(widen(info.byte).wrapping_sub(1));
        Ok((address, info.mode))
    }

    /// The address that the word at the program counter holds, with
    /// `index` added to it.
    pub fn fetch_absolute_with_index(&self, index: Byte) -> (r: Result<Address, Fatal>)
        ensures
            r == self.absolute_with_index(index),
    {
        let base: Address = self.mem.read_word(self.regs.pc)?;
        Ok(base.wrapping_add(widen(index)))
    }

    /// The address of the operand byte itself.
    pub fn fetch_immediate(&self) -> (addr: Address)
        ensures
            addr == self.regs.pc,
    {
        self.regs.pc
    }

    /// The address held by the word that the operand points at, its high
    /// byte taken from the pointer's own page.
    pub fn fetch_indirect(&self) -> (r: Result<Address, Fatal>)
        ensures
            r == self.indirect(),
    {
        let pointer: Address = self.mem.read_word(self.regs.pc)?;
        let lsb: Byte = self.mem.read_byte(pointer)?;
        let msb: Byte = self.mem.read_byte(next_in_page(pointer))?;
        Ok(word(lsb, msb))
    }

    /// The address held by the zero page word at the operand byte plus
    /// `msb_index`, with `lsb_index` added to it.
    pub fn fetch_indirect_with_index(&self, msb_index: Byte, lsb_index: Byte) -> (r: Result<
        Address,
        Fatal,
    >)
        ensures
            r == self.indirect_with_index(msb_index, lsb_index),
    {
        let base: Byte = self.mem.read_byte(self.regs.pc)?;
        let pointer: Address = self.mem.read_word(widen(base.wrapping_add(msb_index)))?;
        Ok(pointer.wrapping_add(widen(lsb_index)))
    }

    /// The target of a branch: the address after the operand byte, moved by
    /// the operand as a signed offset.
    pub fn fetch_relative(&self) -> (r: Result<Address, Fatal>)
        ensures
            r == self.relative(),
    {
        let offset: Byte = self.mem.read_byte(self.regs.pc)?;
        Ok(self.regs.pc.wrapping_add(1).wrapping_add(sign_extend(offset)))
    }

    /// The zero page address that the operand byte plus `index` gives.
    pub fn fetch_zero_page_with_index(&self, index: Byte) -> (r: Result<Address, Fatal>)
        ensures
            r == self.zero_page_with_index(index),
    {
        let base: Byte = self.mem.read_byte(self.regs.pc)?;
        Ok(widen(base.wrapping_add(index)))
    }

    /// Brings the registers to their state after power-on and loads the
    /// program counter from the reset vector.
    pub fn power_on(&mut self) -> (r: Result<(), Fatal>)
        ensures
            settled(old(self).powered_on(), *old(self), *final(self), r),
            r is Ok ==> final(self).regs.p.has(Status::break2()),
    {
        let pc: Address = self.mem.read_word(0xFFFC)?;
        self.regs.a = 0x00;
        self.regs.x = 0x00;
        self.regs.y = 0x00;
        self.regs.pc = pc;
        self.regs.s = 0xFD;
        self.regs.p.remove(Status::all());
        self.regs.p.insert(Status::interrupt() | Status::break1() | Status::break2());
        proof {
            let p = old(self).regs.p.bits;
            assert((p & !0xFFu8) | ((0b0000_0100u8 | 0b0001_0000u8) | 0b0010_0000u8)
                == 0b0011_0100u8 && 0b0011_0100u8 & 0b0010_0000u8 == 0b0010_0000u8)
                by (bit_vector);
        }
        Ok(())
    }

    /// Loads the program counter from the reset vector, takes 3 off the
    /// stack pointer and sets the interrupt-disable flag.
    pub fn reset(&mut self) -> (r: Result<(), Fatal>)
        ensures
            settled(old(self).reset_spec(), *old(self), *final(self), r),
    {
        let pc: Address = self.mem.read_word(0xFFFC)?;
        self.regs.pc = pc;
        self.regs.s = self.regs.s.wrapping_sub(3);
        self.regs.p.insert(Status::interrupt());
        Ok(())
    }

    /// Jumps to `addr` if `success` holds.
    pub fn branch(&mut self, addr: Address, success: bool)
        ensures
            *final(self) == old(self).branching(addr, success),
    {
        if success {
            self.regs.pc = addr;
        }
    }

    /// Pushes `value` on the stack.
    pub fn push_byte(&mut self, value: Byte) -> (r: Result<(), Fatal>)
        ensures
            settled(old(self).pushing(value), *old(self), *final(self), r),
    {
        self.mem.write_byte(stack_address(self.regs.s), value)?;
        self.regs.s = self.regs.s.wrapping_sub(1);
        Ok(())
    }

    /// Pulls a byte from the stack.
    pub fn pull_byte(&mut self) -> (r: Result<Byte, Fatal>)
        ensures
            r == old(self).pulled(),
            r is Ok ==> *final(self) == old(self).with_regs(
                old(self).regs.with_s(old(self).regs.s.wrapping_add(1)),
            ),
            r is Err ==> *final(self) == *old(self),
    {
        let value: Byte = self.mem.read_byte(stack_address(self.regs.s.wrapping_add(1)))?;
        self.regs.s = self.regs.s.wrapping_add(1);
        Ok(value)
    }

    /// Pushes a word on the stack, its high byte first, so that the low
    /// byte is the first to be pulled. Where the second push fails, the
    /// first has been made.
    pub fn push_word(&mut self, value: Word) -> (r: Result<(), Fatal>)
        ensures
            match old(self).pushing(high_byte(value)) {
                Ok(mid) => match mid.pushing(low_byte(value)) {
                    Ok(next) => r is Ok && *final(self) == next,
                    Err(e) => r == Err::<(), Fatal>(e) && *final(self) == mid,
                },
                Err(e) => r == Err::<(), Fatal>(e) && *final(self) == *old(self),
            },
    {
        self.push_byte(high_byte(value))?;
        self.push_byte(low_byte(value))
    }

    /// Pulls a word from the stack, its low byte first. Where the second
    /// pull fails, the first has been made.
    pub fn pull_word(&mut self) -> (r: Result<Word, Fatal>)
        ensures
            match old(self).pulled() {
                Ok(lsb) => {
                    let mid = old(self).with_regs(
                        old(self).regs.with_s(old(self).regs.s.wrapping_add(1)),
                    );
                    match mid.pulled() {
                        Ok(msb) => r == Ok::<Word, Fatal>(word(lsb, msb)) && *final(self)
                            == mid.with_regs(mid.regs.with_s(mid.regs.s.wrapping_add(1))),
                        Err(e) => r == Err::<Word, Fatal>(e) && *final(self) == mid,
                    }
                },
                Err(e) => r == Err::<Word, Fatal>(e) && *final(self) == *old(self),
            },
    {
        let lsb: Byte = self.pull_byte()?;
        let msb: Byte = self.pull_byte()?;
        Ok(word(lsb, msb))
    }

    /// Adds the byte at `addr` and the carry to the accumulator.
    pub fn adc(&mut self, addr: Address) -> (r: Result<(), Fatal>)
        ensures
            settled(
                old(self).reading(addr, |m: Byte| old(self).regs.adc(m)),
                *old(self),
                *final(self),
                r,
            ),
    {
        let operand: Byte = self.mem.read_byte(addr)?;
        let carry: Word = if self.regs.p.contains(Status::carry()) {
            1
        } else {
            0
        };
        let addend: Word = widen(operand) + carry;
        let sum: Word = widen(self.regs.a) + addend;
        let result: Byte = low_byte(sum);
        let is_carry = sum > 0xFF;
        let is_overflow = (self.regs.a >= 0x80) == (low_byte(addend) >= 0x80) && (self.regs.a
            >= 0x80) != (result >= 0x80);

        self.regs.a = result;

        self.regs.p.set(Status::carry(), is_carry);
        self.regs.p.set(Status::overflow(), is_overflow);
        self.regs.p.update_zero_and_negative(result);
        Ok(())
    }

    /// Loads the accumulator from `addr`.
    pub fn lda(&mut self, addr: Address) -> (r: Result<(), Fatal>)
        ensures
            settled(
                old(self).reading(addr, |m: Byte| old(self).regs.with_a(m)),
                *old(self),
                *final(self),
                r,
            ),
    {
        let operand: Byte = self.mem.read_byte(addr)?;
        self.regs.a = operand;
        self.regs.p.update_zero_and_negative(operand);
        Ok(())
    }

    /// Stores the accumulator at `addr`.
    pub fn sta(&mut self, addr: Address) -> (r: Result<(), Fatal>)
        ensures
            settled(
                old(self).writing(addr, old(self).regs.a, old(self).regs),
                *old(self),
                *final(self),
                r,
            ),
    {
        self.mem.write_byte(addr, self.regs.a)
    }

    /// Shifts the byte at `addr` to the left.
    pub fn asl(&mut self, addr: Address) -> (r: Result<(), Fatal>)
        ensures
            settled(
                old(self).shifting(addr, |v: Byte| shift_left(v)),
                *old(self),
                *final(self),
                r,
            ),
    {
        let value: Byte = self.mem.read_byte(addr)?;
        let is_carry = value >= 0x80;
        let result: Byte = value << 1;
        self.mem.write_byte(addr, result)?;

        self.regs.p.set(Status::carry(), is_carry);
        self.regs.p.update_zero_and_negative(result);
        Ok(())
    }

    /// Shifts the accumulator to the left.
    pub fn asl_acc(&mut self)
        ensures
            *final(self) == old(self).shifting_a(|v: Byte| shift_left(v)),
    {
        let is_carry = self.regs.a >= 0x80;
        self.regs.a = self.regs.a << 1;

        self.regs.p.set(Status::carry(), is_carry);
        self.regs.p.update_zero_and_negative(self.regs.a);
    }
}

impl<M: Memory> Cpu<M> {
    /// Ands the accumulator with the byte at `addr`.
    pub fn and(&mut self, addr: Address) -> (r: Result<(), Fatal>)
        ensures
            settled(
                old(self).reading(addr, |m: Byte| old(self).regs.with_a(old(self).regs.a & m)),
                *old(self),
                *final(self),
                r,
            ),
    {
        let operand: Byte = self.mem.read_byte(addr)?;
        self.regs.a = self.regs.a & operand;
        self.regs.p.update_zero_and_negative(self.regs.a);
        Ok(())
    }

    /// Branches to `addr` if carry is clear.
    pub fn bcc(&mut self, addr: Address)
        ensures
            *final(self) == old(self).branching(addr, !old(self).regs.p.has(Status::carry())),
    {
        self.branch(addr, !self.regs.p.contains(Status::carry()));
    }

    /// Branches to `addr` if carry is set.
    pub fn bcs(&mut self, addr: Address)
        ensures
            *final(self) == old(self).branching(addr, old(self).regs.p.has(Status::carry())),
    {
        self.branch(addr, self.regs.p.contains(Status::carry()));
    }

    /// Branches to `addr` if zero is set.
    pub fn beq(&mut self, addr: Address)
        ensures
            *final(self) == old(self).branching(addr, old(self).regs.p.has(Status::zero())),
    {
        self.branch(addr, self.regs.p.contains(Status::zero()));
    }

    /// Tests the bits of the byte at `addr` against the accumulator.
    pub fn bit(&mut self, addr: Address) -> (r: Result<(), Fatal>)
        ensures
            settled(
                old(self).reading(addr, |m: Byte| old(self).regs.bit_test(m)),
                *old(self),
                *final(self),
                r,
            ),
    {
        let operand: Byte = self.mem.read_byte(addr)?;
        self.regs.p.set(Status::negative(), operand >= 0x80);
        self.regs.p.set(Status::overflow(), operand & 0b0100_0000 != 0);
        self.regs.p.set(Status::zero(), self.regs.a & operand == 0);
        Ok(())
    }

    /// Branches to `addr` if negative is set.
    pub fn bmi(&mut self, addr: Address)
        ensures
            *final(self) == old(self).branching(addr, old(self).regs.p.has(Status::negative())),
    {
        self.branch(addr, self.regs.p.contains(Status::negative()));
    }

    /// Branches to `addr` if zero is clear.
    pub fn bne(&mut self, addr: Address)
        ensures
            *final(self) == old(self).branching(addr, !old(self).regs.p.has(Status::zero())),
    {
        self.branch(addr, !self.regs.p.contains(Status::zero()));
    }

    /// Branches to `addr` if negative is clear.
    pub fn bpl(&mut self, addr: Address)
        ensures
            *final(self) == old(self).branching(addr, !old(self).regs.p.has(Status::negative())),
    {
        self.branch(addr, !self.regs.p.contains(Status::negative()));
    }

    /// Branches to `addr` if overflow is clear.
    pub fn bvc(&mut self, addr: Address)
        ensures
            *final(self) == old(self).branching(addr, !old(self).regs.p.has(Status::overflow())),
    {
        self.branch(addr, !self.regs.p.contains(Status::overflow()));
    }

    /// Branches to `addr` if overflow is set.
    pub fn bvs(&mut self, addr: Address)
        ensures
            *final(self) == old(self).branching(addr, old(self).regs.p.has(Status::overflow())),
    {
        self.branch(addr, self.regs.p.contains(Status::overflow()));
    }

    /// Clears carry.
    pub fn clc(&mut self)
        ensures
            *final(self) == old(self).with_regs(
                old(self).regs.with_flag(Status::carry(), false),
            ),
    {
        self.regs.p.remove(Status::carry());
    }

    /// Clears decimal.
    pub fn cld(&mut self)
        ensures
            *final(self) == old(self).with_regs(
                old(self).regs.with_flag(Status::decimal(), false),
            ),
    {
        self.regs.p.remove(Status::decimal());
    }

    /// Clears interrupt disable.
    pub fn cli(&mut self)
        ensures
            *final(self) == old(self).with_regs(
                old(self).regs.with_flag(Status::interrupt(), false),
            ),
    {
        self.regs.p.remove(Status::interrupt());
    }

    /// Clears overflow.
    pub fn clv(&mut self)
        ensures
            *final(self) == old(self).with_regs(
                old(self).regs.with_flag(Status::overflow(), false),
            ),
    {
        self.regs.p.remove(Status::overflow());
    }

    /// Compares the accumulator with the byte at `addr`.
    pub fn cmp(&mut self, addr: Address) -> (r: Result<(), Fatal>)
        ensures
            settled(
                old(self).reading(addr, |m: Byte| old(self).regs.compare(old(self).regs.a, m)),
                *old(self),
                *final(self),
                r,
            ),
    {
        let operand: Byte = self.mem.read_byte(addr)?;
        let result: Byte = self.regs.a.wrapping_sub(operand);

        self.regs.p.set(Status::carry(), self.regs.a >= operand);
        self.regs.p.update_zero_and_negative(result);
        Ok(())
    }

    /// Compares X with the byte at `addr`.
    pub fn cpx(&mut self, addr: Address) -> (r: Result<(), Fatal>)
        ensures
            settled(
                old(self).reading(addr, |m: Byte| old(self).regs.compare(old(self).regs.x, m)),
                *old(self),
                *final(self),
                r,
            ),
    {
        let operand: Byte = self.mem.read_byte(addr)?;
        let result: Byte = self.regs.x.wrapping_sub(operand);

        self.regs.p.set(Status::carry(), self.regs.x >= operand);
        self.regs.p.update_zero_and_negative(result);
        Ok(())
    }

    /// Compares Y with the byte at `addr`.
    pub fn cpy(&mut self, addr: Address) -> (r: Result<(), Fatal>)
        ensures
            settled(
                old(self).reading(addr, |m: Byte| old(self).regs.compare(old(self).regs.y, m)),
                *old(self),
                *final(self),
                r,
            ),
    {
        let operand: Byte = self.mem.read_byte(addr)?;
        let result: Byte = self.regs.y.wrapping_sub(operand);

        self.regs.p.set(Status::carry(), self.regs.y >= operand);
        self.regs.p.update_zero_and_negative(result);
        Ok(())
    }

    /// Takes one off the byte at `addr`.
    pub fn dec(&mut self, addr: Address) -> (r: Result<(), Fatal>)
        ensures
            settled(
                old(self).stepping(addr, |v: Byte| v.wrapping_sub(1)),
                *old(self),
                *final(self),
                r,
            ),
    {
        let value: Byte = self.mem.read_byte(addr)?;
        let result: Byte = value.wrapping_sub(1);
        self.mem.write_byte(addr, result)?;

        self.regs.p.update_zero_and_negative(result);
        Ok(())
    }

    /// Takes one off X.
    pub fn dex(&mut self)
        ensures
            *final(self) == old(self).with_regs(old(self).regs.with_x(old(self).regs.x.wrapping_sub(1))),
    {
        self.regs.x = self.regs.x.wrapping_sub(1);

        self.regs.p.update_zero_and_negative(self.regs.x);
    }

    /// Takes one off Y.
    pub fn dey(&mut self)
        ensures
            *final(self) == old(self).with_regs(old(self).regs.with_y(old(self).regs.y.wrapping_sub(1))),
    {
        self.regs.y = self.regs.y.wrapping_sub(1);

        self.regs.p.update_zero_and_negative(self.regs.y);
    }

    /// Exclusive-ors the accumulator with the byte at `addr`.
    pub fn eor(&mut self, addr: Address) -> (r: Result<(), Fatal>)
        ensures
            settled(
                old(self).reading(addr, |m: Byte| old(self).regs.with_a(old(self).regs.a ^ m)),
                *old(self),
                *final(self),
                r,
            ),
    {
        let operand: Byte = self.mem.read_byte(addr)?;
        self.regs.a = self.regs.a ^ operand;

        self.regs.p.update_zero_and_negative(self.regs.a);
        Ok(())
    }

    /// Adds one to the byte at `addr`.
    pub fn inc(&mut self, addr: Address) -> (r: Result<(), Fatal>)
        ensures
            settled(
                old(self).stepping(addr, |v: Byte| v.wrapping_add(1)),
                *old(self),
                *final(self),
                r,
            ),
    {
        let value: Byte = self.mem.read_byte(addr)?;
        let result: Byte = value.wrapping_add(1);
        self.mem.write_byte(addr, result)?;

        self.regs.p.update_zero_and_negative(result);
        Ok(())
    }

    /// Adds one to X.
    pub fn inx(&mut self)
        ensures
            *final(self) == old(self).with_regs(old(self).regs.with_x(old(self).regs.x.wrapping_add(1))),
    {
        self.regs.x = self.regs.x.wrapping_add(1);

        self.regs.p.update_zero_and_negative(self.regs.x);
    }

    /// Adds one to Y.
    pub fn iny(&mut self)
        ensures
            *final(self) == old(self).with_regs(old(self).regs.with_y(old(self).regs.y.wrapping_add(1))),
    {
        self.regs.y = self.regs.y.wrapping_add(1);

        self.regs.p.update_zero_and_negative(self.regs.y);
    }

    /// Jumps to `addr`.
    pub fn jmp(&mut self, addr: Address)
        ensures
            *final(self) == old(self).with_regs(old(self).regs.with_pc(addr)),
    {
        self.regs.pc = addr;
    }

    /// Loads X from `addr`.
    pub fn ldx(&mut self, addr: Address) -> (r: Result<(), Fatal>)
        ensures
            settled(
                old(self).reading(addr, |m: Byte| old(self).regs.with_x(m)),
                *old(self),
                *final(self),
                r,
            ),
    {
        let operand: Byte = self.mem.read_byte(addr)?;
        self.regs.x = operand;

        self.regs.p.update_zero_and_negative(self.regs.x);
        Ok(())
    }

    /// Loads Y from `addr`.
    pub fn ldy(&mut self, addr: Address) -> (r: Result<(), Fatal>)
        ensures
            settled(
                old(self).reading(addr, |m: Byte| old(self).regs.with_y(m)),
                *old(self),
                *final(self),
                r,
            ),
    {
        let operand: Byte = self.mem.read_byte(addr)?;
        self.regs.y = operand;

        self.regs.p.update_zero_and_negative(self.regs.y);
        Ok(())
    }

    /// Shifts the accumulator to the right.
    pub fn lsr_acc(&mut self)
        ensures
            *final(self) == old(self).shifting_a(|v: Byte| shift_right(v)),
    {
        let is_carry = self.regs.a & 0b0000_0001 == 0b0000_0001;
        self.regs.a = self.regs.a >> 1;

        self.regs.p.set(Status::carry(), is_carry);
        self.regs.p.update_zero_and_negative(self.regs.a);
    }

    /// Shifts the byte at `addr` to the right.
    pub fn lsr(&mut self, addr: Address) -> (r: Result<(), Fatal>)
        ensures
            settled(
                old(self).shifting(addr, |v: Byte| shift_right(v)),
                *old(self),
                *final(self),
                r,
            ),
    {
        let value: Byte = self.mem.read_byte(addr)?;
        let is_carry = value & 0b0000_0001 == 0b0000_0001;
        let result: Byte = value >> 1;
        self.mem.write_byte(addr, result)?;

        self.regs.p.set(Status::carry(), is_carry);
        self.regs.p.update_zero_and_negative(result);
        Ok(())
    }

    /// Ors the accumulator with the byte at `addr`.
    pub fn ora(&mut self, addr: Address) -> (r: Result<(), Fatal>)
        ensures
            settled(
                old(self).reading(addr, |m: Byte| old(self).regs.with_a(old(self).regs.a | m)),
                *old(self),
                *final(self),
                r,
            ),
    {
        let operand: Byte = self.mem.read_byte(addr)?;
        self.regs.a = self.regs.a | operand;

        self.regs.p.update_zero_and_negative(self.regs.a);
        Ok(())
    }

    /// Pushes the accumulator.
    pub fn pha(&mut self) -> (r: Result<(), Fatal>)
        ensures
            settled(old(self).pushing(old(self).regs.a), *old(self), *final(self), r),
    {
        self.push_byte(self.regs.a)
    }

    /// Pushes the status.
    pub fn php(&mut self) -> (r: Result<(), Fatal>)
        ensures
            settled(old(self).pushing(old(self).regs.p.bits), *old(self), *final(self), r),
    {
        self.push_byte(self.regs.p.bits())
    }

    /// Pulls the accumulator.
    pub fn pla(&mut self) -> (r: Result<(), Fatal>)
        ensures
            settled(
                old(self).pulling(|regs: Register, v: Byte| regs.with_a(v)),
                *old(self),
                *final(self),
                r,
            ),
    {
        self.regs.a = self.pull_byte()?;

        self.regs.p.update_zero_and_negative(self.regs.a);
        Ok(())
    }

    /// Pulls the status: every bit of the byte pulled is a flag.
    pub fn plp(&mut self) -> (r: Result<(), Fatal>)
        ensures
            settled(
                old(self).pulling(|regs: Register, v: Byte| regs.with_p(Status { bits: v })),
                *old(self),
                *final(self),
                r,
            ),
    {
        self.regs.p = Status::from_bits_truncate(self.pull_byte()?);
        Ok(())
    }

    /// Rotates the accumulator to the left through carry.
    pub fn rol_acc(&mut self)
        ensures
            *final(self) == old(self).shifting_a(|v: Byte| rotate_left(v, old(self).regs.p.has(Status::carry()))),
    {
        let is_carry = self.regs.a >= 0x80;
        let carry: Byte = if self.regs.p.contains(Status::carry()) {
            1
        } else {
            0
        };
        self.regs.a = (self.regs.a << 1) | carry;

        self.regs.p.set(Status::carry(), is_carry);
        self.regs.p.update_zero_and_negative(self.regs.a);
    }

    /// Rotates the byte at `addr` to the left through carry.
    pub fn rol(&mut self, addr: Address) -> (r: Result<(), Fatal>)
        ensures
            settled(
                old(self).shifting(addr, |v: Byte| rotate_left(v, old(self).regs.p.has(Status::carry()))),
                *old(self),
                *final(self),
                r,
            ),
    {
        let value: Byte = self.mem.read_byte(addr)?;
        let is_carry = value >= 0x80;
        let carry: Byte = if self.regs.p.contains(Status::carry()) {
            1
        } else {
            0
        };
        let result: Byte = (value << 1) | carry;
        self.mem.write_byte(addr, result)?;

        self.regs.p.set(Status::carry(), is_carry);
        self.regs.p.update_zero_and_negative(result);
        Ok(())
    }

    /// Rotates the accumulator to the right through carry.
    pub fn ror_acc(&mut self)
        ensures
            *final(self) == old(self).shifting_a(|v: Byte| rotate_right(v, old(self).regs.p.has(Status::carry()))),
    {
        let is_carry = self.regs.a & 0b0000_0001 == 0b0000_0001;
        let carry: Byte = if self.regs.p.contains(Status::carry()) {
            0b1000_0000
        } else {
            0
        };
        self.regs.a = (self.regs.a >> 1) | carry;

        self.regs.p.set(Status::carry(), is_carry);
        self.regs.p.update_zero_and_negative(self.regs.a);
    }

    /// Rotates the byte at `addr` to the right through carry: the bit moved out is bit 0 of that byte.
    pub fn ror(&mut self, addr: Address) -> (r: Result<(), Fatal>)
        ensures
            settled(
                old(self).shifting(addr, |v: Byte| rotate_right(v, old(self).regs.p.has(Status::carry()))),
                *old(self),
                *final(self),
                r,
            ),
    {
        let value: Byte = self.mem.read_byte(addr)?;
        let is_carry = value & 0b0000_0001 == 0b0000_0001;
        let carry: Byte = if self.regs.p.contains(Status::carry()) {
            0b1000_0000
        } else {
            0
        };
        let result: Byte = (value >> 1) | carry;
        self.mem.write_byte(addr, result)?;

        self.regs.p.set(Status::carry(), is_carry);
        self.regs.p.update_zero_and_negative(result);
        Ok(())
    }

    /// Subtracts the byte at `addr` and the borrow from the accumulator.
    pub fn sbc(&mut self, addr: Address) -> (r: Result<(), Fatal>)
        ensures
            settled(
                old(self).reading(addr, |m: Byte| old(self).regs.sbc(m)),
                *old(self),
                *final(self),
                r,
            ),
    {
        let operand: Byte = self.mem.read_byte(addr)?;
        let carry: Word = if self.regs.p.contains(Status::carry()) {
            1
        } else {
            0
        };
        let addend: Word = widen(0xFF - operand) + carry;
        let sum: Word = widen(self.regs.a) + addend;
        let result: Byte = low_byte(sum);
        let is_carry = sum > 0xFF;
        let is_overflow = (self.regs.a >= 0x80) == (low_byte(addend) >= 0x80) && (self.regs.a
            >= 0x80) != (result >= 0x80);

        self.regs.a = result;

        self.regs.p.set(Status::carry(), is_carry);
        self.regs.p.set(Status::overflow(), is_overflow);
        self.regs.p.update_zero_and_negative(result);
        Ok(())
    }

    /// Sets carry.
    pub fn sec(&mut self)
        ensures
            *final(self) == old(self).with_regs(
                old(self).regs.with_flag(Status::carry(), true),
            ),
    {
        self.regs.p.insert(Status::carry());
    }

    /// Sets decimal.
    pub fn sed(&mut self)
        ensures
            *final(self) == old(self).with_regs(
                old(self).regs.with_flag(Status::decimal(), true),
            ),
    {
        self.regs.p.insert(Status::decimal());
    }

    /// Sets interrupt disable.
    pub fn sei(&mut self)
        ensures
            *final(self) == old(self).with_regs(
                old(self).regs.with_flag(Status::interrupt(), true),
            ),
    {
        self.regs.p.insert(Status::interrupt());
    }

    /// Stores X at `addr`.
    pub fn stx(&mut self, addr: Address) -> (r: Result<(), Fatal>)
        ensures
            settled(
                old(self).writing(addr, old(self).regs.x, old(self).regs),
                *old(self),
                *final(self),
                r,
            ),
    {
        self.mem.write_byte(addr, self.regs.x)
    }

    /// Stores Y at `addr`.
    pub fn sty(&mut self, addr: Address) -> (r: Result<(), Fatal>)
        ensures
            settled(
                old(self).writing(addr, old(self).regs.y, old(self).regs),
                *old(self),
                *final(self),
                r,
            ),
    {
        self.mem.write_byte(addr, self.regs.y)
    }

    /// Copies the accumulator to X.
    pub fn tax(&mut self)
        ensures
            *final(self) == old(self).with_regs(old(self).regs.with_x(old(self).regs.a)),
    {
        self.regs.x = self.regs.a;

        self.regs.p.update_zero_and_negative(self.regs.x);
    }

    /// Copies the accumulator to Y.
    pub fn tay(&mut self)
        ensures
            *final(self) == old(self).with_regs(old(self).regs.with_y(old(self).regs.a)),
    {
        self.regs.y = self.regs.a;

        self.regs.p.update_zero_and_negative(self.regs.y);
    }

    /// Copies the stack pointer to X.
    pub fn tsx(&mut self)
        ensures
            *final(self) == old(self).with_regs(old(self).regs.with_x(old(self).regs.s)),
    {
        self.regs.x = self.regs.s;

        self.regs.p.update_zero_and_negative(self.regs.x);
    }

    /// Copies X to the accumulator.
    pub fn txa(&mut self)
        ensures
            *final(self) == old(self).with_regs(old(self).regs.with_a(old(self).regs.x)),
    {
        self.regs.a = self.regs.x;

        self.regs.p.update_zero_and_negative(self.regs.a);
    }

    /// Copies X to the stack pointer. No flag changes.
    pub fn txs(&mut self)
        ensures
            *final(self) == old(self).with_regs(old(self).regs.with_s(old(self).regs.x)),
    {
        self.regs.s = self.regs.x;
    }

    /// Copies Y to the accumulator.
    pub fn tya(&mut self)
        ensures
            *final(self) == old(self).with_regs(old(self).regs.with_a(old(self).regs.y)),
    {
        self.regs.a = self.regs.y;

        self.regs.p.update_zero_and_negative(self.regs.a);
    }
}

/// Whether the instruction `name` can be dispatched with the addressing
/// mode `mode`.
pub fn dispatches(name: Mnemonic, mode: AddressingMode) -> (ok: bool)
    ensures
        ok == accepts(name, mode),
{
    let implied = mode == AddressingMode::Implied;
    match name {
        Mnemonic::Asl | Mnemonic::Lsr | Mnemonic::Rol | Mnemonic::Ror => !implied,
        Mnemonic::Clc
        | Mnemonic::Cld
        | Mnemonic::Cli
        | Mnemonic::Clv
        | Mnemonic::Dex
        | Mnemonic::Dey
        | Mnemonic::Inx
        | Mnemonic::Iny
        | Mnemonic::Pha
        | Mnemonic::Php
        | Mnemonic::Pla
        | Mnemonic::Plp
        | Mnemonic::Rti
        | Mnemonic::Rts
        | Mnemonic::Sec
        | Mnemonic::Sed
        | Mnemonic::Sei
        | Mnemonic::Tax
        | Mnemonic::Tay
        | Mnemonic::Tsx
        | Mnemonic::Txa
        | Mnemonic::Txs
        | Mnemonic::Tya => implied,
        _ => true,
    }
}

impl<M: Memory> Cpu<M> {
    /// Dispatches the instruction `name`, decoded with the addressing mode
    /// `mode`, on the effective address `addr`.
    pub fn execute(&mut self, name: Mnemonic, mode: AddressingMode, addr: Address) -> (r: Result<
        Flow,
        Fatal,
    >)
        ensures
            match old(self).execute_spec(name, mode, addr) {
                Ok((next, flow)) => r == Ok::<Flow, Fatal>(flow) && *final(self) == next,
                Err(e) => r == Err::<Flow, Fatal>(e) && *final(self) == *old(self),
            },
    {
        if !dispatches(name, mode) {
            return Err(Fatal::IllegalModeForMnemonic(name, mode));
        }
        let accumulator = mode == AddressingMode::Accumulator;
        match name {
            Mnemonic::Adc => self.adc(addr)?,
            Mnemonic::And => self.and(addr)?,
            Mnemonic::Asl => if accumulator {
                self.asl_acc()
            } else {
                self.asl(addr)?
            },
            Mnemonic::Bcc => self.bcc(addr),
            Mnemonic::Bcs => self.bcs(addr),
            Mnemonic::Beq => self.beq(addr),
            Mnemonic::Bit => self.bit(addr)?,
            Mnemonic::Bmi => self.bmi(addr),
            Mnemonic::Bne => self.bne(addr),
            Mnemonic::Bpl => self.bpl(addr),
            Mnemonic::Brk => {
                return Ok(Flow::Halt);
            },
            Mnemonic::Bvc => self.bvc(addr),
            Mnemonic::Bvs => self.bvs(addr),
            Mnemonic::Clc => self.clc(),
            Mnemonic::Cld => self.cld(),
            Mnemonic::Cli => self.cli(),
            Mnemonic::Clv => self.clv(),
            Mnemonic::Cmp => self.cmp(addr)?,
            Mnemonic::Cpx => self.cpx(addr)?,
            Mnemonic::Cpy => self.cpy(addr)?,
            Mnemonic::Dec => self.dec(addr)?,
            Mnemonic::Dex => self.dex(),
            Mnemonic::Dey => self.dey(),
            Mnemonic::Eor => self.eor(addr)?,
            Mnemonic::Inc => self.inc(addr)?,
            Mnemonic::Inx => self.inx(),
            Mnemonic::Iny => self.iny(),
            Mnemonic::Jmp => self.jmp(addr),
            Mnemonic::Jsr => {
                return Err(Fatal::Unimplemented(Feature::Instruction(Mnemonic::Jsr)));
            },
            Mnemonic::Lda => self.lda(addr)?,
            Mnemonic::Ldx => self.ldx(addr)?,
            Mnemonic::Ldy => self.ldy(addr)?,
            Mnemonic::Lsr => if accumulator {
                self.lsr_acc()
            } else {
                self.lsr(addr)?
            },
            Mnemonic::Nop => (),
            Mnemonic::Ora => self.ora(addr)?,
            Mnemonic::Pha => self.pha()?,
            Mnemonic::Php => self.php()?,
            Mnemonic::Pla => self.pla()?,
            Mnemonic::Plp => self.plp()?,
            Mnemonic::Rol => if accumulator {
                self.rol_acc()
            } else {
                self.rol(addr)?
            },
            Mnemonic::Ror => if accumulator {
                self.ror_acc()
            } else {
                self.ror(addr)?
            },
            Mnemonic::Rti => {
                return Err(Fatal::Unimplemented(Feature::Instruction(Mnemonic::Rti)));
            },
            Mnemonic::Rts => {
                return Err(Fatal::Unimplemented(Feature::Instruction(Mnemonic::Rts)));
            },
            Mnemonic::Sbc => self.sbc(addr)?,
            Mnemonic::Sec => self.sec(),
            Mnemonic::Sed => self.sed(),
            Mnemonic::Sei => self.sei(),
            Mnemonic::Sta => self.sta(addr)?,
            Mnemonic::Stx => self.stx(addr)?,
            Mnemonic::Sty => self.sty(addr)?,
            Mnemonic::Tax => self.tax(),
            Mnemonic::Tay => self.tay(),
            Mnemonic::Tsx => self.tsx(),
            Mnemonic::Txa => self.txa(),
            Mnemonic::Txs => self.txs(),
            Mnemonic::Tya => self.tya(),
        }
        Ok(Flow::Continue)
    }

    /// Runs the instruction at the program counter. A fault leaves the
    /// machine as it was before the instruction.
    pub fn step(&mut self) -> (r: Result<Flow, Fatal>)
        ensures
            match old(self).step_spec() {
                Ok((next, flow)) => r == Ok::<Flow, Fatal>(flow) && *final(self) == next,
                Err(e) => r == Err::<Flow, Fatal>(e) && *final(self) == *old(self),
            },
    {
        let saved: Register = self.regs;
        let opcode: Byte = self.fetch_opcode()?;
        let info: OpcodeInfo = match OpcodeInfo::lookup(opcode) {
            Some(info) => info,
            None => {
                self.regs = saved;
                return Err(Fatal::IllegalOpcode(opcode));
            },
        };
        let found: (Address, AddressingMode) = match self.fetch_address(&info) {
            Ok(found) => found,
            Err(e) => {
                self.regs = saved;
                return Err(e);
            },
        };
        match self.execute(info.name, found.1, found.0) {
            Ok(flow) => Ok(flow),
            Err(e) => {
                self.regs = saved;
                Err(e)
            },
        }
    }

    /// Runs instructions until one of them is `Brk`, one of them ends in a
    /// fault, or `limit` of them have been run.
    pub fn run_for(&mut self, limit: u64) -> (r: Result<Flow, Fatal>)
        ensures
            (*final(self), r) == old(self).run_spec(limit as nat),
    {
        let mut done: u64 = 0;
        while done < limit
            invariant
                done <= limit,
                old(self).run_spec(limit as nat) == self.run_spec((limit - done) as nat),
            decreases limit - done,
        {
            match self.step() {
                Ok(Flow::Continue) => {
                    done = done + 1;
                },
                Ok(Flow::Halt) => {
                    return Ok(Flow::Halt);
                },
                Err(e) => {
                    return Err(e);
                },
            }
        }
        Ok(Flow::Continue)
    }

    /// Runs the program at the program counter to its `Brk`. A program
    /// that has not come to it after `u64::MAX` instructions is left there.
    pub fn run(&mut self) -> (r: Result<Flow, Fatal>)
        ensures
            (*final(self), r) == old(self).run_spec(u64::MAX as nat),
    {
        self.run_for(u64::MAX)
    }
}

} // verus!
