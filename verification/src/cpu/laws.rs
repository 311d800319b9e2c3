//! Laws of the instruction set: what holds of every machine.

use vstd::prelude::*;
use crate::bus::{lemma_ram_write_then_read, Bus, RAM_END};
use crate::cpu::memory::{join_reads, Memory};
use crate::cpu::opcode::{opcode_table, AddressingMode, Mnemonic};
use crate::cpu::register::{
    lemma_with_flag, lemma_zero_and_negative, sign_bit, sign_extend, stack_address, Register,
    Status,
};
use crate::cpu::{accepts, Cpu};
use crate::fault::{Fatal, Feature};
use crate::types::{low_byte, Address, Byte};

verus! {

/// Whether a memory keeps at `addr` what is written there: every write to
/// `addr` succeeds, and a read of `addr` then gives the byte written.
pub open spec fn keeps<M: Memory>(mem: M, addr: Address) -> bool {
    forall|value: Byte|
        (#[trigger] mem.poke(addr, value)) matches Ok(next) && next.peek(addr) == Ok::<
            Byte,
            Fatal,
        >(value)
}

/// The stack lies in page 1: whatever the stack pointer, a push or pull
/// works on an address from `0x0100` to `0x01FF`.
pub proof fn lemma_stack_in_page_one(s: Byte)
    ensures
        0x0100 <= stack_address(s) <= 0x01FF,
        stack_address(s) == 0x0100 + s,
{
}

/// The work RAM of a bus keeps what is pushed: the whole of page 1 lies in
/// it.
pub proof fn lemma_bus_keeps_stack(bus: Bus, s: Byte)
    ensures
        keeps(bus, stack_address(s)),
{
    assert forall|value: Byte|
        (#[trigger] bus.poke(stack_address(s), value)) matches Ok(next) && next.peek(
            stack_address(s),
        ) == Ok::<Byte, Fatal>(value) by {
        lemma_ram_write_then_read(bus, stack_address(s), value);
    }
}

/// A zero page address stays in the zero page, whatever the index: the sum
/// of operand and index is taken modulo 256.
pub proof fn lemma_zero_page_wraps<M: Memory>(cpu: Cpu<M>, index: Byte)
    ensures
        cpu.zero_page_with_index(index) matches Ok(addr) ==> addr <= 0x00FF,
        cpu.mem.peek(cpu.regs.pc) == Ok::<Byte, Fatal>(0xFF) ==> cpu.zero_page_with_index(1)
            == Ok::<Address, Fatal>(0x0000),
{
}

/// Indirect addressing through the last byte of a page takes the high
/// byte of the address from the first byte of the same page, not from the
/// first byte of the next.
pub proof fn lemma_indirect_stays_in_page<M: Memory>(cpu: Cpu<M>, pointer: Address)
    requires
        cpu.peek_word(cpu.regs.pc) == Ok::<Address, Fatal>(pointer),
        low_byte(pointer) == 0xFF,
    ensures
        cpu.indirect() == join_reads(
            cpu.mem.peek(pointer),
            cpu.mem.peek((pointer - 0xFF) as Address),
        ),
        (pointer - 0xFF) as Address == pointer & 0xFF00,
{
    assert(pointer % 256 == 255 ==> (pointer - 0xFF) as u16 == pointer & 0xFF00) by (bit_vector);
}

/// The target of a branch is the address after its operand byte plus the
/// operand as a two's-complement number, modulo 65536.
pub proof fn lemma_branch_target(pc: Address, offset: Byte)
    ensures
        pc.wrapping_add(1).wrapping_add(sign_extend(offset)) == (pc + 1 + (if sign_bit(offset) {
            offset - 256
        } else {
            offset as int
        })) % 0x1_0000,
{
}

/// After a value was put in the accumulator, in X or in Y, zero says
/// whether that value is 0 and negative is its bit 7. No other flag and no
/// other register changes.
pub proof fn lemma_loaded_value_sets_flags(regs: Register, value: Byte)
    ensures
        regs.with_a(value).p.has(Status::zero()) <==> value == 0,
        regs.with_a(value).p.has(Status::negative()) <==> sign_bit(value),
        regs.with_x(value).p == regs.with_a(value).p,
        regs.with_y(value).p == regs.with_a(value).p,
        regs.with_a(value).p.bits & 0b0111_1101 == regs.p.bits & 0b0111_1101,
        regs.with_a(value) == (Register { a: value, p: regs.with_a(value).p, ..regs }),
        regs.with_x(value) == (Register { x: value, p: regs.with_a(value).p, ..regs }),
        regs.with_y(value) == (Register { y: value, p: regs.with_a(value).p, ..regs }),
{
    lemma_zero_and_negative(regs.p, value);
}

/// After an operation that produced `result` and moved `carry_out` into
/// carry: carry is `carry_out`, zero says whether `result` is 0, negative
/// is bit 7 of `result`, and the other five flags are as before.
pub proof fn lemma_status_after(regs: Register, carry_out: bool, result: Byte, flag: Status)
    requires
        flag.is_flag(),
    ensures
        regs.status_after(carry_out, result).has(Status::carry()) == carry_out,
        regs.status_after(carry_out, result).has(Status::zero()) == (result == 0),
        regs.status_after(carry_out, result).has(Status::negative()) == sign_bit(result),
        flag != Status::carry() && flag != Status::zero() && flag != Status::negative()
            ==> regs.status_after(carry_out, result).has(flag) == regs.p.has(flag),
{
    let mid = regs.p.with(Status::carry(), carry_out);
    lemma_with_flag(regs.p, Status::carry(), carry_out, flag);
    lemma_zero_and_negative(mid, result);
}

/// The flags after an addition with carry: carry says whether the sum is
/// over 255, overflow follows the rule of signs, zero says whether the
/// accumulator is 0, and negative is its bit 7.
pub proof fn lemma_adc_flags(regs: Register, operand: Byte)
    ensures
        regs.adc(operand).a == (regs.a + operand + regs.carry_in()) % 256,
        regs.adc(operand).p.has(Status::carry()) <==> regs.a + operand + regs.carry_in() > 255,
        regs.adc(operand).p.has(Status::overflow()) <==> sign_bit(regs.a) == sign_bit(
            ((operand + regs.carry_in()) % 256) as Byte,
        ) && sign_bit(regs.a) != sign_bit(regs.adc(operand).a),
        regs.adc(operand).p.has(Status::zero()) <==> regs.adc(operand).a == 0,
        regs.adc(operand).p.has(Status::negative()) <==> sign_bit(regs.adc(operand).a),
{
    let sum: int = regs.a + operand + regs.carry_in();
    let result = (sum % 256) as Byte;
    let addend = ((operand + regs.carry_in()) % 256) as Byte;
    let overflow = sign_bit(regs.a) == sign_bit(addend) && sign_bit(regs.a) != sign_bit(result);
    let first = regs.p.with(Status::carry(), sum > 255);
    let second = first.with(Status::overflow(), overflow);
    lemma_with_flag(regs.p, Status::carry(), sum > 255, Status::carry());
    lemma_with_flag(first, Status::overflow(), overflow, Status::carry());
    lemma_with_flag(first, Status::overflow(), overflow, Status::overflow());
    lemma_zero_and_negative(second, result);
}

/// The flags after a subtraction with borrow: carry says that nothing was
/// borrowed, which is that the accumulator was at least the operand plus
/// the borrow; zero says whether the accumulator is 0, and negative is its
/// bit 7.
pub proof fn lemma_sbc_flags(regs: Register, operand: Byte)
    ensures
        regs.sbc(operand).a == (regs.a - operand - (1 - regs.carry_in())) % 256,
        regs.sbc(operand).p.has(Status::carry()) <==> regs.a >= operand + (1 - regs.carry_in()),
        regs.sbc(operand).p.has(Status::overflow()) <==> sign_bit(regs.a) == sign_bit(
            ((255 - operand + regs.carry_in()) % 256) as Byte,
        ) && sign_bit(regs.a) != sign_bit(regs.sbc(operand).a),
        regs.sbc(operand).p.has(Status::zero()) <==> regs.sbc(operand).a == 0,
        regs.sbc(operand).p.has(Status::negative()) <==> sign_bit(regs.sbc(operand).a),
{
    let difference: int = regs.a - operand - (1 - regs.carry_in());
    let result = (difference % 256) as Byte;
    let addend = ((255 - operand + regs.carry_in()) % 256) as Byte;
    let overflow = sign_bit(regs.a) == sign_bit(addend) && sign_bit(regs.a) != sign_bit(result);
    let first = regs.p.with(Status::carry(), difference >= 0);
    let second = first.with(Status::overflow(), overflow);
    lemma_with_flag(regs.p, Status::carry(), difference >= 0, Status::carry());
    lemma_with_flag(first, Status::overflow(), overflow, Status::carry());
    lemma_with_flag(first, Status::overflow(), overflow, Status::overflow());
    lemma_zero_and_negative(second, result);
}

/// Subtraction is addition of the complement: to subtract a byte with
/// borrow is to add its complement with carry.
pub proof fn lemma_sbc_is_adc_of_complement(regs: Register, operand: Byte)
    ensures
        regs.sbc(operand) == regs.adc((255 - operand) as Byte),
        (255 - operand) as Byte == !operand,
{
    assert((255 - operand) as u8 == !operand) by (bit_vector);
}

/// To add 0 with carry clear changes nothing in the accumulator, and
/// leaves carry and overflow clear.
pub proof fn lemma_adc_zero(regs: Register)
    requires
        !regs.p.has(Status::carry()),
    ensures
        regs.adc(0).a == regs.a,
        !regs.adc(0).p.has(Status::carry()),
        !regs.adc(0).p.has(Status::overflow()),
{
    lemma_adc_flags(regs, 0);
}

/// The overflow flag after an addition with carry is bit 7 of
/// `(a ^ r) & (m ^ r)`, where `a` is the accumulator before, `m` the
/// operand and `r` the result. The operand `0x7F` with carry set is left
/// out: with the carry added it changes its sign, and the rule of signs,
/// which looks at the sum of the two, then says otherwise.
pub proof fn lemma_adc_overflow(regs: Register, operand: Byte)
    requires
        !(operand == 0x7F && regs.p.has(Status::carry())),
    ensures
        regs.adc(operand).p.has(Status::overflow()) <==> ((regs.a ^ regs.adc(operand).a) & (
        operand ^ regs.adc(operand).a) & 0x80) != 0,
{
    lemma_adc_flags(regs, operand);
    let a = regs.a;
    let m = operand;
    let c = regs.carry_in();
    let r = regs.adc(operand).a;
    let addend = ((operand + regs.carry_in()) % 256) as Byte;
    assert((((a >= 0x80) == (addend >= 0x80)) && ((a >= 0x80) != (r >= 0x80))) <==> ((a ^ r) & (m
        ^ r) & 0x80) != 0) by (bit_vector)
        requires
            c == 0 || c == 1,
            !(m == 0x7F && c == 1),
            addend == ((m + c) % 256) as u8,
            r == ((a + m + c) % 256) as u8,
    ;
}

/// A push of the accumulator and a pull of it, one after the other, leave
/// the registers as they were but for zero and negative, which then describe
/// the accumulator: the accumulator has the value pushed, and the stack
/// pointer is back where it was. The memory has to keep what is written to
/// the stack.
pub proof fn lemma_pha_then_pla<M: Memory>(cpu: Cpu<M>)
    requires
        keeps(cpu.mem, stack_address(cpu.regs.s)),
    ensures
        cpu.instruction(Mnemonic::Pha, AddressingMode::Implied, 0) matches Ok(pushed)
            && pushed.instruction(Mnemonic::Pla, AddressingMode::Implied, 0) matches Ok(pulled)
            && pulled.regs == cpu.regs.with_a(cpu.regs.a) && pulled.regs.a == cpu.regs.a
            && pulled.regs.s == cpu.regs.s && pushed.regs.s == cpu.regs.s.wrapping_sub(1),
{
    let pushed = cpu.pushing(cpu.regs.a)->Ok_0;
    assert(cpu.mem.poke(stack_address(cpu.regs.s), cpu.regs.a) is Ok);
}

/// A push of the status and a pull of it, one after the other, leave the
/// registers as they were: all eight bits of the status are kept.
pub proof fn lemma_php_then_plp<M: Memory>(cpu: Cpu<M>)
    requires
        keeps(cpu.mem, stack_address(cpu.regs.s)),
    ensures
        cpu.instruction(Mnemonic::Php, AddressingMode::Implied, 0) matches Ok(pushed)
            && pushed.instruction(Mnemonic::Plp, AddressingMode::Implied, 0) matches Ok(pulled)
            && pulled.regs == cpu.regs && pushed.regs.s == cpu.regs.s.wrapping_sub(1),
{
    assert(cpu.mem.poke(stack_address(cpu.regs.s), cpu.regs.p.bits) is Ok);
}

/// Every record of the decode table names a mode that its instruction is
/// dispatched with.
pub proof fn lemma_table_dispatches(opcode: Byte)
    ensures
        opcode_table(opcode) matches Some(info) ==> accepts(info.name, info.mode),
{
}

/// Whether `e` is a fault that the memory itself answers an access with.
pub open spec fn is_fault_of<M: Memory>(mem: M, e: Fatal) -> bool {
    ||| exists|addr: Address| #[trigger] mem.peek(addr) == Err::<Byte, Fatal>(e)
    ||| exists|addr: Address, value: Byte| #[trigger] mem.poke(addr, value) == Err::<M, Fatal>(e)
}

/// Where an instruction ends in a fault, the fault is one of three: the
/// byte at the program counter is no legal opcode; the instruction is one of
/// the three that are not run; or the memory answered an access with it. In
/// particular no instruction that was decoded from memory is dispatched with
/// a mode that it does not have.
pub proof fn lemma_step_faults<M: Memory>(cpu: Cpu<M>)
    ensures
        cpu.step_spec() matches Err(e) ==> {
            ||| is_fault_of(cpu.mem, e)
            ||| cpu.mem.peek(cpu.regs.pc) matches Ok(opcode) && opcode_table(opcode) is None && e
                == Fatal::IllegalOpcode(opcode)
            ||| cpu.mem.peek(cpu.regs.pc) matches Ok(opcode) && opcode_table(opcode) matches Some(
                info,
            ) && (info.name == Mnemonic::Jsr || info.name == Mnemonic::Rti || info.name
                == Mnemonic::Rts) && e == Fatal::Unimplemented(Feature::Instruction(info.name))
        },
{
    if let Ok(opcode) = cpu.mem.peek(cpu.regs.pc) {
        lemma_table_dispatches(opcode);
    }
}

} // verus!
