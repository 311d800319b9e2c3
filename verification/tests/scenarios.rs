use nes_core::cpu::memory::Memory;
use nes_core::cpu::opcode::{AddressingMode, Mnemonic, OpcodeInfo};
use nes_core::cpu::register::Status;
use nes_core::cpu::{dispatches, Cpu, Flow};
use nes_core::fault::{Fatal, Feature};

/// 64 KiB of plain memory, all zeros but for the program at 0x8000 and the
/// reset vector, which points there. Some addresses can be made to fault.
struct Ram {
    cells: Vec<u8>,
    broken: Vec<u16>,
}

impl Ram {
    fn new(program: &[u8]) -> Self {
        let mut cells: Vec<u8> = vec![0; 0x10000];
        cells[0xFFFC] = 0x00;
        cells[0xFFFD] = 0x80;
        for (index, byte) in program.iter().enumerate() {
            cells[0x8000 + index] = *byte;
        }
        Self { cells, broken: vec![] }
    }
}

impl Memory for Ram {
    fn read_byte(&self, addr: u16) -> Result<u8, Fatal> {
        if self.broken.contains(&addr) {
            Err(Fatal::Unimplemented(Feature::PpuRegister(addr)))
        } else {
            Ok(self.cells[addr as usize])
        }
    }

    fn write_byte(&mut self, addr: u16, value: u8) -> Result<(), Fatal> {
        if self.broken.contains(&addr) {
            Err(Fatal::RomWriteAttempt(addr))
        } else {
            self.cells[addr as usize] = value;
            Ok(())
        }
    }
}

fn machine(program: &[u8]) -> Cpu<Ram> {
    let mut cpu = Cpu::new(Ram::new(program));
    cpu.power_on().unwrap();
    cpu.regs.p = Status::empty();
    cpu
}

#[test]
fn test_power_on_state() {
    let mut cpu = Cpu::new(Ram::new(&[]));
    cpu.regs.a = 1;
    cpu.regs.x = 2;
    cpu.regs.y = 3;
    cpu.regs.p = Status::all();
    assert_eq!(cpu.power_on(), Ok(()));
    assert_eq!(cpu.regs.a, 0);
    assert_eq!(cpu.regs.x, 0);
    assert_eq!(cpu.regs.y, 0);
    assert_eq!(cpu.regs.s, 0xFD);
    assert_eq!(cpu.regs.pc, 0x8000);
    assert_eq!(cpu.regs.p.bits(), 0b0011_0100);
    assert!(cpu.regs.p.contains(Status::break2()));
    assert!(cpu.regs.p.contains(Status::interrupt() | Status::break1()));
}

#[test]
fn test_reset_state() {
    let mut cpu = Cpu::new(Ram::new(&[]));
    cpu.regs.a = 0x11;
    cpu.regs.x = 0x22;
    cpu.regs.y = 0x33;
    cpu.regs.s = 0x01;
    cpu.regs.pc = 0x1234;
    cpu.regs.p = Status::carry();
    assert_eq!(cpu.reset(), Ok(()));
    assert_eq!(cpu.regs.a, 0x11);
    assert_eq!(cpu.regs.x, 0x22);
    assert_eq!(cpu.regs.y, 0x33);
    assert_eq!(cpu.regs.s, 0xFE);
    assert_eq!(cpu.regs.pc, 0x8000);
    assert_eq!(cpu.regs.p, Status::carry() | Status::interrupt());
}

#[test]
fn test_power_on_with_a_faulting_vector() {
    let mut ram = Ram::new(&[]);
    ram.broken.push(0xFFFD);
    let mut cpu = Cpu::new(ram);
    cpu.regs.a = 7;
    assert_eq!(cpu.power_on(), Err(Fatal::Unimplemented(Feature::PpuRegister(0xFFFD))));
    assert_eq!(cpu.regs.a, 7);
    assert_eq!(cpu.regs.s, 0);
    assert_eq!(cpu.reset(), Err(Fatal::Unimplemented(Feature::PpuRegister(0xFFFD))));
    assert_eq!(cpu.regs.s, 0);
}

#[test]
fn test_scenario_lda_immediate() {
    let mut cpu = machine(&[0xA9, 0x05, 0x00]);
    assert_eq!(cpu.run(), Ok(Flow::Halt));
    assert_eq!(cpu.regs.a, 0x05);
    assert!(!cpu.regs.p.contains(Status::zero()));
    assert!(!cpu.regs.p.contains(Status::negative()));
}

#[test]
fn test_scenario_adc_carry() {
    let mut cpu = machine(&[0x69, 0xFF, 0x00]);
    cpu.regs.a = 0x10;
    assert_eq!(cpu.run(), Ok(Flow::Halt));
    assert_eq!(cpu.regs.a, 0x0F);
    assert!(cpu.regs.p.contains(Status::carry()));
    assert!(!cpu.regs.p.contains(Status::overflow()));
    assert_eq!(cpu.regs.p, Status::carry());
}

#[test]
fn test_scenario_adc_overflow() {
    let mut cpu = machine(&[0x69, 0x80, 0x00]);
    cpu.regs.a = 0x80;
    assert_eq!(cpu.run(), Ok(Flow::Halt));
    assert_eq!(cpu.regs.a, 0x00);
    assert!(cpu.regs.p.contains(Status::carry()));
    assert!(cpu.regs.p.contains(Status::overflow()));
    assert!(cpu.regs.p.contains(Status::zero()));
    assert!(!cpu.regs.p.contains(Status::negative()));
}

#[test]
fn test_scenario_sbc_overflow() {
    let mut cpu = machine(&[0xE9, 0x70, 0x00]);
    cpu.regs.a = 0x80;
    cpu.regs.p.insert(Status::carry());
    assert_eq!(cpu.run(), Ok(Flow::Halt));
    assert_eq!(cpu.regs.a, 0x10);
    assert!(cpu.regs.p.contains(Status::carry()));
    assert!(cpu.regs.p.contains(Status::overflow()));
}

#[test]
fn test_scenario_jmp_indirect_page_wrap() {
    let mut cpu = machine(&[0x6C, 0xFF, 0x00]);
    cpu.mem.write_byte(0x00FF, 0x00).unwrap();
    cpu.mem.write_byte(0x0000, 0x02).unwrap();
    cpu.mem.write_byte(0x0100, 0x03).unwrap();
    assert_eq!(cpu.step(), Ok(Flow::Continue));
    assert_eq!(cpu.regs.pc, 0x0200);
    assert_eq!(cpu.run(), Ok(Flow::Halt));
    assert_eq!(cpu.regs.pc, 0x0201);
}

#[test]
fn test_scenario_bcc_taken() {
    let mut cpu = machine(&[0x90, 0x01, 0x00, 0x00]);
    assert_eq!(cpu.regs.pc, 0x8000);
    assert_eq!(cpu.run(), Ok(Flow::Halt));
    assert_eq!(cpu.regs.pc, 0x8004);
}

#[test]
fn test_branch_not_taken() {
    let mut cpu = machine(&[0x90, 0x01, 0x00, 0x00]);
    cpu.regs.p.insert(Status::carry());
    assert_eq!(cpu.run(), Ok(Flow::Halt));
    assert_eq!(cpu.regs.pc, 0x8003);
}

#[test]
fn test_branch_backwards() {
    // LDX #$03; DEX; BNE -3; BRK
    let mut cpu = machine(&[0xA2, 0x03, 0xCA, 0xD0, 0xFD, 0x00]);
    assert_eq!(cpu.step(), Ok(Flow::Continue));
    assert_eq!(cpu.step(), Ok(Flow::Continue));
    assert_eq!(cpu.step(), Ok(Flow::Continue));
    assert_eq!(cpu.regs.pc, 0x8002);
    assert_eq!(cpu.run(), Ok(Flow::Halt));
    assert_eq!(cpu.regs.x, 0);
    assert_eq!(cpu.regs.pc, 0x8006);
}

#[test]
fn test_adc_zero_with_carry_clear_changes_nothing() {
    for a in [0x00u8, 0x01, 0x7F, 0x80, 0xFF] {
        let mut cpu = machine(&[0x69, 0x00, 0x00]);
        cpu.regs.a = a;
        cpu.regs.p = Status::overflow();
        assert_eq!(cpu.run(), Ok(Flow::Halt));
        assert_eq!(cpu.regs.a, a);
        assert!(!cpu.regs.p.contains(Status::carry()));
        assert!(!cpu.regs.p.contains(Status::overflow()));
    }
}

#[test]
fn test_adc_overflow_is_the_sign_formula() {
    for a in 0..=255u8 {
        for m in 0..=255u8 {
            for carry in [false, true] {
                if carry && m == 0x7F {
                    continue;
                }
                let mut cpu = machine(&[0x69, m, 0x00]);
                cpu.regs.a = a;
                cpu.regs.p.set(Status::carry(), carry);
                assert_eq!(cpu.step(), Ok(Flow::Continue));
                let r = cpu.regs.a;
                assert_eq!(r, a.wrapping_add(m).wrapping_add(carry as u8));
                assert_eq!(
                    cpu.regs.p.contains(Status::overflow()),
                    (a ^ r) & (m ^ r) & 0x80 != 0,
                    "a={a:#04x} m={m:#04x} carry={carry}"
                );
                assert_eq!(
                    cpu.regs.p.contains(Status::carry()),
                    a as u16 + m as u16 + carry as u16 > 0xFF
                );
            }
        }
    }
}

#[test]
fn test_adc_overflow_with_operand_7f_and_carry() {
    // 0x7F with the carry added to it is 0x80, of the accumulator's sign.
    let mut cpu = machine(&[0x69, 0x7F, 0x00]);
    cpu.regs.a = 0x80;
    cpu.regs.p.insert(Status::carry());
    assert_eq!(cpu.run(), Ok(Flow::Halt));
    assert_eq!(cpu.regs.a, 0x00);
    assert!(cpu.regs.p.contains(Status::overflow()));
    assert!(cpu.regs.p.contains(Status::carry()));
}

#[test]
fn test_sbc_carry_means_no_borrow() {
    for a in [0x00u8, 0x01, 0x10, 0x7F, 0x80, 0xFF] {
        for m in [0x00u8, 0x01, 0x10, 0x7F, 0x80, 0xFF] {
            for carry in [false, true] {
                let mut cpu = machine(&[0xE9, m, 0x00]);
                cpu.regs.a = a;
                cpu.regs.p.set(Status::carry(), carry);
                assert_eq!(cpu.step(), Ok(Flow::Continue));
                let borrow = 1 - carry as u8;
                assert_eq!(cpu.regs.a, a.wrapping_sub(m).wrapping_sub(borrow));
                assert_eq!(
                    cpu.regs.p.contains(Status::carry()),
                    a as u16 >= m as u16 + borrow as u16
                );
                assert_eq!(cpu.regs.p.contains(Status::zero()), cpu.regs.a == 0);
                assert_eq!(cpu.regs.p.contains(Status::negative()), cpu.regs.a >= 0x80);
            }
        }
    }
}

#[test]
fn test_compare_flags() {
    // CMP #$20 with A = 0x10, 0x20, 0x30
    for (a, carry, zero, negative) in
        [(0x10u8, false, false, true), (0x20, true, true, false), (0x30, true, false, false)]
    {
        let mut cpu = machine(&[0xC9, 0x20, 0x00]);
        cpu.regs.a = a;
        assert_eq!(cpu.run(), Ok(Flow::Halt));
        assert_eq!(cpu.regs.a, a);
        assert_eq!(cpu.regs.p.contains(Status::carry()), carry);
        assert_eq!(cpu.regs.p.contains(Status::zero()), zero);
        assert_eq!(cpu.regs.p.contains(Status::negative()), negative);
    }
}

#[test]
fn test_bit_zero_flag() {
    // BIT $10 with nothing in common between accumulator and operand.
    let mut cpu = machine(&[0x24, 0x10, 0x00]);
    cpu.mem.write_byte(0x0010, 0b0100_0000).unwrap();
    cpu.regs.a = 0b0000_1111;
    assert_eq!(cpu.run(), Ok(Flow::Halt));
    assert!(cpu.regs.p.contains(Status::zero()));
    assert!(cpu.regs.p.contains(Status::overflow()));
    assert!(!cpu.regs.p.contains(Status::negative()));
    assert_eq!(cpu.regs.a, 0b0000_1111);
}

#[test]
fn test_zero_page_x_wraps_in_the_zero_page() {
    // LDA $FF,X with X = 1 reads 0x0000, not 0x0100.
    let mut cpu = machine(&[0xB5, 0xFF, 0x00]);
    cpu.mem.write_byte(0x0000, 0x42).unwrap();
    cpu.mem.write_byte(0x0100, 0x99).unwrap();
    cpu.regs.x = 1;
    assert_eq!(cpu.run(), Ok(Flow::Halt));
    assert_eq!(cpu.regs.a, 0x42);
    let mut cpu = machine(&[0xB5, 0xFF, 0x00]);
    cpu.regs.x = 1;
    cpu.regs.pc = 0x8001;
    assert_eq!(cpu.fetch_zero_page_with_index(1), Ok(0x0000));
}

#[test]
fn test_zero_page_y() {
    // LDX $80,Y with Y = 0x90 reads 0x0010.
    let mut cpu = machine(&[0xB6, 0x80, 0x00]);
    cpu.mem.write_byte(0x0010, 0x37).unwrap();
    cpu.regs.y = 0x90;
    assert_eq!(cpu.run(), Ok(Flow::Halt));
    assert_eq!(cpu.regs.x, 0x37);
}

#[test]
fn test_absolute_indexed_adds_the_index_to_the_address() {
    // LDA $0200,X with X = 4 reads 0x0204; LDY $02FF,X reads 0x0303.
    let mut cpu = machine(&[0xBD, 0x00, 0x02, 0xBC, 0xFF, 0x02, 0x00]);
    cpu.mem.write_byte(0x0204, 0x55).unwrap();
    cpu.mem.write_byte(0x0303, 0x66).unwrap();
    cpu.regs.x = 4;
    assert_eq!(cpu.run(), Ok(Flow::Halt));
    assert_eq!(cpu.regs.a, 0x55);
    assert_eq!(cpu.regs.y, 0x66);
    // LDA $FFFF,Y with Y = 2 wraps to 0x0001.
    let mut cpu = machine(&[0xB9, 0xFF, 0xFF, 0x00]);
    cpu.mem.write_byte(0x0001, 0x77).unwrap();
    cpu.regs.y = 2;
    assert_eq!(cpu.run(), Ok(Flow::Halt));
    assert_eq!(cpu.regs.a, 0x77);
}

#[test]
fn test_indexed_indirect() {
    // LDA ($20,X) with X = 4: the pointer is at 0x24.
    let mut cpu = machine(&[0xA1, 0x20, 0x00]);
    cpu.mem.write_word(0x0024, 0x0300).unwrap();
    cpu.mem.write_byte(0x0300, 0xA5).unwrap();
    cpu.regs.x = 4;
    assert_eq!(cpu.run(), Ok(Flow::Halt));
    assert_eq!(cpu.regs.a, 0xA5);
    assert!(cpu.regs.p.contains(Status::negative()));
}

#[test]
fn test_indirect_indexed() {
    // STA ($20),Y with Y = 0x10: the pointer at 0x20 holds 0x02F8.
    let mut cpu = machine(&[0x91, 0x20, 0x00]);
    cpu.mem.write_word(0x0020, 0x02F8).unwrap();
    cpu.regs.a = 0x5A;
    cpu.regs.y = 0x10;
    assert_eq!(cpu.run(), Ok(Flow::Halt));
    assert_eq!(cpu.mem.read_byte(0x0308), Ok(0x5A));
}

#[test]
fn test_shifts_on_memory() {
    // ASL $10; LSR $11; ROL $12; ROR $13
    let mut cpu = machine(&[0x06, 0x10, 0x46, 0x11, 0x26, 0x12, 0x66, 0x13, 0x00]);
    cpu.mem.write_byte(0x0010, 0b1100_0001).unwrap();
    cpu.mem.write_byte(0x0011, 0b0000_0011).unwrap();
    cpu.mem.write_byte(0x0012, 0b0100_0000).unwrap();
    cpu.mem.write_byte(0x0013, 0b0000_0010).unwrap();
    assert_eq!(cpu.step(), Ok(Flow::Continue));
    assert_eq!(cpu.mem.read_byte(0x0010), Ok(0b1000_0010));
    assert_eq!(cpu.regs.p, Status::carry() | Status::negative());
    assert_eq!(cpu.step(), Ok(Flow::Continue));
    assert_eq!(cpu.mem.read_byte(0x0011), Ok(0b0000_0001));
    assert_eq!(cpu.regs.p, Status::carry());
    assert_eq!(cpu.step(), Ok(Flow::Continue));
    assert_eq!(cpu.mem.read_byte(0x0012), Ok(0b1000_0001));
    assert_eq!(cpu.regs.p, Status::negative());
    assert_eq!(cpu.step(), Ok(Flow::Continue));
    assert_eq!(cpu.mem.read_byte(0x0013), Ok(0b0000_0001));
    assert_eq!(cpu.regs.p, Status::empty());
}

#[test]
fn test_ror_on_memory_takes_carry_from_the_operand() {
    // ROR $10 with an odd operand and an even accumulator.
    let mut cpu = machine(&[0x66, 0x10, 0x00]);
    cpu.mem.write_byte(0x0010, 0b0000_0001).unwrap();
    cpu.regs.a = 0b0000_0010;
    cpu.regs.p.insert(Status::carry());
    assert_eq!(cpu.run(), Ok(Flow::Halt));
    assert_eq!(cpu.mem.read_byte(0x0010), Ok(0b1000_0000));
    assert!(cpu.regs.p.contains(Status::carry()));
    assert!(cpu.regs.p.contains(Status::negative()));
    // And the other way round.
    let mut cpu = machine(&[0x66, 0x10, 0x00]);
    cpu.mem.write_byte(0x0010, 0b0000_0010).unwrap();
    cpu.regs.a = 0b0000_0001;
    assert_eq!(cpu.run(), Ok(Flow::Halt));
    assert_eq!(cpu.mem.read_byte(0x0010), Ok(0b0000_0001));
    assert!(!cpu.regs.p.contains(Status::carry()));
}

#[test]
fn test_rotate_accumulator_without_carry() {
    let mut cpu = machine(&[0x2A, 0x6A, 0x00]);
    cpu.regs.a = 0b1000_0000;
    assert_eq!(cpu.step(), Ok(Flow::Continue));
    assert_eq!(cpu.regs.a, 0);
    assert_eq!(cpu.regs.p, Status::carry() | Status::zero());
    assert_eq!(cpu.step(), Ok(Flow::Continue));
    assert_eq!(cpu.regs.a, 0b1000_0000);
    assert_eq!(cpu.regs.p, Status::negative());
}

#[test]
fn test_stack_pointer_wraps() {
    let mut cpu = machine(&[0x48, 0x68, 0x00]);
    cpu.regs.s = 0x00;
    cpu.regs.a = 0x42;
    assert_eq!(cpu.step(), Ok(Flow::Continue));
    assert_eq!(cpu.regs.s, 0xFF);
    assert_eq!(cpu.mem.read_byte(0x0100), Ok(0x42));
    cpu.regs.a = 0;
    assert_eq!(cpu.step(), Ok(Flow::Continue));
    assert_eq!(cpu.regs.s, 0x00);
    assert_eq!(cpu.regs.a, 0x42);
}

#[test]
fn test_push_word_and_pull_word() {
    let mut cpu = machine(&[]);
    cpu.regs.s = 0xFF;
    assert_eq!(cpu.push_word(0x1234), Ok(()));
    assert_eq!(cpu.regs.s, 0xFD);
    // High byte first, so the low byte is on top.
    assert_eq!(cpu.mem.read_byte(0x01FF), Ok(0x12));
    assert_eq!(cpu.mem.read_byte(0x01FE), Ok(0x34));
    assert_eq!(cpu.pull_byte(), Ok(0x34));
    assert_eq!(cpu.regs.s, 0xFE);
    cpu.regs.s = 0xFD;
    assert_eq!(cpu.pull_word(), Ok(0x1234));
    assert_eq!(cpu.regs.s, 0xFF);
}

#[test]
fn test_push_word_stops_at_a_fault() {
    let mut cpu = machine(&[]);
    cpu.regs.s = 0xFF;
    cpu.mem.broken.push(0x01FE);
    assert_eq!(cpu.push_word(0x1234), Err(Fatal::RomWriteAttempt(0x01FE)));
    assert_eq!(cpu.regs.s, 0xFE);
    assert_eq!(cpu.mem.read_byte(0x01FF), Ok(0x12));
    cpu.regs.s = 0xFC;
    assert_eq!(cpu.pull_word(), Err(Fatal::Unimplemented(Feature::PpuRegister(0x01FE))));
    assert_eq!(cpu.regs.s, 0xFD);
    assert_eq!(cpu.push_byte(1), Ok(()));
    cpu.regs.s = 0xFE;
    assert_eq!(cpu.push_byte(1), Err(Fatal::RomWriteAttempt(0x01FE)));
    assert_eq!(cpu.regs.s, 0xFE);
    cpu.regs.s = 0xFD;
    assert_eq!(cpu.pull_byte(), Err(Fatal::Unimplemented(Feature::PpuRegister(0x01FE))));
    assert_eq!(cpu.regs.s, 0xFD);
}

#[test]
fn test_illegal_opcode_is_fatal() {
    let mut cpu = machine(&[0xA9, 0x01, 0x02, 0x00]);
    assert_eq!(cpu.run(), Err(Fatal::IllegalOpcode(0x02)));
    assert_eq!(cpu.regs.a, 0x01);
    assert_eq!(cpu.regs.pc, 0x8002);
}

#[test]
fn test_unimplemented_instructions_are_fatal() {
    for (opcode, name) in [(0x20u8, Mnemonic::Jsr), (0x40, Mnemonic::Rti), (0x60, Mnemonic::Rts)]
    {
        let mut cpu = machine(&[0xEA, opcode, 0x00, 0x90]);
        assert_eq!(cpu.run(), Err(Fatal::Unimplemented(Feature::Instruction(name))));
        assert_eq!(cpu.regs.pc, 0x8001);
        assert_eq!(cpu.regs.s, 0xFD);
    }
}

#[test]
fn test_fault_leaves_the_machine_as_it_was() {
    // INC $0300
    let mut cpu = machine(&[0xEE, 0x00, 0x03, 0x00]);
    cpu.mem.cells[0x0300] = 0xFF;
    cpu.regs.p = Status::negative();
    let before = cpu.regs;
    // A read of the operand that faults.
    cpu.mem.broken.push(0x8002);
    assert_eq!(cpu.step(), Err(Fatal::Unimplemented(Feature::PpuRegister(0x8002))));
    assert_eq!(cpu.regs, before);
    assert_eq!(cpu.mem.cells[0x0300], 0xFF);
    // A read of the opcode that faults.
    cpu.mem.broken = vec![0x8000];
    assert_eq!(cpu.step(), Err(Fatal::Unimplemented(Feature::PpuRegister(0x8000))));
    assert_eq!(cpu.regs, before);
    // An access to the byte to change that faults.
    cpu.mem.broken = vec![0x0300];
    assert_eq!(cpu.step(), Err(Fatal::Unimplemented(Feature::PpuRegister(0x0300))));
    assert_eq!(cpu.regs, before);
    assert_eq!(cpu.mem.cells[0x0300], 0xFF);
    // A store whose write faults.
    assert_eq!(cpu.sta(0x0300), Err(Fatal::RomWriteAttempt(0x0300)));
    assert_eq!(cpu.regs, before);
    assert_eq!(cpu.mem.cells[0x0300], 0xFF);
    // Without a fault the instruction runs.
    cpu.mem.broken.clear();
    assert_eq!(cpu.step(), Ok(Flow::Continue));
    assert_eq!(cpu.mem.cells[0x0300], 0x00);
    assert_eq!(cpu.regs.p, Status::zero());
    assert_eq!(cpu.regs.pc, 0x8003);
}

#[test]
fn test_run_for_stops_at_the_limit() {
    // JMP $8000
    let mut cpu = machine(&[0x4C, 0x00, 0x80]);
    assert_eq!(cpu.run_for(1000), Ok(Flow::Continue));
    assert_eq!(cpu.regs.pc, 0x8000);
    assert_eq!(cpu.run_for(0), Ok(Flow::Continue));
    // INX; JMP $8000
    let mut cpu = machine(&[0xE8, 0x4C, 0x00, 0x80]);
    assert_eq!(cpu.run_for(7), Ok(Flow::Continue));
    assert_eq!(cpu.regs.x, 4);
    assert_eq!(cpu.regs.pc, 0x8001);
    // INX; BRK
    let mut cpu = machine(&[0xE8, 0x00]);
    assert_eq!(cpu.run_for(1), Ok(Flow::Continue));
    assert_eq!(cpu.run_for(1), Ok(Flow::Halt));
    assert_eq!(cpu.regs.pc, 0x8002);
}

#[test]
fn test_dispatch_guards() {
    assert!(dispatches(Mnemonic::Asl, AddressingMode::Accumulator));
    assert!(dispatches(Mnemonic::Asl, AddressingMode::ZeroPage));
    assert!(!dispatches(Mnemonic::Asl, AddressingMode::Implied));
    assert!(dispatches(Mnemonic::Clc, AddressingMode::Implied));
    assert!(!dispatches(Mnemonic::Clc, AddressingMode::Immediate));
    assert!(dispatches(Mnemonic::Lda, AddressingMode::Implied));
    assert!(dispatches(Mnemonic::Jsr, AddressingMode::Implied));
    assert!(!dispatches(Mnemonic::Rts, AddressingMode::Absolute));
    for opcode in 0..=255u8 {
        if let Some(info) = OpcodeInfo::lookup(opcode) {
            assert!(dispatches(info.name, info.mode), "opcode {opcode:#04x}");
        }
    }
}

#[test]
fn test_execute_with_a_mode_that_the_instruction_does_not_have() {
    let mut cpu = machine(&[]);
    cpu.regs.x = 5;
    let before = cpu.regs;
    assert_eq!(
        cpu.execute(Mnemonic::Inx, AddressingMode::Immediate, 0),
        Err(Fatal::IllegalModeForMnemonic(Mnemonic::Inx, AddressingMode::Immediate))
    );
    assert_eq!(
        cpu.execute(Mnemonic::Ror, AddressingMode::Implied, 0),
        Err(Fatal::IllegalModeForMnemonic(Mnemonic::Ror, AddressingMode::Implied))
    );
    assert_eq!(
        cpu.execute(Mnemonic::Rti, AddressingMode::Absolute, 0),
        Err(Fatal::IllegalModeForMnemonic(Mnemonic::Rti, AddressingMode::Absolute))
    );
    assert_eq!(cpu.regs, before);
    assert_eq!(cpu.execute(Mnemonic::Inx, AddressingMode::Implied, 0), Ok(Flow::Continue));
    assert_eq!(cpu.regs.x, 6);
    assert_eq!(cpu.execute(Mnemonic::Brk, AddressingMode::Implied, 0), Ok(Flow::Halt));
    assert_eq!(cpu.execute(Mnemonic::Nop, AddressingMode::Implied, 0), Ok(Flow::Continue));
    assert_eq!(
        cpu.execute(Mnemonic::Jsr, AddressingMode::Absolute, 0x1234),
        Err(Fatal::Unimplemented(Feature::Instruction(Mnemonic::Jsr)))
    );
}

#[test]
fn test_fetch_address_moves_over_the_operand() {
    let mut cpu = machine(&[0xAD, 0x34, 0x12, 0x00]);
    assert_eq!(cpu.fetch_opcode(), Ok(0xAD));
    assert_eq!(cpu.regs.pc, 0x8001);
    let info = OpcodeInfo::lookup(0xAD).unwrap();
    assert_eq!(cpu.fetch_address(&info), Ok((0x1234, AddressingMode::Absolute)));
    assert_eq!(cpu.regs.pc, 0x8003);
    let mut cpu = machine(&[0xA9, 0x34]);
    cpu.regs.pc = 0x8001;
    assert_eq!(cpu.fetch_immediate(), 0x8001);
    let info = OpcodeInfo::lookup(0xA9).unwrap();
    assert_eq!(cpu.fetch_address(&info), Ok((0x8001, AddressingMode::Immediate)));
    assert_eq!(cpu.regs.pc, 0x8002);
    let info = OpcodeInfo::lookup(0xEA).unwrap();
    assert_eq!(cpu.fetch_address(&info), Ok((0, AddressingMode::Implied)));
    assert_eq!(cpu.regs.pc, 0x8002);
}

#[test]
fn test_fetch_relative() {
    let mut cpu = machine(&[0x90, 0x7F, 0x90, 0x80, 0x90, 0xFE]);
    cpu.regs.pc = 0x8001;
    assert_eq!(cpu.fetch_relative(), Ok(0x8081));
    cpu.regs.pc = 0x8003;
    assert_eq!(cpu.fetch_relative(), Ok(0x7F84));
    cpu.regs.pc = 0x8005;
    assert_eq!(cpu.fetch_relative(), Ok(0x8004));
}

#[test]
fn test_fetch_indirect() {
    let mut cpu = machine(&[0x6C, 0xFF, 0x02, 0x6C, 0x10, 0x02]);
    cpu.mem.write_byte(0x02FF, 0x34).unwrap();
    cpu.mem.write_byte(0x0200, 0x12).unwrap();
    cpu.mem.write_byte(0x0300, 0x56).unwrap();
    cpu.mem.write_word(0x0210, 0xABCD).unwrap();
    cpu.regs.pc = 0x8001;
    assert_eq!(cpu.fetch_indirect(), Ok(0x1234));
    cpu.regs.pc = 0x8004;
    assert_eq!(cpu.fetch_indirect(), Ok(0xABCD));
    assert_eq!(cpu.fetch_absolute_with_index(0x10), Ok(0x0220));
    // The operand 0x10 as a zero page pointer, with and without indexes.
    cpu.mem.write_word(0x0010, 0x11F0).unwrap();
    cpu.mem.write_word(0x0014, 0x2200).unwrap();
    assert_eq!(cpu.fetch_indirect_with_index(0, 0), Ok(0x11F0));
    assert_eq!(cpu.fetch_indirect_with_index(0, 0x40), Ok(0x1230));
    assert_eq!(cpu.fetch_indirect_with_index(4, 0), Ok(0x2200));
}

#[test]
fn test_transfers_and_flag_instructions() {
    // SEC; SED; SEI; CLC; CLD; CLI; LDA #$80; TAX; TAY; TXS; LDX #$00; TSX; BRK
    let mut cpu = machine(&[
        0x38, 0xF8, 0x78, 0x18, 0xD8, 0x58, 0xA9, 0x80, 0xAA, 0xA8, 0x9A, 0xA2, 0x00, 0xBA, 0x00,
    ]);
    assert_eq!(cpu.run_for(3), Ok(Flow::Continue));
    assert_eq!(cpu.regs.p, Status::carry() | Status::decimal() | Status::interrupt());
    assert_eq!(cpu.run_for(3), Ok(Flow::Continue));
    assert_eq!(cpu.regs.p, Status::empty());
    assert_eq!(cpu.run_for(4), Ok(Flow::Continue));
    assert_eq!(cpu.regs.x, 0x80);
    assert_eq!(cpu.regs.y, 0x80);
    assert_eq!(cpu.regs.s, 0x80);
    assert_eq!(cpu.regs.p, Status::negative());
    assert_eq!(cpu.step(), Ok(Flow::Continue));
    assert_eq!(cpu.regs.p, Status::zero());
    // TXS changes no flag.
    cpu.regs.x = 0x90;
    cpu.txs();
    assert_eq!(cpu.regs.s, 0x90);
    assert_eq!(cpu.regs.p, Status::zero());
    cpu.regs.x = 0;
    assert_eq!(cpu.run(), Ok(Flow::Halt));
    assert_eq!(cpu.regs.x, 0x90);
    assert_eq!(cpu.regs.p, Status::negative());
}
