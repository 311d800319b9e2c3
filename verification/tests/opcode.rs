use nes_core::cpu::opcode::{AddressingMode, Mnemonic, OpcodeInfo};

#[test]
fn test_opcode_table_with_supported_opcode() {
    let brk = OpcodeInfo::lookup(0x00);
    let adc = OpcodeInfo::lookup(0x69);

    assert_eq!(brk, Some(OpcodeInfo::new(1, 7, Mnemonic::Brk, AddressingMode::Implied)));
    assert_eq!(adc, Some(OpcodeInfo::new(2, 2, Mnemonic::Adc, AddressingMode::Immediate)));
}

#[test]
fn test_opcode_table_with_illegal_opcode() {
    assert_eq!(None, OpcodeInfo::lookup(0x02));
}

#[test]
fn test_opcode_table_counts_the_legal_opcodes() {
    let mut legal = 0;
    for opcode in 0..=255u8 {
        if OpcodeInfo::lookup(opcode).is_some() {
            legal += 1;
        }
    }
    assert_eq!(legal, 151);
}

#[test]
fn test_opcode_table_lengths_follow_the_mode() {
    for opcode in 0..=255u8 {
        if let Some(info) = OpcodeInfo::lookup(opcode) {
            let expected = match info.mode {
                AddressingMode::Accumulator | AddressingMode::Implied => 1,
                AddressingMode::Absolute
                | AddressingMode::AbsoluteX
                | AddressingMode::AbsoluteY
                | AddressingMode::Indirect => 3,
                _ => 2,
            };
            assert_eq!(info.byte, expected, "opcode {:#04x}", opcode);
        }
    }
}

#[test]
fn test_opcode_table_records() {
    assert_eq!(
        OpcodeInfo::lookup(0x6C),
        Some(OpcodeInfo::new(3, 5, Mnemonic::Jmp, AddressingMode::Indirect))
    );
    assert_eq!(
        OpcodeInfo::lookup(0xB6),
        Some(OpcodeInfo::new(2, 4, Mnemonic::Ldx, AddressingMode::ZeroPageY))
    );
    assert_eq!(
        OpcodeInfo::lookup(0xFE),
        Some(OpcodeInfo::new(3, 7, Mnemonic::Inc, AddressingMode::AbsoluteX))
    );
    assert_eq!(
        OpcodeInfo::lookup(0x0A),
        Some(OpcodeInfo::new(1, 2, Mnemonic::Asl, AddressingMode::Accumulator))
    );
    assert_eq!(OpcodeInfo::lookup(0xFF), None);
}
