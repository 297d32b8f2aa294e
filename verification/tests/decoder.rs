use mips_emulator::instructions::{
    decode_i_type, decode_instruction, decode_j_type, decode_r_type, extract_opcode, Instruction,
};

#[test]
fn opcode_is_the_top_six_bits() {
    assert_eq!(extract_opcode(0), 0);
    assert_eq!(extract_opcode(0xFFFF_FFFF), 0x3F);
    assert_eq!(extract_opcode(0x8CC5_0000), 0x23);
    assert_eq!(extract_opcode(0xACC5_0000), 0x2B);
    assert_eq!(extract_opcode(0x03FF_FFFF), 0);
    assert_eq!(extract_opcode(0x0400_0000), 1);
}

#[test]
fn opcode_zero_decodes_to_r_type() {
    assert_eq!(
        decode_instruction(0x0043_0820),
        Instruction::RType { rs: 2, rt: 3, rd: 1, shamt: 0, func: 0x20 }
    );
    assert_eq!(
        decode_instruction(0x0002_08C0),
        Instruction::RType { rs: 0, rt: 2, rd: 1, shamt: 3, func: 0 }
    );
    assert_eq!(
        decode_instruction(0x03FF_FFFF),
        Instruction::RType { rs: 31, rt: 31, rd: 31, shamt: 31, func: 0x3F }
    );
    assert_eq!(
        decode_instruction(0),
        Instruction::RType { rs: 0, rt: 0, rd: 0, shamt: 0, func: 0 }
    );
}

#[test]
fn jump_opcodes_decode_to_j_type_with_thirty_bits() {
    assert_eq!(decode_instruction(0x0800_0010), Instruction::JType { address: 0x0800_0010 });
    assert_eq!(decode_instruction(0x0C00_0010), Instruction::JType { address: 0x0C00_0010 });
    assert_eq!(decode_instruction(0x0FFF_FFFF), Instruction::JType { address: 0x0FFF_FFFF });
}

#[test]
fn other_opcodes_decode_to_i_type() {
    assert_eq!(
        decode_instruction(0x8CC5_0000),
        Instruction::IType { rs: 6, rt: 5, immediate: 0 }
    );
    assert_eq!(
        decode_instruction(0x2043_FFFF),
        Instruction::IType { rs: 2, rt: 3, immediate: 0xFFFF }
    );
    assert_eq!(
        decode_instruction(0xFFFF_FFFF),
        Instruction::IType { rs: 31, rt: 31, immediate: 0xFFFF }
    );
    assert_eq!(
        decode_instruction(0x0400_0000),
        Instruction::IType { rs: 0, rt: 0, immediate: 0 }
    );
}

#[test]
fn every_opcode_gives_a_shape() {
    let mut opcode: u32 = 0;
    while opcode < 64 {
        let word = (opcode << 26) | 0x0155_5555;
        let decoded = decode_instruction(word);
        match opcode {
            0 => assert!(matches!(decoded, Instruction::RType { .. })),
            2 | 3 => assert!(matches!(decoded, Instruction::JType { .. })),
            _ => assert!(matches!(decoded, Instruction::IType { .. })),
        }
        assert_ne!(decoded, Instruction::Unknown);
        opcode += 1;
    }
}

#[test]
fn layouts_read_any_word() {
    assert_eq!(
        decode_r_type(0xFFFF_FFFF),
        Instruction::RType { rs: 31, rt: 31, rd: 31, shamt: 31, func: 0x3F }
    );
    assert_eq!(
        decode_i_type(0x0043_0820),
        Instruction::IType { rs: 2, rt: 3, immediate: 0x0820 }
    );
    assert_eq!(decode_j_type(0xFFFF_FFFF), Instruction::JType { address: 0x3FFF_FFFF });
}
