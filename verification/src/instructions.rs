//! Instruction words and their decoded form.
//!
//! An instruction word is 32 bits wide. Its six top bits are the opcode,
//! and the opcode alone selects one of three layouts for the other bits.

use vstd::prelude::*;

verus! {

/// A decoded instruction word.
#[derive(Debug, Clone, Copy, PartialEq, Eq, Structural)]
pub enum Instruction {
    /// Register-to-register form, used with opcode 0.
    RType { rs: usize, rt: usize, rd: usize, shamt: u32, func: u32 },
    /// Register-and-immediate form. The immediate is the raw 16-bit field,
    /// zero-extended; whether it is read as signed is up to the consumer.
    IType { rs: usize, rt: usize, immediate: u32 },
    /// Jump form.
    JType { address: u32 },
    /// A shape the decoder never produces; dispatchers treat it as a no-op.
    Unknown,
}

impl Instruction {
    /// Register indices address one of the 32 registers, and a shift amount
    /// is smaller than the register width.
    pub open spec fn wf(self) -> bool {
        match self {
            Instruction::RType { rs, rt, rd, shamt, func } => rs < 32 && rt < 32 && rd < 32
                && shamt < 32,
            Instruction::IType { rs, rt, immediate } => rs < 32 && rt < 32,
            Instruction::JType { address } => true,
            Instruction::Unknown => true,
        }
    }
}

/// The opcode field: bits 31 to 26.
pub open spec fn opcode_of(word: u32) -> u32 {
    (word >> 26) & 0x3F
}

/// The first source register field: bits 25 to 21.
pub open spec fn rs_of(word: u32) -> u32 {
    (word >> 21) & 0x1F
}

/// The second source register field: bits 20 to 16.
pub open spec fn rt_of(word: u32) -> u32 {
    (word >> 16) & 0x1F
}

/// The destination register field: bits 15 to 11.
pub open spec fn rd_of(word: u32) -> u32 {
    (word >> 11) & 0x1F
}

/// The shift amount field: bits 10 to 6.
pub open spec fn shamt_of(word: u32) -> u32 {
    (word >> 6) & 0x1F
}

/// The function code field: bits 5 to 0.
pub open spec fn func_of(word: u32) -> u32 {
    word & 0x3F
}

/// The immediate field: bits 15 to 0.
pub open spec fn immediate_of(word: u32) -> u32 {
    word & 0xFFFF
}

/// The jump target field as the decoder keeps it: bits 29 to 0.
pub open spec fn target_of(word: u32) -> u32 {
    word & 0x3FFFFFFF
}

/// The register-to-register reading of a word.
pub open spec fn r_type_of(word: u32) -> Instruction {
    Instruction::RType {
        rs: rs_of(word) as usize,
        rt: rt_of(word) as usize,
        rd: rd_of(word) as usize,
        shamt: shamt_of(word),
        func: func_of(word),
    }
}

/// The register-and-immediate reading of a word.
pub open spec fn i_type_of(word: u32) -> Instruction {
    Instruction::IType {
        rs: rs_of(word) as usize,
        rt: rt_of(word) as usize,
        immediate: immediate_of(word),
    }
}

/// The jump reading of a word.
pub open spec fn j_type_of(word: u32) -> Instruction {
    Instruction::JType { address: target_of(word) }
}

/// What a word decodes to: the opcode picks the layout.
pub open spec fn decoded(word: u32) -> Instruction {
    let opcode = opcode_of(word);
    if opcode == 0 {
        r_type_of(word)
    } else if opcode == 2 || opcode == 3 {
        j_type_of(word)
    } else {
        i_type_of(word)
    }
}

/// Every field stays inside its width, so a decoded instruction is well formed.
pub proof fn lemma_field_bounds(word: u32)
    ensures
        opcode_of(word) < 64,
        rs_of(word) < 32,
        rt_of(word) < 32,
        rd_of(word) < 32,
        shamt_of(word) < 32,
        func_of(word) < 64,
        immediate_of(word) < 0x1_0000,
        target_of(word) < 0x4000_0000,
        decoded(word).wf(),
{
    assert((word >> 26) & 0x3F < 64) by (bit_vector);
    assert((word >> 21) & 0x1F < 32) by (bit_vector);
    assert((word >> 16) & 0x1F < 32) by (bit_vector);
    assert((word >> 11) & 0x1F < 32) by (bit_vector);
    assert((word >> 6) & 0x1F < 32) by (bit_vector);
    assert(word & 0x3F < 64) by (bit_vector);
    assert(word & 0xFFFF < 0x1_0000) by (bit_vector);
    assert(word & 0x3FFFFFFF < 0x4000_0000) by (bit_vector);
}

/// Extracts the opcode of an instruction word.
pub fn extract_opcode(instruction: u32) -> (opcode: u32)
    ensures
        opcode == opcode_of(instruction),
        opcode < 64,
{
    proof {
        lemma_field_bounds(instruction);
    }
    (instruction >> 26) & 0x3F
}

/// Reads a word in the register-to-register layout.
pub fn decode_r_type(instruction: u32) -> (decoded: Instruction)
    ensures
        decoded == r_type_of(instruction),
        decoded.wf(),
{
    proof {
        lemma_field_bounds(instruction);
    }
    let rs = ((instruction >> 21) & 0x1F) as usize;
    let rt = ((instruction >> 16) & 0x1F) as usize;
    let rd = ((instruction >> 11) & 0x1F) as usize;
    let shamt = (instruction >> 6) & 0x1F;
    let func = instruction & 0x3F;

    Instruction::RType { rs, rt, rd, shamt, func }
}

/// Reads a word in the register-and-immediate layout.
pub fn decode_i_type(instruction: u32) -> (decoded: Instruction)
    ensures
        decoded == i_type_of(instruction),
        decoded.wf(),
{
    proof {
        lemma_field_bounds(instruction);
    }
    let rs = ((instruction >> 21) & 0x1F) as usize;
    let rt = ((instruction >> 16) & 0x1F) as usize;
    let immediate = instruction & 0xFFFF;

    Instruction::IType { rs, rt, immediate }
}

/// Reads a word in the jump layout.
pub fn decode_j_type(instruction: u32) -> (decoded: Instruction)
    ensures
        decoded == j_type_of(instruction),
{
    let address = instruction & 0x3FFFFFFF;

    Instruction::JType { address }
}

/// Decodes an instruction word. Every word decodes: opcode 0 gives the
/// register-to-register form, opcodes 2 and 3 the jump form, and every
/// other opcode the register-and-immediate form.
pub fn decode_instruction(instruction: u32) -> (result: Instruction)
    ensures
        result == decoded(instruction),
        result.wf(),
        !(result is Unknown),
{
    let opcode = extract_opcode(instruction);

    match opcode {
        0x00 => decode_r_type(instruction),
        0x02 | 0x03 => decode_j_type(instruction),
        _ => decode_i_type(instruction),
    }
}

} // verus!
