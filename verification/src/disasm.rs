//! The disassembler: an instruction word as a line of assembly text.
//!
//! It knows exactly the codes that the dispatcher knows. A known code gives
//! a mnemonic in lower case, padded to six characters, and its operands; an
//! unknown code gives a line that starts with `Unknown`.

use vstd::prelude::*;
use vstd::pervasive::unreached;
use vstd::string::*;
use crate::cpu::Cpu;
use crate::instructions::{
    Instruction, decode_r_type, decode_i_type, decode_j_type, extract_opcode, opcode_of, rs_of,
    rt_of, rd_of, shamt_of, func_of, immediate_of, target_of,
};
use crate::state::sext16;
use crate::text::{
    decimal, signed_decimal, hex, hex_padded, push_decimal, push_signed, push_hex,
    push_hex_padded,
};

verus! {

/// A register operand: `R` and the register's number.
pub open spec fn register_text(index: nat) -> Seq<char> {
    "R"@ + decimal(index)
}

/// A mnemonic with its destination register and two source registers.
pub open spec fn three_register_text(mnemonic: Seq<char>, first: nat, second: nat, third: nat)
    -> Seq<char> {
    mnemonic + register_text(first) + ", "@ + register_text(second) + ", "@ + register_text(
        third,
    )
}

/// A mnemonic with two registers and a last operand.
pub open spec fn two_register_text(
    mnemonic: Seq<char>,
    first: nat,
    second: nat,
    last: Seq<char>,
) -> Seq<char> {
    mnemonic + register_text(first) + ", "@ + register_text(second) + ", "@ + last
}

/// A mnemonic with a register and a memory operand: an offset and, in
/// round brackets, the base register.
pub open spec fn memory_text(mnemonic: Seq<char>, rt: nat, offset: int, rs: nat) -> Seq<char> {
    mnemonic + register_text(rt) + ", "@ + signed_decimal(offset) + "("@ + register_text(rs)
        + ")"@
}

/// The line for a word read in the register-to-register layout.
pub open spec fn r_type_text(word: u32) -> Seq<char> {
    let rs = rs_of(word) as nat;
    let rt = rt_of(word) as nat;
    let rd = rd_of(word) as nat;
    let func = func_of(word);
    if func == 0x00 {
        two_register_text("sll   "@, rd, rt, decimal(shamt_of(word) as nat))
    } else if func == 0x08 {
        "jr    "@ + register_text(rs)
    } else if func == 0x20 {
        three_register_text("add   "@, rd, rs, rt)
    } else if func == 0x22 {
        three_register_text("sub   "@, rd, rs, rt)
    } else if func == 0x24 {
        three_register_text("and   "@, rd, rs, rt)
    } else if func == 0x25 {
        three_register_text("or    "@, rd, rs, rt)
    } else if func == 0x2A {
        three_register_text("slt   "@, rd, rs, rt)
    } else {
        "Unknown RType instruction with func code: 0x"@ + hex(func as nat)
    }
}

/// The line for a word read in the register-and-immediate layout, under
/// the given opcode. The immediate is signed for arithmetic, branches and
/// memory offsets, and unsigned for `andi` and `ori`.
pub open spec fn i_type_text(word: u32, opcode: u32) -> Seq<char> {
    let rs = rs_of(word) as nat;
    let rt = rt_of(word) as nat;
    let immediate = immediate_of(word);
    if opcode == 0x04 {
        two_register_text("beq   "@, rs, rt, signed_decimal(sext16(immediate)))
    } else if opcode == 0x05 {
        two_register_text("bne   "@, rs, rt, signed_decimal(sext16(immediate)))
    } else if opcode == 0x08 {
        two_register_text("addi  "@, rt, rs, signed_decimal(sext16(immediate)))
    } else if opcode == 0x0C {
        two_register_text("andi  "@, rt, rs, decimal(immediate as nat))
    } else if opcode == 0x0D {
        two_register_text("ori   "@, rt, rs, decimal(immediate as nat))
    } else if opcode == 0x0A {
        two_register_text("slti  "@, rt, rs, signed_decimal(sext16(immediate)))
    } else if opcode == 0x23 {
        memory_text("lw    "@, rt, sext16(immediate), rs)
    } else if opcode == 0x2B {
        memory_text("sw    "@, rt, sext16(immediate), rs)
    } else {
        "Unknown IType instruction with opcode 0x"@ + hex(opcode as nat)
    }
}

/// The line for a word read in the jump layout, under the given opcode.
/// The target is given as eight hexadecimal digits.
pub open spec fn j_type_text(word: u32, opcode: u32) -> Seq<char> {
    let address = target_of(word) as nat;
    if opcode == 0x02 {
        "j     0x"@ + hex_padded(address, 8)
    } else if opcode == 0x03 {
        "jal   0x"@ + hex_padded(address, 8)
    } else {
        "Unknown JType instruction with opcode 0x"@ + hex(opcode as nat)
    }
}

/// The line for an instruction word: the opcode picks the layout, as in
/// the decoder.
pub open spec fn disassembly(word: u32) -> Seq<char> {
    let opcode = opcode_of(word);
    if opcode == 0 {
        r_type_text(word)
    } else if opcode == 2 || opcode == 3 {
        j_type_text(word, opcode)
    } else {
        i_type_text(word, opcode)
    }
}

/// Appends a register operand.
fn push_register(out: &mut String, index: usize)
    requires
        index < 32,
    ensures
        final(out)@ == old(out)@ + register_text(index as nat),
{
    out.append("R");
    push_decimal(out, index as u32);
    assert(out@ =~= old(out)@ + register_text(index as nat));
}

/// A mnemonic with three register operands.
fn three_registers(mnemonic: &str, first: usize, second: usize, third: usize) -> (line: String)
    requires
        first < 32,
        second < 32,
        third < 32,
    ensures
        line@ == three_register_text(mnemonic@, first as nat, second as nat, third as nat),
{
    let mut line = String::from_str(mnemonic);
    push_register(&mut line, first);
    line.append(", ");
    push_register(&mut line, second);
    line.append(", ");
    push_register(&mut line, third);
    line
}

/// A mnemonic with two register operands; the caller appends the last operand.
fn two_registers(mnemonic: &str, first: usize, second: usize) -> (line: String)
    requires
        first < 32,
        second < 32,
    ensures
        line@ == mnemonic@ + register_text(first as nat) + ", "@ + register_text(second as nat)
            + ", "@,
{
    let mut line = String::from_str(mnemonic);
    push_register(&mut line, first);
    line.append(", ");
    push_register(&mut line, second);
    line.append(", ");
    line
}

/// A mnemonic with two register operands and a signed immediate.
fn with_signed(mnemonic: &str, first: usize, second: usize, immediate: u32) -> (line: String)
    requires
        first < 32,
        second < 32,
    ensures
        line@ == two_register_text(
            mnemonic@,
            first as nat,
            second as nat,
            signed_decimal(sext16(immediate)),
        ),
{
    let mut line = two_registers(mnemonic, first, second);
    push_signed(&mut line, immediate);
    line
}

/// A mnemonic with two register operands and an unsigned number.
fn with_unsigned(mnemonic: &str, first: usize, second: usize, number: u32) -> (line: String)
    requires
        first < 32,
        second < 32,
    ensures
        line@ == two_register_text(mnemonic@, first as nat, second as nat, decimal(number as nat)),
{
    let mut line = two_registers(mnemonic, first, second);
    push_decimal(&mut line, number);
    line
}

/// A mnemonic with a register and a memory operand.
fn with_memory(mnemonic: &str, rt: usize, immediate: u32, rs: usize) -> (line: String)
    requires
        rt < 32,
        rs < 32,
    ensures
        line@ == memory_text(mnemonic@, rt as nat, sext16(immediate), rs as nat),
{
    let mut line = String::from_str(mnemonic);
    push_register(&mut line, rt);
    line.append(", ");
    push_signed(&mut line, immediate);
    line.append("(");
    push_register(&mut line, rs);
    line.append(")");
    line
}

impl Cpu {
    /// Renders a word in the jump layout under the given opcode.
    pub fn disassemble_j_type(&self, instruction: u32, opcode: u32) -> (line: String)
        ensures
            line@ == j_type_text(instruction, opcode),
    {
        match decode_j_type(instruction) {
            Instruction::JType { address } => {
                let mut line = match opcode {
                    0x02 => String::from_str("j     0x"),
                    0x03 => String::from_str("jal   0x"),
                    _ => {
                        let mut line = String::from_str(
                            "Unknown JType instruction with opcode 0x",
                        );
                        push_hex(&mut line, opcode);
                        return line;
                    },
                };
                push_hex_padded(&mut line, address, 8);
                line
            },
            _ => unreached(),
        }
    }

    /// Renders a word in the register-and-immediate layout under the given
    /// opcode.
    pub fn disassemble_i_type(&self, instruction: u32, opcode: u32) -> (line: String)
        ensures
            line@ == i_type_text(instruction, opcode),
    {
        match decode_i_type(instruction) {
            Instruction::IType { rs, rt, immediate } => match opcode {
                0x04 => with_signed("beq   ", rs, rt, immediate),
                0x05 => with_signed("bne   ", rs, rt, immediate),
                0x08 => with_signed("addi  ", rt, rs, immediate),
                0x0C => with_unsigned("andi  ", rt, rs, immediate),
                0x0D => with_unsigned("ori   ", rt, rs, immediate),
                0x0A => with_signed("slti  ", rt, rs, immediate),
                0x23 => with_memory("lw    ", rt, immediate, rs),
                0x2B => with_memory("sw    ", rt, immediate, rs),
                _ => {
                    let mut line = String::from_str("Unknown IType instruction with opcode 0x");
                    push_hex(&mut line, opcode);
                    line
                },
            },
            _ => unreached(),
        }
    }

    /// Renders a word in the register-to-register layout.
    pub fn disassemble_r_type(&self, instruction: u32) -> (line: String)
        ensures
            line@ == r_type_text(instruction),
    {
        match decode_r_type(instruction) {
            Instruction::RType { rs, rt, rd, shamt, func } => match func {
                0x00 => with_unsigned("sll   ", rd, rt, shamt),
                0x08 => {
                    let mut line = String::from_str("jr    ");
                    push_register(&mut line, rs);
                    line
                },
                0x20 => three_registers("add   ", rd, rs, rt),
                0x22 => three_registers("sub   ", rd, rs, rt),
                0x24 => three_registers("and   ", rd, rs, rt),
                0x25 => three_registers("or    ", rd, rs, rt),
                0x2A => three_registers("slt   ", rd, rs, rt),
                _ => {
                    let mut line = String::from_str(
                        "Unknown RType instruction with func code: 0x",
                    );
                    push_hex(&mut line, func);
                    line
                },
            },
            _ => unreached(),
        }
    }

    /// Renders an instruction word as a line of assembly text. Every word
    /// gives a line.
    pub fn disassemble(&self, instruction: u32) -> (line: String)
        ensures
            line@ == disassembly(instruction),
    {
        let opcode = extract_opcode(instruction);

        match opcode {
            0x00 => self.disassemble_r_type(instruction),
            0x02 | 0x03 => self.disassemble_j_type(instruction, opcode),
            _ => self.disassemble_i_type(instruction, opcode),
        }
    }
}

} // verus!
