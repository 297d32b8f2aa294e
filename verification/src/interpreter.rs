//! The instruction handlers and the dispatcher that picks one of them.

use vstd::prelude::*;
use crate::cpu::Cpu;
use crate::instructions::{Instruction, extract_opcode};
use crate::semantics::{Diagnostic, MemoryFault};
use crate::state::{sext16, offset32};

verus! {

/// The low 16 bits of an immediate, sign-extended to a word.
fn sign_extend(immediate: u32) -> (extended: u32)
    ensures
        extended == offset32(0, sext16(immediate)),
        extended == sext16(immediate) || extended == sext16(immediate) + 0x1_0000_0000,
{
    let low = immediate % 0x1_0000;
    if low >= 0x8000 {
        low + 0xFFFF_0000
    } else {
        low
    }
}

impl Cpu {
    /// Applies one decoded instruction to the processor.
    ///
    /// A register-to-register instruction is dispatched by its function
    /// code. For the other shapes the opcode is that of the word at the
    /// program counter. An unknown code is reported and changes nothing. A
    /// word access outside memory, by the dispatcher or by `lw` or `sw`, is
    /// returned as a fault and changes nothing either. The program counter
    /// is not advanced here.
    pub fn execute_instruction(&mut self, instruction: Instruction) -> (result: Result<
        Option<Diagnostic>,
        MemoryFault,
    >)
        requires
            old(self)@.wf(),
            instruction.wf(),
        ensures
            result == old(self)@.execute_result(instruction),
            final(self)@ == old(self)@.execute_state(instruction),
            final(self)@.wf(),
    {
        let pc = self.get_pc();
        match instruction {
            Instruction::RType { rs, rt, rd, shamt, func } => {
                match func {
                    0x00 => self.instr_sll(rt, rd, shamt),
                    0x08 => self.instr_jr(rs),
                    0x20 => self.instr_add(rs, rt, rd),
                    0x22 => self.instr_sub(rs, rt, rd),
                    0x24 => self.instr_and(rs, rt, rd),
                    0x25 => self.instr_or(rs, rt, rd),
                    0x2A => self.instr_slt(rs, rt, rd),
                    _ => {
                        return Ok(Some(Diagnostic::UnknownRType { func, pc }));
                    },
                }
                Ok(None)
            },
            Instruction::IType { rs, rt, immediate } => {
                if !self.word_in_bounds(pc) {
                    return Err(MemoryFault { address: pc });
                }
                let opcode = extract_opcode(self.read_word(pc));
                match opcode {
                    0x04 => self.instr_beq(rs, rt, immediate),
                    0x05 => self.instr_bne(rs, rt, immediate),
                    0x08 => self.instr_addi(rs, rt, immediate),
                    0x0A => self.instr_slti(rs, rt, immediate),
                    0x0C => self.instr_andi(rs, rt, immediate),
                    0x0D => self.instr_ori(rs, rt, immediate),
                    0x23 | 0x2B => {
                        let address = self.read_register(rs).wrapping_add(sign_extend(immediate));
                        if !self.word_in_bounds(address) {
                            return Err(MemoryFault { address });
                        }
                        if opcode == 0x23 {
                            self.instr_lw(rs, rt, immediate)
                        } else {
                            self.instr_sw(rs, rt, immediate)
                        }
                    },
                    _ => {
                        return Ok(Some(Diagnostic::UnknownIType { opcode, pc }));
                    },
                }
                Ok(None)
            },
            Instruction::JType { address } => {
                if !self.word_in_bounds(pc) {
                    return Err(MemoryFault { address: pc });
                }
                let opcode = extract_opcode(self.read_word(pc));
                match opcode {
                    0x02 => self.instr_j(address),
                    0x03 => self.instr_jal(address),
                    _ => {
                        return Ok(Some(Diagnostic::UnknownJType { opcode, pc }));
                    },
                }
                Ok(None)
            },
            Instruction::Unknown => {
                if !self.word_in_bounds(pc) {
                    return Err(MemoryFault { address: pc });
                }
                Ok(Some(Diagnostic::UnknownInstruction { word: self.read_word(pc), pc }))
            },
        }
    }

    /// `add`: `rd = rs + rt`. The sum wraps; there is no overflow trap.
    #[inline(always)]
    pub fn instr_add(&mut self, rs: usize, rt: usize, rd: usize)
        requires
            old(self)@.wf(),
            rs < 32,
            rt < 32,
            rd < 32,
        ensures
            final(self)@ == old(self)@.op_add(rs as int, rt as int, rd as int),
            final(self)@.wf(),
    {
        let result = self.read_register(rs).wrapping_add(self.read_register(rt));
        self.write_register(rd, result);
    }

    /// `addi`: `rt = rs + immediate`, with the immediate sign-extended from
    /// its low 16 bits. The sum wraps.
    #[inline(always)]
    pub fn instr_addi(&mut self, rs: usize, rt: usize, immediate: u32)
        requires
            old(self)@.wf(),
            rs < 32,
            rt < 32,
        ensures
            final(self)@ == old(self)@.op_addi(rs as int, rt as int, immediate),
            final(self)@.wf(),
    {
        let result = self.read_register(rs).wrapping_add(sign_extend(immediate));
        self.write_register(rt, result);
    }

    /// `andi`: `rt = rs & immediate`, with the immediate zero-extended.
    #[inline(always)]
    pub fn instr_andi(&mut self, rs: usize, rt: usize, immediate: u32)
        requires
            old(self)@.wf(),
            rs < 32,
            rt < 32,
        ensures
            final(self)@ == old(self)@.op_andi(rs as int, rt as int, immediate),
            final(self)@.wf(),
    {
        let result = self.read_register(rs) & immediate;
        self.write_register(rt, result);
    }

    /// `ori`: `rt = rs | immediate`, with the immediate zero-extended.
    #[inline(always)]
    pub fn instr_ori(&mut self, rs: usize, rt: usize, immediate: u32)
        requires
            old(self)@.wf(),
            rs < 32,
            rt < 32,
        ensures
            final(self)@ == old(self)@.op_ori(rs as int, rt as int, immediate),
            final(self)@.wf(),
    {
        let result = self.read_register(rs) | immediate;
        self.write_register(rt, result);
    }

    /// `slt`: `rd` becomes 1 if `rs` is below `rt`, else 0. The comparison
    /// is unsigned.
    #[inline(always)]
    pub fn instr_slt(&mut self, rs: usize, rt: usize, rd: usize)
        requires
            old(self)@.wf(),
            rs < 32,
            rt < 32,
            rd < 32,
        ensures
            final(self)@ == old(self)@.op_slt(rs as int, rt as int, rd as int),
            final(self)@.wf(),
    {
        let result: u32 = if self.read_register(rs) < self.read_register(rt) {
            1
        } else {
            0
        };
        self.write_register(rd, result);
    }

    /// `sltu`: the same unsigned comparison as `slt`.
    #[inline(always)]
    pub fn instr_sltu(&mut self, rs: usize, rt: usize, rd: usize)
        requires
            old(self)@.wf(),
            rs < 32,
            rt < 32,
            rd < 32,
        ensures
            final(self)@ == old(self)@.op_slt(rs as int, rt as int, rd as int),
            final(self)@.wf(),
    {
        let result: u32 = if self.read_register(rs) < self.read_register(rt) {
            1
        } else {
            0
        };
        self.write_register(rd, result);
    }

    /// `slti`: `rt` becomes 1 if `rs` is below the immediate, else 0. The
    /// comparison is unsigned and the immediate is taken as given.
    #[inline(always)]
    pub fn instr_slti(&mut self, rs: usize, rt: usize, immediate: u32)
        requires
            old(self)@.wf(),
            rs < 32,
            rt < 32,
        ensures
            final(self)@ == old(self)@.op_slti(rs as int, rt as int, immediate),
            final(self)@.wf(),
    {
        let result: u32 = if self.read_register(rs) < immediate {
            1
        } else {
            0
        };
        self.write_register(rt, result);
    }

    /// `sltiu`: the same unsigned comparison as `slti`.
    #[inline(always)]
    pub fn instr_sltiu(&mut self, rs: usize, rt: usize, immediate: u32)
        requires
            old(self)@.wf(),
            rs < 32,
            rt < 32,
        ensures
            final(self)@ == old(self)@.op_slti(rs as int, rt as int, immediate),
            final(self)@.wf(),
    {
        let result: u32 = if self.read_register(rs) < immediate {
            1
        } else {
            0
        };
        self.write_register(rt, result);
    }

    /// `sub`: `rd = rs - rt`. The difference wraps; there is no overflow trap.
    #[inline(always)]
    pub fn instr_sub(&mut self, rs: usize, rt: usize, rd: usize)
        requires
            old(self)@.wf(),
            rs < 32,
            rt < 32,
            rd < 32,
        ensures
            final(self)@ == old(self)@.op_sub(rs as int, rt as int, rd as int),
            final(self)@.wf(),
    {
        let result = self.read_register(rs).wrapping_sub(self.read_register(rt));
        self.write_register(rd, result);
    }

    /// `and`: `rd = rs & rt`.
    #[inline(always)]
    pub fn instr_and(&mut self, rs: usize, rt: usize, rd: usize)
        requires
            old(self)@.wf(),
            rs < 32,
            rt < 32,
            rd < 32,
        ensures
            final(self)@ == old(self)@.op_and(rs as int, rt as int, rd as int),
            final(self)@.wf(),
    {
        let result = self.read_register(rs) & self.read_register(rt);
        self.write_register(rd, result);
    }

    /// `or`: `rd = rs | rt`.
    #[inline(always)]
    pub fn instr_or(&mut self, rs: usize, rt: usize, rd: usize)
        requires
            old(self)@.wf(),
            rs < 32,
            rt < 32,
            rd < 32,
        ensures
            final(self)@ == old(self)@.op_or(rs as int, rt as int, rd as int),
            final(self)@.wf(),
    {
        let result = self.read_register(rs) | self.read_register(rt);
        self.write_register(rd, result);
    }

    /// `sll`: `rd = rt << sa`. Bits shifted out at the top are lost.
    #[inline(always)]
    pub fn instr_sll(&mut self, rt: usize, rd: usize, sa: u32)
        requires
            old(self)@.wf(),
            rt < 32,
            rd < 32,
            sa < 32,
        ensures
            final(self)@ == old(self)@.op_sll(rt as int, rd as int, sa),
            final(self)@.wf(),
    {
        let result = self.read_register(rt) << sa;
        self.write_register(rd, result);
    }

    /// `lw`: `rt` takes the word at `rs + immediate`, with the immediate
    /// sign-extended and the sum wrapping. The word must lie inside memory.
    #[inline(always)]
    pub fn instr_lw(&mut self, rs: usize, rt: usize, immediate: u32)
        requires
            old(self)@.wf(),
            rs < 32,
            rt < 32,
            old(self)@.word_in_bounds(old(self)@.effective_address(rs as int, immediate)),
        ensures
            final(self)@ == old(self)@.op_lw(rs as int, rt as int, immediate),
            final(self)@.wf(),
    {
        let base = self.read_register(rs);
        let address = base.wrapping_add(sign_extend(immediate));
        let value = self.read_word(address);
        self.write_register(rt, value);
    }

    /// `sw`: the word at `rs + immediate` takes `rt`, with the immediate
    /// sign-extended and the sum wrapping. The word must lie inside memory.
    #[inline(always)]
    pub fn instr_sw(&mut self, rs: usize, rt: usize, immediate: u32)
        requires
            old(self)@.wf(),
            rs < 32,
            rt < 32,
            old(self)@.word_in_bounds(old(self)@.effective_address(rs as int, immediate)),
        ensures
            final(self)@ == old(self)@.op_sw(rs as int, rt as int, immediate),
            final(self)@.wf(),
    {
        let base = self.read_register(rs);
        let address = base.wrapping_add(sign_extend(immediate));
        let value = self.read_register(rt);
        self.write_word(address, value);
    }

    /// `beq`: if `rs` equals `rt`, the program counter moves by four times
    /// the sign-extended immediate; otherwise nothing changes.
    #[inline(always)]
    pub fn instr_beq(&mut self, rs: usize, rt: usize, immediate: u32)
        requires
            old(self)@.wf(),
            rs < 32,
            rt < 32,
        ensures
            final(self)@ == old(self)@.op_beq(rs as int, rt as int, immediate),
            final(self)@.wf(),
    {
        if self.read_register(rs) == self.read_register(rt) {
            let pc = self.get_pc();
            self.set_pc(pc.wrapping_add(sign_extend(immediate).wrapping_mul(4)));
        }
    }

    /// `bne`: if `rs` differs from `rt`, the program counter moves by four
    /// times the sign-extended immediate; otherwise nothing changes.
    #[inline(always)]
    pub fn instr_bne(&mut self, rs: usize, rt: usize, immediate: u32)
        requires
            old(self)@.wf(),
            rs < 32,
            rt < 32,
        ensures
            final(self)@ == old(self)@.op_bne(rs as int, rt as int, immediate),
            final(self)@.wf(),
    {
        if self.read_register(rs) != self.read_register(rt) {
            let pc = self.get_pc();
            self.set_pc(pc.wrapping_add(sign_extend(immediate).wrapping_mul(4)));
        }
    }

    /// `j`: the program counter keeps its top four bits and takes the
    /// target, shifted left by two, for the rest.
    #[inline(always)]
    pub fn instr_j(&mut self, address: u32)
        ensures
            final(self)@ == old(self)@.op_j(address),
            old(self)@.wf() ==> final(self)@.wf(),
    {
        let pc = (self.get_pc() & 0xF0000000) | (address << 2);
        self.set_pc(pc);
    }

    /// `jr`: jumps as `j` does, with the value of `rs` as the target. The
    /// value is handed over as it is; the only shift is the one `j` makes.
    #[inline(always)]
    pub fn instr_jr(&mut self, rs: usize)
        requires
            old(self)@.wf(),
            rs < 32,
        ensures
            final(self)@ == old(self)@.op_jr(rs as int),
            final(self)@.wf(),
    {
        let value = self.read_register(rs);
        self.instr_j(value);
    }

    /// `jal`: register 31 takes the address of the next instruction, then
    /// the processor jumps as `j` does.
    #[inline(always)]
    pub fn instr_jal(&mut self, address: u32)
        requires
            old(self)@.wf(),
        ensures
            final(self)@ == old(self)@.op_jal(address),
            final(self)@.reg(31) == old(self)@.return_address(),
            final(self)@.wf(),
    {
        let pc = self.get_pc().wrapping_add(4);
        self.write_register(31, pc);
        self.instr_j(address);
    }

    /// `jalr`: `rd` takes the address of the next instruction, then the
    /// processor jumps as `jr` does.
    #[inline(always)]
    pub fn instr_jalr(&mut self, rs: usize, rd: usize)
        requires
            old(self)@.wf(),
            rs < 32,
            rd < 32,
        ensures
            final(self)@ == old(self)@.op_jalr(rs as int, rd as int),
            rd != 0 ==> final(self)@.reg(rd as int) == old(self)@.return_address(),
            final(self)@.wf(),
    {
        let pc = self.get_pc().wrapping_add(4);
        self.write_register(rd, pc);
        self.instr_jr(rs);
    }
}

} // verus!
