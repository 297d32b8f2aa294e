//! What each instruction does to the processor state, as functions on the
//! model, and the table of codes that the processor knows.

use vstd::prelude::*;
use crate::instructions::{Instruction, opcode_of, decoded};
use crate::state::{CpuState, add32, sub32, sext16, offset32};

verus! {

/// A word access that does not lie inside memory.
#[derive(Debug, Clone, Copy, PartialEq, Eq, Structural)]
pub struct MemoryFault {
    /// The address of the word.
    pub address: u32,
}

/// What the processor reports about an instruction that it does not know.
/// Each report carries the offending code and the program counter.
#[derive(Debug, Clone, Copy, PartialEq, Eq, Structural)]
pub enum Diagnostic {
    /// A register-to-register instruction with an unknown function code.
    UnknownRType { func: u32, pc: u32 },
    /// A register-and-immediate instruction under an unknown opcode.
    UnknownIType { opcode: u32, pc: u32 },
    /// A jump instruction under an opcode that is no jump.
    UnknownJType { opcode: u32, pc: u32 },
    /// An instruction of no shape, with the word at the program counter.
    UnknownInstruction { word: u32, pc: u32 },
}

/// How one fetch-decode-execute cycle ended.
#[derive(Debug, Clone, Copy, PartialEq, Eq, Structural)]
pub enum Step {
    /// The word at the program counter was zero; nothing was executed.
    Halted,
    /// An instruction was dispatched, with what the dispatcher reported.
    Ran(Option<Diagnostic>),
}

/// Why a run stopped.
#[derive(Debug, Clone, Copy, PartialEq, Eq, Structural)]
pub enum Stop {
    /// The word at the program counter was zero.
    Halted,
    /// The allowed number of instructions was executed.
    OutOfSteps,
    /// A word access left memory.
    Fault(MemoryFault),
}

/// What a run hands back.
#[derive(Debug)]
pub struct RunReport {
    /// Why the run stopped.
    pub stop: Stop,
    /// The reports on unknown instructions, in the order they were met.
    pub diagnostics: Vec<Diagnostic>,
}

/// The function codes of the register-to-register instructions:
/// `sll`, `jr`, `add`, `sub`, `and`, `or`, `slt`.
pub open spec fn known_function(func: u32) -> bool {
    func == 0x00 || func == 0x08 || func == 0x20 || func == 0x22 || func == 0x24 || func == 0x25
        || func == 0x2A
}

/// The opcodes of the two memory instructions, `lw` and `sw`.
pub open spec fn memory_opcode(opcode: u32) -> bool {
    opcode == 0x23 || opcode == 0x2B
}

/// The opcodes of the register-and-immediate instructions:
/// `beq`, `bne`, `addi`, `slti`, `andi`, `ori`, `lw`, `sw`.
pub open spec fn known_immediate_opcode(opcode: u32) -> bool {
    opcode == 0x04 || opcode == 0x05 || opcode == 0x08 || opcode == 0x0A || opcode == 0x0C
        || opcode == 0x0D || memory_opcode(opcode)
}

/// The opcodes of the jump instructions: `j`, `jal`.
pub open spec fn known_jump_opcode(opcode: u32) -> bool {
    opcode == 0x02 || opcode == 0x03
}

/// Where a jump lands: the top four bits of the program counter joined with
/// the target shifted left by two.
pub open spec fn jump_target(pc: u32, address: u32) -> u32 {
    (pc & 0xF0000000) | (address << 2)
}

/// 1 if `a` is below `b` as unsigned numbers, else 0.
pub open spec fn below(a: u32, b: u32) -> u32 {
    if a < b {
        1
    } else {
        0
    }
}

impl CpuState {
    /// `add`: `rd = rs + rt`, modulo 2^32.
    pub open spec fn op_add(self, rs: int, rt: int, rd: int) -> CpuState {
        self.with_reg(rd, add32(self.reg(rs), self.reg(rt)))
    }

    /// `sub`: `rd = rs - rt`, modulo 2^32.
    pub open spec fn op_sub(self, rs: int, rt: int, rd: int) -> CpuState {
        self.with_reg(rd, sub32(self.reg(rs), self.reg(rt)))
    }

    /// `and`: `rd = rs & rt`.
    pub open spec fn op_and(self, rs: int, rt: int, rd: int) -> CpuState {
        self.with_reg(rd, self.reg(rs) & self.reg(rt))
    }

    /// `or`: `rd = rs | rt`.
    pub open spec fn op_or(self, rs: int, rt: int, rd: int) -> CpuState {
        self.with_reg(rd, self.reg(rs) | self.reg(rt))
    }

    /// `slt`: `rd` is 1 if `rs` is below `rt`, unsigned, else 0.
    pub open spec fn op_slt(self, rs: int, rt: int, rd: int) -> CpuState {
        self.with_reg(rd, below(self.reg(rs), self.reg(rt)))
    }

    /// `sll`: `rd = rt << sa`.
    pub open spec fn op_sll(self, rt: int, rd: int, sa: u32) -> CpuState {
        self.with_reg(rd, self.reg(rt) << sa)
    }

    /// `addi`: `rt = rs + immediate`, the immediate sign-extended from 16
    /// bits, modulo 2^32.
    pub open spec fn op_addi(self, rs: int, rt: int, immediate: u32) -> CpuState {
        self.with_reg(rt, offset32(self.reg(rs), sext16(immediate)))
    }

    /// `andi`: `rt = rs & immediate`, the immediate zero-extended.
    pub open spec fn op_andi(self, rs: int, rt: int, immediate: u32) -> CpuState {
        self.with_reg(rt, self.reg(rs) & immediate)
    }

    /// `ori`: `rt = rs | immediate`, the immediate zero-extended.
    pub open spec fn op_ori(self, rs: int, rt: int, immediate: u32) -> CpuState {
        self.with_reg(rt, self.reg(rs) | immediate)
    }

    /// `slti`: `rt` is 1 if `rs` is below the immediate, unsigned, else 0.
    pub open spec fn op_slti(self, rs: int, rt: int, immediate: u32) -> CpuState {
        self.with_reg(rt, below(self.reg(rs), immediate))
    }

    /// The address that `lw` and `sw` access: `rs` plus the sign-extended
    /// immediate, modulo 2^32.
    pub open spec fn effective_address(self, rs: int, immediate: u32) -> u32 {
        offset32(self.reg(rs), sext16(immediate))
    }

    /// `lw`: `rt` takes the word at the effective address.
    pub open spec fn op_lw(self, rs: int, rt: int, immediate: u32) -> CpuState {
        self.with_reg(rt, self.word_at(self.effective_address(rs, immediate)))
    }

    /// `sw`: the word at the effective address takes `rt`.
    pub open spec fn op_sw(self, rs: int, rt: int, immediate: u32) -> CpuState {
        self.with_word(self.effective_address(rs, immediate), self.reg(rt))
    }

    /// Where a taken branch lands: the program counter moved by four times
    /// the sign-extended immediate, modulo 2^32.
    pub open spec fn branch_target(self, immediate: u32) -> u32 {
        offset32(self.pc, 4 * sext16(immediate))
    }

    /// `beq`: branch if `rs` equals `rt`.
    pub open spec fn op_beq(self, rs: int, rt: int, immediate: u32) -> CpuState {
        if self.reg(rs) == self.reg(rt) {
            self.with_pc(self.branch_target(immediate))
        } else {
            self
        }
    }

    /// `bne`: branch if `rs` differs from `rt`.
    pub open spec fn op_bne(self, rs: int, rt: int, immediate: u32) -> CpuState {
        if self.reg(rs) != self.reg(rt) {
            self.with_pc(self.branch_target(immediate))
        } else {
            self
        }
    }

    /// `j`: jump.
    pub open spec fn op_j(self, address: u32) -> CpuState {
        self.with_pc(jump_target(self.pc, address))
    }

    /// `jr`: jump, with the value of `rs` as the target.
    pub open spec fn op_jr(self, rs: int) -> CpuState {
        self.op_j(self.reg(rs))
    }

    /// The address of the instruction after the current one.
    pub open spec fn return_address(self) -> u32 {
        add32(self.pc, 4)
    }

    /// `jal`: register 31 takes the return address, then jump.
    pub open spec fn op_jal(self, address: u32) -> CpuState {
        self.with_reg(31, self.return_address()).op_j(address)
    }

    /// `jalr`: `rd` takes the return address, then jump with the value of
    /// `rs` as the target. The value of `rs` is read after `rd` is written.
    pub open spec fn op_jalr(self, rs: int, rd: int) -> CpuState {
        self.with_reg(rd, self.return_address()).op_jr(rs)
    }
}

impl CpuState {
    /// The opcode that the dispatcher goes by: that of the word at the
    /// program counter.
    pub open spec fn dispatch_opcode(self) -> u32 {
        opcode_of(self.word_at(self.pc))
    }

    /// The state after a register-to-register instruction. An unknown
    /// function code changes nothing.
    pub open spec fn execute_r_type(self, rs: int, rt: int, rd: int, shamt: u32, func: u32)
        -> CpuState {
        if func == 0x00 {
            self.op_sll(rt, rd, shamt)
        } else if func == 0x08 {
            self.op_jr(rs)
        } else if func == 0x20 {
            self.op_add(rs, rt, rd)
        } else if func == 0x22 {
            self.op_sub(rs, rt, rd)
        } else if func == 0x24 {
            self.op_and(rs, rt, rd)
        } else if func == 0x25 {
            self.op_or(rs, rt, rd)
        } else if func == 0x2A {
            self.op_slt(rs, rt, rd)
        } else {
            self
        }
    }

    /// The state after a register-and-immediate instruction under the given
    /// opcode. An unknown opcode changes nothing.
    pub open spec fn execute_i_type(self, opcode: u32, rs: int, rt: int, immediate: u32)
        -> CpuState {
        if opcode == 0x04 {
            self.op_beq(rs, rt, immediate)
        } else if opcode == 0x05 {
            self.op_bne(rs, rt, immediate)
        } else if opcode == 0x08 {
            self.op_addi(rs, rt, immediate)
        } else if opcode == 0x0A {
            self.op_slti(rs, rt, immediate)
        } else if opcode == 0x0C {
            self.op_andi(rs, rt, immediate)
        } else if opcode == 0x0D {
            self.op_ori(rs, rt, immediate)
        } else if opcode == 0x23 {
            self.op_lw(rs, rt, immediate)
        } else if opcode == 0x2B {
            self.op_sw(rs, rt, immediate)
        } else {
            self
        }
    }

    /// The state after a jump instruction under the given opcode. An
    /// opcode that is no jump changes nothing.
    pub open spec fn execute_j_type(self, opcode: u32, address: u32) -> CpuState {
        if opcode == 0x02 {
            self.op_j(address)
        } else if opcode == 0x03 {
            self.op_jal(address)
        } else {
            self
        }
    }

    /// The word access that stops the dispatch of an instruction, if there
    /// is one. Every shape but the register-to-register one makes the
    /// dispatcher read the word at the program counter, and `lw` and `sw`
    /// access the word at their effective address.
    pub open spec fn fault_of(self, instruction: Instruction) -> Option<MemoryFault> {
        match instruction {
            Instruction::RType { rs, rt, rd, shamt, func } => None,
            Instruction::IType { rs, rt, immediate } => {
                let address = self.effective_address(rs as int, immediate);
                if !self.word_in_bounds(self.pc) {
                    Some(MemoryFault { address: self.pc })
                } else if memory_opcode(self.dispatch_opcode()) && !self.word_in_bounds(address) {
                    Some(MemoryFault { address })
                } else {
                    None
                }
            },
            Instruction::JType { address } => if !self.word_in_bounds(self.pc) {
                Some(MemoryFault { address: self.pc })
            } else {
                None
            },
            Instruction::Unknown => if !self.word_in_bounds(self.pc) {
                Some(MemoryFault { address: self.pc })
            } else {
                None
            },
        }
    }

    /// What the dispatcher reports about an instruction, where no word
    /// access stops it: nothing for a known code, else the unknown code.
    pub open spec fn diagnostic_of(self, instruction: Instruction) -> Option<Diagnostic> {
        match instruction {
            Instruction::RType { rs, rt, rd, shamt, func } => if known_function(func) {
                None
            } else {
                Some(Diagnostic::UnknownRType { func, pc: self.pc })
            },
            Instruction::IType { rs, rt, immediate } => if known_immediate_opcode(
                self.dispatch_opcode(),
            ) {
                None
            } else {
                Some(Diagnostic::UnknownIType { opcode: self.dispatch_opcode(), pc: self.pc })
            },
            Instruction::JType { address } => if known_jump_opcode(self.dispatch_opcode()) {
                None
            } else {
                Some(Diagnostic::UnknownJType { opcode: self.dispatch_opcode(), pc: self.pc })
            },
            Instruction::Unknown => Some(
                Diagnostic::UnknownInstruction { word: self.word_at(self.pc), pc: self.pc },
            ),
        }
    }

    /// What the dispatch of an instruction returns.
    pub open spec fn execute_result(self, instruction: Instruction) -> Result<
        Option<Diagnostic>,
        MemoryFault,
    > {
        match self.fault_of(instruction) {
            Some(fault) => Err(fault),
            None => Ok(self.diagnostic_of(instruction)),
        }
    }

    /// The state after the dispatch of an instruction. A fault leaves the
    /// state as it was, and so does an unknown code.
    pub open spec fn execute_state(self, instruction: Instruction) -> CpuState {
        if self.fault_of(instruction) is Some {
            self
        } else {
            match instruction {
                Instruction::RType { rs, rt, rd, shamt, func } => self.execute_r_type(
                    rs as int,
                    rt as int,
                    rd as int,
                    shamt,
                    func,
                ),
                Instruction::IType { rs, rt, immediate } => self.execute_i_type(
                    self.dispatch_opcode(),
                    rs as int,
                    rt as int,
                    immediate,
                ),
                Instruction::JType { address } => self.execute_j_type(
                    self.dispatch_opcode(),
                    address,
                ),
                Instruction::Unknown => self,
            }
        }
    }

    /// How one fetch-decode-execute cycle ends: with a fault if the word at
    /// the program counter lies outside memory, halted if that word is
    /// zero, and else as the dispatch of the decoded word ends.
    pub open spec fn step_result(self) -> Result<Step, MemoryFault> {
        if !self.word_in_bounds(self.pc) {
            Err(MemoryFault { address: self.pc })
        } else if self.word_at(self.pc) == 0 {
            Ok(Step::Halted)
        } else {
            match self.execute_result(decoded(self.word_at(self.pc))) {
                Ok(diagnostic) => Ok(Step::Ran(diagnostic)),
                Err(fault) => Err(fault),
            }
        }
    }

    /// The state after one cycle. Where an instruction was dispatched, the
    /// program counter that the instruction left is advanced by 4; a halt
    /// or a fault leaves the state as it was.
    pub open spec fn step_state(self) -> CpuState {
        if self.step_result() matches Ok(Step::Ran(_)) {
            let after = self.execute_state(decoded(self.word_at(self.pc)));
            after.with_pc(add32(after.pc, 4))
        } else {
            self
        }
    }

    /// Why a run stops right here without executing anything, when no
    /// instruction may be executed any more.
    pub open spec fn stop_here(self) -> Stop {
        if !self.word_in_bounds(self.pc) {
            Stop::Fault(MemoryFault { address: self.pc })
        } else if self.word_at(self.pc) == 0 {
            Stop::Halted
        } else {
            Stop::OutOfSteps
        }
    }

    /// Whether a run that may still execute `max_steps` instructions goes
    /// through another cycle from here.
    pub open spec fn runs_on(self, max_steps: nat) -> bool {
        max_steps > 0 && self.step_result() matches Ok(Step::Ran(_))
    }

    /// The state in which a run of at most `max_steps` instructions stops.
    pub open spec fn run_state(self, max_steps: nat) -> CpuState
        decreases max_steps,
    {
        if self.runs_on(max_steps) {
            self.step_state().run_state((max_steps - 1) as nat)
        } else {
            self
        }
    }

    /// Why a run of at most `max_steps` instructions stops: at the first
    /// fault, at the first zero word under the program counter, or else
    /// after `max_steps` instructions.
    pub open spec fn run_stop(self, max_steps: nat) -> Stop
        decreases max_steps,
    {
        if self.runs_on(max_steps) {
            self.step_state().run_stop((max_steps - 1) as nat)
        } else if max_steps == 0 {
            self.stop_here()
        } else {
            match self.step_result() {
                Err(fault) => Stop::Fault(fault),
                Ok(_) => Stop::Halted,
            }
        }
    }

    /// The reports on unknown instructions that a run of at most
    /// `max_steps` instructions collects, in order.
    pub open spec fn run_diagnostics(self, max_steps: nat) -> Seq<Diagnostic>
        decreases max_steps,
    {
        if self.runs_on(max_steps) {
            let rest = self.step_state().run_diagnostics((max_steps - 1) as nat);
            match self.step_result() {
                Ok(Step::Ran(Some(diagnostic))) => seq![diagnostic] + rest,
                _ => rest,
            }
        } else {
            Seq::empty()
        }
    }
}

} // verus!
