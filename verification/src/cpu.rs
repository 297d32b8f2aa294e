//! The processor: its register file, accumulators, program counter and
//! byte-addressable big-endian memory, with the accessors on them.

use vstd::prelude::*;
use crate::instructions::decode_instruction;
use crate::semantics::{Diagnostic, MemoryFault, RunReport, Step, Stop};
use crate::state::{CpuState, lemma_bytes_round_trip};

verus! {

/// A processor with its memory.
#[derive(Debug)]
pub struct Cpu {
    registers: [u32; 32],
    hi: u32,
    lo: u32,
    pc: u32,
    memory: Vec<u8>,
}

impl View for Cpu {
    type V = CpuState;

    closed spec fn view(&self) -> CpuState {
        CpuState {
            registers: self.registers@,
            hi: self.hi,
            lo: self.lo,
            pc: self.pc,
            memory: self.memory@,
        }
    }
}

impl Cpu {
    /// Makes a processor with `memory_size` bytes of memory. Registers,
    /// accumulators, program counter and memory all start at zero.
    pub fn new(memory_size: usize) -> (cpu: Self)
        ensures
            cpu@ == CpuState::zeroed(memory_size as nat),
            cpu@.wf(),
    {
        let cpu = Self { registers: [0; 32], hi: 0, lo: 0, pc: 0, memory: vec![0; memory_size] };
        assert(cpu@.registers =~= CpuState::zeroed(memory_size as nat).registers);
        assert(cpu@.memory =~= CpuState::zeroed(memory_size as nat).memory);
        cpu
    }

    /// Puts the processor back into its initial state. The memory keeps its
    /// size and is filled with zeros.
    pub fn reset(&mut self)
        ensures
            final(self)@ == CpuState::zeroed(old(self)@.memory.len()),
            final(self)@.wf(),
    {
        self.registers = [0; 32];
        self.hi = 0;
        self.lo = 0;
        self.pc = 0;
        let size = self.memory.len();
        let mut i: usize = 0;
        while i < size
            invariant
                i <= size,
                self.memory@.len() == size,
                forall|j: int| 0 <= j < i ==> self.memory@[j] == 0,
                self.hi == 0,
                self.lo == 0,
                self.pc == 0,
                self.registers@ =~= Seq::new(32, |k: int| 0u32),
            decreases size - i,
        {
            self.memory[i] = 0;
            i += 1;
        }
        assert(self@.registers =~= CpuState::zeroed(size as nat).registers);
        assert(self@.memory =~= CpuState::zeroed(size as nat).memory);
    }

    /// The program counter.
    pub fn get_pc(&self) -> (pc: u32)
        ensures
            pc == self@.pc,
    {
        self.pc
    }

    /// The upper accumulator.
    pub fn get_hi(&self) -> (hi: u32)
        ensures
            hi == self@.hi,
    {
        self.hi
    }

    /// The lower accumulator.
    pub fn get_lo(&self) -> (lo: u32)
        ensures
            lo == self@.lo,
    {
        self.lo
    }

    /// Sets the upper accumulator.
    pub fn set_hi(&mut self, hi: u32)
        ensures
            final(self)@ == old(self)@.with_hi(hi),
    {
        self.hi = hi;
    }

    /// Sets the lower accumulator.
    pub fn set_lo(&mut self, lo: u32)
        ensures
            final(self)@ == old(self)@.with_lo(lo),
    {
        self.lo = lo;
    }

    /// Sets the program counter.
    pub fn set_pc(&mut self, pc: u32)
        ensures
            final(self)@ == old(self)@.with_pc(pc),
    {
        self.pc = pc;
    }

    /// The number of bytes of memory.
    pub fn memory_size(&self) -> (size: usize)
        ensures
            size == self@.memory.len(),
    {
        self.memory.len()
    }

    /// Reads a register. Register 0 reads as zero.
    pub fn read_register(&self, reg: usize) -> (value: u32)
        requires
            self@.wf(),
            reg < 32,
        ensures
            value == self@.reg(reg as int),
            reg == 0 ==> value == 0,
    {
        self.registers[reg]
    }

    /// Writes a register. A write to register 0 is discarded.
    pub fn write_register(&mut self, reg: usize, value: u32)
        requires
            old(self)@.wf(),
            reg < 32,
        ensures
            final(self)@ == old(self)@.with_reg(reg as int, value),
            final(self)@.wf(),
    {
        if reg != 0 {
            self.registers[reg] = value;
        }
    }

    /// Whether a word access at `address` stays inside memory.
    pub fn word_in_bounds(&self, address: u32) -> (inside: bool)
        ensures
            inside == self@.word_in_bounds(address),
    {
        let size = self.memory.len();
        size >= 4 && address as usize <= size - 4
    }

    /// Reads the big-endian word at `address`.
    pub fn read_word(&self, address: u32) -> (value: u32)
        requires
            self@.word_in_bounds(address),
        ensures
            value == self@.word_at(address),
    {
        let addr = address as usize;
        assert(addr + 4 <= self.memory.len());
        let b0 = self.memory[addr] as u32;
        let b1 = self.memory[addr + 1] as u32;
        let b2 = self.memory[addr + 2] as u32;
        let b3 = self.memory[addr + 3] as u32;
        b0 * 0x100_0000 + b1 * 0x1_0000 + b2 * 0x100 + b3
    }

    /// Stores `value` as a big-endian word at `address`.
    pub fn write_word(&mut self, address: u32, value: u32)
        requires
            old(self)@.word_in_bounds(address),
        ensures
            final(self)@ == old(self)@.with_word(address, value),
            final(self)@.word_at(address) == value,
            old(self)@.wf() ==> final(self)@.wf(),
    {
        let addr = address as usize;
        assert(addr + 4 <= self.memory.len());
        self.memory[addr] = (value / 0x100_0000) as u8;
        self.memory[addr + 1] = ((value / 0x1_0000) % 0x100) as u8;
        self.memory[addr + 2] = ((value / 0x100) % 0x100) as u8;
        self.memory[addr + 3] = (value % 0x100) as u8;
        proof {
            lemma_bytes_round_trip(value);
            assert(self@.memory =~= old(self)@.with_word(address, value).memory);
        }
    }

    /// Runs one fetch-decode-execute cycle.
    ///
    /// The word at the program counter is fetched. A zero word halts: the
    /// state stays as it is. Any other word is decoded and dispatched, and
    /// then the program counter is advanced by 4, on top of whatever the
    /// instruction did to it. A fault leaves the state as it was.
    pub fn step(&mut self) -> (result: Result<Step, MemoryFault>)
        requires
            old(self)@.wf(),
        ensures
            result == old(self)@.step_result(),
            final(self)@ == old(self)@.step_state(),
            final(self)@.wf(),
    {
        let pc = self.get_pc();
        if !self.word_in_bounds(pc) {
            return Err(MemoryFault { address: pc });
        }
        let instruction_word = self.read_word(pc);
        if instruction_word == 0 {
            return Ok(Step::Halted);
        }
        let instruction = decode_instruction(instruction_word);
        match self.execute_instruction(instruction) {
            Ok(diagnostic) => {
                let next_pc = self.get_pc().wrapping_add(4);
                self.set_pc(next_pc);
                Ok(Step::Ran(diagnostic))
            },
            Err(fault) => Err(fault),
        }
    }

    /// Runs cycle after cycle until the processor halts on a zero word, a
    /// word access leaves memory, or `max_steps` instructions were executed.
    pub fn run(&mut self, max_steps: u64) -> (report: RunReport)
        requires
            old(self)@.wf(),
        ensures
            final(self)@ == old(self)@.run_state(max_steps as nat),
            report.stop == old(self)@.run_stop(max_steps as nat),
            report.diagnostics@ == old(self)@.run_diagnostics(max_steps as nat),
            final(self)@.wf(),
    {
        let mut diagnostics: Vec<Diagnostic> = Vec::new();
        let mut remaining = max_steps;
        while remaining > 0
            invariant
                self@.wf(),
                old(self)@.run_state(max_steps as nat) == self@.run_state(remaining as nat),
                old(self)@.run_stop(max_steps as nat) == self@.run_stop(remaining as nat),
                old(self)@.run_diagnostics(max_steps as nat) == diagnostics@
                    + self@.run_diagnostics(remaining as nat),
            decreases remaining,
        {
            let ghost before = self@;
            match self.step() {
                Ok(Step::Ran(diagnostic)) => {
                    if let Some(diagnostic) = diagnostic {
                        diagnostics.push(diagnostic);
                    }
                    assert(old(self)@.run_diagnostics(max_steps as nat) =~= diagnostics@
                        + self@.run_diagnostics((remaining - 1) as nat));
                },
                Ok(Step::Halted) => {
                    assert(diagnostics@ + before.run_diagnostics(remaining as nat)
                        =~= diagnostics@);
                    return RunReport { stop: Stop::Halted, diagnostics };
                },
                Err(fault) => {
                    assert(diagnostics@ + before.run_diagnostics(remaining as nat)
                        =~= diagnostics@);
                    return RunReport { stop: Stop::Fault(fault), diagnostics };
                },
            }
            remaining -= 1;
        }
        assert(diagnostics@ + self@.run_diagnostics(0) =~= diagnostics@);
        let pc = self.get_pc();
        let stop = if !self.word_in_bounds(pc) {
            Stop::Fault(MemoryFault { address: pc })
        } else if self.read_word(pc) == 0 {
            Stop::Halted
        } else {
            Stop::OutOfSteps
        };
        RunReport { stop, diagnostics }
    }
}

} // verus!
