//! The mathematical model of the processor: what a processor holds, and
//! what a big-endian word in memory means.

use vstd::prelude::*;

verus! {

/// The number of general-purpose registers.
pub const GPR_REGISTERS: usize = 32;

/// The value of the big-endian word made of four bytes, most significant first.
pub open spec fn word_of_bytes(b0: u8, b1: u8, b2: u8, b3: u8) -> u32 {
    (b0 * 0x100_0000 + b1 * 0x1_0000 + b2 * 0x100 + b3) as u32
}

/// The four bytes of a word, most significant first.
pub open spec fn bytes_of_word(value: u32) -> Seq<u8> {
    seq![
        (value / 0x100_0000) as u8,
        ((value / 0x1_0000) % 0x100) as u8,
        ((value / 0x100) % 0x100) as u8,
        (value % 0x100) as u8,
    ]
}

/// Sum of two words modulo 2^32.
pub open spec fn add32(a: u32, b: u32) -> u32 {
    ((a + b) % 0x1_0000_0000) as u32
}

/// Difference of two words modulo 2^32.
pub open spec fn sub32(a: u32, b: u32) -> u32 {
    ((a - b) % 0x1_0000_0000) as u32
}

/// The signed value of the low 16 bits of an immediate, read in two's complement.
pub open spec fn sext16(immediate: u32) -> int {
    let low = immediate % 0x1_0000;
    if low >= 0x8000 {
        low - 0x1_0000
    } else {
        low as int
    }
}

/// A word moved by a signed amount, modulo 2^32.
pub open spec fn offset32(a: u32, delta: int) -> u32 {
    ((a + delta) % 0x1_0000_0000) as u32
}

/// Everything a processor holds.
pub struct CpuState {
    /// The register file, by index.
    pub registers: Seq<u32>,
    /// The upper accumulator register.
    pub hi: u32,
    /// The lower accumulator register.
    pub lo: u32,
    /// The program counter.
    pub pc: u32,
    /// The memory, byte by byte.
    pub memory: Seq<u8>,
}

impl CpuState {
    /// There are 32 registers, and register 0 holds zero.
    pub open spec fn wf(self) -> bool {
        &&& self.registers.len() == GPR_REGISTERS
        &&& self.registers[0] == 0
    }

    /// The state right after construction or a reset: everything zero.
    pub open spec fn zeroed(memory_size: nat) -> CpuState {
        CpuState {
            registers: Seq::new(GPR_REGISTERS as nat, |i: int| 0u32),
            hi: 0,
            lo: 0,
            pc: 0,
            memory: Seq::new(memory_size, |i: int| 0u8),
        }
    }

    /// The value of a register.
    pub open spec fn reg(self, index: int) -> u32 {
        self.registers[index]
    }

    /// The state after a register write. A write to register 0 is discarded.
    pub open spec fn with_reg(self, index: int, value: u32) -> CpuState {
        if index == 0 {
            self
        } else {
            CpuState { registers: self.registers.update(index, value), ..self }
        }
    }

    /// The state with another program counter.
    pub open spec fn with_pc(self, pc: u32) -> CpuState {
        CpuState { pc, ..self }
    }

    /// The state with another upper accumulator.
    pub open spec fn with_hi(self, hi: u32) -> CpuState {
        CpuState { hi, ..self }
    }

    /// The state with another lower accumulator.
    pub open spec fn with_lo(self, lo: u32) -> CpuState {
        CpuState { lo, ..self }
    }

    /// Whether the four bytes of the word at `address` lie inside memory.
    pub open spec fn word_in_bounds(self, address: u32) -> bool {
        address + 4 <= self.memory.len()
    }

    /// The big-endian word stored at `address`.
    pub open spec fn word_at(self, address: u32) -> u32 {
        word_of_bytes(
            self.memory[address as int],
            self.memory[address + 1],
            self.memory[address + 2],
            self.memory[address + 3],
        )
    }

    /// The state after storing a big-endian word at `address`: those four
    /// bytes change, nothing else does.
    pub open spec fn with_word(self, address: u32, value: u32) -> CpuState {
        CpuState {
            memory: Seq::new(
                self.memory.len(),
                |i: int|
                    if address <= i < address + 4 {
                        bytes_of_word(value)[i - address]
                    } else {
                        self.memory[i]
                    },
            ),
            ..self
        }
    }
}

/// A word is the big-endian value of its own four bytes.
pub proof fn lemma_bytes_round_trip(value: u32)
    ensures
        bytes_of_word(value).len() == 4,
        word_of_bytes(
            bytes_of_word(value)[0],
            bytes_of_word(value)[1],
            bytes_of_word(value)[2],
            bytes_of_word(value)[3],
        ) == value,
{
}

/// A stored word reads back, and the store keeps the state well formed.
pub proof fn lemma_store_then_load(state: CpuState, address: u32, value: u32)
    requires
        state.word_in_bounds(address),
    ensures
        state.with_word(address, value).word_at(address) == value,
        state.with_word(address, value).memory.len() == state.memory.len(),
        state.with_word(address, value).registers == state.registers,
        state.wf() ==> state.with_word(address, value).wf(),
{
    lemma_bytes_round_trip(value);
}

} // verus!
