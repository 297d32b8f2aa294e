//! A small emulator core for a 32-bit, MIPS-like load/store processor.
//!
//! The crate holds the instruction decoder, the processor state with its
//! register file and big-endian memory, the per-instruction semantics, and
//! a disassembler. Every function carries a contract over a mathematical
//! model of the processor, and the contracts are machine-checked.

pub mod instructions;
pub mod state;
pub mod cpu;
pub mod semantics;
pub mod interpreter;
pub mod text;
pub mod disasm;
pub mod debug;
pub mod laws;
