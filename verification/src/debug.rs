//! Dumps of the registers and of memory as lines of text, for a caller to
//! print.

use vstd::prelude::*;
use vstd::string::*;
use crate::cpu::Cpu;
use crate::state::CpuState;
use crate::text::{decimal, hex_padded, push_decimal, push_hex_padded};

verus! {

/// A label followed by a word as `0x` and eight hexadecimal digits.
pub open spec fn labelled_word_text(label: Seq<char>, value: u32) -> Seq<char> {
    label + ": 0x"@ + hex_padded(value as nat, 8)
}

/// The line for a general-purpose register: `R`, its number and its value.
pub open spec fn register_line(index: nat, value: u32) -> Seq<char> {
    labelled_word_text("R"@ + decimal(index), value)
}

/// The line for a word of memory: its address and its value.
pub open spec fn memory_line(address: u32, value: u32) -> Seq<char> {
    labelled_word_text("0x"@ + hex_padded(address as nat, 8), value)
}

/// The register dump: the first `register_len` registers in order, then
/// the two accumulators and the program counter.
pub open spec fn register_dump(state: CpuState, register_len: nat) -> Seq<Seq<char>> {
    Seq::new(
        register_len + 3,
        |i: int|
            if i < register_len {
                register_line(i as nat, state.reg(i))
            } else if i == register_len {
                labelled_word_text("HI"@, state.hi)
            } else if i == register_len + 1 {
                labelled_word_text("LO"@, state.lo)
            } else {
                labelled_word_text("PC"@, state.pc)
            },
    )
}

/// The number of words that a memory dump from `start` up to, but not
/// including, `end` shows: one every four bytes.
pub open spec fn dump_count(start: u32, end: u32) -> nat {
    if start < end {
        ((end - start + 3) / 4) as nat
    } else {
        0
    }
}

/// The memory dump: the words at `start`, `start + 4`, and so on, as long
/// as the address is below `end`.
pub open spec fn memory_dump(state: CpuState, start: u32, end: u32) -> Seq<Seq<char>> {
    Seq::new(
        dump_count(start, end),
        |k: int| memory_line((start + 4 * k) as u32, state.word_at((start + 4 * k) as u32)),
    )
}

/// The texts of a list of lines.
pub open spec fn texts(lines: Seq<String>) -> Seq<Seq<char>> {
    Seq::new(lines.len(), |i: int| lines[i]@)
}

/// Appends `: 0x` and a word as eight hexadecimal digits.
fn push_word(line: &mut String, value: u32)
    ensures
        final(line)@ == labelled_word_text(old(line)@, value),
{
    line.append(": 0x");
    push_hex_padded(line, value, 8);
}

/// A label and a word.
fn labelled_word(label: &str, value: u32) -> (line: String)
    ensures
        line@ == labelled_word_text(label@, value),
{
    let mut line = String::from_str(label);
    push_word(&mut line, value);
    line
}

impl Cpu {
    /// The lines of a register dump: one for each of the first
    /// `register_len` registers, then `HI`, `LO` and `PC`.
    pub fn debug_registers(&self, register_len: usize) -> (lines: Vec<String>)
        requires
            self@.wf(),
            register_len <= 32,
        ensures
            texts(lines@) == register_dump(self@, register_len as nat),
    {
        let mut lines: Vec<String> = Vec::new();
        let mut i: usize = 0;
        while i < register_len
            invariant
                self@.wf(),
                i <= register_len <= 32,
                lines@.len() == i,
                forall|j: int| 0 <= j < i ==> (#[trigger] lines@[j])@ == register_line(
                    j as nat,
                    self@.reg(j),
                ),
            decreases register_len - i,
        {
            let mut line = String::from_str("R");
            push_decimal(&mut line, i as u32);
            push_word(&mut line, self.read_register(i));
            lines.push(line);
            i += 1;
        }
        lines.push(labelled_word("HI", self.get_hi()));
        lines.push(labelled_word("LO", self.get_lo()));
        lines.push(labelled_word("PC", self.get_pc()));
        assert(texts(lines@) =~= register_dump(self@, register_len as nat));
        lines
    }

    /// The lines of a memory dump: the words at `start`, `start + 4`, and
    /// so on, as long as the address is below `end`. Every word shown must
    /// lie inside memory.
    pub fn debug_memory(&self, start: u32, end: u32) -> (lines: Vec<String>)
        requires
            dump_count(start, end) > 0 ==> start + 4 * dump_count(start, end)
                <= self@.memory.len(),
        ensures
            texts(lines@) == memory_dump(self@, start, end),
    {
        let mut lines: Vec<String> = Vec::new();
        let mut address: u64 = start as u64;
        while address < end as u64
            invariant
                start <= address,
                address == start + 4 * lines@.len(),
                lines@.len() <= dump_count(start, end),
                address >= end ==> lines@.len() == dump_count(start, end),
                dump_count(start, end) > 0 ==> start + 4 * dump_count(start, end)
                    <= self@.memory.len(),
                forall|k: int| 0 <= k < lines@.len() ==> (#[trigger] lines@[k])@ == memory_line(
                    (start + 4 * k) as u32,
                    self@.word_at((start + 4 * k) as u32),
                ),
            decreases end + 4 - address,
        {
            let at = address as u32;
            let mut line = String::from_str("0x");
            push_hex_padded(&mut line, at, 8);
            push_word(&mut line, self.read_word(at));
            lines.push(line);
            address += 4;
        }
        assert(texts(lines@) =~= memory_dump(self@, start, end));
        lines
    }
}

} // verus!
