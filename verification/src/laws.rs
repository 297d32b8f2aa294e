//! Laws of the processor: facts that hold of every state and every
//! instruction, proved from the model.

use vstd::prelude::*;
use crate::disasm::disassembly;
use crate::instructions::{
    Instruction, decoded, opcode_of, rs_of, rt_of, rd_of, shamt_of, func_of, immediate_of,
    target_of, lemma_field_bounds,
};
use crate::semantics::{
    known_function, known_immediate_opcode, known_jump_opcode, jump_target, Diagnostic,
    MemoryFault, Step,
};
use crate::state::{
    CpuState, add32, sext16, word_of_bytes, bytes_of_word, lemma_store_then_load,
};

verus! {

/// The fields of a word, read as numbers: each field is the quotient of the
/// word by the weight of its lowest bit, reduced modulo the field's size.
pub proof fn lemma_fields_arithmetic(word: u32)
    ensures
        opcode_of(word) == word / 0x400_0000,
        rs_of(word) == (word / 0x20_0000) % 32,
        rt_of(word) == (word / 0x1_0000) % 32,
        rd_of(word) == (word / 0x800) % 32,
        shamt_of(word) == (word / 0x40) % 32,
        func_of(word) == word % 64,
        immediate_of(word) == word % 0x1_0000,
        target_of(word) == word % 0x4000_0000,
{
    assert((word >> 26) & 0x3F == word / 0x400_0000) by (bit_vector);
    assert((word >> 21) & 0x1F == (word / 0x20_0000) % 32) by (bit_vector);
    assert((word >> 16) & 0x1F == (word / 0x1_0000) % 32) by (bit_vector);
    assert((word >> 11) & 0x1F == (word / 0x800) % 32) by (bit_vector);
    assert((word >> 6) & 0x1F == (word / 0x40) % 32) by (bit_vector);
    assert(word & 0x3F == word % 64) by (bit_vector);
    assert(word & 0xFFFF == word % 0x1_0000) by (bit_vector);
    assert(word & 0x3FFFFFFF == word % 0x4000_0000) by (bit_vector);
}

/// Four bytes are the bytes of their own big-endian value.
pub proof fn lemma_word_round_trip(b0: u8, b1: u8, b2: u8, b3: u8)
    ensures
        bytes_of_word(word_of_bytes(b0, b1, b2, b3)) =~= seq![b0, b1, b2, b3],
{
}

/// A store leaves every word that does not overlap it unchanged.
pub proof fn lemma_store_elsewhere(state: CpuState, address: u32, value: u32, other: u32)
    requires
        state.word_in_bounds(address),
        state.word_in_bounds(other),
        other + 4 <= address || address + 4 <= other,
    ensures
        state.with_word(address, value).word_at(other) == state.word_at(other),
{
}

/// Storing the word that is already there changes nothing.
pub proof fn lemma_store_same(state: CpuState, address: u32)
    requires
        state.word_in_bounds(address),
    ensures
        state.with_word(address, state.word_at(address)) == state,
{
    lemma_word_round_trip(
        state.memory[address as int],
        state.memory[address + 1],
        state.memory[address + 2],
        state.memory[address + 3],
    );
    assert(state.with_word(address, state.word_at(address)).memory =~= state.memory);
}

/// Register 0 is constant: a write to it changes nothing, and no write to
/// any register makes it read anything but zero.
pub proof fn lemma_register_zero(state: CpuState, index: int, value: u32)
    requires
        state.wf(),
        0 <= index < 32,
    ensures
        state.with_reg(0, value) == state,
        state.with_reg(index, value).wf(),
        state.with_reg(index, value).reg(0) == 0,
        index != 0 ==> state.with_reg(index, value).reg(index) == value,
{
}

/// No instruction breaks the register file: after the dispatch of any
/// instruction there are still 32 registers and register 0 still holds zero.
pub proof fn lemma_execute_keeps_register_zero(state: CpuState, instruction: Instruction)
    requires
        state.wf(),
        instruction.wf(),
    ensures
        state.execute_state(instruction).wf(),
        state.execute_state(instruction).reg(0) == 0,
{
}

/// A cycle keeps the register file intact.
pub proof fn lemma_step_keeps_register_zero(state: CpuState)
    requires
        state.wf(),
    ensures
        state.step_state().wf(),
        state.step_state().reg(0) == 0,
{
    if state.word_in_bounds(state.pc) {
        let word = state.word_at(state.pc);
        lemma_field_bounds(word);
        lemma_execute_keeps_register_zero(state, decoded(word));
    }
}

/// A run of any length keeps the register file intact.
pub proof fn lemma_run_keeps_register_zero(state: CpuState, max_steps: nat)
    requires
        state.wf(),
    ensures
        state.run_state(max_steps).wf(),
        state.run_state(max_steps).reg(0) == 0,
    decreases max_steps,
{
    if state.runs_on(max_steps) {
        lemma_step_keeps_register_zero(state);
        lemma_run_keeps_register_zero(state.step_state(), (max_steps - 1) as nat);
    }
}

/// `add`, `sub` and `addi` wrap: the destination takes the exact sum or
/// difference reduced modulo 2^32, whatever the operands.
pub proof fn lemma_arithmetic_wraps(state: CpuState, rs: int, rt: int, rd: int, immediate: u32)
    requires
        state.wf(),
        0 <= rs < 32,
        0 <= rt < 32,
        0 < rd < 32,
    ensures
        state.op_add(rs, rt, rd).reg(rd) == (state.reg(rs) + state.reg(rt)) % 0x1_0000_0000,
        state.op_sub(rs, rt, rd).reg(rd) == (state.reg(rs) - state.reg(rt)) % 0x1_0000_0000,
        state.op_addi(rs, rd, immediate).reg(rd) == (state.reg(rs) + sext16(immediate))
            % 0x1_0000_0000,
{
}

/// The sign extension of a 16-bit immediate is its value as a two's
/// complement number: the field itself below 0x8000, and the field less
/// 0x10000 from there on.
pub proof fn lemma_sext16_range(immediate: u32)
    ensures
        -0x8000 <= sext16(immediate) < 0x8000,
        immediate < 0x8000 ==> sext16(immediate) == immediate,
        0x8000 <= immediate < 0x1_0000 ==> sext16(immediate) == immediate - 0x1_0000,
{
}

/// Memory round trip: a word stored by `sw` is the word that a following
/// `lw` from the same address loads, and the word that is read there.
pub proof fn lemma_memory_round_trip(
    state: CpuState,
    rs: int,
    rt: int,
    rd: int,
    immediate: u32,
)
    requires
        state.wf(),
        0 <= rs < 32,
        0 <= rt < 32,
        0 < rd < 32,
        state.word_in_bounds(state.effective_address(rs, immediate)),
    ensures
        state.op_sw(rs, rt, immediate).word_at(state.effective_address(rs, immediate))
            == state.reg(rt),
        state.op_sw(rs, rt, immediate).op_lw(rs, rd, immediate).reg(rd) == state.reg(rt),
{
    lemma_store_then_load(state, state.effective_address(rs, immediate), state.reg(rt));
}

/// A word written to memory is the word that `lw` loads from there.
pub proof fn lemma_load_after_write(
    state: CpuState,
    address: u32,
    value: u32,
    rs: int,
    rt: int,
    immediate: u32,
)
    requires
        state.wf(),
        0 <= rs < 32,
        0 < rt < 32,
        state.word_in_bounds(address),
        state.effective_address(rs, immediate) == address,
    ensures
        state.with_word(address, value).op_lw(rs, rt, immediate).reg(rt) == value,
{
    lemma_store_then_load(state, address, value);
}

/// A taken branch moves the program counter by four times the signed
/// immediate, modulo 2^32, and touches nothing else; a branch that is not
/// taken changes nothing. `beq` is taken exactly where `bne` is not.
pub proof fn lemma_branch(state: CpuState, rs: int, rt: int, immediate: u32)
    ensures
        state.reg(rs) == state.reg(rt) ==> state.op_beq(rs, rt, immediate) == state.with_pc(
            ((state.pc + 4 * sext16(immediate)) % 0x1_0000_0000) as u32,
        ),
        state.reg(rs) != state.reg(rt) ==> state.op_beq(rs, rt, immediate) == state,
        state.reg(rs) != state.reg(rt) ==> state.op_bne(rs, rt, immediate) == state.with_pc(
            ((state.pc + 4 * sext16(immediate)) % 0x1_0000_0000) as u32,
        ),
        state.reg(rs) == state.reg(rt) ==> state.op_bne(rs, rt, immediate) == state,
{
}

/// For a target of at most 26 bits, a jump lands in the 256 MiB region of
/// the program counter, at four times the target.
pub proof fn lemma_jump_target(pc: u32, address: u32)
    requires
        address < 0x400_0000,
    ensures
        jump_target(pc, address) == (pc / 0x1000_0000) * 0x1000_0000 + 4 * address,
{
    assert((pc & 0xF0000000) | (address << 2) == (pc / 0x1000_0000) * 0x1000_0000 + 4 * address)
        by (bit_vector)
        requires
            address < 0x400_0000,
    ;
}

/// `jr` hands the value of its register to the rule of `j` as it is: the
/// only shift is the one that `j` makes.
pub proof fn lemma_jr_is_j(state: CpuState, rs: int)
    ensures
        state.op_jr(rs) == state.op_j(state.reg(rs)),
        state.op_jr(rs) == state.with_pc(jump_target(state.pc, state.reg(rs))),
{
}

/// `jal` and `jalr` save the address of the instruction plus 4, whatever
/// the destination of the jump, and jump as `j` and `jr` do.
pub proof fn lemma_link(state: CpuState, address: u32, rs: int, rd: int)
    requires
        state.wf(),
        0 <= rs < 32,
        0 < rd < 32,
    ensures
        state.op_jal(address).reg(31) == (state.pc + 4) % 0x1_0000_0000,
        state.op_jal(address).pc == jump_target(state.pc, address),
        state.op_jalr(rs, rd).reg(rd) == (state.pc + 4) % 0x1_0000_0000,
        rs != rd ==> state.op_jalr(rs, rd).pc == jump_target(state.pc, state.reg(rs)),
        rs == rd ==> state.op_jalr(rs, rd).pc == jump_target(state.pc, add32(state.pc, 4)),
{
}

/// `add` and `sub` never fault, whatever the operands; `addi` cannot fault
/// either once the dispatcher has fetched its word.
pub proof fn lemma_arithmetic_never_faults(
    state: CpuState,
    rs: usize,
    rt: usize,
    rd: usize,
    shamt: u32,
    immediate: u32,
)
    ensures
        state.execute_result(Instruction::RType { rs, rt, rd, shamt, func: 0x20 }) == Ok::<
            Option<Diagnostic>,
            MemoryFault,
        >(None),
        state.execute_result(Instruction::RType { rs, rt, rd, shamt, func: 0x22 }) == Ok::<
            Option<Diagnostic>,
            MemoryFault,
        >(None),
        state.word_in_bounds(state.pc) && state.dispatch_opcode() == 0x08
            ==> state.execute_result(Instruction::IType { rs, rt, immediate }) == Ok::<
            Option<Diagnostic>,
            MemoryFault,
        >(None),
{
}

/// A jump target is a multiple of 4.
pub proof fn lemma_jump_target_aligned(pc: u32, address: u32)
    requires
        pc % 4 == 0,
    ensures
        jump_target(pc, address) % 4 == 0,
{
    assert(((pc & 0xF0000000) | (address << 2)) % 4 == 0) by (bit_vector)
        requires
            pc % 4 == 0,
    ;
}

/// No instruction takes the program counter off the multiples of 4.
pub proof fn lemma_execute_keeps_alignment(state: CpuState, instruction: Instruction)
    requires
        state.pc % 4 == 0,
    ensures
        state.execute_state(instruction).pc % 4 == 0,
{
    match instruction {
        Instruction::RType { rs, rt, rd, shamt, func } => {
            lemma_jump_target_aligned(state.pc, state.reg(rs as int));
        },
        Instruction::IType { rs, rt, immediate } => {},
        Instruction::JType { address } => {
            lemma_jump_target_aligned(state.pc, address);
            lemma_jump_target_aligned(state.with_reg(31, state.return_address()).pc, address);
        },
        Instruction::Unknown => {},
    }
}

/// A cycle keeps the program counter on the multiples of 4.
pub proof fn lemma_step_keeps_alignment(state: CpuState)
    requires
        state.pc % 4 == 0,
    ensures
        state.step_state().pc % 4 == 0,
{
    if state.word_in_bounds(state.pc) {
        lemma_execute_keeps_alignment(state, decoded(state.word_at(state.pc)));
    }
}

/// A run of any length keeps the program counter on the multiples of 4.
pub proof fn lemma_run_keeps_alignment(state: CpuState, max_steps: nat)
    requires
        state.pc % 4 == 0,
    ensures
        state.run_state(max_steps).pc % 4 == 0,
    decreases max_steps,
{
    if state.runs_on(max_steps) {
        lemma_step_keeps_alignment(state);
        lemma_run_keeps_alignment(state.step_state(), (max_steps - 1) as nat);
    }
}

/// An instruction that is neither a branch nor a jump leaves the program
/// counter alone, so the cycle that executes it moves on to the next word.
pub proof fn lemma_step_is_sequential(state: CpuState)
    requires
        state.step_result() matches Ok(Step::Ran(_)),
        !is_control_transfer(state.word_at(state.pc)),
    ensures
        state.step_state().pc == add32(state.pc, 4),
{
}

/// Whether a word is a branch or a jump of the instruction table: `jr`,
/// `beq`, `bne`, `j` or `jal`.
pub open spec fn is_control_transfer(word: u32) -> bool {
    let opcode = opcode_of(word);
    if opcode == 0 {
        func_of(word) == 0x08
    } else {
        opcode == 0x02 || opcode == 0x03 || opcode == 0x04 || opcode == 0x05
    }
}

/// A run can be resumed. Where a run stopped only because its steps were
/// used up, going on from there gives what one longer run gives; where it
/// halted or faulted, a longer run changes nothing.
pub proof fn lemma_run_splits(state: CpuState, first: nat, second: nat)
    ensures
        state.run_stop(first) is OutOfSteps ==> {
            &&& state.run_state(first + second) == state.run_state(first).run_state(second)
            &&& state.run_stop(first + second) == state.run_state(first).run_stop(second)
            &&& state.run_diagnostics(first + second) == state.run_diagnostics(first)
                + state.run_state(first).run_diagnostics(second)
        },
        !(state.run_stop(first) is OutOfSteps) ==> {
            &&& state.run_state(first + second) == state.run_state(first)
            &&& state.run_stop(first + second) == state.run_stop(first)
            &&& state.run_diagnostics(first + second) == state.run_diagnostics(first)
        },
    decreases first,
{
    if state.runs_on(first) {
        let next = state.step_state();
        lemma_run_splits(next, (first - 1) as nat, second);
        assert(state.runs_on(first + second));
        assert((first + second - 1) as nat == (first - 1) as nat + second);
        if state.run_stop(first) is OutOfSteps {
            assert(state.run_diagnostics(first + second) =~= state.run_diagnostics(first)
                + state.run_state(first).run_diagnostics(second));
        }
    } else if first == 0 {
        assert(state.run_diagnostics(first + second) =~= state.run_diagnostics(first)
            + state.run_state(first).run_diagnostics(second));
    } else {
        assert(!state.runs_on(first + second));
    }
}

/// Whether a word carries a code of the instruction table: a known
/// function code under opcode 0, and else a known opcode.
pub open spec fn known_word(word: u32) -> bool {
    let opcode = opcode_of(word);
    if opcode == 0 {
        known_function(func_of(word))
    } else {
        known_jump_opcode(opcode) || known_immediate_opcode(opcode)
    }
}

/// Whether a line of the disassembler reports an unknown instruction.
pub open spec fn is_unknown_text(line: Seq<char>) -> bool {
    "Unknown"@.is_prefix_of(line)
}

/// The dispatcher and the disassembler know the same codes. For the word
/// at the program counter, the dispatcher reports an unknown instruction
/// exactly where the word is outside the table, and exactly there the
/// disassembler's line starts with `Unknown`.
pub proof fn lemma_table_parity(state: CpuState, word: u32)
    requires
        state.word_in_bounds(state.pc),
        state.word_at(state.pc) == word,
    ensures
        state.diagnostic_of(decoded(word)) is None <==> known_word(word),
        !is_unknown_text(disassembly(word)) <==> known_word(word),
{
    lemma_disassembly_known(word);
}

/// The disassembler's line starts with `Unknown` exactly for the words
/// outside the table.
pub proof fn lemma_disassembly_known(word: u32)
    ensures
        is_unknown_text(disassembly(word)) <==> !known_word(word),
{
    reveal_strlit("Unknown");
    reveal_strlit("R");
    reveal_strlit(", ");
    reveal_strlit("sll   ");
    reveal_strlit("jr    ");
    reveal_strlit("add   ");
    reveal_strlit("sub   ");
    reveal_strlit("and   ");
    reveal_strlit("or    ");
    reveal_strlit("slt   ");
    reveal_strlit("beq   ");
    reveal_strlit("bne   ");
    reveal_strlit("addi  ");
    reveal_strlit("andi  ");
    reveal_strlit("ori   ");
    reveal_strlit("slti  ");
    reveal_strlit("lw    ");
    reveal_strlit("sw    ");
    reveal_strlit("j     0x");
    reveal_strlit("jal   0x");
    reveal_strlit("Unknown RType instruction with func code: 0x");
    reveal_strlit("Unknown IType instruction with opcode 0x");
    reveal_strlit("Unknown JType instruction with opcode 0x");
    let line = disassembly(word);
    let unknown = "Unknown"@;
    if known_word(word) {
        assert(line.len() > 0 && line[0] != 'U');
        assert(unknown[0] == 'U');
        if is_unknown_text(line) {
            assert(line.subrange(0, unknown.len() as int) == unknown);
            assert(line.subrange(0, unknown.len() as int)[0] == line[0]);
        }
    } else {
        assert(line.len() >= 7);
        assert(line.subrange(0, 7) =~= unknown);
    }
}

} // verus!
