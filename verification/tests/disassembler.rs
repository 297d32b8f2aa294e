use mips_emulator::cpu::Cpu;
use mips_emulator::text::{push_decimal, push_hex, push_hex_padded, push_signed};

fn line(word: u32) -> String {
    Cpu::new(0).disassemble(word)
}

#[test]
fn register_instructions_render() {
    assert_eq!(line(0x0043_0820), "add   R1, R2, R3");
    assert_eq!(line(0x0022_2022), "sub   R4, R1, R2");
    assert_eq!(line(0x0022_1824), "and   R3, R1, R2");
    assert_eq!(line(0x0022_1825), "or    R3, R1, R2");
    assert_eq!(line(0x0022_182A), "slt   R3, R1, R2");
    assert_eq!(line(0x0002_08C0), "sll   R1, R2, 3");
    assert_eq!(line(0x03E0_0008), "jr    R31");
    assert_eq!(line(0), "sll   R0, R0, 0");
}

#[test]
fn immediate_instructions_render() {
    assert_eq!(line(0x2043_FFFF), "addi  R3, R2, -1");
    assert_eq!(line(0x2043_000A), "addi  R3, R2, 10");
    assert_eq!(line(0x3024_FFFF), "andi  R4, R1, 65535");
    assert_eq!(line(0x3445_0019), "ori   R5, R2, 25");
    assert_eq!(line(0x2841_8000), "slti  R1, R2, -32768");
    assert_eq!(line(0x2841_7FFF), "slti  R1, R2, 32767");
    assert_eq!(line(0x1022_0004), "beq   R1, R2, 4");
    assert_eq!(line(0x1422_FFFE), "bne   R1, R2, -2");
}

#[test]
fn memory_instructions_render() {
    assert_eq!(line(0x8CC5_0000), "lw    R5, 0(R6)");
    assert_eq!(line(0xACC5_0000), "sw    R5, 0(R6)");
    assert_eq!(line(0x8C01_0064), "lw    R1, 100(R0)");
    assert_eq!(line(0xAFFF_FFFC), "sw    R31, -4(R31)");
}

#[test]
fn jumps_render_the_thirty_bit_target() {
    assert_eq!(line(0x0800_0010), "j     0x08000010");
    assert_eq!(line(0x0C00_0010), "jal   0x0c000010");
    assert_eq!(line(0x0FFF_FFFF), "jal   0x0fffffff");
    assert_eq!(line(0x0800_0000), "j     0x08000000");
}

#[test]
fn unknown_codes_render_as_unknown() {
    assert_eq!(line(0x0000_003F), "Unknown RType instruction with func code: 0x3f");
    assert_eq!(line(0x0000_0001), "Unknown RType instruction with func code: 0x1");
    assert_eq!(line(0x0000_0009), "Unknown RType instruction with func code: 0x9");
    assert_eq!(line(0xFC00_0000), "Unknown IType instruction with opcode 0x3f");
    assert_eq!(line(0x0400_0000), "Unknown IType instruction with opcode 0x1");
    assert_eq!(line(0x4000_0000), "Unknown IType instruction with opcode 0x10");
}

#[test]
fn layout_renderers_take_the_opcode_as_given() {
    let cpu = Cpu::new(0);
    assert_eq!(cpu.disassemble_r_type(0x0043_0820), "add   R1, R2, R3");
    assert_eq!(cpu.disassemble_i_type(0x8CC5_0000, 0x23), "lw    R5, 0(R6)");
    assert_eq!(cpu.disassemble_i_type(0x8CC5_0000, 0x2B), "sw    R5, 0(R6)");
    assert_eq!(cpu.disassemble_i_type(0x8CC5_0000, 0), "Unknown IType instruction with opcode 0x0");
    assert_eq!(cpu.disassemble_j_type(0x0800_0010, 2), "j     0x08000010");
    assert_eq!(cpu.disassemble_j_type(0x0800_0010, 3), "jal   0x08000010");
    assert_eq!(
        cpu.disassemble_j_type(0x0800_0010, 8),
        "Unknown JType instruction with opcode 0x8"
    );
}

#[test]
fn table_parity_over_all_codes() {
    let known_functions = [0x00u32, 0x08, 0x20, 0x22, 0x24, 0x25, 0x2A];
    let known_opcodes = [0x02u32, 0x03, 0x04, 0x05, 0x08, 0x0A, 0x0C, 0x0D, 0x23, 0x2B];
    let mut code: u32 = 0;
    while code < 64 {
        let as_function = line(code);
        assert_eq!(!as_function.starts_with("Unknown"), known_functions.contains(&code));
        if code != 0 {
            let as_opcode = line(code << 26);
            assert_eq!(!as_opcode.starts_with("Unknown"), known_opcodes.contains(&code));
        }
        code += 1;
    }
}

#[test]
fn decimal_text() {
    let mut out = String::new();
    push_decimal(&mut out, 0);
    assert_eq!(out, "0");
    push_decimal(&mut out, 4_294_967_295);
    assert_eq!(out, "04294967295");
    let mut out = String::from("x");
    push_decimal(&mut out, 1_000);
    assert_eq!(out, "x1000");
    let mut out = String::new();
    push_decimal(&mut out, 907);
    assert_eq!(out, "907");
}

#[test]
fn signed_text() {
    let mut out = String::new();
    push_signed(&mut out, 0x8000);
    assert_eq!(out, "-32768");
    let mut out = String::new();
    push_signed(&mut out, 0xFFFF);
    assert_eq!(out, "-1");
    let mut out = String::new();
    push_signed(&mut out, 0x7FFF);
    assert_eq!(out, "32767");
    let mut out = String::new();
    push_signed(&mut out, 0x0001_2345);
    assert_eq!(out, "9029");
    let mut out = String::new();
    push_signed(&mut out, 0);
    assert_eq!(out, "0");
}

#[test]
fn hexadecimal_text() {
    let mut out = String::new();
    push_hex(&mut out, 0);
    assert_eq!(out, "0");
    let mut out = String::new();
    push_hex(&mut out, 255);
    assert_eq!(out, "ff");
    let mut out = String::new();
    push_hex(&mut out, 0xDEAD_BEEF);
    assert_eq!(out, "deadbeef");
    let mut out = String::new();
    push_hex_padded(&mut out, 0xABC, 8);
    assert_eq!(out, "00000abc");
    let mut out = String::new();
    push_hex_padded(&mut out, 0x1234_5678, 4);
    assert_eq!(out, "5678");
    let mut out = String::from("z");
    push_hex_padded(&mut out, 7, 0);
    assert_eq!(out, "z");
}
