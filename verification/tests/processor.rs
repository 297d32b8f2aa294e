use mips_emulator::cpu::Cpu;

#[test]
fn new_processor_is_zeroed() {
    let cpu = Cpu::new(64);
    assert_eq!(cpu.memory_size(), 64);
    assert_eq!(cpu.get_pc(), 0);
    assert_eq!(cpu.get_hi(), 0);
    assert_eq!(cpu.get_lo(), 0);
    let mut reg = 0;
    while reg < 32 {
        assert_eq!(cpu.read_register(reg), 0);
        reg += 1;
    }
    let mut address = 0;
    while address + 4 <= 64 {
        assert_eq!(cpu.read_word(address), 0);
        address += 1;
    }
}

#[test]
fn register_zero_ignores_writes() {
    let mut cpu = Cpu::new(16);
    cpu.write_register(0, 0xDEAD_BEEF);
    assert_eq!(cpu.read_register(0), 0);
    cpu.write_register(0, 1);
    assert_eq!(cpu.read_register(0), 0);
    cpu.instr_addi(0, 0, 5);
    assert_eq!(cpu.read_register(0), 0);
    cpu.write_register(31, 0xDEAD_BEEF);
    assert_eq!(cpu.read_register(31), 0xDEAD_BEEF);
    assert_eq!(cpu.read_register(0), 0);
}

#[test]
fn accessors_set_and_get() {
    let mut cpu = Cpu::new(16);
    cpu.set_hi(0x1111_2222);
    cpu.set_lo(0x3333_4444);
    cpu.set_pc(0xFFFF_FFFC);
    assert_eq!(cpu.get_hi(), 0x1111_2222);
    assert_eq!(cpu.get_lo(), 0x3333_4444);
    assert_eq!(cpu.get_pc(), 0xFFFF_FFFC);
}

#[test]
fn words_are_big_endian() {
    let mut cpu = Cpu::new(16);
    cpu.write_word(0, 0x0102_0304);
    cpu.write_word(4, 0x0506_0708);
    assert_eq!(cpu.read_word(0), 0x0102_0304);
    assert_eq!(cpu.read_word(1), 0x0203_0405);
    assert_eq!(cpu.read_word(2), 0x0304_0506);
    assert_eq!(cpu.read_word(3), 0x0405_0607);
    assert_eq!(cpu.read_word(4), 0x0506_0708);
    cpu.write_word(2, 0xFFFF_FFFF);
    assert_eq!(cpu.read_word(0), 0x0102_FFFF);
    assert_eq!(cpu.read_word(4), 0xFFFF_0708);
}

#[test]
fn word_round_trip_at_the_edges() {
    let mut cpu = Cpu::new(1024);
    cpu.write_word(100, 42);
    assert_eq!(cpu.read_word(100), 42);
    cpu.write_word(1020, 0x8000_0001);
    assert_eq!(cpu.read_word(1020), 0x8000_0001);
    cpu.write_word(0, 0xFFFF_FFFF);
    assert_eq!(cpu.read_word(0), 0xFFFF_FFFF);
    assert_eq!(cpu.read_word(100), 42);
}

#[test]
fn bounds_of_word_accesses() {
    let cpu = Cpu::new(1024);
    assert!(cpu.word_in_bounds(0));
    assert!(cpu.word_in_bounds(1020));
    assert!(!cpu.word_in_bounds(1021));
    assert!(!cpu.word_in_bounds(1024));
    assert!(!cpu.word_in_bounds(0xFFFF_FFFF));
    assert!(!Cpu::new(3).word_in_bounds(0));
    assert!(!Cpu::new(0).word_in_bounds(0));
    assert!(Cpu::new(4).word_in_bounds(0));
}

#[test]
fn reset_zeroes_and_keeps_the_size() {
    let mut cpu = Cpu::new(32);
    cpu.write_register(7, 99);
    cpu.set_hi(1);
    cpu.set_lo(2);
    cpu.set_pc(12);
    cpu.write_word(28, 0xFFFF_FFFF);
    cpu.reset();
    assert_eq!(cpu.memory_size(), 32);
    assert_eq!(cpu.read_register(7), 0);
    assert_eq!(cpu.get_hi(), 0);
    assert_eq!(cpu.get_lo(), 0);
    assert_eq!(cpu.get_pc(), 0);
    assert_eq!(cpu.read_word(28), 0);
    assert_eq!(cpu.read_word(0), 0);
}

#[test]
fn register_dump_lines() {
    let mut cpu = Cpu::new(16);
    cpu.write_register(1, 0x1234);
    cpu.write_register(10, 0xFFFF_FFFF);
    cpu.set_hi(0xAB);
    cpu.set_lo(0xCD00);
    cpu.set_pc(8);
    assert_eq!(
        cpu.debug_registers(2),
        vec!["R0: 0x00000000", "R1: 0x00001234", "HI: 0x000000ab", "LO: 0x0000cd00", "PC: 0x00000008"]
    );
    assert_eq!(
        cpu.debug_registers(0),
        vec!["HI: 0x000000ab", "LO: 0x0000cd00", "PC: 0x00000008"]
    );
    let all = cpu.debug_registers(32);
    assert_eq!(all.len(), 35);
    assert_eq!(all[10], "R10: 0xffffffff");
    assert_eq!(all[31], "R31: 0x00000000");
    assert_eq!(all[34], "PC: 0x00000008");
}

#[test]
fn memory_dump_lines() {
    let mut cpu = Cpu::new(16);
    cpu.write_word(0, 0x0043_0820);
    cpu.write_word(4, 42);
    cpu.write_word(12, 0xFFFF_FFFF);
    assert_eq!(
        cpu.debug_memory(0, 8),
        vec!["0x00000000: 0x00430820", "0x00000004: 0x0000002a"]
    );
    assert_eq!(
        cpu.debug_memory(0, 5),
        vec!["0x00000000: 0x00430820", "0x00000004: 0x0000002a"]
    );
    assert_eq!(cpu.debug_memory(12, 16), vec!["0x0000000c: 0xffffffff"]);
    assert_eq!(cpu.debug_memory(3, 5), vec!["0x00000003: 0x20000000"]);
    assert!(cpu.debug_memory(4, 4).is_empty());
    assert!(cpu.debug_memory(8, 4).is_empty());
    assert!(cpu.debug_memory(100, 100).is_empty());
    assert_eq!(cpu.debug_memory(0, 16).len(), 4);
}
