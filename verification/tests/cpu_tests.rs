use asm6502::cpu::CPU;

#[test]
fn test_0xa9_lda_immediate_load_data() {
    let mut cpu = CPU::new();
    cpu.load_and_run(vec![0xA9, 0x05, 0x00]);
    assert_eq!(cpu.register_a, 0x05);
    assert!(cpu.status & 0b0000_0010 == 0b00);
    assert!(cpu.status & 0b1000_0000 == 0);
}

#[test]
fn test_0xa9_lda_zero_flag() {
    let mut cpu = CPU::new();
    cpu.load_and_run(vec![0xA9, 0x00, 0x00]);
    assert_eq!(cpu.register_a, 0);
    assert!(cpu.status & 0b0000_0010 == 0b10);
    assert!(cpu.status & 0b1000_0000 == 0);
}

#[test]
fn test_0xa9_lda_negative_flag() {
    let mut cpu = CPU::new();
    cpu.load_and_run(vec![0xA9, 0x80, 0x00]);
    assert_eq!(cpu.register_a, 0x80);
    assert!(cpu.status & 0b0000_0010 == 0b00);
    assert!(cpu.status & 0b1000_0000 == 0b1000_0000);
}

#[test]
fn test_0xaa_tax_copies_accumulator() {
    let mut cpu = CPU::new();
    cpu.load_and_run(vec![0xA9, 0x2A, 0xAA, 0x00]);
    assert_eq!(cpu.register_a, 0x2A);
    assert_eq!(cpu.register_x, 0x2A);
    assert!(!cpu.is_running);
}

#[test]
fn test_0x85_sta_writes_zero_page() {
    let mut cpu = CPU::new();
    cpu.load_and_run(vec![0xA9, 0x77, 0x85, 0x10, 0x00]);
    assert_eq!(cpu.memory[0x10], 0x77);
    assert_eq!(cpu.program_counter, 0x8005);
}

#[test]
fn test_reset_reads_reset_vector() {
    let mut cpu = CPU::new();
    cpu.load(vec![0xA9, 0x01, 0x00]);
    cpu.reset();
    assert_eq!(cpu.program_counter, 0x8000);
    assert_eq!(cpu.memory[0x8000], 0xA9);
}
