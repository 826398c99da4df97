use cpu6502::cpu::Flag;
use cpu6502::cpu::Opcode;
use cpu6502::cpu::Register;
use cpu6502::cpu::RunError;
use cpu6502::cpu::CPU;

#[test]
fn test_0xa9_lda_immediate_load_data() {
    let mut cpu = CPU::new();
    cpu.interpret(&[0xa9, 0x05, 0x00]).unwrap();
    assert_eq!(cpu.register_a, 0x05);
    assert_eq!(cpu.get_flag(Flag::Zero), false);
    assert_eq!(cpu.get_flag(Flag::Negative), false);
}

#[test]
fn test_0xa9_lda_zero_flag() {
    let mut cpu = CPU::new();
    cpu.interpret(&[0xa9, 0x00, 0x00]).unwrap();
    assert_eq!(cpu.get_flag(Flag::Zero), true);
    assert_eq!(cpu.get_flag(Flag::Negative), false);
}

#[test]
fn test_0xaa_tax_move_a_to_x() {
    let mut cpu = CPU::new();
    cpu.register_a = 10;
    cpu.interpret(&[0xAA, 0x00]).unwrap();

    assert_eq!(cpu.register_x, 0xA);
    assert_eq!(cpu.get_flag(Flag::Zero), false);
    assert_eq!(cpu.get_flag(Flag::Negative), false);
}

#[test]
fn test_5_ops_working_together() {
    let mut cpu = CPU::new();
    cpu.interpret(&[0xa9, 0xc0, 0xaa, 0xe8, 0x00]).unwrap();

    assert_eq!(cpu.register_x, 0xc1)
}

#[test]
fn test_inx_overflow() {
    let mut cpu = CPU::new();
    cpu.register_x = 0xff;
    cpu.interpret(&[0xe8, 0xe8, 0x00]).unwrap();

    assert_eq!(cpu.register_x, 1)
}

#[test]
fn test_write_register_flags_every_value() {
    for value in 0..=255u8 {
        let mut cpu = CPU::new();
        cpu.register_x = 0x33;
        cpu.set_register(Register::A, value);
        assert_eq!(cpu.register_a, value);
        assert_eq!(cpu.register_x, 0x33);
        assert_eq!(cpu.get_flag(Flag::Zero), value == 0);
        assert_eq!(cpu.get_flag(Flag::Negative), value & 0x80 != 0);
    }
}

#[test]
fn test_unknown_opcode_faults_without_register_mutation() {
    let mut cpu = CPU::new();
    cpu.register_a = 7;
    cpu.register_x = 9;
    cpu.status = 0x80;
    let result = cpu.interpret(&[0xFF, 0x00]);
    assert_eq!(result, Err(RunError::UnimplementedOpcode(0xFF)));
    assert_eq!(cpu.register_a, 7);
    assert_eq!(cpu.register_x, 9);
    assert_eq!(cpu.status, 0x80);
    assert_eq!(cpu.program_counter, 1);
}

#[test]
fn test_empty_program_out_of_bounds() {
    let mut cpu = CPU::new();
    let result = cpu.interpret(&[]);
    assert_eq!(result, Err(RunError::OutOfBoundsFetch(0)));
    assert_eq!(cpu.program_counter, 0);
}

#[test]
fn test_missing_lda_operand_out_of_bounds() {
    let mut cpu = CPU::new();
    let result = cpu.interpret(&[0xa9]);
    assert_eq!(result, Err(RunError::OutOfBoundsFetch(1)));
    assert_eq!(cpu.program_counter, 1);
    assert_eq!(cpu.register_a, 0);
}

#[test]
fn test_missing_halt_out_of_bounds_after_effect() {
    let mut cpu = CPU::new();
    let result = cpu.interpret(&[0xa9, 0x05]);
    assert_eq!(result, Err(RunError::OutOfBoundsFetch(2)));
    assert_eq!(cpu.register_a, 0x05);
    assert_eq!(cpu.program_counter, 2);
}

#[test]
fn test_negative_flag_set_by_high_bit() {
    let mut cpu = CPU::new();
    cpu.interpret(&[0xa9, 0x80, 0x00]).unwrap();
    assert_eq!(cpu.register_a, 0x80);
    assert_eq!(cpu.get_flag(Flag::Zero), false);
    assert_eq!(cpu.get_flag(Flag::Negative), true);
}

#[test]
fn test_reserved_status_bits_kept() {
    let mut cpu = CPU::new();
    cpu.status = 0b0010_0001;
    cpu.interpret(&[0xa9, 0x05, 0x00]).unwrap();
    assert_eq!(cpu.status & 0b0010_0001, 0b0010_0001);
    assert_eq!(cpu.get_flag(Flag::Zero), false);
    assert_eq!(cpu.get_flag(Flag::Negative), false);
}

#[test]
fn test_fresh_runs_end_identically() {
    let program = [0xa9, 0xc0, 0xaa, 0xe8, 0x00];
    let mut first = CPU::new();
    first.interpret(&program).unwrap();
    let mut second = CPU::new();
    second.interpret(&program).unwrap();
    assert_eq!(first, second);
}

#[test]
fn test_set_and_get_flag_roundtrip() {
    let mut cpu = CPU::new();
    cpu.set_flag(Flag::Negative, true);
    assert_eq!(cpu.get_flag(Flag::Negative), true);
    assert_eq!(cpu.get_flag(Flag::Zero), false);
    assert_eq!(cpu.status, 0x80);
    cpu.set_flag(Flag::Zero, true);
    assert_eq!(cpu.status, 0x82);
    cpu.set_flag(Flag::Negative, false);
    assert_eq!(cpu.get_flag(Flag::Negative), false);
    assert_eq!(cpu.get_flag(Flag::Zero), true);
    assert_eq!(cpu.status, 0x02);
}

#[test]
fn test_inc_register_reads_accumulator() {
    let mut cpu = CPU::new();
    cpu.register_a = 3;
    cpu.register_x = 9;
    cpu.inc_register(Register::X);
    assert_eq!(cpu.register_x, 4);
    assert_eq!(cpu.register_a, 3);
}

#[test]
fn test_inc_register_wraps_to_zero() {
    let mut cpu = CPU::new();
    cpu.register_a = 0xFF;
    cpu.inc_register(Register::A);
    assert_eq!(cpu.register_a, 0);
    assert_eq!(cpu.get_flag(Flag::Zero), true);
    assert_eq!(cpu.get_flag(Flag::Negative), false);
}

#[test]
fn test_next_opcode_decodes_lda_with_operand() {
    let mut cpu = CPU::new();
    let decoded = cpu.next_opcode(&[0xa9, 0x07]);
    assert_eq!(decoded, Ok(Opcode::LDA(0x07)));
    assert_eq!(cpu.program_counter, 2);
}

#[test]
fn test_next_opcode_decodes_single_byte_opcodes() {
    let mut cpu = CPU::new();
    assert_eq!(cpu.next_opcode(&[0x00]), Ok(Opcode::BRK));
    assert_eq!(cpu.program_counter, 1);

    cpu.program_counter = 0;
    assert_eq!(cpu.next_opcode(&[0xaa]), Ok(Opcode::TAX));
    assert_eq!(cpu.program_counter, 1);

    cpu.program_counter = 0;
    assert_eq!(cpu.next_opcode(&[0xe8]), Ok(Opcode::INX));
    assert_eq!(cpu.program_counter, 1);

    cpu.program_counter = 0;
    assert_eq!(cpu.next_opcode(&[0x42]), Ok(Opcode::Unknown(0x42)));
    assert_eq!(cpu.program_counter, 1);
}

#[test]
fn test_program_counter_after_halt() {
    let mut cpu = CPU::new();
    cpu.interpret(&[0x00]).unwrap();
    assert_eq!(cpu.program_counter, 1);
}
