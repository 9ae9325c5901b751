use nes_cpu::cpu::CPU;
use nes_cpu::model::{CpuError, FLAG_NEGATIVE, FLAG_ZERO, PROGRAM_ORIGIN, RESET_VECTOR};
use nes_cpu::opcodes::{decode, operand_len, AddressingMode, Instruction};

#[test]
fn scenario_lda_immediate_flags_clear() {
    let mut cpu = CPU::new();
    assert_eq!(cpu.load_and_run(vec![0xA9, 0x05, 0x00]), Ok(()));
    assert_eq!(cpu.register_a, 0x05);
    assert_eq!(cpu.status & FLAG_ZERO, 0);
    assert_eq!(cpu.status & FLAG_NEGATIVE, 0);
    // the terminate opcode at 0x8002 was fetched
    assert_eq!(cpu.program_counter, 0x8003);
}

#[test]
fn scenario_lda_zero_sets_zero() {
    let mut cpu = CPU::new();
    cpu.load_and_run(vec![0xA9, 0x00, 0x00]).unwrap();
    assert_eq!(cpu.register_a, 0x00);
    assert_ne!(cpu.status & FLAG_ZERO, 0);
    assert_eq!(cpu.status & FLAG_NEGATIVE, 0);
}

#[test]
fn scenario_tax_copies_accumulator() {
    let mut cpu = CPU::new();
    cpu.load_and_run(vec![0xA9, 0x0A, 0xAA, 0x00]).unwrap();
    assert_eq!(cpu.register_x, 0x0A);
}

#[test]
fn scenario_two_increments_wrap() {
    let mut cpu = CPU::new();
    cpu.load_and_run(vec![0xA9, 0xFF, 0xAA, 0xE8, 0xE8, 0x00]).unwrap();
    assert_eq!(cpu.register_x, 0x01);
}

#[test]
fn scenario_zero_page_load() {
    let mut cpu = CPU::new();
    cpu.mem_write(0x00C1, 0x01).unwrap();
    cpu.load_and_run(vec![0xA5, 0xC1, 0x00]).unwrap();
    assert_eq!(cpu.register_a, 0x01);
}

#[test]
fn scenario_indirect_x_dereferences_pointer() {
    let mut cpu = CPU::new();
    cpu.mem_write(0x0006, 0x01).unwrap();
    cpu.mem_write(0x0001, 0x03).unwrap();
    cpu.load_and_run(vec![0xE8, 0xE8, 0xA1, 0x04, 0x00]).unwrap();
    // pointer 0x06 holds the target 0x0001, whose byte is 0x03
    assert_eq!(cpu.register_x, 0x02);
    assert_eq!(cpu.register_a, 0x03);
}

#[test]
fn inx_from_ff_wraps_with_zero_set() {
    let mut cpu = CPU::new();
    cpu.load_and_run(vec![0xA9, 0xFF, 0xAA, 0xE8, 0x00]).unwrap();
    assert_eq!(cpu.register_x, 0x00);
    assert_ne!(cpu.status & FLAG_ZERO, 0);
    assert_eq!(cpu.status & FLAG_NEGATIVE, 0);
}

#[test]
fn flags_are_recomputed_from_set_to_clear() {
    let mut cpu = CPU::new();
    cpu.load(vec![0xA9, 0x80, 0x00, 0xA9, 0x00, 0x00, 0xA9, 0x05, 0x00]).unwrap();
    cpu.reset();
    cpu.run().unwrap();
    assert_eq!(cpu.register_a, 0x80);
    assert_ne!(cpu.status & FLAG_NEGATIVE, 0);
    assert_eq!(cpu.status & FLAG_ZERO, 0);
    cpu.run().unwrap();
    assert_eq!(cpu.register_a, 0x00);
    assert_eq!(cpu.status & FLAG_NEGATIVE, 0);
    assert_ne!(cpu.status & FLAG_ZERO, 0);
    cpu.run().unwrap();
    assert_eq!(cpu.register_a, 0x05);
    assert_eq!(cpu.status & FLAG_NEGATIVE, 0);
    assert_eq!(cpu.status & FLAG_ZERO, 0);
}

#[test]
fn flags_keep_other_status_bits() {
    let mut cpu = CPU::new();
    cpu.load(vec![0xA9, 0x00, 0x00]).unwrap();
    cpu.reset();
    cpu.status = 0b0100_0001;
    cpu.run().unwrap();
    assert_eq!(cpu.status, 0b0100_0011);
}

#[test]
fn tax_sets_negative() {
    let mut cpu = CPU::new();
    cpu.load_and_run(vec![0xA9, 0x90, 0xAA, 0x00]).unwrap();
    assert_eq!(cpu.register_x, 0x90);
    assert_eq!(cpu.status, FLAG_NEGATIVE);
}

#[test]
fn resolution_twice_gives_same_address() {
    let mut cpu = CPU::new();
    cpu.mem_write(0x0200, 0x10).unwrap();
    cpu.mem_write(0x0201, 0x34).unwrap();
    cpu.mem_write(0x0012, 0x78).unwrap();
    cpu.mem_write(0x0013, 0x56).unwrap();
    cpu.program_counter = 0x0200;
    cpu.register_x = 0x02;
    cpu.register_y = 0x05;
    let modes = [
        AddressingMode::Immediate,
        AddressingMode::ZeroPage,
        AddressingMode::ZeroPage_X,
        AddressingMode::ZeroPage_Y,
        AddressingMode::Absolute,
        AddressingMode::Absolute_X,
        AddressingMode::Absolute_Y,
        AddressingMode::Indirect_X,
        AddressingMode::Indirect_Y,
    ];
    for mode in modes.iter() {
        let first = cpu.get_operand_address(mode);
        let second = cpu.get_operand_address(mode);
        assert_eq!(first, second);
        assert!(first.is_ok());
    }
}

#[test]
fn resolution_of_each_mode() {
    let mut cpu = CPU::new();
    cpu.mem_write(0x0200, 0xF0).unwrap();
    cpu.mem_write(0x0201, 0x34).unwrap();
    cpu.mem_write(0x00F2, 0x78).unwrap();
    cpu.mem_write(0x00F3, 0x56).unwrap();
    cpu.mem_write(0x00F5, 0xCD).unwrap();
    cpu.mem_write(0x00F6, 0xAB).unwrap();
    cpu.program_counter = 0x0200;
    cpu.register_x = 0x02;
    cpu.register_y = 0x15;
    assert_eq!(cpu.get_operand_address(&AddressingMode::Immediate), Ok(0x0200));
    assert_eq!(cpu.get_operand_address(&AddressingMode::ZeroPage), Ok(0x00F0));
    assert_eq!(cpu.get_operand_address(&AddressingMode::ZeroPage_X), Ok(0x00F2));
    // 0xF0 + 0x15 wraps within the zero page
    assert_eq!(cpu.get_operand_address(&AddressingMode::ZeroPage_Y), Ok(0x0005));
    assert_eq!(cpu.get_operand_address(&AddressingMode::Absolute), Ok(0x34F0));
    assert_eq!(cpu.get_operand_address(&AddressingMode::Absolute_X), Ok(0x34F2));
    assert_eq!(cpu.get_operand_address(&AddressingMode::Absolute_Y), Ok(0x3505));
    assert_eq!(cpu.get_operand_address(&AddressingMode::Indirect_X), Ok(0x5678));
    cpu.register_y = 0x05;
    assert_eq!(cpu.get_operand_address(&AddressingMode::Indirect_Y), Ok(0xABCD));
}

#[test]
fn absolute_index_wraps_past_top() {
    let mut cpu = CPU::new();
    cpu.mem_write(0x0010, 0xFF).unwrap();
    cpu.mem_write(0x0011, 0xFF).unwrap();
    cpu.program_counter = 0x0010;
    cpu.register_x = 0x03;
    assert_eq!(cpu.get_operand_address(&AddressingMode::Absolute_X), Ok(0x0002));
}

#[test]
fn indirect_pointer_wraps_in_zero_page() {
    let mut cpu = CPU::new();
    cpu.mem_write(0x00FF, 0x34).unwrap();
    cpu.mem_write(0x0000, 0x12).unwrap();
    cpu.mem_write(0x0100, 0x99).unwrap();
    cpu.mem_write(0x0300, 0xFD).unwrap();
    cpu.program_counter = 0x0300;
    cpu.register_x = 0x02;
    assert_eq!(cpu.get_operand_address(&AddressingMode::Indirect_X), Ok(0x1234));
    cpu.register_y = 0x02;
    assert_eq!(cpu.get_operand_address(&AddressingMode::Indirect_Y), Ok(0x1234));
}

#[test]
fn lda_absolute_y_uses_kept_index_y() {
    let mut cpu = CPU::new();
    cpu.mem_write(0xC1C5, 0x01).unwrap();
    cpu.register_y = 0x03;
    cpu.load_and_run(vec![0xB9, 0xC2, 0xC1, 0x00]).unwrap();
    assert_eq!(cpu.register_y, 0x03);
    assert_eq!(cpu.register_a, 0x01);
}

#[test]
fn lda_indirect_y_indexes_pointer() {
    let mut cpu = CPU::new();
    cpu.mem_write(0x0007, 0xCC).unwrap();
    cpu.mem_write(0x00CC, 0xFF).unwrap();
    cpu.register_y = 0x03;
    cpu.load_and_run(vec![0xB1, 0x04, 0x00]).unwrap();
    assert_eq!(cpu.register_a, 0xFF);
    assert_ne!(cpu.status & FLAG_NEGATIVE, 0);
}

#[test]
fn unknown_opcode_is_reported() {
    let mut cpu = CPU::new();
    assert_eq!(
        cpu.load_and_run(vec![0xE8, 0x02, 0x00]),
        Err(CpuError::UnimplementedInstruction(0x02))
    );
    assert_eq!(cpu.register_x, 0x01);
}

#[test]
fn none_addressing_is_refused() {
    let cpu = CPU::new();
    assert_eq!(
        cpu.get_operand_address(&AddressingMode::NoneAddressing),
        Err(CpuError::UnsupportedAddressingMode(AddressingMode::NoneAddressing))
    );
}

#[test]
fn memory_bounds_are_checked() {
    let mut cpu = CPU::new();
    assert_eq!(cpu.mem_read(0xFFFF), Err(CpuError::AddressOutOfRange(0xFFFF)));
    assert_eq!(cpu.mem_write(0xFFFF, 1), Err(CpuError::AddressOutOfRange(0xFFFF)));
    assert_eq!(cpu.mem_read_u16(0xFFFE), Err(CpuError::AddressOutOfRange(0xFFFF)));
    assert_eq!(cpu.mem_write_u16(0xFFFE, 0x1234), Err(CpuError::AddressOutOfRange(0xFFFF)));
    assert_eq!(cpu.mem_read(0xFFFE), Ok(0));
    assert_eq!(cpu.mem_write(0xFFFE, 7), Ok(()));
    assert_eq!(cpu.mem_read(0xFFFE), Ok(7));
}

#[test]
fn word_access_is_little_endian() {
    let mut cpu = CPU::new();
    cpu.mem_write_u16(0x1000, 0xBEEF).unwrap();
    assert_eq!(cpu.mem_read(0x1000), Ok(0xEF));
    assert_eq!(cpu.mem_read(0x1001), Ok(0xBE));
    assert_eq!(cpu.mem_read_u16(0x1000), Ok(0xBEEF));
}

#[test]
fn run_off_the_top_of_memory_fails() {
    let mut cpu = CPU::new();
    cpu.mem_write(0xFFFE, 0xAD).unwrap();
    cpu.program_counter = 0xFFFE;
    assert_eq!(cpu.run(), Err(CpuError::AddressOutOfRange(0xFFFF)));
}

#[test]
fn oversized_program_is_refused() {
    let mut cpu = CPU::new();
    let program = vec![0xE8u8; 0x8000];
    assert_eq!(cpu.load(program), Err(CpuError::ProgramTooLarge(0x8000)));
    assert_eq!(cpu.mem_read(0x8000), Ok(0));
    assert_eq!(cpu.mem_read_u16(RESET_VECTOR), Ok(0));
}

#[test]
fn largest_program_loads() {
    let mut cpu = CPU::new();
    let program = vec![0xE8u8; 0x7FFF];
    assert_eq!(cpu.load(program), Ok(()));
    assert_eq!(cpu.mem_read(0xFFFE), Ok(0xE8));
    assert_eq!(cpu.mem_read_u16(RESET_VECTOR), Ok(PROGRAM_ORIGIN));
}

#[test]
fn load_keeps_registers_and_sets_vector() {
    let mut cpu = CPU::new();
    cpu.register_a = 9;
    cpu.load(vec![0xA9, 0x01]).unwrap();
    assert_eq!(cpu.register_a, 9);
    assert_eq!(cpu.mem_read(0x8000), Ok(0xA9));
    assert_eq!(cpu.mem_read(0x8001), Ok(0x01));
    assert_eq!(cpu.mem_read(0xFFFC), Ok(0x00));
    assert_eq!(cpu.mem_read(0xFFFD), Ok(0x80));
}

#[test]
fn reset_keeps_index_y() {
    let mut cpu = CPU::default();
    cpu.register_a = 1;
    cpu.register_x = 2;
    cpu.register_y = 3;
    cpu.status = 0xFF;
    cpu.mem_write_u16(RESET_VECTOR, 0x1234).unwrap();
    cpu.reset();
    assert_eq!(cpu.register_a, 0);
    assert_eq!(cpu.register_x, 0);
    assert_eq!(cpu.register_y, 3);
    assert_eq!(cpu.status, 0);
    assert_eq!(cpu.program_counter, 0x1234);
}

#[test]
fn step_advances_by_operand_length() {
    let mut cpu = CPU::new();
    cpu.load(vec![0xAD, 0x00, 0x90, 0xA9, 0x07, 0xE8, 0x00]).unwrap();
    cpu.reset();
    assert_eq!(cpu.step(), Ok(true));
    assert_eq!(cpu.program_counter, 0x8003);
    assert_eq!(cpu.step(), Ok(true));
    assert_eq!(cpu.program_counter, 0x8005);
    assert_eq!(cpu.step(), Ok(true));
    assert_eq!(cpu.program_counter, 0x8006);
    assert_eq!(cpu.step(), Ok(false));
    assert_eq!(cpu.program_counter, 0x8007);
}

#[test]
fn opcode_table() {
    assert_eq!(decode(0xA9), Some(Instruction::Lda(AddressingMode::Immediate)));
    assert_eq!(decode(0xB1), Some(Instruction::Lda(AddressingMode::Indirect_Y)));
    assert_eq!(decode(0xAA), Some(Instruction::Tax));
    assert_eq!(decode(0xE8), Some(Instruction::Inx));
    assert_eq!(decode(0x00), Some(Instruction::Brk));
    assert_eq!(decode(0xFF), None);
    assert_eq!(operand_len(Instruction::Lda(AddressingMode::Absolute_X)), 2);
    assert_eq!(operand_len(Instruction::Lda(AddressingMode::ZeroPage)), 1);
    assert_eq!(operand_len(Instruction::Inx), 0);
}
