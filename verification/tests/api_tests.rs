use nessie::cpu::AddressingMode;
use nessie::cpu::CpuError;
use nessie::cpu::CPU;
use nessie::ops::decode;
use nessie::ops::Mnemonic;

#[test]
fn test_cpu_test_0xaa_tax_transfer_num() {
    let mut cpu = CPU::new();
    cpu.load_and_run(vec![0xa9, 0x05, 0xaa, 0x00]).unwrap();
    assert_eq!(cpu.register_x, 0x05);
    assert!(cpu.status & 0b0000_0010 == 0);
    assert!(cpu.status & 0b1000_0000 == 0);
}

#[test]
fn test_cpu_test_0xaa_tax_zero_flag() {
    let mut cpu = CPU::new();
    cpu.load_and_run(vec![0xaa, 0x00]).unwrap();
    assert!(cpu.status & 0b0000_0010 == 0b10);
}

#[test]
fn test_cpu_test_0xaa_tax_negative_flag() {
    let mut cpu = CPU::new();
    cpu.load_and_run(vec![0xa9, 0x80, 0xaa, 0x00]).unwrap();
    assert!(cpu.status & 0b1000_0000 == 0b1000_0000);
}

#[test]
fn test_0xa9_lda_imidiate_load_data() {
    let mut cpu = CPU::new();
    cpu.load_and_run(vec![0xa9, 0x05, 0x00]).unwrap();
    assert_eq!(cpu.register_a, 0x05);
    assert!(cpu.status & 0b0000_0010 == 0);
    assert!(cpu.status & 0b1000_0000 == 0);
}

#[test]
fn test_cpu_test_0xa9_lda_zero_flag() {
    let mut cpu = CPU::new();
    cpu.load_and_run(vec![0xa9, 0x00, 0x00]).unwrap();
    assert!(cpu.status & 0b0000_0010 == 0b10);
}

#[test]
fn test_cpu_test_0xa9_lda_negative_flag() {
    let mut cpu = CPU::new();
    cpu.load_and_run(vec![0xa9, 0x80, 0x00]).unwrap();
    assert!(cpu.status & 0b1000_0000 == 0b1000_0000);
}

// Zero and Negative are set from the value alone; the other six status
// bits are untouched.
#[test]
fn test_update_status_z_n_concrete() {
    let mut cpu = CPU::new();
    cpu.status = 0b0101_0101;
    cpu.update_status_z_n(0x00);
    assert_eq!(cpu.status, 0b0101_0111);
    cpu.status = 0b0101_0101;
    cpu.update_status_z_n(0x80);
    assert_eq!(cpu.status, 0b1101_0101);
    cpu.status = 0b1101_0111;
    cpu.update_status_z_n(0x05);
    assert_eq!(cpu.status, 0b0101_0101);
}

// Zero-page indexed addressing wraps at 8 bits: base 0xFF with index
// 0x02 resolves to 0x0001, not 0x0101.
#[test]
fn test_zero_page_x_wraps_within_zero_page() {
    let mut cpu = CPU::new();
    cpu.mem_write(0x0010, 0xff);
    cpu.program_counter = 0x0010;
    cpu.register_x = 0x02;
    assert_eq!(cpu.get_operand_address(&AddressingMode::ZeroPage_X), 0x0001);
    cpu.register_y = 0x02;
    assert_eq!(cpu.get_operand_address(&AddressingMode::ZeroPage_Y), 0x0001);
}

// Indirect,X adds the index to the pointer's zero-page location before
// dereferencing; Indirect,Y dereferences first and adds the index to
// the address that came out.
#[test]
fn test_indirect_x_adds_before_indirect_y_after() {
    let mut cpu = CPU::new();
    cpu.program_counter = 0x0040;
    cpu.mem_write(0x0040, 0x04);
    cpu.mem_write(0x0014, 0x77);
    cpu.mem_write(0x0015, 0x7f);
    cpu.mem_write(0x0004, 0x67);
    cpu.mem_write(0x0005, 0x7f);
    cpu.register_x = 0x10;
    cpu.register_y = 0x10;
    assert_eq!(cpu.get_operand_address(&AddressingMode::Indirect_X), 0x7f77);
    assert_eq!(cpu.get_operand_address(&AddressingMode::Indirect_Y), 0x7f77);
}

// The zero-page pointer of Indirect,X wraps within the zero page: a
// pointer at 0xFF has its high byte at 0x00, not at 0x100.
#[test]
fn test_indirect_x_pointer_wraps_within_zero_page() {
    let mut cpu = CPU::new();
    cpu.program_counter = 0x0040;
    cpu.mem_write(0x0040, 0xfe);
    cpu.register_x = 0x01;
    cpu.mem_write(0x00ff, 0x34);
    cpu.mem_write(0x0000, 0x12);
    assert_eq!(cpu.get_operand_address(&AddressingMode::Indirect_X), 0x1234);
}

// A 16-bit write followed by a 16-bit read of the same address gives
// the word back.
#[test]
fn test_write16_read16_roundtrip_concrete() {
    let mut cpu = CPU::new();
    cpu.mem_write_u16(0x0000, 0xbeef);
    assert_eq!(cpu.mem_read_u16(0x0000), 0xbeef);
    cpu.mem_write_u16(0x1234, 0x8001);
    assert_eq!(cpu.mem_read_u16(0x1234), 0x8001);
    cpu.mem_write_u16(0xfffe, 0x00ff);
    assert_eq!(cpu.mem_read_u16(0xfffe), 0x00ff);
}

// The 16-bit accessors wrap around the top of memory: the high byte of
// a word at 0xFFFF lives at 0x0000.
#[test]
fn test_mem_u16_wraps_at_top_of_memory() {
    let mut cpu = CPU::new();
    cpu.mem_write_u16(0xffff, 0xbeef);
    assert_eq!(cpu.mem_read(0xffff), 0xef);
    assert_eq!(cpu.mem_read(0x0000), 0xbe);
    assert_eq!(cpu.mem_read_u16(0xffff), 0xbeef);
}

// Little-endian order: the low byte comes first.
#[test]
fn test_mem_u16_little_endian() {
    let mut cpu = CPU::new();
    cpu.mem_write_u16(0x2000, 0x8001);
    assert_eq!(cpu.mem_read(0x2000), 0x01);
    assert_eq!(cpu.mem_read(0x2001), 0x80);
}

#[test]
fn test_five_byte_program_lda_tax_inx() {
    let mut cpu = CPU::new();
    cpu.load_and_run(vec![0xa9, 0xc0, 0xaa, 0xe8, 0x00]).unwrap();
    assert_eq!(cpu.register_a, 0xc0);
    assert_eq!(cpu.register_x, 0xc1);
    assert!(cpu.status & 0b1000_0000 == 0b1000_0000);
    assert!(cpu.status & 0b0000_0010 == 0);
}

#[test]
fn test_new_cpu_is_all_zero() {
    let cpu = CPU::new();
    assert_eq!(cpu.register_a, 0);
    assert_eq!(cpu.register_x, 0);
    assert_eq!(cpu.register_y, 0);
    assert_eq!(cpu.status, 0);
    assert_eq!(cpu.program_counter, 0);
    assert_eq!(cpu.mem_read(0x0000), 0);
    assert_eq!(cpu.mem_read(0x8000), 0);
    assert_eq!(cpu.mem_read(0xffff), 0);
}

// The high-byte fetch of the Indirect,Y base pointer wraps within the
// zero page: a pointer at 0xFF has its high byte at 0x00.
#[test]
fn test_indirect_y_pointer_wraps_within_zero_page() {
    let mut cpu = CPU::new();
    cpu.program_counter = 0x0040;
    cpu.mem_write(0x0040, 0xff);
    cpu.mem_write(0x00ff, 0x34);
    cpu.mem_write(0x0000, 0x12);
    cpu.register_y = 0x01;
    assert_eq!(cpu.get_operand_address(&AddressingMode::Indirect_Y), 0x1235);
}

#[test]
fn test_load_writes_reset_vector_and_program() {
    let mut cpu = CPU::new();
    cpu.load(vec![0xa9, 0x05, 0x00]).unwrap();
    assert_eq!(cpu.program_counter, 0x8000);
    assert_eq!(cpu.mem_read_u16(0xfffc), 0x8000);
    assert_eq!(cpu.mem_read(0x8000), 0xa9);
    assert_eq!(cpu.mem_read(0x8001), 0x05);
    assert_eq!(cpu.mem_read(0x8002), 0x00);
}

#[test]
fn test_load_refuses_program_longer_than_space() {
    let mut cpu = CPU::new();
    cpu.mem_write(0xfffc, 0xaa);
    let result = cpu.load(vec![0xea; 0x8001]);
    assert_eq!(result, Err(CpuError::ProgramTooLarge));
    // refused before anything was mutated
    assert_eq!(cpu.mem_read(0xfffc), 0xaa);
    assert_eq!(cpu.mem_read(0x8000), 0x00);
    assert_eq!(cpu.program_counter, 0x0000);
}

#[test]
fn test_load_accepts_program_filling_the_space() {
    let mut cpu = CPU::new();
    let mut program = vec![0xea; 0x8000];
    program[0] = 0x00; // BRK right away
    cpu.load(program).unwrap();
    assert_eq!(cpu.mem_read(0x8000), 0x00);
    assert_eq!(cpu.mem_read(0xfffb), 0xea);
    // the reset vector is written after the copy and wins
    assert_eq!(cpu.mem_read_u16(0xfffc), 0x8000);
}

#[test]
fn test_reset_zeroes_registers_and_keeps_status() {
    let mut cpu = CPU::new();
    cpu.load(vec![0xa9, 0x05, 0x00]).unwrap();
    cpu.register_a = 0x11;
    cpu.register_x = 0x22;
    cpu.register_y = 0x33;
    cpu.status = 0b1100_0011;
    cpu.reset();
    assert_eq!(cpu.register_a, 0);
    assert_eq!(cpu.register_x, 0);
    assert_eq!(cpu.register_y, 0);
    assert_eq!(cpu.status, 0b1100_0011);
    assert_eq!(cpu.program_counter, 0x8000);
}

#[test]
fn test_run_stops_on_unsupported_opcode() {
    let mut cpu = CPU::new();
    let result = cpu.load_and_run(vec![0xa9, 0x05, 0xff, 0x00]);
    assert_eq!(result, Err(CpuError::UnsupportedOpcode(0xff)));
    // the state is left exactly at the faulting fetch
    assert_eq!(cpu.register_a, 0x05);
    assert_eq!(cpu.program_counter, 0x8002);
}

#[test]
fn test_step_executes_one_instruction() {
    let mut cpu = CPU::new();
    cpu.load(vec![0xa9, 0x05, 0x00]).unwrap();
    cpu.reset();
    assert_eq!(cpu.step(), Ok(true));
    assert_eq!(cpu.register_a, 0x05);
    assert_eq!(cpu.program_counter, 0x8002);
    assert_eq!(cpu.step(), Ok(false));
    assert_eq!(cpu.program_counter, 0x8003);
}

#[test]
fn test_step_refuses_unsupported_opcode_untouched() {
    let mut cpu = CPU::new();
    cpu.load(vec![0xff]).unwrap();
    cpu.reset();
    assert_eq!(cpu.step(), Err(CpuError::UnsupportedOpcode(0xff)));
    assert_eq!(cpu.program_counter, 0x8000);
}

// INX wraps X from 0xFF to 0x00 and sets Zero.
#[test]
fn test_inx_wraps_to_zero() {
    let mut cpu = CPU::new();
    cpu.load(vec![0xe8, 0x00]).unwrap();
    cpu.reset();
    cpu.register_x = 0xff;
    cpu.run().unwrap();
    assert_eq!(cpu.register_x, 0x00);
    assert!(cpu.status & 0b0000_0010 == 0b10);
}

// 256 INX instructions in a row take X once around: 0x00 back to 0x00,
// wrapping at 0xFF, with Zero set at the end.
#[test]
fn test_inx_256_times_wraps_x_around() {
    let mut cpu = CPU::new();
    let mut program = vec![0xe8; 256];
    program.push(0x00);
    cpu.load_and_run(program).unwrap();
    assert_eq!(cpu.register_x, 0x00);
    assert!(cpu.status & 0b0000_0010 == 0b10);
}

#[test]
fn test_0xc8_iny_and_0x88_dey() {
    let mut cpu = CPU::new();
    cpu.load_and_run(vec![0xc8, 0xc8, 0x88, 0x00]).unwrap();
    assert_eq!(cpu.register_y, 0x01);
    let mut cpu = CPU::new();
    cpu.load_and_run(vec![0x88, 0x00]).unwrap();
    assert_eq!(cpu.register_y, 0xff);
    assert!(cpu.status & 0b1000_0000 == 0b1000_0000);
}

#[test]
fn test_0xca_dex_from_zero_wraps_negative() {
    let mut cpu = CPU::new();
    cpu.load_and_run(vec![0xca, 0x00]).unwrap();
    assert_eq!(cpu.register_x, 0xff);
    assert!(cpu.status & 0b1000_0000 == 0b1000_0000);
    assert!(cpu.status & 0b0000_0010 == 0);
}

#[test]
fn test_0xa8_tay_0x8a_txa_0x98_tya() {
    let mut cpu = CPU::new();
    cpu.load_and_run(vec![0xa9, 0x42, 0xa8, 0x00]).unwrap();
    assert_eq!(cpu.register_y, 0x42);
    let mut cpu = CPU::new();
    cpu.load_and_run(vec![0xa2, 0x21, 0x8a, 0x00]).unwrap();
    assert_eq!(cpu.register_a, 0x21);
    let mut cpu = CPU::new();
    cpu.load_and_run(vec![0xa0, 0x33, 0x98, 0x00]).unwrap();
    assert_eq!(cpu.register_a, 0x33);
}

#[test]
fn test_0x29_and_immediate() {
    let mut cpu = CPU::new();
    cpu.load_and_run(vec![0xa9, 0x0f, 0x29, 0x81, 0x00]).unwrap();
    assert_eq!(cpu.register_a, 0x01);
    assert!(cpu.status & 0b0000_0010 == 0);
    assert!(cpu.status & 0b1000_0000 == 0);
}

#[test]
fn test_0x09_ora_immediate() {
    let mut cpu = CPU::new();
    cpu.load_and_run(vec![0xa9, 0x0f, 0x09, 0x80, 0x00]).unwrap();
    assert_eq!(cpu.register_a, 0x8f);
    assert!(cpu.status & 0b1000_0000 == 0b1000_0000);
}

#[test]
fn test_0x49_eor_immediate_zero_result() {
    let mut cpu = CPU::new();
    cpu.load_and_run(vec![0xa9, 0x55, 0x49, 0x55, 0x00]).unwrap();
    assert_eq!(cpu.register_a, 0x00);
    assert!(cpu.status & 0b0000_0010 == 0b10);
}

#[test]
fn test_0x25_and_zeropage() {
    let mut cpu = CPU::new();
    cpu.mem_write(0x0010, 0x3c);
    cpu.load_and_run(vec![0xa9, 0xff, 0x25, 0x10, 0x00]).unwrap();
    assert_eq!(cpu.register_a, 0x3c);
}

#[test]
fn test_0x38_sec_and_0x18_clc() {
    let mut cpu = CPU::new();
    cpu.load_and_run(vec![0x38, 0x00]).unwrap();
    assert!(cpu.status & 0b0000_0001 == 0b01);
    cpu.load_and_run(vec![0x38, 0x18, 0x00]).unwrap();
    assert!(cpu.status & 0b0000_0001 == 0);
}

#[test]
fn test_0x78_sei_and_0x58_cli() {
    let mut cpu = CPU::new();
    cpu.load_and_run(vec![0x78, 0x00]).unwrap();
    assert!(cpu.status & 0b0000_0100 == 0b100);
    cpu.load_and_run(vec![0x78, 0x58, 0x00]).unwrap();
    assert!(cpu.status & 0b0000_0100 == 0);
}

#[test]
fn test_0xf8_sed_and_0xd8_cld() {
    let mut cpu = CPU::new();
    cpu.load_and_run(vec![0xf8, 0x00]).unwrap();
    assert!(cpu.status & 0b0000_1000 == 0b1000);
    cpu.load_and_run(vec![0xf8, 0xd8, 0x00]).unwrap();
    assert!(cpu.status & 0b0000_1000 == 0);
}

// Status survives a reset, so a stale Overflow bit can only be shed by
// CLV.
#[test]
fn test_0xb8_clv_clears_overflow() {
    let mut cpu = CPU::new();
    cpu.load(vec![0xb8, 0x00]).unwrap();
    cpu.reset();
    cpu.status = 0b0100_0000;
    cpu.run().unwrap();
    assert!(cpu.status & 0b0100_0000 == 0);
}

#[test]
fn test_0xea_nop_only_advances() {
    let mut cpu = CPU::new();
    cpu.load_and_run(vec![0xea, 0xa9, 0x05, 0xea, 0x00]).unwrap();
    assert_eq!(cpu.register_a, 0x05);
    assert_eq!(cpu.program_counter, 0x8005);
}

#[test]
fn test_decode_knows_the_table() {
    let op = decode(0xa9).unwrap();
    assert_eq!(op.mnemonic, Mnemonic::Lda);
    assert!(matches!(op.mode, AddressingMode::Immediate));
    assert_eq!(op.len, 2);
    assert_eq!(op.cycles, 2);
    let op = decode(0x91).unwrap();
    assert_eq!(op.mnemonic, Mnemonic::Sta);
    assert!(matches!(op.mode, AddressingMode::Indirect_Y));
    assert_eq!(op.len, 2);
    assert_eq!(op.cycles, 6);
    assert!(decode(0xff).is_none());
    assert!(decode(0x02).is_none());
}
