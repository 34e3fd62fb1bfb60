use retrobrite::cpu::constants::{
    OPCODE_ASL_ACC, OPCODE_JSR_ABS, OPCODE_LDA_ABS, OPCODE_LDA_IMM, OPCODE_ORA_ABS, OPCODE_RTS,
    OPCODE_STA_ABS, PS_C_BIT, PS_I_BIT, PS_N_BIT, PS_V_BIT, PS_Z_BIT,
};
use retrobrite::cpu::table::{decode, lookup_cycles, mnemonic, AddrMode, Op};
use retrobrite::cpu::{Cpu, CpuError};
use retrobrite::ines::InesRom;
use retrobrite::mappers::m000_nrom::NromMapper;
use retrobrite::mappers::Mapper;
use retrobrite::mem::{Memory, PpuMemory};
use retrobrite::ppu::Ppu;
use retrobrite::state::NesState;
use retrobrite::utils;

/// A cartridge image with one PRG bank and no CHR bank.
fn rom_image(bank: &[u8]) -> Vec<u8> {
    let mut image = vec![0x4E, 0x45, 0x53, 0x1A, 1, 0, 0, 0, 0, 0, 0, 0, 0, 0, 0, 0];
    image.extend_from_slice(bank);
    image
}

/// A bus around a mapper 0 cartridge whose one PRG bank is `bank`; the bank
/// answers at 0x8000 and at 0xC000.
fn get_mem_controller_with_bank(bank: &[u8]) -> NesState<NromMapper> {
    let rom = InesRom::from_buffer(&rom_image(bank)).unwrap();
    let mut mapper = retrobrite::mappers::m000_nrom::new(Memory::new_cpu(), PpuMemory::new());
    mapper.load_rom(&rom).unwrap();
    NesState::new(mapper, Ppu::new())
}

fn get_mem_controller() -> NesState<NromMapper> {
    get_mem_controller_with_bank(&vec![0u8; 16384])
}

/// A bus whose ROM holds `pieces` at the given addresses of 0xC000-0xFFFF.
fn get_mem_controller_with_program(pieces: &[(u16, &[u8])]) -> NesState<NromMapper> {
    let mut bank = vec![0u8; 16384];
    for (addr, bytes) in pieces {
        let start = (*addr - 0xC000) as usize;
        bank[start..start + bytes.len()].copy_from_slice(bytes);
    }
    get_mem_controller_with_bank(&bank)
}

/// A bus on which every address that holds memory holds the low byte of
/// the address.
fn get_mc_with_cpu_mem_ramp() -> NesState<NromMapper> {
    let mut bank = vec![0u8; 16384];
    for (i, cell) in bank.iter_mut().enumerate() {
        *cell = i as u8;
    }
    let mut mc = get_mem_controller_with_bank(&bank);

    for page in 0..256u32 {
        for byte in 0..256u32 {
            mc.cpu_mem_write((page * 256 + byte) as u16, byte as u8, byte as u64);
        }
    }

    mc
}

fn cycles(opcode: u8) -> u64 {
    lookup_cycles(opcode)
}

#[test]
fn test_cpu_read_byte() {
    let mut mc = get_mc_with_cpu_mem_ramp();
    let mut cpu = Cpu::new(&mc);

    cpu.reg.PC = 0x400; // address 1024 in decimal, page 4

    for i in 0..256 {
        let val = cpu.read_byte(&mut mc);
        println!("read value {:#04x} from address {:#04x}", val, cpu.reg.PC - 1);
        assert!(val == i as u8);
    }
}

#[test]
fn test_cpu_read_word() {
    let pc = 0x2f0; // page 2

    let mut mc = get_mc_with_cpu_mem_ramp();
    let mut cpu = Cpu::new(&mc);

    cpu.reg.PC = pc;

    let val = cpu.read_word(&mut mc);

    assert!(val == 61936);
}

#[test]
fn test_fetch_operand_imm() {
    let mut mc = get_mc_with_cpu_mem_ramp();
    let mut cpu = Cpu::new(&mc);
    cpu.reg.PC = 0x501;

    cpu.set_operand_address(&mut mc, &AddrMode::IMM);
    assert!(cpu.operand_value == 1);
}

#[test]
fn test_fetch_operand_abs() {
    let mut mc = get_mc_with_cpu_mem_ramp();
    let mut cpu = Cpu::new(&mc);
    cpu.reg.PC = 0xff02;
    cpu.opcode = OPCODE_ORA_ABS;

    println!("0xff02 = {}", mc.cpu_mem_read(0, 0xff02));

    // Should read 0x0302 as the address word from PC
    // The value at 0x0302 should be 2 in the mem ramp.
    cpu.set_operand_address(&mut mc, &AddrMode::ABS);
    cpu.fetch_operand(&mut mc);

    println!("0x0302 = {}", mc.cpu_mem_read(0, 0x0302));
    assert!(cpu.operand_address == 0x0302);
    assert!(cpu.operand_value == 2);
}

#[test]
fn test_and_with_zero_result() {
    let mut mc = get_mem_controller();
    let mut cpu = Cpu::default();
    cpu.reg.A = 0x0F;
    cpu.operand_value = 0xF0;
    cpu.and(&mut mc);

    assert!(cpu.reg.A == 0);
    assert!(utils::bit_is_set(PS_Z_BIT, cpu.reg.P));
    assert!(!utils::bit_is_set(PS_N_BIT, cpu.reg.P));
}

#[test]
fn test_and_with_negative_result() {
    let mut mc = get_mem_controller();
    let mut cpu = Cpu::default();
    cpu.reg.A = 0x81;
    cpu.operand_value = 0xF1;
    cpu.and(&mut mc);

    assert!(cpu.reg.A == 0x81);
    assert!(!utils::bit_is_set(PS_Z_BIT, cpu.reg.P));
    assert!(utils::bit_is_set(PS_N_BIT, cpu.reg.P));
}

#[test]
fn test_eor() {
    let mut mc = get_mem_controller();
    let mut cpu = Cpu::default();
    cpu.reg.A = 0x0F;
    cpu.operand_value = 0xFF;
    cpu.eor(&mut mc);

    assert!(cpu.reg.A == 0xF0);
    assert!(!utils::bit_is_set(PS_Z_BIT, cpu.reg.P));
    assert!(utils::bit_is_set(PS_N_BIT, cpu.reg.P));
}

#[test]
fn test_ora() {
    let mut mc = get_mem_controller();
    let mut cpu = Cpu::default();
    cpu.reg.A = 0x8F;
    cpu.operand_value = 0x71;
    cpu.ora(&mut mc);

    assert!(cpu.reg.A == 0xFF);
    assert!(!utils::bit_is_set(PS_Z_BIT, cpu.reg.P));
    assert!(utils::bit_is_set(PS_N_BIT, cpu.reg.P));
}

#[test]
fn test_adc() {
    let mut mc = get_mem_controller();
    let mut cpu = Cpu::default();

    cpu.reg.A = 1;
    cpu.operand_value = 1;
    cpu.adc(&mut mc);
    assert!(cpu.reg.A == 2);
    assert!(!utils::bit_is_set(PS_C_BIT, cpu.reg.P));
    assert!(!utils::bit_is_set(PS_V_BIT, cpu.reg.P));

    cpu.clc();
    cpu.reg.A = 1;
    cpu.operand_value = -1i8 as u8;
    cpu.adc(&mut mc);
    assert!(cpu.reg.A == 0);
    assert!(utils::bit_is_set(PS_C_BIT, cpu.reg.P));
    assert!(!utils::bit_is_set(PS_V_BIT, cpu.reg.P));

    cpu.clc();
    cpu.reg.A = 0x7F;
    cpu.operand_value = 1;
    cpu.adc(&mut mc);
    assert!(cpu.reg.A == 128);
    assert!(!utils::bit_is_set(PS_C_BIT, cpu.reg.P));
    assert!(utils::bit_is_set(PS_V_BIT, cpu.reg.P));

    cpu.clc();
    cpu.reg.A = 0x80;
    cpu.operand_value = 0xFF;
    cpu.adc(&mut mc);
    assert!(cpu.reg.A == 0x7F);
    assert!(utils::bit_is_set(PS_C_BIT, cpu.reg.P));
    assert!(utils::bit_is_set(PS_V_BIT, cpu.reg.P));
}

#[test]
fn test_asl() {
    // This test actually executes a small program to test ASL.
    let test_program: Vec<u8> =
        vec![OPCODE_LDA_IMM, 0x81, OPCODE_ASL_ACC, OPCODE_STA_ABS, 0xFE, 0x00];

    let needed_cycles = cycles(OPCODE_LDA_IMM) + cycles(OPCODE_ASL_ACC) + cycles(OPCODE_STA_ABS);

    let start_addr = 0xC000;

    let mut mc = get_mem_controller_with_program(&[(start_addr, &test_program)]);
    let mut cpu = Cpu::default();
    cpu.reg.PC = start_addr;
    cpu.cycle_to(&mut mc, needed_cycles).unwrap();

    assert!(mc.cpu_mem_read(0, 0x00FE) == 0x02);
    assert!(utils::bit_is_set(PS_C_BIT, cpu.reg.P));
    assert!(!utils::bit_is_set(PS_Z_BIT, cpu.reg.P));
    assert!(!utils::bit_is_set(PS_N_BIT, cpu.reg.P));
}

#[test]
fn test_cmp() {
    let mut mc = get_mem_controller();
    let mut cpu = Cpu::default();

    cpu.reg.A = 5;
    cpu.operand_value = 0;
    cpu.cmp(&mut mc);
    assert!(utils::bit_is_set(PS_C_BIT, cpu.reg.P));
    assert!(!utils::bit_is_set(PS_Z_BIT, cpu.reg.P));
    assert!(!utils::bit_is_set(PS_N_BIT, cpu.reg.P));

    cpu.reg.A = 101;
    cpu.operand_value = 101;
    cpu.cmp(&mut mc);
    assert!(utils::bit_is_set(PS_C_BIT, cpu.reg.P));
    assert!(utils::bit_is_set(PS_Z_BIT, cpu.reg.P));
    assert!(!utils::bit_is_set(PS_N_BIT, cpu.reg.P));

    cpu.reg.A = 101;
    cpu.operand_value = 201;
    cpu.cmp(&mut mc);
    assert!(!utils::bit_is_set(PS_C_BIT, cpu.reg.P));
    assert!(!utils::bit_is_set(PS_Z_BIT, cpu.reg.P));
    assert!(utils::bit_is_set(PS_N_BIT, cpu.reg.P));
}

#[test]
fn test_jsr_rts() {
    let test_program: Vec<u8> = vec![OPCODE_JSR_ABS, 0x32, 0xC0, OPCODE_LDA_ABS, 0x00, 0x10];

    let subroutine: Vec<u8> = vec![OPCODE_LDA_IMM, 0x47, OPCODE_STA_ABS, 0x00, 0x10, OPCODE_RTS];

    let needed_cycles = cycles(OPCODE_JSR_ABS)
        + cycles(OPCODE_LDA_ABS)
        + cycles(OPCODE_LDA_IMM)
        + cycles(OPCODE_STA_ABS)
        + cycles(OPCODE_RTS);

    let start_addr = 0xC000;
    let mut mc = get_mem_controller_with_program(&[
        (start_addr, &test_program),
        (start_addr + 0x32, &subroutine),
    ]);
    let mut cpu = Cpu::default();

    cpu.reg.PC = start_addr;
    cpu.cycle_to(&mut mc, needed_cycles).unwrap();

    assert!(cpu.reg.A == 0x47);
    assert!(cpu.reg.PC == 0xC003 + 3);
}

#[test]
fn power_on_pc_comes_from_reset_vector() {
    let mc = get_mem_controller_with_program(&[(0xFFFC, &[0x00, 0xC0])]);
    let cpu = Cpu::new(&mc);
    assert_eq!(cpu.reg.PC, 0xC000);
    assert_eq!(cpu.reg.SP, 0xFD);
    assert_eq!(cpu.reg.P, 0x24);
    assert_eq!(cpu.reg.A, 0);
    assert_eq!(cpu.reg.X, 0);
    assert_eq!(cpu.reg.Y, 0);
    assert_eq!(cpu.cycle_count, 7);
}

#[test]
fn reset_takes_the_vector_again() {
    let mc = get_mem_controller_with_program(&[(0xFFFC, &[0x34, 0xD2])]);
    let mut cpu = Cpu::default();
    cpu.reg.A = 9;
    cpu._reset(&mc);
    assert_eq!(cpu.reg.PC, 0xD234);
    assert_eq!(cpu.reg.SP, 0xFD);
    assert_eq!(cpu.reg.P, 0x24);
    assert_eq!(cpu.reg.A, 9);
}

#[test]
fn lda_immediate_takes_two_cycles() {
    let mut mc = get_mem_controller_with_program(&[(0xC000, &[0xA9, 0x42]), (0xFFFC, &[0x00, 0xC0])]);
    let mut cpu = Cpu::new(&mc);
    let used = cpu.execute(&mut mc).unwrap();
    assert_eq!(cpu.reg.A, 0x42);
    assert!(!utils::bit_is_set(PS_Z_BIT, cpu.reg.P));
    assert!(!utils::bit_is_set(PS_N_BIT, cpu.reg.P));
    assert_eq!(cpu.reg.PC, 0xC002);
    assert_eq!(used, 2);
    // `execute` leaves the counting to `step`.
    assert_eq!(cpu.cycle_count, 7);
}

#[test]
fn step_counts_the_cycles() {
    let mut mc = get_mem_controller_with_program(&[(0xC000, &[0xA9, 0x00]), (0xFFFC, &[0x00, 0xC0])]);
    let mut cpu = Cpu::new(&mc);
    assert_eq!(cpu.step(&mut mc), Ok(2));
    assert_eq!(cpu.cycle_count, 9);
    assert!(utils::bit_is_set(PS_Z_BIT, cpu.reg.P));
}

#[test]
fn adc_flag_matrix() {
    let mut mc = get_mem_controller();
    let mut cpu = Cpu::default();
    cpu.reg.A = 0x7F;
    cpu.operand_value = 1;
    cpu.adc(&mut mc);
    assert_eq!(cpu.reg.A, 0x80);
    assert!(!utils::bit_is_set(PS_C_BIT, cpu.reg.P));
    assert!(utils::bit_is_set(PS_V_BIT, cpu.reg.P));
    assert!(utils::bit_is_set(PS_N_BIT, cpu.reg.P));
    assert!(!utils::bit_is_set(PS_Z_BIT, cpu.reg.P));

    cpu.clc();
    cpu.reg.A = 0x80;
    cpu.operand_value = 0xFF;
    cpu.adc(&mut mc);
    assert_eq!(cpu.reg.A, 0x7F);
    assert!(utils::bit_is_set(PS_C_BIT, cpu.reg.P));
    assert!(utils::bit_is_set(PS_V_BIT, cpu.reg.P));
    assert!(!utils::bit_is_set(PS_N_BIT, cpu.reg.P));
}

#[test]
fn adc_adds_the_carry_in() {
    let mut mc = get_mem_controller();
    let mut cpu = Cpu::default();
    cpu.sec();
    cpu.reg.A = 0xFF;
    cpu.operand_value = 0x00;
    cpu.adc(&mut mc);
    assert_eq!(cpu.reg.A, 0x00);
    assert!(utils::bit_is_set(PS_C_BIT, cpu.reg.P));
    assert!(utils::bit_is_set(PS_Z_BIT, cpu.reg.P));
    assert!(!utils::bit_is_set(PS_V_BIT, cpu.reg.P));
}

#[test]
fn sbc_is_adc_of_the_inverted_operand() {
    for &(a, m, carry) in &[(0x50u8, 0x30u8, true), (0x50, 0x70, true), (0x00, 0x01, false), (0x80, 0x01, true)] {
        let mut mc = get_mem_controller();
        let mut by_sbc = Cpu::default();
        by_sbc.reg.A = a;
        by_sbc.operand_value = m;
        if carry {
            by_sbc.sec();
        }
        by_sbc.sbc(&mut mc);

        let mut by_adc = Cpu::default();
        by_adc.reg.A = a;
        by_adc.operand_value = !m;
        if carry {
            by_adc.sec();
        }
        by_adc.adc(&mut mc);

        assert_eq!(by_sbc.reg.A, by_adc.reg.A);
        assert_eq!(by_sbc.reg.P, by_adc.reg.P);
    }
}

#[test]
fn sbc_sets_carry_where_nothing_is_borrowed() {
    let mut mc = get_mem_controller();
    let mut cpu = Cpu::default();
    cpu.sec();
    cpu.reg.A = 0x50;
    cpu.operand_value = 0x30;
    cpu.sbc(&mut mc);
    assert_eq!(cpu.reg.A, 0x20);
    assert!(utils::bit_is_set(PS_C_BIT, cpu.reg.P));

    cpu.sec();
    cpu.reg.A = 0x30;
    cpu.operand_value = 0x50;
    cpu.sbc(&mut mc);
    assert_eq!(cpu.reg.A, 0xE0);
    assert!(!utils::bit_is_set(PS_C_BIT, cpu.reg.P));
    assert!(utils::bit_is_set(PS_N_BIT, cpu.reg.P));
}

#[test]
fn branch_taken_adds_a_cycle_and_one_more_across_pages() {
    // BNE +2 at 0xC000; Z is clear, so the branch is taken within the page.
    let mut mc = get_mem_controller_with_program(&[(0xC000, &[0xD0, 0x02])]);
    let mut cpu = Cpu::default();
    cpu.reg.PC = 0xC000;
    assert_eq!(cpu.execute(&mut mc), Ok(3));
    assert_eq!(cpu.reg.PC, 0xC004);

    // BNE -3 at 0xC000 leads to 0xBFFF, on another page.
    let mut mc = get_mem_controller_with_program(&[(0xC000, &[0xD0, 0xFD])]);
    let mut cpu = Cpu::default();
    cpu.reg.PC = 0xC000;
    assert_eq!(cpu.execute(&mut mc), Ok(4));
    assert_eq!(cpu.reg.PC, 0xBFFF);
}

#[test]
fn branch_not_taken_costs_base_cycles() {
    // BEQ +2 with Z clear
    let mut mc = get_mem_controller_with_program(&[(0xC000, &[0xF0, 0x02])]);
    let mut cpu = Cpu::default();
    cpu.reg.PC = 0xC000;
    assert_eq!(cpu.execute(&mut mc), Ok(2));
    assert_eq!(cpu.reg.PC, 0xC002);
}

#[test]
fn pha_pla_round_trip() {
    let mut mc = get_mem_controller();
    let mut cpu = Cpu::default();
    cpu.reg.SP = 0xFD;
    cpu.reg.A = 0xAB;
    cpu.pha(&mut mc);
    assert_eq!(cpu.reg.SP, 0xFC);
    assert_eq!(mc.cpu_mem_read(0, 0x01FD), 0xAB);
    cpu.reg.A = 0;
    cpu.pla(&mut mc);
    assert_eq!(cpu.reg.A, 0xAB);
    assert_eq!(cpu.reg.SP, 0xFD);
    assert!(utils::bit_is_set(PS_N_BIT, cpu.reg.P));
}

#[test]
fn php_plp_round_trip_and_plp_ignores_bits_4_and_5() {
    let mut mc = get_mem_controller();
    let mut cpu = Cpu::default();
    cpu.reg.SP = 0xFD;
    cpu.reg.P = 0b1100_0011;
    cpu.php(&mut mc);
    // The copy on the stack has bits 4 and 5 set.
    assert_eq!(mc.cpu_mem_read(0, 0x01FD), 0b1111_0011);
    cpu.reg.P = 0;
    cpu.plp(&mut mc);
    assert_eq!(cpu.reg.P, 0b1100_0011);

    // Pull 0xFF into a status of 0: bits 4 and 5 stay down.
    cpu.reg.A = 0xFF;
    cpu.pha(&mut mc);
    cpu.reg.P = 0;
    cpu.plp(&mut mc);
    assert_eq!(cpu.reg.P, 0b1100_1111);
}

#[test]
fn stack_pointer_wraps() {
    let mut mc = get_mem_controller();
    let mut cpu = Cpu::default();
    cpu.reg.SP = 0x00;
    cpu.stack_push(&mut mc, 0x5A);
    assert_eq!(cpu.reg.SP, 0xFF);
    assert_eq!(mc.cpu_mem_read(0, 0x0100), 0x5A);
    let pulled = cpu.stack_pull(&mut mc);
    assert_eq!(cpu.reg.SP, 0x00);
    assert_eq!(pulled, 0x5A);
}

#[test]
fn stack_word_goes_high_byte_first() {
    let mut mc = get_mem_controller();
    let mut cpu = Cpu::default();
    cpu.reg.SP = 0xFF;
    cpu.stack_push_word(&mut mc, 0x1234);
    assert_eq!(mc.cpu_mem_read(0, 0x01FF), 0x12);
    assert_eq!(mc.cpu_mem_read(0, 0x01FE), 0x34);
    assert_eq!(cpu.stack_pull_word(&mut mc), 0x1234);
}

#[test]
fn indirect_jump_does_not_cross_the_page() {
    // JMP ($02FF): the low byte comes from 0x02FF, the high byte from
    // 0x0200, not from 0x0300.
    let mut mc = get_mem_controller_with_program(&[(0xC000, &[0x6C, 0xFF, 0x02])]);
    mc.cpu_mem_write(0x02FF, 0x34, 0);
    mc.cpu_mem_write(0x0200, 0x12, 0);
    mc.cpu_mem_write(0x0300, 0x56, 0);
    let mut cpu = Cpu::default();
    cpu.reg.PC = 0xC000;
    assert_eq!(cpu.execute(&mut mc), Ok(5));
    assert_eq!(cpu.reg.PC, 0x1234);
}

#[test]
fn indexed_indirect_wraps_in_page_zero() {
    // LDA ($FE,X) with X = 1: the address comes from 0x00FF and 0x0000.
    let mut mc = get_mem_controller_with_program(&[(0xC000, &[0xA1, 0xFE])]);
    mc.cpu_mem_write(0x00FF, 0x10, 0);
    mc.cpu_mem_write(0x0000, 0x03, 0);
    mc.cpu_mem_write(0x0100, 0x07, 0);
    mc.cpu_mem_write(0x0310, 0x99, 0);
    let mut cpu = Cpu::default();
    cpu.reg.PC = 0xC000;
    cpu.reg.X = 1;
    assert_eq!(cpu.execute(&mut mc), Ok(6));
    assert_eq!(cpu.operand_address, 0x0310);
    assert_eq!(cpu.reg.A, 0x99);
}

#[test]
fn indirect_indexed_pays_for_a_page_crossing() {
    // LDA ($10),Y with the word 0x02F0 at 0x10 and Y = 0x20.
    let mut mc = get_mem_controller_with_program(&[(0xC000, &[0xB1, 0x10, 0xB1, 0x10])]);
    mc.cpu_mem_write(0x0010, 0xF0, 0);
    mc.cpu_mem_write(0x0011, 0x02, 0);
    mc.cpu_mem_write(0x0310, 0x77, 0);
    mc.cpu_mem_write(0x02F1, 0x66, 0);
    let mut cpu = Cpu::default();
    cpu.reg.PC = 0xC000;
    cpu.reg.Y = 0x20;
    assert_eq!(cpu.execute(&mut mc), Ok(6));
    assert_eq!(cpu.reg.A, 0x77);
    cpu.reg.Y = 0x01;
    assert_eq!(cpu.execute(&mut mc), Ok(5));
    assert_eq!(cpu.reg.A, 0x66);
}

#[test]
fn stores_pay_no_page_penalty() {
    // STA $02F0,X with X = 0x20 crosses a page and still takes 5 cycles.
    let mut mc = get_mem_controller_with_program(&[(0xC000, &[0x9D, 0xF0, 0x02])]);
    let mut cpu = Cpu::default();
    cpu.reg.PC = 0xC000;
    cpu.reg.X = 0x20;
    cpu.reg.A = 0x3C;
    assert_eq!(cpu.execute(&mut mc), Ok(5));
    assert_eq!(mc.cpu_mem_read(0, 0x0310), 0x3C);
}

#[test]
fn combined_instructions_pay_no_page_penalty() {
    // SLO $02F0,X with X = 0x20: 7 cycles with or without a crossing.
    let mut mc = get_mem_controller_with_program(&[(0xC000, &[0x1F, 0xF0, 0x02])]);
    mc.cpu_mem_write(0x0310, 0x81, 0);
    let mut cpu = Cpu::default();
    cpu.reg.PC = 0xC000;
    cpu.reg.X = 0x20;
    cpu.reg.A = 0x01;
    assert_eq!(cpu.execute(&mut mc), Ok(7));
    assert_eq!(mc.cpu_mem_read(0, 0x0310), 0x02);
    assert_eq!(cpu.reg.A, 0x03);
    assert!(utils::bit_is_set(PS_C_BIT, cpu.reg.P));
}

#[test]
fn undocumented_nop_pays_the_page_penalty() {
    // NOP $02F0,X (0x1C) with X = 0x20
    let mut mc = get_mem_controller_with_program(&[(0xC000, &[0x1C, 0xF0, 0x02])]);
    let mut cpu = Cpu::default();
    cpu.reg.PC = 0xC000;
    cpu.reg.X = 0x20;
    assert_eq!(cpu.execute(&mut mc), Ok(5));
    assert_eq!(cpu.reg.PC, 0xC003);
}

#[test]
fn unimplemented_opcode_is_an_error() {
    let mut mc = get_mem_controller_with_program(&[(0xC000, &[0x02])]);
    let mut cpu = Cpu::default();
    cpu.reg.PC = 0xC000;
    assert_eq!(cpu.execute(&mut mc), Err(CpuError::UnimplementedOpcode));
    // The processor stands behind the opcode, and the counter has not moved.
    assert_eq!(cpu.reg.PC, 0xC001);
    assert_eq!(cpu.cycle_count, 0);
    cpu.reg.PC = 0xC000;
    assert_eq!(cpu.cycle_to(&mut mc, 100), Err(CpuError::UnimplementedOpcode));
    cpu.reg.PC = 0xC000;
    assert_eq!(cpu.step(&mut mc), Err(CpuError::UnimplementedOpcode));
}

#[test]
fn brk_pushes_and_takes_the_irq_vector() {
    let mut mc = get_mem_controller_with_program(&[(0xC000, &[0x00]), (0xFFFE, &[0x00, 0xD0])]);
    let mut cpu = Cpu::default();
    cpu.reg.PC = 0xC000;
    cpu.reg.SP = 0xFF;
    cpu.reg.P = 0x01;
    assert_eq!(cpu.execute(&mut mc), Ok(7));
    assert_eq!(cpu.reg.PC, 0xD000);
    assert!(utils::bit_is_set(PS_I_BIT, cpu.reg.P));
    // The address behind the byte after BRK, then the status with bits 4
    // and 5 set.
    assert_eq!(mc.cpu_mem_read(0, 0x01FF), 0xC0);
    assert_eq!(mc.cpu_mem_read(0, 0x01FE), 0x02);
    assert_eq!(mc.cpu_mem_read(0, 0x01FD), 0x31);
    assert_eq!(cpu.reg.SP, 0xFC);
}

#[test]
fn rti_returns_from_brk() {
    let mut mc = get_mem_controller_with_program(&[
        (0xC000, &[0x00]),
        (0xD000, &[0x40]),
        (0xFFFE, &[0x00, 0xD0]),
    ]);
    let mut cpu = Cpu::default();
    cpu.reg.PC = 0xC000;
    cpu.reg.SP = 0xFF;
    cpu.reg.P = 0xC3;
    cpu.execute(&mut mc).unwrap();
    assert_eq!(cpu.execute(&mut mc), Ok(6));
    assert_eq!(cpu.reg.PC, 0xC002);
    // I was set by BRK; bit 2 of the pulled status is what it was before.
    assert_eq!(cpu.reg.P, 0xC3);
    assert_eq!(cpu.reg.SP, 0xFF);
}

#[test]
fn nmi_is_entered_before_the_next_instruction() {
    let mut mc = get_mem_controller_with_program(&[
        (0xC000, &[0xEA]),
        (0xD000, &[0xA9, 0x11]),
        (0xFFFA, &[0x00, 0xD0]),
    ]);
    let mut cpu = Cpu::default();
    cpu.reg.PC = 0xC000;
    cpu.reg.SP = 0xFF;
    cpu.reg.P = 0x10;
    cpu.request_nmi();
    assert!(cpu.nmi_pending);
    // Seven cycles for the entry and two for LDA.
    assert_eq!(cpu.execute(&mut mc), Ok(9));
    assert!(!cpu.nmi_pending);
    assert_eq!(cpu.reg.A, 0x11);
    assert_eq!(cpu.reg.PC, 0xD002);
    assert!(utils::bit_is_set(PS_I_BIT, cpu.reg.P));
    assert_eq!(mc.cpu_mem_read(0, 0x01FF), 0xC0);
    assert_eq!(mc.cpu_mem_read(0, 0x01FE), 0x00);
    // Bit 4 is pushed as 0 and bit 5 as 1.
    assert_eq!(mc.cpu_mem_read(0, 0x01FD), 0x20);
}

#[test]
fn oam_dma_stalls_the_processor() {
    // LDA #$02; STA $4014
    let mut mc = get_mem_controller_with_program(&[(0xC000, &[0xA9, 0x02, 0x8D, 0x14, 0x40])]);
    mc.cpu_mem_write(0x0200, 0xAA, 0);
    mc.cpu_mem_write(0x02FF, 0xBB, 0);
    let mut cpu = Cpu::default();
    cpu.reg.PC = 0xC000;
    assert_eq!(cpu.execute(&mut mc), Ok(2));
    assert_eq!(cpu.execute(&mut mc), Ok(4 + 513));
    assert_eq!(mc.ppu.oam[0], 0xAA);
    assert_eq!(mc.ppu.oam[255], 0xBB);
}

#[test]
fn shifts_and_rotations() {
    let mut mc = get_mem_controller();
    let mut cpu = Cpu::default();
    cpu.opcode = 0x4A; // LSR A
    cpu.operand_value = 0x03;
    cpu.lsr(&mut mc);
    assert_eq!(cpu.reg.A, 0x01);
    assert!(utils::bit_is_set(PS_C_BIT, cpu.reg.P));

    cpu.opcode = 0x2A; // ROL A
    cpu.operand_value = 0x80;
    cpu.rol(&mut mc);
    assert_eq!(cpu.reg.A, 0x01);
    assert!(utils::bit_is_set(PS_C_BIT, cpu.reg.P));

    cpu.opcode = 0x6A; // ROR A
    cpu.operand_value = 0x01;
    cpu.ror(&mut mc);
    assert_eq!(cpu.reg.A, 0x80);
    assert!(utils::bit_is_set(PS_C_BIT, cpu.reg.P));
    assert!(utils::bit_is_set(PS_N_BIT, cpu.reg.P));
}

#[test]
fn bit_copies_bits_6_and_7() {
    let mut mc = get_mem_controller();
    let mut cpu = Cpu::default();
    cpu.reg.A = 0x01;
    cpu.operand_value = 0xC0;
    cpu.bit(&mut mc);
    assert!(utils::bit_is_set(PS_Z_BIT, cpu.reg.P));
    assert!(utils::bit_is_set(PS_V_BIT, cpu.reg.P));
    assert!(utils::bit_is_set(PS_N_BIT, cpu.reg.P));
}

#[test]
fn increments_wrap() {
    let mut cpu = Cpu::default();
    cpu.reg.X = 0xFF;
    cpu.inx();
    assert_eq!(cpu.reg.X, 0);
    assert!(utils::bit_is_set(PS_Z_BIT, cpu.reg.P));
    cpu.dex();
    assert_eq!(cpu.reg.X, 0xFF);
    assert!(utils::bit_is_set(PS_N_BIT, cpu.reg.P));
    cpu.reg.Y = 0;
    cpu.dey();
    assert_eq!(cpu.reg.Y, 0xFF);
    cpu.iny();
    assert_eq!(cpu.reg.Y, 0);
}

#[test]
fn transfers_set_flags_but_txs_does_not() {
    let mut cpu = Cpu::default();
    cpu.reg.A = 0x80;
    cpu.tax();
    assert_eq!(cpu.reg.X, 0x80);
    assert!(utils::bit_is_set(PS_N_BIT, cpu.reg.P));
    cpu.reg.P = 0;
    cpu.txs();
    assert_eq!(cpu.reg.SP, 0x80);
    assert_eq!(cpu.reg.P, 0);
    cpu.reg.X = 0;
    cpu.tsx();
    assert_eq!(cpu.reg.X, 0x80);
}

#[test]
fn instruction_table_entries() {
    let lda = decode(0xA9);
    assert_eq!(lda.op, Op::LDA);
    assert_eq!(lda.addr_mode, AddrMode::IMM);
    assert_eq!(lda.cycles, 2);
    assert!(lda.legal);
    assert_eq!(mnemonic(0xA9), "LDA");

    let slo = decode(0x03);
    assert_eq!(slo.op, Op::SLO);
    assert_eq!(slo.addr_mode, AddrMode::IZX);
    assert_eq!(slo.cycles, 8);
    assert!(!slo.legal);

    let ill = decode(0x02);
    assert_eq!(ill.op, Op::OOPS);
    assert_eq!(ill.addr_mode, AddrMode::UNK);
    assert_eq!(mnemonic(0x02), "ILL");

    let mut official = 0;
    for opcode in 0..=255u8 {
        if decode(opcode).legal {
            official += 1;
        }
    }
    assert_eq!(official, 151);
}

#[test]
fn set_program_counter_sets_pc() {
    let mut cpu = Cpu::default();
    cpu.set_program_counter(0xC123);
    assert_eq!(cpu.reg.PC, 0xC123);
}

#[test]
fn mapper_interface_is_usable_through_the_trait() {
    let mc = get_mem_controller_with_program(&[(0xC000, &[0x12])]);
    assert_eq!(mc.mapper.cpu_read(0xC000), 0x12);
    assert_eq!(mc.mapper.cpu_read(0x8000), 0x12);
    assert_eq!(mc.mapper.number(), 0);
    assert_eq!(mc.mapper.name(), "NROM");
}
