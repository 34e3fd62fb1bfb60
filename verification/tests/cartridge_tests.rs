use retrobrite::ines::{
    parse_chr_rom, parse_prg_rom, FileFormat, Flags6, Flags7, InesHeader, InesRom, MirroringType,
    RomError,
};
use retrobrite::mappers::m001_mmc1::{ChrRomBankMode, Mmc1Mapper, PrgRomBankMode, RegisterStatus};
use retrobrite::mappers::m002_unrom::UnromMapper;
use retrobrite::mappers::{get_mapper, get_ppu_effective_address, AnyMapper, Mapper};
use retrobrite::mem::{Memory, PpuMemory};
use retrobrite::ppu::constants::Mirroring;
use retrobrite::wram::WRam;

/// A cartridge image: bank `i` of PRG is filled with `i + 1`, bank `j` of
/// CHR with `0x80 + j` in its lower half and `0xC0 + j` in its upper half.
fn image(prg: u8, chr: u8, flags6: u8, flags7: u8, trainer: bool) -> Vec<u8> {
    let mut image = vec![0x4E, 0x45, 0x53, 0x1A, prg, chr, flags6, flags7, 0, 0, 0, 0, 0, 0, 0, 0];
    if trainer {
        image.extend_from_slice(&vec![0xEE; 512]);
    }
    for i in 0..prg {
        image.extend_from_slice(&vec![i + 1; 16384]);
    }
    for j in 0..chr {
        image.extend_from_slice(&vec![0x80 + j; 4096]);
        image.extend_from_slice(&vec![0xC0 + j; 4096]);
    }
    image
}

fn mmc1(prg: u8, chr: u8, flags6: u8) -> Mmc1Mapper {
    let rom = InesRom::from_buffer(&image(prg, chr, flags6, 0, false)).unwrap();
    let mut mapper = retrobrite::mappers::m001_mmc1::new(Memory::new_cpu(), PpuMemory::new());
    mapper.load_rom(&rom).unwrap();
    mapper
}

/// Sends the five bits of `value` to the register at `addr`, lowest first.
fn serial_write(mapper: &mut Mmc1Mapper, addr: u16, value: u8) {
    for bit in 0..5 {
        mapper.cpu_write(addr, (value >> bit) & 1);
    }
}

#[test]
fn flags6_fields() {
    let flags = Flags6::parse(0b1010_0101);
    assert_eq!(flags.mirroring, MirroringType::Vertical);
    assert!(!flags._has_battery_backed_prg_ram);
    assert!(flags.has_trainer);
    assert!(!flags._four_screen_vram);
    assert_eq!(flags.mapper_lower_nybble, 0x0A);

    let flags = Flags6::parse(0b0000_1010);
    assert_eq!(flags.mirroring, MirroringType::Horizontal);
    assert!(flags._has_battery_backed_prg_ram);
    assert!(!flags.has_trainer);
    assert!(flags._four_screen_vram);
    assert_eq!(flags.mapper_lower_nybble, 0);
}

#[test]
fn flags7_fields() {
    let flags = Flags7::parse(0b0100_1001);
    assert!(flags._vs_unisystem);
    assert!(!flags._playchoice_10);
    assert_eq!(flags._file_format, FileFormat::INES2);
    assert_eq!(flags.mapper_upper_nybble, 0x40);

    let flags = Flags7::parse(0b0000_0110);
    assert!(!flags._vs_unisystem);
    assert!(flags._playchoice_10);
    assert_eq!(flags._file_format, FileFormat::INES);
    assert_eq!(flags.mapper_upper_nybble, 0);
}

#[test]
fn header_is_parsed() {
    let header = InesHeader::parse(&image(2, 1, 0x11, 0x40, false)).unwrap();
    assert_eq!(header.num_prg_rom_chunks, 2);
    assert_eq!(header.num_chr_rom_chunks, 1);
    assert_eq!(header.flags6.mirroring, MirroringType::Vertical);
    assert_eq!(header.flags6.mapper_lower_nybble, 1);
    assert_eq!(header.flags7.mapper_upper_nybble, 0x40);
}

#[test]
fn rom_is_cut_into_banks() {
    let rom = InesRom::from_buffer(&image(2, 1, 0x10, 0x00, false)).unwrap();
    assert_eq!(rom.prg_rom.len(), 2);
    assert_eq!(rom.chr_rom.len(), 1);
    assert!(rom.prg_rom[0].iter().all(|b| *b == 1));
    assert!(rom.prg_rom[1].iter().all(|b| *b == 2));
    assert!(rom.chr_rom[0][..4096].iter().all(|b| *b == 0x80));
    assert!(rom.chr_rom[0][4096..].iter().all(|b| *b == 0xC0));
    assert_eq!(rom.get_mapper_number(), 1);
    assert_eq!(rom.rom_name, "");
}

#[test]
fn trainer_is_skipped() {
    let rom = InesRom::from_buffer(&image(1, 1, 0x04, 0x00, true)).unwrap();
    assert!(rom.header.flags6.has_trainer);
    assert!(rom.prg_rom[0].iter().all(|b| *b == 1));
    assert_eq!(rom.chr_rom[0][0], 0x80);
}

#[test]
fn mapper_number_joins_the_nybbles() {
    let rom = InesRom::from_buffer(&image(1, 0, 0x70, 0x40, false)).unwrap();
    assert_eq!(rom.get_mapper_number(), 0x47);
}

#[test]
fn bad_images_are_refused() {
    assert_eq!(InesRom::from_buffer(&[0x4E, 0x45, 0x53]).unwrap_err(), RomError::MissingHeader);
    assert_eq!(InesRom::from_buffer(&[]).unwrap_err(), RomError::MissingHeader);

    let mut bad_magic = image(1, 0, 0, 0, false);
    bad_magic[3] = 0x1B;
    assert_eq!(InesRom::from_buffer(&bad_magic).unwrap_err(), RomError::BadMagic);

    let mut short = image(2, 1, 0, 0, false);
    short.pop();
    assert_eq!(InesRom::from_buffer(&short).unwrap_err(), RomError::Truncated);

    // A header alone with no banks is a complete image.
    assert!(InesRom::from_buffer(&image(0, 0, 0, 0, false)).is_ok());
}

#[test]
fn bank_cutters_take_what_they_are_given() {
    let mut data = vec![7u8; 16384];
    data.extend_from_slice(&vec![9u8; 16384]);
    let banks = parse_prg_rom(&data, 2);
    assert_eq!(banks.len(), 2);
    assert_eq!(banks[0][16383], 7);
    assert_eq!(banks[1][0], 9);
    let banks = parse_chr_rom(&data, 3);
    assert_eq!(banks.len(), 3);
    assert_eq!(banks[1][8191], 7);
    assert_eq!(banks[2][0], 9);
    assert!(parse_prg_rom(&[], 0).is_empty());
}

#[test]
fn mapper_factory_knows_four_numbers() {
    for (number, expected) in [(0u16, 0u16), (1, 1), (2, 2), (71, 2)] {
        let mapper = get_mapper(number, Memory::new_cpu(), PpuMemory::new()).unwrap();
        assert_eq!(mapper.number(), expected);
    }
    match get_mapper(3, Memory::new_cpu(), PpuMemory::new()) {
        Err(e) => assert_eq!(e, RomError::UnsupportedMapper),
        Ok(_) => panic!("mapper 3 does not exist"),
    }
    assert!(get_mapper(4, Memory::new_cpu(), PpuMemory::new()).is_err());
}

#[test]
fn any_mapper_hands_on_to_its_mapper() {
    let rom = InesRom::from_buffer(&image(2, 1, 0x01, 0, false)).unwrap();
    let mut mapper = get_mapper(0, Memory::new_cpu(), PpuMemory::new()).unwrap();
    assert_eq!(mapper.name(), "NROM");
    mapper.load_rom(&rom).unwrap();
    assert_eq!(mapper.cpu_read(0x8000), 1);
    assert_eq!(mapper.cpu_read(0xC000), 2);
    mapper.cpu_write(0x0010, 0x77);
    assert_eq!(mapper.cpu_read(0x0010), 0x77);
    assert_eq!(mapper.ppu_read(0x0000), 0x80);
    mapper.ppu_write(0x2000, 5);
    assert_eq!(mapper.ppu_read(0x2000), 5);
    assert_eq!(mapper.get_cpu_dma_slice(0x8000).len(), 256);
    assert!(mapper.shutdown().is_none());
    match mapper {
        AnyMapper::Nrom(_) => (),
        _ => panic!("mapper 0 is NROM"),
    }
}

#[test]
fn nrom_mirrors_a_single_bank_and_ignores_writes_to_rom() {
    let rom = InesRom::from_buffer(&image(1, 1, 0, 0, false)).unwrap();
    let mut mapper = retrobrite::mappers::m000_nrom::new(Memory::new_cpu(), PpuMemory::new());
    mapper.load_rom(&rom).unwrap();
    assert_eq!(mapper.cpu_read(0x8000), 1);
    assert_eq!(mapper.cpu_read(0xFFFF), 1);
    mapper.cpu_write(0x8000, 0x55);
    assert_eq!(mapper.cpu_read(0x8000), 1);
    // CHR ROM takes no writes.
    mapper.ppu_write(0x0000, 0x55);
    assert_eq!(mapper.ppu_read(0x0000), 0x80);
    assert_eq!(mapper.ppu_read(0x1000), 0xC0);
    // Addresses wrap at 0x4000 before the test for ROM.
    mapper.ppu_write(0x4000, 0x55);
    assert_eq!(mapper.ppu_read(0x0000), 0x80);
    assert_eq!(mapper.ppu_mem.mirroring, Mirroring::Horizontal);
}

#[test]
fn nrom_without_chr_has_chr_ram() {
    let rom = InesRom::from_buffer(&image(1, 0, 0x01, 0, false)).unwrap();
    let mut mapper = retrobrite::mappers::m000_nrom::new(Memory::new_cpu(), PpuMemory::new());
    mapper.load_rom(&rom).unwrap();
    assert!(mapper.chr_ram);
    mapper.ppu_write(0x0123, 0x55);
    assert_eq!(mapper.ppu_read(0x0123), 0x55);
    assert_eq!(mapper.ppu_mem.mirroring, Mirroring::Vertical);
}

#[test]
fn nrom_refuses_other_bank_counts() {
    for (prg, chr) in [(0u8, 1u8), (3, 1), (1, 2)] {
        let rom = InesRom::from_buffer(&image(prg, chr, 0, 0, false)).unwrap();
        let mut mapper = retrobrite::mappers::m000_nrom::new(Memory::new_cpu(), PpuMemory::new());
        mapper.cpu_write(0x0000, 0x42);
        assert_eq!(mapper.load_rom(&rom), Err(RomError::BadBankCount));
        assert_eq!(mapper.cpu_read(0x0000), 0x42);
        assert_eq!(mapper.cpu_read(0x8000), 0);
    }
}

#[test]
fn unrom_switches_the_bank_at_8000() {
    let rom = InesRom::from_buffer(&image(4, 0, 0x01, 0, false)).unwrap();
    let mut mapper: UnromMapper =
        retrobrite::mappers::m002_unrom::new(Memory::new_cpu(), PpuMemory::new());
    assert_eq!(mapper.number(), 2);
    assert_eq!(mapper.name(), "UNROM");
    // Without banks a write to the ROM range does nothing.
    mapper.cpu_write(0x8000, 1);
    assert_eq!(mapper.cpu_read(0x8000), 0);

    mapper.load_rom(&rom).unwrap();
    assert_eq!(mapper.cpu_read(0x8000), 1);
    assert_eq!(mapper.cpu_read(0xC000), 4);
    mapper.cpu_write(0x8000, 0xF2);
    assert_eq!(mapper.cpu_read(0x8000), 3);
    assert_eq!(mapper.cpu_read(0xBFFF), 3);
    assert_eq!(mapper.cpu_read(0xC000), 4);
    // The bank list repeats beyond its end.
    mapper.cpu_write(0xFFFF, 0x05);
    assert_eq!(mapper.cpu_read(0x8000), 2);
    // CHR is RAM.
    mapper.ppu_write(0x0000, 0x99);
    assert_eq!(mapper.ppu_read(0x0000), 0x99);
    assert_eq!(mapper.ppu_mem.mirroring, Mirroring::Vertical);
    mapper.cpu_write(0x0300, 0x12);
    assert_eq!(mapper.cpu_read(0x0300), 0x12);

    let empty = InesRom::from_buffer(&image(0, 0, 0, 0, false)).unwrap();
    assert_eq!(mapper.load_rom(&empty), Err(RomError::BadBankCount));
    assert_eq!(mapper.cpu_read(0xC000), 4);
}

#[test]
fn mmc1_starts_with_the_last_bank_fixed() {
    let mapper = mmc1(4, 2, 0);
    assert_eq!(mapper.number(), 1);
    assert_eq!(mapper.name(), "MMC1");
    assert_eq!(mapper.cpu_read(0x8000), 1);
    assert_eq!(mapper.cpu_read(0xC000), 4);
    assert_eq!(mapper.prg_rom_bank_mode(), PrgRomBankMode::BankC000Fixed);
    assert_eq!(mapper.chr_rom_bank_mode(), ChrRomBankMode::Switch8KB);
    assert_eq!(mapper.chr_rom_banks.len(), 4);
    assert_eq!(mapper.chr_rom_banks[0][0], 0x80);
    assert_eq!(mapper.chr_rom_banks[1][0], 0xC0);
    assert_eq!(mapper.chr_rom_banks[2][0], 0x81);
    assert_eq!(mapper.chr_rom_banks[3][4095], 0xC1);
}

#[test]
fn mmc1_shift_register_takes_five_writes() {
    let mut mapper = mmc1(4, 2, 0);
    assert_eq!(mapper.push_shift_reg(1), RegisterStatus::Partial);
    assert_eq!(mapper.push_shift_reg(0), RegisterStatus::Partial);
    assert_eq!(mapper.push_shift_reg(1), RegisterStatus::Partial);
    assert_eq!(mapper.push_shift_reg(1), RegisterStatus::Partial);
    assert_eq!(mapper.reg_write_count, 4);
    assert_eq!(mapper.push_shift_reg(0), RegisterStatus::Ready);
    assert_eq!(mapper.shift_register, 0b01101);
    assert_eq!(mapper.reg_write_count, 0);
    assert_eq!(mapper.push_shift_reg(0x80), RegisterStatus::Cleared);
    assert_eq!(mapper.shift_register, 0);
}

#[test]
fn mmc1_prg_register_switches_banks_by_mode() {
    let mut mapper = mmc1(4, 2, 0);
    // Mode 3: the bank at 0x8000 switches.
    serial_write(&mut mapper, 0xE000, 2);
    assert_eq!(mapper.prg, 2);
    assert_eq!(mapper.cpu_read(0x8000), 3);
    assert_eq!(mapper.cpu_read(0xC000), 4);
    assert_eq!(mapper.shift_register, 0);

    // Mode 2: the bank at 0xC000 switches.
    serial_write(&mut mapper, 0x8000, 0b01000);
    assert_eq!(mapper.prg_rom_bank_mode(), PrgRomBankMode::Bank8000Fixed);
    serial_write(&mut mapper, 0xE000, 1);
    assert_eq!(mapper.cpu_read(0x8000), 3);
    assert_eq!(mapper.cpu_read(0xC000), 2);

    // Mode 0: 32 KiB at once, from an even bank.
    serial_write(&mut mapper, 0x8000, 0b00000);
    assert_eq!(mapper.prg_rom_bank_mode(), PrgRomBankMode::Bank8000_32KB);
    serial_write(&mut mapper, 0xFFFF, 3);
    assert_eq!(mapper.cpu_read(0x8000), 3);
    assert_eq!(mapper.cpu_read(0xC000), 4);
    serial_write(&mut mapper, 0xE000, 0);
    assert_eq!(mapper.cpu_read(0x8000), 1);
    assert_eq!(mapper.cpu_read(0xC000), 2);
}

#[test]
fn mmc1_control_register_sets_mirroring_and_modes() {
    let mut mapper = mmc1(2, 2, 0);
    for (value, mirroring) in [
        (0b01100u8, Mirroring::OneScreen0),
        (0b01101, Mirroring::OneScreen1),
        (0b01110, Mirroring::Vertical),
        (0b01111, Mirroring::Horizontal),
    ] {
        serial_write(&mut mapper, 0x9FFF, value);
        assert_eq!(mapper.control, value);
        assert_eq!(mapper.ppu_mem.mirroring, mirroring);
    }
    serial_write(&mut mapper, 0x8000, 0b10000);
    assert_eq!(mapper.chr_rom_bank_mode(), ChrRomBankMode::Switch4KB);
    assert_eq!(mapper.prg_rom_bank_mode(), PrgRomBankMode::Bank8000_32KB);
}

#[test]
fn mmc1_reset_write_keeps_mirroring_and_fixes_the_last_bank() {
    let mut mapper = mmc1(4, 2, 0);
    serial_write(&mut mapper, 0x8000, 0b00010);
    assert_eq!(mapper.ppu_mem.mirroring, Mirroring::Vertical);
    serial_write(&mut mapper, 0xE000, 0);
    assert_eq!(mapper.cpu_read(0xC000), 2);
    mapper.cpu_write(0x8000, 1);
    mapper.cpu_write(0x8000, 1);
    mapper.cpu_write(0x8000, 0x80);
    assert_eq!(mapper.shift_register, 0);
    assert_eq!(mapper.reg_write_count, 0);
    assert_eq!(mapper.control, 0b01110);
    assert_eq!(mapper.ppu_mem.mirroring, Mirroring::Vertical);
    assert_eq!(mapper.prg_rom_bank_mode(), PrgRomBankMode::BankC000Fixed);
    assert_eq!(mapper.cpu_read(0xC000), 4);
}

#[test]
fn mmc1_chr_registers_switch_pattern_tables() {
    let mut mapper = mmc1(2, 2, 0);
    // 8 KiB mode: the even bank and its neighbour.
    serial_write(&mut mapper, 0xA000, 3);
    assert_eq!(mapper.chr0, 3);
    assert_eq!(mapper.ppu_read(0x0000), 0x81);
    assert_eq!(mapper.ppu_read(0x1000), 0xC1);
    // The second register does nothing in this mode.
    serial_write(&mut mapper, 0xC000, 0);
    assert_eq!(mapper.ppu_read(0x1000), 0xC1);

    // 4 KiB mode
    serial_write(&mut mapper, 0x8000, 0b11100);
    serial_write(&mut mapper, 0xA000, 1);
    assert_eq!(mapper.ppu_read(0x0000), 0xC0);
    assert_eq!(mapper.ppu_read(0x1000), 0xC1);
    serial_write(&mut mapper, 0xC000, 2);
    assert_eq!(mapper.chr1, 2);
    assert_eq!(mapper.ppu_read(0x1000), 0x81);
    // The bank list repeats beyond its end.
    serial_write(&mut mapper, 0xC000, 5);
    assert_eq!(mapper.ppu_read(0x1000), 0xC0);
}

#[test]
fn mmc1_without_chr_rom_has_two_banks_of_ram() {
    let mut mapper = mmc1(2, 0, 0);
    assert_eq!(mapper.chr_rom_banks.len(), 2);
    assert!(mapper.chr_rom_banks[0].iter().all(|b| *b == 0));
    mapper.ppu_write(0x0005, 0x44);
    assert_eq!(mapper.ppu_read(0x0005), 0x44);
}

#[test]
fn mmc1_battery_ram_answers_at_6000() {
    let mut plain = mmc1(2, 0, 0);
    assert!(plain.wram.is_none());
    plain.cpu_write(0x6000, 0x11);
    assert_eq!(plain.cpu_read(0x6000), 0x11);
    assert!(plain.shutdown().is_none());
    assert!(!plain.restore_ram(&vec![0u8; 8192]));

    let mut mapper = mmc1(2, 0, 0x02);
    assert!(mapper.wram.is_some());
    mapper.cpu_write(0x6000, 0x55);
    mapper.cpu_write(0x7FFF, 0x66);
    assert_eq!(mapper.cpu_read(0x6000), 0x55);
    assert_eq!(mapper.cpu_read(0x7FFF), 0x66);
    // Plain memory at 0x6000 is untouched behind it.
    assert_eq!(mapper.cpu_mem.read(0x6000), 0);
    let saved = mapper.shutdown().unwrap();
    assert_eq!(saved.len(), 8192);
    assert_eq!(saved[0], 0x55);
    assert_eq!(saved[8191], 0x66);

    let mut image = vec![0u8; 8192];
    image[1] = 0x77;
    assert!(mapper.restore_ram(&image));
    assert_eq!(mapper.cpu_read(0x6001), 0x77);
    assert_eq!(mapper.cpu_read(0x6000), 0x00);
    assert!(!mapper.restore_ram(&vec![0u8; 100]));
    assert_eq!(mapper.cpu_read(0x6001), 0x77);
}

#[test]
fn wram_keeps_its_bytes_and_its_name() {
    let mut wram = WRam::new("zelda");
    assert_eq!(wram.rom_name(), "zelda");
    assert_eq!(wram.contents().len(), 0x2000);
    assert!(wram.contents().iter().all(|b| *b == 0));
    wram.write(0x6010, 0x42);
    assert_eq!(wram.read(0x6010), 0x42);
    assert_eq!(wram.contents()[0x10], 0x42);
    assert_eq!(wram.get_index(0x7FFF), 0x1FFF);
    assert!(!wram.restore(&[1, 2, 3]));
    assert_eq!(wram.read(0x6010), 0x42);
    assert!(wram.restore(&vec![9u8; 0x2000]));
    assert_eq!(wram.read(0x6010), 9);
}

#[test]
fn ppu_addresses_are_wrapped_and_folded() {
    assert_eq!(get_ppu_effective_address(0x0000), 0x0000);
    assert_eq!(get_ppu_effective_address(0x1FFF), 0x1FFF);
    assert_eq!(get_ppu_effective_address(0x2ABC), 0x2ABC);
    assert_eq!(get_ppu_effective_address(0x3000), 0x2000);
    assert_eq!(get_ppu_effective_address(0x3EFF), 0x2EFF);
    assert_eq!(get_ppu_effective_address(0x3F00), 0x3F00);
    assert_eq!(get_ppu_effective_address(0x3F1F), 0x3F1F);
    assert_eq!(get_ppu_effective_address(0x3F20), 0x3F00);
    assert_eq!(get_ppu_effective_address(0x3FFF), 0x3F1F);
    assert_eq!(get_ppu_effective_address(0x4000), 0x0000);
    assert_eq!(get_ppu_effective_address(0x7F25), 0x3F05);
    assert_eq!(get_ppu_effective_address(0xFFFF), 0x3F1F);
}

#[test]
fn palette_aliases_read_back_both_ways() {
    for (i, p) in [0x3F00u16, 0x3F04, 0x3F08, 0x3F0C].into_iter().enumerate() {
        let mut mem = PpuMemory::new();
        mem.write(p, 0x10 + i as u8);
        assert_eq!(mem.read(p + 0x10), 0x10 + i as u8);
        mem.write(p + 0x10, 0x20 + i as u8);
        assert_eq!(mem.read(p), 0x20 + i as u8);
        // The cells in between are their own.
        mem.write(p + 1, 0x31);
        assert_eq!(mem.read(p + 0x11), 0x00);
    }
    let mut mem = PpuMemory::new();
    mem.write(0x3F20, 0x2C);
    assert_eq!(mem.read(0x3F00), 0x2C);
    assert_eq!(mem.read(0x3F10), 0x2C);
    assert_eq!(mem.read(0x3FF0), 0x2C);
}

#[test]
fn nametables_map_onto_two_banks() {
    let tables = [0x2000u16, 0x2400, 0x2800, 0x2C00];
    // For each mode, the bank behind each of the four nametables.
    for (mode, banks) in [
        (Mirroring::Vertical, [0, 1, 0, 1]),
        (Mirroring::Horizontal, [0, 0, 1, 1]),
        (Mirroring::OneScreen0, [0, 0, 0, 0]),
        (Mirroring::OneScreen1, [1, 1, 1, 1]),
    ] {
        for (n, table) in tables.iter().enumerate() {
            let mut mem = PpuMemory::new();
            mem.set_mirroring(mode);
            mem.write(table + 0x123, 0x5A);
            for (other, t) in tables.iter().enumerate() {
                let expected = if banks[other] == banks[n] { 0x5A } else { 0x00 };
                assert_eq!(mem.read(t + 0x123), expected);
                assert_eq!(mem.read_nametable(t + 0x123), expected);
                // 0x3000-0x3EFF mirrors the nametables.
                if t + 0x1123 < 0x3F00 {
                    assert_eq!(mem.read(t + 0x1123), expected);
                }
            }
            if banks[n] == 0 {
                assert_eq!(mem.vram_bank0[0x123], 0x5A);
            } else {
                assert_eq!(mem.vram_bank1[0x123], 0x5A);
            }
        }
    }
    let mut mem = PpuMemory::new();
    mem.write_nametable(0x2FFF, 7);
    assert_eq!(mem.vram_bank1[0x3FF], 7);
}

#[test]
fn ppu_memory_load_copies_without_mirroring() {
    let mut mem = PpuMemory::new();
    mem.load(0x1000, &[1, 2, 3]);
    assert_eq!(mem.read(0x0FFF), 0);
    assert_eq!(mem.read(0x1000), 1);
    assert_eq!(mem.read(0x1002), 3);
    assert_eq!(mem.read(0x1003), 0);
    assert_eq!(mem.get_effective_address(0x5000), 0x1000);
}

#[test]
fn plain_memory_reads_writes_and_loads() {
    assert_eq!(Memory::new(16).mem.len(), 16);
    assert_eq!(Memory::new_cpu().mem.len(), 65536);
    assert_eq!(Memory::new_ppu().mem.len(), 16384);
    assert_eq!(Memory::new_vram().mem.len(), 2048);

    let mut mem = Memory::new(16);
    mem.write(3, 0x34);
    mem.write(4, 0x12);
    assert_eq!(mem.read(3), 0x34);
    assert_eq!(mem.read_word(3), 0x1234);
    mem.load(10, &[1, 2, 3]);
    assert_eq!(mem.get_slice(9, 5), &[0, 1, 2, 3, 0]);
    assert_eq!(mem.get_slice(0, 0).len(), 0);

    mem.wrapping_load(14, &[7, 8, 9, 10]);
    assert_eq!(mem.read(14), 7);
    assert_eq!(mem.read(15), 8);
    assert_eq!(mem.read(0), 9);
    assert_eq!(mem.read(1), 10);
    // More bytes than cells: the last ones stay.
    let mut small = Memory::new(2);
    small.wrapping_load(1, &[1, 2, 3, 4, 5]);
    assert_eq!(small.read(0), 4);
    assert_eq!(small.read(1), 5);
}
