//! Mapper 0: one or two fixed PRG banks and one CHR bank, ROM or RAM.

use vstd::prelude::*;
use crate::ines::{InesRom, MirroringType, RomError};
use crate::mappers::Mapper;
use crate::mem::{loaded, ppu_effective_address, Memory, PpuMemory, PpuMemoryView, CPU_MEMORY_SIZE};
use crate::ppu::constants::Mirroring;

verus! {

/// The mirroring mode that a cartridge header asks for.
pub open spec fn mirroring_of_header(m: MirroringType) -> Mirroring {
    match m {
        MirroringType::Horizontal => Mirroring::Horizontal,
        MirroringType::Vertical => Mirroring::Vertical,
    }
}

/// Computes `mirroring_of_header`.
pub fn header_mirroring(m: MirroringType) -> (r: Mirroring)
    ensures
        r == mirroring_of_header(m),
{
    match m {
        MirroringType::Horizontal => Mirroring::Horizontal,
        MirroringType::Vertical => Mirroring::Vertical,
    }
}

pub struct NromMapper {
    pub cpu_mem: Memory,
    pub ppu_mem: PpuMemory,
    pub chr_ram: bool,
}

/// What an `NromMapper` holds.
pub struct NromView {
    pub cpu: Seq<u8>,
    pub ppu: PpuMemoryView,
    /// Whether the pattern tables are RAM.
    pub chr_ram: bool,
}

impl View for NromMapper {
    type V = NromView;

    open spec fn view(&self) -> NromView {
        NromView { cpu: self.cpu_mem@, ppu: self.ppu_mem@, chr_ram: self.chr_ram }
    }
}

impl NromMapper {
    /// The mapper that `new` makes of two memories.
    pub open spec fn fresh(cpu: Seq<u8>, ppu: PpuMemoryView) -> NromView {
        NromView { cpu, ppu, chr_ram: false }
    }
}

/// Makes the mapper around the two memories; its pattern tables are ROM
/// until a ROM without CHR banks is loaded.
pub fn new(cpu_mem: Memory, ppu_mem: PpuMemory) -> (r: NromMapper)
    requires
        cpu_mem@.len() == CPU_MEMORY_SIZE,
        ppu_mem.inv(),
    ensures
        r@ == NromMapper::fresh(cpu_mem@, ppu_mem@),
        NromMapper::wf(r@),
{
    NromMapper { cpu_mem, ppu_mem, chr_ram: false }
}

impl Mapper for NromMapper {
    open spec fn wf(m: NromView) -> bool {
        &&& m.cpu.len() == CPU_MEMORY_SIZE
        &&& m.ppu.wf()
    }

    open spec fn cpu_read_spec(m: NromView, addr: u16) -> u8 {
        m.cpu[addr as int]
    }

    /// Writes below 0x8000 land in memory; the ROM above ignores them.
    open spec fn cpu_write_spec(m: NromView, addr: u16, value: u8) -> NromView {
        if addr < 0x8000 {
            NromView { cpu: m.cpu.update(addr as int, value), ..m }
        } else {
            m
        }
    }

    open spec fn dma_page_spec(m: NromView, addr: u16) -> Seq<u8> {
        m.cpu.subrange(addr as int, addr as int + 256)
    }

    open spec fn ppu_read_spec(m: NromView, addr: u16) -> u8 {
        m.ppu.read(addr)
    }

    /// Pattern tables take writes only where they are RAM.
    open spec fn ppu_write_spec(m: NromView, addr: u16, value: u8) -> NromView {
        if ppu_effective_address(addr) < 0x2000 && !m.chr_ram {
            m
        } else {
            NromView { ppu: m.ppu.write(addr, value), ..m }
        }
    }

    open spec fn accepts(m: NromView, rom: InesRom) -> bool {
        &&& 1 <= rom.prg_rom@.len() <= 2
        &&& rom.chr_rom@.len() <= 1
    }

    /// The first PRG bank at 0x8000, the last one at 0xC000 (the same bank
    /// where there is but one), the header's mirroring, and the CHR bank at
    /// 0x0000 of the picture unit, or RAM there where the ROM has none.
    open spec fn loaded_spec(m: NromView, rom: InesRom) -> NromView {
        let last = rom.prg_rom@.len() - 1;
        let cpu = loaded(loaded(m.cpu, 0x8000, rom.prg_rom@[0]@), 0xC000, rom.prg_rom@[last]@);
        let mirrored = PpuMemoryView {
            mirroring: mirroring_of_header(rom.header.flags6.mirroring),
            ..m.ppu
        };
        if rom.chr_rom@.len() == 0 {
            NromView { cpu, ppu: mirrored, chr_ram: true }
        } else {
            NromView {
                cpu,
                ppu: PpuMemoryView { mem: loaded(mirrored.mem, 0, rom.chr_rom@[0]@), ..mirrored },
                chr_ram: false,
            }
        }
    }

    open spec fn saved_ram(m: NromView) -> Option<Seq<u8>> {
        None
    }

    open spec fn name_spec(m: NromView) -> &'static str {
        "NROM"
    }

    open spec fn number_spec(m: NromView) -> u16 {
        0
    }

    proof fn lemma_ram(m: NromView, addr: u16, value: u8, other: u16) {
    }

    fn name(&self) -> (r: &'static str) {
        "NROM"
    }

    fn number(&self) -> (r: u16) {
        0
    }

    fn load_rom(&mut self, ines: &InesRom) -> (r: Result<(), RomError>) {
        let prg_count: usize = ines.prg_rom.len();
        let chr_count: usize = ines.chr_rom.len();
        if prg_count < 1 || prg_count > 2 || chr_count > 1 {
            return Err(RomError::BadBankCount);
        }
        self.cpu_mem.load(0x8000, ines.prg_rom[0].as_slice());
        if prg_count == 1 {
            self.cpu_mem.load(0xC000, ines.prg_rom[0].as_slice());
        } else {
            self.cpu_mem.load(0xC000, ines.prg_rom[1].as_slice());
        }
        self.ppu_mem.set_mirroring(header_mirroring(ines.header.flags6.mirroring));
        if chr_count == 0 {
            self.chr_ram = true;
        } else {
            self.chr_ram = false;
            self.ppu_mem.load(0x0000, ines.chr_rom[0].as_slice());
        }
        Ok(())
    }

    fn cpu_read(&self, addr: u16) -> (r: u8) {
        self.cpu_mem.read(addr)
    }

    fn cpu_write(&mut self, addr: u16, value: u8) {
        if addr < 0x8000 {
            self.cpu_mem.write(addr, value);
        }
    }

    fn get_cpu_dma_slice(&self, addr: u16) -> (r: &[u8]) {
        self.cpu_mem.get_slice(addr, 256)
    }

    fn ppu_read(&self, addr: u16) -> (r: u8) {
        self.ppu_mem.read(addr)
    }

    fn ppu_write(&mut self, addr: u16, value: u8) {
        let effective: u16 = self.ppu_mem.get_effective_address(addr);
        if effective < 0x2000 {
            if self.chr_ram {
                self.ppu_mem.write(addr, value);
            }
        } else {
            self.ppu_mem.write(addr, value);
        }
    }

    fn shutdown(&mut self) -> (r: Option<Vec<u8>>) {
        None
    }
}

} // verus!
