//! Mapper 2: a switchable PRG bank at 0x8000, the last bank fixed at
//! 0xC000, and 8 KiB of CHR RAM.

use vstd::prelude::*;
use crate::ines::{InesRom, RomError};
use crate::mappers::m000_nrom::{header_mirroring, mirroring_of_header};
use crate::mappers::{banks_sized, prg_bank_seqs, Mapper};
use crate::mem::{loaded, Memory, PpuMemory, PpuMemoryView, CPU_MEMORY_SIZE};

verus! {

pub struct UnromMapper {
    pub cpu_mem: Memory,
    pub ppu_mem: PpuMemory,
    pub prg_rom_banks: Vec<[u8; 16384]>,
}

/// What an `UnromMapper` holds.
pub struct UnromView {
    pub cpu: Seq<u8>,
    pub ppu: PpuMemoryView,
    /// The PRG banks of the cartridge, 16 KiB each.
    pub prg_banks: Seq<Seq<u8>>,
}

impl View for UnromMapper {
    type V = UnromView;

    open spec fn view(&self) -> UnromView {
        UnromView {
            cpu: self.cpu_mem@,
            ppu: self.ppu_mem@,
            prg_banks: prg_bank_seqs(self.prg_rom_banks@),
        }
    }
}

impl UnromMapper {
    /// The mapper that `new` makes of two memories.
    pub open spec fn fresh(cpu: Seq<u8>, ppu: PpuMemoryView) -> UnromView {
        UnromView { cpu, ppu, prg_banks: Seq::empty() }
    }

    /// The bank that a write of `value` to the ROM range selects, among
    /// `count` banks.
    pub open spec fn selected_bank(value: u8, count: int) -> int {
        ((value & 0x0F) as int) % count
    }

    /// Takes over the PRG banks of a ROM.
    pub fn init_prg_banks(&mut self, ines: &InesRom)
        ensures
            final(self).prg_rom_banks@ == ines.prg_rom@,
            final(self).cpu_mem == old(self).cpu_mem,
            final(self).ppu_mem == old(self).ppu_mem,
    {
        self.prg_rom_banks = Vec::new();
        let n: usize = ines.prg_rom.len();
        let mut i: usize = 0;
        while i < n
            invariant
                n == ines.prg_rom@.len(),
                i <= n,
                self.prg_rom_banks@ == ines.prg_rom@.take(i as int),
                self.cpu_mem == old(self).cpu_mem,
                self.ppu_mem == old(self).ppu_mem,
            decreases n - i,
        {
            self.prg_rom_banks.push(ines.prg_rom[i]);
            i = i + 1;
            assert(self.prg_rom_banks@ =~= ines.prg_rom@.take(i as int));
        }
        assert(ines.prg_rom@.take(n as int) =~= ines.prg_rom@);
    }
}

/// Makes the mapper around the two memories, with no bank yet.
pub fn new(cpu_mem: Memory, ppu_mem: PpuMemory) -> (r: UnromMapper)
    requires
        cpu_mem@.len() == CPU_MEMORY_SIZE,
        ppu_mem.inv(),
    ensures
        r@ == UnromMapper::fresh(cpu_mem@, ppu_mem@),
        UnromMapper::wf(r@),
{
    let r = UnromMapper { cpu_mem, ppu_mem, prg_rom_banks: Vec::new() };
    assert(r@.prg_banks =~= Seq::<Seq<u8>>::empty());
    r
}

impl Mapper for UnromMapper {
    open spec fn wf(m: UnromView) -> bool {
        &&& m.cpu.len() == CPU_MEMORY_SIZE
        &&& m.ppu.wf()
        &&& banks_sized(m.prg_banks, 16384)
    }

    open spec fn cpu_read_spec(m: UnromView, addr: u16) -> u8 {
        m.cpu[addr as int]
    }

    /// A write below 0x8000 lands in memory. A write above puts the bank
    /// that the low nybble of the value names at 0x8000; the bank list
    /// repeats beyond its end, and without banks nothing happens.
    open spec fn cpu_write_spec(m: UnromView, addr: u16, value: u8) -> UnromView {
        if addr < 0x8000 {
            UnromView { cpu: m.cpu.update(addr as int, value), ..m }
        } else if m.prg_banks.len() > 0 {
            let bank = Self::selected_bank(value, m.prg_banks.len() as int);
            UnromView { cpu: loaded(m.cpu, 0x8000, m.prg_banks[bank]), ..m }
        } else {
            m
        }
    }

    open spec fn dma_page_spec(m: UnromView, addr: u16) -> Seq<u8> {
        m.cpu.subrange(addr as int, addr as int + 256)
    }

    open spec fn ppu_read_spec(m: UnromView, addr: u16) -> u8 {
        m.ppu.read(addr)
    }

    open spec fn ppu_write_spec(m: UnromView, addr: u16, value: u8) -> UnromView {
        UnromView { ppu: m.ppu.write(addr, value), ..m }
    }

    open spec fn accepts(m: UnromView, rom: InesRom) -> bool {
        rom.prg_rom@.len() >= 1
    }

    /// The banks of the ROM, the first of them at 0x8000 and the last at
    /// 0xC000, and the header's mirroring.
    open spec fn loaded_spec(m: UnromView, rom: InesRom) -> UnromView {
        let banks = prg_bank_seqs(rom.prg_rom@);
        let last = banks.len() - 1;
        UnromView {
            cpu: loaded(loaded(m.cpu, 0x8000, banks[0]), 0xC000, banks[last]),
            ppu: PpuMemoryView {
                mirroring: mirroring_of_header(rom.header.flags6.mirroring),
                ..m.ppu
            },
            prg_banks: banks,
        }
    }

    open spec fn saved_ram(m: UnromView) -> Option<Seq<u8>> {
        None
    }

    open spec fn name_spec(m: UnromView) -> &'static str {
        "UNROM"
    }

    open spec fn number_spec(m: UnromView) -> u16 {
        2
    }

    proof fn lemma_ram(m: UnromView, addr: u16, value: u8, other: u16) {
    }

    fn name(&self) -> (r: &'static str) {
        "UNROM"
    }

    fn number(&self) -> (r: u16) {
        2
    }

    fn load_rom(&mut self, ines: &InesRom) -> (r: Result<(), RomError>) {
        let n: usize = ines.prg_rom.len();
        if n < 1 {
            return Err(RomError::BadBankCount);
        }
        self.init_prg_banks(ines);
        self.cpu_mem.load(0x8000, self.prg_rom_banks[0].as_slice());
        self.cpu_mem.load(0xC000, self.prg_rom_banks[n - 1].as_slice());
        self.ppu_mem.set_mirroring(header_mirroring(ines.header.flags6.mirroring));
        Ok(())
    }

    fn cpu_read(&self, addr: u16) -> (r: u8) {
        self.cpu_mem.read(addr)
    }

    fn cpu_write(&mut self, addr: u16, value: u8) {
        if addr < 0x8000 {
            self.cpu_mem.write(addr, value);
        } else {
            let count: usize = self.prg_rom_banks.len();
            if count > 0 {
                let bank: usize = ((value & 0x0F) as usize) % count;
                self.cpu_mem.load(0x8000, self.prg_rom_banks[bank].as_slice());
            }
        }
    }

    fn get_cpu_dma_slice(&self, addr: u16) -> (r: &[u8]) {
        self.cpu_mem.get_slice(addr, 256)
    }

    fn ppu_read(&self, addr: u16) -> (r: u8) {
        self.ppu_mem.read(addr)
    }

    fn ppu_write(&mut self, addr: u16, value: u8) {
        self.ppu_mem.write(addr, value);
    }

    fn shutdown(&mut self) -> (r: Option<Vec<u8>>) {
        None
    }
}

} // verus!
