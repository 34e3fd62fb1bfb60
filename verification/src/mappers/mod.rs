//! Cartridge hardware: the interface that the bus and the picture unit talk
//! to, the mappers that implement it, and the choice among them.

pub mod m000_nrom;
pub mod m001_mmc1;
pub mod m002_unrom;

use vstd::prelude::*;
use crate::ines::{InesRom, RomError};
use crate::mem::{fold_ppu_address, ppu_effective_address, Memory, PpuMemory, CPU_MEMORY_SIZE};
use crate::mappers::m000_nrom::{NromMapper, NromView};
use crate::mappers::m001_mmc1::{Mmc1Mapper, Mmc1View};
use crate::mappers::m002_unrom::{UnromMapper, UnromView};

verus! {

/// The banks of a bank list, each as the sequence of its bytes.
pub open spec fn prg_bank_seqs(banks: Seq<[u8; 16384]>) -> Seq<Seq<u8>> {
    Seq::new(banks.len(), |i: int| banks[i]@)
}

/// Whether each of `banks` has `size` bytes.
pub open spec fn banks_sized(banks: Seq<Seq<u8>>, size: int) -> bool {
    forall|i: int| 0 <= i < banks.len() ==> (#[trigger] banks[i]).len() == size
}

/// A cartridge as the rest of the machine sees it. The view of a mapper is
/// all that it holds; what each operation returns, and what it leaves
/// behind, is a function of that view.
pub trait Mapper: View {
    /// What holds of every mapper from its construction on.
    spec fn wf(m: Self::V) -> bool;

    /// The byte that the processor reads at `addr`.
    spec fn cpu_read_spec(m: Self::V, addr: u16) -> u8;

    /// The cartridge after the processor wrote `value` to `addr`.
    spec fn cpu_write_spec(m: Self::V, addr: u16, value: u8) -> Self::V;

    /// The 256 bytes that a sprite DMA from `addr` on copies.
    spec fn dma_page_spec(m: Self::V, addr: u16) -> Seq<u8>;

    /// The byte that the picture unit reads at `addr`.
    spec fn ppu_read_spec(m: Self::V, addr: u16) -> u8;

    /// The cartridge after the picture unit wrote `value` to `addr`.
    spec fn ppu_write_spec(m: Self::V, addr: u16, value: u8) -> Self::V;

    /// Whether the mapper can take a ROM with these bank lists.
    spec fn accepts(m: Self::V, rom: InesRom) -> bool;

    /// The cartridge after it took the banks of `rom`.
    spec fn loaded_spec(m: Self::V, rom: InesRom) -> Self::V;

    /// The battery-backed RAM to keep when the machine stops, if the
    /// cartridge has any.
    spec fn saved_ram(m: Self::V) -> Option<Seq<u8>>;

    /// The name of the mapper.
    spec fn name_spec(m: Self::V) -> &'static str;

    /// The number of the mapper in cartridge headers.
    spec fn number_spec(m: Self::V) -> u16;

    /// The first 8 KiB of the processor's address space are memory: a
    /// byte written there is read back, and the bytes around it stay.
    proof fn lemma_ram(m: Self::V, addr: u16, value: u8, other: u16)
        requires
            Self::wf(m),
            addr < 0x2000,
            other < 0x2000,
        ensures
            Self::cpu_read_spec(Self::cpu_write_spec(m, addr, value), other) == if other == addr {
                value
            } else {
                Self::cpu_read_spec(m, other)
            },
            Self::wf(Self::cpu_write_spec(m, addr, value)),
    ;

    /// The name of this mapper.
    fn name(&self) -> (r: &'static str)
        ensures
            r == Self::name_spec(self@),
    ;

    /// The number of this mapper in cartridge headers.
    fn number(&self) -> (r: u16)
        ensures
            r == Self::number_spec(self@),
    ;

    /// Takes the banks of a ROM. A ROM whose bank counts the mapper cannot
    /// take is refused, and the mapper stays as it was.
    fn load_rom(&mut self, ines: &InesRom) -> (r: Result<(), RomError>)
        requires
            Self::wf(old(self)@),
            ines.inv(),
        ensures
            Self::wf(final(self)@),
            r is Ok <==> Self::accepts(old(self)@, *ines),
            r is Ok ==> final(self)@ == Self::loaded_spec(old(self)@, *ines),
            r is Err ==> final(self)@ == old(self)@ && r == Err::<(), RomError>(
                RomError::BadBankCount,
            ),
    ;

    /// Reads from the processor's address space.
    fn cpu_read(&self, addr: u16) -> (r: u8)
        requires
            Self::wf(self@),
        ensures
            r == Self::cpu_read_spec(self@, addr),
    ;

    /// Writes to the processor's address space.
    fn cpu_write(&mut self, addr: u16, value: u8)
        requires
            Self::wf(old(self)@),
        ensures
            Self::wf(final(self)@),
            final(self)@ == Self::cpu_write_spec(old(self)@, addr, value),
    ;

    /// The page of processor memory that starts at `addr`, for sprite DMA.
    fn get_cpu_dma_slice(&self, addr: u16) -> (r: &[u8])
        requires
            Self::wf(self@),
            addr % 256 == 0,
        ensures
            r@ == Self::dma_page_spec(self@, addr),
            r@.len() == 256,
    ;

    /// Reads from the picture unit's address space.
    fn ppu_read(&self, addr: u16) -> (r: u8)
        requires
            Self::wf(self@),
        ensures
            r == Self::ppu_read_spec(self@, addr),
    ;

    /// Writes to the picture unit's address space.
    fn ppu_write(&mut self, addr: u16, value: u8)
        requires
            Self::wf(old(self)@),
        ensures
            Self::wf(final(self)@),
            final(self)@ == Self::ppu_write_spec(old(self)@, addr, value),
    ;

    /// Ends the run: hands out a copy of the battery-backed RAM, if there
    /// is any, for the host to store.
    fn shutdown(&mut self) -> (r: Option<Vec<u8>>)
        requires
            Self::wf(old(self)@),
        ensures
            final(self)@ == old(self)@,
            match r {
                Some(bytes) => Self::saved_ram(old(self)@) == Some(bytes@),
                None => Self::saved_ram(old(self)@) is None,
            },
    ;
}

/// Whether the library has a mapper of this number.
pub open spec fn mapper_supported(number: u16) -> bool {
    number == 0 || number == 1 || number == 2 || number == 71
}

/// One of the mappers of the library.
pub enum AnyMapper {
    Nrom(NromMapper),
    Mmc1(Mmc1Mapper),
    Unrom(UnromMapper),
}

/// What an `AnyMapper` holds.
pub enum AnyMapperView {
    Nrom(NromView),
    Mmc1(Mmc1View),
    Unrom(UnromView),
}

impl View for AnyMapper {
    type V = AnyMapperView;

    open spec fn view(&self) -> AnyMapperView {
        match self {
            AnyMapper::Nrom(m) => AnyMapperView::Nrom(m@),
            AnyMapper::Mmc1(m) => AnyMapperView::Mmc1(m@),
            AnyMapper::Unrom(m) => AnyMapperView::Unrom(m@),
        }
    }
}

impl Mapper for AnyMapper {
    open spec fn wf(m: AnyMapperView) -> bool {
        match m {
            AnyMapperView::Nrom(v) => NromMapper::wf(v),
            AnyMapperView::Mmc1(v) => Mmc1Mapper::wf(v),
            AnyMapperView::Unrom(v) => UnromMapper::wf(v),
        }
    }

    open spec fn cpu_read_spec(m: AnyMapperView, addr: u16) -> u8 {
        match m {
            AnyMapperView::Nrom(v) => NromMapper::cpu_read_spec(v, addr),
            AnyMapperView::Mmc1(v) => Mmc1Mapper::cpu_read_spec(v, addr),
            AnyMapperView::Unrom(v) => UnromMapper::cpu_read_spec(v, addr),
        }
    }

    open spec fn cpu_write_spec(m: AnyMapperView, addr: u16, value: u8) -> AnyMapperView {
        match m {
            AnyMapperView::Nrom(v) => AnyMapperView::Nrom(NromMapper::cpu_write_spec(v, addr, value)),
            AnyMapperView::Mmc1(v) => AnyMapperView::Mmc1(Mmc1Mapper::cpu_write_spec(v, addr, value)),
            AnyMapperView::Unrom(v) => AnyMapperView::Unrom(
                UnromMapper::cpu_write_spec(v, addr, value),
            ),
        }
    }

    open spec fn dma_page_spec(m: AnyMapperView, addr: u16) -> Seq<u8> {
        match m {
            AnyMapperView::Nrom(v) => NromMapper::dma_page_spec(v, addr),
            AnyMapperView::Mmc1(v) => Mmc1Mapper::dma_page_spec(v, addr),
            AnyMapperView::Unrom(v) => UnromMapper::dma_page_spec(v, addr),
        }
    }

    open spec fn ppu_read_spec(m: AnyMapperView, addr: u16) -> u8 {
        match m {
            AnyMapperView::Nrom(v) => NromMapper::ppu_read_spec(v, addr),
            AnyMapperView::Mmc1(v) => Mmc1Mapper::ppu_read_spec(v, addr),
            AnyMapperView::Unrom(v) => UnromMapper::ppu_read_spec(v, addr),
        }
    }

    open spec fn ppu_write_spec(m: AnyMapperView, addr: u16, value: u8) -> AnyMapperView {
        match m {
            AnyMapperView::Nrom(v) => AnyMapperView::Nrom(NromMapper::ppu_write_spec(v, addr, value)),
            AnyMapperView::Mmc1(v) => AnyMapperView::Mmc1(Mmc1Mapper::ppu_write_spec(v, addr, value)),
            AnyMapperView::Unrom(v) => AnyMapperView::Unrom(
                UnromMapper::ppu_write_spec(v, addr, value),
            ),
        }
    }

    open spec fn accepts(m: AnyMapperView, rom: InesRom) -> bool {
        match m {
            AnyMapperView::Nrom(v) => NromMapper::accepts(v, rom),
            AnyMapperView::Mmc1(v) => Mmc1Mapper::accepts(v, rom),
            AnyMapperView::Unrom(v) => UnromMapper::accepts(v, rom),
        }
    }

    open spec fn loaded_spec(m: AnyMapperView, rom: InesRom) -> AnyMapperView {
        match m {
            AnyMapperView::Nrom(v) => AnyMapperView::Nrom(NromMapper::loaded_spec(v, rom)),
            AnyMapperView::Mmc1(v) => AnyMapperView::Mmc1(Mmc1Mapper::loaded_spec(v, rom)),
            AnyMapperView::Unrom(v) => AnyMapperView::Unrom(UnromMapper::loaded_spec(v, rom)),
        }
    }

    open spec fn saved_ram(m: AnyMapperView) -> Option<Seq<u8>> {
        match m {
            AnyMapperView::Nrom(v) => NromMapper::saved_ram(v),
            AnyMapperView::Mmc1(v) => Mmc1Mapper::saved_ram(v),
            AnyMapperView::Unrom(v) => UnromMapper::saved_ram(v),
        }
    }

    open spec fn name_spec(m: AnyMapperView) -> &'static str {
        match m {
            AnyMapperView::Nrom(v) => NromMapper::name_spec(v),
            AnyMapperView::Mmc1(v) => Mmc1Mapper::name_spec(v),
            AnyMapperView::Unrom(v) => UnromMapper::name_spec(v),
        }
    }

    open spec fn number_spec(m: AnyMapperView) -> u16 {
        match m {
            AnyMapperView::Nrom(v) => NromMapper::number_spec(v),
            AnyMapperView::Mmc1(v) => Mmc1Mapper::number_spec(v),
            AnyMapperView::Unrom(v) => UnromMapper::number_spec(v),
        }
    }

    proof fn lemma_ram(m: AnyMapperView, addr: u16, value: u8, other: u16) {
        match m {
            AnyMapperView::Nrom(v) => NromMapper::lemma_ram(v, addr, value, other),
            AnyMapperView::Mmc1(v) => Mmc1Mapper::lemma_ram(v, addr, value, other),
            AnyMapperView::Unrom(v) => UnromMapper::lemma_ram(v, addr, value, other),
        }
    }

    fn name(&self) -> (r: &'static str) {
        match self {
            AnyMapper::Nrom(m) => m.name(),
            AnyMapper::Mmc1(m) => m.name(),
            AnyMapper::Unrom(m) => m.name(),
        }
    }

    fn number(&self) -> (r: u16) {
        match self {
            AnyMapper::Nrom(m) => m.number(),
            AnyMapper::Mmc1(m) => m.number(),
            AnyMapper::Unrom(m) => m.number(),
        }
    }

    fn load_rom(&mut self, ines: &InesRom) -> (r: Result<(), RomError>) {
        match self {
            AnyMapper::Nrom(m) => m.load_rom(ines),
            AnyMapper::Mmc1(m) => m.load_rom(ines),
            AnyMapper::Unrom(m) => m.load_rom(ines),
        }
    }

    fn cpu_read(&self, addr: u16) -> (r: u8) {
        match self {
            AnyMapper::Nrom(m) => m.cpu_read(addr),
            AnyMapper::Mmc1(m) => m.cpu_read(addr),
            AnyMapper::Unrom(m) => m.cpu_read(addr),
        }
    }

    fn cpu_write(&mut self, addr: u16, value: u8) {
        match self {
            AnyMapper::Nrom(m) => m.cpu_write(addr, value),
            AnyMapper::Mmc1(m) => m.cpu_write(addr, value),
            AnyMapper::Unrom(m) => m.cpu_write(addr, value),
        }
    }

    fn get_cpu_dma_slice(&self, addr: u16) -> (r: &[u8]) {
        match self {
            AnyMapper::Nrom(m) => m.get_cpu_dma_slice(addr),
            AnyMapper::Mmc1(m) => m.get_cpu_dma_slice(addr),
            AnyMapper::Unrom(m) => m.get_cpu_dma_slice(addr),
        }
    }

    fn ppu_read(&self, addr: u16) -> (r: u8) {
        match self {
            AnyMapper::Nrom(m) => m.ppu_read(addr),
            AnyMapper::Mmc1(m) => m.ppu_read(addr),
            AnyMapper::Unrom(m) => m.ppu_read(addr),
        }
    }

    fn ppu_write(&mut self, addr: u16, value: u8) {
        match self {
            AnyMapper::Nrom(m) => m.ppu_write(addr, value),
            AnyMapper::Mmc1(m) => m.ppu_write(addr, value),
            AnyMapper::Unrom(m) => m.ppu_write(addr, value),
        }
    }

    fn shutdown(&mut self) -> (r: Option<Vec<u8>>) {
        match self {
            AnyMapper::Nrom(m) => m.shutdown(),
            AnyMapper::Mmc1(m) => m.shutdown(),
            AnyMapper::Unrom(m) => m.shutdown(),
        }
    }
}

/// Makes the mapper of the given number around the two memories. Mapper 71
/// is served by the mapper of number 2.
pub fn get_mapper(number: u16, cpu_mem: Memory, ppu_mem: PpuMemory) -> (r: Result<
    AnyMapper,
    RomError,
>)
    requires
        cpu_mem@.len() == CPU_MEMORY_SIZE,
        ppu_mem.inv(),
    ensures
        r is Ok <==> mapper_supported(number),
        r is Err ==> r == Err::<AnyMapper, RomError>(RomError::UnsupportedMapper),
        match r {
            Ok(AnyMapper::Nrom(m)) => number == 0 && m@ == NromMapper::fresh(cpu_mem@, ppu_mem@),
            Ok(AnyMapper::Mmc1(m)) => number == 1 && m@ == Mmc1Mapper::fresh(cpu_mem@, ppu_mem@),
            Ok(AnyMapper::Unrom(m)) => (number == 2 || number == 71) && m@ == UnromMapper::fresh(
                cpu_mem@,
                ppu_mem@,
            ),
            Err(_) => true,
        },
        r is Ok ==> AnyMapper::wf(r->Ok_0@),
{
    if number == 0 {
        Ok(AnyMapper::Nrom(crate::mappers::m000_nrom::new(cpu_mem, ppu_mem)))
    } else if number == 1 {
        Ok(AnyMapper::Mmc1(crate::mappers::m001_mmc1::new(cpu_mem, ppu_mem)))
    } else if number == 2 || number == 71 {
        Ok(AnyMapper::Unrom(crate::mappers::m002_unrom::new(cpu_mem, ppu_mem)))
    } else {
        Err(RomError::UnsupportedMapper)
    }
}

/// Wraps an address of the picture unit's bus at 0x4000 and folds the
/// mirrors of the nametables and of the palette onto what they mirror.
pub fn get_ppu_effective_address(addr: u16) -> (r: u16)
    ensures
        r == ppu_effective_address(addr),
        r < 0x3F20,
{
    fold_ppu_address(addr)
}

/// A copy of `data`.
pub fn copy_bytes(data: &[u8]) -> (r: Vec<u8>)
    ensures
        r@ == data@,
{
    let mut out: Vec<u8> = Vec::new();
    let n: usize = data.len();
    let mut i: usize = 0;
    while i < n
        invariant
            n == data@.len(),
            i <= n,
            out@ == data@.take(i as int),
        decreases n - i,
    {
        out.push(data[i]);
        i = i + 1;
        assert(out@ =~= data@.take(i as int));
    }
    assert(data@.take(n as int) =~= data@);
    out
}

} // verus!
