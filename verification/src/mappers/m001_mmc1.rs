//! Mapper 1: bank registers that are loaded one bit per write through a
//! five-bit shift register, and optional battery-backed RAM.

use vstd::prelude::*;
use crate::ines::{InesRom, RomError};
use crate::mappers::{banks_sized, copy_bytes, prg_bank_seqs, Mapper};
use crate::mem::{loaded, zeros, Memory, PpuMemory, PpuMemoryView, CPU_MEMORY_SIZE};
use crate::ppu::constants::Mirroring;
use crate::utils::{bit_is_set, bit_set};
use crate::wram::{WRam, DEFAULT_WRAM_SIZE};

verus! {

pub const FOUR_KB: usize = 4096;

/// What a write into the shift register led to.
#[derive(Debug, Clone, Copy, PartialEq, Eq, Structural)]
pub enum RegisterStatus {
    /// Bit 7 of the value was set: the register was cleared.
    Cleared,
    /// The fifth bit came in: the register holds a full value.
    Ready,
    /// Fewer than five bits are in.
    Partial,
}

#[derive(Debug, Clone, Copy, PartialEq, Eq, Structural)]
pub enum PrgRomBankMode {
    /// Switch 32 KiB at 0x8000.
    Bank8000_32KB,
    /// 16 KiB at 0x8000 fixed, the bank at 0xC000 switchable.
    Bank8000Fixed,
    /// 16 KiB at 0xC000 fixed, the bank at 0x8000 switchable.
    BankC000Fixed,
}

#[derive(Debug, Clone, Copy, PartialEq, Eq, Structural)]
pub enum ChrRomBankMode {
    /// Switch a single 8 KiB bank.
    Switch8KB,
    /// Switch two separate 4 KiB banks.
    Switch4KB,
}

/// The mirroring that a value of the control register selects.
pub open spec fn mirroring_of_control(control: u8) -> Mirroring {
    let mode = control & 0x03;
    if mode == 0 {
        Mirroring::OneScreen0
    } else if mode == 1 {
        Mirroring::OneScreen1
    } else if mode == 2 {
        Mirroring::Vertical
    } else {
        Mirroring::Horizontal
    }
}

/// The PRG mode that a value of the control register selects.
pub open spec fn prg_mode_of(control: u8) -> PrgRomBankMode {
    let mode = (control >> 2) & 0x03;
    if mode == 2 {
        PrgRomBankMode::Bank8000Fixed
    } else if mode == 3 {
        PrgRomBankMode::BankC000Fixed
    } else {
        PrgRomBankMode::Bank8000_32KB
    }
}

/// The CHR mode that a value of the control register selects.
pub open spec fn chr_mode_of(control: u8) -> ChrRomBankMode {
    if (control >> 4) & 0x01 == 1 {
        ChrRomBankMode::Switch4KB
    } else {
        ChrRomBankMode::Switch8KB
    }
}

/// The shift register after bit 0 of `value` came in at the top.
pub open spec fn shifted_in(shift: u8, value: u8) -> u8 {
    (shift >> 1) | ((value & 0x1) << 4)
}

/// The banks of a CHR bank list, each as the sequence of its bytes.
pub open spec fn chr_bank_seqs(banks: Seq<[u8; 4096]>) -> Seq<Seq<u8>> {
    Seq::new(banks.len(), |i: int| banks[i]@)
}

/// The 4 KiB halves of the 8 KiB banks of a ROM, in order.
pub open spec fn chr_halves(chr_rom: Seq<[u8; 8192]>) -> Seq<Seq<u8>> {
    Seq::new(
        2 * chr_rom.len(),
        |k: int| chr_rom[k / 2]@.subrange((k % 2) * 4096, (k % 2) * 4096 + 4096),
    )
}

/// The CHR banks of a cartridge: the halves of its CHR ROM, or 8 KiB of
/// zeroed RAM where it has none.
pub open spec fn chr_banks_for(chr_rom: Seq<[u8; 8192]>) -> Seq<Seq<u8>> {
    if chr_rom.len() > 0 {
        chr_halves(chr_rom)
    } else {
        seq![zeros(4096), zeros(4096)]
    }
}

pub struct Mmc1Mapper {
    pub cpu_mem: Memory,
    pub ppu_mem: PpuMemory,
    pub prg_rom_banks: Vec<[u8; 16384]>,
    /// CHR is kept in banks of 4 KiB; the 8 KiB mode takes two neighbours.
    pub chr_rom_banks: Vec<[u8; 4096]>,
    /// The five-bit shift register that gathers the value for one of the
    /// four registers.
    pub shift_register: u8,
    /// How many bits are in the shift register.
    pub reg_write_count: u8,
    pub control: u8,
    pub chr0: u8,
    pub chr1: u8,
    pub prg: u8,
    pub wram: Option<WRam>,
}

/// What an `Mmc1Mapper` holds.
pub struct Mmc1View {
    pub cpu: Seq<u8>,
    pub ppu: PpuMemoryView,
    pub prg_banks: Seq<Seq<u8>>,
    pub chr_banks: Seq<Seq<u8>>,
    pub shift_register: u8,
    pub reg_write_count: u8,
    pub control: u8,
    pub chr0: u8,
    pub chr1: u8,
    pub prg: u8,
    pub wram: Option<Seq<u8>>,
}

impl View for Mmc1Mapper {
    type V = Mmc1View;

    open spec fn view(&self) -> Mmc1View {
        Mmc1View {
            cpu: self.cpu_mem@,
            ppu: self.ppu_mem@,
            prg_banks: prg_bank_seqs(self.prg_rom_banks@),
            chr_banks: chr_bank_seqs(self.chr_rom_banks@),
            shift_register: self.shift_register,
            reg_write_count: self.reg_write_count,
            control: self.control,
            chr0: self.chr0,
            chr1: self.chr1,
            prg: self.prg,
            wram: match self.wram {
                Some(w) => Some(w@),
                None => None,
            },
        }
    }
}

impl Mmc1View {
    /// The cartridge after the shift register's value went to the control
    /// register.
    pub open spec fn after_control(self) -> Mmc1View {
        Mmc1View {
            control: self.shift_register,
            ppu: PpuMemoryView { mirroring: mirroring_of_control(self.shift_register), ..self.ppu },
            ..self
        }
    }

    /// The cartridge after the shift register's value went to the first
    /// CHR register: in 8 KiB mode the even bank that the value names and
    /// its neighbour fill the pattern tables, in 4 KiB mode the named bank
    /// fills the lower one. The bank list repeats beyond its end.
    pub open spec fn after_chr0(self) -> Mmc1View {
        let n = self.chr_banks.len() as int;
        let mem = if n == 0 {
            self.ppu.mem
        } else if chr_mode_of(self.control) == ChrRomBankMode::Switch8KB {
            let bank = 2 * ((((self.shift_register & 0x1E) >> 1) as int) % (n / 2));
            loaded(loaded(self.ppu.mem, 0, self.chr_banks[bank]), 0x1000, self.chr_banks[bank + 1])
        } else {
            loaded(self.ppu.mem, 0, self.chr_banks[(self.shift_register as int) % n])
        };
        Mmc1View { chr0: self.shift_register, ppu: PpuMemoryView { mem, ..self.ppu }, ..self }
    }

    /// The cartridge after the shift register's value went to the second
    /// CHR register: in 4 KiB mode the named bank fills the upper pattern
    /// table.
    pub open spec fn after_chr1(self) -> Mmc1View {
        let n = self.chr_banks.len() as int;
        let mem = if n > 0 && chr_mode_of(self.control) == ChrRomBankMode::Switch4KB {
            loaded(self.ppu.mem, 0x1000, self.chr_banks[(self.shift_register as int) % n])
        } else {
            self.ppu.mem
        };
        Mmc1View { chr1: self.shift_register, ppu: PpuMemoryView { mem, ..self.ppu }, ..self }
    }

    /// The cartridge after the shift register's value went to the PRG
    /// register. The bank list repeats beyond its end.
    pub open spec fn after_prg(self) -> Mmc1View {
        let n = self.prg_banks.len() as int;
        let value = self.shift_register;
        let cpu = if n == 0 {
            self.cpu
        } else {
            match prg_mode_of(self.control) {
                PrgRomBankMode::Bank8000_32KB => {
                    let low = ((value & 0x1E) as int) % n;
                    let high = (low + 1) % n;
                    loaded(loaded(self.cpu, 0x8000, self.prg_banks[low]), 0xC000, self.prg_banks[high])
                },
                PrgRomBankMode::Bank8000Fixed => loaded(
                    self.cpu,
                    0xC000,
                    self.prg_banks[(value as int) % n],
                ),
                PrgRomBankMode::BankC000Fixed => loaded(
                    self.cpu,
                    0x8000,
                    self.prg_banks[(value as int) % n],
                ),
            }
        };
        Mmc1View { prg: value, cpu, ..self }
    }

    /// The cartridge after a write with bit 7 set: the shift register is
    /// empty, the control register has bits 2 and 3 set, and the last bank
    /// is at 0xC000.
    pub open spec fn after_reset(self) -> Mmc1View {
        let n = self.prg_banks.len() as int;
        let control = self.control | 0x0C;
        Mmc1View {
            shift_register: 0,
            reg_write_count: 0,
            control,
            ppu: PpuMemoryView { mirroring: mirroring_of_control(control), ..self.ppu },
            cpu: if n > 0 {
                loaded(self.cpu, 0xC000, self.prg_banks[n - 1])
            } else {
                self.cpu
            },
            ..self
        }
    }

    /// The cartridge after a full shift register went to the register
    /// that bits 13 and 14 of `addr` select, and was emptied.
    pub open spec fn after_register(self, addr: u16) -> Mmc1View {
        let target = if addr < 0xA000 {
            self.after_control()
        } else if addr < 0xC000 {
            self.after_chr0()
        } else if addr < 0xE000 {
            self.after_chr1()
        } else {
            self.after_prg()
        };
        Mmc1View { shift_register: 0, reg_write_count: 0, ..target }
    }

    /// The cartridge after a write of `value` to the register range.
    pub open spec fn after_serial_write(self, addr: u16, value: u8) -> Mmc1View {
        if bit_set(7, value) {
            self.after_reset()
        } else {
            let shifted = Mmc1View {
                shift_register: shifted_in(self.shift_register, value),
                ..self
            };
            if self.reg_write_count == 4 {
                shifted.after_register(addr)
            } else {
                Mmc1View { reg_write_count: (self.reg_write_count + 1) as u8, ..shifted }
            }
        }
    }
}

/// The five bits of a value arrive in the shift register lowest first,
/// whatever the register held, and none of the five writes is a reset.
pub proof fn lemma_five_bits(shift: u8, v: u8)
    by (bit_vector)
    requires
        shift < 32,
    ensures
        shifted_in(shift, v) < 32,
        shifted_in(
            shifted_in(
                shifted_in(shifted_in(shifted_in(shift, v & 1), (v >> 1) & 1), (v >> 2) & 1),
                (v >> 3) & 1,
            ),
            (v >> 4) & 1,
        ) == v & 0x1F,
        (v & 1) & (1u8 << 7) == 0,
        ((v >> 1) & 1) & (1u8 << 7) == 0,
        ((v >> 2) & 1) & (1u8 << 7) == 0,
        ((v >> 3) & 1) & (1u8 << 7) == 0,
        ((v >> 4) & 1) & (1u8 << 7) == 0,
{
}

/// Five writes to the register range, each with one bit of `v` in its bit
/// 0, lowest bit first, put the low five bits of `v` into the register
/// that bits 13 and 14 of the address of the fifth write select, and leave
/// the shift register empty.
pub proof fn lemma_serial_load(m: Mmc1View, addr: u16, v: u8)
    requires
        m.reg_write_count == 0,
        m.shift_register < 32,
        addr >= 0x8000,
    ensures
        m.after_serial_write(addr, v & 1).after_serial_write(addr, (v >> 1) & 1).after_serial_write(
            addr,
            (v >> 2) & 1,
        ).after_serial_write(addr, (v >> 3) & 1).after_serial_write(addr, (v >> 4) & 1) == (Mmc1View {
            shift_register: v & 0x1F,
            ..m
        }).after_register(addr),
{
    lemma_five_bits(m.shift_register, v);
}

/// A bank of 4 KiB of zeros.
pub fn zero_bank() -> (r: [u8; 4096])
    ensures
        r@ == zeros(4096),
{
    let mut bank: [u8; 4096] = [0u8; 4096];
    let mut j: usize = 0;
    while j < 4096
        invariant
            j <= 4096,
            forall|k: int| 0 <= k < j ==> bank[k] == 0u8,
        decreases 4096 - j,
    {
        bank[j] = 0;
        j = j + 1;
    }
    assert(bank@ =~= zeros(4096));
    bank
}

/// Copies one half of an 8 KiB bank.
pub fn half_bank(bank: &[u8; 8192], upper: bool) -> (r: [u8; 4096])
    ensures
        r@ == bank@.subrange(
            if upper { 4096int } else { 0int },
            if upper { 8192int } else { 4096int },
        ),
{
    let base: usize = if upper { 4096 } else { 0 };
    let mut half: [u8; 4096] = [0u8; 4096];
    let mut j: usize = 0;
    while j < 4096
        invariant
            j <= 4096,
            base == 0 || base == 4096,
            forall|k: int| 0 <= k < j ==> half[k] == bank[base + k],
        decreases 4096 - j,
    {
        half[j] = bank[base + j];
        j = j + 1;
    }
    assert(half@ =~= bank@.subrange(base as int, base as int + 4096));
    half
}

impl Mmc1Mapper {
    /// The mapper that `new` makes of two memories.
    pub open spec fn fresh(cpu: Seq<u8>, ppu: PpuMemoryView) -> Mmc1View {
        Mmc1View {
            cpu,
            ppu,
            prg_banks: Seq::empty(),
            chr_banks: Seq::empty(),
            shift_register: 0,
            reg_write_count: 0,
            control: 0x0C,
            chr0: 0,
            chr1: 0,
            prg: 0,
            wram: None,
        }
    }

    /// Takes over the PRG banks of a ROM.
    pub fn init_prg_banks(&mut self, ines: &InesRom)
        ensures
            final(self).prg_rom_banks@ == ines.prg_rom@,
            *final(self) == (Mmc1Mapper { prg_rom_banks: final(self).prg_rom_banks, ..*old(self) }),
    {
        self.prg_rom_banks = Vec::new();
        let n: usize = ines.prg_rom.len();
        let mut i: usize = 0;
        while i < n
            invariant
                n == ines.prg_rom@.len(),
                i <= n,
                self.prg_rom_banks@ == ines.prg_rom@.take(i as int),
                *self == (Mmc1Mapper { prg_rom_banks: self.prg_rom_banks, ..*old(self) }),
            decreases n - i,
        {
            self.prg_rom_banks.push(ines.prg_rom[i]);
            i = i + 1;
            assert(self.prg_rom_banks@ =~= ines.prg_rom@.take(i as int));
        }
        assert(ines.prg_rom@.take(n as int) =~= ines.prg_rom@);
    }

    /// Takes over the CHR banks of a ROM, each cut in two; a ROM without
    /// CHR gets two zeroed banks of RAM.
    #[verifier::rlimit(40)]
    pub fn init_chr_banks(&mut self, ines: &InesRom)
        ensures
            chr_bank_seqs(final(self).chr_rom_banks@) == chr_banks_for(ines.chr_rom@),
            *final(self) == (Mmc1Mapper { chr_rom_banks: final(self).chr_rom_banks, ..*old(self) }),
    {
        self.chr_rom_banks = Vec::new();
        let n: usize = ines.chr_rom.len();
        if n > 0 {
            let mut i: usize = 0;
            while i < n
                invariant
                    n == ines.chr_rom@.len(),
                    i <= n,
                    self.chr_rom_banks@.len() == 2 * i,
                    forall|k: int|
                        0 <= k < 2 * i ==> (#[trigger] self.chr_rom_banks@[k])@ == chr_halves(
                            ines.chr_rom@,
                        )[k],
                    *self == (Mmc1Mapper { chr_rom_banks: self.chr_rom_banks, ..*old(self) }),
                decreases n - i,
            {
                let lower = half_bank(&ines.chr_rom[i], false);
                let upper = half_bank(&ines.chr_rom[i], true);
                self.chr_rom_banks.push(lower);
                self.chr_rom_banks.push(upper);
                i = i + 1;
            }
            assert(chr_bank_seqs(self.chr_rom_banks@) =~= chr_halves(ines.chr_rom@));
        } else {
            let bank_4k: [u8; 4096] = zero_bank();
            self.chr_rom_banks.push(bank_4k);
            self.chr_rom_banks.push(bank_4k);
            assert(chr_bank_seqs(self.chr_rom_banks@) =~= seq![zeros(4096), zeros(4096)]);
        }
    }

    /// Shifts bit 0 of `value` into the shift register, or clears the
    /// register where bit 7 of `value` is set.
    pub fn push_shift_reg(&mut self, value: u8) -> (r: RegisterStatus)
        requires
            old(self).reg_write_count < 5,
            old(self).shift_register < 32,
        ensures
            final(self).shift_register < 32,
            bit_set(7, value) ==> r == RegisterStatus::Cleared && *final(self) == (Mmc1Mapper {
                shift_register: 0,
                reg_write_count: 0,
                ..*old(self)
            }),
            !bit_set(7, value) && old(self).reg_write_count == 4 ==> r == RegisterStatus::Ready
                && *final(self) == (Mmc1Mapper {
                shift_register: shifted_in(old(self).shift_register, value),
                reg_write_count: 0,
                ..*old(self)
            }),
            !bit_set(7, value) && old(self).reg_write_count < 4 ==> r == RegisterStatus::Partial
                && *final(self) == (Mmc1Mapper {
                shift_register: shifted_in(old(self).shift_register, value),
                reg_write_count: (old(self).reg_write_count + 1) as u8,
                ..*old(self)
            }),
    {
        proof {
            lemma_five_bits(self.shift_register, value);
        }
        if bit_is_set(7, value) {
            self.shift_register = 0;
            self.reg_write_count = 0;
            RegisterStatus::Cleared
        } else {
            self.shift_register = self.shift_register >> 1;
            let bit: u8 = (value & 0x1) << 4;
            self.shift_register = self.shift_register | bit;
            self.reg_write_count = self.reg_write_count + 1;
            if self.reg_write_count == 5 {
                self.reg_write_count = 0;
                RegisterStatus::Ready
            } else {
                RegisterStatus::Partial
            }
        }
    }

    /// Computes `mirroring_of_control`.
    pub fn control_mirroring(control: u8) -> (r: Mirroring)
        ensures
            r == mirroring_of_control(control),
    {
        let mirror_mode: u8 = control & 0x03;
        if mirror_mode == 0 {
            Mirroring::OneScreen0
        } else if mirror_mode == 1 {
            Mirroring::OneScreen1
        } else if mirror_mode == 2 {
            Mirroring::Vertical
        } else {
            Mirroring::Horizontal
        }
    }

    /// The PRG mode that the control register selects.
    pub fn prg_rom_bank_mode(&self) -> (r: PrgRomBankMode)
        ensures
            r == prg_mode_of(self.control),
    {
        let prg_mode: u8 = (self.control >> 2) & 0x03;
        if prg_mode == 2 {
            PrgRomBankMode::Bank8000Fixed
        } else if prg_mode == 3 {
            PrgRomBankMode::BankC000Fixed
        } else {
            PrgRomBankMode::Bank8000_32KB
        }
    }

    /// The CHR mode that the control register selects.
    pub fn chr_rom_bank_mode(&self) -> (r: ChrRomBankMode)
        ensures
            r == chr_mode_of(self.control),
    {
        let chr_mode: u8 = (self.control >> 4) & 0x01;
        if chr_mode == 1 {
            ChrRomBankMode::Switch4KB
        } else {
            ChrRomBankMode::Switch8KB
        }
    }

    pub fn handle_control_register(&mut self)
        requires
            Self::wf(old(self)@),
        ensures
            Self::wf(final(self)@),
            final(self)@ == old(self)@.after_control(),
    {
        self.control = self.shift_register;
        self.ppu_mem.set_mirroring(Self::control_mirroring(self.control));
    }

    pub fn handle_chr0_register(&mut self)
        requires
            Self::wf(old(self)@),
        ensures
            Self::wf(final(self)@),
            final(self)@ == old(self)@.after_chr0(),
    {
        let n: usize = self.chr_rom_banks.len();
        let mode = self.chr_rom_bank_mode();
        self.chr0 = self.shift_register;
        if n > 0 {
            match mode {
                ChrRomBankMode::Switch8KB => {
                    let pair: usize = (((self.shift_register & 0x1E) >> 1) as usize) % (n / 2);
                    let bank: usize = 2 * pair;
                    self.ppu_mem.load(0x0000, self.chr_rom_banks[bank].as_slice());
                    self.ppu_mem.load(0x1000, self.chr_rom_banks[bank + 1].as_slice());
                },
                ChrRomBankMode::Switch4KB => {
                    let bank: usize = (self.shift_register as usize) % n;
                    self.ppu_mem.load(0x0000, self.chr_rom_banks[bank].as_slice());
                },
            }
        }
    }

    pub fn handle_chr1_register(&mut self)
        requires
            Self::wf(old(self)@),
        ensures
            Self::wf(final(self)@),
            final(self)@ == old(self)@.after_chr1(),
    {
        let n: usize = self.chr_rom_banks.len();
        let mode = self.chr_rom_bank_mode();
        self.chr1 = self.shift_register;
        if n > 0 {
            match mode {
                ChrRomBankMode::Switch8KB => {},
                ChrRomBankMode::Switch4KB => {
                    let bank: usize = (self.shift_register as usize) % n;
                    self.ppu_mem.load(0x1000, self.chr_rom_banks[bank].as_slice());
                },
            }
        }
    }

    pub fn handle_prg_register(&mut self)
        requires
            Self::wf(old(self)@),
        ensures
            Self::wf(final(self)@),
            final(self)@ == old(self)@.after_prg(),
    {
        let n: usize = self.prg_rom_banks.len();
        let mode = self.prg_rom_bank_mode();
        self.prg = self.shift_register;
        if n > 0 {
            match mode {
                PrgRomBankMode::Bank8000_32KB => {
                    let low: usize = ((self.shift_register & 0x1E) as usize) % n;
                    let high: usize = (low + 1) % n;
                    self.cpu_mem.load(0x8000, self.prg_rom_banks[low].as_slice());
                    self.cpu_mem.load(0xC000, self.prg_rom_banks[high].as_slice());
                },
                PrgRomBankMode::Bank8000Fixed => {
                    let bank: usize = (self.shift_register as usize) % n;
                    self.cpu_mem.load(0xC000, self.prg_rom_banks[bank].as_slice());
                },
                PrgRomBankMode::BankC000Fixed => {
                    let bank: usize = (self.shift_register as usize) % n;
                    self.cpu_mem.load(0x8000, self.prg_rom_banks[bank].as_slice());
                },
            }
        }
    }

    /// Puts the mapper into the state that a write with bit 7 set asks for.
    pub fn reset(&mut self)
        requires
            Self::wf(old(self)@),
        ensures
            Self::wf(final(self)@),
            final(self)@ == old(self)@.after_reset(),
    {
        self.shift_register = 0;
        self.reg_write_count = 0;
        self.control = self.control | 0x0C;
        self.ppu_mem.set_mirroring(Self::control_mirroring(self.control));
        let n: usize = self.prg_rom_banks.len();
        if n > 0 {
            self.cpu_mem.load(0xC000, self.prg_rom_banks[n - 1].as_slice());
        }
    }

    /// Takes over a saved image of the battery-backed RAM. It is refused
    /// where the cartridge has no such RAM or the image is not 8 KiB long.
    pub fn restore_ram(&mut self, data: &[u8]) -> (accepted: bool)
        requires
            Self::wf(old(self)@),
        ensures
            Self::wf(final(self)@),
            accepted == (old(self)@.wram is Some && data@.len() == DEFAULT_WRAM_SIZE),
            accepted ==> final(self)@ == (Mmc1View { wram: Some(data@), ..old(self)@ }),
            !accepted ==> final(self)@ == old(self)@,
    {
        match &mut self.wram {
            Some(cart_wram) => cart_wram.restore(data),
            None => false,
        }
    }
}

/// Makes the mapper around the two memories, with no bank yet.
pub fn new(cpu_mem: Memory, ppu_mem: PpuMemory) -> (r: Mmc1Mapper)
    requires
        cpu_mem@.len() == CPU_MEMORY_SIZE,
        ppu_mem.inv(),
    ensures
        r@ == Mmc1Mapper::fresh(cpu_mem@, ppu_mem@),
        Mmc1Mapper::wf(r@),
{
    let r = Mmc1Mapper {
        cpu_mem,
        ppu_mem,
        prg_rom_banks: Vec::new(),
        chr_rom_banks: Vec::new(),
        shift_register: 0,
        reg_write_count: 0,
        control: 0x0C,
        chr0: 0,
        chr1: 0,
        prg: 0,
        wram: None,
    };
    assert(r@.prg_banks =~= Seq::<Seq<u8>>::empty());
    assert(r@.chr_banks =~= Seq::<Seq<u8>>::empty());
    r
}

impl Mapper for Mmc1Mapper {
    open spec fn wf(m: Mmc1View) -> bool {
        &&& m.cpu.len() == CPU_MEMORY_SIZE
        &&& m.ppu.wf()
        &&& banks_sized(m.prg_banks, 16384)
        &&& banks_sized(m.chr_banks, 4096)
        &&& m.chr_banks.len() % 2 == 0
        &&& m.reg_write_count < 5
        &&& m.shift_register < 32
        &&& (m.wram is Some ==> m.wram->Some_0.len() == DEFAULT_WRAM_SIZE)
    }

    /// The battery-backed RAM answers at 0x6000-0x7FFF where the cartridge
    /// has it; everything else is plain memory.
    open spec fn cpu_read_spec(m: Mmc1View, addr: u16) -> u8 {
        if 0x6000 <= addr <= 0x7FFF && m.wram is Some {
            m.wram->Some_0[addr - 0x6000]
        } else {
            m.cpu[addr as int]
        }
    }

    open spec fn cpu_write_spec(m: Mmc1View, addr: u16, value: u8) -> Mmc1View {
        if 0x6000 <= addr <= 0x7FFF && m.wram is Some {
            Mmc1View { wram: Some(m.wram->Some_0.update(addr - 0x6000, value)), ..m }
        } else if addr >= 0x8000 {
            m.after_serial_write(addr, value)
        } else {
            Mmc1View { cpu: m.cpu.update(addr as int, value), ..m }
        }
    }

    open spec fn dma_page_spec(m: Mmc1View, addr: u16) -> Seq<u8> {
        m.cpu.subrange(addr as int, addr as int + 256)
    }

    open spec fn ppu_read_spec(m: Mmc1View, addr: u16) -> u8 {
        m.ppu.read(addr)
    }

    open spec fn ppu_write_spec(m: Mmc1View, addr: u16, value: u8) -> Mmc1View {
        Mmc1View { ppu: m.ppu.write(addr, value), ..m }
    }

    open spec fn accepts(m: Mmc1View, rom: InesRom) -> bool {
        rom.prg_rom@.len() >= 1
    }

    /// The banks of the ROM, the first PRG bank at 0x8000 and the last at
    /// 0xC000, and zeroed battery-backed RAM where the header announces it.
    open spec fn loaded_spec(m: Mmc1View, rom: InesRom) -> Mmc1View {
        let banks = prg_bank_seqs(rom.prg_rom@);
        let last = banks.len() - 1;
        Mmc1View {
            cpu: loaded(loaded(m.cpu, 0x8000, banks[0]), 0xC000, banks[last]),
            prg_banks: banks,
            chr_banks: chr_banks_for(rom.chr_rom@),
            wram: if rom.header.flags6._has_battery_backed_prg_ram {
                Some(zeros(DEFAULT_WRAM_SIZE as nat))
            } else {
                m.wram
            },
            ..m
        }
    }

    open spec fn saved_ram(m: Mmc1View) -> Option<Seq<u8>> {
        m.wram
    }

    open spec fn name_spec(m: Mmc1View) -> &'static str {
        "MMC1"
    }

    open spec fn number_spec(m: Mmc1View) -> u16 {
        1
    }

    proof fn lemma_ram(m: Mmc1View, addr: u16, value: u8, other: u16) {
    }

    fn name(&self) -> (r: &'static str) {
        "MMC1"
    }

    fn number(&self) -> (r: u16) {
        1
    }

#[verifier::rlimit(40)]
    fn load_rom(&mut self, ines: &InesRom) -> (r: Result<(), RomError>) {
        let n: usize = ines.prg_rom.len();
        if n < 1 {
            return Err(RomError::BadBankCount);
        }
        if ines.header.flags6._has_battery_backed_prg_ram {
            let cart_wram = WRam::new(ines.rom_name.as_str());
            self.wram = Some(cart_wram);
        }
        self.init_prg_banks(ines);
        self.init_chr_banks(ines);
        self.cpu_mem.load(0x8000, self.prg_rom_banks[0].as_slice());
        self.cpu_mem.load(0xC000, self.prg_rom_banks[n - 1].as_slice());
        proof {
        }
        Ok(())
    }

    fn cpu_read(&self, addr: u16) -> (r: u8) {
        if addr >= 0x6000 && addr <= 0x7FFF {
            match &self.wram {
                Some(cart_wram) => cart_wram.read(addr),
                None => self.cpu_mem.read(addr),
            }
        } else {
            self.cpu_mem.read(addr)
        }
    }

#[verifier::rlimit(40)]
    fn cpu_write(&mut self, addr: u16, value: u8) {
        if addr >= 0x6000 && addr <= 0x7FFF {
            match &mut self.wram {
                Some(cart_wram) => cart_wram.write(addr, value),
                None => self.cpu_mem.write(addr, value),
            }
        } else if addr >= 0x8000 {
            match self.push_shift_reg(value) {
                RegisterStatus::Cleared => self.reset(),
                RegisterStatus::Ready => {
                    if addr <= 0x9FFF {
                        self.handle_control_register();
                    } else if addr <= 0xBFFF {
                        self.handle_chr0_register();
                    } else if addr <= 0xDFFF {
                        self.handle_chr1_register();
                    } else {
                        self.handle_prg_register();
                    }
                    self.shift_register = 0;
                },
                RegisterStatus::Partial => (),
            }
        } else {
            self.cpu_mem.write(addr, value);
        }
    }

    fn get_cpu_dma_slice(&self, addr: u16) -> (r: &[u8]) {
        self.cpu_mem.get_slice(addr, 256)
    }

    fn ppu_read(&self, addr: u16) -> (r: u8) {
        self.ppu_mem.read(addr)
    }

    fn ppu_write(&mut self, addr: u16, value: u8) {
        self.ppu_mem.write(addr, value);
    }

    fn shutdown(&mut self) -> (r: Option<Vec<u8>>) {
        match &self.wram {
            Some(cart_wram) => Some(copy_bytes(cart_wram.contents())),
            None => None,
        }
    }
}

} // verus!
