//! Byte memories: a plain linear memory, and the 14-bit memory of the picture
//! processing unit with its nametable and palette mirrors.

use vstd::prelude::*;
use crate::ppu::constants::{
    Mirroring, NAMETABLE_0, NAMETABLE_0_END, NAMETABLE_1, NAMETABLE_1_END, NAMETABLE_2,
    NAMETABLE_2_END, NAMETABLE_3, NAMETABLE_3_END,
};
use crate::utils::{make_word, word};

verus! {

pub const CPU_MEMORY_SIZE: usize = 65536;

pub const PPU_MEMORY_SIZE: usize = 16384;

pub const VRAM_BANK_SIZE: usize = 1024;

pub const VRAM_MEMORY_SIZE: usize = 2048;

/// `len` zero bytes.
pub open spec fn zeros(len: nat) -> Seq<u8> {
    Seq::new(len, |i: int| 0u8)
}

/// `m` with `data` laid over it from index `at` on.
pub open spec fn loaded(m: Seq<u8>, at: int, data: Seq<u8>) -> Seq<u8> {
    Seq::new(m.len(), |i: int| if at <= i < at + data.len() { data[i - at] } else { m[i] })
}

/// `m` after the bytes of `data` were stored one by one from index `at` on,
/// the index going back to 0 after the last cell of `m`.
pub open spec fn wrap_loaded(m: Seq<u8>, at: int, data: Seq<u8>) -> Seq<u8>
    decreases data.len(),
{
    if data.len() == 0 {
        m
    } else {
        wrap_loaded(
            m.update(at, data[0]),
            if at + 1 == m.len() { 0 } else { at + 1 },
            data.skip(1),
        )
    }
}

/// A linear byte memory. Its view is the sequence of its bytes.
pub struct Memory {
    pub mem: Vec<u8>,
}

impl View for Memory {
    type V = Seq<u8>;

    open spec fn view(&self) -> Seq<u8> {
        self.mem@
    }
}

impl Memory {
    /// Creates a zeroed memory of the given size.
    pub fn new(size: usize) -> (r: Self)
        ensures
            r@ == zeros(size as nat),
    {
        let r = Self { mem: vec![0u8; size] };
        assert(r@ =~= zeros(size as nat));
        r
    }

    /// Creates the 64 KiB memory of the processor.
    pub fn new_cpu() -> (r: Self)
        ensures
            r@ == zeros(CPU_MEMORY_SIZE as nat),
    {
        Self::new(CPU_MEMORY_SIZE)
    }

    /// Creates a 16 KiB memory, the size of the picture unit's address space.
    pub fn new_ppu() -> (r: Self)
        ensures
            r@ == zeros(PPU_MEMORY_SIZE as nat),
    {
        Self::new(PPU_MEMORY_SIZE)
    }

    /// Creates the 2 KiB of video RAM.
    pub fn new_vram() -> (r: Self)
        ensures
            r@ == zeros(VRAM_MEMORY_SIZE as nat),
    {
        Self::new(VRAM_MEMORY_SIZE)
    }

    /// Reads the byte at `addr`.
    pub fn read(&self, addr: u16) -> (r: u8)
        requires
            (addr as int) < self@.len(),
        ensures
            r == self@[addr as int],
    {
        self.mem[addr as usize]
    }

    /// Reads the little-endian word whose low byte is at `addr`.
    pub fn read_word(&self, addr: u16) -> (r: u16)
        requires
            addr as int + 1 < self@.len(),
        ensures
            r == word(self@[addr as int], self@[addr as int + 1]),
    {
        let at: usize = addr as usize;
        let lsb: u8 = self.mem[at];
        let msb: u8 = self.mem[at + 1];
        make_word(lsb, msb)
    }

    /// Stores `value` at `addr`.
    pub fn write(&mut self, addr: u16, value: u8)
        requires
            (addr as int) < old(self)@.len(),
        ensures
            final(self)@ == old(self)@.update(addr as int, value),
    {
        self.mem[addr as usize] = value;
    }

    /// Copies `data` into memory from `addr` on.
    pub fn load(&mut self, addr: u16, data: &[u8])
        requires
            addr as int + data@.len() <= old(self)@.len(),
        ensures
            final(self)@ == loaded(old(self)@, addr as int, data@),
    {
        let start: usize = addr as usize;
        let n: usize = data.len();
        let size: usize = self.mem.len();
        let mut offset: usize = 0;
        while offset < n
            invariant
                n == data@.len(),
                start == addr,
                offset <= n,
                size == self.mem@.len(),
                start + n <= size,
                self.mem@.len() == old(self)@.len(),
                self.mem@ == loaded(old(self)@, start as int, data@.take(offset as int)),
            decreases n - offset,
        {
            self.mem[start + offset] = data[offset];
            offset = offset + 1;
            assert(self.mem@ =~= loaded(old(self)@, start as int, data@.take(offset as int)));
        }
        assert(data@.take(n as int) =~= data@);
    }

    /// Copies `data` into memory from `addr` on, going back to address 0
    /// after the last cell.
    pub fn wrapping_load(&mut self, addr: u16, data: &[u8])
        requires
            (addr as int) < old(self)@.len(),
        ensures
            final(self)@ == wrap_loaded(old(self)@, addr as int, data@),
    {
        let n: usize = data.len();
        let size: usize = self.mem.len();
        let mut location: usize = addr as usize;
        let mut k: usize = 0;
        assert(data@.skip(0) =~= data@);
        while k < n
            invariant
                n == data@.len(),
                k <= n,
                size == self.mem@.len(),
                location < size,
                wrap_loaded(self.mem@, location as int, data@.skip(k as int)) == wrap_loaded(
                    old(self)@,
                    addr as int,
                    data@,
                ),
            decreases n - k,
        {
            self.mem[location] = data[k];
            location = location + 1;
            if location == size {
                location = 0;
            }
            proof {
                assert(data@.skip(k as int).skip(1) =~= data@.skip(k as int + 1));
            }
            k = k + 1;
        }
    }

    /// The `size` bytes from `start_addr` on.
    pub fn get_slice(&self, start_addr: u16, size: usize) -> (r: &[u8])
        requires
            start_addr as int + size as int <= self@.len(),
        ensures
            r@ == self@.subrange(start_addr as int, start_addr as int + size as int),
    {
        let total: usize = self.mem.len();
        let start: usize = start_addr as usize;
        let end: usize = start + size;
        let whole: &[u8] = self.mem.as_slice();
        &whole[start..end]
    }
}

/// Where an address of the picture unit's bus lands after the whole space
/// is wrapped at 0x4000, 0x3000-0x3EFF is folded onto the nametables and
/// 0x3F20-0x3FFF onto the 32 palette bytes.
pub open spec fn ppu_effective_address(addr: u16) -> u16 {
    let a = addr as int % 0x4000;
    if 0x3F20 <= a {
        (0x3F00 + (a - 0x3F00) % 0x20) as u16
    } else if 0x3000 <= a < 0x3F00 {
        (a - 0x1000) as u16
    } else {
        a as u16
    }
}

/// Computes `ppu_effective_address`.
pub fn fold_ppu_address(addr: u16) -> (r: u16)
    ensures
        r == ppu_effective_address(addr),
        r < 0x3F20,
        !(0x3000 <= r < 0x3F00),
{
    let effective_addr: u16 = addr % 0x4000;
    if effective_addr >= 0x3F20 {
        assert(effective_addr & 0x3F1F == 0x3F00 + (effective_addr - 0x3F00) % 0x20)
            by (bit_vector)
            requires
                0x3F20 <= effective_addr < 0x4000,
        ;
        effective_addr & 0x3F1F
    } else if effective_addr >= 0x3000 && effective_addr < 0x3F00 {
        effective_addr - 0x1000
    } else {
        effective_addr
    }
}

/// The bank of video RAM (0 or 1) that backs logical nametable `table`
/// (0 to 3, left to right and top to bottom).
pub open spec fn bank_of(mirroring: Mirroring, table: int) -> int {
    match mirroring {
        Mirroring::Vertical => table % 2,
        Mirroring::Horizontal => table / 2,
        Mirroring::OneScreen0 => 0,
        Mirroring::OneScreen1 => 1,
    }
}

/// Whether `a` is one of the eight palette cells that exist twice.
pub open spec fn is_palette_alias(a: int) -> bool {
    0x3F00 <= a < 0x3F20 && a % 4 == 0
}

/// What a `PpuMemory` holds.
pub struct PpuMemoryView {
    /// Pattern tables and palette, by address; the nametable range is unused.
    pub mem: Seq<u8>,
    pub bank0: Seq<u8>,
    pub bank1: Seq<u8>,
    pub mirroring: Mirroring,
}

impl PpuMemoryView {
    pub open spec fn wf(self) -> bool {
        &&& self.mem.len() == PPU_MEMORY_SIZE
        &&& self.bank0.len() == VRAM_BANK_SIZE
        &&& self.bank1.len() == VRAM_BANK_SIZE
    }

    /// The byte seen at `addr`.
    pub open spec fn read(self, addr: u16) -> u8 {
        let a = ppu_effective_address(addr) as int;
        if 0x2000 <= a < 0x3000 {
            let table = (a - 0x2000) / 0x400;
            let offset = (a - 0x2000) % 0x400;
            if bank_of(self.mirroring, table) == 0 {
                self.bank0[offset]
            } else {
                self.bank1[offset]
            }
        } else {
            self.mem[a]
        }
    }

    /// The memory after `value` was written to `addr`.
    pub open spec fn write(self, addr: u16, value: u8) -> PpuMemoryView {
        let a = ppu_effective_address(addr) as int;
        if 0x2000 <= a < 0x3000 {
            let table = (a - 0x2000) / 0x400;
            let offset = (a - 0x2000) % 0x400;
            if bank_of(self.mirroring, table) == 0 {
                PpuMemoryView { bank0: self.bank0.update(offset, value), ..self }
            } else {
                PpuMemoryView { bank1: self.bank1.update(offset, value), ..self }
            }
        } else if is_palette_alias(a) {
            let low = 0x3F00 + a % 0x10;
            PpuMemoryView { mem: self.mem.update(low, value).update(low + 0x10, value), ..self }
        } else {
            PpuMemoryView { mem: self.mem.update(a, value), ..self }
        }
    }
}

/// The memory behind the picture unit's 14-bit bus: pattern tables and
/// palette in one array, and two banks of video RAM that the mirroring mode
/// lays under the four nametables.
pub struct PpuMemory {
    pub mem: Vec<u8>,
    pub vram_bank0: Vec<u8>,
    pub vram_bank1: Vec<u8>,
    pub mirroring: Mirroring,
}

impl View for PpuMemory {
    type V = PpuMemoryView;

    open spec fn view(&self) -> PpuMemoryView {
        PpuMemoryView {
            mem: self.mem@,
            bank0: self.vram_bank0@,
            bank1: self.vram_bank1@,
            mirroring: self.mirroring,
        }
    }
}

impl PpuMemory {
    /// The lengths of the three arrays are as `new` made them.
    pub open spec fn inv(&self) -> bool {
        self@.wf()
    }

    /// Creates the zeroed 16 KiB memory, with vertical mirroring until the
    /// cartridge chooses.
    pub fn new() -> (r: Self)
        ensures
            r.inv(),
            r@.mem == zeros(PPU_MEMORY_SIZE as nat),
            r@.bank0 == zeros(VRAM_BANK_SIZE as nat),
            r@.bank1 == zeros(VRAM_BANK_SIZE as nat),
            r@.mirroring == Mirroring::Vertical,
    {
        let r = Self {
            mem: vec![0u8; PPU_MEMORY_SIZE],
            vram_bank0: vec![0u8; VRAM_BANK_SIZE],
            vram_bank1: vec![0u8; VRAM_BANK_SIZE],
            mirroring: Mirroring::Vertical,
        };
        assert(r@.mem =~= zeros(PPU_MEMORY_SIZE as nat));
        assert(r@.bank0 =~= zeros(VRAM_BANK_SIZE as nat));
        assert(r@.bank1 =~= zeros(VRAM_BANK_SIZE as nat));
        r
    }

    pub fn set_mirroring(&mut self, mode: Mirroring)
        ensures
            final(self)@ == (PpuMemoryView { mirroring: mode, ..old(self)@ }),
    {
        self.mirroring = mode;
    }

    /// Wraps and folds an address of the picture unit's bus.
    pub fn get_effective_address(&self, addr: u16) -> (r: u16)
        ensures
            r == ppu_effective_address(addr),
            r < 0x3F20,
            !(0x3000 <= r < 0x3F00),
    {
        fold_ppu_address(addr)
    }

    /// Reads the byte seen at `addr`.
    pub fn read(&self, addr: u16) -> (r: u8)
        requires
            self.inv(),
        ensures
            r == self@.read(addr),
    {
        let addr: u16 = self.get_effective_address(addr);
        if addr >= NAMETABLE_0 && addr <= NAMETABLE_3_END {
            self.read_nametable(addr)
        } else {
            self.mem[addr as usize]
        }
    }

    /// Writes `value` at `addr`; a write to a palette cell that exists twice
    /// reaches both copies.
    pub fn write(&mut self, addr: u16, value: u8)
        requires
            old(self).inv(),
        ensures
            final(self).inv(),
            final(self)@ == old(self)@.write(addr, value),
    {
        let addr: u16 = self.get_effective_address(addr);
        if addr >= NAMETABLE_0 && addr <= NAMETABLE_3_END {
            self.write_nametable(addr, value);
        } else if addr == 0x3F00 || addr == 0x3F10 {
            self.mem[0x3F00] = value;
            self.mem[0x3F10] = value;
        } else if addr == 0x3F04 || addr == 0x3F14 {
            self.mem[0x3F04] = value;
            self.mem[0x3F14] = value;
        } else if addr == 0x3F08 || addr == 0x3F18 {
            self.mem[0x3F08] = value;
            self.mem[0x3F18] = value;
        } else if addr == 0x3F0C || addr == 0x3F1C {
            self.mem[0x3F0C] = value;
            self.mem[0x3F1C] = value;
        } else {
            self.mem[addr as usize] = value;
        }
    }

    /// Reads a nametable byte from the bank that the mirroring mode selects.
    pub fn read_nametable(&self, addr: u16) -> (r: u8)
        requires
            self.inv(),
            0x2000 <= addr <= 0x2FFF,
        ensures
            r == self@.read(addr),
    {
        if addr <= NAMETABLE_0_END {
            let vram_addr: usize = (addr - NAMETABLE_0) as usize;
            match self.mirroring {
                Mirroring::Vertical => self.vram_bank0[vram_addr],
                Mirroring::Horizontal => self.vram_bank0[vram_addr],
                Mirroring::OneScreen0 => self.vram_bank0[vram_addr],
                Mirroring::OneScreen1 => self.vram_bank1[vram_addr],
            }
        } else if addr <= NAMETABLE_1_END {
            let vram_addr: usize = (addr - NAMETABLE_1) as usize;
            match self.mirroring {
                Mirroring::Vertical => self.vram_bank1[vram_addr],
                Mirroring::Horizontal => self.vram_bank0[vram_addr],
                Mirroring::OneScreen0 => self.vram_bank0[vram_addr],
                Mirroring::OneScreen1 => self.vram_bank1[vram_addr],
            }
        } else if addr <= NAMETABLE_2_END {
            let vram_addr: usize = (addr - NAMETABLE_2) as usize;
            match self.mirroring {
                Mirroring::Vertical => self.vram_bank0[vram_addr],
                Mirroring::Horizontal => self.vram_bank1[vram_addr],
                Mirroring::OneScreen0 => self.vram_bank0[vram_addr],
                Mirroring::OneScreen1 => self.vram_bank1[vram_addr],
            }
        } else {
            let vram_addr: usize = (addr - NAMETABLE_3) as usize;
            match self.mirroring {
                Mirroring::Vertical => self.vram_bank1[vram_addr],
                Mirroring::Horizontal => self.vram_bank1[vram_addr],
                Mirroring::OneScreen0 => self.vram_bank0[vram_addr],
                Mirroring::OneScreen1 => self.vram_bank1[vram_addr],
            }
        }
    }

    /// Writes a nametable byte to the bank that the mirroring mode selects.
    pub fn write_nametable(&mut self, addr: u16, value: u8)
        requires
            old(self).inv(),
            0x2000 <= addr <= 0x2FFF,
        ensures
            final(self).inv(),
            final(self)@ == old(self)@.write(addr, value),
    {
        if addr <= NAMETABLE_0_END {
            let vram_addr: usize = (addr - NAMETABLE_0) as usize;
            match self.mirroring {
                Mirroring::Vertical => self.vram_bank0[vram_addr] = value,
                Mirroring::Horizontal => self.vram_bank0[vram_addr] = value,
                Mirroring::OneScreen0 => self.vram_bank0[vram_addr] = value,
                Mirroring::OneScreen1 => self.vram_bank1[vram_addr] = value,
            }
        } else if addr <= NAMETABLE_1_END {
            let vram_addr: usize = (addr - NAMETABLE_1) as usize;
            match self.mirroring {
                Mirroring::Vertical => self.vram_bank1[vram_addr] = value,
                Mirroring::Horizontal => self.vram_bank0[vram_addr] = value,
                Mirroring::OneScreen0 => self.vram_bank0[vram_addr] = value,
                Mirroring::OneScreen1 => self.vram_bank1[vram_addr] = value,
            }
        } else if addr <= NAMETABLE_2_END {
            let vram_addr: usize = (addr - NAMETABLE_2) as usize;
            match self.mirroring {
                Mirroring::Vertical => self.vram_bank0[vram_addr] = value,
                Mirroring::Horizontal => self.vram_bank1[vram_addr] = value,
                Mirroring::OneScreen0 => self.vram_bank0[vram_addr] = value,
                Mirroring::OneScreen1 => self.vram_bank1[vram_addr] = value,
            }
        } else {
            let vram_addr: usize = (addr - NAMETABLE_3) as usize;
            match self.mirroring {
                Mirroring::Vertical => self.vram_bank1[vram_addr] = value,
                Mirroring::Horizontal => self.vram_bank1[vram_addr] = value,
                Mirroring::OneScreen0 => self.vram_bank0[vram_addr] = value,
                Mirroring::OneScreen1 => self.vram_bank1[vram_addr] = value,
            }
        }
    }

    /// Copies `data` into the pattern-table and palette array from `addr`
    /// on, with no mirroring.
    pub fn load(&mut self, addr: u16, data: &[u8])
        requires
            old(self).inv(),
            addr as int + data@.len() <= PPU_MEMORY_SIZE,
            !(0x2000 <= addr <= 0x2FFF),
        ensures
            final(self).inv(),
            final(self)@ == (PpuMemoryView {
                mem: loaded(old(self)@.mem, addr as int, data@),
                ..old(self)@
            }),
    {
        let start: usize = addr as usize;
        let n: usize = data.len();
        let size: usize = self.mem.len();
        let mut offset: usize = 0;
        while offset < n
            invariant
                n == data@.len(),
                start == addr,
                offset <= n,
                size == self.mem@.len(),
                start + n <= size,
                self.mem@.len() == old(self)@.mem.len(),
                self.vram_bank0 == old(self).vram_bank0,
                self.vram_bank1 == old(self).vram_bank1,
                self.mirroring == old(self).mirroring,
                self.mem@ == loaded(old(self)@.mem, start as int, data@.take(offset as int)),
            decreases n - offset,
        {
            self.mem[start + offset] = data[offset];
            offset = offset + 1;
            assert(self.mem@ =~= loaded(old(self)@.mem, start as int, data@.take(offset as int)));
        }
        assert(data@.take(n as int) =~= data@);
    }
}

/// A value written to one of the palette cells 0x3F00, 0x3F04, 0x3F08 and
/// 0x3F0C is read back 0x10 above it, and a value written 0x10 above one of
/// them is read back at it.
pub proof fn lemma_palette_alias(m: PpuMemoryView, p: u16, value: u8)
    requires
        m.wf(),
        p == 0x3F00 || p == 0x3F04 || p == 0x3F08 || p == 0x3F0C,
    ensures
        m.write(p, value).read((p + 0x10) as u16) == value,
        m.write((p + 0x10) as u16, value).read(p) == value,
        m.write(p, value).read(p) == value,
{
}

/// Under every mirroring mode a byte written to a nametable address is read
/// back at that address.
pub proof fn lemma_nametable_write_read(m: PpuMemoryView, addr: u16, value: u8)
    requires
        m.wf(),
        0x2000 <= ppu_effective_address(addr) < 0x3000,
    ensures
        m.write(addr, value).read(addr) == value,
        m.write(addr, value).wf(),
{
}

} // verus!
