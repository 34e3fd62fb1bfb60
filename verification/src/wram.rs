//! Battery-backed cartridge RAM, seen by the processor at 0x6000-0x7FFF.

use vstd::prelude::*;
use crate::mem::zeros;

verus! {

pub const DEFAULT_WRAM_SIZE: usize = 0x2000;

pub const WRAM_BASE: u16 = 0x6000;

/// 8 KiB of cartridge RAM that outlives a run. The library keeps the bytes
/// and the name of the ROM they belong to; storing them is the host's part.
pub struct WRam {
    pub mem: Vec<u8>,
    pub rom_name: String,
}

impl View for WRam {
    type V = Seq<u8>;

    open spec fn view(&self) -> Seq<u8> {
        self.mem@
    }
}

impl WRam {
    pub open spec fn inv(&self) -> bool {
        self.mem@.len() == DEFAULT_WRAM_SIZE
    }

    /// Whether `addr` lies in the window of this RAM.
    pub open spec fn covers(addr: u16) -> bool {
        0x6000 <= addr <= 0x7FFF
    }

    /// Creates zeroed RAM for the ROM of the given name.
    pub fn new(rom_name: &str) -> (r: Self)
        ensures
            r.inv(),
            r@ == zeros(DEFAULT_WRAM_SIZE as nat),
            r.rom_name@ == rom_name@,
    {
        let r = Self {
            mem: vec![0u8; DEFAULT_WRAM_SIZE],
            rom_name: rom_name.to_owned(),
        };
        assert(r@ =~= zeros(DEFAULT_WRAM_SIZE as nat));
        r
    }

    /// Takes over a saved image. An image of any other size than 8 KiB is
    /// refused and the RAM keeps what it held.
    pub fn restore(&mut self, data: &[u8]) -> (accepted: bool)
        requires
            old(self).inv(),
        ensures
            final(self).inv(),
            accepted == (data@.len() == DEFAULT_WRAM_SIZE),
            accepted ==> final(self)@ == data@,
            !accepted ==> final(self)@ == old(self)@,
            final(self).rom_name == old(self).rom_name,
    {
        if data.len() != DEFAULT_WRAM_SIZE {
            return false;
        }
        let mut i: usize = 0;
        while i < DEFAULT_WRAM_SIZE
            invariant
                i <= DEFAULT_WRAM_SIZE,
                data@.len() == DEFAULT_WRAM_SIZE,
                self.mem@.len() == DEFAULT_WRAM_SIZE,
                self.rom_name == old(self).rom_name,
                forall|j: int| 0 <= j < i ==> self.mem@[j] == data@[j],
            decreases DEFAULT_WRAM_SIZE - i,
        {
            self.mem[i] = data[i];
            i = i + 1;
        }
        assert(self.mem@ =~= data@);
        true
    }

    /// The image to save: all 8 KiB, in address order.
    pub fn contents(&self) -> (r: &[u8])
        ensures
            r@ == self@,
    {
        self.mem.as_slice()
    }

    /// The name of the ROM that this RAM belongs to.
    pub fn rom_name(&self) -> (r: &str)
        ensures
            r@ == self.rom_name@,
    {
        self.rom_name.as_str()
    }

    /// The index of `addr` in the RAM.
    pub fn get_index(&self, addr: u16) -> (r: usize)
        requires
            self.inv(),
            Self::covers(addr),
        ensures
            r == addr - 0x6000,
    {
        let index: u16 = addr - WRAM_BASE;
        index as usize
    }

    /// Reads the byte at processor address `addr`.
    pub fn read(&self, addr: u16) -> (r: u8)
        requires
            self.inv(),
            Self::covers(addr),
        ensures
            r == self@[addr - 0x6000],
    {
        self.mem[self.get_index(addr)]
    }

    /// Stores `value` at processor address `addr`.
    pub fn write(&mut self, addr: u16, value: u8)
        requires
            old(self).inv(),
            Self::covers(addr),
        ensures
            final(self).inv(),
            final(self)@ == old(self)@.update(addr - 0x6000, value),
            final(self).rom_name == old(self).rom_name,
    {
        let index: usize = self.get_index(addr);
        self.mem[index] = value;
    }
}

} // verus!
