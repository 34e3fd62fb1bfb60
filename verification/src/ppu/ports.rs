//! The ports of the picture unit in the processor's address space, 0x2000
//! to 0x2007, and the sink of sprite DMA.

use vstd::prelude::*;
use vstd::array::spec_array_update;
use crate::mappers::Mapper;
use crate::ppu::{ctrl_of, mask_of, Ppu, PpuRegisters, Toggle};
use crate::utils::{bit_mask, bit_set, clear_bit, merged, set_bits_from_mask_u16};

verus! {

/// Facts on the 15 bits of v and t that the masks of the ports keep.
pub proof fn lemma_port_masks(t: u16, source: u16, value: u8)
    by (bit_vector)
    requires
        t <= 0x7FFF,
    ensures
        merged(t, source, 0x0C00) <= 0x7FFF,
        merged(t, source, 0x001F) <= 0x7FFF,
        merged(t, source, 0x7000) <= 0x7FFF,
        merged(t, source, 0x03E0) <= 0x7FFF,
        merged(t, source, 0x041F) <= 0x7FFF,
        merged(t, source, 0x7BE0) <= 0x7FFF,
        merged(t, ((value & 0x3F) as u16) << 8, 0xFF00) <= 0x3FFF,
        merged(t, source, 0x00FF) & 0x3FFF <= 0x3FFF,
        value & 0x7 <= 7,
{
}

/// OAM after the first `n` bytes of `data` were stored from address
/// `start` on, the address going back to 0 after 255.
pub open spec fn oam_after_dma(oam: [u8; 256], start: u8, data: Seq<u8>, n: int) -> [u8; 256]
    decreases n,
{
    if n <= 0 {
        oam
    } else {
        spec_array_update(
            oam_after_dma(oam, start, data, n - 1),
            (start + n - 1) % 256,
            data[n - 1],
        )
    }
}

/// After a sprite DMA byte `k` of the page is at address `start + k`,
/// taken modulo 256.
pub proof fn lemma_oam_dma(oam: [u8; 256], start: u8, data: Seq<u8>, n: int, k: int)
    requires
        0 <= k < n <= 256,
    ensures
        oam_after_dma(oam, start, data, n)[(start + k) % 256] == data[k],
    decreases n,
{
    if k < n - 1 {
        lemma_oam_dma(oam, start, data, n - 1, k);
    }
}

impl Ppu {
    /// The unit after `value` was written to 0x2000: the control register
    /// holds it, and its two lowest bits are bits 10 and 11 of t.
    pub open spec fn after_write_2000(self, value: u8) -> Ppu {
        Ppu {
            reg: PpuRegisters {
                ppu_ctrl: ctrl_of(value),
                t: merged(self.reg.t, (value as u16) << 10, 0x0C00),
                ..self.reg
            },
            ..self
        }
    }

    /// The unit after `value` was written to 0x2001.
    pub open spec fn after_write_2001(self, value: u8) -> Ppu {
        Ppu { reg: PpuRegisters { ppu_mask: mask_of(value), ..self.reg }, ..self }
    }

    /// The unit after the status was read: the vertical blank flag is
    /// down and the write toggle is at the first write.
    pub open spec fn after_read_2002(self) -> Ppu {
        Ppu {
            reg: PpuRegisters {
                ppu_status: self.reg.ppu_status & !bit_mask(7),
                w: Toggle::FirstWrite,
                ..self.reg
            },
            ..self
        }
    }

    /// The unit after `value` was written to 0x2003.
    pub open spec fn after_write_2003(self, value: u8) -> Ppu {
        Ppu { reg: PpuRegisters { oam_addr: value, ..self.reg }, ..self }
    }

    /// Whether secondary OAM is being cleared, so that reads of 0x2004
    /// give 0xFF.
    pub open spec fn clearing_secondary_oam(self) -> bool {
        self.scanline <= 239 && 1 <= self.scanline_cycle <= 64
    }

    /// What a read of 0x2004 returns.
    pub open spec fn oam_data(self) -> u8 {
        if self.clearing_secondary_oam() {
            0xFF
        } else {
            self.oam[self.reg.oam_addr as int]
        }
    }

    /// The unit after `value` was written to 0x2004: it is in OAM at the
    /// OAM address, which went up by one, from 255 to 0.
    pub open spec fn after_write_2004(self, value: u8) -> Ppu {
        Ppu {
            oam: spec_array_update(self.oam, self.reg.oam_addr as int, value),
            reg: PpuRegisters { oam_addr: ((self.reg.oam_addr + 1) % 256) as u8, ..self.reg },
            ..self
        }
    }

    /// The unit after `value` was written to 0x2005. The first write
    /// gives fine X and the coarse X of t, the second fine Y and the
    /// coarse Y of t.
    pub open spec fn after_write_2005(self, value: u8) -> Ppu {
        match self.reg.w {
            Toggle::FirstWrite => Ppu {
                reg: PpuRegisters {
                    t: merged(self.reg.t, (value as u16) >> 3, 0x001F),
                    x: value & 0x7,
                    w: Toggle::SecondWrite,
                    ..self.reg
                },
                ..self
            },
            Toggle::SecondWrite => Ppu {
                reg: PpuRegisters {
                    t: merged(
                        merged(self.reg.t, (value as u16) << 12, 0x7000),
                        (value as u16) << 2,
                        0x03E0,
                    ),
                    w: Toggle::FirstWrite,
                    ..self.reg
                },
                ..self
            },
        }
    }

    /// The unit after `value` was written to 0x2006. The first write
    /// gives bits 8 to 13 of t and clears those above; the second gives
    /// the low byte of t, and t goes to v.
    pub open spec fn after_write_2006(self, value: u8) -> Ppu {
        match self.reg.w {
            Toggle::FirstWrite => Ppu {
                reg: PpuRegisters {
                    t: merged(self.reg.t, ((value & 0x3F) as u16) << 8, 0xFF00),
                    w: Toggle::SecondWrite,
                    ..self.reg
                },
                ..self
            },
            Toggle::SecondWrite => {
                let t = merged(self.reg.t, value as u16, 0x00FF) & 0x3FFF;
                Ppu { reg: PpuRegisters { t, v: t, w: Toggle::FirstWrite, ..self.reg }, ..self }
            },
        }
    }

    /// The unit after an access to 0x2007 moved v on by the increment of
    /// the control register, within 15 bits.
    pub open spec fn with_v_advanced(self) -> Ppu {
        Ppu {
            reg: PpuRegisters {
                v: ((self.reg.v + self.reg.ppu_ctrl.vram_increment) % 0x8000) as u16,
                ..self.reg
            },
            ..self
        }
    }

    /// Whether v points into the palette.
    pub open spec fn v_in_palette(self) -> bool {
        self.reg.v % 0x4000 >= 0x3F00
    }

    /// What a read of 0x2007 returns: the palette byte at v, or else the
    /// buffer that the read before it filled.
    pub open spec fn ppu_data<M: Mapper>(self, m: M::V) -> u8 {
        if self.v_in_palette() {
            M::ppu_read_spec(m, self.reg.v)
        } else {
            self.ppudata_read_buffer
        }
    }

    /// The unit after a read of 0x2007: the buffer holds the byte at v,
    /// unless v points into the palette, and v has moved on.
    pub open spec fn after_read_2007<M: Mapper>(self, m: M::V) -> Ppu {
        Ppu {
            ppudata_read_buffer: if self.v_in_palette() {
                self.ppudata_read_buffer
            } else {
                M::ppu_read_spec(m, self.reg.v)
            },
            ..self.with_v_advanced()
        }
    }

    /// The unit after a sprite DMA of the 256 bytes of `data`.
    pub open spec fn after_oam_dma(self, data: Seq<u8>) -> Ppu {
        Ppu { oam: oam_after_dma(self.oam, self.reg.oam_addr, data, 256), ..self }
    }

    /// Write to the control register.
    pub fn write_2000_ppuctrl(&mut self, value: u8)
        requires
            old(self).inv(),
        ensures
            final(self).inv(),
            *final(self) == old(self).after_write_2000(value),
    {
        proof {
            lemma_port_masks(self.reg.t, (value as u16) << 10, value);
        }
        self.reg.ppu_ctrl.update(value);
        let nt_bits: u16 = (value as u16) << 10;
        set_bits_from_mask_u16(nt_bits, 0xc00, &mut self.reg.t);
    }

    /// Write to the mask register.
    pub fn write_2001_ppumask(&mut self, value: u8)
        requires
            old(self).inv(),
        ensures
            final(self).inv(),
            *final(self) == old(self).after_write_2001(value),
    {
        self.reg.ppu_mask.update(value);
    }

    /// Reads the status register. The read takes the vertical blank flag
    /// down and sets the write toggle back to the first write.
    pub fn read_2002_ppustatus(&mut self) -> (r: u8)
        requires
            old(self).inv(),
        ensures
            final(self).inv(),
            r == old(self).reg.ppu_status,
            *final(self) == old(self).after_read_2002(),
            !bit_set(7, final(self).reg.ppu_status),
            final(self).reg.w == Toggle::FirstWrite,
    {
        let return_status: u8 = self.reg.ppu_status;
        clear_bit(7, &mut self.reg.ppu_status);
        self.reg.w = Toggle::FirstWrite;
        proof {
            let s = return_status;
            assert((s & !(1u8 << 7u8)) & (1u8 << 7u8) == 0) by (bit_vector);
        }
        return_status
    }

    /// Write to the OAM address register.
    pub fn write_2003_oamaddr(&mut self, value: u8)
        requires
            old(self).inv(),
        ensures
            final(self).inv(),
            *final(self) == old(self).after_write_2003(value),
    {
        self.reg.oam_addr = value;
    }

    /// Reads the OAM byte at the OAM address.
    pub fn read_2004_oamdata(&self) -> (r: u8)
        requires
            self.inv(),
        ensures
            r == self.oam_data(),
    {
        if self.scanline <= 239 && (self.scanline_cycle >= 1 && self.scanline_cycle <= 64) {
            0xFF
        } else {
            self.oam[self.reg.oam_addr as usize]
        }
    }

    /// Writes the OAM byte at the OAM address and moves the address on.
    pub fn write_2004_oamdata(&mut self, value: u8)
        requires
            old(self).inv(),
        ensures
            final(self).inv(),
            *final(self) == old(self).after_write_2004(value),
    {
        self.oam[self.reg.oam_addr as usize] = value;
        self.reg.oam_addr = self.reg.oam_addr.wrapping_add(1);
    }

    /// Write to the scroll register.
    pub fn write_2005_ppuscroll(&mut self, value: u8)
        requires
            old(self).inv(),
        ensures
            final(self).inv(),
            *final(self) == old(self).after_write_2005(value),
    {
        match self.reg.w {
            Toggle::FirstWrite => {
                let value_u16: u16 = value as u16;
                proof {
                    lemma_port_masks(self.reg.t, value_u16 >> 3, value);
                }
                set_bits_from_mask_u16(value_u16 >> 3, 0x1F, &mut self.reg.t);
                self.reg.x = value & 0x7;
                self.reg.w.toggle();
            },
            Toggle::SecondWrite => {
                let fgh: u16 = (value as u16) << 12;
                let abcde: u16 = (value as u16) << 2;
                proof {
                    lemma_port_masks(self.reg.t, fgh, value);
                    lemma_port_masks(merged(self.reg.t, fgh, 0x7000), abcde, value);
                }
                set_bits_from_mask_u16(fgh, 0x7000, &mut self.reg.t);
                set_bits_from_mask_u16(abcde, 0x3E0, &mut self.reg.t);
                self.reg.w.toggle();
            },
        }
    }

    /// Write to the address register.
    pub fn write_2006_ppuaddr(&mut self, value: u8)
        requires
            old(self).inv(),
        ensures
            final(self).inv(),
            *final(self) == old(self).after_write_2006(value),
    {
        proof {
            lemma_port_masks(self.reg.t, value as u16, value);
        }
        match self.reg.w {
            Toggle::FirstWrite => {
                let mut value_u16: u16 = (value & 0x3F) as u16;
                value_u16 = value_u16 << 8;
                set_bits_from_mask_u16(value_u16, 0xFF00, &mut self.reg.t);
                self.reg.w.toggle();
            },
            Toggle::SecondWrite => {
                set_bits_from_mask_u16(value as u16, 0xFF, &mut self.reg.t);
                self.reg.t = self.reg.t & 0x3FFF;
                self.reg.v = self.reg.t;
                self.reg.w.toggle();
            },
        }
    }

    /// Moves v on after an access to 0x2007.
    pub fn advance_v(&mut self)
        requires
            old(self).inv(),
        ensures
            final(self).inv(),
            *final(self) == old(self).with_v_advanced(),
    {
        self.reg.v = (self.reg.v + self.reg.ppu_ctrl.vram_increment) % 0x8000;
    }

    /// Writes `value` to the address v, through the mapper.
    pub fn write_2007_ppudata<M: Mapper>(&mut self, value: u8, mapper: &mut M)
        requires
            old(self).inv(),
            M::wf(old(mapper)@),
        ensures
            final(self).inv(),
            M::wf(final(mapper)@),
            final(mapper)@ == M::ppu_write_spec(old(mapper)@, old(self).reg.v, value),
            *final(self) == old(self).with_v_advanced(),
    {
        mapper.ppu_write(self.reg.v, value);
        self.advance_v();
    }

    /// Reads through the buffer from the address v.
    pub fn read_2007_ppudata<M: Mapper>(&mut self, mapper: &M) -> (r: u8)
        requires
            old(self).inv(),
            M::wf(mapper@),
        ensures
            final(self).inv(),
            r == old(self).ppu_data::<M>(mapper@),
            *final(self) == old(self).after_read_2007::<M>(mapper@),
    {
        if self.reg.v % 0x4000 >= 0x3F00 {
            let value: u8 = mapper.ppu_read(self.reg.v);
            self.advance_v();
            value
        } else {
            let value: u8 = self.ppudata_read_buffer;
            self.ppudata_read_buffer = mapper.ppu_read(self.reg.v);
            self.advance_v();
            value
        }
    }

    /// Takes the 256 bytes of a sprite DMA into OAM, from the OAM address
    /// on and around the end; the OAM address stays.
    pub fn oam_dma(&mut self, data: &[u8])
        requires
            old(self).inv(),
            data@.len() == 256,
        ensures
            final(self).inv(),
            *final(self) == old(self).after_oam_dma(data@),
            forall|k: int|
                0 <= k < 256 ==> final(self).oam[(old(self).reg.oam_addr + k) % 256] == data@[k],
    {
        let start: usize = self.reg.oam_addr as usize;
        let mut k: usize = 0;
        while k < 256
            invariant
                k <= 256,
                data@.len() == 256,
                start == old(self).reg.oam_addr,
                self.oam == oam_after_dma(old(self).oam, old(self).reg.oam_addr, data@, k as int),
                *self == (Ppu { oam: self.oam, ..*old(self) }),
            decreases 256 - k,
        {
            self.oam[(start + k) % 256] = data[k];
            k = k + 1;
        }
        proof {
            assert forall|j: int| 0 <= j < 256 implies self.oam[(old(self).reg.oam_addr + j) % 256]
                == data@[j] by {
                lemma_oam_dma(old(self).oam, old(self).reg.oam_addr, data@, 256, j);
            }
        }
    }
}

/// After the two writes (h, l) to 0x2006, the first of them with the write
/// toggle at the first write, v is the 14-bit address that they spell:
/// `((h & 0x3F) << 8) | l`, which is `(h % 64) * 256 + l`.
pub proof fn lemma_ppuaddr_pair(p: Ppu, h: u8, l: u8)
    requires
        p.reg.w == Toggle::FirstWrite,
    ensures
        p.after_write_2006(h).after_write_2006(l).reg.v == (((h & 0x3F) as u16) << 8) | (l as u16),
        p.after_write_2006(h).after_write_2006(l).reg.v == (h % 64) * 256 + l,
        p.after_write_2006(h).after_write_2006(l).reg.w == Toggle::FirstWrite,
{
    let t = p.reg.t;
    assert(merged(merged(t, ((h & 0x3F) as u16) << 8, 0xFF00), l as u16, 0x00FF) & 0x3FFF == (((h
        & 0x3F) as u16) << 8) | (l as u16) && (((h & 0x3F) as u16) << 8) | (l as u16) == (h % 64)
        * 256 + l) by (bit_vector);
}

/// A write to 0x2000 puts the two nametable bits of the value into bits
/// 10 and 11 of t at once, and leaves v as it is until the rendering takes
/// its position from t.
pub proof fn lemma_ctrl_write_selects_nametable(p: Ppu, value: u8)
    ensures
        p.after_write_2000(value).reg.v == p.reg.v,
        (p.after_write_2000(value).reg.t >> 10) & 3 == value & 3,
        p.after_write_2000(value).reg.t & !0x0C00u16 == p.reg.t & !0x0C00u16,
{
    let t = p.reg.t;
    assert((merged(t, (value as u16) << 10, 0x0C00) >> 10) & 3 == value & 3 && merged(
        t,
        (value as u16) << 10,
        0x0C00,
    ) & !0x0C00u16 == t & !0x0C00u16) by (bit_vector);
}

} // verus!
