//! Sprite evaluation: on every visible scanline secondary OAM is cleared,
//! filled with up to eight sprites that cover the next scanline, and
//! emptied into the eight output buffers.

use vstd::prelude::*;
use vstd::array::spec_array_update;
use crate::mappers::Mapper;
use crate::ppu::sprite::{sprite_in_range, PpuSpriteEvalState, SpriteBuffer, SpriteSize};
use crate::ppu::{Ppu, PpuRegisters};
use crate::utils::{bit_mask, set_bit};

verus! {

impl Ppu {
    /// The unit after one of the dots 1 to 64 of a visible scanline: the
    /// first of them starts the evaluation anew, and every second one
    /// sets the next byte of secondary OAM to 0xFF.
    pub open spec fn with_secondary_cleared(self) -> Ppu {
        let c = self.scanline_cycle as int;
        let started = if c == 1 {
            self.sprite_render_state.restarted()
        } else {
            self.sprite_render_state
        };
        let cleared = if c % 2 == 0 {
            PpuSpriteEvalState {
                secondary_oam: spec_array_update(started.secondary_oam, c / 2 - 1, 0xFFu8),
                ..started
            }
        } else {
            started
        };
        Ppu { sprite_render_state: cleared, ..self }
    }

    /// The unit after the OAM entry at the evaluation's address was
    /// looked at. An entry that covers the next scanline goes to
    /// secondary OAM while that has room; once it is full, such an entry
    /// raises the overflow flag instead.
    pub open spec fn with_sprite_evaluated(self) -> Ppu {
        let s = self.sprite_render_state;
        let a = s.oam_addr as int;
        let moved = (s.oam_addr + 4) as u16;
        if !sprite_in_range(self.scanline, self.oam[a], self.reg.ppu_ctrl.sprite_size) {
            Ppu { sprite_render_state: PpuSpriteEvalState { oam_addr: moved, ..s }, ..self }
        } else if s.secondary_oam_index < 8 {
            let i = s.secondary_oam_index as int;
            let copied = spec_array_update(
                spec_array_update(
                    spec_array_update(
                        spec_array_update(s.secondary_oam, 4 * i, self.oam[a]),
                        4 * i + 1,
                        self.oam[a + 1],
                    ),
                    4 * i + 2,
                    self.oam[a + 2],
                ),
                4 * i + 3,
                self.oam[a + 3],
            );
            Ppu {
                sprite_render_state: PpuSpriteEvalState {
                    oam_addr: moved,
                    secondary_oam: copied,
                    secondary_oam_index: (i + 1) as usize,
                    maybe_sprite_0_hit: s.maybe_sprite_0_hit || a == 0,
                    ..s
                },
                ..self
            }
        } else {
            Ppu {
                sprite_render_state: PpuSpriteEvalState {
                    oam_addr: moved,
                    sprite_overflow: true,
                    ..s
                },
                reg: PpuRegisters {
                    ppu_status: self.reg.ppu_status | bit_mask(5),
                    ..self.reg
                },
                ..self
            }
        }
    }

    /// The unit after output buffer `n` took entry `n` of secondary OAM.
    pub open spec fn with_buffer_loaded<M: Mapper>(self, n: int, m: M::V) -> Ppu {
        let s = self.sprite_render_state;
        let buffer = SpriteBuffer::of_entry::<M>(
            s.secondary_oam[4 * n],
            s.secondary_oam[4 * n + 1],
            s.secondary_oam[4 * n + 2],
            s.secondary_oam[4 * n + 3],
            s.maybe_sprite_0_hit && n == 0,
            self.reg.ppu_ctrl.sprite_pt_addr_8x8,
            self.reg.ppu_ctrl.sprite_size,
            self.scanline,
            m,
        );
        Ppu {
            sprite_render_state: PpuSpriteEvalState {
                sprite_buffers: spec_array_update(s.sprite_buffers, n, buffer),
                ..s
            },
            ..self
        }
    }

    /// The unit after the sprite work of the dot that is due. On a
    /// visible scanline, dots 1 to 64 clear secondary OAM, every third dot
    /// from 66 to 255 looks at one of the 64 entries of OAM, and every
    /// eighth dot from 264 to 320 fills one output buffer.
    #[verifier::opaque]
    pub open spec fn after_sprite_evaluation<M: Mapper>(self, m: M::V) -> Ppu {
        let c = self.scanline_cycle as int;
        if self.scanline > 239 {
            self
        } else if 1 <= c <= 64 {
            self.with_secondary_cleared()
        } else if 65 <= c <= 256 {
            if c % 3 == 0 && self.sprite_render_state.oam_addr <= 252 {
                self.with_sprite_evaluated()
            } else {
                self
            }
        } else if 257 <= c <= 320 {
            if c % 8 == 0 {
                self.with_buffer_loaded::<M>(c / 8 - 33, m)
            } else {
                self
            }
        } else {
            self
        }
    }

    /// Looks at the OAM entry at the evaluation's address.
    #[verifier::rlimit(40)]
    pub fn evaluate_sprite(&mut self)
        requires
            old(self).bounded(),
            old(self).sprite_render_state.oam_addr <= 252,
        ensures
            final(self).bounded(),
            *final(self) == old(self).with_sprite_evaluated(),
    {
        let at: usize = self.sprite_render_state.oam_addr as usize;
        let sprite_min_y: u16 = self.oam[at] as u16;
        let sprite_max_y: u16 = match self.reg.ppu_ctrl.sprite_size {
            SpriteSize::Sprite8x8 => sprite_min_y + 7,
            SpriteSize::Sprite8x16 => sprite_min_y + 15,
        };
        if self.scanline >= sprite_min_y && self.scanline <= sprite_max_y {
            // In range: the sprite is on the next scanline.
            if self.sprite_render_state.secondary_oam_index < 8 {
                // The entry at address 0 is sprite 0, which has to be
                // watched for a hit when it is drawn.
                if self.sprite_render_state.oam_addr == 0 {
                    self.sprite_render_state.maybe_sprite_0_hit = true;
                }
                let i: usize = self.sprite_render_state.secondary_oam_index;
                self.sprite_render_state.secondary_oam[4 * i] = self.oam[at];
                self.sprite_render_state.secondary_oam[4 * i + 1] = self.oam[at + 1];
                self.sprite_render_state.secondary_oam[4 * i + 2] = self.oam[at + 2];
                self.sprite_render_state.secondary_oam[4 * i + 3] = self.oam[at + 3];
                self.sprite_render_state.secondary_oam_index = i + 1;
            } else {
                self.sprite_render_state.sprite_overflow = true;
                set_bit(5, &mut self.reg.ppu_status);
            }
        }
        // Go to the next entry.
        self.sprite_render_state.oam_addr = self.sprite_render_state.oam_addr + 4;
    }

    /// Fills output buffer `n` from entry `n` of secondary OAM.
    #[verifier::rlimit(40)]
    pub fn load_sprite_buffer<M: Mapper>(&mut self, n: usize, mapper: &M)
        requires
            old(self).bounded(),
            n < 8,
            M::wf(mapper@),
        ensures
            final(self).bounded(),
            *final(self) == old(self).with_buffer_loaded::<M>(n as int, mapper@),
    {
        let y: u8 = self.sprite_render_state.secondary_oam[4 * n];
        let tile: u8 = self.sprite_render_state.secondary_oam[4 * n + 1];
        let attributes: u8 = self.sprite_render_state.secondary_oam[4 * n + 2];
        let x: u8 = self.sprite_render_state.secondary_oam[4 * n + 3];
        let is_sprite_0: bool = self.sprite_render_state.maybe_sprite_0_hit && (n == 0);
        let mut buffer: SpriteBuffer = self.sprite_render_state.sprite_buffers[n];
        buffer.load(
            y,
            tile,
            attributes,
            x,
            is_sprite_0,
            self.reg.ppu_ctrl.sprite_pt_addr_8x8,
            self.reg.ppu_ctrl.sprite_size,
            self.scanline,
            mapper,
        );
        self.sprite_render_state.sprite_buffers[n] = buffer;
    }

    /// Does the sprite work of the dot that is due.
    #[verifier::rlimit(40)]
    pub fn do_sprite_evaluation<M: Mapper>(&mut self, mapper: &M)
        requires
            old(self).bounded(),
            M::wf(mapper@),
        ensures
            final(self).bounded(),
            *final(self) == old(self).after_sprite_evaluation::<M>(mapper@),
            final(self).scanline == old(self).scanline,
            final(self).scanline_cycle == old(self).scanline_cycle,
            final(self).bg_render_state == old(self).bg_render_state,
            final(self).reg.v == old(self).reg.v,
            final(self).frame == old(self).frame,
            final(self).total_cycle_count == old(self).total_cycle_count,
    {
        reveal(Ppu::after_sprite_evaluation);
        if self.scanline <= 239 {
            let c: u16 = self.scanline_cycle;
            if c >= 1 && c <= 64 {
                if c == 1 {
                    self.sprite_render_state.reset();
                }
                if c % 2 == 0 {
                    let n: usize = (c / 2 - 1) as usize;
                    self.sprite_render_state.secondary_oam[n] = 0xFF;
                }
            } else if c >= 65 && c <= 256 {
                // Each of the 64 sprites has three dots; the work is
                // done on one of them.
                if c % 3 == 0 && self.sprite_render_state.oam_addr <= 252 {
                    self.evaluate_sprite();
                }
            } else if c >= 257 && c <= 320 {
                // The first buffer is filled on dot 264, the last on 320.
                if c % 8 == 0 {
                    let n: usize = (c / 8 - 33) as usize;
                    self.load_sprite_buffer(n, mapper);
                }
            }
        }
    }
}

} // verus!
