//! The timeline of the picture unit: 262 scanlines of 341 dots, and what
//! each dot does.

use vstd::prelude::*;
use crate::mappers::Mapper;
use crate::ppu::{Ppu, PpuBgFetchState, PpuBgRenderState, PpuCycleResult, PpuRegisters};
use crate::utils::{bit_mask, clear_bit, set_bit};

verus! {

/// The step that follows step `k` of a tile's eight is step `k + 1`, and
/// after the last comes the first of the next tile.
pub proof fn lemma_fetch_ring(k: int)
    requires
        0 <= k < 8,
    ensures
        PpuBgFetchState::at_offset(k).following() == PpuBgFetchState::at_offset((k + 1) % 8),
{
}

impl Ppu {
    /// The unit with the given fetch step due.
    pub open spec fn with_fetch_state(self, state: PpuBgFetchState) -> Ppu {
        Ppu { bg_render_state: PpuBgRenderState { fetch_state: state, ..self.bg_render_state }, ..self }
    }

    /// The unit with the given status.
    pub open spec fn with_status(self, status: u8) -> Ppu {
        Ppu { reg: PpuRegisters { ppu_status: status, ..self.reg }, ..self }
    }

    /// The unit after the dot counter moved on. After dot 340 comes dot 0
    /// of the next scanline, after scanline 261 comes scanline 0 of the
    /// next frame. A frame with an odd number starts on dot 1 where
    /// rendering is switched on.
    pub open spec fn with_next_cycle(self) -> Ppu {
        if self.scanline_cycle < 340 {
            Ppu { scanline_cycle: (self.scanline_cycle + 1) as u16, ..self }
        } else if self.scanline < 261 {
            Ppu { scanline_cycle: 0, scanline: (self.scanline + 1) as u16, ..self }
        } else {
            let frame = (self.frame + 1) as u64;
            Ppu {
                scanline_cycle: if frame % 2 == 1 && self.is_rendering() { 1 } else { 0 },
                scanline: 0,
                frame,
                ..self
            }
        }
    }

    /// The unit after one dot of background fetching, on dots 1 to 256
    /// and 321 to 336: the shift registers move, the step that is due is
    /// done, and on every eighth dot the registers take the tile that was
    /// fetched and coarse X moves on. Dot 256 moves fine Y on.
    pub open spec fn with_fetch_dot<M: Mapper>(self, m: M::V) -> Ppu {
        let c = self.scanline_cycle;
        let started = if c == 1 || c == 321 {
            self.with_fetch_state(PpuBgFetchState::NametableAddr)
        } else {
            self
        };
        let fetched = started.with_registers_shifted().after_bg_fetch::<M>(m);
        let loaded = if c % 8 == 0 {
            fetched.with_registers_loaded().with_coarse_x_incremented()
        } else {
            fetched
        };
        let stepped = loaded.with_fetch_state(loaded.bg_render_state.fetch_state.following());
        if c == 256 {
            stepped.with_fine_y_incremented()
        } else {
            stepped
        }
    }

    /// The unit after a dot of a visible scanline, and what the dot
    /// amounted to.
    pub open spec fn after_visible_dot<M: Mapper>(self, m: M::V) -> (Ppu, PpuCycleResult) {
        let c = self.scanline_cycle;
        let hblank = PpuCycleResult::HBlank { scanline: self.scanline, cycle: c };
        if c == 0 {
            (self, PpuCycleResult::Idle)
        } else if c <= 256 {
            (
                self.after_render().with_fetch_dot::<M>(m),
                PpuCycleResult::Pixel {
                    scanline: self.scanline,
                    x: (c - 1) as u16,
                    color: self.pixel_color::<M>(m),
                },
            )
        } else if c == 257 {
            (self.with_horizontal_reset().with_fetch_state(PpuBgFetchState::Idle), hblank)
        } else if c <= 320 {
            (self.with_fetch_state(PpuBgFetchState::Idle), hblank)
        } else if c <= 336 {
            (self.with_fetch_dot::<M>(m), hblank)
        } else {
            (self, hblank)
        }
    }

    /// The status after the three flags were taken down.
    pub open spec fn cleared_status(self) -> u8 {
        ((self.reg.ppu_status & !bit_mask(7)) & !bit_mask(6)) & !bit_mask(5)
    }

    /// The unit after a dot of the scanline before the picture. Dot 1
    /// takes the three status flags down; the background is fetched as on
    /// a visible scanline; dot 257 takes the horizontal bits of v from t
    /// and dots 280 to 304 the vertical ones.
    pub open spec fn after_pre_render_dot<M: Mapper>(self, m: M::V) -> Ppu {
        let c = self.scanline_cycle;
        if c == 0 {
            self
        } else if c == 1 {
            self.with_status(self.cleared_status()).with_fetch_dot::<M>(m)
        } else if c <= 256 {
            self.with_fetch_dot::<M>(m)
        } else if c == 257 {
            self.with_horizontal_reset()
        } else if 280 <= c <= 304 {
            self.with_vertical_reset()
        } else if 321 <= c <= 336 {
            self.with_fetch_dot::<M>(m)
        } else {
            self
        }
    }

    /// The unit after the work of the scanline that the dot belongs to,
    /// and what the dot amounted to.
    #[verifier::opaque]
    pub open spec fn after_line_work<M: Mapper>(self, m: M::V) -> (Ppu, PpuCycleResult) {
        if self.scanline <= 239 {
            self.after_visible_dot::<M>(m)
        } else if self.scanline == 240 {
            (self, PpuCycleResult::PostRenderLine)
        } else if self.scanline == 241 && self.scanline_cycle == 1 {
            (
                self.with_status(self.reg.ppu_status | bit_mask(7)),
                PpuCycleResult::VBlankLine {
                    trigger_nmi: self.reg.ppu_ctrl.generate_nmi,
                    scanline: self.scanline,
                },
            )
        } else if self.scanline <= 260 {
            (self, PpuCycleResult::VBlankLine { trigger_nmi: false, scanline: self.scanline })
        } else {
            (
                self.after_pre_render_dot::<M>(m),
                PpuCycleResult::PreRenderLine { scanline_cycle: self.scanline_cycle },
            )
        }
    }

    /// The unit after one dot, and what the dot amounted to: the dot is
    /// counted, the sprite work and the work of the scanline are done, and
    /// the dot counter moves on.
    #[verifier::opaque]
    pub open spec fn after_cycle<M: Mapper>(self, m: M::V) -> (Ppu, PpuCycleResult) {
        let counted = Ppu { total_cycle_count: (self.total_cycle_count + 1) as u64, ..self };
        let worked = counted.after_sprite_evaluation::<M>(m).after_line_work::<M>(m);
        (worked.0.with_next_cycle(), worked.1)
    }

    /// The unit after `n` dots.
    pub open spec fn ran_dots<M: Mapper>(self, m: M::V, n: nat) -> Ppu
        decreases n,
    {
        if n == 0 {
            self
        } else {
            self.ran_dots::<M>(m, (n - 1) as nat).after_cycle::<M>(m).0
        }
    }

    /// Moves the dot counter on.
    pub fn set_next_cycle(&mut self)
        requires
            old(self).scanline <= 261,
            old(self).scanline_cycle <= 340,
            old(self).frame < u64::MAX,
        ensures
            *final(self) == old(self).with_next_cycle(),
            final(self).scanline <= 261,
            final(self).scanline_cycle <= 340,
    {
        self.scanline_cycle = self.scanline_cycle + 1;
        if self.scanline_cycle > 340 {
            self.scanline_cycle = 0;
            self.scanline = self.scanline + 1;
            if self.scanline > 261 {
                self.scanline = 0;
                self.frame = self.frame + 1;
                // On odd frames the idle dot of scanline 0 is skipped,
                // but only when rendering is enabled.
                if self.frame % 2 == 1 {
                    if self.rendering_enabled() {
                        self.scanline_cycle = 1;
                    }
                }
            }
        }
    }

    pub fn clear_ppu_status_flags(&mut self)
        ensures
            *final(self) == old(self).with_status(old(self).cleared_status()),
    {
        clear_bit(7, &mut self.reg.ppu_status);
        clear_bit(6, &mut self.reg.ppu_status);
        clear_bit(5, &mut self.reg.ppu_status);
    }

    pub fn set_vblank_flag(&mut self)
        ensures
            *final(self) == old(self).with_status(old(self).reg.ppu_status | bit_mask(7)),
    {
        set_bit(7, &mut self.reg.ppu_status);
    }

    /// Does one dot of background fetching.
    #[verifier::rlimit(40)]
    pub fn fetch_dot<M: Mapper>(&mut self, mapper: &M)
        requires
            old(self).inv(),
            1 <= old(self).scanline_cycle <= 256 || 321 <= old(self).scanline_cycle <= 336,
            old(self).scanline <= 239 || old(self).scanline == 261,
            M::wf(mapper@),
        ensures
            final(self).bounded(),
            *final(self) == old(self).with_fetch_dot::<M>(mapper@),
            final(self).scanline == old(self).scanline,
            final(self).scanline_cycle == old(self).scanline_cycle,
            final(self).frame == old(self).frame,
            final(self).total_cycle_count == old(self).total_cycle_count,
            final(self).bg_render_state.fetch_state == PpuBgFetchState::at_offset(
                if old(self).scanline_cycle <= 256 {
                    old(self).scanline_cycle as int % 8
                } else {
                    (old(self).scanline_cycle - 320) % 8
                },
            ),
    {
        let c: u16 = self.scanline_cycle;
        if c == 1 || c == 321 {
            self.bg_render_state.fetch_state = PpuBgFetchState::NametableAddr;
        }
        proof {
            if c <= 256 {
                lemma_fetch_ring((c - 1) % 8);
            } else {
                lemma_fetch_ring((c - 321) % 8);
            }
        }
        self.shift_bg_shift_registers();
        self.do_bg_fetches(mapper);
        if c % 8 == 0 {
            self.update_bg_shift_registers();
            self.update_coarse_x();
        }
        self.bg_render_state.fetch_state.next();
        if c == 256 {
            self.update_fine_y();
        }
    }

    /// Does the work of a dot of a visible scanline.
    #[verifier::rlimit(40)]
    pub fn visible_dot<M: Mapper>(&mut self, mapper: &M) -> (result: PpuCycleResult)
        requires
            old(self).inv(),
            old(self).scanline <= 239,
            M::wf(mapper@),
        ensures
            final(self).bounded(),
            *final(self) == old(self).after_visible_dot::<M>(mapper@).0,
            result == old(self).after_visible_dot::<M>(mapper@).1,
            final(self).scanline == old(self).scanline,
            final(self).scanline_cycle == old(self).scanline_cycle,
            final(self).frame == old(self).frame,
            final(self).total_cycle_count == old(self).total_cycle_count,
            1 <= old(self).scanline_cycle <= 255 ==> final(self).bg_render_state.fetch_state
                == PpuBgFetchState::at_offset(old(self).scanline_cycle as int % 8),
            321 <= old(self).scanline_cycle <= 335 ==> final(self).bg_render_state.fetch_state
                == PpuBgFetchState::at_offset((old(self).scanline_cycle - 320) % 8),
    {
        let c: u16 = self.scanline_cycle;
        if c == 0 {
            PpuCycleResult::Idle
        } else if c <= 256 {
            let color_index: u8 = self.render_pixel(mapper);
            self.fetch_dot(mapper);
            // Dot 0 is idle, so dot 1 makes the pixel of column 0.
            PpuCycleResult::Pixel { scanline: self.scanline, x: c - 1, color: color_index }
        } else if c == 257 {
            self.reset_horizontal_position_in_v();
            self.bg_render_state.fetch_state = PpuBgFetchState::Idle;
            PpuCycleResult::HBlank { scanline: self.scanline, cycle: c }
        } else if c <= 320 {
            self.bg_render_state.fetch_state = PpuBgFetchState::Idle;
            PpuCycleResult::HBlank { scanline: self.scanline, cycle: c }
        } else if c <= 336 {
            self.fetch_dot(mapper);
            PpuCycleResult::HBlank { scanline: self.scanline, cycle: c }
        } else {
            PpuCycleResult::HBlank { scanline: self.scanline, cycle: c }
        }
    }

    /// Does the work of a dot of the scanline before the picture.
    #[verifier::rlimit(40)]
    pub fn pre_render_dot<M: Mapper>(&mut self, mapper: &M)
        requires
            old(self).inv(),
            old(self).scanline == 261,
            M::wf(mapper@),
        ensures
            final(self).bounded(),
            *final(self) == old(self).after_pre_render_dot::<M>(mapper@),
            final(self).scanline == old(self).scanline,
            final(self).scanline_cycle == old(self).scanline_cycle,
            final(self).frame == old(self).frame,
            final(self).total_cycle_count == old(self).total_cycle_count,
            1 <= old(self).scanline_cycle <= 255 ==> final(self).bg_render_state.fetch_state
                == PpuBgFetchState::at_offset(old(self).scanline_cycle as int % 8),
            321 <= old(self).scanline_cycle <= 335 ==> final(self).bg_render_state.fetch_state
                == PpuBgFetchState::at_offset((old(self).scanline_cycle - 320) % 8),
    {
        let c: u16 = self.scanline_cycle;
        if c == 0 {
        } else if c == 1 {
            self.clear_ppu_status_flags();
            self.fetch_dot(mapper);
        } else if c <= 256 {
            self.fetch_dot(mapper);
        } else if c == 257 {
            self.reset_horizontal_position_in_v();
        } else if c >= 280 && c <= 304 {
            self.reset_vertical_position_in_v();
        } else if c >= 321 && c <= 336 {
            self.fetch_dot(mapper);
        }
    }

    /// Does the work of the scanline that the dot belongs to.
    #[verifier::rlimit(40)]
    pub fn line_work<M: Mapper>(&mut self, mapper: &M) -> (result: PpuCycleResult)
        requires
            old(self).inv(),
            M::wf(mapper@),
        ensures
            final(self).bounded(),
            *final(self) == old(self).after_line_work::<M>(mapper@).0,
            result == old(self).after_line_work::<M>(mapper@).1,
            final(self).scanline == old(self).scanline,
            final(self).scanline_cycle == old(self).scanline_cycle,
            final(self).frame == old(self).frame,
            final(self).total_cycle_count == old(self).total_cycle_count,
            (old(self).scanline <= 239 || old(self).scanline == 261) && 1 <= old(
                self,
            ).scanline_cycle <= 255 ==> final(self).bg_render_state.fetch_state
                == PpuBgFetchState::at_offset(old(self).scanline_cycle as int % 8),
            (old(self).scanline <= 239 || old(self).scanline == 261) && 321 <= old(
                self,
            ).scanline_cycle <= 335 ==> final(self).bg_render_state.fetch_state
                == PpuBgFetchState::at_offset((old(self).scanline_cycle - 320) % 8),
    {
        reveal(Ppu::after_line_work);
        if self.scanline <= 239 {
            self.visible_dot(mapper)
        } else if self.scanline == 240 {
            PpuCycleResult::PostRenderLine
        } else if self.scanline == 241 {
            if self.scanline_cycle == 1 {
                self.set_vblank_flag();
                let do_nmi: bool = self.reg.ppu_ctrl.generate_nmi;
                PpuCycleResult::VBlankLine { trigger_nmi: do_nmi, scanline: self.scanline }
            } else {
                PpuCycleResult::VBlankLine { trigger_nmi: false, scanline: self.scanline }
            }
        } else if self.scanline <= 260 {
            PpuCycleResult::VBlankLine { trigger_nmi: false, scanline: self.scanline }
        } else {
            self.pre_render_dot(mapper);
            PpuCycleResult::PreRenderLine { scanline_cycle: self.scanline_cycle }
        }
    }

    /// Runs the unit for one dot.
    #[verifier::rlimit(40)]
    pub fn cycle<M: Mapper>(&mut self, mapper: &M) -> (result: PpuCycleResult)
        requires
            old(self).inv(),
            old(self).has_room(),
            M::wf(mapper@),
        ensures
            final(self).inv(),
            *final(self) == old(self).after_cycle::<M>(mapper@).0,
            result == old(self).after_cycle::<M>(mapper@).1,
            final(self).total_cycle_count == old(self).total_cycle_count + 1,
            old(self).frame <= final(self).frame <= old(self).frame + 1,
    {
        reveal(Ppu::after_cycle);
        self.total_cycle_count = self.total_cycle_count + 1;
        self.do_sprite_evaluation(mapper);
        let result: PpuCycleResult = self.line_work(mapper);
        self.set_next_cycle();
        result
    }
}

/// The position of the unit on its timeline after `n` moves of the dot
/// counter, with rendering switched on or off throughout.
pub open spec fn moved_on(p: Ppu, n: nat) -> Ppu
    decreases n,
{
    if n == 0 {
        p
    } else {
        moved_on(p, (n - 1) as nat).with_next_cycle()
    }
}

/// Within a scanline, `n` moves of the dot counter lead `n` dots on.
pub proof fn lemma_moved_within_line(p: Ppu, n: nat)
    requires
        p.scanline_cycle + n <= 340,
    ensures
        moved_on(p, n) == (Ppu { scanline_cycle: (p.scanline_cycle + n) as u16, ..p }),
    decreases n,
{
    if n > 0 {
        lemma_moved_within_line(p, (n - 1) as nat);
    }
}

/// The scanline before the picture, which an even frame ends with, leads
/// to dot 1 of scanline 0 of the odd frame after it in 341 moves where
/// rendering is switched on, and in 342 where it is off: the odd frame
/// lacks its dot 0 exactly where rendering is on.
pub proof fn lemma_odd_frame_skip(p: Ppu)
    requires
        p.scanline == 261,
        p.scanline_cycle == 0,
        p.frame % 2 == 0,
        p.frame < u64::MAX,
    ensures
        p.is_rendering() ==> moved_on(p, 341) == (Ppu {
            scanline: 0,
            scanline_cycle: 1,
            frame: (p.frame + 1) as u64,
            ..p
        }),
        !p.is_rendering() ==> moved_on(p, 342) == (Ppu {
            scanline: 0,
            scanline_cycle: 1,
            frame: (p.frame + 1) as u64,
            ..p
        }),
        !p.is_rendering() ==> moved_on(p, 341) == (Ppu {
            scanline: 0,
            scanline_cycle: 0,
            frame: (p.frame + 1) as u64,
            ..p
        }),
{
    lemma_moved_within_line(p, 340);
}

/// Moves of the dot counter add up.
pub proof fn lemma_moved_on_adds(p: Ppu, a: nat, b: nat)
    ensures
        moved_on(p, a + b) == moved_on(moved_on(p, a), b),
    decreases b,
{
    if b > 0 {
        lemma_moved_on_adds(p, a, (b - 1) as nat);
    }
}

/// From dot 0 of a scanline, `k` scanlines on is 341 times `k` moves on,
/// as long as the frame lasts.
pub proof fn lemma_moved_lines(p: Ppu, k: nat)
    requires
        p.scanline_cycle == 0,
        p.scanline + k <= 261,
    ensures
        moved_on(p, 341 * k) == (Ppu { scanline: (p.scanline + k) as u16, ..p }),
    decreases k,
{
    if k > 0 {
        lemma_moved_lines(p, (k - 1) as nat);
        let q = Ppu { scanline: (p.scanline + k - 1) as u16, ..p };
        lemma_moved_within_line(q, 340);
        assert(moved_on(q, 341) == moved_on(q, 340).with_next_cycle());
        lemma_moved_on_adds(p, (341 * (k - 1)) as nat, 341);
    }
}

/// The place where the frame after frame `frame` starts: dot 1 of scanline
/// 0 where that frame has an odd number and rendering is switched on, else
/// dot 0.
pub open spec fn next_frame_start(p: Ppu) -> Ppu {
    Ppu {
        scanline: 0,
        scanline_cycle: if (p.frame + 1) % 2 == 1 && p.is_rendering() { 1 } else { 0 },
        frame: (p.frame + 1) as u64,
        ..p
    }
}

/// A frame is 262 scanlines of 341 dots: 89342 dots from its dot 0 to the
/// start of the next frame. A frame that started on dot 1, as an odd frame
/// does where rendering is switched on, is one dot shorter.
pub proof fn lemma_frame_length(p: Ppu)
    requires
        p.scanline == 0,
        p.scanline_cycle <= 1,
        p.frame < u64::MAX,
    ensures
        p.scanline_cycle == 0 ==> moved_on(p, 89342) == next_frame_start(p),
        p.scanline_cycle == 1 ==> moved_on(p, 89341) == next_frame_start(p),
{
    let line1 = Ppu { scanline: 1, scanline_cycle: 0, ..p };
    let last = Ppu { scanline: 261, scanline_cycle: 0, ..p };
    lemma_moved_within_line(last, 340);
    assert(moved_on(last, 341) == moved_on(last, 340).with_next_cycle());
    if p.scanline_cycle == 0 {
        lemma_moved_lines(p, 261);
        lemma_moved_on_adds(p, 341 * 261, 341);
    } else {
        lemma_moved_within_line(p, 339);
        assert(moved_on(p, 340) == moved_on(p, 339).with_next_cycle());
        lemma_moved_lines(line1, 260);
        lemma_moved_on_adds(p, 340, 341 * 260);
        lemma_moved_on_adds(p, 340 + 341 * 260, 341);
    }
}

/// The dot counter of a running unit moves as `with_next_cycle` says,
/// whatever else a dot does; the dot leaves the mask register alone, and
/// it is counted once.
#[verifier::rlimit(40)]
pub proof fn lemma_cycle_moves_counter<M: Mapper>(p: Ppu, m: M::V)
    requires
        p.inv(),
        p.has_room(),
    ensures
        p.after_cycle::<M>(m).0.scanline == p.with_next_cycle().scanline,
        p.after_cycle::<M>(m).0.scanline_cycle == p.with_next_cycle().scanline_cycle,
        p.after_cycle::<M>(m).0.frame == p.with_next_cycle().frame,
        p.after_cycle::<M>(m).0.reg.ppu_mask == p.reg.ppu_mask,
        p.after_cycle::<M>(m).0.total_cycle_count == p.total_cycle_count + 1,
{
    reveal(Ppu::after_cycle);
    reveal(Ppu::after_line_work);
    reveal(Ppu::after_sprite_evaluation);
}

} // verus!
