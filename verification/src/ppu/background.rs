//! The background pipeline: the eight-dot fetch of a tile, the shift
//! registers that hold sixteen pixels, and the movement of v over the
//! nametables.

use vstd::prelude::*;
use crate::mappers::Mapper;
use crate::ppu::{
    BackgroundPixel, Ppu, PpuBgFetchState, PpuBgRenderState, PpuRegisters, ShiftRegister16Bit,
};
use crate::utils::{
    bit_is_set, bit_is_set_u16, bit_mask_u16, bit_set, merged, set_bits_from_mask_u16,
};

verus! {

/// The address of the nametable byte that v points at.
pub open spec fn tile_address(v: u16) -> u16 {
    0x2000 | (v & 0x0FFF)
}

/// The address of the attribute byte of the tile that v points at.
pub open spec fn attribute_address(v: u16) -> u16 {
    0x23C0 | (v & 0x0C00) | ((v >> 4) & 0x38) | ((v >> 2) & 0x07)
}

/// The address of a bit plane of one row of a background tile.
///
/// ```text
/// DCBA98 76543210
/// 0HNNNN NNNNPyyy
/// |||||| |||||+++- row within the tile
/// |||||| ||||+---- bit plane
/// ||++++-++++----- tile number
/// |+-------------- half of the pattern table
/// ```
pub open spec fn pattern_address(table: u16, tile: u8, row: u8) -> u16 {
    table | ((tile as u16) << 4) | (row as u16)
}

/// Which quarter of its attribute byte's area the tile at v lies in:
/// bit 1 from bit 1 of coarse Y, bit 0 from bit 1 of coarse X.
pub open spec fn quadrant(v: u16) -> int {
    (if v & bit_mask_u16(6) != 0 { 2int } else { 0int }) + (if v & bit_mask_u16(1) != 0 {
        1int
    } else {
        0int
    })
}

/// `v` after coarse X went up by one; after column 31 it is 0 and the
/// horizontal nametable has changed.
pub open spec fn coarse_x_incremented(v: u16) -> u16 {
    if (v & 0x001F) == 31 {
        (v & !0x001Fu16) ^ 0x0400
    } else {
        (v + 1) as u16
    }
}

/// `v` after fine Y went up by one. After row 7 it is 0 and coarse Y goes
/// up: after 29 to 0 with a change of the vertical nametable, after 31 to
/// 0 without.
pub open spec fn fine_y_incremented(v: u16) -> u16 {
    if (v & 0x7000) != 0x7000 {
        (v + 0x1000) as u16
    } else {
        let cleared = v & !0x7000u16;
        let y = (cleared & 0x03E0) >> 5;
        if y == 29 {
            (cleared ^ 0x0800) & !0x03E0u16
        } else if y == 31 {
            cleared & !0x03E0u16
        } else {
            (cleared & !0x03E0u16) | (((y + 1) as u16) << 5)
        }
    }
}

/// Bit `15 - fine_x` of a shift register: the bit of the pixel that is
/// drawn now.
pub open spec fn selected_bit(contents: u16, fine_x: u8) -> u8 {
    ((contents >> ((15 - fine_x) as u16)) & 1) as u8
}

/// Facts on the 15 bits of v that its movements keep.
pub proof fn lemma_v_moves(v: u16, t: u16)
    by (bit_vector)
    requires
        v <= 0x7FFF,
    ensures
        (v & 0x001F) != 31 ==> v + 1 <= 0x7FFF,
        (v & !0x001Fu16) ^ 0x0400 <= 0x7FFF,
        (v & 0x7000) != 0x7000 ==> v + 0x1000 <= 0x7FFF,
        ((v & !0x7000u16) & 0x03E0) >> 5 <= 31,
        ((v & !0x7000u16) ^ 0x0800) & !0x03E0u16 <= 0x7FFF,
        (v & !0x7000u16) & !0x03E0u16 <= 0x7FFF,
        t <= 30 ==> ((v & !0x7000u16) & !0x03E0u16) | (((t + 1) as u16) << 5) <= 0x7FFF,
        t == 0 ==> (((v & !0x7000u16) ^ 0x0800) & !0x03E0u16) | (t << 5) == ((v & !0x7000u16)
            ^ 0x0800) & !0x03E0u16,
        t == 0 ==> ((v & !0x7000u16) & !0x03E0u16) | (t << 5) == (v & !0x7000u16) & !0x03E0u16,
{
}

impl Ppu {
    /// The unit after the fetch step that is due was done.
    pub open spec fn after_bg_fetch<M: Mapper>(self, m: M::V) -> Ppu {
        let bg = self.bg_render_state;
        let fetched = match bg.fetch_state {
            PpuBgFetchState::Idle => bg,
            PpuBgFetchState::NametableAddr => PpuBgRenderState {
                tile_addr: tile_address(self.reg.v),
                ..bg
            },
            PpuBgFetchState::NametableRead => PpuBgRenderState {
                tile_value: M::ppu_read_spec(m, bg.tile_addr),
                ..bg
            },
            PpuBgFetchState::AttrtableAddr => PpuBgRenderState {
                attribute_addr: attribute_address(self.reg.v),
                ..bg
            },
            PpuBgFetchState::AttrtableRead => PpuBgRenderState {
                attribute_data: M::ppu_read_spec(m, bg.attribute_addr),
                ..bg
            },
            PpuBgFetchState::BackgroundLSBAddr => PpuBgRenderState {
                bg_lsb_addr: pattern_address(
                    self.reg.ppu_ctrl.bg_pt_addr,
                    bg.tile_value,
                    self.fine_y(),
                ),
                ..bg
            },
            PpuBgFetchState::BackgroundLSBRead => PpuBgRenderState {
                bg_lsb: M::ppu_read_spec(m, bg.bg_lsb_addr),
                ..bg
            },
            PpuBgFetchState::BackgroundMSBAddr => PpuBgRenderState {
                bg_msb_addr: pattern_address(
                    self.reg.ppu_ctrl.bg_pt_addr,
                    bg.tile_value,
                    0x8 | self.fine_y(),
                ),
                ..bg
            },
            PpuBgFetchState::BackgroundMSBRead => PpuBgRenderState {
                bg_msb: M::ppu_read_spec(m, bg.bg_msb_addr),
                ..bg
            },
        };
        Ppu { bg_render_state: fetched, ..self }
    }

    /// The unit after its four shift registers moved on by one pixel.
    pub open spec fn with_registers_shifted(self) -> Ppu {
        let bg = self.bg_render_state;
        Ppu {
            bg_render_state: PpuBgRenderState {
                pattern_tile_lsb_register: ShiftRegister16Bit {
                    contents: bg.pattern_tile_lsb_register.contents << 1,
                },
                pattern_tile_msb_register: ShiftRegister16Bit {
                    contents: bg.pattern_tile_msb_register.contents << 1,
                },
                attribute_lsb_shift_register: ShiftRegister16Bit {
                    contents: bg.attribute_lsb_shift_register.contents << 1,
                },
                attribute_msb_shift_register: ShiftRegister16Bit {
                    contents: bg.attribute_msb_shift_register.contents << 1,
                },
                ..bg
            },
            ..self
        }
    }

    /// The unit after the attribute registers took, as eight equal bits
    /// each, the two bits `ybit` and `xbit` of the attribute byte.
    pub open spec fn with_attributes_filled(self, ybit: u8, xbit: u8) -> Ppu {
        let bg = self.bg_render_state;
        Ppu {
            bg_render_state: PpuBgRenderState {
                attribute_msb_shift_register: ShiftRegister16Bit {
                    contents: (bg.attribute_msb_shift_register.contents & 0xFF00) | (if bit_set(
                        ybit,
                        bg.attribute_data,
                    ) {
                        0xFFu8
                    } else {
                        0x00u8
                    }) as u16,
                },
                attribute_lsb_shift_register: ShiftRegister16Bit {
                    contents: (bg.attribute_lsb_shift_register.contents & 0xFF00) | (if bit_set(
                        xbit,
                        bg.attribute_data,
                    ) {
                        0xFFu8
                    } else {
                        0x00u8
                    }) as u16,
                },
                ..bg
            },
            ..self
        }
    }

    /// The unit after the lower bytes of the shift registers took the
    /// tile that was fetched: its two bit planes, and the palette bits of
    /// the quarter of the attribute byte that the tile lies in.
    pub open spec fn with_registers_loaded(self) -> Ppu {
        let bg = self.bg_render_state;
        let q = quadrant(self.reg.v);
        let planes = Ppu {
            bg_render_state: PpuBgRenderState {
                pattern_tile_lsb_register: ShiftRegister16Bit {
                    contents: (bg.pattern_tile_lsb_register.contents & 0xFF00) | (bg.bg_lsb as u16),
                },
                pattern_tile_msb_register: ShiftRegister16Bit {
                    contents: (bg.pattern_tile_msb_register.contents & 0xFF00) | (bg.bg_msb as u16),
                },
                ..bg
            },
            ..self
        };
        planes.with_attributes_filled((2 * q + 1) as u8, (2 * q) as u8)
    }

    /// The unit after coarse X moved on, where the background is on.
    pub open spec fn with_coarse_x_incremented(self) -> Ppu {
        if self.reg.ppu_mask.render_bg {
            Ppu { reg: PpuRegisters { v: coarse_x_incremented(self.reg.v), ..self.reg }, ..self }
        } else {
            self
        }
    }

    /// The unit after fine Y moved on, where the background is on.
    pub open spec fn with_fine_y_incremented(self) -> Ppu {
        if self.reg.ppu_mask.render_bg {
            Ppu { reg: PpuRegisters { v: fine_y_incremented(self.reg.v), ..self.reg }, ..self }
        } else {
            self
        }
    }

    /// The unit after the horizontal bits of v were taken from t, where
    /// the background is on.
    pub open spec fn with_horizontal_reset(self) -> Ppu {
        if self.reg.ppu_mask.render_bg {
            Ppu {
                reg: PpuRegisters { v: merged(self.reg.v, self.reg.t, 0x041F), ..self.reg },
                ..self
            }
        } else {
            self
        }
    }

    /// The unit after the vertical bits of v were taken from t, where the
    /// background is on.
    pub open spec fn with_vertical_reset(self) -> Ppu {
        if self.reg.ppu_mask.render_bg {
            Ppu {
                reg: PpuRegisters { v: merged(self.reg.v, self.reg.t, 0x7BE0), ..self.reg },
                ..self
            }
        } else {
            self
        }
    }

    /// The two-bit pattern value of the background pixel that is due.
    pub open spec fn background_pattern(self) -> u8 {
        let bg = self.bg_render_state;
        selected_bit(bg.pattern_tile_lsb_register.contents, self.reg.x) | (selected_bit(
            bg.pattern_tile_msb_register.contents,
            self.reg.x,
        ) << 1)
    }

    /// The two-bit palette number of the background pixel that is due.
    pub open spec fn background_attribute(self) -> u8 {
        let bg = self.bg_render_state;
        selected_bit(bg.attribute_lsb_shift_register.contents, self.reg.x) | (selected_bit(
            bg.attribute_msb_shift_register.contents,
            self.reg.x,
        ) << 1)
    }

    /// The palette address of the background pixel that is due: the
    /// backdrop where the pattern value is 0.
    pub open spec fn background_color_addr(self) -> u16 {
        if self.background_pattern() == 0 {
            0x3F00
        } else {
            0x3F00 | ((self.background_attribute() as u16) << 2) | (self.background_pattern() as u16)
        }
    }

    /// Does the fetch step that is due.
    #[verifier::rlimit(40)]
    pub fn do_bg_fetches<M: Mapper>(&mut self, mapper: &M)
        requires
            M::wf(mapper@),
        ensures
            *final(self) == old(self).after_bg_fetch::<M>(mapper@),
    {
        match self.bg_render_state.fetch_state {
            PpuBgFetchState::Idle => (),
            PpuBgFetchState::NametableAddr => {
                self.bg_render_state.tile_addr = 0x2000 | (self.reg.v & 0x0FFF);
            },
            PpuBgFetchState::NametableRead => {
                self.bg_render_state.tile_value = mapper.ppu_read(self.bg_render_state.tile_addr);
            },
            PpuBgFetchState::AttrtableAddr => {
                let v: u16 = self.reg.v;
                self.bg_render_state.attribute_addr = 0x23C0 | (v & 0x0C00) | ((v >> 4) & 0x38) | ((v
                    >> 2) & 0x07);
            },
            PpuBgFetchState::AttrtableRead => {
                self.bg_render_state.attribute_data = mapper.ppu_read(
                    self.bg_render_state.attribute_addr,
                );
            },
            PpuBgFetchState::BackgroundLSBAddr => {
                let fine_y: u8 = self.get_fine_y_scroll();
                self.bg_render_state.bg_lsb_addr = self.reg.ppu_ctrl.bg_pt_addr | ((
                self.bg_render_state.tile_value as u16) << 4) | (fine_y as u16);
            },
            PpuBgFetchState::BackgroundLSBRead => {
                self.bg_render_state.bg_lsb = mapper.ppu_read(self.bg_render_state.bg_lsb_addr);
            },
            PpuBgFetchState::BackgroundMSBAddr => {
                let fine_y: u8 = 0x8 | self.get_fine_y_scroll();
                self.bg_render_state.bg_msb_addr = self.reg.ppu_ctrl.bg_pt_addr | ((
                self.bg_render_state.tile_value as u16) << 4) | (fine_y as u16);
            },
            PpuBgFetchState::BackgroundMSBRead => {
                self.bg_render_state.bg_msb = mapper.ppu_read(self.bg_render_state.bg_msb_addr);
            },
        }
    }

    pub fn shift_bg_shift_registers(&mut self)
        ensures
            *final(self) == old(self).with_registers_shifted(),
    {
        self.bg_render_state.pattern_tile_lsb_register.shift();
        self.bg_render_state.pattern_tile_msb_register.shift();
        self.bg_render_state.attribute_lsb_shift_register.shift();
        self.bg_render_state.attribute_msb_shift_register.shift();
    }

    /// Loads the tile that was fetched into the lower bytes of the shift
    /// registers. It is due right after the high bit plane was read.
    #[verifier::rlimit(40)]
    pub fn update_bg_shift_registers(&mut self)
        requires
            old(self).bg_render_state.fetch_state == PpuBgFetchState::BackgroundMSBRead,
        ensures
            *final(self) == old(self).with_registers_loaded(),
    {
        self.bg_render_state.pattern_tile_lsb_register.push_byte(self.bg_render_state.bg_lsb);
        self.bg_render_state.pattern_tile_msb_register.push_byte(self.bg_render_state.bg_msb);
        let mut quadrant_selector: u8 = 0;
        // coarse Y bit 1
        if bit_is_set_u16(6, self.reg.v) {
            quadrant_selector = quadrant_selector + 2;
        }
        // coarse X bit 1
        if bit_is_set_u16(1, self.reg.v) {
            quadrant_selector = quadrant_selector + 1;
        }
        if quadrant_selector == 0 {
            self.fill_attribute_shift_registers(1, 0);
        } else if quadrant_selector == 1 {
            self.fill_attribute_shift_registers(3, 2);
        } else if quadrant_selector == 2 {
            self.fill_attribute_shift_registers(5, 4);
        } else {
            self.fill_attribute_shift_registers(7, 6);
        }
    }

    /// Fills the lower bytes of the attribute shift registers with all
    /// zeros or all ones, as bits `ybit` and `xbit` of the attribute byte
    /// say.
    pub fn fill_attribute_shift_registers(&mut self, ybit: u8, xbit: u8)
        requires
            ybit < 8,
            xbit < 8,
        ensures
            *final(self) == old(self).with_attributes_filled(ybit, xbit),
    {
        if bit_is_set(ybit, self.bg_render_state.attribute_data) {
            self.bg_render_state.attribute_msb_shift_register.push_byte(0xFF);
        } else {
            self.bg_render_state.attribute_msb_shift_register.push_byte(0x0);
        }
        if bit_is_set(xbit, self.bg_render_state.attribute_data) {
            self.bg_render_state.attribute_lsb_shift_register.push_byte(0xFF);
        } else {
            self.bg_render_state.attribute_lsb_shift_register.push_byte(0x0);
        }
    }

    pub fn update_coarse_x(&mut self)
        requires
            old(self).reg.v <= 0x7FFF,
        ensures
            *final(self) == old(self).with_coarse_x_incremented(),
            final(self).reg.v <= 0x7FFF,
    {
        proof {
            lemma_v_moves(self.reg.v, 0);
        }
        if self.reg.ppu_mask.render_bg {
            if (self.reg.v & 0x001F) == 31 {
                self.reg.v = self.reg.v & !0x001Fu16;
                self.reg.v = self.reg.v ^ 0x0400;
            } else {
                self.reg.v = self.reg.v + 1;
            }
        }
    }

    #[verifier::rlimit(40)]
    pub fn update_fine_y(&mut self)
        requires
            old(self).reg.v <= 0x7FFF,
        ensures
            *final(self) == old(self).with_fine_y_incremented(),
            final(self).reg.v <= 0x7FFF,
    {
        if self.reg.ppu_mask.render_bg {
            if (self.reg.v & 0x7000) != 0x7000 {
                proof {
                    lemma_v_moves(self.reg.v, 0);
                }
                self.reg.v = self.reg.v + 0x1000;
            } else {
                let ghost v0 = self.reg.v;
                self.reg.v = self.reg.v & !0x7000u16;
                let mut y: u16 = (self.reg.v & 0x03E0) >> 5;
                proof {
                    lemma_v_moves(v0, y);
                    lemma_v_moves(v0, 0);
                }
                if y == 29 {
                    y = 0;
                    self.reg.v = self.reg.v ^ 0x0800;
                } else if y == 31 {
                    y = 0;
                } else {
                    y = y + 1;
                }
                self.reg.v = (self.reg.v & !0x03E0u16) | (y << 5);
            }
        }
    }

    pub fn reset_horizontal_position_in_v(&mut self)
        requires
            old(self).reg.v <= 0x7FFF,
        ensures
            *final(self) == old(self).with_horizontal_reset(),
            final(self).reg.v <= 0x7FFF,
    {
        proof {
            crate::ppu::ports::lemma_port_masks(self.reg.v, self.reg.t, 0);
        }
        if self.reg.ppu_mask.render_bg {
            set_bits_from_mask_u16(self.reg.t, 0x041F, &mut self.reg.v);
        }
    }

    pub fn reset_vertical_position_in_v(&mut self)
        requires
            old(self).reg.v <= 0x7FFF,
        ensures
            *final(self) == old(self).with_vertical_reset(),
            final(self).reg.v <= 0x7FFF,
    {
        proof {
            crate::ppu::ports::lemma_port_masks(self.reg.v, self.reg.t, 0);
        }
        if self.reg.ppu_mask.render_bg {
            set_bits_from_mask_u16(self.reg.t, 0x7BE0, &mut self.reg.v);
        }
    }

    /// Bit `15 - fine_x` of a shift register.
    pub fn select_bit(contents: u16, fine_x: u8) -> (r: u8)
        requires
            fine_x <= 7,
        ensures
            r == selected_bit(contents, fine_x),
    {
        ((contents >> ((15 - fine_x) as u16)) & 1) as u8
    }

    /// The background pixel that is due: its pattern value and its colour.
    pub fn get_bg_color_index<M: Mapper>(&self, mapper: &M) -> (r: BackgroundPixel)
        requires
            self.reg.x <= 7,
            M::wf(mapper@),
        ensures
            r.palette_value == self.background_pattern(),
            r.color_index == M::ppu_read_spec(mapper@, self.background_color_addr()),
    {
        let bg_lsb_bit: u8 = Self::select_bit(
            self.bg_render_state.pattern_tile_lsb_register.contents,
            self.reg.x,
        );
        let bg_msb_bit: u8 = Self::select_bit(
            self.bg_render_state.pattern_tile_msb_register.contents,
            self.reg.x,
        );
        let at_lsb_bit: u8 = Self::select_bit(
            self.bg_render_state.attribute_lsb_shift_register.contents,
            self.reg.x,
        );
        let at_msb_bit: u8 = Self::select_bit(
            self.bg_render_state.attribute_msb_shift_register.contents,
            self.reg.x,
        );
        let pattern: u8 = bg_lsb_bit | (bg_msb_bit << 1);
        let attribute: u8 = at_lsb_bit | (at_msb_bit << 1);
        let color_addr: u16 = if pattern == 0 {
            // The backdrop shows where the pattern value is 0.
            0x3F00
        } else {
            0x3F00 | ((attribute as u16) << 2) | (pattern as u16)
        };
        BackgroundPixel { palette_value: pattern, color_index: mapper.ppu_read(color_addr) }
    }
}

} // verus!
