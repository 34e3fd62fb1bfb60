//! Pixel muxing: which of background and sprites shows at a dot, and when
//! sprite 0 hits.

use vstd::prelude::*;
use crate::mappers::Mapper;
use crate::ppu::sprite::{SpriteBgPriority, SpriteBuffer, SpritePixel};
use crate::ppu::{BackgroundPixel, Ppu, PpuRegisters};
use crate::utils::{bit_mask, set_bit};

verus! {

/// The palette address of a sprite's pixel in column `screen_x`.
pub open spec fn sprite_color_addr(b: SpriteBuffer, screen_x: int) -> u16 {
    0x3F10 | ((b.palette as u16) << 2) | (b.pixel_value(screen_x) as u16)
}

impl Ppu {
    /// The screen column of the dot that is due.
    pub open spec fn screen_x(self) -> int {
        self.scanline_cycle - 1
    }

    /// Whether buffer `i` has a pixel that is not transparent in column
    /// `screen_x`.
    pub open spec fn sprite_shows(self, i: int, screen_x: int) -> bool {
        let b = self.sprite_render_state.sprite_buffers[i];
        b.covers(screen_x) && b.pixel_value(screen_x) != 0
    }

    /// The lowest buffer from `from` on that shows in column `screen_x`;
    /// 8 where none does.
    pub open spec fn first_opaque_sprite(self, screen_x: int, from: int) -> int
        decreases 8 - from,
    {
        if from >= 8 {
            8
        } else if self.sprite_shows(from, screen_x) {
            from
        } else {
            self.first_opaque_sprite(screen_x, from + 1)
        }
    }

    /// The buffer whose sprite is a candidate for the dot that is due; 8
    /// where there is none or sprites are switched off.
    pub open spec fn chosen_sprite(self) -> int {
        if self.reg.ppu_mask.render_sprites {
            self.first_opaque_sprite(self.screen_x(), 0)
        } else {
            8
        }
    }

    /// The pattern value of the background at the dot that is due; 0
    /// where the background is switched off.
    pub open spec fn shown_background_pattern(self) -> u8 {
        if self.reg.ppu_mask.render_bg {
            self.background_pattern()
        } else {
            0
        }
    }

    /// Whether the sprite shows at the dot that is due: there is a
    /// candidate, and it is in front or the background is transparent.
    pub open spec fn sprite_wins(self) -> bool {
        let s = self.chosen_sprite();
        s < 8 && (self.sprite_render_state.sprite_buffers[s].priority
            == SpriteBgPriority::InFrontOfBackground || self.shown_background_pattern() == 0)
    }

    /// The palette address of the pixel of the dot that is due.
    pub open spec fn pixel_color_addr(self) -> u16 {
        if self.sprite_wins() {
            sprite_color_addr(
                self.sprite_render_state.sprite_buffers[self.chosen_sprite()],
                self.screen_x(),
            )
        } else if self.reg.ppu_mask.render_bg {
            self.background_color_addr()
        } else {
            0x3F00
        }
    }

    /// The colour of the pixel of the dot that is due.
    pub open spec fn pixel_color<M: Mapper>(self, m: M::V) -> u8 {
        M::ppu_read_spec(m, self.pixel_color_addr())
    }

    /// Whether the columns of the dot that is due are hidden for the
    /// background or for sprites by the clipping of the left eight pixels.
    pub open spec fn left_clipped(self) -> bool {
        self.screen_x() < 8 && !(self.reg.ppu_mask.show_bg_leftmost_8px
            && self.reg.ppu_mask.show_sprites_leftmost_8px)
    }

    /// Whether sprite 0 hits at the dot that is due: its pixel and the
    /// background's are both not transparent, the dot is not 255, and the
    /// clipping of the left columns does not hide them.
    pub open spec fn sprite_zero_hits(self) -> bool {
        let s = self.chosen_sprite();
        &&& s < 8
        &&& self.sprite_render_state.sprite_buffers[s].is_sprite_0
        &&& self.shown_background_pattern() != 0
        &&& self.scanline_cycle != 255
        &&& !self.left_clipped()
    }

    /// The unit after the pixel of the dot that is due was made.
    pub open spec fn after_render(self) -> Ppu {
        if self.sprite_zero_hits() {
            Ppu {
                reg: PpuRegisters { ppu_status: self.reg.ppu_status | bit_mask(6), ..self.reg },
                ..self
            }
        } else {
            self
        }
    }

    /// Looks through the eight buffers for the first sprite that shows in
    /// column `screen_x`.
    #[verifier::rlimit(40)]
    pub fn find_sprite_pixel<M: Mapper>(&self, screen_x: u8, mapper: &M) -> (r: Option<SpritePixel>)
        requires
            M::wf(mapper@),
        ensures
            r is None <==> self.first_opaque_sprite(screen_x as int, 0) == 8,
            r is Some ==> {
                let s = self.first_opaque_sprite(screen_x as int, 0);
                let b = self.sprite_render_state.sprite_buffers[s];
                &&& 0 <= s < 8
                &&& r->Some_0.palette_value == b.pixel_value(screen_x as int)
                &&& r->Some_0.palette_value != 0
                &&& r->Some_0.color_index == M::ppu_read_spec(
                    mapper@,
                    sprite_color_addr(b, screen_x as int),
                )
                &&& r->Some_0.priority == b.priority
                &&& r->Some_0.sprite_0 == b.is_sprite_0
            },
    {
        let mut i: usize = 0;
        while i < 8
            invariant
                i <= 8,
                M::wf(mapper@),
                self.first_opaque_sprite(screen_x as int, 0) == self.first_opaque_sprite(
                    screen_x as int,
                    i as int,
                ),
            decreases 8 - i,
        {
            let sprite: SpriteBuffer = self.sprite_render_state.sprite_buffers[i];
            let left: u8 = sprite.x_position();
            if screen_x >= left && screen_x - left <= 7 {
                let palette_value: u8 = sprite.get_palette_value(screen_x);
                if palette_value > 0 {
                    let color_addr: u16 = 0x3F10 | ((sprite.palette() as u16) << 2) | (
                    palette_value as u16);
                    let color_index: u8 = mapper.ppu_read(color_addr);
                    return Some(
                        SpritePixel {
                            palette_value,
                            color_index,
                            priority: sprite.priority(),
                            sprite_0: sprite.is_sprite_0(),
                        },
                    );
                }
            }
            i = i + 1;
        }
        None
    }

    /// Makes the pixel of the dot that is due and returns its colour.
    #[verifier::rlimit(40)]
    pub fn render_pixel<M: Mapper>(&mut self, mapper: &M) -> (r: u8)
        requires
            old(self).bounded(),
            1 <= old(self).scanline_cycle <= 256,
            M::wf(mapper@),
        ensures
            *final(self) == old(self).after_render(),
            r == old(self).pixel_color::<M>(mapper@),
    {
        let screen_x: u8 = (self.scanline_cycle - 1) as u8;
        let bg_pixel: Option<BackgroundPixel> = if self.reg.ppu_mask.render_bg {
            Some(self.get_bg_color_index(mapper))
        } else {
            None
        };
        let sprite_pixel: Option<SpritePixel> = if self.reg.ppu_mask.render_sprites {
            self.find_sprite_pixel(screen_x, mapper)
        } else {
            None
        };
        match (bg_pixel, sprite_pixel) {
            // The background is off and no sprite is here.
            (None, None) => mapper.ppu_read(0x3F00),
            (None, Some(spixel)) => spixel.color_index,
            (Some(bgpixel), None) => bgpixel.color_index,
            (Some(bgpixel), Some(spixel)) => {
                let clipped: bool = screen_x < 8 && !(self.reg.ppu_mask.show_bg_leftmost_8px
                    && self.reg.ppu_mask.show_sprites_leftmost_8px);
                if spixel.sprite_0 && bgpixel.palette_value > 0 && self.scanline_cycle != 255
                    && !clipped {
                    // Sprite 0 hit
                    set_bit(6, &mut self.reg.ppu_status);
                }
                match spixel.priority {
                    SpriteBgPriority::InFrontOfBackground => spixel.color_index,
                    SpriteBgPriority::BehindBackground => {
                        if bgpixel.palette_value > 0 {
                            bgpixel.color_index
                        } else {
                            spixel.color_index
                        }
                    },
                }
            },
        }
    }
}

} // verus!
