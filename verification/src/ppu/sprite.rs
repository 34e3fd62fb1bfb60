//! Sprites: the output buffers that hold the eight sprites of a scanline,
//! and the state of the evaluation that picks them.

use vstd::prelude::*;
use crate::mappers::Mapper;
use crate::ppu::constants::SECONDARY_OAM_SIZE;
use crate::utils::{bit_is_set, bit_set};

verus! {

#[derive(Debug, Clone, Copy, PartialEq, Eq, Structural)]
pub enum SpriteSize {
    Sprite8x8,
    Sprite8x16,
}

/// Sprite priority from byte 2 of an OAM entry: in front of the background
/// or behind it.
#[derive(Debug, Clone, Copy, PartialEq, Eq, Structural)]
pub enum SpriteBgPriority {
    InFrontOfBackground,
    BehindBackground,
}

/// What one sprite offers for one pixel.
#[derive(Debug, Clone, Copy)]
pub struct SpritePixel {
    /// The pattern value, 0 to 3; 0 is transparent.
    pub palette_value: u8,
    /// The colour of the pixel, as read from palette memory.
    pub color_index: u8,
    pub priority: SpriteBgPriority,
    pub sprite_0: bool,
}

/// The height of a sprite in scanlines.
pub open spec fn sprite_height(size: SpriteSize) -> int {
    match size {
        SpriteSize::Sprite8x8 => 8,
        SpriteSize::Sprite8x16 => 16,
    }
}

/// Whether a sprite with OAM byte `y` is fetched on `scanline`, that is,
/// whether it covers the scanline after it.
pub open spec fn sprite_in_range(scanline: u16, y: u8, size: SpriteSize) -> bool {
    y <= scanline && scanline < y + sprite_height(size)
}

/// The row of the sprite's bitmap that is fetched on `scanline`, counted
/// from the top of the bitmap as stored.
pub open spec fn sprite_row(scanline: u16, y: u8, size: SpriteSize, flip_vertically: bool) -> int {
    if flip_vertically {
        sprite_height(size) - 1 - (scanline - y)
    } else {
        scanline - y
    }
}

/// The address of the low bit plane of row `row` of a sprite's bitmap.
/// An 8x8 sprite takes tile `tile` of the table at `table_8x8`. An 8x16
/// sprite takes its table from bit 0 of `tile` and two consecutive tiles
/// from the even tile number on.
pub open spec fn sprite_pattern_addr(size: SpriteSize, table_8x8: u16, tile: u8, row: int) -> int {
    match size {
        SpriteSize::Sprite8x8 => table_8x8 + 16 * tile + row,
        SpriteSize::Sprite8x16 => 0x1000 * (tile as int % 2) + 16 * (tile - tile as int % 2 + row
            / 8) + row % 8,
    }
}

/// The two-bit pattern value that bit `bit` of the two planes gives.
pub open spec fn plane_value(lsb: u8, msb: u8, bit: u8) -> u8 {
    if bit_set(bit, msb) {
        if bit_set(bit, lsb) { 3u8 } else { 2u8 }
    } else {
        if bit_set(bit, lsb) { 1u8 } else { 0u8 }
    }
}

/// Computes `plane_value`.
pub fn get_plane_value(lsb: u8, msb: u8, bit: u8) -> (r: u8)
    requires
        bit < 8,
    ensures
        r == plane_value(lsb, msb, bit),
        r <= 3,
{
    let low: u8 = if bit_is_set(bit, lsb) { 1 } else { 0 };
    let high: u8 = if bit_is_set(bit, msb) { 2 } else { 0 };
    high + low
}

/// One of the eight sprites of the next scanline, ready for rendering.
/// The buffers are filled from secondary OAM during horizontal blanking.
#[derive(Debug, Clone, Copy)]
pub struct SpriteBuffer {
    /// X position of the left side of the sprite.
    pub x_position: u8,
    /// OAM byte 0 of the sprite: the scanline above its top.
    pub y_position: u8,
    /// Sprite palette to use in rendering, 0 to 3.
    pub palette: u8,
    /// Priority relative to the background.
    pub priority: SpriteBgPriority,
    /// True if this buffer holds sprite 0.
    pub is_sprite_0: bool,
    /// If true, the sprite is drawn flipped horizontally.
    pub flip_horizontally: bool,
    /// If true, the sprite is drawn flipped vertically.
    pub flip_vertically: bool,
    /// Low bit plane of the row to draw.
    pub pattern_tile_lsb: u8,
    /// High bit plane of the row to draw.
    pub pattern_tile_msb: u8,
}

impl Default for SpriteBuffer {
    fn default() -> (r: Self)
        ensures
            r == Self::blank(),
    {
        SpriteBuffer {
            x_position: 0,
            y_position: 0,
            palette: 0,
            priority: SpriteBgPriority::InFrontOfBackground,
            is_sprite_0: false,
            flip_horizontally: false,
            flip_vertically: false,
            pattern_tile_lsb: 0,
            pattern_tile_msb: 0,
        }
    }
}

impl SpriteBuffer {
    /// A buffer that draws nothing.
    pub open spec fn blank() -> SpriteBuffer {
        SpriteBuffer {
            x_position: 0,
            y_position: 0,
            palette: 0,
            priority: SpriteBgPriority::InFrontOfBackground,
            is_sprite_0: false,
            flip_horizontally: false,
            flip_vertically: false,
            pattern_tile_lsb: 0,
            pattern_tile_msb: 0,
        }
    }

    /// The buffer for an OAM entry (`y`, `tile`, `attributes`, `x`) that
    /// is fetched on `scanline`. Where the sprite does not cover the next
    /// scanline, as with an unused entry of secondary OAM, both bit planes
    /// are empty.
    pub open spec fn of_entry<M: Mapper>(
        y: u8,
        tile: u8,
        attributes: u8,
        x: u8,
        is_sprite_0: bool,
        pattern_table_addr_8x8: u16,
        sprite_size: SpriteSize,
        scanline: u16,
        m: M::V,
    ) -> SpriteBuffer {
        let flip_vertically = bit_set(7, attributes);
        let row = sprite_row(scanline, y, sprite_size, flip_vertically);
        let addr = sprite_pattern_addr(sprite_size, pattern_table_addr_8x8, tile, row);
        let fetched = sprite_in_range(scanline, y, sprite_size);
        SpriteBuffer {
            x_position: x,
            y_position: y,
            palette: attributes & 0x03,
            priority: if bit_set(5, attributes) {
                SpriteBgPriority::BehindBackground
            } else {
                SpriteBgPriority::InFrontOfBackground
            },
            is_sprite_0,
            flip_horizontally: bit_set(6, attributes),
            flip_vertically,
            pattern_tile_lsb: if fetched { M::ppu_read_spec(m, addr as u16) } else { 0 },
            pattern_tile_msb: if fetched { M::ppu_read_spec(m, (addr + 8) as u16) } else { 0 },
        }
    }

    /// Whether the sprite has a pixel in screen column `screen_x`.
    pub open spec fn covers(self, screen_x: int) -> bool {
        self.x_position <= screen_x < self.x_position + 8
    }

    /// The bit of the planes that holds the pixel of column `screen_x`:
    /// bit 7 is the leftmost pixel, unless the sprite is flipped.
    pub open spec fn plane_bit(self, screen_x: int) -> int {
        if self.flip_horizontally {
            screen_x - self.x_position
        } else {
            7 - (screen_x - self.x_position)
        }
    }

    /// The pattern value (0 to 3) of the sprite in column `screen_x`.
    pub open spec fn pixel_value(self, screen_x: int) -> u8 {
        plane_value(self.pattern_tile_lsb, self.pattern_tile_msb, self.plane_bit(screen_x) as u8)
    }

    /// Loads an OAM entry into the buffer and fetches its row of pixels.
    pub fn load<M: Mapper>(
        &mut self,
        y: u8,
        tile: u8,
        attributes: u8,
        x: u8,
        is_sprite_0: bool,
        pattern_table_addr_8x8: u16,
        sprite_size: SpriteSize,
        scanline: u16,
        mapper: &M,
    )
        requires
            M::wf(mapper@),
            pattern_table_addr_8x8 <= 0x1000,
            scanline <= 261,
        ensures
            *final(self) == Self::of_entry::<M>(
                y,
                tile,
                attributes,
                x,
                is_sprite_0,
                pattern_table_addr_8x8,
                sprite_size,
                scanline,
                mapper@,
            ),
    {
        self.x_position = x;
        self.y_position = y;
        self.palette = attributes & 0x03;
        self.priority = if bit_is_set(5, attributes) {
            SpriteBgPriority::BehindBackground
        } else {
            SpriteBgPriority::InFrontOfBackground
        };
        self.is_sprite_0 = is_sprite_0;
        self.flip_horizontally = bit_is_set(6, attributes);
        self.flip_vertically = bit_is_set(7, attributes);
        self.set_pattern_lsb_msb(sprite_size, scanline, y, pattern_table_addr_8x8, tile, mapper);
    }

    /// Gets the value to select from the sprite's palette (0, 1, 2 or 3).
    pub fn get_palette_value(&self, screen_x: u8) -> (r: u8)
        requires
            self.covers(screen_x as int),
        ensures
            r == self.pixel_value(screen_x as int),
            r <= 3,
    {
        let offset: u8 = screen_x - self.x_position;
        let bit: u8 = if self.flip_horizontally {
            offset
        } else {
            7 - offset
        };
        get_plane_value(self.pattern_tile_lsb, self.pattern_tile_msb, bit)
    }

    /// Fetches the two bit planes of the sprite's row for `scanline`.
    pub fn set_pattern_lsb_msb<M: Mapper>(
        &mut self,
        sprite_size: SpriteSize,
        scanline: u16,
        y: u8,
        pattern_table_addr_8x8: u16,
        tile: u8,
        mapper: &M,
    )
        requires
            M::wf(mapper@),
            pattern_table_addr_8x8 <= 0x1000,
            scanline <= 261,
        ensures
            *final(self) == (SpriteBuffer {
                pattern_tile_lsb: if sprite_in_range(scanline, y, sprite_size) {
                    M::ppu_read_spec(
                        mapper@,
                        sprite_pattern_addr(
                            sprite_size,
                            pattern_table_addr_8x8,
                            tile,
                            sprite_row(scanline, y, sprite_size, old(self).flip_vertically),
                        ) as u16,
                    )
                } else {
                    0
                },
                pattern_tile_msb: if sprite_in_range(scanline, y, sprite_size) {
                    M::ppu_read_spec(
                        mapper@,
                        (sprite_pattern_addr(
                            sprite_size,
                            pattern_table_addr_8x8,
                            tile,
                            sprite_row(scanline, y, sprite_size, old(self).flip_vertically),
                        ) + 8) as u16,
                    )
                } else {
                    0
                },
                ..*old(self)
            }),
    {
        let top: u16 = y as u16;
        let height: u16 = match sprite_size {
            SpriteSize::Sprite8x8 => 8,
            SpriteSize::Sprite8x16 => 16,
        };
        if scanline < top || scanline - top >= height {
            self.pattern_tile_lsb = 0;
            self.pattern_tile_msb = 0;
            return ;
        }
        let row: u16 = if self.flip_vertically {
            height - 1 - (scanline - top)
        } else {
            scanline - top
        };
        let tile_addr: u16 = match sprite_size {
            SpriteSize::Sprite8x8 => pattern_table_addr_8x8 + 16 * (tile as u16) + row,
            SpriteSize::Sprite8x16 => {
                let odd: u16 = (tile % 2) as u16;
                0x1000 * odd + 16 * ((tile as u16) - odd + row / 8) + row % 8
            },
        };
        self.pattern_tile_lsb = mapper.ppu_read(tile_addr);
        self.pattern_tile_msb = mapper.ppu_read(tile_addr + 8);
    }

    pub fn x_position(&self) -> (r: u8)
        ensures
            r == self.x_position,
    {
        self.x_position
    }

    pub fn palette(&self) -> (r: u8)
        ensures
            r == self.palette,
    {
        self.palette
    }

    pub fn priority(&self) -> (r: SpriteBgPriority)
        ensures
            r == self.priority,
    {
        self.priority
    }

    pub fn is_sprite_0(&self) -> (r: bool)
        ensures
            r == self.is_sprite_0,
    {
        self.is_sprite_0
    }
}

/// State of the sprite evaluation of a visible scanline.
#[derive(Debug, Clone, Copy)]
pub struct PpuSpriteEvalState {
    /// The address in OAM that the evaluation reads next.
    pub oam_addr: u16,
    /// Secondary OAM: up to eight entries of four bytes, entry `n` in
    /// bytes `4n` to `4n + 3`.
    pub secondary_oam: [u8; 32],
    /// Index of the entry of secondary OAM that is written next.
    pub secondary_oam_index: usize,
    /// Whether entry 0 of secondary OAM is sprite 0.
    pub maybe_sprite_0_hit: bool,
    /// Whether more than eight sprites were found on this scanline.
    pub sprite_overflow: bool,
    pub sprite_buffers: [SpriteBuffer; 8],
}

impl PpuSpriteEvalState {
    /// The state at the start of a scanline's evaluation: counters at
    /// zero, secondary OAM and the buffers as they were.
    pub open spec fn restarted(self) -> PpuSpriteEvalState {
        PpuSpriteEvalState {
            oam_addr: 0,
            secondary_oam_index: 0,
            maybe_sprite_0_hit: false,
            sprite_overflow: false,
            ..self
        }
    }

    /// Whether this is the state at power-on: the counters at zero,
    /// secondary OAM cleared to 0xFF, and eight buffers that draw nothing.
    pub open spec fn fresh(&self) -> bool {
        &&& self.oam_addr == 0
        &&& self.secondary_oam_index == 0
        &&& !self.maybe_sprite_0_hit
        &&& !self.sprite_overflow
        &&& forall|i: int| 0 <= i < 32 ==> self.secondary_oam[i] == 0xFF
        &&& forall|i: int| 0 <= i < 8 ==> self.sprite_buffers[i] == SpriteBuffer::blank()
    }

}

impl Default for PpuSpriteEvalState {
    /// The state at power-on.
    fn default() -> (r: Self)
        ensures
            r.fresh(),
    {
        let mut secondary_oam: [u8; 32] = [0xFFu8; 32];
        let mut i: usize = 0;
        while i < SECONDARY_OAM_SIZE
            invariant
                i <= SECONDARY_OAM_SIZE,
                forall|k: int| 0 <= k < i ==> secondary_oam[k] == 0xFF,
            decreases SECONDARY_OAM_SIZE - i,
        {
            secondary_oam[i] = 0xFF;
            i = i + 1;
        }
        let mut sprite_buffers: [SpriteBuffer; 8] = [SpriteBuffer::default(); 8];
        let mut j: usize = 0;
        while j < 8
            invariant
                j <= 8,
                forall|k: int| 0 <= k < j ==> sprite_buffers[k] == SpriteBuffer::blank(),
            decreases 8 - j,
        {
            sprite_buffers[j] = SpriteBuffer::default();
            j = j + 1;
        }
        Self {
            oam_addr: 0,
            secondary_oam,
            secondary_oam_index: 0,
            maybe_sprite_0_hit: false,
            sprite_overflow: false,
            sprite_buffers,
        }
    }
}

impl PpuSpriteEvalState {
    pub fn reset(&mut self)
        ensures
            *final(self) == old(self).restarted(),
    {
        self.oam_addr = 0;
        self.secondary_oam_index = 0;
        self.maybe_sprite_0_hit = false;
        self.sprite_overflow = false;
    }
}

} // verus!
