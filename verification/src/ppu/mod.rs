//! The picture processing unit: its registers, its memories for sprites,
//! and the state of the rendering pipeline. A value of `Ppu` is plain data;
//! the specification functions of this module and its parts say what each
//! operation makes of such a value.

pub mod constants;
pub mod sprite;
pub mod ports;
pub mod background;
pub mod sprites;
pub mod render;
pub mod timing;

use vstd::prelude::*;
use crate::ppu::constants::OAM_SIZE;
use crate::ppu::sprite::{PpuSpriteEvalState, SpriteSize};
use crate::utils::{bit_is_set, bit_set};

verus! {

/// What one dot of the picture unit amounted to.
#[derive(Debug, Clone, Copy, PartialEq, Eq, Structural)]
pub enum PpuCycleResult {
    /// Dot 0 of a visible scanline.
    Idle,
    /// A pixel of the picture: column `x` of `scanline`, with its colour.
    Pixel { scanline: u16, x: u16, color: u8 },
    /// A dot of a visible scanline after the last pixel.
    HBlank { scanline: u16, cycle: u16 },
    /// A dot of the scanline after the picture.
    PostRenderLine,
    /// A dot of vertical blanking. `trigger_nmi` is set on the one dot
    /// that starts the blanking, where the control register asks for an
    /// interrupt.
    VBlankLine { trigger_nmi: bool, scanline: u16 },
    /// A dot of the scanline before the picture.
    PreRenderLine { scanline_cycle: u16 },
}

/// The write toggle `w` that the two-byte ports share.
#[derive(Debug, Clone, Copy, PartialEq, Eq, Structural)]
pub enum Toggle {
    /// w = 0
    FirstWrite,
    /// w = 1
    SecondWrite,
}

impl Toggle {
    pub open spec fn toggled(self) -> Toggle {
        match self {
            Toggle::FirstWrite => Toggle::SecondWrite,
            Toggle::SecondWrite => Toggle::FirstWrite,
        }
    }

    pub fn toggle(&mut self)
        ensures
            *final(self) == old(self).toggled(),
    {
        match *self {
            Toggle::FirstWrite => *self = Toggle::SecondWrite,
            Toggle::SecondWrite => *self = Toggle::FirstWrite,
        }
    }
}

/// The control register, with the fields that its value stands for.
#[derive(Debug, Clone, Copy)]
pub struct PpuCtrl {
    /// Raw value written through 0x2000.
    pub value: u8,
    pub base_nt_addr: u16,
    pub vram_increment: u16,
    pub sprite_pt_addr_8x8: u16,
    pub bg_pt_addr: u16,
    pub sprite_size: SpriteSize,
    pub generate_nmi: bool,
}

/// The control register that holds `value`.
pub open spec fn ctrl_of(value: u8) -> PpuCtrl {
    PpuCtrl {
        value,
        base_nt_addr: (0x2000 + 0x400 * ((value & 0x03) as int)) as u16,
        vram_increment: if bit_set(2, value) { 32 } else { 1 },
        sprite_pt_addr_8x8: if bit_set(3, value) { 0x1000 } else { 0 },
        bg_pt_addr: if bit_set(4, value) { 0x1000 } else { 0 },
        sprite_size: if bit_set(5, value) {
            SpriteSize::Sprite8x16
        } else {
            SpriteSize::Sprite8x8
        },
        generate_nmi: bit_set(7, value),
    }
}

/// The control register at power-on holds 0; its fields are parsed, as a
/// program need not write to the register before it counts on them.
impl Default for PpuCtrl {
    fn default() -> (r: Self)
        ensures
            r == ctrl_of(0),
    {
        let mut ppu_ctrl = Self {
            value: 0,
            base_nt_addr: 0,
            vram_increment: 0,
            sprite_pt_addr_8x8: 0,
            bg_pt_addr: 0,
            sprite_size: SpriteSize::Sprite8x8,
            generate_nmi: false,
        };
        ppu_ctrl.update(0x0);
        ppu_ctrl
    }
}

impl PpuCtrl {
    pub fn update(&mut self, value: u8)
        ensures
            *final(self) == ctrl_of(value),
    {
        self.value = value;
        self.base_nt_addr = self.get_base_nt_addr();
        self.vram_increment = self.get_vram_increment();
        self.sprite_pt_addr_8x8 = self.get_sprite_pt_addr();
        self.bg_pt_addr = self.get_bg_pt_addr();
        self.sprite_size = self.get_sprite_size();
        self.generate_nmi = self.get_nmi_generate();
    }

    pub fn get_base_nt_addr(&self) -> (r: u16)
        ensures
            r == ctrl_of(self.value).base_nt_addr,
    {
        let value: u8 = self.value;
        let index: u8 = value & 0x3;
        assert(value & 0x3 <= 3) by (bit_vector);
        if index == 0 {
            0x2000
        } else if index == 1 {
            0x2400
        } else if index == 2 {
            0x2800
        } else {
            0x2C00
        }
    }

    pub fn get_vram_increment(&self) -> (r: u16)
        ensures
            r == ctrl_of(self.value).vram_increment,
    {
        if bit_is_set(2, self.value) {
            32
        } else {
            1
        }
    }

    pub fn get_sprite_pt_addr(&self) -> (r: u16)
        ensures
            r == ctrl_of(self.value).sprite_pt_addr_8x8,
    {
        if bit_is_set(3, self.value) {
            0x1000
        } else {
            0x0
        }
    }

    pub fn get_bg_pt_addr(&self) -> (r: u16)
        ensures
            r == ctrl_of(self.value).bg_pt_addr,
    {
        if bit_is_set(4, self.value) {
            0x1000
        } else {
            0x0
        }
    }

    pub fn get_sprite_size(&self) -> (r: SpriteSize)
        ensures
            r == ctrl_of(self.value).sprite_size,
    {
        if bit_is_set(5, self.value) {
            SpriteSize::Sprite8x16
        } else {
            SpriteSize::Sprite8x8
        }
    }

    pub fn get_nmi_generate(&self) -> (r: bool)
        ensures
            r == ctrl_of(self.value).generate_nmi,
    {
        bit_is_set(7, self.value)
    }
}

/// The mask register, with the fields that its value stands for.
///
/// ```text
/// 7  bit  0
/// BGRs bMmG
/// |||| |||+- Greyscale
/// |||| ||+-- Show background in leftmost 8 pixels of screen
/// |||| |+--- Show sprites in leftmost 8 pixels of screen
/// |||| +---- Show background
/// |||+------ Show sprites
/// ||+------- Emphasize red
/// |+-------- Emphasize green
/// +--------- Emphasize blue
/// ```
#[derive(Debug, Clone, Copy)]
pub struct PpuMask {
    /// Raw value written through 0x2001.
    pub value: u8,
    pub greyscale: bool,
    pub show_bg_leftmost_8px: bool,
    pub show_sprites_leftmost_8px: bool,
    pub render_bg: bool,
    pub render_sprites: bool,
    pub emphasize_red: bool,
    pub emphasize_green: bool,
    pub emphasize_blue: bool,
}

/// The mask register that holds `value`.
pub open spec fn mask_of(value: u8) -> PpuMask {
    PpuMask {
        value,
        greyscale: bit_set(0, value),
        show_bg_leftmost_8px: bit_set(1, value),
        show_sprites_leftmost_8px: bit_set(2, value),
        render_bg: bit_set(3, value),
        render_sprites: bit_set(4, value),
        emphasize_red: bit_set(5, value),
        emphasize_green: bit_set(6, value),
        emphasize_blue: bit_set(7, value),
    }
}

/// The mask register at power-on holds 0.
impl Default for PpuMask {
    fn default() -> (r: Self)
        ensures
            r == mask_of(0),
    {
        let mut ppu_mask = Self {
            value: 0,
            greyscale: false,
            show_bg_leftmost_8px: false,
            show_sprites_leftmost_8px: false,
            render_bg: false,
            render_sprites: false,
            emphasize_red: false,
            emphasize_green: false,
            emphasize_blue: false,
        };
        ppu_mask.update(0);
        ppu_mask
    }
}

impl PpuMask {
    pub fn update(&mut self, value: u8)
        ensures
            *final(self) == mask_of(value),
    {
        self.value = value;
        self.greyscale = bit_is_set(0, value);
        self.show_bg_leftmost_8px = bit_is_set(1, value);
        self.show_sprites_leftmost_8px = bit_is_set(2, value);
        self.render_bg = bit_is_set(3, value);
        self.render_sprites = bit_is_set(4, value);
        self.emphasize_red = bit_is_set(5, value);
        self.emphasize_green = bit_is_set(6, value);
        self.emphasize_blue = bit_is_set(7, value);
    }
}

/// The registers of the picture unit.
#[derive(Debug, Clone, Copy)]
pub struct PpuRegisters {
    /// Control (0x2000, bits VPHB SINN).
    pub ppu_ctrl: PpuCtrl,
    /// Mask (0x2001, bits BGRs bMmG).
    pub ppu_mask: PpuMask,
    /// Status (0x2002, bits VSO- ----): vertical blank, sprite 0 hit,
    /// sprite overflow.
    pub ppu_status: u8,
    /// OAM address (0x2003).
    pub oam_addr: u8,
    /// Current VRAM address (15 bits): yyy NN YYYYY XXXXX.
    pub v: u16,
    /// Temporary VRAM address (15 bits): the top left tile of the screen.
    pub t: u16,
    /// Fine X scroll (3 bits).
    pub x: u8,
    /// Write toggle (1 bit).
    pub w: Toggle,
}

/// The steps of fetching one background tile, two dots each.
#[derive(Debug, Clone, Copy, PartialEq, Eq, Structural)]
pub enum PpuBgFetchState {
    Idle,
    NametableAddr,
    NametableRead,
    AttrtableAddr,
    AttrtableRead,
    BackgroundLSBAddr,
    BackgroundLSBRead,
    BackgroundMSBAddr,
    BackgroundMSBRead,
}

impl PpuBgFetchState {
    pub open spec fn following(self) -> PpuBgFetchState {
        match self {
            PpuBgFetchState::Idle => PpuBgFetchState::Idle,
            PpuBgFetchState::NametableAddr => PpuBgFetchState::NametableRead,
            PpuBgFetchState::NametableRead => PpuBgFetchState::AttrtableAddr,
            PpuBgFetchState::AttrtableAddr => PpuBgFetchState::AttrtableRead,
            PpuBgFetchState::AttrtableRead => PpuBgFetchState::BackgroundLSBAddr,
            PpuBgFetchState::BackgroundLSBAddr => PpuBgFetchState::BackgroundLSBRead,
            PpuBgFetchState::BackgroundLSBRead => PpuBgFetchState::BackgroundMSBAddr,
            PpuBgFetchState::BackgroundMSBAddr => PpuBgFetchState::BackgroundMSBRead,
            PpuBgFetchState::BackgroundMSBRead => PpuBgFetchState::NametableAddr,
        }
    }

    /// The step that is due on the dot that lies `k` dots after the
    /// first dot of a tile, for `k` from 0 to 7.
    pub open spec fn at_offset(k: int) -> PpuBgFetchState {
        if k == 0 {
            PpuBgFetchState::NametableAddr
        } else if k == 1 {
            PpuBgFetchState::NametableRead
        } else if k == 2 {
            PpuBgFetchState::AttrtableAddr
        } else if k == 3 {
            PpuBgFetchState::AttrtableRead
        } else if k == 4 {
            PpuBgFetchState::BackgroundLSBAddr
        } else if k == 5 {
            PpuBgFetchState::BackgroundLSBRead
        } else if k == 6 {
            PpuBgFetchState::BackgroundMSBAddr
        } else {
            PpuBgFetchState::BackgroundMSBRead
        }
    }

    pub fn next(&mut self)
        ensures
            *final(self) == old(self).following(),
    {
        match *self {
            PpuBgFetchState::Idle => *self = PpuBgFetchState::Idle,
            PpuBgFetchState::NametableAddr => *self = PpuBgFetchState::NametableRead,
            PpuBgFetchState::NametableRead => *self = PpuBgFetchState::AttrtableAddr,
            PpuBgFetchState::AttrtableAddr => *self = PpuBgFetchState::AttrtableRead,
            PpuBgFetchState::AttrtableRead => *self = PpuBgFetchState::BackgroundLSBAddr,
            PpuBgFetchState::BackgroundLSBAddr => *self = PpuBgFetchState::BackgroundLSBRead,
            PpuBgFetchState::BackgroundLSBRead => *self = PpuBgFetchState::BackgroundMSBAddr,
            PpuBgFetchState::BackgroundMSBAddr => *self = PpuBgFetchState::BackgroundMSBRead,
            PpuBgFetchState::BackgroundMSBRead => *self = PpuBgFetchState::NametableAddr,
        }
    }
}

/// A 16-bit shift register for the background. It shifts to the left; the
/// upper byte is what is being drawn, the lower byte what comes next.
#[derive(Debug, Clone, Copy)]
pub struct ShiftRegister16Bit {
    pub contents: u16,
}

impl ShiftRegister16Bit {
    /// Puts a byte into the lower 8 bits of the register.
    pub fn push_byte(&mut self, byte: u8)
        ensures
            final(self).contents == (old(self).contents & 0xFF00) | (byte as u16),
    {
        self.contents = (self.contents & 0xFF00) | (byte as u16);
    }

    /// Shifts the contents one bit to the left.
    pub fn shift(&mut self)
        ensures
            final(self).contents == old(self).contents << 1,
    {
        self.contents = self.contents << 1;
    }

    pub fn get_upper_byte(&self) -> (r: u8)
        ensures
            r == (self.contents >> 8) as u8,
    {
        (self.contents >> 8) as u8
    }
}

/// Latches and shift registers of the background pipeline.
#[derive(Debug, Clone, Copy)]
pub struct PpuBgRenderState {
    pub fetch_state: PpuBgFetchState,
    /// Address of the nametable byte to fetch.
    pub tile_addr: u16,
    /// The nametable byte: the number of the tile.
    pub tile_value: u8,
    /// Address of the attribute byte of the tile.
    pub attribute_addr: u16,
    /// The attribute byte.
    pub attribute_data: u8,
    /// Address of the low bit plane of the tile's row.
    pub bg_lsb_addr: u16,
    /// The low bit plane of the tile's row.
    pub bg_lsb: u8,
    /// Address of the high bit plane of the tile's row.
    pub bg_msb_addr: u16,
    /// The high bit plane of the tile's row.
    pub bg_msb: u8,
    /// Shift register for the high bit plane.
    pub pattern_tile_msb_register: ShiftRegister16Bit,
    /// Shift register for the low bit plane.
    pub pattern_tile_lsb_register: ShiftRegister16Bit,
    /// Shift register for the high palette bit; its lower byte is all ones
    /// or all zeros.
    pub attribute_msb_shift_register: ShiftRegister16Bit,
    /// Shift register for the low palette bit; its lower byte is all ones
    /// or all zeros.
    pub attribute_lsb_shift_register: ShiftRegister16Bit,
}

impl PpuBgRenderState {
    /// The pipeline at power-on: nothing is fetched, every latch and
    /// register is empty.
    pub open spec fn at_rest() -> PpuBgRenderState {
        PpuBgRenderState {
            fetch_state: PpuBgFetchState::Idle,
            tile_addr: 0,
            tile_value: 0,
            attribute_addr: 0,
            attribute_data: 0,
            bg_lsb_addr: 0,
            bg_lsb: 0,
            bg_msb_addr: 0,
            bg_msb: 0,
            pattern_tile_msb_register: ShiftRegister16Bit { contents: 0 },
            pattern_tile_lsb_register: ShiftRegister16Bit { contents: 0 },
            attribute_msb_shift_register: ShiftRegister16Bit { contents: 0 },
            attribute_lsb_shift_register: ShiftRegister16Bit { contents: 0 },
        }
    }

}

impl Default for PpuBgRenderState {
    fn default() -> (r: Self)
        ensures
            r == Self::at_rest(),
    {
        Self {
            fetch_state: PpuBgFetchState::Idle,
            tile_addr: 0,
            tile_value: 0,
            attribute_addr: 0,
            attribute_data: 0,
            bg_lsb_addr: 0,
            bg_lsb: 0,
            bg_msb_addr: 0,
            bg_msb: 0,
            pattern_tile_msb_register: ShiftRegister16Bit { contents: 0 },
            pattern_tile_lsb_register: ShiftRegister16Bit { contents: 0 },
            attribute_msb_shift_register: ShiftRegister16Bit { contents: 0 },
            attribute_lsb_shift_register: ShiftRegister16Bit { contents: 0 },
        }
    }
}

/// What the background offers for one pixel.
#[derive(Debug, Clone, Copy)]
pub struct BackgroundPixel {
    /// The pattern value, 0 to 3; 0 shows the backdrop.
    pub palette_value: u8,
    /// The colour of the pixel, as read from palette memory.
    pub color_index: u8,
}

/// Picture processing unit.
#[derive(Debug, Clone, Copy)]
pub struct Ppu {
    /// Number of dots since power-on.
    pub total_cycle_count: u64,
    pub reg: PpuRegisters,
    /// Object Attribute Memory: 64 sprites of four bytes (y, tile,
    /// attributes, x).
    pub oam: [u8; 256],
    /// A read of 0x2007 returns this buffer and refills it.
    pub ppudata_read_buffer: u8,
    /// Frame counter.
    pub frame: u64,
    /// The scanline that the next dot belongs to, 0 to 261.
    pub scanline: u16,
    /// The dot that comes next on the scanline, 0 to 340.
    pub scanline_cycle: u16,
    pub bg_render_state: PpuBgRenderState,
    pub sprite_render_state: PpuSpriteEvalState,
}

impl Ppu {
    /// On the dots that continue the fetching of a tile, the fetch step
    /// is the one that the dot calls for: eight steps from dot 1 and from
    /// dot 321 on, on the visible scanlines and the one before them.
    pub open spec fn fetch_in_step(&self) -> bool {
        let c = self.scanline_cycle as int;
        let fetching_line = self.scanline <= 239 || self.scanline == 261;
        &&& fetching_line && 2 <= c <= 256 ==> self.bg_render_state.fetch_state
            == PpuBgFetchState::at_offset((c - 1) % 8)
        &&& fetching_line && 322 <= c <= 336 ==> self.bg_render_state.fetch_state
            == PpuBgFetchState::at_offset((c - 321) % 8)
    }

    /// The counters and registers are within their ranges, and the
    /// parsed fields of the control and mask registers are those of
    /// their values.
    pub open spec fn bounded(&self) -> bool {
        &&& self.scanline <= 261
        &&& self.scanline_cycle <= 340
        &&& self.reg.x <= 7
        &&& self.reg.v <= 0x7FFF
        &&& self.reg.t <= 0x7FFF
        &&& self.reg.ppu_ctrl == ctrl_of(self.reg.ppu_ctrl.value)
        &&& self.reg.ppu_mask == mask_of(self.reg.ppu_mask.value)
        &&& self.sprite_render_state.secondary_oam_index <= 8
        &&& self.sprite_render_state.oam_addr <= 256
    }

    /// What holds of the unit between any two operations.
    pub open spec fn inv(&self) -> bool {
        self.bounded() && self.fetch_in_step()
    }

    /// Whether the two counters can take one more dot.
    pub open spec fn has_room(&self) -> bool {
        self.total_cycle_count < u64::MAX && self.frame < u64::MAX
    }

    /// Whether this is the unit at power-on: on the first dot of the
    /// scanline before the picture, with v, t, w, the status and OAM at
    /// zero, secondary OAM cleared and nothing in the pipeline.
    pub open spec fn fresh(&self) -> bool {
        &&& self.total_cycle_count == 0
        &&& self.frame == 0
        &&& self.scanline == 261
        &&& self.scanline_cycle == 0
        &&& self.reg == (PpuRegisters {
            ppu_ctrl: ctrl_of(0),
            ppu_mask: mask_of(0),
            ppu_status: 0,
            oam_addr: 0,
            v: 0,
            t: 0,
            x: 0,
            w: Toggle::FirstWrite,
        })
        &&& self.ppudata_read_buffer == 0
        &&& forall|i: int| 0 <= i < 256 ==> self.oam[i] == 0
        &&& self.bg_render_state == PpuBgRenderState::at_rest()
        &&& self.sprite_render_state.fresh()
    }

    /// There is but one unit at power-on.
    pub proof fn lemma_fresh_is_unique(self, other: Ppu)
        requires
            self.fresh(),
            other.fresh(),
        ensures
            self == other,
    {
        assert(self.oam =~= other.oam);
        assert(self.sprite_render_state.secondary_oam
            =~= other.sprite_render_state.secondary_oam);
        assert(self.sprite_render_state.sprite_buffers
            =~= other.sprite_render_state.sprite_buffers);
    }

    /// The unit at power-on.
    pub fn new() -> (r: Self)
        ensures
            r.inv(),
            r.fresh(),
    {
        let mut oam: [u8; 256] = [0u8; 256];
        let mut i: usize = 0;
        while i < OAM_SIZE
            invariant
                i <= OAM_SIZE,
                forall|k: int| 0 <= k < i ==> oam[k] == 0,
            decreases OAM_SIZE - i,
        {
            oam[i] = 0;
            i = i + 1;
        }
        Self {
            total_cycle_count: 0,
            reg: PpuRegisters {
                ppu_ctrl: PpuCtrl::default(),
                ppu_mask: PpuMask::default(),
                ppu_status: 0,
                oam_addr: 0,
                v: 0,
                t: 0,
                x: 0,
                w: Toggle::FirstWrite,
            },
            oam,
            ppudata_read_buffer: 0,
            frame: 0,
            scanline: 261,
            scanline_cycle: 0,
            bg_render_state: PpuBgRenderState::default(),
            sprite_render_state: PpuSpriteEvalState::default(),
        }
    }

    /// The row of a tile that v points at.
    pub open spec fn fine_y(self) -> u8 {
        ((self.reg.v & 0x7000) >> 12) as u8
    }

    pub fn get_fine_y_scroll(&self) -> (r: u8)
        ensures
            r == self.fine_y(),
            r <= 7,
    {
        let v: u16 = self.reg.v;
        assert((v & 0x7000) >> 12 <= 7) by (bit_vector);
        ((v & 0x7000) >> 12) as u8
    }

    /// Whether the background or the sprites are switched on.
    pub open spec fn is_rendering(self) -> bool {
        self.reg.ppu_mask.render_bg || self.reg.ppu_mask.render_sprites
    }

    pub fn rendering_enabled(&self) -> (r: bool)
        ensures
            r == self.is_rendering(),
    {
        self.reg.ppu_mask.render_bg || self.reg.ppu_mask.render_sprites
    }
}

} // verus!
