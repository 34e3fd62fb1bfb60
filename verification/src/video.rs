//! The picture that the host shows: 256 by 224 pixels of three bytes, the
//! visible part of the 240 scanlines, and the 64 colours of the machine.

use vstd::prelude::*;
use crate::mem::zeros;

verus! {

/// Width of the picture in pixels.
pub const WIDTH: usize = 256;

/// Height of the picture in pixels: the 240 scanlines less 8 above and 8
/// below that a television hides.
pub const HEIGHT: usize = 224;

/// The scanlines at the top that are left out.
pub const TOP_OVERSCAN: u16 = 8;

pub const FRAME_BUFFER_SIZE_IN_BYTES: usize = 172032;

/// Red, green and blue of colour `index` of the machine, for `index` from
/// 0 to 63.
pub open spec fn rgb_of(index: u8) -> (u8, u8, u8) {
    match index {
        0 => (0x62, 0x62, 0x62),
        1 => (0x00, 0x1f, 0xb2),
        2 => (0x24, 0x04, 0xc8),
        3 => (0x52, 0x00, 0xb2),
        4 => (0x73, 0x00, 0x76),
        5 => (0x80, 0x00, 0x24),
        6 => (0x73, 0x0b, 0x00),
        7 => (0x52, 0x28, 0x00),
        8 => (0x24, 0x44, 0x00),
        9 => (0x00, 0x57, 0x00),
        10 => (0x00, 0x5c, 0x00),
        11 => (0x00, 0x53, 0x24),
        12 => (0x00, 0x3c, 0x76),
        13 => (0x00, 0x00, 0x00),
        14 => (0x00, 0x00, 0x00),
        15 => (0x00, 0x00, 0x00),
        16 => (0xab, 0xab, 0xab),
        17 => (0x0d, 0x57, 0xff),
        18 => (0x4b, 0x30, 0xff),
        19 => (0x8a, 0x13, 0xff),
        20 => (0xbc, 0x08, 0xd6),
        21 => (0xd2, 0x12, 0x69),
        22 => (0xc7, 0x2e, 0x00),
        23 => (0x9d, 0x54, 0x00),
        24 => (0x60, 0x7b, 0x00),
        25 => (0x20, 0x98, 0x00),
        26 => (0x00, 0xa3, 0x00),
        27 => (0x00, 0x99, 0x42),
        28 => (0x00, 0x7d, 0xb4),
        29 => (0x00, 0x00, 0x00),
        30 => (0x00, 0x00, 0x00),
        31 => (0x00, 0x00, 0x00),
        32 => (0xff, 0xff, 0xff),
        33 => (0x53, 0xae, 0xff),
        34 => (0x90, 0x85, 0xff),
        35 => (0xd3, 0x65, 0xff),
        36 => (0xff, 0x57, 0xff),
        37 => (0xff, 0x5d, 0xcf),
        38 => (0xff, 0x77, 0x57),
        39 => (0xfa, 0x9e, 0x00),
        40 => (0xbd, 0xc7, 0x00),
        41 => (0x7a, 0xe7, 0x00),
        42 => (0x43, 0xf6, 0x11),
        43 => (0x26, 0xef, 0x7e),
        44 => (0x2c, 0xd5, 0xf6),
        45 => (0x4e, 0x4e, 0x4e),
        46 => (0x00, 0x00, 0x00),
        47 => (0x00, 0x00, 0x00),
        48 => (0xff, 0xff, 0xff),
        49 => (0xb6, 0xe1, 0xff),
        50 => (0xce, 0xd1, 0xff),
        51 => (0xe9, 0xc3, 0xff),
        52 => (0xff, 0xbc, 0xff),
        53 => (0xff, 0xbd, 0xf4),
        54 => (0xff, 0xc6, 0xc3),
        55 => (0xff, 0xd5, 0x9a),
        56 => (0xe9, 0xe6, 0x81),
        57 => (0xce, 0xf4, 0x81),
        58 => (0xb6, 0xfb, 0x9a),
        59 => (0xa9, 0xfa, 0xc3),
        60 => (0xa9, 0xf0, 0xf4),
        61 => (0xb8, 0xb8, 0xb8),
        62 => (0x00, 0x00, 0x00),
        _ => (0x00, 0x00, 0x00),
    }
}

/// Looks up red, green and blue of a colour.
pub fn palette_rgb(index: u8) -> (r: (u8, u8, u8))
    ensures
        r == rgb_of(index),
{
    match index {
        0 => (0x62, 0x62, 0x62),
        1 => (0x00, 0x1f, 0xb2),
        2 => (0x24, 0x04, 0xc8),
        3 => (0x52, 0x00, 0xb2),
        4 => (0x73, 0x00, 0x76),
        5 => (0x80, 0x00, 0x24),
        6 => (0x73, 0x0b, 0x00),
        7 => (0x52, 0x28, 0x00),
        8 => (0x24, 0x44, 0x00),
        9 => (0x00, 0x57, 0x00),
        10 => (0x00, 0x5c, 0x00),
        11 => (0x00, 0x53, 0x24),
        12 => (0x00, 0x3c, 0x76),
        13 => (0x00, 0x00, 0x00),
        14 => (0x00, 0x00, 0x00),
        15 => (0x00, 0x00, 0x00),
        16 => (0xab, 0xab, 0xab),
        17 => (0x0d, 0x57, 0xff),
        18 => (0x4b, 0x30, 0xff),
        19 => (0x8a, 0x13, 0xff),
        20 => (0xbc, 0x08, 0xd6),
        21 => (0xd2, 0x12, 0x69),
        22 => (0xc7, 0x2e, 0x00),
        23 => (0x9d, 0x54, 0x00),
        24 => (0x60, 0x7b, 0x00),
        25 => (0x20, 0x98, 0x00),
        26 => (0x00, 0xa3, 0x00),
        27 => (0x00, 0x99, 0x42),
        28 => (0x00, 0x7d, 0xb4),
        29 => (0x00, 0x00, 0x00),
        30 => (0x00, 0x00, 0x00),
        31 => (0x00, 0x00, 0x00),
        32 => (0xff, 0xff, 0xff),
        33 => (0x53, 0xae, 0xff),
        34 => (0x90, 0x85, 0xff),
        35 => (0xd3, 0x65, 0xff),
        36 => (0xff, 0x57, 0xff),
        37 => (0xff, 0x5d, 0xcf),
        38 => (0xff, 0x77, 0x57),
        39 => (0xfa, 0x9e, 0x00),
        40 => (0xbd, 0xc7, 0x00),
        41 => (0x7a, 0xe7, 0x00),
        42 => (0x43, 0xf6, 0x11),
        43 => (0x26, 0xef, 0x7e),
        44 => (0x2c, 0xd5, 0xf6),
        45 => (0x4e, 0x4e, 0x4e),
        46 => (0x00, 0x00, 0x00),
        47 => (0x00, 0x00, 0x00),
        48 => (0xff, 0xff, 0xff),
        49 => (0xb6, 0xe1, 0xff),
        50 => (0xce, 0xd1, 0xff),
        51 => (0xe9, 0xc3, 0xff),
        52 => (0xff, 0xbc, 0xff),
        53 => (0xff, 0xbd, 0xf4),
        54 => (0xff, 0xc6, 0xc3),
        55 => (0xff, 0xd5, 0x9a),
        56 => (0xe9, 0xe6, 0x81),
        57 => (0xce, 0xf4, 0x81),
        58 => (0xb6, 0xfb, 0x9a),
        59 => (0xa9, 0xfa, 0xc3),
        60 => (0xa9, 0xf0, 0xf4),
        61 => (0xb8, 0xb8, 0xb8),
        62 => (0x00, 0x00, 0x00),
        _ => (0x00, 0x00, 0x00),
    }
}

/// Whether the pixel in column `x` of scanline `y` is part of the picture.
pub open spec fn on_screen(x: u16, y: u16) -> bool {
    x < WIDTH && TOP_OVERSCAN <= y < TOP_OVERSCAN + HEIGHT
}

/// Where the red byte of the pixel in column `x` of scanline `y` lies.
pub open spec fn pixel_offset(x: u16, y: u16) -> int {
    ((y - TOP_OVERSCAN) * WIDTH + x) * 3
}

/// The bytes of a picture after the pixel in column `x` of scanline `y`
/// took colour `value`; the colours repeat after 64. A pixel that is not
/// part of the picture changes nothing.
pub open spec fn with_pixel(pixels: Seq<u8>, x: u16, y: u16, value: u8) -> Seq<u8> {
    if on_screen(x, y) {
        let at = pixel_offset(x, y);
        let rgb = rgb_of(value % 64);
        pixels.update(at, rgb.0).update(at + 1, rgb.1).update(at + 2, rgb.2)
    } else {
        pixels
    }
}

/// The picture of one frame, three bytes a pixel, row by row. Its view is
/// the sequence of its bytes.
pub struct FrameBuffer {
    pub frame_buffer: Vec<u8>,
}

impl View for FrameBuffer {
    type V = Seq<u8>;

    open spec fn view(&self) -> Seq<u8> {
        self.frame_buffer@
    }
}

impl FrameBuffer {
    pub open spec fn inv(&self) -> bool {
        self@.len() == FRAME_BUFFER_SIZE_IN_BYTES
    }

    /// A black picture.
    pub fn new() -> (r: Self)
        ensures
            r.inv(),
            r@ == zeros(FRAME_BUFFER_SIZE_IN_BYTES as nat),
    {
        let r = Self { frame_buffer: vec![0u8; FRAME_BUFFER_SIZE_IN_BYTES] };
        assert(r@ =~= zeros(FRAME_BUFFER_SIZE_IN_BYTES as nat));
        r
    }

    /// Gives the pixel in column `x` of scanline `y` the colour `value`.
    pub fn set_pixel(&mut self, x: u16, y: u16, value: u8)
        requires
            old(self).inv(),
        ensures
            final(self).inv(),
            final(self)@ == with_pixel(old(self)@, x, y, value),
    {
        // Skip the scanlines above and below the picture.
        if y < TOP_OVERSCAN {
            return ;
        }
        if y - TOP_OVERSCAN >= HEIGHT as u16 {
            return ;
        }
        if x >= WIDTH as u16 {
            return ;
        }
        let xu: usize = x as usize;
        let yu: usize = (y - TOP_OVERSCAN) as usize;
        let index: usize = (yu * WIDTH + xu) * 3;
        // Some games count on the colours repeating after 64.
        let rgb: (u8, u8, u8) = palette_rgb(value % 64);
        self.frame_buffer[index] = rgb.0;
        self.frame_buffer[index + 1] = rgb.1;
        self.frame_buffer[index + 2] = rgb.2;
    }

    /// The bytes of the picture, for the host to show.
    pub fn pixels(&self) -> (r: &[u8])
        ensures
            r@ == self@,
    {
        self.frame_buffer.as_slice()
    }
}

} // verus!
