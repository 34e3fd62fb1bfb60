//! Sizes and addresses of the picture processing unit's memory map.

use vstd::prelude::*;

verus! {

/// Size of Object Attribute Memory.
pub const OAM_SIZE: usize = 256;

/// Size of secondary Object Attribute Memory: eight entries of four bytes.
pub const SECONDARY_OAM_SIZE: usize = 32;

pub const NAMETABLE_0: u16 = 0x2000;

pub const NAMETABLE_0_END: u16 = 0x23FF;

pub const NAMETABLE_1: u16 = 0x2400;

pub const NAMETABLE_1_END: u16 = 0x27FF;

pub const NAMETABLE_2: u16 = 0x2800;

pub const NAMETABLE_2_END: u16 = 0x2BFF;

pub const NAMETABLE_3: u16 = 0x2C00;

pub const NAMETABLE_3_END: u16 = 0x2FFF;

/// How the four logical nametables are laid over the two 1 KiB banks of
/// video RAM.
#[derive(Debug, Clone, Copy, PartialEq, Eq, Structural)]
pub enum Mirroring {
    Vertical,
    Horizontal,
    OneScreen0,
    OneScreen1,
}

} // verus!
