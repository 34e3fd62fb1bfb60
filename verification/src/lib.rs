//! Core of a Nintendo Entertainment System emulator: the 6502 processor, the
//! picture processing unit, the cartridge mappers and the bus that joins them.
//! Every function carries a contract and is checked by Verus.

pub mod utils;
pub mod mem;
pub mod wram;
pub mod ines;
pub mod ppu;
pub mod mappers;
pub mod state;
pub mod cpu;
pub mod video;
pub mod input;
pub mod console;
