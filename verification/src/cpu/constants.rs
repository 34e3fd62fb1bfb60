//! Bit positions of the processor status flags, and the opcodes that the
//! library names.

use vstd::prelude::*;

verus! {

/// Bit location of the carry flag (C).
pub const PS_C_BIT: u8 = 0;

/// Bit location of the zero flag (Z).
pub const PS_Z_BIT: u8 = 1;

/// Bit location of the interrupt disable flag (I).
pub const PS_I_BIT: u8 = 2;

/// Bit location of the decimal mode flag (D).
pub const PS_D_BIT: u8 = 3;

/// Bit location of the break flag (B).
pub const PS_B_BIT: u8 = 4;

/// Bit location of the overflow flag (V).
pub const PS_V_BIT: u8 = 6;

/// Bit location of the negative flag (N).
pub const PS_N_BIT: u8 = 7;

pub const OPCODE_ORA_ABS: u8 = 0x0D;

pub const OPCODE_ASL_ACC: u8 = 0x0A;

pub const OPCODE_JSR_ABS: u8 = 0x20;

pub const OPCODE_RTS: u8 = 0x60;

pub const OPCODE_STA_ABS: u8 = 0x8D;

pub const OPCODE_LDA_IMM: u8 = 0xA9;

pub const OPCODE_LDA_ABS: u8 = 0xAD;

/// Address of the vector that an interrupt request and BRK take.
pub const IRQ_VECTOR: u16 = 0xFFFE;

/// Address of the vector that a reset takes.
pub const RESET_VECTOR: u16 = 0xFFFC;

/// Address of the vector that a non-maskable interrupt takes.
pub const NMI_VECTOR: u16 = 0xFFFA;

/// Cycles that a sprite DMA stalls the processor for.
pub const DMA_CYCLES: u64 = 513;

/// Cycles that the entry into an interrupt takes.
pub const INTERRUPT_CYCLES: u64 = 7;

} // verus!
