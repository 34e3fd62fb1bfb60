//! The instruction set: for each of the 256 opcodes the operation, the
//! addressing mode, the base cycles and whether the opcode is documented.

use vstd::prelude::*;

verus! {

/// 6502 addressing modes.
#[derive(Debug, Clone, Copy, PartialEq, Eq, Structural)]
pub enum AddrMode {
    IMM,
    ABS,
    ZP,
    IMP,
    IND,
    ABX,
    ABY,
    ZPX,
    ZPY,
    IZX,
    IZY,
    REL,
    ACC,
    /// No addressing: the opcode is not implemented.
    UNK,
}

/// The operations of the processor. `OOPS` stands for every opcode that
/// is not implemented.
#[derive(Debug, Clone, Copy, PartialEq, Eq, Structural)]
pub enum Op {
    ADC,
    AND,
    ASL,
    BCC,
    BCS,
    BEQ,
    BIT,
    BMI,
    BNE,
    BPL,
    BRK,
    BVC,
    BVS,
    CLC,
    CLD,
    CLI,
    CLV,
    CMP,
    CPX,
    CPY,
    DCP,
    DEC,
    DEX,
    DEY,
    EOR,
    INC,
    INX,
    INY,
    ISB,
    JMP,
    JSR,
    LAX,
    LDA,
    LDX,
    LDY,
    LSR,
    NOP,
    OOPS,
    ORA,
    PHA,
    PHP,
    PLA,
    PLP,
    RLA,
    ROL,
    ROR,
    RRA,
    RTI,
    RTS,
    SAX,
    SBC,
    SEC,
    SED,
    SEI,
    SLO,
    SRE,
    STA,
    STX,
    STY,
    TAX,
    TAY,
    TSX,
    TXA,
    TXS,
    TYA,
}

/// One entry of the instruction set.
#[derive(Debug, Clone, Copy, PartialEq, Eq, Structural)]
pub struct Instruction {
    pub opcode: u8,
    pub op: Op,
    pub addr_mode: AddrMode,
    pub cycles: u64,
    pub legal: bool,
}

/// The operation of an opcode.
pub open spec fn op_of(opcode: u8) -> Op {
    match opcode {
        0x00 => Op::BRK,
        0x01 | 0x05 | 0x09 | 0x0D | 0x11 | 0x15 | 0x19 | 0x1D => Op::ORA,
        0x03 | 0x07 | 0x0F | 0x13 | 0x17 | 0x1B | 0x1F => Op::SLO,
        0x04 | 0x0C | 0x14 | 0x1A | 0x1C | 0x34 | 0x3A | 0x3C | 0x44 | 0x54 | 0x5A
            | 0x5C | 0x64 | 0x74 | 0x7A | 0x7C | 0x80 | 0x82 | 0x89 | 0xC2 | 0xD4 | 0xDA
            | 0xDC | 0xE2 | 0xEA | 0xF4 | 0xFA | 0xFC => Op::NOP,
        0x06 | 0x0A | 0x0E | 0x16 | 0x1E => Op::ASL,
        0x08 => Op::PHP,
        0x10 => Op::BPL,
        0x18 => Op::CLC,
        0x20 => Op::JSR,
        0x21 | 0x25 | 0x29 | 0x2D | 0x31 | 0x35 | 0x39 | 0x3D => Op::AND,
        0x23 | 0x27 | 0x2F | 0x33 | 0x37 | 0x3B | 0x3F => Op::RLA,
        0x24 | 0x2C => Op::BIT,
        0x26 | 0x2A | 0x2E | 0x36 | 0x3E => Op::ROL,
        0x28 => Op::PLP,
        0x30 => Op::BMI,
        0x38 => Op::SEC,
        0x40 => Op::RTI,
        0x41 | 0x45 | 0x49 | 0x4D | 0x51 | 0x55 | 0x59 | 0x5D => Op::EOR,
        0x43 | 0x47 | 0x4F | 0x53 | 0x57 | 0x5B | 0x5F => Op::SRE,
        0x46 | 0x4A | 0x4E | 0x56 | 0x5E => Op::LSR,
        0x48 => Op::PHA,
        0x4C | 0x6C => Op::JMP,
        0x50 => Op::BVC,
        0x58 => Op::CLI,
        0x60 => Op::RTS,
        0x61 | 0x65 | 0x69 | 0x6D | 0x71 | 0x75 | 0x79 | 0x7D => Op::ADC,
        0x63 | 0x67 | 0x6F | 0x73 | 0x77 | 0x7B | 0x7F => Op::RRA,
        0x66 | 0x6A | 0x6E | 0x76 | 0x7E => Op::ROR,
        0x68 => Op::PLA,
        0x70 => Op::BVS,
        0x78 => Op::SEI,
        0x81 | 0x85 | 0x8D | 0x91 | 0x95 | 0x99 | 0x9D => Op::STA,
        0x83 | 0x87 | 0x8F | 0x97 => Op::SAX,
        0x84 | 0x8C | 0x94 => Op::STY,
        0x86 | 0x8E | 0x96 => Op::STX,
        0x88 => Op::DEY,
        0x8A => Op::TXA,
        0x90 => Op::BCC,
        0x98 => Op::TYA,
        0x9A => Op::TXS,
        0xA0 | 0xA4 | 0xAC | 0xB4 | 0xBC => Op::LDY,
        0xA1 | 0xA5 | 0xA9 | 0xAD | 0xB1 | 0xB5 | 0xB9 | 0xBD => Op::LDA,
        0xA2 | 0xA6 | 0xAE | 0xB6 | 0xBE => Op::LDX,
        0xA3 | 0xA7 | 0xAF | 0xB3 | 0xB7 | 0xBF => Op::LAX,
        0xA8 => Op::TAY,
        0xAA => Op::TAX,
        0xB0 => Op::BCS,
        0xB8 => Op::CLV,
        0xBA => Op::TSX,
        0xC0 | 0xC4 | 0xCC => Op::CPY,
        0xC1 | 0xC5 | 0xC9 | 0xCD | 0xD1 | 0xD5 | 0xD9 | 0xDD => Op::CMP,
        0xC3 | 0xC7 | 0xCF | 0xD3 | 0xD7 | 0xDB | 0xDF => Op::DCP,
        0xC6 | 0xCE | 0xD6 | 0xDE => Op::DEC,
        0xC8 => Op::INY,
        0xCA => Op::DEX,
        0xD0 => Op::BNE,
        0xD8 => Op::CLD,
        0xE0 | 0xE4 | 0xEC => Op::CPX,
        0xE1 | 0xE5 | 0xE9 | 0xEB | 0xED | 0xF1 | 0xF5 | 0xF9 | 0xFD => Op::SBC,
        0xE3 | 0xE7 | 0xEF | 0xF3 | 0xF7 | 0xFB | 0xFF => Op::ISB,
        0xE6 | 0xEE | 0xF6 | 0xFE => Op::INC,
        0xE8 => Op::INX,
        0xF0 => Op::BEQ,
        0xF8 => Op::SED,
        _ => Op::OOPS,
    }
}

/// The addressing mode of an opcode.
pub open spec fn addr_mode_of(opcode: u8) -> AddrMode {
    match opcode {
        0x01 | 0x03 | 0x21 | 0x23 | 0x41 | 0x43 | 0x61 | 0x63 | 0x81 | 0x83 | 0xA1
            | 0xA3 | 0xC1 | 0xC3 | 0xE1 | 0xE3 => AddrMode::IZX,
        0x02 | 0x12 | 0x22 | 0x32 | 0x42 | 0x52 | 0x62 | 0x72 | 0x92 | 0xB2 | 0xD2
            | 0xF2 => AddrMode::UNK,
        0x04 | 0x05 | 0x06 | 0x07 | 0x24 | 0x25 | 0x26 | 0x27 | 0x44 | 0x45 | 0x46
            | 0x47 | 0x64 | 0x65 | 0x66 | 0x67 | 0x84 | 0x85 | 0x86 | 0x87 | 0xA4 | 0xA5
            | 0xA6 | 0xA7 | 0xC4 | 0xC5 | 0xC6 | 0xC7 | 0xE4 | 0xE5 | 0xE6 | 0xE7 => AddrMode::ZP,
        0x09 | 0x0B | 0x29 | 0x2B | 0x49 | 0x4B | 0x69 | 0x6B | 0x80 | 0x82 | 0x89
            | 0x8B | 0xA0 | 0xA2 | 0xA9 | 0xAB | 0xC0 | 0xC2 | 0xC9 | 0xCB | 0xE0 | 0xE2
            | 0xE9 | 0xEB => AddrMode::IMM,
        0x0A | 0x2A | 0x4A | 0x6A => AddrMode::ACC,
        0x0C | 0x0D | 0x0E | 0x0F | 0x20 | 0x2C | 0x2D | 0x2E | 0x2F | 0x4C | 0x4D
            | 0x4E | 0x4F | 0x6D | 0x6E | 0x6F | 0x8C | 0x8D | 0x8E | 0x8F | 0xAC | 0xAD
            | 0xAE | 0xAF | 0xCC | 0xCD | 0xCE | 0xCF | 0xEC | 0xED | 0xEE | 0xEF => AddrMode::ABS,
        0x10 | 0x30 | 0x50 | 0x70 | 0x90 | 0xB0 | 0xD0 | 0xF0 => AddrMode::REL,
        0x11 | 0x13 | 0x31 | 0x33 | 0x51 | 0x53 | 0x71 | 0x73 | 0x91 | 0x93 | 0xB1
            | 0xB3 | 0xD1 | 0xD3 | 0xF1 | 0xF3 => AddrMode::IZY,
        0x14 | 0x15 | 0x16 | 0x17 | 0x34 | 0x35 | 0x36 | 0x37 | 0x54 | 0x55 | 0x56
            | 0x57 | 0x74 | 0x75 | 0x76 | 0x77 | 0x94 | 0x95 | 0xB4 | 0xB5 | 0xD4 | 0xD5
            | 0xD6 | 0xD7 | 0xF4 | 0xF5 | 0xF6 | 0xF7 => AddrMode::ZPX,
        0x19 | 0x1B | 0x39 | 0x3B | 0x59 | 0x5B | 0x79 | 0x7B | 0x99 | 0x9B | 0x9E
            | 0x9F | 0xB9 | 0xBB | 0xBE | 0xBF | 0xD9 | 0xDB | 0xF9 | 0xFB => AddrMode::ABY,
        0x1C | 0x1D | 0x1E | 0x1F | 0x3C | 0x3D | 0x3E | 0x3F | 0x5C | 0x5D | 0x5E
            | 0x5F | 0x7C | 0x7D | 0x7E | 0x7F | 0x9C | 0x9D | 0xBC | 0xBD | 0xDC | 0xDD
            | 0xDE | 0xDF | 0xFC | 0xFD | 0xFE | 0xFF => AddrMode::ABX,
        0x6C => AddrMode::IND,
        0x96 | 0x97 | 0xB6 | 0xB7 => AddrMode::ZPY,
        _ => AddrMode::IMP,
    }
}

/// The base cycles of an opcode, before penalties.
pub open spec fn cycles_of(opcode: u8) -> u64 {
    match opcode {
        0x00 | 0x1B | 0x1E | 0x1F | 0x3B | 0x3E | 0x3F | 0x5B | 0x5E | 0x5F | 0x7B
            | 0x7E | 0x7F | 0xDB | 0xDE | 0xDF | 0xFB | 0xFE | 0xFF => 7u64,
        0x01 | 0x0E | 0x0F | 0x16 | 0x17 | 0x20 | 0x21 | 0x2E | 0x2F | 0x36 | 0x37
            | 0x40 | 0x41 | 0x4E | 0x4F | 0x56 | 0x57 | 0x60 | 0x61 | 0x6E | 0x6F | 0x76
            | 0x77 | 0x81 | 0x83 | 0x91 | 0x93 | 0xA1 | 0xA3 | 0xC1 | 0xCE | 0xCF | 0xD6
            | 0xD7 | 0xE1 | 0xEE | 0xEF | 0xF6 | 0xF7 => 6u64,
        0x02 | 0x12 | 0x22 | 0x32 | 0x42 | 0x52 | 0x62 | 0x72 | 0x92 | 0xB2 | 0xD2
            | 0xF2 => 0u64,
        0x03 | 0x13 | 0x23 | 0x33 | 0x43 | 0x53 | 0x63 | 0x73 | 0xC3 | 0xD3 | 0xE3
            | 0xF3 => 8u64,
        0x04 | 0x05 | 0x08 | 0x24 | 0x25 | 0x44 | 0x45 | 0x48 | 0x4C | 0x64 | 0x65
            | 0x84 | 0x85 | 0x86 | 0x87 | 0xA4 | 0xA5 | 0xA6 | 0xA7 | 0xC4 | 0xC5 | 0xE4
            | 0xE5 => 3u64,
        0x06 | 0x07 | 0x11 | 0x26 | 0x27 | 0x31 | 0x46 | 0x47 | 0x51 | 0x66 | 0x67
            | 0x6C | 0x71 | 0x99 | 0x9B | 0x9C | 0x9D | 0x9E | 0x9F | 0xB1 | 0xB3 | 0xC6
            | 0xC7 | 0xD1 | 0xE6 | 0xE7 | 0xF1 => 5u64,
        0x0C | 0x0D | 0x14 | 0x15 | 0x19 | 0x1C | 0x1D | 0x28 | 0x2C | 0x2D | 0x34
            | 0x35 | 0x39 | 0x3C | 0x3D | 0x4D | 0x54 | 0x55 | 0x59 | 0x5C | 0x5D | 0x68
            | 0x6D | 0x74 | 0x75 | 0x79 | 0x7C | 0x7D | 0x8C | 0x8D | 0x8E | 0x8F | 0x94
            | 0x95 | 0x96 | 0x97 | 0xAC | 0xAD | 0xAE | 0xAF | 0xB4 | 0xB5 | 0xB6 | 0xB7
            | 0xB9 | 0xBB | 0xBC | 0xBD | 0xBE | 0xBF | 0xCC | 0xCD | 0xD4 | 0xD5 | 0xD9
            | 0xDC | 0xDD | 0xEC | 0xED | 0xF4 | 0xF5 | 0xF9 | 0xFC | 0xFD => 4u64,
        _ => 2u64,
    }
}

/// Whether an opcode is a documented one.
pub open spec fn legal_of(opcode: u8) -> bool {
    match opcode {
        0x02 | 0x03 | 0x04 | 0x07 | 0x0B | 0x0C | 0x0F | 0x12 | 0x13 | 0x14 | 0x17
            | 0x1A | 0x1B | 0x1C | 0x1F | 0x22 | 0x23 | 0x27 | 0x2B | 0x2F | 0x32 | 0x33
            | 0x34 | 0x37 | 0x3A | 0x3B | 0x3C | 0x3F | 0x42 | 0x43 | 0x44 | 0x47 | 0x4B
            | 0x4F | 0x52 | 0x53 | 0x54 | 0x57 | 0x5A | 0x5B | 0x5C | 0x5F | 0x62 | 0x63
            | 0x64 | 0x67 | 0x6B | 0x6F | 0x72 | 0x73 | 0x74 | 0x77 | 0x7A | 0x7B | 0x7C
            | 0x7F | 0x80 | 0x82 | 0x83 | 0x87 | 0x89 | 0x8B | 0x8F | 0x92 | 0x93 | 0x97
            | 0x9B | 0x9C | 0x9E | 0x9F | 0xA3 | 0xA7 | 0xAB | 0xAF | 0xB2 | 0xB3 | 0xB7
            | 0xBB | 0xBF | 0xC2 | 0xC3 | 0xC7 | 0xCB | 0xCF | 0xD2 | 0xD3 | 0xD4 | 0xD7
            | 0xDA | 0xDB | 0xDC | 0xDF | 0xE2 | 0xE3 | 0xE7 | 0xEB | 0xEF | 0xF2 | 0xF3
            | 0xF4 | 0xF7 | 0xFA | 0xFB | 0xFC | 0xFF => false,
        _ => true,
    }
}

/// The entry of an opcode.
pub open spec fn instruction_of(opcode: u8) -> Instruction {
    Instruction {
        opcode,
        op: op_of(opcode),
        addr_mode: addr_mode_of(opcode),
        cycles: cycles_of(opcode),
        legal: legal_of(opcode),
    }
}

/// Looks up the operation of an opcode.
pub fn lookup_op(opcode: u8) -> (r: Op)
    ensures
        r == op_of(opcode),
{
    match opcode {
        0x00 => Op::BRK,
        0x01 | 0x05 | 0x09 | 0x0D | 0x11 | 0x15 | 0x19 | 0x1D => Op::ORA,
        0x03 | 0x07 | 0x0F | 0x13 | 0x17 | 0x1B | 0x1F => Op::SLO,
        0x04 | 0x0C | 0x14 | 0x1A | 0x1C | 0x34 | 0x3A | 0x3C | 0x44 | 0x54 | 0x5A
            | 0x5C | 0x64 | 0x74 | 0x7A | 0x7C | 0x80 | 0x82 | 0x89 | 0xC2 | 0xD4 | 0xDA
            | 0xDC | 0xE2 | 0xEA | 0xF4 | 0xFA | 0xFC => Op::NOP,
        0x06 | 0x0A | 0x0E | 0x16 | 0x1E => Op::ASL,
        0x08 => Op::PHP,
        0x10 => Op::BPL,
        0x18 => Op::CLC,
        0x20 => Op::JSR,
        0x21 | 0x25 | 0x29 | 0x2D | 0x31 | 0x35 | 0x39 | 0x3D => Op::AND,
        0x23 | 0x27 | 0x2F | 0x33 | 0x37 | 0x3B | 0x3F => Op::RLA,
        0x24 | 0x2C => Op::BIT,
        0x26 | 0x2A | 0x2E | 0x36 | 0x3E => Op::ROL,
        0x28 => Op::PLP,
        0x30 => Op::BMI,
        0x38 => Op::SEC,
        0x40 => Op::RTI,
        0x41 | 0x45 | 0x49 | 0x4D | 0x51 | 0x55 | 0x59 | 0x5D => Op::EOR,
        0x43 | 0x47 | 0x4F | 0x53 | 0x57 | 0x5B | 0x5F => Op::SRE,
        0x46 | 0x4A | 0x4E | 0x56 | 0x5E => Op::LSR,
        0x48 => Op::PHA,
        0x4C | 0x6C => Op::JMP,
        0x50 => Op::BVC,
        0x58 => Op::CLI,
        0x60 => Op::RTS,
        0x61 | 0x65 | 0x69 | 0x6D | 0x71 | 0x75 | 0x79 | 0x7D => Op::ADC,
        0x63 | 0x67 | 0x6F | 0x73 | 0x77 | 0x7B | 0x7F => Op::RRA,
        0x66 | 0x6A | 0x6E | 0x76 | 0x7E => Op::ROR,
        0x68 => Op::PLA,
        0x70 => Op::BVS,
        0x78 => Op::SEI,
        0x81 | 0x85 | 0x8D | 0x91 | 0x95 | 0x99 | 0x9D => Op::STA,
        0x83 | 0x87 | 0x8F | 0x97 => Op::SAX,
        0x84 | 0x8C | 0x94 => Op::STY,
        0x86 | 0x8E | 0x96 => Op::STX,
        0x88 => Op::DEY,
        0x8A => Op::TXA,
        0x90 => Op::BCC,
        0x98 => Op::TYA,
        0x9A => Op::TXS,
        0xA0 | 0xA4 | 0xAC | 0xB4 | 0xBC => Op::LDY,
        0xA1 | 0xA5 | 0xA9 | 0xAD | 0xB1 | 0xB5 | 0xB9 | 0xBD => Op::LDA,
        0xA2 | 0xA6 | 0xAE | 0xB6 | 0xBE => Op::LDX,
        0xA3 | 0xA7 | 0xAF | 0xB3 | 0xB7 | 0xBF => Op::LAX,
        0xA8 => Op::TAY,
        0xAA => Op::TAX,
        0xB0 => Op::BCS,
        0xB8 => Op::CLV,
        0xBA => Op::TSX,
        0xC0 | 0xC4 | 0xCC => Op::CPY,
        0xC1 | 0xC5 | 0xC9 | 0xCD | 0xD1 | 0xD5 | 0xD9 | 0xDD => Op::CMP,
        0xC3 | 0xC7 | 0xCF | 0xD3 | 0xD7 | 0xDB | 0xDF => Op::DCP,
        0xC6 | 0xCE | 0xD6 | 0xDE => Op::DEC,
        0xC8 => Op::INY,
        0xCA => Op::DEX,
        0xD0 => Op::BNE,
        0xD8 => Op::CLD,
        0xE0 | 0xE4 | 0xEC => Op::CPX,
        0xE1 | 0xE5 | 0xE9 | 0xEB | 0xED | 0xF1 | 0xF5 | 0xF9 | 0xFD => Op::SBC,
        0xE3 | 0xE7 | 0xEF | 0xF3 | 0xF7 | 0xFB | 0xFF => Op::ISB,
        0xE6 | 0xEE | 0xF6 | 0xFE => Op::INC,
        0xE8 => Op::INX,
        0xF0 => Op::BEQ,
        0xF8 => Op::SED,
        _ => Op::OOPS,
    }
}

/// Looks up the addressing mode of an opcode.
pub fn lookup_addr_mode(opcode: u8) -> (r: AddrMode)
    ensures
        r == addr_mode_of(opcode),
{
    match opcode {
        0x01 | 0x03 | 0x21 | 0x23 | 0x41 | 0x43 | 0x61 | 0x63 | 0x81 | 0x83 | 0xA1
            | 0xA3 | 0xC1 | 0xC3 | 0xE1 | 0xE3 => AddrMode::IZX,
        0x02 | 0x12 | 0x22 | 0x32 | 0x42 | 0x52 | 0x62 | 0x72 | 0x92 | 0xB2 | 0xD2
            | 0xF2 => AddrMode::UNK,
        0x04 | 0x05 | 0x06 | 0x07 | 0x24 | 0x25 | 0x26 | 0x27 | 0x44 | 0x45 | 0x46
            | 0x47 | 0x64 | 0x65 | 0x66 | 0x67 | 0x84 | 0x85 | 0x86 | 0x87 | 0xA4 | 0xA5
            | 0xA6 | 0xA7 | 0xC4 | 0xC5 | 0xC6 | 0xC7 | 0xE4 | 0xE5 | 0xE6 | 0xE7 => AddrMode::ZP,
        0x09 | 0x0B | 0x29 | 0x2B | 0x49 | 0x4B | 0x69 | 0x6B | 0x80 | 0x82 | 0x89
            | 0x8B | 0xA0 | 0xA2 | 0xA9 | 0xAB | 0xC0 | 0xC2 | 0xC9 | 0xCB | 0xE0 | 0xE2
            | 0xE9 | 0xEB => AddrMode::IMM,
        0x0A | 0x2A | 0x4A | 0x6A => AddrMode::ACC,
        0x0C | 0x0D | 0x0E | 0x0F | 0x20 | 0x2C | 0x2D | 0x2E | 0x2F | 0x4C | 0x4D
            | 0x4E | 0x4F | 0x6D | 0x6E | 0x6F | 0x8C | 0x8D | 0x8E | 0x8F | 0xAC | 0xAD
            | 0xAE | 0xAF | 0xCC | 0xCD | 0xCE | 0xCF | 0xEC | 0xED | 0xEE | 0xEF => AddrMode::ABS,
        0x10 | 0x30 | 0x50 | 0x70 | 0x90 | 0xB0 | 0xD0 | 0xF0 => AddrMode::REL,
        0x11 | 0x13 | 0x31 | 0x33 | 0x51 | 0x53 | 0x71 | 0x73 | 0x91 | 0x93 | 0xB1
            | 0xB3 | 0xD1 | 0xD3 | 0xF1 | 0xF3 => AddrMode::IZY,
        0x14 | 0x15 | 0x16 | 0x17 | 0x34 | 0x35 | 0x36 | 0x37 | 0x54 | 0x55 | 0x56
            | 0x57 | 0x74 | 0x75 | 0x76 | 0x77 | 0x94 | 0x95 | 0xB4 | 0xB5 | 0xD4 | 0xD5
            | 0xD6 | 0xD7 | 0xF4 | 0xF5 | 0xF6 | 0xF7 => AddrMode::ZPX,
        0x19 | 0x1B | 0x39 | 0x3B | 0x59 | 0x5B | 0x79 | 0x7B | 0x99 | 0x9B | 0x9E
            | 0x9F | 0xB9 | 0xBB | 0xBE | 0xBF | 0xD9 | 0xDB | 0xF9 | 0xFB => AddrMode::ABY,
        0x1C | 0x1D | 0x1E | 0x1F | 0x3C | 0x3D | 0x3E | 0x3F | 0x5C | 0x5D | 0x5E
            | 0x5F | 0x7C | 0x7D | 0x7E | 0x7F | 0x9C | 0x9D | 0xBC | 0xBD | 0xDC | 0xDD
            | 0xDE | 0xDF | 0xFC | 0xFD | 0xFE | 0xFF => AddrMode::ABX,
        0x6C => AddrMode::IND,
        0x96 | 0x97 | 0xB6 | 0xB7 => AddrMode::ZPY,
        _ => AddrMode::IMP,
    }
}

/// Looks up the base cycles of an opcode.
pub fn lookup_cycles(opcode: u8) -> (r: u64)
    ensures
        r == cycles_of(opcode),
        r <= 8,
        op_of(opcode) != Op::OOPS ==> r >= 2,
{
    match opcode {
        0x00 | 0x1B | 0x1E | 0x1F | 0x3B | 0x3E | 0x3F | 0x5B | 0x5E | 0x5F | 0x7B
            | 0x7E | 0x7F | 0xDB | 0xDE | 0xDF | 0xFB | 0xFE | 0xFF => 7u64,
        0x01 | 0x0E | 0x0F | 0x16 | 0x17 | 0x20 | 0x21 | 0x2E | 0x2F | 0x36 | 0x37
            | 0x40 | 0x41 | 0x4E | 0x4F | 0x56 | 0x57 | 0x60 | 0x61 | 0x6E | 0x6F | 0x76
            | 0x77 | 0x81 | 0x83 | 0x91 | 0x93 | 0xA1 | 0xA3 | 0xC1 | 0xCE | 0xCF | 0xD6
            | 0xD7 | 0xE1 | 0xEE | 0xEF | 0xF6 | 0xF7 => 6u64,
        0x02 | 0x12 | 0x22 | 0x32 | 0x42 | 0x52 | 0x62 | 0x72 | 0x92 | 0xB2 | 0xD2
            | 0xF2 => 0u64,
        0x03 | 0x13 | 0x23 | 0x33 | 0x43 | 0x53 | 0x63 | 0x73 | 0xC3 | 0xD3 | 0xE3
            | 0xF3 => 8u64,
        0x04 | 0x05 | 0x08 | 0x24 | 0x25 | 0x44 | 0x45 | 0x48 | 0x4C | 0x64 | 0x65
            | 0x84 | 0x85 | 0x86 | 0x87 | 0xA4 | 0xA5 | 0xA6 | 0xA7 | 0xC4 | 0xC5 | 0xE4
            | 0xE5 => 3u64,
        0x06 | 0x07 | 0x11 | 0x26 | 0x27 | 0x31 | 0x46 | 0x47 | 0x51 | 0x66 | 0x67
            | 0x6C | 0x71 | 0x99 | 0x9B | 0x9C | 0x9D | 0x9E | 0x9F | 0xB1 | 0xB3 | 0xC6
            | 0xC7 | 0xD1 | 0xE6 | 0xE7 | 0xF1 => 5u64,
        0x0C | 0x0D | 0x14 | 0x15 | 0x19 | 0x1C | 0x1D | 0x28 | 0x2C | 0x2D | 0x34
            | 0x35 | 0x39 | 0x3C | 0x3D | 0x4D | 0x54 | 0x55 | 0x59 | 0x5C | 0x5D | 0x68
            | 0x6D | 0x74 | 0x75 | 0x79 | 0x7C | 0x7D | 0x8C | 0x8D | 0x8E | 0x8F | 0x94
            | 0x95 | 0x96 | 0x97 | 0xAC | 0xAD | 0xAE | 0xAF | 0xB4 | 0xB5 | 0xB6 | 0xB7
            | 0xB9 | 0xBB | 0xBC | 0xBD | 0xBE | 0xBF | 0xCC | 0xCD | 0xD4 | 0xD5 | 0xD9
            | 0xDC | 0xDD | 0xEC | 0xED | 0xF4 | 0xF5 | 0xF9 | 0xFC | 0xFD => 4u64,
        _ => 2u64,
    }
}

/// Looks up whether an opcode is a documented one.
pub fn lookup_legal(opcode: u8) -> (r: bool)
    ensures
        r == legal_of(opcode),
{
    match opcode {
        0x02 | 0x03 | 0x04 | 0x07 | 0x0B | 0x0C | 0x0F | 0x12 | 0x13 | 0x14 | 0x17
            | 0x1A | 0x1B | 0x1C | 0x1F | 0x22 | 0x23 | 0x27 | 0x2B | 0x2F | 0x32 | 0x33
            | 0x34 | 0x37 | 0x3A | 0x3B | 0x3C | 0x3F | 0x42 | 0x43 | 0x44 | 0x47 | 0x4B
            | 0x4F | 0x52 | 0x53 | 0x54 | 0x57 | 0x5A | 0x5B | 0x5C | 0x5F | 0x62 | 0x63
            | 0x64 | 0x67 | 0x6B | 0x6F | 0x72 | 0x73 | 0x74 | 0x77 | 0x7A | 0x7B | 0x7C
            | 0x7F | 0x80 | 0x82 | 0x83 | 0x87 | 0x89 | 0x8B | 0x8F | 0x92 | 0x93 | 0x97
            | 0x9B | 0x9C | 0x9E | 0x9F | 0xA3 | 0xA7 | 0xAB | 0xAF | 0xB2 | 0xB3 | 0xB7
            | 0xBB | 0xBF | 0xC2 | 0xC3 | 0xC7 | 0xCB | 0xCF | 0xD2 | 0xD3 | 0xD4 | 0xD7
            | 0xDA | 0xDB | 0xDC | 0xDF | 0xE2 | 0xE3 | 0xE7 | 0xEB | 0xEF | 0xF2 | 0xF3
            | 0xF4 | 0xF7 | 0xFA | 0xFB | 0xFC | 0xFF => false,
        _ => true,
    }
}

/// Looks up the entry of an opcode.
pub fn decode(opcode: u8) -> (r: Instruction)
    ensures
        r == instruction_of(opcode),
{
    Instruction {
        opcode,
        op: lookup_op(opcode),
        addr_mode: lookup_addr_mode(opcode),
        cycles: lookup_cycles(opcode),
        legal: lookup_legal(opcode),
    }
}

/// The three letters under which an opcode goes in a trace.
pub open spec fn name_of(opcode: u8) -> &'static str {
    match opcode {
        0x00 => "BRK",
        0x01 | 0x05 | 0x09 | 0x0D | 0x11 | 0x15 | 0x19 | 0x1D => "ORA",
        0x02 | 0x12 | 0x22 | 0x32 | 0x42 | 0x52 | 0x62 | 0x72 | 0x92 | 0xB2 | 0xD2
            | 0xF2 => "ILL",
        0x03 | 0x07 | 0x0F | 0x13 | 0x17 | 0x1B | 0x1F => "SLO",
        0x06 | 0x0A | 0x0E | 0x16 | 0x1E => "ASL",
        0x08 => "PHP",
        0x0B | 0x2B => "ANC",
        0x10 => "BPL",
        0x18 => "CLC",
        0x20 => "JSR",
        0x21 | 0x25 | 0x29 | 0x2D | 0x31 | 0x35 | 0x39 | 0x3D => "AND",
        0x23 | 0x27 | 0x2F | 0x33 | 0x37 | 0x3B | 0x3F => "RLA",
        0x24 | 0x2C => "BIT",
        0x26 | 0x2A | 0x2E | 0x36 | 0x3E => "ROL",
        0x28 => "PLP",
        0x30 => "BMI",
        0x38 => "SEC",
        0x40 => "RTI",
        0x41 | 0x45 | 0x49 | 0x4D | 0x51 | 0x55 | 0x59 | 0x5D => "EOR",
        0x43 | 0x47 | 0x4F | 0x53 | 0x57 | 0x5B | 0x5F => "SRE",
        0x46 | 0x4A | 0x4E | 0x56 | 0x5E => "LSR",
        0x48 => "PHA",
        0x4B => "ALR",
        0x4C | 0x6C => "JMP",
        0x50 => "BVC",
        0x58 => "CLI",
        0x60 => "RTS",
        0x61 | 0x65 | 0x69 | 0x6D | 0x71 | 0x75 | 0x79 | 0x7D => "ADC",
        0x63 | 0x67 | 0x6F | 0x73 | 0x77 | 0x7B | 0x7F => "RRA",
        0x66 | 0x6A | 0x6E | 0x76 | 0x7E => "ROR",
        0x68 => "PLA",
        0x6B => "ARR",
        0x70 => "BVS",
        0x78 => "SEI",
        0x81 | 0x85 | 0x8D | 0x91 | 0x95 | 0x99 | 0x9D => "STA",
        0x83 | 0x87 | 0x8F | 0x97 => "SAX",
        0x84 | 0x8C | 0x94 => "STY",
        0x86 | 0x8E | 0x96 => "STX",
        0x88 => "DEY",
        0x8A => "TXA",
        0x8B => "XAA",
        0x90 => "BCC",
        0x93 | 0x9F => "AHX",
        0x98 => "TYA",
        0x9A => "TXS",
        0x9B => "TAS",
        0x9C => "SHY",
        0x9E => "SHX",
        0xA0 | 0xA4 | 0xAC | 0xB4 | 0xBC => "LDY",
        0xA1 | 0xA5 | 0xA9 | 0xAD | 0xB1 | 0xB5 | 0xB9 | 0xBD => "LDA",
        0xA2 | 0xA6 | 0xAE | 0xB6 | 0xBE => "LDX",
        0xA3 | 0xA7 | 0xAB | 0xAF | 0xB3 | 0xB7 | 0xBF => "LAX",
        0xA8 => "TAY",
        0xAA => "TAX",
        0xB0 => "BCS",
        0xB8 => "CLV",
        0xBA => "TSX",
        0xBB => "LAS",
        0xC0 | 0xC4 | 0xCC => "CPY",
        0xC1 | 0xC5 | 0xC9 | 0xCD | 0xD1 | 0xD5 | 0xD9 | 0xDD => "CMP",
        0xC3 | 0xC7 | 0xCF | 0xD3 | 0xD7 | 0xDB | 0xDF => "DCP",
        0xC6 | 0xCE | 0xD6 | 0xDE => "DEC",
        0xC8 => "INY",
        0xCA => "DEX",
        0xCB => "AXS",
        0xD0 => "BNE",
        0xD8 => "CLD",
        0xE0 | 0xE4 | 0xEC => "CPX",
        0xE1 | 0xE5 | 0xE9 | 0xEB | 0xED | 0xF1 | 0xF5 | 0xF9 | 0xFD => "SBC",
        0xE3 | 0xE7 | 0xEF | 0xF3 | 0xF7 | 0xFB | 0xFF => "ISB",
        0xE6 | 0xEE | 0xF6 | 0xFE => "INC",
        0xE8 => "INX",
        0xF0 => "BEQ",
        0xF8 => "SED",
        _ => "NOP",
    }
}

/// Looks up the name of an opcode.
pub fn mnemonic(opcode: u8) -> (r: &'static str)
    ensures
        r == name_of(opcode),
{
    match opcode {
        0x00 => "BRK",
        0x01 | 0x05 | 0x09 | 0x0D | 0x11 | 0x15 | 0x19 | 0x1D => "ORA",
        0x02 | 0x12 | 0x22 | 0x32 | 0x42 | 0x52 | 0x62 | 0x72 | 0x92 | 0xB2 | 0xD2
            | 0xF2 => "ILL",
        0x03 | 0x07 | 0x0F | 0x13 | 0x17 | 0x1B | 0x1F => "SLO",
        0x06 | 0x0A | 0x0E | 0x16 | 0x1E => "ASL",
        0x08 => "PHP",
        0x0B | 0x2B => "ANC",
        0x10 => "BPL",
        0x18 => "CLC",
        0x20 => "JSR",
        0x21 | 0x25 | 0x29 | 0x2D | 0x31 | 0x35 | 0x39 | 0x3D => "AND",
        0x23 | 0x27 | 0x2F | 0x33 | 0x37 | 0x3B | 0x3F => "RLA",
        0x24 | 0x2C => "BIT",
        0x26 | 0x2A | 0x2E | 0x36 | 0x3E => "ROL",
        0x28 => "PLP",
        0x30 => "BMI",
        0x38 => "SEC",
        0x40 => "RTI",
        0x41 | 0x45 | 0x49 | 0x4D | 0x51 | 0x55 | 0x59 | 0x5D => "EOR",
        0x43 | 0x47 | 0x4F | 0x53 | 0x57 | 0x5B | 0x5F => "SRE",
        0x46 | 0x4A | 0x4E | 0x56 | 0x5E => "LSR",
        0x48 => "PHA",
        0x4B => "ALR",
        0x4C | 0x6C => "JMP",
        0x50 => "BVC",
        0x58 => "CLI",
        0x60 => "RTS",
        0x61 | 0x65 | 0x69 | 0x6D | 0x71 | 0x75 | 0x79 | 0x7D => "ADC",
        0x63 | 0x67 | 0x6F | 0x73 | 0x77 | 0x7B | 0x7F => "RRA",
        0x66 | 0x6A | 0x6E | 0x76 | 0x7E => "ROR",
        0x68 => "PLA",
        0x6B => "ARR",
        0x70 => "BVS",
        0x78 => "SEI",
        0x81 | 0x85 | 0x8D | 0x91 | 0x95 | 0x99 | 0x9D => "STA",
        0x83 | 0x87 | 0x8F | 0x97 => "SAX",
        0x84 | 0x8C | 0x94 => "STY",
        0x86 | 0x8E | 0x96 => "STX",
        0x88 => "DEY",
        0x8A => "TXA",
        0x8B => "XAA",
        0x90 => "BCC",
        0x93 | 0x9F => "AHX",
        0x98 => "TYA",
        0x9A => "TXS",
        0x9B => "TAS",
        0x9C => "SHY",
        0x9E => "SHX",
        0xA0 | 0xA4 | 0xAC | 0xB4 | 0xBC => "LDY",
        0xA1 | 0xA5 | 0xA9 | 0xAD | 0xB1 | 0xB5 | 0xB9 | 0xBD => "LDA",
        0xA2 | 0xA6 | 0xAE | 0xB6 | 0xBE => "LDX",
        0xA3 | 0xA7 | 0xAB | 0xAF | 0xB3 | 0xB7 | 0xBF => "LAX",
        0xA8 => "TAY",
        0xAA => "TAX",
        0xB0 => "BCS",
        0xB8 => "CLV",
        0xBA => "TSX",
        0xBB => "LAS",
        0xC0 | 0xC4 | 0xCC => "CPY",
        0xC1 | 0xC5 | 0xC9 | 0xCD | 0xD1 | 0xD5 | 0xD9 | 0xDD => "CMP",
        0xC3 | 0xC7 | 0xCF | 0xD3 | 0xD7 | 0xDB | 0xDF => "DCP",
        0xC6 | 0xCE | 0xD6 | 0xDE => "DEC",
        0xC8 => "INY",
        0xCA => "DEX",
        0xCB => "AXS",
        0xD0 => "BNE",
        0xD8 => "CLD",
        0xE0 | 0xE4 | 0xEC => "CPX",
        0xE1 | 0xE5 | 0xE9 | 0xEB | 0xED | 0xF1 | 0xF5 | 0xF9 | 0xFD => "SBC",
        0xE3 | 0xE7 | 0xEF | 0xF3 | 0xF7 | 0xFB | 0xFF => "ISB",
        0xE6 | 0xEE | 0xF6 | 0xFE => "INC",
        0xE8 => "INX",
        0xF0 => "BEQ",
        0xF8 => "SED",
        _ => "NOP",
    }
}

} // verus!
