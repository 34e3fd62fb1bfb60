//! The cartridge dump format: a 16-byte header, an optional 512-byte
//! trainer, then the program banks and the character banks.

use vstd::prelude::*;
use crate::utils::{bit_is_set, bit_set};

verus! {

pub const HEADER_SIZE: usize = 16;

pub const TRAINER_SIZE: usize = 512;

/// Size of each PRG ROM chunk.
pub const PRG_ROM_CHUNK_SIZE: usize = 16384;

/// Offset to the number of PRG ROM chunks in the header.
pub const PRG_ROM_CHUNKS_OFFSET: usize = 4;

/// Size of each CHR ROM chunk.
pub const CHR_ROM_CHUNK_SIZE: usize = 8192;

/// Offset to the number of CHR ROM chunks in the header.
pub const CHR_ROM_CHUNKS_OFFSET: usize = 5;

#[derive(Debug, Clone, Copy, PartialEq, Eq, Structural)]
pub enum FileFormat {
    INES,
    INES2,
}

#[derive(Debug, Clone, Copy, PartialEq, Eq, Structural)]
pub enum MirroringType {
    Horizontal,
    Vertical,
}

/// Why a cartridge image was turned down.
#[derive(Debug, Clone, Copy, PartialEq, Eq, Structural)]
pub enum RomError {
    /// The image is shorter than a header.
    MissingHeader,
    /// The image does not start with "NES" and 0x1A.
    BadMagic,
    /// The image ends before the banks that its header announces.
    Truncated,
    /// No mapper of the library has this number.
    UnsupportedMapper,
    /// The mapper cannot take this number of PRG or CHR banks.
    BadBankCount,
}

/// Fields derived from the "Flags 6" byte of the header.
#[derive(Debug, Clone, Copy)]
pub struct Flags6 {
    pub mirroring: MirroringType,
    pub _has_battery_backed_prg_ram: bool,
    pub has_trainer: bool,
    pub _four_screen_vram: bool,
    pub mapper_lower_nybble: u8,
}

/// Fields derived from the "Flags 7" byte of the header.
#[derive(Debug, Clone, Copy)]
pub struct Flags7 {
    pub _vs_unisystem: bool,
    pub _playchoice_10: bool,
    pub _file_format: FileFormat,
    pub mapper_upper_nybble: u8,
}

/// Header data of a cartridge image.
#[derive(Debug, Clone, Copy)]
pub struct InesHeader {
    pub num_prg_rom_chunks: usize,
    pub num_chr_rom_chunks: usize,
    /// Fields from "Flags 6".
    pub flags6: Flags6,
    /// Fields from "Flags 7".
    pub flags7: Flags7,
}

/// A parsed cartridge image.
#[derive(Debug)]
pub struct InesRom {
    pub header: InesHeader,
    pub prg_rom: Vec<[u8; 16384]>,
    pub chr_rom: Vec<[u8; 8192]>,
    /// Name under which the cartridge's battery RAM is kept; empty until
    /// the host sets it.
    pub rom_name: String,
}

/// What the byte at offset 6 of the header says.
pub open spec fn flags6_of(flags: u8) -> Flags6 {
    Flags6 {
        mirroring: if bit_set(0, flags) {
            MirroringType::Vertical
        } else {
            MirroringType::Horizontal
        },
        _has_battery_backed_prg_ram: bit_set(1, flags),
        has_trainer: bit_set(2, flags),
        _four_screen_vram: bit_set(3, flags),
        mapper_lower_nybble: flags >> 4,
    }
}

/// What the byte at offset 7 of the header says.
pub open spec fn flags7_of(flags: u8) -> Flags7 {
    Flags7 {
        _vs_unisystem: bit_set(0, flags),
        _playchoice_10: bit_set(1, flags),
        _file_format: if (flags & 0x0C) == 0x08 {
            FileFormat::INES2
        } else {
            FileFormat::INES
        },
        mapper_upper_nybble: flags & 0xF0,
    }
}

/// Whether `buffer` starts with the four bytes that mark the format.
pub open spec fn has_magic(buffer: Seq<u8>) -> bool {
    &&& buffer.len() >= 4
    &&& buffer[0] == 0x4E
    &&& buffer[1] == 0x45
    &&& buffer[2] == 0x53
    &&& buffer[3] == 0x1A
}

/// The header that a buffer of at least 16 bytes starts with.
pub open spec fn header_of(buffer: Seq<u8>) -> InesHeader {
    InesHeader {
        num_prg_rom_chunks: buffer[PRG_ROM_CHUNKS_OFFSET as int] as usize,
        num_chr_rom_chunks: buffer[CHR_ROM_CHUNKS_OFFSET as int] as usize,
        flags6: flags6_of(buffer[6]),
        flags7: flags7_of(buffer[7]),
    }
}

/// Offset of the first PRG bank in an image with this header.
pub open spec fn prg_offset(header: InesHeader) -> int {
    HEADER_SIZE + if header.flags6.has_trainer { TRAINER_SIZE as int } else { 0 }
}

/// Offset of the first CHR bank in an image with this header.
pub open spec fn chr_offset(header: InesHeader) -> int {
    prg_offset(header) + PRG_ROM_CHUNK_SIZE * header.num_prg_rom_chunks
}

/// Length of a complete image with this header.
pub open spec fn image_len(header: InesHeader) -> int {
    chr_offset(header) + CHR_ROM_CHUNK_SIZE * header.num_chr_rom_chunks
}

/// Why `buffer` is no cartridge image, if it is none.
pub open spec fn rom_error(buffer: Seq<u8>) -> Option<RomError> {
    if buffer.len() < HEADER_SIZE {
        Some(RomError::MissingHeader)
    } else if !has_magic(buffer) {
        Some(RomError::BadMagic)
    } else if buffer.len() < image_len(header_of(buffer)) {
        Some(RomError::Truncated)
    } else {
        None
    }
}

/// Whether `banks` are the `count` consecutive chunks of 16 KiB that
/// `buffer` holds from `offset` on.
pub open spec fn prg_banks_of(banks: Seq<[u8; 16384]>, buffer: Seq<u8>, offset: int, count: int) -> bool {
    &&& banks.len() == count
    &&& forall|i: int, j: int|
        0 <= i < count && 0 <= j < PRG_ROM_CHUNK_SIZE ==> (#[trigger] banks[i][j]) == buffer[offset
            + i * PRG_ROM_CHUNK_SIZE + j]
}

/// Whether `banks` are the `count` consecutive chunks of 8 KiB that
/// `buffer` holds from `offset` on.
pub open spec fn chr_banks_of(banks: Seq<[u8; 8192]>, buffer: Seq<u8>, offset: int, count: int) -> bool {
    &&& banks.len() == count
    &&& forall|i: int, j: int|
        0 <= i < count && 0 <= j < CHR_ROM_CHUNK_SIZE ==> (#[trigger] banks[i][j]) == buffer[offset
            + i * CHR_ROM_CHUNK_SIZE + j]
}

impl Flags6 {
    pub fn parse(flags: u8) -> (r: Self)
        ensures
            r == flags6_of(flags),
    {
        let mapper_lower_nybble: u8 = flags >> 4;
        let mirroring = if bit_is_set(0, flags) {
            MirroringType::Vertical
        } else {
            MirroringType::Horizontal
        };
        Self {
            mirroring,
            _has_battery_backed_prg_ram: bit_is_set(1, flags),
            has_trainer: bit_is_set(2, flags),
            _four_screen_vram: bit_is_set(3, flags),
            mapper_lower_nybble,
        }
    }
}

impl Flags7 {
    pub fn parse(flags: u8) -> (r: Self)
        ensures
            r == flags7_of(flags),
    {
        let format_value: u8 = (flags & 0x0C) >> 2;
        assert(((flags & 0x0C) >> 2 == 2) == ((flags & 0x0C) == 0x08)) by (bit_vector);
        let file_format = if format_value == 2 {
            FileFormat::INES2
        } else {
            FileFormat::INES
        };
        Self {
            _vs_unisystem: bit_is_set(0, flags),
            _playchoice_10: bit_is_set(1, flags),
            _file_format: file_format,
            mapper_upper_nybble: flags & 0xf0,
        }
    }
}

impl InesHeader {
    /// Reads the header off the front of `buffer`.
    pub fn parse(buffer: &[u8]) -> (r: Result<Self, RomError>)
        ensures
            buffer@.len() < HEADER_SIZE ==> r == Err::<Self, RomError>(RomError::MissingHeader),
            buffer@.len() >= HEADER_SIZE && !has_magic(buffer@) ==> r == Err::<Self, RomError>(
                RomError::BadMagic,
            ),
            buffer@.len() >= HEADER_SIZE && has_magic(buffer@) ==> r == Ok::<Self, RomError>(
                header_of(buffer@),
            ),
    {
        if buffer.len() < HEADER_SIZE {
            return Err(RomError::MissingHeader);
        }
        if buffer[0] != 0x4E || buffer[1] != 0x45 || buffer[2] != 0x53 || buffer[3] != 0x1A {
            return Err(RomError::BadMagic);
        }
        let num_prg_rom_chunks: usize = buffer[PRG_ROM_CHUNKS_OFFSET] as usize;
        let num_chr_rom_chunks: usize = buffer[CHR_ROM_CHUNKS_OFFSET] as usize;
        Ok(
            Self {
                num_prg_rom_chunks,
                num_chr_rom_chunks,
                flags6: Flags6::parse(buffer[6]),
                flags7: Flags7::parse(buffer[7]),
            },
        )
    }
}

/// Cuts the PRG part of an image into banks of 16 KiB. `buffer` is the
/// slice that holds just the PRG data.
pub fn parse_prg_rom(buffer: &[u8], num_prg_rom_chunks: usize) -> (r: Vec<[u8; 16384]>)
    requires
        num_prg_rom_chunks <= 255,
        buffer@.len() >= num_prg_rom_chunks * PRG_ROM_CHUNK_SIZE,
    ensures
        prg_banks_of(r@, buffer@, 0, num_prg_rom_chunks as int),
{
    let mut prg_rom_banks: Vec<[u8; 16384]> = Vec::new();
    let mut i: usize = 0;
    while i < num_prg_rom_chunks
        invariant
            i <= num_prg_rom_chunks <= 255,
            buffer@.len() >= num_prg_rom_chunks * PRG_ROM_CHUNK_SIZE,
            prg_banks_of(prg_rom_banks@, buffer@, 0, i as int),
        decreases num_prg_rom_chunks - i,
    {
        let bank_start: usize = i * PRG_ROM_CHUNK_SIZE;
        let mut bank: [u8; 16384] = [0u8; 16384];
        let mut j: usize = 0;
        while j < PRG_ROM_CHUNK_SIZE
            invariant
                j <= PRG_ROM_CHUNK_SIZE,
                i < num_prg_rom_chunks <= 255,
                bank_start == i * PRG_ROM_CHUNK_SIZE,
                buffer@.len() >= num_prg_rom_chunks * PRG_ROM_CHUNK_SIZE,
                forall|k: int| 0 <= k < j ==> bank[k] == buffer@[bank_start + k],
            decreases PRG_ROM_CHUNK_SIZE - j,
        {
            bank[j] = buffer[bank_start + j];
            j = j + 1;
        }
        prg_rom_banks.push(bank);
        i = i + 1;
    }
    prg_rom_banks
}

/// Cuts the CHR part of an image into banks of 8 KiB. `buffer` is the slice
/// that holds just the CHR data.
pub fn parse_chr_rom(buffer: &[u8], num_chr_rom_chunks: usize) -> (r: Vec<[u8; 8192]>)
    requires
        num_chr_rom_chunks <= 255,
        buffer@.len() >= num_chr_rom_chunks * CHR_ROM_CHUNK_SIZE,
    ensures
        chr_banks_of(r@, buffer@, 0, num_chr_rom_chunks as int),
{
    let mut chr_rom_banks: Vec<[u8; 8192]> = Vec::new();
    let mut i: usize = 0;
    while i < num_chr_rom_chunks
        invariant
            i <= num_chr_rom_chunks <= 255,
            buffer@.len() >= num_chr_rom_chunks * CHR_ROM_CHUNK_SIZE,
            chr_banks_of(chr_rom_banks@, buffer@, 0, i as int),
        decreases num_chr_rom_chunks - i,
    {
        let bank_start: usize = i * CHR_ROM_CHUNK_SIZE;
        let mut bank: [u8; 8192] = [0u8; 8192];
        let mut j: usize = 0;
        while j < CHR_ROM_CHUNK_SIZE
            invariant
                j <= CHR_ROM_CHUNK_SIZE,
                i < num_chr_rom_chunks <= 255,
                bank_start == i * CHR_ROM_CHUNK_SIZE,
                buffer@.len() >= num_chr_rom_chunks * CHR_ROM_CHUNK_SIZE,
                forall|k: int| 0 <= k < j ==> bank[k] == buffer@[bank_start + k],
            decreases CHR_ROM_CHUNK_SIZE - j,
        {
            bank[j] = buffer[bank_start + j];
            j = j + 1;
        }
        chr_rom_banks.push(bank);
        i = i + 1;
    }
    chr_rom_banks
}

impl InesRom {
    /// Whether this is the image that `buffer` holds.
    pub open spec fn parsed_from(&self, buffer: Seq<u8>) -> bool {
        &&& self.header == header_of(buffer)
        &&& prg_banks_of(
            self.prg_rom@,
            buffer,
            prg_offset(self.header),
            self.header.num_prg_rom_chunks as int,
        )
        &&& chr_banks_of(
            self.chr_rom@,
            buffer,
            chr_offset(self.header),
            self.header.num_chr_rom_chunks as int,
        )
        &&& self.rom_name@.len() == 0
    }

    /// The bank counts of the header are those of the two bank lists.
    pub open spec fn inv(&self) -> bool {
        &&& self.prg_rom@.len() == self.header.num_prg_rom_chunks
        &&& self.chr_rom@.len() == self.header.num_chr_rom_chunks
    }

    /// Parses a cartridge image.
    pub fn from_buffer(buffer: &[u8]) -> (r: Result<Self, RomError>)
        ensures
            match r {
                Ok(rom) => rom_error(buffer@) is None && rom.parsed_from(buffer@) && rom.inv(),
                Err(e) => rom_error(buffer@) == Some(e),
            },
    {
        let header = match InesHeader::parse(buffer) {
            Ok(h) => h,
            Err(e) => {
                return Err(e);
            },
        };
        let trainer_bytes: usize = if header.flags6.has_trainer {
            TRAINER_SIZE
        } else {
            0
        };
        let prg_rom_offset: usize = HEADER_SIZE + trainer_bytes;
        let prg_rom_size: usize = PRG_ROM_CHUNK_SIZE * header.num_prg_rom_chunks;
        let chr_rom_offset: usize = prg_rom_offset + prg_rom_size;
        let chr_rom_size: usize = CHR_ROM_CHUNK_SIZE * header.num_chr_rom_chunks;
        if buffer.len() < chr_rom_offset + chr_rom_size {
            return Err(RomError::Truncated);
        }
        let prg_part: &[u8] = &buffer[prg_rom_offset..chr_rom_offset];
        let chr_part: &[u8] = &buffer[chr_rom_offset..chr_rom_offset + chr_rom_size];
        let prg_rom = parse_prg_rom(prg_part, header.num_prg_rom_chunks);
        let chr_rom = parse_chr_rom(chr_part, header.num_chr_rom_chunks);
        let rom = Self { header, prg_rom, chr_rom, rom_name: String::new() };
        proof {
            assert forall|i: int, j: int|
                0 <= i < header.num_prg_rom_chunks && 0 <= j < PRG_ROM_CHUNK_SIZE implies (
            #[trigger] rom.prg_rom@[i][j]) == buffer@[prg_offset(header) + i * PRG_ROM_CHUNK_SIZE
                + j] by {
                assert(prg_part@[0 + i * PRG_ROM_CHUNK_SIZE + j] == buffer@[prg_rom_offset + (i
                    * PRG_ROM_CHUNK_SIZE + j)]);
            }
            assert forall|i: int, j: int|
                0 <= i < header.num_chr_rom_chunks && 0 <= j < CHR_ROM_CHUNK_SIZE implies (
            #[trigger] rom.chr_rom@[i][j]) == buffer@[chr_offset(header) + i * CHR_ROM_CHUNK_SIZE
                + j] by {
                assert(chr_part@[0 + i * CHR_ROM_CHUNK_SIZE + j] == buffer@[chr_rom_offset + (i
                    * CHR_ROM_CHUNK_SIZE + j)]);
            }
        }
        Ok(rom)
    }

    /// The number of the mapper that the cartridge carries: the two nybbles
    /// of the header put together.
    pub fn get_mapper_number(&self) -> (r: u16)
        ensures
            r == (self.header.flags7.mapper_upper_nybble | self.header.flags6.mapper_lower_nybble),
    {
        let mapper: u8 = self.header.flags7.mapper_upper_nybble
            | self.header.flags6.mapper_lower_nybble;
        mapper as u16
    }
}

} // verus!
