//! The cartridge file format: a 16-byte header, an optional trainer of 512
//! bytes, program memory in banks of 16 KiB and pattern memory in banks of
//! 8 KiB.

use super::mapper::{Mapper, MapperView};
use super::nrom::{Nrom, NromView};
use super::sxrom::{Registers, Sxrom, SxromView};
use super::Mirroring;
use crate::memory::{fill, filled};
use vstd::prelude::*;

verus! {

/// The size of the header.
pub const HEADER_SIZE: usize = 16;

/// The size of a trainer.
pub const TRAINER_SIZE: usize = 512;

/// The size of a bank of program memory.
pub const PROGRAM_BANK: usize = 0x4000;

/// The size of a bank of pattern memory.
pub const PATTERN_BANK: usize = 0x2000;

/// Why a cartridge file cannot be loaded.
#[derive(Debug, Clone, Copy, PartialEq, Eq, Structural)]
pub enum LoadError {
    /// The file is shorter than a header or does not begin with the
    /// format's four bytes.
    MalformedHeader,
    /// The file is shorter than the banks that its header announces.
    TruncatedBanks,
    /// The cartridge has a mapper that is not provided.
    UnsupportedMapper { mapper: u8 },
}

/// What the header says.
#[derive(Debug, Clone, Copy, PartialEq, Eq, Structural)]
pub struct Header {
    pub program_banks: u8,
    pub pattern_banks: u8,
    pub mapper: u8,
    pub mirroring: Mirroring,
    pub four_screen: bool,
    pub battery: bool,
    pub trainer: bool,
}

/// A cartridge file taken apart.
pub struct CartridgeData {
    pub header: Header,
    pub trainer: Vec<u8>,
    pub program: Vec<u8>,
    pub pattern: Vec<u8>,
}

/// A cartridge file taken apart, as contracts see it.
pub struct CartridgeDataView {
    pub header: Header,
    pub trainer: Seq<u8>,
    pub program: Seq<u8>,
    pub pattern: Seq<u8>,
}

impl View for CartridgeData {
    type V = CartridgeDataView;

    open spec fn view(&self) -> CartridgeDataView {
        CartridgeDataView {
            header: self.header,
            trainer: self.trainer@,
            program: self.program@,
            pattern: self.pattern@,
        }
    }
}

/// Whether `bytes` begins with a header: 16 bytes, of which the first four
/// are `N`, `E`, `S` and 0x1A.
pub open spec fn has_header(bytes: Seq<u8>) -> bool {
    bytes.len() >= HEADER_SIZE && bytes[0] == 0x4E && bytes[1] == 0x45 && bytes[2] == 0x53
        && bytes[3] == 0x1A
}

/// What the header of `bytes` says. Byte 4 counts the program banks, byte
/// 5 the pattern banks. Of byte 6, bit 0 selects vertical mirroring, bit 1
/// says that memory is kept by a battery, bit 2 that a trainer follows the
/// header, bit 3 that the cartridge has four nametables of its own, and
/// the high four bits are the low four of the mapper number, whose high
/// four are the high four bits of byte 7.
pub open spec fn header_of(bytes: Seq<u8>) -> Header {
    Header {
        program_banks: bytes[4],
        pattern_banks: bytes[5],
        mapper: ((bytes[6] / 16) + (bytes[7] / 16) * 16) as u8,
        mirroring: if bytes[6] % 2 == 1 {
            Mirroring::Vertical
        } else {
            Mirroring::Horizontal
        },
        four_screen: (bytes[6] / 8) % 2 == 1,
        battery: (bytes[6] / 2) % 2 == 1,
        trainer: (bytes[6] / 4) % 2 == 1,
    }
}

impl Header {
    /// The size of the trainer that the header announces.
    pub open spec fn trainer_size(self) -> int {
        if self.trainer {
            TRAINER_SIZE as int
        } else {
            0
        }
    }

    /// Where program memory begins in the file.
    pub open spec fn program_start(self) -> int {
        HEADER_SIZE + self.trainer_size()
    }

    /// Where pattern memory begins in the file.
    pub open spec fn pattern_start(self) -> int {
        self.program_start() + self.program_banks * PROGRAM_BANK
    }

    /// The size of the file that the header announces.
    pub open spec fn file_size(self) -> int {
        self.pattern_start() + self.pattern_banks * PATTERN_BANK
    }
}

/// What `bytes` holds as a cartridge file, or why it is none.
pub open spec fn parsed(bytes: Seq<u8>) -> Result<CartridgeDataView, LoadError> {
    if !has_header(bytes) {
        Err(LoadError::MalformedHeader)
    } else {
        let header = header_of(bytes);
        if bytes.len() < header.file_size() {
            Err(LoadError::TruncatedBanks)
        } else {
            Ok(
                CartridgeDataView {
                    header,
                    trainer: bytes.subrange(HEADER_SIZE as int, header.program_start()),
                    program: bytes.subrange(header.program_start(), header.pattern_start()),
                    pattern: bytes.subrange(header.pattern_start(), header.file_size()),
                },
            )
        }
    }
}

/// The pattern memory of the cartridge that `data` describes: its
/// pattern banks, or 8 KiB that can be written where it has none.
pub open spec fn pattern_of(data: CartridgeDataView) -> Seq<u8> {
    if data.header.pattern_banks == 0 {
        filled(PATTERN_BANK as nat, 0)
    } else {
        data.pattern
    }
}

/// The cartridge that `data` describes, or why there is none: mapper 0 is
/// no mapper, mapper 1 the first of the mapper chips, and no other is
/// provided.
pub open spec fn mapper_of(data: CartridgeDataView) -> Result<MapperView, LoadError> {
    if data.header.mapper == 0 {
        Ok(
            MapperView::Nrom(
                NromView {
                    program: data.program,
                    pattern: pattern_of(data),
                    work: filled(super::nrom::WORK_SIZE as nat, 0),
                    pattern_writable: data.header.pattern_banks == 0,
                    mirroring: data.header.mirroring,
                },
            ),
        )
    } else if data.header.mapper == 1 {
        Ok(
            MapperView::Sxrom(
                SxromView {
                    registers: Registers::initial(),
                    program: data.program,
                    pattern: pattern_of(data),
                    work: filled(super::nrom::WORK_SIZE as nat, 0),
                    pattern_writable: data.header.pattern_banks == 0,
                },
            ),
        )
    } else {
        Err(LoadError::UnsupportedMapper { mapper: data.header.mapper })
    }
}

/// The bytes of `bytes` from `start` up to `end`.
pub fn copy_range(bytes: &Vec<u8>, start: usize, end: usize) -> (r: Vec<u8>)
    requires
        start <= end <= bytes.len(),
    ensures
        r@ == bytes@.subrange(start as int, end as int),
{
    let mut result: Vec<u8> = Vec::new();
    let mut index = start;
    while index < end
        invariant
            start <= index <= end <= bytes.len(),
            result@ == bytes@.subrange(start as int, index as int),
        decreases end - index,
    {
        result.push(bytes[index]);
        proof {
            assert(result@ =~= bytes@.subrange(start as int, index + 1));
        }
        index = index + 1;
    }
    result
}

/// Reads the header of a file that has one: see [`header_of`].
pub fn read_header(bytes: &Vec<u8>) -> (r: Header)
    requires
        bytes@.len() >= HEADER_SIZE,
    ensures
        r == header_of(bytes@),
{
    let flags = bytes[6];
    Header {
        program_banks: bytes[4],
        pattern_banks: bytes[5],
        mapper: (flags / 16) + (bytes[7] / 16) * 16,
        mirroring: if flags % 2 == 1 {
            Mirroring::Vertical
        } else {
            Mirroring::Horizontal
        },
        four_screen: (flags / 8) % 2 == 1,
        battery: (flags / 2) % 2 == 1,
        trainer: (flags / 4) % 2 == 1,
    }
}

/// Takes a cartridge file apart: see [`parsed`].
pub fn parse(bytes: &Vec<u8>) -> (r: Result<CartridgeData, LoadError>)
    ensures
        match r {
            Ok(data) => parsed(bytes@) == Ok::<CartridgeDataView, LoadError>(data@),
            Err(error) => parsed(bytes@) == Err::<CartridgeDataView, LoadError>(error),
        },
{
    if bytes.len() < HEADER_SIZE || bytes[0] != 0x4E || bytes[1] != 0x45 || bytes[2] != 0x53
        || bytes[3] != 0x1A {
        return Err(LoadError::MalformedHeader);
    }
    let header = read_header(bytes);
    let program_start: usize = if header.trainer {
        HEADER_SIZE + TRAINER_SIZE
    } else {
        HEADER_SIZE
    };
    let pattern_start: usize = program_start + (header.program_banks as usize) * PROGRAM_BANK;
    let end: usize = pattern_start + (header.pattern_banks as usize) * PATTERN_BANK;
    if bytes.len() < end {
        return Err(LoadError::TruncatedBanks);
    }
    Ok(
        CartridgeData {
            header,
            trainer: copy_range(bytes, HEADER_SIZE, program_start),
            program: copy_range(bytes, program_start, pattern_start),
            pattern: copy_range(bytes, pattern_start, end),
        },
    )
}

/// Loads the cartridge that a file holds: see [`parsed`] and
/// [`mapper_of`].
pub fn load(bytes: &Vec<u8>) -> (r: Result<Mapper, LoadError>)
    ensures
        match r {
            Ok(cartridge) => parsed(bytes@).is_ok() && mapper_of(parsed(bytes@).unwrap()) == Ok::<
                MapperView,
                LoadError,
            >(cartridge@),
            Err(error) => match parsed(bytes@) {
                Ok(data) => mapper_of(data) == Err::<MapperView, LoadError>(error),
                Err(e) => error == e,
            },
        },
{
    match parse(bytes) {
        Err(error) => Err(error),
        Ok(data) => {
            let writable = data.header.pattern_banks == 0;
            let mapper = data.header.mapper;
            if mapper > 1 {
                return Err(LoadError::UnsupportedMapper { mapper });
            }
            let mirroring = data.header.mirroring;
            let pattern = if writable {
                fill(PATTERN_BANK, 0)
            } else {
                data.pattern
            };
            if mapper == 0 {
                Ok(Mapper::Nrom(Nrom::new(data.program, pattern, writable, mirroring)))
            } else {
                Ok(Mapper::Sxrom(Sxrom::new(data.program, pattern, writable)))
            }
        },
    }
}

} // verus!
