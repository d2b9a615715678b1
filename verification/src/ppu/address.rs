//! The picture unit's address space: pattern memory on the cartridge,
//! four nametables wired onto two kilobytes, and the palette.

use crate::cartridge::Mirroring;
use vstd::prelude::*;

verus! {

/// Where the nametables begin.
pub const NAMETABLE_BASE: u16 = 0x2000;

/// Where the palette begins.
pub const PALETTE_BASE: u16 = 0x3F00;

/// The size of the address space: addresses count modulo this.
pub const ADDRESS_SPACE: u16 = 0x4000;

/// The size of one nametable.
pub const NAMETABLE_SIZE: u16 = 0x400;

/// The kilobyte of nametable memory, first or second, that shows in the
/// nametable number `table` (0 top left, 1 top right, 2 bottom left, 3
/// bottom right).
pub open spec fn nametable_bank(mirroring: Mirroring, table: int) -> int {
    match mirroring {
        Mirroring::Horizontal => if table < 2 {
            0
        } else {
            1
        },
        Mirroring::Vertical => table % 2,
        Mirroring::SingleLower => 0,
        Mirroring::SingleUpper => 1,
    }
}

/// The index into the two kilobytes of nametable memory that the address
/// `address` reaches.
pub open spec fn nametable_index(mirroring: Mirroring, address: u16) -> int {
    let offset = (address % 0x1000) as int;
    nametable_bank(mirroring, offset / 0x400) * 0x400 + offset % 0x400
}

/// The index into the 32 bytes of palette memory that the address
/// `address` reaches: the entries 0x10, 0x14, 0x18 and 0x1C are the
/// entries 0x00, 0x04, 0x08 and 0x0C.
pub open spec fn palette_index(address: u16) -> int {
    let entry = (address % 32) as int;
    if entry >= 16 && entry % 4 == 0 {
        entry - 16
    } else {
        entry
    }
}

pub fn nametable_slot(mirroring: Mirroring, address: u16) -> (r: usize)
    ensures
        r == nametable_index(mirroring, address),
        r < 0x800,
{
    let offset = address % 0x1000;
    let table = offset / 0x400;
    let bank: u16 = match mirroring {
        Mirroring::Horizontal => if table < 2 {
            0
        } else {
            1
        },
        Mirroring::Vertical => table % 2,
        Mirroring::SingleLower => 0,
        Mirroring::SingleUpper => 1,
    };
    (bank * 0x400 + offset % 0x400) as usize
}

pub fn palette_slot(address: u16) -> (r: usize)
    ensures
        r == palette_index(address),
        r < 32,
{
    let entry = address % 32;
    if entry >= 16 && entry % 4 == 0 {
        (entry - 16) as usize
    } else {
        entry as usize
    }
}

} // verus!
