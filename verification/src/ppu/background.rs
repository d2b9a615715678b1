//! The background pipeline: what is fetched for the tiles to come, and
//! the shifters from which the pixels of the tiles at hand are taken.

use vstd::prelude::*;

verus! {

/// The fetched bytes, the two 16-bit pattern shifters, the two 8-bit
/// attribute shifters and the two latches that feed them.
#[derive(Debug, Clone, Copy, PartialEq, Eq, Structural)]
pub struct Background {
    pub nametable_byte: u8,
    pub attribute_bits: u8,
    pub pattern_low: u8,
    pub pattern_high: u8,
    pub shift_low: u16,
    pub shift_high: u16,
    pub attribute_shift_low: u8,
    pub attribute_shift_high: u8,
    pub attribute_latch_low: bool,
    pub attribute_latch_high: bool,
}

/// The address of the nametable byte of the tile that `v` points at.
pub open spec fn tile_address(v: u16) -> u16 {
    (0x2000 + v % 0x1000) as u16
}

/// The address of the attribute byte of the tile that `v` points at: 64
/// bytes at the end of its nametable, one for every four by four tiles.
pub open spec fn attribute_address(v: u16) -> u16 {
    (0x23C0 + ((v / 0x400) % 4) * 0x400 + (((v / 32) % 32) / 4) * 8 + (v % 32) / 4) as u16
}

/// The two palette bits of the tile that `v` points at, out of its
/// attribute byte: bits 0 and 1 for the top left two by two tiles, 2 and
/// 3 for the top right, 4 and 5 for the bottom left, 6 and 7 for the
/// bottom right.
pub open spec fn attribute_quadrant(v: u16, byte: u8) -> u8 {
    let right = ((v % 32) / 2) % 2 == 1;
    let bottom = (((v / 32) % 32) / 2) % 2 == 1;
    if bottom {
        if right {
            (byte / 64) as u8
        } else {
            ((byte / 16) % 4) as u8
        }
    } else {
        if right {
            ((byte / 4) % 4) as u8
        } else {
            (byte % 4) as u8
        }
    }
}

/// The address of the low pattern byte of the tile `tile` at the pixel
/// row that `v` points at, in the second pattern table when `second`. The
/// high byte lies 8 further.
pub open spec fn pattern_address(second: bool, tile: u8, v: u16) -> u16 {
    ((if second {
        0x1000int
    } else {
        0
    }) + tile * 16 + (v / 0x1000) % 8) as u16
}

pub fn tile_slot(v: u16) -> (r: u16)
    ensures
        r == tile_address(v),
{
    0x2000 + v % 0x1000
}

pub fn attribute_slot(v: u16) -> (r: u16)
    ensures
        r == attribute_address(v),
{
    0x23C0 + ((v / 0x400) % 4) * 0x400 + (((v / 32) % 32) / 4) * 8 + (v % 32) / 4
}

pub fn quadrant(v: u16, byte: u8) -> (r: u8)
    ensures
        r == attribute_quadrant(v, byte),
        r < 4,
{
    let right = ((v % 32) / 2) % 2 == 1;
    let bottom = (((v / 32) % 32) / 2) % 2 == 1;
    if bottom {
        if right {
            byte / 64
        } else {
            (byte / 16) % 4
        }
    } else {
        if right {
            (byte / 4) % 4
        } else {
            byte % 4
        }
    }
}

pub fn pattern_slot(second: bool, tile: u8, v: u16) -> (r: u16)
    ensures
        r == pattern_address(second, tile, v),
{
    let base: u16 = if second {
        0x1000
    } else {
        0
    };
    base + (tile as u16) * 16 + (v / 0x1000) % 8
}

impl Background {
    /// The pipeline at power-on.
    pub open spec fn initial() -> Background {
        Background {
            nametable_byte: 0,
            attribute_bits: 0,
            pattern_low: 0,
            pattern_high: 0,
            shift_low: 0,
            shift_high: 0,
            attribute_shift_low: 0,
            attribute_shift_high: 0,
            attribute_latch_low: false,
            attribute_latch_high: false,
        }
    }

    /// The pipeline after the fetched tile entered the shifters: its
    /// pattern bytes go to the low halves of the pattern shifters, its
    /// palette bits to the latches.
    pub open spec fn reloaded(self) -> Background {
        Background {
            shift_low: (self.shift_low & 0xFF00) | (self.pattern_low as u16),
            shift_high: (self.shift_high & 0xFF00) | (self.pattern_high as u16),
            attribute_latch_low: self.attribute_bits % 2 == 1,
            attribute_latch_high: (self.attribute_bits / 2) % 2 == 1,
            ..self
        }
    }

    /// The pipeline after a shift: every shifter moves one place up, and
    /// the attribute shifters take in their latches.
    pub open spec fn shifted(self) -> Background {
        Background {
            shift_low: self.shift_low << 1,
            shift_high: self.shift_high << 1,
            attribute_shift_low: (self.attribute_shift_low << 1) | (if self.attribute_latch_low {
                1u8
            } else {
                0
            }),
            attribute_shift_high: (self.attribute_shift_high << 1) | (if self.attribute_latch_high {
                1u8
            } else {
                0
            }),
            ..self
        }
    }

    /// The pixel that the shifters show at fine scroll `x`: two pattern
    /// bits below two palette bits. Zero in the pattern bits means that
    /// the background is transparent there.
    pub open spec fn pixel(self, x: u8) -> u8 {
        let fine = x % 8;
        let low: u8 = if (self.shift_low >> ((15 - fine) as u16)) & 1 != 0 {
            1
        } else {
            0
        };
        let high: u8 = if (self.shift_high >> ((15 - fine) as u16)) & 1 != 0 {
            2
        } else {
            0
        };
        let palette_low: u8 = if (self.attribute_shift_low >> ((7 - fine) as u8)) & 1 != 0 {
            4
        } else {
            0
        };
        let palette_high: u8 = if (self.attribute_shift_high >> ((7 - fine) as u8)) & 1 != 0 {
            8
        } else {
            0
        };
        (low + high + palette_low + palette_high) as u8
    }

    pub fn new() -> (r: Self)
        ensures
            r == Self::initial(),
    {
        Background {
            nametable_byte: 0,
            attribute_bits: 0,
            pattern_low: 0,
            pattern_high: 0,
            shift_low: 0,
            shift_high: 0,
            attribute_shift_low: 0,
            attribute_shift_high: 0,
            attribute_latch_low: false,
            attribute_latch_high: false,
        }
    }

    pub fn reload(&mut self)
        ensures
            *final(self) == old(self).reloaded(),
    {
        self.shift_low = (self.shift_low & 0xFF00) | (self.pattern_low as u16);
        self.shift_high = (self.shift_high & 0xFF00) | (self.pattern_high as u16);
        self.attribute_latch_low = self.attribute_bits % 2 == 1;
        self.attribute_latch_high = (self.attribute_bits / 2) % 2 == 1;
    }

    pub fn shift(&mut self)
        ensures
            *final(self) == old(self).shifted(),
    {
        self.shift_low = self.shift_low << 1;
        self.shift_high = self.shift_high << 1;
        self.attribute_shift_low = (self.attribute_shift_low << 1) | (if self.attribute_latch_low {
            1u8
        } else {
            0
        });
        self.attribute_shift_high = (self.attribute_shift_high << 1) | (if self.attribute_latch_high {
            1u8
        } else {
            0
        });
    }

    pub fn get_pixel(&self, x: u8) -> (r: u8)
        ensures
            r == self.pixel(x),
            r < 16,
    {
        let fine = x % 8;
        let low: u8 = if (self.shift_low >> ((15 - fine) as u16)) & 1 != 0 {
            1
        } else {
            0
        };
        let high: u8 = if (self.shift_high >> ((15 - fine) as u16)) & 1 != 0 {
            2
        } else {
            0
        };
        let palette_low: u8 = if (self.attribute_shift_low >> (7 - fine)) & 1 != 0 {
            4
        } else {
            0
        };
        let palette_high: u8 = if (self.attribute_shift_high >> (7 - fine)) & 1 != 0 {
            8
        } else {
            0
        };
        low + high + palette_low + palette_high
    }
}

} // verus!
