//! The scroll registers: the current address `v`, the temporary address
//! `t`, the fine horizontal scroll and the write toggle.
//!
//! An address holds, from its low end: five bits of coarse X, five of
//! coarse Y, two that select the nametable, three of fine Y.

use vstd::prelude::*;

verus! {

/// The low five bits of an address: coarse X.
pub const COARSE_X: u16 = 0x001F;

/// Bits 5 to 9 of an address: coarse Y.
pub const COARSE_Y: u16 = 0x03E0;

/// Bit 10 of an address: the nametable's horizontal half.
pub const NAMETABLE_X: u16 = 0x0400;

/// Bit 11 of an address: the nametable's vertical half.
pub const NAMETABLE_Y: u16 = 0x0800;

/// Bits 12 to 14 of an address: fine Y.
pub const FINE_Y: u16 = 0x7000;

/// The bits of an address that belong to the horizontal position.
pub const HORIZONTAL: u16 = 0x041F;

/// The bits of an address that belong to the vertical position.
pub const VERTICAL: u16 = 0x7BE0;

/// The four scroll registers.
#[derive(Debug, Clone, Copy, PartialEq, Eq, Structural)]
pub struct Scroll {
    pub v: u16,
    pub t: u16,
    pub x: u8,
    pub w: bool,
}

/// `v` one tile to the right: coarse X goes up and wraps from 31 to 0
/// into the other horizontal half.
pub open spec fn next_tile(v: u16) -> u16 {
    if v & COARSE_X == 31 {
        (v & !COARSE_X) ^ NAMETABLE_X
    } else {
        v.wrapping_add(1)
    }
}

/// `v` one pixel row down: fine Y goes up; from 7 it wraps to 0 and
/// coarse Y goes up, which wraps from 29 to 0 into the other vertical
/// half, and from 31 to 0 without that.
pub open spec fn next_row(v: u16) -> u16 {
    if v & FINE_Y != FINE_Y {
        v.wrapping_add(0x1000)
    } else {
        let cleared = v & !FINE_Y;
        let y = (cleared & COARSE_Y) >> 5;
        if y == 29 {
            (cleared & !COARSE_Y) ^ NAMETABLE_Y
        } else if y == 31 {
            cleared & !COARSE_Y
        } else {
            (cleared & !COARSE_Y) | (y.wrapping_add(1) << 5)
        }
    }
}

/// `v` with the horizontal bits of `t`.
pub open spec fn with_horizontal(v: u16, t: u16) -> u16 {
    (v & !HORIZONTAL) | (t & HORIZONTAL)
}

/// `v` with the vertical bits of `t`.
pub open spec fn with_vertical(v: u16, t: u16) -> u16 {
    (v & !VERTICAL) | (t & VERTICAL)
}

impl Scroll {
    /// The registers after `value` was written to the control register:
    /// its low two bits select the nametable in `t`.
    pub open spec fn control_written(self, value: u8) -> Scroll {
        Scroll { t: (self.t & 0xF3FF) | (((value & 3) as u16) << 10), ..self }
    }

    /// The registers after `value` was written to the scroll register: the
    /// first write sets the horizontal scroll, the second the vertical.
    pub open spec fn scroll_written(self, value: u8) -> Scroll {
        if !self.w {
            Scroll {
                t: (self.t & 0xFFE0) | ((value >> 3) as u16),
                x: value & 7,
                w: true,
                ..self
            }
        } else {
            Scroll {
                t: (self.t & 0x8C1F) | (((value & 7) as u16) << 12) | (((value & 0xF8) as u16)
                    << 2),
                w: false,
                ..self
            }
        }
    }

    /// The registers after `value` was written to the address register:
    /// the first write sets the high six bits of `t`, the second the low
    /// eight, and `v` takes `t`.
    pub open spec fn address_written(self, value: u8) -> Scroll {
        if !self.w {
            Scroll { t: (self.t & 0x80FF) | (((value & 0x3F) as u16) << 8), w: true, ..self }
        } else {
            let t = (self.t & 0xFF00) | (value as u16);
            Scroll { t, v: t, w: false, ..self }
        }
    }

    /// The registers after an access through the data register: `v` moves
    /// on by 1, or by 32 when `down`, modulo the 15 bits it has.
    pub open spec fn accessed(self, down: bool) -> Scroll {
        Scroll {
            v: ((self.v + (if down {
                32int
            } else {
                1
            })) % 0x8000) as u16,
            ..self
        }
    }

    pub fn new() -> (r: Self)
        ensures
            r == (Scroll { v: 0, t: 0, x: 0, w: false }),
    {
        Scroll { v: 0, t: 0, x: 0, w: false }
    }

    pub fn write_control(&mut self, value: u8)
        ensures
            *final(self) == old(self).control_written(value),
    {
        self.t = (self.t & 0xF3FF) | (((value & 3) as u16) << 10);
    }

    pub fn write_scroll(&mut self, value: u8)
        ensures
            *final(self) == old(self).scroll_written(value),
    {
        if !self.w {
            self.t = (self.t & 0xFFE0) | ((value >> 3) as u16);
            self.x = value & 7;
            self.w = true;
        } else {
            self.t = (self.t & 0x8C1F) | (((value & 7) as u16) << 12) | (((value & 0xF8) as u16)
                << 2);
            self.w = false;
        }
    }

    pub fn write_address(&mut self, value: u8)
        ensures
            *final(self) == old(self).address_written(value),
    {
        if !self.w {
            self.t = (self.t & 0x80FF) | (((value & 0x3F) as u16) << 8);
            self.w = true;
        } else {
            self.t = (self.t & 0xFF00) | (value as u16);
            self.v = self.t;
            self.w = false;
        }
    }

    pub fn access(&mut self, down: bool)
        ensures
            *final(self) == old(self).accessed(down),
    {
        let step: u32 = if down {
            32
        } else {
            1
        };
        self.v = (((self.v as u32) + step) % 0x8000) as u16;
    }

    /// Moves `v` one tile to the right: see [`next_tile`].
    pub fn increment_x(&mut self)
        ensures
            *final(self) == (Scroll { v: next_tile(old(self).v), ..*old(self) }),
    {
        if self.v & COARSE_X == 31 {
            self.v = (self.v & !COARSE_X) ^ NAMETABLE_X;
        } else {
            self.v = self.v.wrapping_add(1);
        }
    }

    /// Moves `v` one pixel row down: see [`next_row`].
    pub fn increment_y(&mut self)
        ensures
            *final(self) == (Scroll { v: next_row(old(self).v), ..*old(self) }),
    {
        if self.v & FINE_Y != FINE_Y {
            self.v = self.v.wrapping_add(0x1000);
        } else {
            let cleared = self.v & !FINE_Y;
            let y = (cleared & COARSE_Y) >> 5;
            if y == 29 {
                self.v = (cleared & !COARSE_Y) ^ NAMETABLE_Y;
            } else if y == 31 {
                self.v = cleared & !COARSE_Y;
            } else {
                self.v = (cleared & !COARSE_Y) | (y.wrapping_add(1) << 5);
            }
        }
    }

    /// Copies the horizontal bits of `t` into `v`.
    pub fn copy_x(&mut self)
        ensures
            *final(self) == (Scroll { v: with_horizontal(old(self).v, old(self).t), ..*old(self) }),
    {
        self.v = (self.v & !HORIZONTAL) | (self.t & HORIZONTAL);
    }

    /// Copies the vertical bits of `t` into `v`.
    pub fn copy_y(&mut self)
        ensures
            *final(self) == (Scroll { v: with_vertical(old(self).v, old(self).t), ..*old(self) }),
    {
        self.v = (self.v & !VERTICAL) | (self.t & VERTICAL);
    }
}

} // verus!
