//! The CPU register file and its processor-status word.

use vstd::prelude::*;

verus! {

/// Carry flag of the status word.
pub const CARRY: u8 = 0x01;

/// Zero flag of the status word.
pub const ZERO: u8 = 0x02;

/// Interrupt-disable flag of the status word.
pub const INTERRUPT: u8 = 0x04;

/// Decimal flag of the status word; settable, ignored by arithmetic.
pub const DECIMAL: u8 = 0x08;

/// Break flag of the status word.
pub const BREAK: u8 = 0x10;

/// Reserved flag of the status word; reads as one when pushed.
pub const RESERVED: u8 = 0x20;

/// Overflow flag of the status word.
pub const OVERFLOW: u8 = 0x40;

/// Negative flag of the status word.
pub const NEGATIVE: u8 = 0x80;

/// The weight of one flag inside the status word: `mask` when set, else zero.
pub open spec fn flag_bits(flag: bool, mask: u8) -> int {
    if flag {
        mask as int
    } else {
        0
    }
}

/// `mask` when `flag` is set, else zero.
fn flag_value(set: bool, mask: u8) -> (r: u8)
    ensures
        r == flag_bits(set, mask),
{
    if set {
        mask
    } else {
        0
    }
}

/// Whether the bit of weight `mask` (a power of two) is set in `value`.
pub open spec fn has_flag(value: u8, mask: u8) -> bool {
    value & mask != 0
}

/// Program counter, stack pointer, accumulator, index registers and the
/// eight status flags.
#[derive(Debug, Clone, Copy, PartialEq, Eq, Structural)]
pub struct Register {
    pub pc: u16,
    pub sp: u8,
    pub a: u8,
    pub x: u8,
    pub y: u8,
    pub c: bool,
    pub z: bool,
    pub i: bool,
    pub d: bool,
    pub b: bool,
    pub r: bool,
    pub v: bool,
    pub n: bool,
}

impl Register {
    /// The status word that the flags of `self` encode.
    pub open spec fn status(self) -> int {
        flag_bits(self.c, CARRY) + flag_bits(self.z, ZERO) + flag_bits(self.i, INTERRUPT)
            + flag_bits(self.d, DECIMAL) + flag_bits(self.b, BREAK) + flag_bits(self.r, RESERVED)
            + flag_bits(self.v, OVERFLOW) + flag_bits(self.n, NEGATIVE)
    }

    /// `self` with its eight flags replaced by the bits of `value`.
    pub open spec fn with_status(self, value: u8) -> Register {
        Register {
            c: has_flag(value, CARRY),
            z: has_flag(value, ZERO),
            i: has_flag(value, INTERRUPT),
            d: has_flag(value, DECIMAL),
            b: has_flag(value, BREAK),
            r: has_flag(value, RESERVED),
            v: has_flag(value, OVERFLOW),
            n: has_flag(value, NEGATIVE),
            ..self
        }
    }

    /// `self` with the zero and negative flags taken from `value`.
    pub open spec fn with_nz(self, value: u8) -> Register {
        Register { z: value == 0, n: has_flag(value, NEGATIVE), ..self }
    }

    /// The register file at power-on: everything clear but the reserved flag.
    pub open spec fn new_spec() -> Register {
        Register {
            pc: 0,
            sp: 0,
            a: 0,
            x: 0,
            y: 0,
            c: false,
            z: false,
            i: false,
            d: false,
            b: false,
            r: true,
            v: false,
            n: false,
        }
    }

    /// The register file at power-on: see [`Register::new_spec`].
    pub fn new() -> (r: Self)
        ensures
            r == Self::new_spec(),
    {
        Self {
            pc: 0,
            sp: 0,
            a: 0,
            x: 0,
            y: 0,
            c: false,
            z: false,
            i: false,
            d: false,
            b: false,
            r: true,
            v: false,
            n: false,
        }
    }

    pub fn get_pc(&self) -> (r: u16)
        ensures
            r == self.pc,
    {
        self.pc
    }

    pub fn get_sp(&self) -> (r: u8)
        ensures
            r == self.sp,
    {
        self.sp
    }

    pub fn get_a(&self) -> (r: u8)
        ensures
            r == self.a,
    {
        self.a
    }

    pub fn get_x(&self) -> (r: u8)
        ensures
            r == self.x,
    {
        self.x
    }

    pub fn get_y(&self) -> (r: u8)
        ensures
            r == self.y,
    {
        self.y
    }

    pub fn get_c(&self) -> (r: bool)
        ensures
            r == self.c,
    {
        self.c
    }

    pub fn get_z(&self) -> (r: bool)
        ensures
            r == self.z,
    {
        self.z
    }

    pub fn get_i(&self) -> (r: bool)
        ensures
            r == self.i,
    {
        self.i
    }

    pub fn get_v(&self) -> (r: bool)
        ensures
            r == self.v,
    {
        self.v
    }

    pub fn get_n(&self) -> (r: bool)
        ensures
            r == self.n,
    {
        self.n
    }

    /// The status word: each set flag contributes its weight.
    pub fn get_p(&self) -> (r: u8)
        ensures
            r == self.status(),
    {
        let to_zero: u8 = flag_value(self.c, CARRY) + flag_value(self.z, ZERO);
        let to_interrupt: u8 = to_zero + flag_value(self.i, INTERRUPT);
        let to_decimal: u8 = to_interrupt + flag_value(self.d, DECIMAL);
        let to_break: u8 = to_decimal + flag_value(self.b, BREAK);
        let to_reserved: u8 = to_break + flag_value(self.r, RESERVED);
        let to_overflow: u8 = to_reserved + flag_value(self.v, OVERFLOW);
        to_overflow + flag_value(self.n, NEGATIVE)
    }

    pub fn set_pc(&mut self, value: u16)
        ensures
            *final(self) == (Register { pc: value, ..*old(self) }),
    {
        self.pc = value;
    }

    pub fn set_sp(&mut self, value: u8)
        ensures
            *final(self) == (Register { sp: value, ..*old(self) }),
    {
        self.sp = value;
    }

    pub fn set_a(&mut self, value: u8)
        ensures
            *final(self) == (Register { a: value, ..*old(self) }),
    {
        self.a = value;
    }

    pub fn set_x(&mut self, value: u8)
        ensures
            *final(self) == (Register { x: value, ..*old(self) }),
    {
        self.x = value;
    }

    pub fn set_y(&mut self, value: u8)
        ensures
            *final(self) == (Register { y: value, ..*old(self) }),
    {
        self.y = value;
    }

    pub fn set_c(&mut self, value: bool)
        ensures
            *final(self) == (Register { c: value, ..*old(self) }),
    {
        self.c = value;
    }

    pub fn set_i(&mut self, value: bool)
        ensures
            *final(self) == (Register { i: value, ..*old(self) }),
    {
        self.i = value;
    }

    pub fn set_d(&mut self, value: bool)
        ensures
            *final(self) == (Register { d: value, ..*old(self) }),
    {
        self.d = value;
    }

    pub fn set_v(&mut self, value: bool)
        ensures
            *final(self) == (Register { v: value, ..*old(self) }),
    {
        self.v = value;
    }

    /// Replaces all eight flags by the bits of `value`.
    pub fn set_p(&mut self, value: u8)
        ensures
            *final(self) == old(self).with_status(value),
    {
        self.c = value & CARRY != 0;
        self.z = value & ZERO != 0;
        self.i = value & INTERRUPT != 0;
        self.d = value & DECIMAL != 0;
        self.b = value & BREAK != 0;
        self.r = value & RESERVED != 0;
        self.v = value & OVERFLOW != 0;
        self.n = value & NEGATIVE != 0;
    }

    pub fn set_z_from_value(&mut self, value: u8)
        ensures
            *final(self) == (Register { z: value == 0, ..*old(self) }),
    {
        self.z = value == 0;
    }

    pub fn set_n_from_value(&mut self, value: u8)
        ensures
            *final(self) == (Register { n: has_flag(value, NEGATIVE), ..*old(self) }),
    {
        self.n = value & 0x80 != 0;
    }

    pub fn set_nz_from_value(&mut self, value: u8)
        ensures
            *final(self) == old(self).with_nz(value),
    {
        self.set_z_from_value(value);
        self.set_n_from_value(value);
    }
}

/// The status word read back after `set_p(value)` is `value` again.
pub proof fn lemma_status_round_trip(register: Register, value: u8)
    ensures
        register.with_status(value).status() == value,
{
    assert((if value & 0x01 != 0 { 0x01int } else { 0 }) + (if value & 0x02 != 0 { 0x02int } else { 0 })
        + (if value & 0x04 != 0 { 0x04int } else { 0 }) + (if value & 0x08 != 0 { 0x08int } else { 0 })
        + (if value & 0x10 != 0 { 0x10int } else { 0 }) + (if value & 0x20 != 0 { 0x20int } else { 0 })
        + (if value & 0x40 != 0 { 0x40int } else { 0 }) + (if value & 0x80 != 0 { 0x80int } else {
        0
    }) == value) by (bit_vector);
}

} // verus!
