//! Stores of the accumulator and the index registers.

use super::combined::Write;
use crate::cpu::register::Register;
use vstd::prelude::*;

verus! {

/// Stores the accumulator.
pub struct Sta;

impl Write for Sta {
    open spec fn writer_spec(register: Register, address: u16) -> (Register, u8, u16) {
        (register, register.a, address)
    }

    fn writer(register: &mut Register, address: u16) -> (r: (u8, u16)) {
        (register.get_a(), address)
    }
}

/// Stores X.
pub struct Stx;

impl Write for Stx {
    open spec fn writer_spec(register: Register, address: u16) -> (Register, u8, u16) {
        (register, register.x, address)
    }

    fn writer(register: &mut Register, address: u16) -> (r: (u8, u16)) {
        (register.get_x(), address)
    }
}

/// Stores Y.
pub struct Sty;

impl Write for Sty {
    open spec fn writer_spec(register: Register, address: u16) -> (Register, u8, u16) {
        (register, register.y, address)
    }

    fn writer(register: &mut Register, address: u16) -> (r: (u8, u16)) {
        (register.get_y(), address)
    }
}

} // verus!
