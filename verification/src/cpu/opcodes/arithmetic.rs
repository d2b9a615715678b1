//! Addition, subtraction and the three logical operations on the
//! accumulator.

use super::combined::Read;
use crate::cpu::low_byte;
use crate::cpu::register::{has_flag, Register, NEGATIVE};
use vstd::prelude::*;

verus! {

/// The registers after `value` and the carry were added to the
/// accumulator, in binary whatever the decimal flag says. Carry is the
/// ninth bit of the sum; overflow says that two operands of one sign gave a
/// sum of the other.
pub open spec fn added(register: Register, value: u8) -> Register {
    let sum = register.a + value + (if register.c {
        1int
    } else {
        0
    });
    let result = (sum % 256) as u8;
    Register {
        a: result,
        c: sum > 0xFF,
        v: !has_flag(register.a ^ value, NEGATIVE) && has_flag(register.a ^ result, NEGATIVE),
        ..register
    }.with_nz(result)
}

/// The registers after `value` and the borrow (the carry's complement)
/// were subtracted from the accumulator, in binary. Carry says that no
/// borrow occurred; overflow says that operands of different signs gave a
/// difference whose sign is not the accumulator's.
pub open spec fn subtracted(register: Register, value: u8) -> Register {
    let difference = register.a - value - (if register.c {
        0int
    } else {
        1
    });
    let result = (difference % 256) as u8;
    Register {
        a: result,
        c: difference >= 0,
        v: has_flag(register.a ^ value, NEGATIVE) && has_flag(register.a ^ result, NEGATIVE),
        ..register
    }.with_nz(result)
}

pub fn add_with_carry(register: &mut Register, value: u8)
    ensures
        *final(register) == added(*old(register), value),
{
    let a = register.get_a();
    let carry: u16 = if register.get_c() {
        1
    } else {
        0
    };
    let sum: u16 = (a as u16) + (value as u16) + carry;
    let result = low_byte(sum);
    register.set_nz_from_value(result);
    register.set_a(result);
    register.set_c(sum > 0xFF);
    register.set_v((a ^ value) & 0x80 == 0 && (a ^ result) & 0x80 != 0);
}

pub fn subtract_with_borrow(register: &mut Register, value: u8)
    ensures
        *final(register) == subtracted(*old(register), value),
{
    let a = register.get_a();
    let borrow: u8 = if register.get_c() {
        0
    } else {
        1
    };
    let result = a.wrapping_sub(value).wrapping_sub(borrow);
    register.set_nz_from_value(result);
    register.set_a(result);
    register.set_c((a as u16) >= (value as u16) + (borrow as u16));
    register.set_v((a ^ value) & 0x80 != 0 && (a ^ result) & 0x80 != 0);
}

/// Adds the operand and the carry to the accumulator.
pub struct Adc;

impl Read for Adc {
    open spec fn reader_spec(register: Register, value: u8) -> Register {
        added(register, value)
    }

    fn reader(register: &mut Register, value: u8) {
        add_with_carry(register, value);
    }
}

/// Subtracts the operand and the borrow from the accumulator.
pub struct Sbc;

impl Read for Sbc {
    open spec fn reader_spec(register: Register, value: u8) -> Register {
        subtracted(register, value)
    }

    fn reader(register: &mut Register, value: u8) {
        subtract_with_borrow(register, value);
    }
}

/// ANDs the operand into the accumulator.
pub struct And;

impl Read for And {
    open spec fn reader_spec(register: Register, value: u8) -> Register {
        Register { a: register.a & value, ..register }.with_nz(register.a & value)
    }

    fn reader(register: &mut Register, value: u8) {
        let result = register.get_a() & value;
        register.set_a(result);
        register.set_nz_from_value(result);
    }
}

/// ORs the operand into the accumulator.
pub struct Ora;

impl Read for Ora {
    open spec fn reader_spec(register: Register, value: u8) -> Register {
        Register { a: register.a | value, ..register }.with_nz(register.a | value)
    }

    fn reader(register: &mut Register, value: u8) {
        let result = register.get_a() | value;
        register.set_a(result);
        register.set_nz_from_value(result);
    }
}

/// Exclusive-ORs the operand into the accumulator.
pub struct Eor;

impl Read for Eor {
    open spec fn reader_spec(register: Register, value: u8) -> Register {
        Register { a: register.a ^ value, ..register }.with_nz(register.a ^ value)
    }

    fn reader(register: &mut Register, value: u8) {
        let result = register.get_a() ^ value;
        register.set_a(result);
        register.set_nz_from_value(result);
    }
}

} // verus!
