//! Operations that read one operand into the registers, or write one byte
//! computed from them: the undocumented members of both families.

use crate::cpu::bus::Bus;
use crate::cpu::register::{has_flag, Register, NEGATIVE};
use crate::cpu::{
    exit_opcode, high_byte, leave_opcode, low_byte, make_word, one_access_or_none, read,
    read_spec, word, write_spec, Core, CpuStepStateEnum,
};
use vstd::prelude::*;

verus! {

/// An operation of one cycle that reads its operand.
pub trait Read: Sized {
    /// The registers after the operand `value` was taken in.
    spec fn reader_spec(register: Register, value: u8) -> Register;

    fn reader(register: &mut Register, value: u8)
        ensures
            *final(register) == Self::reader_spec(*old(register), value),
    ;

    fn exec_opcode<B: Bus>(core: &mut Core, bus: &mut B) -> (r: CpuStepStateEnum)
        ensures
            old(core).internal_stat.step == 1 ==> ({
                let (c, b, value) = read_spec::<B>(*old(core), old(bus)@, old(core).internal_stat.address);
                &&& *final(core) == (Core { register: Self::reader_spec(c.register, value), ..c })
                &&& final(bus)@ == b
                &&& r == CpuStepStateEnum::Continue
            }),
            old(core).internal_stat.step != 1 ==> (*final(core), final(bus)@, r) == leave_opcode::<B>(
                *old(core),
                old(bus)@,
            ),
            one_access_or_none(*old(bus), *final(bus), *final(core), r),
    {
        match core.internal_stat.get_step() {
            1 => {
                let address = core.internal_stat.get_address();
                let value = read(core, bus, address);
                Self::reader(&mut core.register, value);
            },
            _ => {
                return exit_opcode(core);
            },
        }
        CpuStepStateEnum::Continue
    }
}

/// An operation of one cycle that writes one byte.
pub trait Write: Sized {
    /// The registers after the operation, the byte it writes and where.
    spec fn writer_spec(register: Register, address: u16) -> (Register, u8, u16);

    fn writer(register: &mut Register, address: u16) -> (r: (u8, u16))
        ensures
            (*final(register), r.0, r.1) == Self::writer_spec(*old(register), address),
    ;

    fn exec_opcode<B: Bus>(core: &mut Core, bus: &mut B) -> (r: CpuStepStateEnum)
        ensures
            old(core).internal_stat.step == 1 ==> ({
                let (register, value, address) = Self::writer_spec(
                    old(core).register,
                    old(core).internal_stat.address,
                );
                &&& (*final(core), final(bus)@) == write_spec::<B>(
                    Core { register, ..*old(core) },
                    old(bus)@,
                    address,
                    value,
                )
                &&& r == CpuStepStateEnum::Continue
            }),
            old(core).internal_stat.step != 1 ==> (*final(core), final(bus)@, r) == leave_opcode::<B>(
                *old(core),
                old(bus)@,
            ),
            one_access_or_none(*old(bus), *final(bus), *final(core), r),
    {
        match core.internal_stat.get_step() {
            1 => {
                let address = core.internal_stat.get_address();
                let (value, target) = Self::writer(&mut core.register, address);
                crate::cpu::write(core, bus, target, value);
            },
            _ => {
                return exit_opcode(core);
            },
        }
        CpuStepStateEnum::Continue
    }
}

/// One attempt at a cycle of the read operation `R`: the operand is read at
/// the effective address and taken into the registers.
pub open spec fn read_opcode_spec<R: Read, B: Bus>(core: Core, bus: B::V) -> (
    Core,
    B::V,
    CpuStepStateEnum,
) {
    match core.internal_stat.step {
        1 => {
            let (c, b, value) = read_spec::<B>(core, bus, core.internal_stat.address);
            (
                Core { register: R::reader_spec(c.register, value), ..c },
                b,
                CpuStepStateEnum::Continue,
            )
        },
        _ => leave_opcode::<B>(core, bus),
    }
}

/// One attempt at a cycle of the write operation `W`: the byte is written.
pub open spec fn write_opcode_spec<W: Write, B: Bus>(core: Core, bus: B::V) -> (
    Core,
    B::V,
    CpuStepStateEnum,
) {
    match core.internal_stat.step {
        1 => {
            let (register, value, address) = W::writer_spec(
                core.register,
                core.internal_stat.address,
            );
            let (c, b) = write_spec::<B>(Core { register, ..core }, bus, address, value);
            (c, b, CpuStepStateEnum::Continue)
        },
        _ => leave_opcode::<B>(core, bus),
    }
}

/// Loads the accumulator and X with the operand.
pub struct Lax;

impl Read for Lax {
    open spec fn reader_spec(register: Register, value: u8) -> Register {
        Register { a: value, x: value, ..register }.with_nz(value)
    }

    fn reader(register: &mut Register, value: u8) {
        register.set_a(value);
        register.set_x(value);
        register.set_nz_from_value(value);
    }
}

/// ANDs the operand into the accumulator and copies the sign to carry.
pub struct Anc;

impl Read for Anc {
    open spec fn reader_spec(register: Register, value: u8) -> Register {
        let result = register.a & value;
        Register { a: result, c: has_flag(result, NEGATIVE), ..register }.with_nz(result)
    }

    fn reader(register: &mut Register, value: u8) {
        let result = register.get_a() & value;
        register.set_nz_from_value(result);
        register.set_c(result & 0x80 != 0);
        register.set_a(result);
    }
}

/// ANDs the operand into the accumulator, then shifts it right.
pub struct Alr;

impl Read for Alr {
    open spec fn reader_spec(register: Register, value: u8) -> Register {
        let result = register.a & value;
        Register { a: result >> 1, c: result & 0x01 != 0, ..register }.with_nz(result >> 1)
    }

    fn reader(register: &mut Register, value: u8) {
        let result = register.get_a() & value;
        register.set_c(result & 0x01 != 0);
        let shifted = result >> 1;
        register.set_nz_from_value(shifted);
        register.set_a(shifted);
    }
}

/// ANDs the operand into the accumulator, then rotates it right through
/// carry; carry and overflow come from bits 7, 6 and 5.
pub struct Arr;

impl Read for Arr {
    open spec fn reader_spec(register: Register, value: u8) -> Register {
        let result = register.a & value;
        let rotated = result >> 1 | (if register.c {
            0x80u8
        } else {
            0
        });
        Register {
            a: rotated,
            c: has_flag(result, NEGATIVE),
            v: (((rotated >> 6) & 1) != 0) != (((rotated >> 5) & 1) != 0),
            ..register
        }.with_nz(rotated)
    }

    fn reader(register: &mut Register, value: u8) {
        let result = register.get_a() & value;
        let rotated = result >> 1 | (if register.get_c() {
            0x80u8
        } else {
            0
        });
        register.set_c(result & 0x80 != 0);
        register.set_v((((rotated >> 6) & 1) != 0) != (((rotated >> 5) & 1) != 0));
        register.set_nz_from_value(rotated);
        register.set_a(rotated);
    }
}

/// Loads the accumulator with X AND the operand.
pub struct Xaa;

impl Read for Xaa {
    open spec fn reader_spec(register: Register, value: u8) -> Register {
        Register { a: register.x & value, ..register }.with_nz(register.x & value)
    }

    fn reader(register: &mut Register, value: u8) {
        let result = register.get_x() & value;
        register.set_nz_from_value(result);
        register.set_a(result);
    }
}

/// Loads the accumulator, X and the stack pointer with the stack pointer
/// AND the operand.
pub struct Las;

impl Read for Las {
    open spec fn reader_spec(register: Register, value: u8) -> Register {
        let result = register.sp & value;
        Register { a: result, x: result, sp: result, ..register }.with_nz(result)
    }

    fn reader(register: &mut Register, value: u8) {
        let result = register.get_sp() & value;
        register.set_nz_from_value(result);
        register.set_a(result);
        register.set_x(result);
        register.set_sp(result);
    }
}

/// Loads X with the accumulator AND X, minus the operand; carry says that
/// no borrow occurred.
pub struct Axs;

impl Read for Axs {
    open spec fn reader_spec(register: Register, value: u8) -> Register {
        let left = register.a & register.x;
        let result = left.wrapping_sub(value);
        Register { x: result, c: left >= value, ..register }.with_nz(result)
    }

    fn reader(register: &mut Register, value: u8) {
        let left = register.get_a() & register.get_x();
        let result = left.wrapping_sub(value);
        register.set_nz_from_value(result);
        register.set_x(result);
        register.set_c(left >= value);
    }
}

/// Stores the accumulator AND X.
pub struct Sax;

impl Write for Sax {
    open spec fn writer_spec(register: Register, address: u16) -> (Register, u8, u16) {
        (register, register.a & register.x, address)
    }

    fn writer(register: &mut Register, address: u16) -> (r: (u8, u16)) {
        (register.get_a() & register.get_x(), address)
    }
}

/// Loads the stack pointer with the accumulator AND X, and stores it ANDed
/// with the program counter's high byte plus one.
pub struct Tas;

impl Write for Tas {
    open spec fn writer_spec(register: Register, address: u16) -> (Register, u8, u16) {
        let sp = register.a & register.x;
        (
            Register { sp, ..register },
            sp & ((register.pc / 256) as u8).wrapping_add(1),
            address,
        )
    }

    fn writer(register: &mut Register, address: u16) -> (r: (u8, u16)) {
        let sp = register.get_a() & register.get_x();
        register.set_sp(sp);
        (sp & high_byte(register.get_pc()).wrapping_add(1), address)
    }
}

/// Stores the accumulator AND X AND the address's high byte plus one.
pub struct Ahx;

impl Write for Ahx {
    open spec fn writer_spec(register: Register, address: u16) -> (Register, u8, u16) {
        (register, register.a & register.x & ((address / 256) as u8).wrapping_add(1), address)
    }

    fn writer(register: &mut Register, address: u16) -> (r: (u8, u16)) {
        let high = high_byte(address).wrapping_add(1);
        (register.get_a() & register.get_x() & high, address)
    }
}

/// Stores X AND the address's high byte plus one; the value stored also
/// replaces the high byte of the address written to.
pub struct Shx;

impl Write for Shx {
    open spec fn writer_spec(register: Register, address: u16) -> (Register, u8, u16) {
        let value = register.x & ((address / 256) as u8).wrapping_add(1);
        (register, value, word((address % 256) as u8, value))
    }

    fn writer(register: &mut Register, address: u16) -> (r: (u8, u16)) {
        let high = high_byte(address).wrapping_add(1);
        let value = register.get_x() & high;
        (value, make_word(low_byte(address), value))
    }
}

/// Stores Y AND the address's high byte plus one; the value stored also
/// replaces the high byte of the address written to.
pub struct Shy;

impl Write for Shy {
    open spec fn writer_spec(register: Register, address: u16) -> (Register, u8, u16) {
        let value = register.y & ((address / 256) as u8).wrapping_add(1);
        (register, value, word((address % 256) as u8, value))
    }

    fn writer(register: &mut Register, address: u16) -> (r: (u8, u16)) {
        let high = high_byte(address).wrapping_add(1);
        let value = register.get_y() & high;
        (value, make_word(low_byte(address), value))
    }
}

} // verus!
