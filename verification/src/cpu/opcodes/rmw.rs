//! Operations that read a byte, change it and write it back: shifts,
//! rotates, increments, and the undocumented ones that also fold the new
//! byte into the accumulator.

use super::arithmetic::{add_with_carry, added, subtract_with_borrow, subtracted};
use super::compare::{compare_values, compared};
use crate::cpu::bus::Bus;
use crate::cpu::internal_stat::InternalStat;
use crate::cpu::register::{has_flag, Register, NEGATIVE};
use crate::cpu::{
    exit_opcode, leave_opcode, one_access_or_none, read, read_dummy_current,
    read_dummy_current_spec, read_spec, write_spec, Core, CpuStepStateEnum,
};
use vstd::prelude::*;

verus! {

/// `core` after the operand was read into the scratch byte.
pub open spec fn read_operand_spec<B: Bus>(core: Core, bus: B::V) -> (Core, B::V) {
    let (c, b, value) = read_spec::<B>(core, bus, core.internal_stat.address);
    (Core { internal_stat: InternalStat { data: value, ..c.internal_stat }, ..c }, b)
}

/// `core` after the scratch byte was written back unchanged.
pub open spec fn write_back_spec<B: Bus>(core: Core, bus: B::V) -> (Core, B::V) {
    write_spec::<B>(core, bus, core.internal_stat.address, core.internal_stat.data)
}

pub fn read_operand<B: Bus>(core: &mut Core, bus: &mut B)
    ensures
        (*final(core), final(bus)@) == read_operand_spec::<B>(*old(core), old(bus)@),
        one_access_or_none(*old(bus), *final(bus), *final(core), CpuStepStateEnum::Continue),
{
    let address = core.internal_stat.get_address();
    let value = read(core, bus, address);
    core.internal_stat.set_data(value);
}

pub fn write_back<B: Bus>(core: &mut Core, bus: &mut B)
    ensures
        (*final(core), final(bus)@) == write_back_spec::<B>(*old(core), old(bus)@),
        one_access_or_none(*old(bus), *final(bus), *final(core), CpuStepStateEnum::Continue),
{
    let address = core.internal_stat.get_address();
    let value = core.internal_stat.get_data();
    crate::cpu::write(core, bus, address, value);
}

/// An operation that turns one byte into another, with effects on the
/// registers. On memory it takes three cycles: the byte is read, written
/// back as it was, then written changed. On the accumulator it takes one.
pub trait AccumulateMemory: Sized {
    /// The registers after the operation on `value`, and the new byte.
    spec fn calculator_spec(register: Register, value: u8) -> (Register, u8);

    fn calculator(register: &mut Register, value: u8) -> (r: u8)
        ensures
            (*final(register), r) == Self::calculator_spec(*old(register), value),
    ;

    fn exec_opcode<B: Bus>(core: &mut Core, bus: &mut B) -> (r: CpuStepStateEnum)
        ensures
            old(core).internal_stat.step == 1 ==> (*final(core), final(bus)@) == read_operand_spec::<B>(
                *old(core),
                old(bus)@,
            ) && r == CpuStepStateEnum::Continue,
            old(core).internal_stat.step == 2 ==> (*final(core), final(bus)@) == write_back_spec::<B>(
                *old(core),
                old(bus)@,
            ) && r == CpuStepStateEnum::Continue,
            old(core).internal_stat.step == 3 ==> ({
                let (register, value) = Self::calculator_spec(
                    old(core).register,
                    old(core).internal_stat.data,
                );
                &&& (*final(core), final(bus)@) == write_spec::<B>(
                    Core { register, ..*old(core) },
                    old(bus)@,
                    old(core).internal_stat.address,
                    value,
                )
                &&& r == CpuStepStateEnum::Continue
            }),
            !(1 <= old(core).internal_stat.step <= 3) ==> (*final(core), final(bus)@, r)
                == leave_opcode::<B>(*old(core), old(bus)@),
            one_access_or_none(*old(bus), *final(bus), *final(core), r),
    {
        match core.internal_stat.get_step() {
            1 => {
                read_operand(core, bus);
            },
            2 => {
                write_back(core, bus);
            },
            3 => {
                let value = Self::calculator(&mut core.register, core.internal_stat.get_data());
                let address = core.internal_stat.get_address();
                crate::cpu::write(core, bus, address, value);
            },
            _ => {
                return exit_opcode(core);
            },
        }
        CpuStepStateEnum::Continue
    }

    fn exec_accumulator<B: Bus>(core: &mut Core, bus: &mut B) -> (r: CpuStepStateEnum)
        ensures
            old(core).internal_stat.step == 1 ==> ({
                let (c, b) = read_dummy_current_spec::<B>(*old(core), old(bus)@);
                let (register, value) = Self::calculator_spec(c.register, c.register.a);
                &&& *final(core) == (Core { register: Register { a: value, ..register }, ..c })
                &&& final(bus)@ == b
                &&& r == CpuStepStateEnum::Continue
            }),
            old(core).internal_stat.step != 1 ==> (*final(core), final(bus)@, r) == leave_opcode::<B>(
                *old(core),
                old(bus)@,
            ),
            one_access_or_none(*old(bus), *final(bus), *final(core), r),
    {
        match core.internal_stat.get_step() {
            1 => {
                read_dummy_current(core, bus);
                let a = core.register.get_a();
                let value = Self::calculator(&mut core.register, a);
                core.register.set_a(value);
            },
            _ => {
                return exit_opcode(core);
            },
        }
        CpuStepStateEnum::Continue
    }
}

/// One attempt at a cycle of the operation `A` on memory.
pub open spec fn accumulate_memory_spec<A: AccumulateMemory, B: Bus>(core: Core, bus: B::V) -> (
    Core,
    B::V,
    CpuStepStateEnum,
) {
    match core.internal_stat.step {
        1 => {
            let (c, b) = read_operand_spec::<B>(core, bus);
            (c, b, CpuStepStateEnum::Continue)
        },
        2 => {
            let (c, b) = write_back_spec::<B>(core, bus);
            (c, b, CpuStepStateEnum::Continue)
        },
        3 => {
            let (register, value) = A::calculator_spec(core.register, core.internal_stat.data);
            let (c, b) = write_spec::<B>(
                Core { register, ..core },
                bus,
                core.internal_stat.address,
                value,
            );
            (c, b, CpuStepStateEnum::Continue)
        },
        _ => leave_opcode::<B>(core, bus),
    }
}

/// One attempt at a cycle of the operation `A` on the accumulator.
pub open spec fn accumulate_spec<A: AccumulateMemory, B: Bus>(core: Core, bus: B::V) -> (
    Core,
    B::V,
    CpuStepStateEnum,
) {
    match core.internal_stat.step {
        1 => {
            let (c, b) = read_dummy_current_spec::<B>(core, bus);
            let (register, value) = A::calculator_spec(c.register, c.register.a);
            (
                Core { register: Register { a: value, ..register }, ..c },
                b,
                CpuStepStateEnum::Continue,
            )
        },
        _ => leave_opcode::<B>(core, bus),
    }
}

/// `value` shifted left by one, bit 0 taken from `low`.
pub open spec fn shifted_left(value: u8, low: bool) -> u8 {
    (value << 1) | (if low {
        0x01u8
    } else {
        0
    })
}

/// `value` shifted right by one, bit 7 taken from `high`.
pub open spec fn shifted_right(value: u8, high: bool) -> u8 {
    (value >> 1) | (if high {
        0x80u8
    } else {
        0
    })
}

pub fn shift_left(value: u8, low: bool) -> (r: u8)
    ensures
        r == shifted_left(value, low),
{
    (value << 1) | (if low {
        0x01u8
    } else {
        0
    })
}

pub fn shift_right(value: u8, high: bool) -> (r: u8)
    ensures
        r == shifted_right(value, high),
{
    (value >> 1) | (if high {
        0x80u8
    } else {
        0
    })
}

/// Shifts left; bit 7 goes to carry.
pub struct Asl;

impl AccumulateMemory for Asl {
    open spec fn calculator_spec(register: Register, value: u8) -> (Register, u8) {
        let result = shifted_left(value, false);
        (Register { c: has_flag(value, NEGATIVE), ..register }.with_nz(result), result)
    }

    fn calculator(register: &mut Register, value: u8) -> (r: u8) {
        let result = shift_left(value, false);
        register.set_c(value & 0x80 != 0);
        register.set_nz_from_value(result);
        result
    }
}

/// Shifts right; bit 0 goes to carry.
pub struct Lsr;

impl AccumulateMemory for Lsr {
    open spec fn calculator_spec(register: Register, value: u8) -> (Register, u8) {
        let result = shifted_right(value, false);
        (Register { c: value & 0x01 != 0, ..register }.with_nz(result), result)
    }

    fn calculator(register: &mut Register, value: u8) -> (r: u8) {
        let result = shift_right(value, false);
        register.set_c(value & 0x01 != 0);
        register.set_nz_from_value(result);
        result
    }
}

/// Rotates left through carry.
pub struct Rol;

impl AccumulateMemory for Rol {
    open spec fn calculator_spec(register: Register, value: u8) -> (Register, u8) {
        let result = shifted_left(value, register.c);
        (Register { c: has_flag(value, NEGATIVE), ..register }.with_nz(result), result)
    }

    fn calculator(register: &mut Register, value: u8) -> (r: u8) {
        let result = shift_left(value, register.get_c());
        register.set_c(value & 0x80 != 0);
        register.set_nz_from_value(result);
        result
    }
}

/// Rotates right through carry.
pub struct Ror;

impl AccumulateMemory for Ror {
    open spec fn calculator_spec(register: Register, value: u8) -> (Register, u8) {
        let result = shifted_right(value, register.c);
        (Register { c: value & 0x01 != 0, ..register }.with_nz(result), result)
    }

    fn calculator(register: &mut Register, value: u8) -> (r: u8) {
        let result = shift_right(value, register.get_c());
        register.set_c(value & 0x01 != 0);
        register.set_nz_from_value(result);
        result
    }
}

/// Adds one, wrapping.
pub struct Inc;

impl AccumulateMemory for Inc {
    open spec fn calculator_spec(register: Register, value: u8) -> (Register, u8) {
        (register.with_nz(value.wrapping_add(1)), value.wrapping_add(1))
    }

    fn calculator(register: &mut Register, value: u8) -> (r: u8) {
        let result = value.wrapping_add(1);
        register.set_nz_from_value(result);
        result
    }
}

/// Subtracts one, wrapping.
pub struct Dec;

impl AccumulateMemory for Dec {
    open spec fn calculator_spec(register: Register, value: u8) -> (Register, u8) {
        (register.with_nz(value.wrapping_sub(1)), value.wrapping_sub(1))
    }

    fn calculator(register: &mut Register, value: u8) -> (r: u8) {
        let result = value.wrapping_sub(1);
        register.set_nz_from_value(result);
        result
    }
}

/// Adds one to the byte, then subtracts it from the accumulator.
pub struct Isc;

impl AccumulateMemory for Isc {
    open spec fn calculator_spec(register: Register, value: u8) -> (Register, u8) {
        (subtracted(register, value.wrapping_add(1)), value.wrapping_add(1))
    }

    fn calculator(register: &mut Register, value: u8) -> (r: u8) {
        let result = value.wrapping_add(1);
        subtract_with_borrow(register, result);
        result
    }
}

/// Subtracts one from the byte, then compares the accumulator with it.
pub struct Dcp;

impl AccumulateMemory for Dcp {
    open spec fn calculator_spec(register: Register, value: u8) -> (Register, u8) {
        (compared(register, register.a, value.wrapping_sub(1)), value.wrapping_sub(1))
    }

    fn calculator(register: &mut Register, value: u8) -> (r: u8) {
        let result = value.wrapping_sub(1);
        let a = register.get_a();
        compare_values(register, a, result);
        result
    }
}

/// Shifts the byte left, then ORs it into the accumulator.
pub struct Slo;

impl AccumulateMemory for Slo {
    open spec fn calculator_spec(register: Register, value: u8) -> (Register, u8) {
        let result = shifted_left(value, false);
        (
            Register {
                c: has_flag(value, NEGATIVE),
                a: register.a | result,
                ..register
            }.with_nz(register.a | result),
            result,
        )
    }

    fn calculator(register: &mut Register, value: u8) -> (r: u8) {
        register.set_c(value & 0x80 != 0);
        let result = shift_left(value, false);
        let a = register.get_a() | result;
        register.set_a(a);
        register.set_nz_from_value(a);
        result
    }
}

/// Rotates the byte left, then ANDs it into the accumulator.
pub struct Rla;

impl AccumulateMemory for Rla {
    open spec fn calculator_spec(register: Register, value: u8) -> (Register, u8) {
        let result = shifted_left(value, register.c);
        (
            Register {
                c: has_flag(value, NEGATIVE),
                a: result & register.a,
                ..register
            }.with_nz(result & register.a),
            result,
        )
    }

    fn calculator(register: &mut Register, value: u8) -> (r: u8) {
        let result = shift_left(value, register.get_c());
        register.set_c(value & 0x80 != 0);
        let a = result & register.get_a();
        register.set_a(a);
        register.set_nz_from_value(a);
        result
    }
}

/// Shifts the byte right, then exclusive-ORs it into the accumulator.
pub struct Sre;

impl AccumulateMemory for Sre {
    open spec fn calculator_spec(register: Register, value: u8) -> (Register, u8) {
        let result = shifted_right(value, false);
        (
            Register {
                c: value & 0x01 != 0,
                a: register.a ^ result,
                ..register
            }.with_nz(register.a ^ result),
            result,
        )
    }

    fn calculator(register: &mut Register, value: u8) -> (r: u8) {
        register.set_c(value & 0x01 != 0);
        let result = shift_right(value, false);
        let a = register.get_a() ^ result;
        register.set_a(a);
        register.set_nz_from_value(a);
        result
    }
}

/// Rotates the byte right, then adds it to the accumulator with the bit
/// that fell out as carry.
pub struct Rra;

impl AccumulateMemory for Rra {
    open spec fn calculator_spec(register: Register, value: u8) -> (Register, u8) {
        let result = shifted_right(value, register.c);
        (added(Register { c: value & 0x01 != 0, ..register }, result), result)
    }

    fn calculator(register: &mut Register, value: u8) -> (r: u8) {
        let result = shift_right(value, register.get_c());
        register.set_c(value & 0x01 != 0);
        add_with_carry(register, result);
        result
    }
}

} // verus!
