//! Comparisons of a register with the operand.

use crate::cpu::bus::Bus;
use crate::cpu::register::Register;
use crate::cpu::{
    exit_opcode, leave_opcode, one_access_or_none, read, read_spec, Core, CpuStepStateEnum,
};
use vstd::prelude::*;

verus! {

/// The registers after `left` was compared with `right`: zero and negative
/// come from the difference, carry says that `left` is not below `right`.
pub open spec fn compared(register: Register, left: u8, right: u8) -> Register {
    Register { c: left >= right, ..register.with_nz(left.wrapping_sub(right)) }
}

pub fn compare_values(register: &mut Register, left: u8, right: u8)
    ensures
        *final(register) == compared(*old(register), left, right),
{
    register.set_nz_from_value(left.wrapping_sub(right));
    register.set_c(left >= right);
}

/// An operation of one cycle that compares a register with its operand.
pub trait Compare: Sized {
    /// The register that is compared.
    spec fn comparer_spec(register: Register) -> u8;

    fn comparer(register: &Register) -> (r: u8)
        ensures
            r == Self::comparer_spec(*register),
    ;

    fn exec_opcode<B: Bus>(core: &mut Core, bus: &mut B) -> (r: CpuStepStateEnum)
        ensures
            old(core).internal_stat.step == 1 ==> ({
                let (c, b, value) = read_spec::<B>(*old(core), old(bus)@, old(core).internal_stat.address);
                &&& *final(core) == (Core {
                    register: compared(c.register, Self::comparer_spec(c.register), value),
                    ..c
                })
                &&& final(bus)@ == b
                &&& r == CpuStepStateEnum::Continue
            }),
            old(core).internal_stat.step != 1 ==> (*final(core), final(bus)@, r) == leave_opcode::<B>(
                *old(core),
                old(bus)@,
            ),
            one_access_or_none(*old(bus), *final(bus), *final(core), r),
    {
        match core.internal_stat.get_step() {
            1 => {
                let left = Self::comparer(&core.register);
                let address = core.internal_stat.get_address();
                let right = read(core, bus, address);
                compare_values(&mut core.register, left, right);
            },
            _ => {
                return exit_opcode(core);
            },
        }
        CpuStepStateEnum::Continue
    }
}

/// One attempt at a cycle of the comparison `C`.
pub open spec fn compare_opcode_spec<C: Compare, B: Bus>(core: Core, bus: B::V) -> (
    Core,
    B::V,
    CpuStepStateEnum,
) {
    match core.internal_stat.step {
        1 => {
            let (c, b, value) = read_spec::<B>(core, bus, core.internal_stat.address);
            (
                Core { register: compared(c.register, C::comparer_spec(c.register), value), ..c },
                b,
                CpuStepStateEnum::Continue,
            )
        },
        _ => leave_opcode::<B>(core, bus),
    }
}

/// Compares the accumulator.
pub struct Cmp;

impl Compare for Cmp {
    open spec fn comparer_spec(register: Register) -> u8 {
        register.a
    }

    fn comparer(register: &Register) -> (r: u8) {
        register.get_a()
    }
}

/// Compares X.
pub struct Cpx;

impl Compare for Cpx {
    open spec fn comparer_spec(register: Register) -> u8 {
        register.x
    }

    fn comparer(register: &Register) -> (r: u8) {
        register.get_x()
    }
}

/// Compares Y.
pub struct Cpy;

impl Compare for Cpy {
    open spec fn comparer_spec(register: Register) -> u8 {
        register.y
    }

    fn comparer(register: &Register) -> (r: u8) {
        register.get_y()
    }
}

} // verus!
