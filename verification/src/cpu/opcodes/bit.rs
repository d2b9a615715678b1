//! The bit test.

use crate::cpu::bus::Bus;
use crate::cpu::register::{has_flag, Register, NEGATIVE, OVERFLOW};
use crate::cpu::{
    exit_opcode, leave_opcode, one_access_or_none, proceed, read, read_spec, Core,
    CpuStepStateEnum,
};
use vstd::prelude::*;

verus! {

/// The registers after the operand `value` was tested against the
/// accumulator: zero says that they share no bit, overflow and negative
/// are bits 6 and 7 of the operand.
pub open spec fn bit_tested(register: Register, value: u8) -> Register {
    Register {
        v: has_flag(value, OVERFLOW),
        z: value & register.a == 0,
        n: has_flag(value, NEGATIVE),
        ..register
    }
}

/// `core` after the operand was read and tested.
pub open spec fn test_operand_spec<B: Bus>(core: Core, bus: B::V) -> (Core, B::V) {
    let (c, b, value) = read_spec::<B>(core, bus, core.internal_stat.address);
    (Core { register: bit_tested(c.register, value), ..c }, b)
}

pub fn test_operand<B: Bus>(core: &mut Core, bus: &mut B)
    ensures
        (*final(core), final(bus)@) == test_operand_spec::<B>(*old(core), old(bus)@),
        one_access_or_none(*old(bus), *final(bus), *final(core), CpuStepStateEnum::Continue),
{
    let address = core.internal_stat.get_address();
    let value = read(core, bus, address);
    let shared = value & core.register.get_a();
    core.register.set_v(value & 0x40 != 0);
    core.register.set_z_from_value(shared);
    core.register.set_n_from_value(value);
}

/// Tests the operand against the accumulator: one cycle.
pub struct Bit;

impl Bit {
    pub fn new() -> Self {
        Self
    }

    pub open spec fn exec_spec<B: Bus>(core: Core, bus: B::V) -> (Core, B::V, CpuStepStateEnum) {
        match core.internal_stat.step {
            1 => proceed::<B>(test_operand_spec::<B>(core, bus)),
            _ => leave_opcode::<B>(core, bus),
        }
    }

    pub fn exec<B: Bus>(core: &mut Core, bus: &mut B) -> (r: CpuStepStateEnum)
        ensures
            (*final(core), final(bus)@, r) == Self::exec_spec::<B>(*old(core), old(bus)@),
            one_access_or_none(*old(bus), *final(bus), *final(core), r),
    {
        match core.internal_stat.get_step() {
            1 => {
                test_operand(core, bus);
            },
            _ => {
                return exit_opcode(core);
            },
        }
        CpuStepStateEnum::Continue
    }
}

} // verus!
