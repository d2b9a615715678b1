//! Operations that change nothing: the no-operation, its forms that read
//! and drop an operand, and the jam.

use crate::cpu::bus::Bus;
use crate::cpu::{
    exit_opcode, leave_opcode, one_access_or_none, proceed, read, read_dummy_current,
    read_dummy_current_spec, read_spec, Core, CpuStepStateEnum,
};
use vstd::prelude::*;

verus! {

/// `core` after a read at the effective address whose result is dropped.
pub open spec fn read_dummy_operand_spec<B: Bus>(core: Core, bus: B::V) -> (Core, B::V) {
    let (c, b, _value) = read_spec::<B>(core, bus, core.internal_stat.address);
    (c, b)
}

pub fn read_dummy_operand<B: Bus>(core: &mut Core, bus: &mut B)
    ensures
        (*final(core), final(bus)@) == read_dummy_operand_spec::<B>(*old(core), old(bus)@),
        one_access_or_none(*old(bus), *final(bus), *final(core), CpuStepStateEnum::Continue),
{
    let address = core.internal_stat.get_address();
    let _ = read(core, bus, address);
}

/// One cycle that reads at the program counter and drops the byte.
pub struct Nop;

impl Nop {
    pub fn new() -> Self {
        Self
    }

    pub open spec fn exec_spec<B: Bus>(core: Core, bus: B::V) -> (Core, B::V, CpuStepStateEnum) {
        match core.internal_stat.step {
            1 => proceed::<B>(read_dummy_current_spec::<B>(core, bus)),
            _ => leave_opcode::<B>(core, bus),
        }
    }

    pub fn exec<B: Bus>(core: &mut Core, bus: &mut B) -> (r: CpuStepStateEnum)
        ensures
            (*final(core), final(bus)@, r) == Self::exec_spec::<B>(*old(core), old(bus)@),
            one_access_or_none(*old(bus), *final(bus), *final(core), r),
    {
        match core.internal_stat.get_step() {
            1 => {
                read_dummy_current(core, bus);
            },
            _ => {
                return exit_opcode(core);
            },
        }
        CpuStepStateEnum::Continue
    }
}

/// One cycle that reads the operand and drops it.
pub struct Ign;

impl Ign {
    pub fn new() -> Self {
        Self
    }

    pub open spec fn exec_spec<B: Bus>(core: Core, bus: B::V) -> (Core, B::V, CpuStepStateEnum) {
        match core.internal_stat.step {
            1 => proceed::<B>(read_dummy_operand_spec::<B>(core, bus)),
            _ => leave_opcode::<B>(core, bus),
        }
    }

    pub fn exec<B: Bus>(core: &mut Core, bus: &mut B) -> (r: CpuStepStateEnum)
        ensures
            (*final(core), final(bus)@, r) == Self::exec_spec::<B>(*old(core), old(bus)@),
            one_access_or_none(*old(bus), *final(bus), *final(core), r),
    {
        match core.internal_stat.get_step() {
            1 => {
                read_dummy_operand(core, bus);
            },
            _ => {
                return exit_opcode(core);
            },
        }
        CpuStepStateEnum::Continue
    }
}

/// The jam: instruction progress stops, and every cycle from then on reads
/// at the program counter and drops the byte.
pub struct Kil;

impl Kil {
    pub fn new() -> Self {
        Self
    }

    pub open spec fn exec_spec<B: Bus>(core: Core, bus: B::V) -> (Core, B::V, CpuStepStateEnum) {
        proceed::<B>(read_dummy_current_spec::<B>(core, bus))
    }

    pub fn exec<B: Bus>(core: &mut Core, bus: &mut B) -> (r: CpuStepStateEnum)
        ensures
            (*final(core), final(bus)@, r) == Self::exec_spec::<B>(*old(core), old(bus)@),
            one_access_or_none(*old(bus), *final(bus), *final(core), r),
    {
        read_dummy_current(core, bus);
        CpuStepStateEnum::Continue
    }
}

} // verus!
