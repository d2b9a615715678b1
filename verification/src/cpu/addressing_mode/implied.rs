//! The modes that take no cycle of their own: no operand, the accumulator,
//! or the byte that follows the opcode.

use crate::cpu::bus::Bus;
use crate::cpu::internal_stat::InternalStat;
use crate::cpu::register::Register;
use crate::cpu::{
    exit_addressing_mode, exit_addressing_mode_spec, leave_addressing_mode, one_access_or_none,
    Core, CpuStepStateEnum,
};
use vstd::prelude::*;

verus! {

/// No operand: the sequence is over before it begins.
pub struct Implied;

impl Implied {
    pub fn new() -> Self {
        Self
    }

    pub open spec fn exec_spec<B: Bus>(core: Core, bus: B::V) -> (Core, B::V, CpuStepStateEnum) {
        leave_addressing_mode::<B>(core, bus)
    }

    pub fn exec<B: Bus>(core: &mut Core, bus: &mut B) -> (r: CpuStepStateEnum)
        ensures
            (*final(core), final(bus)@, r) == Self::exec_spec::<B>(*old(core), old(bus)@),
            one_access_or_none(*old(bus), *final(bus), *final(core), r),
    {
        exit_addressing_mode(core)
    }
}

/// The operand is the accumulator: the sequence is over before it begins.
pub struct Accumulator;

impl Accumulator {
    pub fn new() -> Self {
        Self
    }

    pub open spec fn exec_spec<B: Bus>(core: Core, bus: B::V) -> (Core, B::V, CpuStepStateEnum) {
        leave_addressing_mode::<B>(core, bus)
    }

    pub fn exec<B: Bus>(core: &mut Core, bus: &mut B) -> (r: CpuStepStateEnum)
        ensures
            (*final(core), final(bus)@, r) == Self::exec_spec::<B>(*old(core), old(bus)@),
            one_access_or_none(*old(bus), *final(bus), *final(core), r),
    {
        exit_addressing_mode(core)
    }
}

/// The operand is the byte at the program counter: its address becomes the
/// effective address and the program counter moves past it, at no cycle.
pub struct Immediate;

impl Immediate {
    pub fn new() -> Self {
        Self
    }

    pub open spec fn exec_spec<B: Bus>(core: Core, bus: B::V) -> (Core, B::V, CpuStepStateEnum) {
        (
            exit_addressing_mode_spec(
                Core {
                    register: Register { pc: core.register.pc.wrapping_add(1), ..core.register },
                    internal_stat: InternalStat { address: core.register.pc, ..core.internal_stat },
                    ..core
                },
            ),
            bus,
            CpuStepStateEnum::Exit,
        )
    }

    pub fn exec<B: Bus>(core: &mut Core, bus: &mut B) -> (r: CpuStepStateEnum)
        ensures
            (*final(core), final(bus)@, r) == Self::exec_spec::<B>(*old(core), old(bus)@),
            one_access_or_none(*old(bus), *final(bus), *final(core), r),
    {
        let pc = core.register.get_pc();
        core.internal_stat.set_address(pc);
        core.register.set_pc(pc.wrapping_add(1));
        exit_addressing_mode(core)
    }
}

} // verus!
