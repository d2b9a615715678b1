//! Relative addressing: the operand is a signed displacement from the
//! program counter.

use crate::cpu::bus::Bus;
use crate::cpu::internal_stat::InternalStat;
use crate::cpu::{
    exit_addressing_mode, leave_addressing_mode, one_access_or_none, proceed, read_next,
    read_next_spec, Core, CpuStepStateEnum,
};
use vstd::prelude::*;

verus! {

/// The address `offset` away from `pc`, where `offset` is read as a signed
/// byte and the sum wraps at 16 bits.
pub open spec fn branch_target(pc: u16, offset: u8) -> u16 {
    ((pc + offset + 0x10000 - (if offset < 0x80 {
        0int
    } else {
        0x100
    })) % 0x10000) as u16
}

/// `core` after the displacement was fetched and the branch target became
/// the effective address.
pub open spec fn fetch_target_spec<B: Bus>(core: Core, bus: B::V) -> (Core, B::V) {
    let (c, b, offset) = read_next_spec::<B>(core, bus);
    (
        Core {
            internal_stat: InternalStat {
                address: branch_target(c.register.pc, offset),
                ..c.internal_stat
            },
            ..c
        },
        b,
    )
}

pub fn fetch_target<B: Bus>(core: &mut Core, bus: &mut B)
    ensures
        (*final(core), final(bus)@) == fetch_target_spec::<B>(*old(core), old(bus)@),
        one_access_or_none(*old(bus), *final(bus), *final(core), CpuStepStateEnum::Continue),
{
    let offset = read_next(core, bus);
    let pc = core.register.get_pc();
    let target = pc.wrapping_add(offset as u16).wrapping_sub(
        if offset < 0x80 {
            0
        } else {
            0x100
        },
    );
    core.internal_stat.set_address(target);
}

/// One cycle: the displacement is fetched.
pub struct Relative;

impl Relative {
    pub fn new() -> Self {
        Self
    }

    pub open spec fn exec_spec<B: Bus>(core: Core, bus: B::V) -> (Core, B::V, CpuStepStateEnum) {
        match core.internal_stat.step {
            1 => proceed::<B>(fetch_target_spec::<B>(core, bus)),
            _ => leave_addressing_mode::<B>(core, bus),
        }
    }

    pub fn exec<B: Bus>(core: &mut Core, bus: &mut B) -> (r: CpuStepStateEnum)
        ensures
            (*final(core), final(bus)@, r) == Self::exec_spec::<B>(*old(core), old(bus)@),
            one_access_or_none(*old(bus), *final(bus), *final(core), r),
    {
        match core.internal_stat.get_step() {
            1 => {
                fetch_target(core, bus);
            },
            _ => {
                return exit_addressing_mode(core);
            },
        }
        CpuStepStateEnum::Continue
    }
}

} // verus!
