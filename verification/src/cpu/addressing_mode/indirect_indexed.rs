//! Indirect-indexed addressing: the operand points, inside page zero, at an
//! address to which Y is added.

use super::absolute::{
    fetch_low, fetch_low_spec, fix_page, fix_page_spec, load_pointer_high,
    load_pointer_high_spec, load_pointer_low, load_pointer_low_spec,
};
use crate::cpu::bus::Bus;
use crate::cpu::{
    exit_addressing_mode, leave_addressing_mode, one_access_or_none, proceed, Core,
    CpuStepStateEnum,
};
use vstd::prelude::*;

verus! {

/// Three cycles fetch the operand and the two bytes it points at. A fourth
/// reads at the address before the carry into its high byte is applied:
/// always (`always_fix`), or only when there is such a carry.
pub open spec fn indirect_indexed_spec<B: Bus>(core: Core, bus: B::V, always_fix: bool) -> (
    Core,
    B::V,
    CpuStepStateEnum,
) {
    match core.internal_stat.step {
        1 => proceed::<B>(fetch_low_spec::<B>(core, bus)),
        2 => proceed::<B>(load_pointer_low_spec::<B>(core, bus)),
        3 => proceed::<B>(load_pointer_high_spec::<B>(core, bus, core.register.y)),
        4 => if always_fix || core.internal_stat.crossed {
            proceed::<B>(fix_page_spec::<B>(core, bus))
        } else {
            leave_addressing_mode::<B>(core, bus)
        },
        _ => leave_addressing_mode::<B>(core, bus),
    }
}

pub fn indirect_indexed<B: Bus>(core: &mut Core, bus: &mut B, always_fix: bool) -> (r:
    CpuStepStateEnum)
    ensures
        (*final(core), final(bus)@, r) == indirect_indexed_spec::<B>(*old(core), old(bus)@, always_fix),
        one_access_or_none(*old(bus), *final(bus), *final(core), r),
{
    match core.internal_stat.get_step() {
        1 => {
            fetch_low(core, bus);
        },
        2 => {
            load_pointer_low(core, bus);
        },
        3 => {
            let index = core.register.get_y();
            load_pointer_high(core, bus, index);
        },
        4 => {
            if always_fix || core.internal_stat.get_crossed() {
                fix_page(core, bus);
            } else {
                return exit_addressing_mode(core);
            }
        },
        _ => {
            return exit_addressing_mode(core);
        },
    }
    CpuStepStateEnum::Continue
}

/// Indirect-indexed addressing for reads.
pub struct IndirectIndexed;

impl IndirectIndexed {
    pub fn new() -> Self {
        Self
    }

    pub open spec fn exec_spec<B: Bus>(core: Core, bus: B::V) -> (Core, B::V, CpuStepStateEnum) {
        indirect_indexed_spec::<B>(core, bus, false)
    }

    pub fn exec<B: Bus>(core: &mut Core, bus: &mut B) -> (r: CpuStepStateEnum)
        ensures
            (*final(core), final(bus)@, r) == Self::exec_spec::<B>(*old(core), old(bus)@),
            one_access_or_none(*old(bus), *final(bus), *final(core), r),
    {
        indirect_indexed(core, bus, false)
    }
}

/// Indirect-indexed addressing for stores and read-modify-write.
pub struct IndirectIndexedRmw;

impl IndirectIndexedRmw {
    pub fn new() -> Self {
        Self
    }

    pub open spec fn exec_spec<B: Bus>(core: Core, bus: B::V) -> (Core, B::V, CpuStepStateEnum) {
        indirect_indexed_spec::<B>(core, bus, true)
    }

    pub fn exec<B: Bus>(core: &mut Core, bus: &mut B) -> (r: CpuStepStateEnum)
        ensures
            (*final(core), final(bus)@, r) == Self::exec_spec::<B>(*old(core), old(bus)@),
            one_access_or_none(*old(bus), *final(bus), *final(core), r),
    {
        indirect_indexed(core, bus, true)
    }
}

} // verus!
