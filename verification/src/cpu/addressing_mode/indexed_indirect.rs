//! Indexed-indirect addressing: the operand plus X points, inside page
//! zero, at the effective address.

use super::absolute::{
    load_pointer_high, load_pointer_high_spec, load_pointer_low, load_pointer_low_spec,
};
use crate::cpu::bus::Bus;
use crate::cpu::internal_stat::InternalStat;
use crate::cpu::{
    exit_addressing_mode, leave_addressing_mode, one_access_or_none, proceed, read, read_next,
    read_next_spec, read_spec, Core, CpuStepStateEnum,
};
use vstd::prelude::*;

verus! {

/// `core` after the byte at the program counter went to the scratch byte.
pub open spec fn peek_operand_spec<B: Bus>(core: Core, bus: B::V) -> (Core, B::V) {
    let (c, b, operand) = read_spec::<B>(core, bus, core.register.pc);
    (Core { internal_stat: InternalStat { data: operand, ..c.internal_stat }, ..c }, b)
}

/// `core` after a second read at the program counter, which moves it on,
/// and the scratch byte plus `index`, wrapped inside page zero, became the
/// effective address.
pub open spec fn index_operand_spec<B: Bus>(core: Core, bus: B::V, index: u8) -> (Core, B::V) {
    let (c, b, _value) = read_next_spec::<B>(core, bus);
    (
        Core {
            internal_stat: InternalStat {
                address: ((core.internal_stat.data + index) % 256) as u16,
                ..c.internal_stat
            },
            ..c
        },
        b,
    )
}

pub fn peek_operand<B: Bus>(core: &mut Core, bus: &mut B)
    ensures
        (*final(core), final(bus)@) == peek_operand_spec::<B>(*old(core), old(bus)@),
        one_access_or_none(*old(bus), *final(bus), *final(core), CpuStepStateEnum::Continue),
{
    let pc = core.register.get_pc();
    let operand = read(core, bus, pc);
    core.internal_stat.set_data(operand);
}

pub fn index_operand<B: Bus>(core: &mut Core, bus: &mut B, index: u8)
    ensures
        (*final(core), final(bus)@) == index_operand_spec::<B>(*old(core), old(bus)@, index),
        one_access_or_none(*old(bus), *final(bus), *final(core), CpuStepStateEnum::Continue),
{
    let _ = read_next(core, bus);
    let pointer = core.internal_stat.get_data().wrapping_add(index);
    core.internal_stat.set_address(pointer as u16);
}

/// Four cycles: the operand is read, read again while X is added to it,
/// then the two bytes of the effective address are read from page zero.
pub struct IndexedIndirect;

impl IndexedIndirect {
    pub fn new() -> Self {
        Self
    }

    pub open spec fn exec_spec<B: Bus>(core: Core, bus: B::V) -> (Core, B::V, CpuStepStateEnum) {
        match core.internal_stat.step {
            1 => proceed::<B>(peek_operand_spec::<B>(core, bus)),
            2 => proceed::<B>(index_operand_spec::<B>(core, bus, core.register.x)),
            3 => proceed::<B>(load_pointer_low_spec::<B>(core, bus)),
            4 => proceed::<B>(load_pointer_high_spec::<B>(core, bus, 0)),
            _ => leave_addressing_mode::<B>(core, bus),
        }
    }

    pub fn exec<B: Bus>(core: &mut Core, bus: &mut B) -> (r: CpuStepStateEnum)
        ensures
            (*final(core), final(bus)@, r) == Self::exec_spec::<B>(*old(core), old(bus)@),
            one_access_or_none(*old(bus), *final(bus), *final(core), r),
    {
        match core.internal_stat.get_step() {
            1 => {
                peek_operand(core, bus);
            },
            2 => {
                let index = core.register.get_x();
                index_operand(core, bus, index);
            },
            3 => {
                load_pointer_low(core, bus);
            },
            4 => {
                load_pointer_high(core, bus, 0);
            },
            _ => {
                return exit_addressing_mode(core);
            },
        }
        CpuStepStateEnum::Continue
    }
}

} // verus!
