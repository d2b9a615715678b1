//! Zero-page addressing, plain and indexed.

use super::absolute::{fetch_low, fetch_low_spec};
use crate::cpu::bus::Bus;
use crate::cpu::internal_stat::InternalStat;
use crate::cpu::{
    exit_addressing_mode, leave_addressing_mode, one_access_or_none, proceed, read, read_spec,
    Core, CpuStepStateEnum,
};
use vstd::prelude::*;

verus! {

/// `core` after a read at the effective address, to which `index` is then
/// added without leaving page zero.
pub open spec fn index_zero_page_spec<B: Bus>(core: Core, bus: B::V, index: u8) -> (Core, B::V) {
    let (c, b, _value) = read_spec::<B>(core, bus, core.internal_stat.address);
    (
        Core {
            internal_stat: InternalStat {
                address: ((core.internal_stat.address + index) % 256) as u16,
                ..c.internal_stat
            },
            ..c
        },
        b,
    )
}

pub fn index_zero_page<B: Bus>(core: &mut Core, bus: &mut B, index: u8)
    ensures
        (*final(core), final(bus)@) == index_zero_page_spec::<B>(*old(core), old(bus)@, index),
        one_access_or_none(*old(bus), *final(bus), *final(core), CpuStepStateEnum::Continue),
{
    let address = core.internal_stat.get_address();
    let _ = read(core, bus, address);
    core.internal_stat.set_address((address % 256 + (index as u16)) % 256);
}

/// The operand is an address in page zero: one cycle.
pub struct ZeroPage;

impl ZeroPage {
    pub fn new() -> Self {
        Self
    }

    pub open spec fn exec_spec<B: Bus>(core: Core, bus: B::V) -> (Core, B::V, CpuStepStateEnum) {
        match core.internal_stat.step {
            1 => proceed::<B>(fetch_low_spec::<B>(core, bus)),
            _ => leave_addressing_mode::<B>(core, bus),
        }
    }

    pub fn exec<B: Bus>(core: &mut Core, bus: &mut B) -> (r: CpuStepStateEnum)
        ensures
            (*final(core), final(bus)@, r) == Self::exec_spec::<B>(*old(core), old(bus)@),
            one_access_or_none(*old(bus), *final(bus), *final(core), r),
    {
        match core.internal_stat.get_step() {
            1 => {
                fetch_low(core, bus);
            },
            _ => {
                return exit_addressing_mode(core);
            },
        }
        CpuStepStateEnum::Continue
    }
}

/// An address in page zero plus an index that wraps inside the page: two
/// cycles, the second a read at the address before indexing.
pub open spec fn zero_page_indexed_spec<B: Bus>(core: Core, bus: B::V, index: u8) -> (
    Core,
    B::V,
    CpuStepStateEnum,
) {
    match core.internal_stat.step {
        1 => proceed::<B>(fetch_low_spec::<B>(core, bus)),
        2 => proceed::<B>(index_zero_page_spec::<B>(core, bus, index)),
        _ => leave_addressing_mode::<B>(core, bus),
    }
}

pub fn zero_page_indexed<B: Bus>(core: &mut Core, bus: &mut B, index: u8) -> (r:
    CpuStepStateEnum)
    ensures
        (*final(core), final(bus)@, r) == zero_page_indexed_spec::<B>(*old(core), old(bus)@, index),
        one_access_or_none(*old(bus), *final(bus), *final(core), r),
{
    match core.internal_stat.get_step() {
        1 => {
            fetch_low(core, bus);
        },
        2 => {
            index_zero_page(core, bus, index);
        },
        _ => {
            return exit_addressing_mode(core);
        },
    }
    CpuStepStateEnum::Continue
}

/// Zero-page address plus X.
pub struct ZeroPageX;

impl ZeroPageX {
    pub fn new() -> Self {
        Self
    }

    pub open spec fn exec_spec<B: Bus>(core: Core, bus: B::V) -> (Core, B::V, CpuStepStateEnum) {
        zero_page_indexed_spec::<B>(core, bus, core.register.x)
    }

    pub fn exec<B: Bus>(core: &mut Core, bus: &mut B) -> (r: CpuStepStateEnum)
        ensures
            (*final(core), final(bus)@, r) == Self::exec_spec::<B>(*old(core), old(bus)@),
            one_access_or_none(*old(bus), *final(bus), *final(core), r),
    {
        let index = core.register.get_x();
        zero_page_indexed(core, bus, index)
    }
}

/// Zero-page address plus Y.
pub struct ZeroPageY;

impl ZeroPageY {
    pub fn new() -> Self {
        Self
    }

    pub open spec fn exec_spec<B: Bus>(core: Core, bus: B::V) -> (Core, B::V, CpuStepStateEnum) {
        zero_page_indexed_spec::<B>(core, bus, core.register.y)
    }

    pub fn exec<B: Bus>(core: &mut Core, bus: &mut B) -> (r: CpuStepStateEnum)
        ensures
            (*final(core), final(bus)@, r) == Self::exec_spec::<B>(*old(core), old(bus)@),
            one_access_or_none(*old(bus), *final(bus), *final(core), r),
    {
        let index = core.register.get_y();
        zero_page_indexed(core, bus, index)
    }
}

} // verus!
