//! Absolute addressing, plain and indexed, and the indirect jump operand.

use crate::cpu::bus::Bus;
use crate::cpu::internal_stat::InternalStat;
use crate::cpu::{
    exit_addressing_mode, high_byte, leave_addressing_mode, low_byte, make_word,
    one_access_or_none, proceed, read, read_next, read_next_spec, read_spec, word, Core,
    CpuStepStateEnum,
};
use vstd::prelude::*;

verus! {

/// `core` after the operand's low byte was fetched into the effective
/// address.
pub open spec fn fetch_low_spec<B: Bus>(core: Core, bus: B::V) -> (Core, B::V) {
    let (c, b, low) = read_next_spec::<B>(core, bus);
    (Core { internal_stat: InternalStat { address: low as u16, ..c.internal_stat }, ..c }, b)
}

/// `core` after the operand's high byte was fetched and joined the low byte,
/// to which `index` was added inside its page; `crossed` records whether
/// the sum left the page.
pub open spec fn fetch_high_spec<B: Bus>(core: Core, bus: B::V, index: u8) -> (Core, B::V) {
    let (c, b, high) = read_next_spec::<B>(core, bus);
    let low = core.internal_stat.address % 256;
    (
        Core {
            internal_stat: InternalStat {
                address: word(((low + index) % 256) as u8, high),
                crossed: low + index > 0xFF,
                ..c.internal_stat
            },
            ..c
        },
        b,
    )
}

/// `core` after a read at the effective address as it stands, which is then
/// moved up one page if the index had left it.
pub open spec fn fix_page_spec<B: Bus>(core: Core, bus: B::V) -> (Core, B::V) {
    let (c, b, _value) = read_spec::<B>(core, bus, core.internal_stat.address);
    (
        Core {
            internal_stat: InternalStat {
                address: if core.internal_stat.crossed {
                    core.internal_stat.address.wrapping_add(0x100)
                } else {
                    core.internal_stat.address
                },
                ..c.internal_stat
            },
            ..c
        },
        b,
    )
}

/// `core` after the byte at the effective address went to the scratch byte.
pub open spec fn load_pointer_low_spec<B: Bus>(core: Core, bus: B::V) -> (Core, B::V) {
    let (c, b, low) = read_spec::<B>(core, bus, core.internal_stat.address);
    (Core { internal_stat: InternalStat { data: low, ..c.internal_stat }, ..c }, b)
}

/// The address that follows `address` inside its own page: the last byte of
/// a page is followed by the first of the same page.
pub open spec fn next_in_page(address: u16) -> u16 {
    word(((address % 256 + 1) % 256) as u8, (address / 256) as u8)
}

/// `core` after the byte that follows the effective address inside its page
/// was read as a high byte and joined the scratch byte, to which `index`
/// was added inside its page, in the effective address; `crossed` records
/// whether the sum left the page.
pub open spec fn load_pointer_high_spec<B: Bus>(core: Core, bus: B::V, index: u8) -> (Core, B::V) {
    let (c, b, high) = read_spec::<B>(core, bus, next_in_page(core.internal_stat.address));
    let low = core.internal_stat.data;
    (
        Core {
            internal_stat: InternalStat {
                address: word(((low + index) % 256) as u8, high),
                crossed: low + index > 0xFF,
                ..c.internal_stat
            },
            ..c
        },
        b,
    )
}

pub fn fetch_low<B: Bus>(core: &mut Core, bus: &mut B)
    ensures
        (*final(core), final(bus)@) == fetch_low_spec::<B>(*old(core), old(bus)@),
        one_access_or_none(*old(bus), *final(bus), *final(core), CpuStepStateEnum::Continue),
{
    let low = read_next(core, bus);
    core.internal_stat.set_address(low as u16);
}

pub fn fetch_high<B: Bus>(core: &mut Core, bus: &mut B, index: u8)
    ensures
        (*final(core), final(bus)@) == fetch_high_spec::<B>(*old(core), old(bus)@, index),
        one_access_or_none(*old(bus), *final(bus), *final(core), CpuStepStateEnum::Continue),
{
    let high = read_next(core, bus);
    let sum: u16 = (core.internal_stat.get_address() % 256) + (index as u16);
    core.internal_stat.set_address(make_word(low_byte(sum), high));
    core.internal_stat.set_crossed(sum > 0xFF);
}

pub fn fix_page<B: Bus>(core: &mut Core, bus: &mut B)
    ensures
        (*final(core), final(bus)@) == fix_page_spec::<B>(*old(core), old(bus)@),
        one_access_or_none(*old(bus), *final(bus), *final(core), CpuStepStateEnum::Continue),
{
    let address = core.internal_stat.get_address();
    let _ = read(core, bus, address);
    if core.internal_stat.get_crossed() {
        core.internal_stat.set_address(address.wrapping_add(0x100));
    }
}

pub fn load_pointer_low<B: Bus>(core: &mut Core, bus: &mut B)
    ensures
        (*final(core), final(bus)@) == load_pointer_low_spec::<B>(*old(core), old(bus)@),
        one_access_or_none(*old(bus), *final(bus), *final(core), CpuStepStateEnum::Continue),
{
    let address = core.internal_stat.get_address();
    let low = read(core, bus, address);
    core.internal_stat.set_data(low);
}

pub fn load_pointer_high<B: Bus>(core: &mut Core, bus: &mut B, index: u8)
    ensures
        (*final(core), final(bus)@) == load_pointer_high_spec::<B>(*old(core), old(bus)@, index),
        one_access_or_none(*old(bus), *final(bus), *final(core), CpuStepStateEnum::Continue),
{
    let address = core.internal_stat.get_address();
    let next = make_word(low_byte(address).wrapping_add(1), high_byte(address));
    let high = read(core, bus, next);
    let sum: u16 = (core.internal_stat.get_data() as u16) + (index as u16);
    core.internal_stat.set_address(make_word(low_byte(sum), high));
    core.internal_stat.set_crossed(sum > 0xFF);
}

/// The operand is a 16-bit address: two cycles.
pub struct Absolute;

impl Absolute {
    pub fn new() -> Self {
        Self
    }

    pub open spec fn exec_spec<B: Bus>(core: Core, bus: B::V) -> (Core, B::V, CpuStepStateEnum) {
        match core.internal_stat.step {
            1 => proceed::<B>(fetch_low_spec::<B>(core, bus)),
            2 => proceed::<B>(fetch_high_spec::<B>(core, bus, 0)),
            _ => leave_addressing_mode::<B>(core, bus),
        }
    }

    pub fn exec<B: Bus>(core: &mut Core, bus: &mut B) -> (r: CpuStepStateEnum)
        ensures
            (*final(core), final(bus)@, r) == Self::exec_spec::<B>(*old(core), old(bus)@),
            one_access_or_none(*old(bus), *final(bus), *final(core), r),
    {
        match core.internal_stat.get_step() {
            1 => {
                fetch_low(core, bus);
            },
            2 => {
                fetch_high(core, bus, 0);
            },
            _ => {
                return exit_addressing_mode(core);
            },
        }
        CpuStepStateEnum::Continue
    }
}

/// The operand is a 16-bit address to which an index register is added. A
/// third cycle reads at the address before the carry into its high byte is
/// applied: always (`always_fix`, for stores and read-modify-write), or
/// only when there is such a carry.
pub open spec fn indexed_spec<B: Bus>(core: Core, bus: B::V, index: u8, always_fix: bool) -> (
    Core,
    B::V,
    CpuStepStateEnum,
) {
    match core.internal_stat.step {
        1 => proceed::<B>(fetch_low_spec::<B>(core, bus)),
        2 => proceed::<B>(fetch_high_spec::<B>(core, bus, index)),
        3 => if always_fix || core.internal_stat.crossed {
            proceed::<B>(fix_page_spec::<B>(core, bus))
        } else {
            leave_addressing_mode::<B>(core, bus)
        },
        _ => leave_addressing_mode::<B>(core, bus),
    }
}

pub fn indexed<B: Bus>(core: &mut Core, bus: &mut B, index: u8, always_fix: bool) -> (r:
    CpuStepStateEnum)
    ensures
        (*final(core), final(bus)@, r) == indexed_spec::<B>(*old(core), old(bus)@, index, always_fix),
        one_access_or_none(*old(bus), *final(bus), *final(core), r),
{
    match core.internal_stat.get_step() {
        1 => {
            fetch_low(core, bus);
        },
        2 => {
            fetch_high(core, bus, index);
        },
        3 => {
            if always_fix || core.internal_stat.get_crossed() {
                fix_page(core, bus);
            } else {
                return exit_addressing_mode(core);
            }
        },
        _ => {
            return exit_addressing_mode(core);
        },
    }
    CpuStepStateEnum::Continue
}

/// Absolute address plus X, for reads.
pub struct AbsoluteX;

impl AbsoluteX {
    pub fn new() -> Self {
        Self
    }

    pub open spec fn exec_spec<B: Bus>(core: Core, bus: B::V) -> (Core, B::V, CpuStepStateEnum) {
        indexed_spec::<B>(core, bus, core.register.x, false)
    }

    pub fn exec<B: Bus>(core: &mut Core, bus: &mut B) -> (r: CpuStepStateEnum)
        ensures
            (*final(core), final(bus)@, r) == Self::exec_spec::<B>(*old(core), old(bus)@),
            one_access_or_none(*old(bus), *final(bus), *final(core), r),
    {
        let index = core.register.get_x();
        indexed(core, bus, index, false)
    }
}

/// Absolute address plus X, for stores and read-modify-write.
pub struct AbsoluteXRmw;

impl AbsoluteXRmw {
    pub fn new() -> Self {
        Self
    }

    pub open spec fn exec_spec<B: Bus>(core: Core, bus: B::V) -> (Core, B::V, CpuStepStateEnum) {
        indexed_spec::<B>(core, bus, core.register.x, true)
    }

    pub fn exec<B: Bus>(core: &mut Core, bus: &mut B) -> (r: CpuStepStateEnum)
        ensures
            (*final(core), final(bus)@, r) == Self::exec_spec::<B>(*old(core), old(bus)@),
            one_access_or_none(*old(bus), *final(bus), *final(core), r),
    {
        let index = core.register.get_x();
        indexed(core, bus, index, true)
    }
}

/// Absolute address plus Y, for reads.
pub struct AbsoluteY;

impl AbsoluteY {
    pub fn new() -> Self {
        Self
    }

    pub open spec fn exec_spec<B: Bus>(core: Core, bus: B::V) -> (Core, B::V, CpuStepStateEnum) {
        indexed_spec::<B>(core, bus, core.register.y, false)
    }

    pub fn exec<B: Bus>(core: &mut Core, bus: &mut B) -> (r: CpuStepStateEnum)
        ensures
            (*final(core), final(bus)@, r) == Self::exec_spec::<B>(*old(core), old(bus)@),
            one_access_or_none(*old(bus), *final(bus), *final(core), r),
    {
        let index = core.register.get_y();
        indexed(core, bus, index, false)
    }
}

/// Absolute address plus Y, for stores and read-modify-write.
pub struct AbsoluteYRmw;

impl AbsoluteYRmw {
    pub fn new() -> Self {
        Self
    }

    pub open spec fn exec_spec<B: Bus>(core: Core, bus: B::V) -> (Core, B::V, CpuStepStateEnum) {
        indexed_spec::<B>(core, bus, core.register.y, true)
    }

    pub fn exec<B: Bus>(core: &mut Core, bus: &mut B) -> (r: CpuStepStateEnum)
        ensures
            (*final(core), final(bus)@, r) == Self::exec_spec::<B>(*old(core), old(bus)@),
            one_access_or_none(*old(bus), *final(bus), *final(core), r),
    {
        let index = core.register.get_y();
        indexed(core, bus, index, true)
    }
}

/// The operand is the address of a 16-bit pointer, read without leaving the
/// pointer's page: four cycles.
pub struct AbsoluteIndirect;

impl AbsoluteIndirect {
    pub fn new() -> Self {
        Self
    }

    pub open spec fn exec_spec<B: Bus>(core: Core, bus: B::V) -> (Core, B::V, CpuStepStateEnum) {
        match core.internal_stat.step {
            1 => proceed::<B>(fetch_low_spec::<B>(core, bus)),
            2 => proceed::<B>(fetch_high_spec::<B>(core, bus, 0)),
            3 => proceed::<B>(load_pointer_low_spec::<B>(core, bus)),
            4 => proceed::<B>(load_pointer_high_spec::<B>(core, bus, 0)),
            _ => leave_addressing_mode::<B>(core, bus),
        }
    }

    pub fn exec<B: Bus>(core: &mut Core, bus: &mut B) -> (r: CpuStepStateEnum)
        ensures
            (*final(core), final(bus)@, r) == Self::exec_spec::<B>(*old(core), old(bus)@),
            one_access_or_none(*old(bus), *final(bus), *final(core), r),
    {
        match core.internal_stat.get_step() {
            1 => {
                fetch_low(core, bus);
            },
            2 => {
                fetch_high(core, bus, 0);
            },
            3 => {
                load_pointer_low(core, bus);
            },
            4 => {
                load_pointer_high(core, bus, 0);
            },
            _ => {
                return exit_addressing_mode(core);
            },
        }
        CpuStepStateEnum::Continue
    }
}

} // verus!
