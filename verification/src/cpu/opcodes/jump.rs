//! Jumps, subroutine calls and returns.

use super::stack::{peek_stack, peek_stack_spec};
use crate::cpu::bus::Bus;
use crate::cpu::internal_stat::InternalStat;
use crate::cpu::register::Register;
use crate::cpu::{
    exit_opcode, high_byte, leave_opcode, low_byte, make_word, one_access_or_none, proceed,
    push, push_spec, read, read_dummy_current, read_dummy_current_spec, read_next,
    read_next_spec, read_spec, stack_address, stack_slot, word, Core, CpuStepStateEnum,
};
use vstd::prelude::*;

verus! {

/// Loads the program counter with the effective address, at no cycle.
pub struct Jmp;

impl Jmp {
    pub fn new() -> Self {
        Self
    }

    pub open spec fn exec_spec<B: Bus>(core: Core, bus: B::V) -> (Core, B::V, CpuStepStateEnum) {
        leave_opcode::<B>(
            Core { register: Register { pc: core.internal_stat.address, ..core.register }, ..core },
            bus,
        )
    }

    pub fn exec<B: Bus>(core: &mut Core, bus: &mut B) -> (r: CpuStepStateEnum)
        ensures
            (*final(core), final(bus)@, r) == Self::exec_spec::<B>(*old(core), old(bus)@),
            one_access_or_none(*old(bus), *final(bus), *final(core), r),
    {
        core.register.set_pc(core.internal_stat.get_address());
        exit_opcode(core)
    }
}

/// The address that a subroutine call leaves on the stack: that of the
/// last byte of the call, one below the program counter.
pub open spec fn return_address(core: Core) -> u16 {
    core.register.pc.wrapping_sub(1)
}

/// `core` after the high byte of the return address was pushed.
pub open spec fn push_return_high_spec<B: Bus>(core: Core, bus: B::V) -> (Core, B::V) {
    push_spec::<B>(core, bus, (return_address(core) / 256) as u8)
}

/// `core` after the low byte of the return address was pushed and the
/// program counter loaded with the effective address.
pub open spec fn push_return_low_spec<B: Bus>(core: Core, bus: B::V) -> (Core, B::V) {
    let (c, b) = push_spec::<B>(core, bus, (return_address(core) % 256) as u8);
    (Core { register: Register { pc: core.internal_stat.address, ..c.register }, ..c }, b)
}

/// `core` after the stack slot was read, dropped, and the stack pointer
/// moved up.
pub open spec fn drop_slot_spec<B: Bus>(core: Core, bus: B::V) -> (Core, B::V) {
    let (c, b, _value) = read_spec::<B>(core, bus, stack_address(core.register.sp));
    (Core { register: Register { sp: core.register.sp.wrapping_add(1), ..c.register }, ..c }, b)
}

/// `core` after the stack slot was read into the scratch byte and the
/// stack pointer moved up.
pub open spec fn pull_low_spec<B: Bus>(core: Core, bus: B::V) -> (Core, B::V) {
    let (c, b, low) = read_spec::<B>(core, bus, stack_address(core.register.sp));
    (
        Core {
            register: Register { sp: core.register.sp.wrapping_add(1), ..c.register },
            internal_stat: InternalStat { data: low, ..c.internal_stat },
            ..c
        },
        b,
    )
}

/// `core` after the stack slot was read as a high byte and joined the
/// scratch byte in the effective address.
pub open spec fn read_high_spec<B: Bus>(core: Core, bus: B::V) -> (Core, B::V) {
    let (c, b, high) = read_spec::<B>(core, bus, stack_address(core.register.sp));
    (
        Core {
            internal_stat: InternalStat {
                address: word(core.internal_stat.data, high),
                ..c.internal_stat
            },
            ..c
        },
        b,
    )
}

/// `core` after the program counter was loaded with the effective address
/// and a read there moved it on by one.
pub open spec fn resume_spec<B: Bus>(core: Core, bus: B::V) -> (Core, B::V) {
    let (c, b, _value) = read_next_spec::<B>(
        Core { register: Register { pc: core.internal_stat.address, ..core.register }, ..core },
        bus,
    );
    (c, b)
}

pub fn push_return_high<B: Bus>(core: &mut Core, bus: &mut B)
    ensures
        (*final(core), final(bus)@) == push_return_high_spec::<B>(*old(core), old(bus)@),
        one_access_or_none(*old(bus), *final(bus), *final(core), CpuStepStateEnum::Continue),
{
    let target = core.register.get_pc().wrapping_sub(1);
    push(core, bus, high_byte(target));
}

pub fn push_return_low<B: Bus>(core: &mut Core, bus: &mut B)
    ensures
        (*final(core), final(bus)@) == push_return_low_spec::<B>(*old(core), old(bus)@),
        one_access_or_none(*old(bus), *final(bus), *final(core), CpuStepStateEnum::Continue),
{
    let target = core.register.get_pc().wrapping_sub(1);
    push(core, bus, low_byte(target));
    core.register.set_pc(core.internal_stat.get_address());
}

pub fn drop_slot<B: Bus>(core: &mut Core, bus: &mut B)
    ensures
        (*final(core), final(bus)@) == drop_slot_spec::<B>(*old(core), old(bus)@),
        one_access_or_none(*old(bus), *final(bus), *final(core), CpuStepStateEnum::Continue),
{
    let sp = core.register.get_sp();
    let _ = read(core, bus, stack_slot(sp));
    core.register.set_sp(sp.wrapping_add(1));
}

pub fn pull_low<B: Bus>(core: &mut Core, bus: &mut B)
    ensures
        (*final(core), final(bus)@) == pull_low_spec::<B>(*old(core), old(bus)@),
        one_access_or_none(*old(bus), *final(bus), *final(core), CpuStepStateEnum::Continue),
{
    let sp = core.register.get_sp();
    let low = read(core, bus, stack_slot(sp));
    core.internal_stat.set_data(low);
    core.register.set_sp(sp.wrapping_add(1));
}

pub fn read_high<B: Bus>(core: &mut Core, bus: &mut B)
    ensures
        (*final(core), final(bus)@) == read_high_spec::<B>(*old(core), old(bus)@),
        one_access_or_none(*old(bus), *final(bus), *final(core), CpuStepStateEnum::Continue),
{
    let sp = core.register.get_sp();
    let high = read(core, bus, stack_slot(sp));
    core.internal_stat.set_address(make_word(core.internal_stat.get_data(), high));
}

pub fn resume<B: Bus>(core: &mut Core, bus: &mut B)
    ensures
        (*final(core), final(bus)@) == resume_spec::<B>(*old(core), old(bus)@),
        one_access_or_none(*old(bus), *final(bus), *final(core), CpuStepStateEnum::Continue),
{
    core.register.set_pc(core.internal_stat.get_address());
    let _ = read_next(core, bus);
}

/// Calls a subroutine: the stack slot is read, the return address pushed
/// high byte first, and the program counter loaded. Three cycles.
pub struct Jsr;

impl Jsr {
    pub fn new() -> Self {
        Self
    }

    pub open spec fn exec_spec<B: Bus>(core: Core, bus: B::V) -> (Core, B::V, CpuStepStateEnum) {
        match core.internal_stat.step {
            1 => proceed::<B>(peek_stack_spec::<B>(core, bus)),
            2 => proceed::<B>(push_return_high_spec::<B>(core, bus)),
            3 => proceed::<B>(push_return_low_spec::<B>(core, bus)),
            _ => leave_opcode::<B>(core, bus),
        }
    }

    pub fn exec<B: Bus>(core: &mut Core, bus: &mut B) -> (r: CpuStepStateEnum)
        ensures
            (*final(core), final(bus)@, r) == Self::exec_spec::<B>(*old(core), old(bus)@),
            one_access_or_none(*old(bus), *final(bus), *final(core), r),
    {
        match core.internal_stat.get_step() {
            1 => {
                peek_stack(core, bus);
            },
            2 => {
                push_return_high(core, bus);
            },
            3 => {
                push_return_low(core, bus);
            },
            _ => {
                return exit_opcode(core);
            },
        }
        CpuStepStateEnum::Continue
    }
}

/// Returns from a subroutine: two reads that change nothing but the stack
/// pointer, two that fetch the return address, and one at that address
/// that moves the program counter past it. Five cycles.
pub struct Rts;

impl Rts {
    pub fn new() -> Self {
        Self
    }

    pub open spec fn exec_spec<B: Bus>(core: Core, bus: B::V) -> (Core, B::V, CpuStepStateEnum) {
        match core.internal_stat.step {
            1 => proceed::<B>(read_dummy_current_spec::<B>(core, bus)),
            2 => proceed::<B>(drop_slot_spec::<B>(core, bus)),
            3 => proceed::<B>(pull_low_spec::<B>(core, bus)),
            4 => proceed::<B>(read_high_spec::<B>(core, bus)),
            5 => proceed::<B>(resume_spec::<B>(core, bus)),
            _ => leave_opcode::<B>(core, bus),
        }
    }

    pub fn exec<B: Bus>(core: &mut Core, bus: &mut B) -> (r: CpuStepStateEnum)
        ensures
            (*final(core), final(bus)@, r) == Self::exec_spec::<B>(*old(core), old(bus)@),
            one_access_or_none(*old(bus), *final(bus), *final(core), r),
    {
        match core.internal_stat.get_step() {
            1 => {
                read_dummy_current(core, bus);
            },
            2 => {
                drop_slot(core, bus);
            },
            3 => {
                pull_low(core, bus);
            },
            4 => {
                read_high(core, bus);
            },
            5 => {
                resume(core, bus);
            },
            _ => {
                return exit_opcode(core);
            },
        }
        CpuStepStateEnum::Continue
    }
}

} // verus!
