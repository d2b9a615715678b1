//! Pushes and pulls of the accumulator and the status word.

use crate::cpu::bus::Bus;
use crate::cpu::register::Register;
use crate::cpu::{
    exit_opcode, leave_opcode, one_access_or_none, proceed, pull, pull_spec, push, push_spec,
    read, read_dummy_current, read_dummy_current_spec, read_spec, stack_address, stack_slot,
    Core, CpuStepStateEnum,
};
use vstd::prelude::*;

verus! {

/// The status word as an instruction pushes it: break and reserved set.
pub open spec fn pushed_status(status: u8) -> u8 {
    status | 0x30
}

/// The status word as it is taken from the stack: break clear, reserved
/// set.
pub open spec fn pulled_status(value: u8) -> u8 {
    (value & 0xEF) | 0x20
}

/// `core` after a read of the stack slot whose result is dropped.
pub open spec fn peek_stack_spec<B: Bus>(core: Core, bus: B::V) -> (Core, B::V) {
    let (c, b, _value) = read_spec::<B>(core, bus, stack_address(core.register.sp));
    (c, b)
}

/// `core` after the accumulator was pushed.
pub open spec fn push_a_spec<B: Bus>(core: Core, bus: B::V) -> (Core, B::V) {
    push_spec::<B>(core, bus, core.register.a)
}

/// `core` after the status word was pushed.
pub open spec fn push_p_spec<B: Bus>(core: Core, bus: B::V) -> (Core, B::V) {
    push_spec::<B>(core, bus, pushed_status(core.register.status() as u8))
}

/// `core` after the accumulator was pulled.
pub open spec fn pull_a_spec<B: Bus>(core: Core, bus: B::V) -> (Core, B::V) {
    let (c, b, value) = pull_spec::<B>(core, bus);
    (Core { register: Register { a: value, ..c.register }.with_nz(value), ..c }, b)
}

/// `core` after the status word was pulled.
pub open spec fn pull_p_spec<B: Bus>(core: Core, bus: B::V) -> (Core, B::V) {
    let (c, b, value) = pull_spec::<B>(core, bus);
    (Core { register: c.register.with_status(pulled_status(value)), ..c }, b)
}

pub fn peek_stack<B: Bus>(core: &mut Core, bus: &mut B)
    ensures
        (*final(core), final(bus)@) == peek_stack_spec::<B>(*old(core), old(bus)@),
        one_access_or_none(*old(bus), *final(bus), *final(core), CpuStepStateEnum::Continue),
{
    let sp = core.register.get_sp();
    let _ = read(core, bus, stack_slot(sp));
}

pub fn push_a<B: Bus>(core: &mut Core, bus: &mut B)
    ensures
        (*final(core), final(bus)@) == push_a_spec::<B>(*old(core), old(bus)@),
        one_access_or_none(*old(bus), *final(bus), *final(core), CpuStepStateEnum::Continue),
{
    let a = core.register.get_a();
    push(core, bus, a);
}

pub fn push_p<B: Bus>(core: &mut Core, bus: &mut B)
    ensures
        (*final(core), final(bus)@) == push_p_spec::<B>(*old(core), old(bus)@),
        one_access_or_none(*old(bus), *final(bus), *final(core), CpuStepStateEnum::Continue),
{
    let p = core.register.get_p() | 0x30;
    push(core, bus, p);
}

pub fn pull_a<B: Bus>(core: &mut Core, bus: &mut B)
    ensures
        (*final(core), final(bus)@) == pull_a_spec::<B>(*old(core), old(bus)@),
        one_access_or_none(*old(bus), *final(bus), *final(core), CpuStepStateEnum::Continue),
{
    let value = pull(core, bus);
    core.register.set_a(value);
    core.register.set_nz_from_value(value);
}

pub fn pull_p<B: Bus>(core: &mut Core, bus: &mut B)
    ensures
        (*final(core), final(bus)@) == pull_p_spec::<B>(*old(core), old(bus)@),
        one_access_or_none(*old(bus), *final(bus), *final(core), CpuStepStateEnum::Continue),
{
    let value = pull(core, bus);
    core.register.set_p((value & 0xEF) | 0x20);
}

/// Pushes the accumulator: two cycles.
pub struct Pha;

impl Pha {
    pub fn new() -> Self {
        Self
    }

    pub open spec fn exec_spec<B: Bus>(core: Core, bus: B::V) -> (Core, B::V, CpuStepStateEnum) {
        match core.internal_stat.step {
            1 => proceed::<B>(read_dummy_current_spec::<B>(core, bus)),
            2 => proceed::<B>(push_a_spec::<B>(core, bus)),
            _ => leave_opcode::<B>(core, bus),
        }
    }

    pub fn exec<B: Bus>(core: &mut Core, bus: &mut B) -> (r: CpuStepStateEnum)
        ensures
            (*final(core), final(bus)@, r) == Self::exec_spec::<B>(*old(core), old(bus)@),
            one_access_or_none(*old(bus), *final(bus), *final(core), r),
    {
        match core.internal_stat.get_step() {
            1 => {
                read_dummy_current(core, bus);
            },
            2 => {
                push_a(core, bus);
            },
            _ => {
                return exit_opcode(core);
            },
        }
        CpuStepStateEnum::Continue
    }
}

/// Pushes the status word with break and reserved set: two cycles.
pub struct Php;

impl Php {
    pub fn new() -> Self {
        Self
    }

    pub open spec fn exec_spec<B: Bus>(core: Core, bus: B::V) -> (Core, B::V, CpuStepStateEnum) {
        match core.internal_stat.step {
            1 => proceed::<B>(read_dummy_current_spec::<B>(core, bus)),
            2 => proceed::<B>(push_p_spec::<B>(core, bus)),
            _ => leave_opcode::<B>(core, bus),
        }
    }

    pub fn exec<B: Bus>(core: &mut Core, bus: &mut B) -> (r: CpuStepStateEnum)
        ensures
            (*final(core), final(bus)@, r) == Self::exec_spec::<B>(*old(core), old(bus)@),
            one_access_or_none(*old(bus), *final(bus), *final(core), r),
    {
        match core.internal_stat.get_step() {
            1 => {
                read_dummy_current(core, bus);
            },
            2 => {
                push_p(core, bus);
            },
            _ => {
                return exit_opcode(core);
            },
        }
        CpuStepStateEnum::Continue
    }
}

/// Pulls the accumulator: three cycles.
pub struct Pla;

impl Pla {
    pub fn new() -> Self {
        Self
    }

    pub open spec fn exec_spec<B: Bus>(core: Core, bus: B::V) -> (Core, B::V, CpuStepStateEnum) {
        match core.internal_stat.step {
            1 => proceed::<B>(read_dummy_current_spec::<B>(core, bus)),
            2 => proceed::<B>(peek_stack_spec::<B>(core, bus)),
            3 => proceed::<B>(pull_a_spec::<B>(core, bus)),
            _ => leave_opcode::<B>(core, bus),
        }
    }

    pub fn exec<B: Bus>(core: &mut Core, bus: &mut B) -> (r: CpuStepStateEnum)
        ensures
            (*final(core), final(bus)@, r) == Self::exec_spec::<B>(*old(core), old(bus)@),
            one_access_or_none(*old(bus), *final(bus), *final(core), r),
    {
        match core.internal_stat.get_step() {
            1 => {
                read_dummy_current(core, bus);
            },
            2 => {
                peek_stack(core, bus);
            },
            3 => {
                pull_a(core, bus);
            },
            _ => {
                return exit_opcode(core);
            },
        }
        CpuStepStateEnum::Continue
    }
}

/// Pulls the status word: three cycles.
pub struct Plp;

impl Plp {
    pub fn new() -> Self {
        Self
    }

    pub open spec fn exec_spec<B: Bus>(core: Core, bus: B::V) -> (Core, B::V, CpuStepStateEnum) {
        match core.internal_stat.step {
            1 => proceed::<B>(read_dummy_current_spec::<B>(core, bus)),
            2 => proceed::<B>(peek_stack_spec::<B>(core, bus)),
            3 => proceed::<B>(pull_p_spec::<B>(core, bus)),
            _ => leave_opcode::<B>(core, bus),
        }
    }

    pub fn exec<B: Bus>(core: &mut Core, bus: &mut B) -> (r: CpuStepStateEnum)
        ensures
            (*final(core), final(bus)@, r) == Self::exec_spec::<B>(*old(core), old(bus)@),
            one_access_or_none(*old(bus), *final(bus), *final(core), r),
    {
        match core.internal_stat.get_step() {
            1 => {
                read_dummy_current(core, bus);
            },
            2 => {
                peek_stack(core, bus);
            },
            3 => {
                pull_p(core, bus);
            },
            _ => {
                return exit_opcode(core);
            },
        }
        CpuStepStateEnum::Continue
    }
}

} // verus!
