//! The eight conditional branches.

use crate::cpu::bus::Bus;
use crate::cpu::internal_stat::InternalStat;
use crate::cpu::interrupt::Interrupt;
use crate::cpu::register::Register;
use crate::cpu::{
    exit_opcode, exit_opcode_spec, leave_opcode, one_access_or_none, page_crossed,
    read_dummy_current, read_dummy_current_spec, Core, CpuStepStateEnum,
};
use vstd::prelude::*;

verus! {

/// `core` with the notes that every branch makes as it begins: the page is
/// taken to be left until shown otherwise, and what was due of interrupts
/// before the branch is kept.
pub open spec fn branch_noted(core: Core) -> Core {
    Core {
        internal_stat: InternalStat {
            crossed: true,
            interrupt: core.interrupt.executing,
            ..core.internal_stat
        },
        ..core
    }
}

/// `core` after the first cycle of a branch that is taken: a read at the
/// program counter, and `crossed` says whether the target lies in another
/// page than the program counter.
pub open spec fn begin_branch_spec<B: Bus>(core: Core, bus: B::V) -> (Core, B::V) {
    let (c, b) = read_dummy_current_spec::<B>(branch_noted(core), bus);
    (
        Core {
            internal_stat: InternalStat {
                crossed: core.internal_stat.address / 256 != core.register.pc / 256,
                ..c.internal_stat
            },
            ..c
        },
        b,
    )
}

/// `core` once a branch inside the page has landed: the program counter is
/// at the target, and an interrupt that became due only during the branch
/// waits for the next instruction.
pub open spec fn landed(core: Core) -> Core {
    exit_opcode_spec(
        Core {
            register: Register { pc: core.internal_stat.address, ..core.register },
            interrupt: Interrupt {
                executing: core.interrupt.executing && core.internal_stat.interrupt,
                ..core.interrupt
            },
            ..core
        },
    )
}

/// `core` after the extra cycle of a branch that leaves the page: a read
/// at the program counter, which then moves to the target.
pub open spec fn cross_page_spec<B: Bus>(core: Core, bus: B::V) -> (Core, B::V) {
    let (c, b) = read_dummy_current_spec::<B>(core, bus);
    (Core { register: Register { pc: core.internal_stat.address, ..c.register }, ..c }, b)
}

pub fn decline(core: &mut Core) -> (r: CpuStepStateEnum)
    ensures
        *final(core) == exit_opcode_spec(branch_noted(*old(core))),
        r == CpuStepStateEnum::Exit,
{
    core.internal_stat.set_crossed(true);
    core.internal_stat.set_interrupt(core.interrupt.executing);
    exit_opcode(core)
}

pub fn begin_branch<B: Bus>(core: &mut Core, bus: &mut B)
    ensures
        (*final(core), final(bus)@) == begin_branch_spec::<B>(*old(core), old(bus)@),
        one_access_or_none(*old(bus), *final(bus), *final(core), CpuStepStateEnum::Continue),
{
    core.internal_stat.set_crossed(true);
    core.internal_stat.set_interrupt(core.interrupt.executing);
    read_dummy_current(core, bus);
    let crossed = page_crossed(core.internal_stat.get_address(), core.register.get_pc());
    core.internal_stat.set_crossed(crossed);
}

pub fn land(core: &mut Core) -> (r: CpuStepStateEnum)
    ensures
        *final(core) == landed(*old(core)),
        r == CpuStepStateEnum::Exit,
{
    core.register.set_pc(core.internal_stat.get_address());
    if !core.internal_stat.get_interrupt() {
        core.interrupt.executing = false;
    }
    exit_opcode(core)
}

pub fn cross_page<B: Bus>(core: &mut Core, bus: &mut B)
    ensures
        (*final(core), final(bus)@) == cross_page_spec::<B>(*old(core), old(bus)@),
        one_access_or_none(*old(bus), *final(bus), *final(core), CpuStepStateEnum::Continue),
{
    read_dummy_current(core, bus);
    core.register.set_pc(core.internal_stat.get_address());
}

/// A branch: no cycle when its condition fails, one when the target lies
/// in the program counter's page, two when it does not.
pub trait ConditionJump: Sized {
    /// Whether the branch is taken.
    spec fn condition_spec(register: Register) -> bool;

    fn condition(register: &Register) -> (r: bool)
        ensures
            r == Self::condition_spec(*register),
    ;

    fn exec_opcode<B: Bus>(core: &mut Core, bus: &mut B) -> (r: CpuStepStateEnum)
        ensures
            old(core).internal_stat.step == 1 && !Self::condition_spec(old(core).register) ==> (
            *final(core),
            final(bus)@,
            r,
        ) == (exit_opcode_spec(branch_noted(*old(core))), old(bus)@, CpuStepStateEnum::Exit),
            old(core).internal_stat.step == 1 && Self::condition_spec(old(core).register) ==> (
            *final(core),
            final(bus)@,
        ) == begin_branch_spec::<B>(*old(core), old(bus)@) && r == CpuStepStateEnum::Continue,
            old(core).internal_stat.step == 2 && !old(core).internal_stat.crossed ==> (
            *final(core),
            final(bus)@,
            r,
        ) == (landed(*old(core)), old(bus)@, CpuStepStateEnum::Exit),
            old(core).internal_stat.step == 2 && old(core).internal_stat.crossed ==> (
            *final(core),
            final(bus)@,
        ) == cross_page_spec::<B>(*old(core), old(bus)@) && r == CpuStepStateEnum::Continue,
            !(1 <= old(core).internal_stat.step <= 2) ==> (*final(core), final(bus)@, r)
                == leave_opcode::<B>(*old(core), old(bus)@),
            one_access_or_none(*old(bus), *final(bus), *final(core), r),
    {
        match core.internal_stat.get_step() {
            1 => {
                if !Self::condition(&core.register) {
                    return decline(core);
                }
                begin_branch(core, bus);
            },
            2 => {
                if !core.internal_stat.get_crossed() {
                    return land(core);
                }
                cross_page(core, bus);
            },
            _ => {
                return exit_opcode(core);
            },
        }
        CpuStepStateEnum::Continue
    }
}

/// One attempt at a cycle of the branch `J`.
pub open spec fn condition_jump_spec<J: ConditionJump, B: Bus>(core: Core, bus: B::V) -> (
    Core,
    B::V,
    CpuStepStateEnum,
) {
    match core.internal_stat.step {
        1 => if J::condition_spec(core.register) {
            let (c, b) = begin_branch_spec::<B>(core, bus);
            (c, b, CpuStepStateEnum::Continue)
        } else {
            (exit_opcode_spec(branch_noted(core)), bus, CpuStepStateEnum::Exit)
        },
        2 => if core.internal_stat.crossed {
            let (c, b) = cross_page_spec::<B>(core, bus);
            (c, b, CpuStepStateEnum::Continue)
        } else {
            (landed(core), bus, CpuStepStateEnum::Exit)
        },
        _ => leave_opcode::<B>(core, bus),
    }
}

/// Branches when carry is clear.
pub struct Bcc;

impl ConditionJump for Bcc {
    open spec fn condition_spec(register: Register) -> bool {
        !register.c
    }

    fn condition(register: &Register) -> (r: bool) {
        !register.get_c()
    }
}

/// Branches when carry is set.
pub struct Bcs;

impl ConditionJump for Bcs {
    open spec fn condition_spec(register: Register) -> bool {
        register.c
    }

    fn condition(register: &Register) -> (r: bool) {
        register.get_c()
    }
}

/// Branches when zero is set.
pub struct Beq;

impl ConditionJump for Beq {
    open spec fn condition_spec(register: Register) -> bool {
        register.z
    }

    fn condition(register: &Register) -> (r: bool) {
        register.get_z()
    }
}

/// Branches when negative is set.
pub struct Bmi;

impl ConditionJump for Bmi {
    open spec fn condition_spec(register: Register) -> bool {
        register.n
    }

    fn condition(register: &Register) -> (r: bool) {
        register.get_n()
    }
}

/// Branches when zero is clear.
pub struct Bne;

impl ConditionJump for Bne {
    open spec fn condition_spec(register: Register) -> bool {
        !register.z
    }

    fn condition(register: &Register) -> (r: bool) {
        !register.get_z()
    }
}

/// Branches when negative is clear.
pub struct Bpl;

impl ConditionJump for Bpl {
    open spec fn condition_spec(register: Register) -> bool {
        !register.n
    }

    fn condition(register: &Register) -> (r: bool) {
        !register.get_n()
    }
}

/// Branches when overflow is clear.
pub struct Bvc;

impl ConditionJump for Bvc {
    open spec fn condition_spec(register: Register) -> bool {
        !register.v
    }

    fn condition(register: &Register) -> (r: bool) {
        !register.get_v()
    }
}

/// Branches when overflow is set.
pub struct Bvs;

impl ConditionJump for Bvs {
    open spec fn condition_spec(register: Register) -> bool {
        register.v
    }

    fn condition(register: &Register) -> (r: bool) {
        register.get_v()
    }
}

} // verus!
