//! Reset, interrupt entry, `BRK` and `RTI`.

use super::stack::{
    peek_stack, peek_stack_spec, pull_p, pull_p_spec, pulled_status, pushed_status,
};
use crate::cpu::bus::Bus;
use crate::cpu::internal_stat::InternalStat;
use crate::cpu::interrupt::{Interrupt, IrqSet};
use crate::cpu::register::Register;
use crate::cpu::{
    exit_opcode, exit_opcode_spec, high_byte, leave_opcode, low_byte, make_word,
    one_access_or_none, proceed, pull, pull_spec, push, push_spec, read, read_dummy_current,
    read_dummy_current_spec, read_next, read_next_spec, read_spec, stack_address, stack_slot,
    word, Core, CpuStepStateEnum, IRQ_VECTOR, NMI_VECTOR, RESET_VECTOR,
};
use vstd::prelude::*;

verus! {

/// The reset sequence: seven cycles that release the interrupt lines, move
/// the stack pointer down three times without writing, and load the program
/// counter from the reset vector.
pub struct Reset;

/// `core` after a dummy read that releases every interrupt line.
pub open spec fn release_lines_spec<B: Bus>(core: Core, bus: B::V) -> (Core, B::V) {
    let (c, b) = read_dummy_current_spec::<B>(core, bus);
    (
        Core {
            interrupt: Interrupt {
                irq_flag: IrqSet { external: false, frame_counter: false, dmc: false },
                irq_mask: IrqSet { external: true, frame_counter: true, dmc: true },
                nmi: false,
                ..c.interrupt
            },
            ..c
        },
        b,
    )
}

/// `core` after a read of the stack slot that moves the stack pointer
/// down: a push that leaves memory alone.
pub open spec fn skip_push_spec<B: Bus>(core: Core, bus: B::V) -> (Core, B::V) {
    let (c, b, _value) = read_spec::<B>(core, bus, stack_address(core.register.sp));
    (Core { register: Register { sp: core.register.sp.wrapping_sub(1), ..c.register }, ..c }, b)
}

/// `core` after the low byte of the word at `vector` went to the scratch
/// byte, with interrupts disabled from then on.
pub open spec fn vector_low_spec<B: Bus>(core: Core, bus: B::V, vector: u16) -> (Core, B::V) {
    let (c, b, low) = read_spec::<B>(
        Core { register: Register { i: true, ..core.register }, ..core },
        bus,
        vector,
    );
    (Core { internal_stat: InternalStat { data: low, ..c.internal_stat }, ..c }, b)
}

/// `core` after the high byte of the word at `vector` joined the scratch
/// byte in the program counter.
pub open spec fn vector_high_spec<B: Bus>(core: Core, bus: B::V, vector: u16) -> (Core, B::V) {
    let (c, b, high) = read_spec::<B>(core, bus, vector.wrapping_add(1));
    (Core { register: Register { pc: word(core.internal_stat.data, high), ..c.register }, ..c }, b)
}

/// `core` after the high byte of the reset vector completed the program
/// counter, which ends what blocked interrupts during the reset.
pub open spec fn settle_spec<B: Bus>(core: Core, bus: B::V) -> (Core, B::V) {
    let (c, b) = vector_high_spec::<B>(core, bus, RESET_VECTOR);
    (Core { interrupt: Interrupt { executing: false, ..c.interrupt }, ..c }, b)
}

pub fn settle<B: Bus>(core: &mut Core, bus: &mut B)
    ensures
        (*final(core), final(bus)@) == settle_spec::<B>(*old(core), old(bus)@),
        one_access_or_none(*old(bus), *final(bus), *final(core), CpuStepStateEnum::Continue),
{
    vector_high(core, bus, RESET_VECTOR);
    core.interrupt.executing = false;
}

pub fn release_lines<B: Bus>(core: &mut Core, bus: &mut B)
    ensures
        (*final(core), final(bus)@) == release_lines_spec::<B>(*old(core), old(bus)@),
        one_access_or_none(*old(bus), *final(bus), *final(core), CpuStepStateEnum::Continue),
{
    read_dummy_current(core, bus);
    core.interrupt.irq_flag = IrqSet::empty();
    core.interrupt.irq_mask = IrqSet::all();
    core.interrupt.nmi = false;
}

pub fn skip_push<B: Bus>(core: &mut Core, bus: &mut B)
    ensures
        (*final(core), final(bus)@) == skip_push_spec::<B>(*old(core), old(bus)@),
        one_access_or_none(*old(bus), *final(bus), *final(core), CpuStepStateEnum::Continue),
{
    let sp = core.register.get_sp();
    core.register.set_sp(sp.wrapping_sub(1));
    let _ = read(core, bus, stack_slot(sp));
}

pub fn vector_low<B: Bus>(core: &mut Core, bus: &mut B, vector: u16)
    ensures
        (*final(core), final(bus)@) == vector_low_spec::<B>(*old(core), old(bus)@, vector),
        one_access_or_none(*old(bus), *final(bus), *final(core), CpuStepStateEnum::Continue),
{
    core.register.set_i(true);
    let low = read(core, bus, vector);
    core.internal_stat.set_data(low);
}

pub fn vector_high<B: Bus>(core: &mut Core, bus: &mut B, vector: u16)
    ensures
        (*final(core), final(bus)@) == vector_high_spec::<B>(*old(core), old(bus)@, vector),
        one_access_or_none(*old(bus), *final(bus), *final(core), CpuStepStateEnum::Continue),
{
    let high = read(core, bus, vector.wrapping_add(1));
    core.register.set_pc(make_word(core.internal_stat.get_data(), high));
}

/// `core` after a read at the program counter that moves it on and whose
/// result is dropped.
pub open spec fn skip_operand_spec<B: Bus>(core: Core, bus: B::V) -> (Core, B::V) {
    let (c, b, _value) = read_next_spec::<B>(core, bus);
    (c, b)
}

/// `core` after the program counter's high byte was pushed and its low
/// byte put by in the scratch byte.
pub open spec fn push_pc_high_spec<B: Bus>(core: Core, bus: B::V) -> (Core, B::V) {
    let (c, b) = push_spec::<B>(core, bus, (core.register.pc / 256) as u8);
    (
        Core {
            internal_stat: InternalStat { data: (core.register.pc % 256) as u8, ..c.internal_stat },
            ..c
        },
        b,
    )
}

/// `core` after the scratch byte was pushed and the vector chosen by the
/// non-maskable line as it then stands: whoever asserts it between the
/// pushes takes the sequence over.
pub open spec fn push_pc_low_spec<B: Bus>(core: Core, bus: B::V) -> (Core, B::V) {
    let (c, b) = push_spec::<B>(core, bus, core.internal_stat.data);
    (
        Core {
            internal_stat: InternalStat {
                interrupt: c.interrupt.nmi,
                address: if c.interrupt.nmi {
                    NMI_VECTOR
                } else {
                    IRQ_VECTOR
                },
                ..c.internal_stat
            },
            ..c
        },
        b,
    )
}

/// `core` after the status word was pushed as an instruction does
/// (`software`: break set) or as the hardware does (break clear).
pub open spec fn push_status_spec<B: Bus>(core: Core, bus: B::V, software: bool) -> (Core, B::V) {
    push_spec::<B>(
        core,
        bus,
        if software {
            pushed_status(core.register.status() as u8)
        } else {
            pulled_status(core.register.status() as u8)
        },
    )
}

/// `core` after the low byte of the chosen vector was read with interrupts
/// disabled, which acknowledges the non-maskable line if it chose the
/// vector.
pub open spec fn acknowledge_spec<B: Bus>(core: Core, bus: B::V) -> (Core, B::V) {
    let (c, b) = vector_low_spec::<B>(core, bus, core.internal_stat.address);
    (
        Core {
            interrupt: Interrupt {
                nmi: c.interrupt.nmi && !core.internal_stat.interrupt,
                ..c.interrupt
            },
            ..c
        },
        b,
    )
}

/// `core` once an interrupt entry is over: nothing is due any more, and
/// the handler's first opcode is fetched next.
pub open spec fn finished(core: Core) -> Core {
    exit_opcode_spec(Core { interrupt: Interrupt { executing: false, ..core.interrupt }, ..core })
}

/// `core` after a byte was pulled into the scratch byte.
pub open spec fn pull_data_spec<B: Bus>(core: Core, bus: B::V) -> (Core, B::V) {
    let (c, b, value) = pull_spec::<B>(core, bus);
    (Core { internal_stat: InternalStat { data: value, ..c.internal_stat }, ..c }, b)
}

/// `core` after a byte was pulled as a high byte and joined the scratch
/// byte in the program counter.
pub open spec fn pull_pc_spec<B: Bus>(core: Core, bus: B::V) -> (Core, B::V) {
    let (c, b, high) = pull_spec::<B>(core, bus);
    (Core { register: Register { pc: word(core.internal_stat.data, high), ..c.register }, ..c }, b)
}

pub fn skip_operand<B: Bus>(core: &mut Core, bus: &mut B)
    ensures
        (*final(core), final(bus)@) == skip_operand_spec::<B>(*old(core), old(bus)@),
        one_access_or_none(*old(bus), *final(bus), *final(core), CpuStepStateEnum::Continue),
{
    let _ = read_next(core, bus);
}

pub fn push_pc_high<B: Bus>(core: &mut Core, bus: &mut B)
    ensures
        (*final(core), final(bus)@) == push_pc_high_spec::<B>(*old(core), old(bus)@),
        one_access_or_none(*old(bus), *final(bus), *final(core), CpuStepStateEnum::Continue),
{
    let pc = core.register.get_pc();
    core.internal_stat.set_data(low_byte(pc));
    push(core, bus, high_byte(pc));
}

pub fn push_pc_low<B: Bus>(core: &mut Core, bus: &mut B)
    ensures
        (*final(core), final(bus)@) == push_pc_low_spec::<B>(*old(core), old(bus)@),
        one_access_or_none(*old(bus), *final(bus), *final(core), CpuStepStateEnum::Continue),
{
    let low = core.internal_stat.get_data();
    push(core, bus, low);
    let nmi = core.interrupt.nmi;
    core.internal_stat.set_interrupt(nmi);
    core.internal_stat.set_address(if nmi {
        NMI_VECTOR
    } else {
        IRQ_VECTOR
    });
}

pub fn push_status<B: Bus>(core: &mut Core, bus: &mut B, software: bool)
    ensures
        (*final(core), final(bus)@) == push_status_spec::<B>(*old(core), old(bus)@, software),
        one_access_or_none(*old(bus), *final(bus), *final(core), CpuStepStateEnum::Continue),
{
    let p = core.register.get_p();
    let value = if software {
        p | 0x30
    } else {
        (p & 0xEF) | 0x20
    };
    push(core, bus, value);
}

pub fn acknowledge<B: Bus>(core: &mut Core, bus: &mut B)
    ensures
        (*final(core), final(bus)@) == acknowledge_spec::<B>(*old(core), old(bus)@),
        one_access_or_none(*old(bus), *final(bus), *final(core), CpuStepStateEnum::Continue),
{
    let vector = core.internal_stat.get_address();
    vector_low(core, bus, vector);
    if core.internal_stat.get_interrupt() {
        core.interrupt.nmi = false;
    }
}

pub fn finish(core: &mut Core) -> (r: CpuStepStateEnum)
    ensures
        *final(core) == finished(*old(core)),
        r == CpuStepStateEnum::Exit,
{
    core.interrupt.executing = false;
    exit_opcode(core)
}

pub fn pull_data<B: Bus>(core: &mut Core, bus: &mut B)
    ensures
        (*final(core), final(bus)@) == pull_data_spec::<B>(*old(core), old(bus)@),
        one_access_or_none(*old(bus), *final(bus), *final(core), CpuStepStateEnum::Continue),
{
    let value = pull(core, bus);
    core.internal_stat.set_data(value);
}

pub fn pull_pc<B: Bus>(core: &mut Core, bus: &mut B)
    ensures
        (*final(core), final(bus)@) == pull_pc_spec::<B>(*old(core), old(bus)@),
        one_access_or_none(*old(bus), *final(bus), *final(core), CpuStepStateEnum::Continue),
{
    let high = pull(core, bus);
    core.register.set_pc(make_word(core.internal_stat.get_data(), high));
}

/// The entry into an interrupt handler: seven cycles that push the program
/// counter and the status word with break clear, disable interrupts, and
/// load the program counter from the vector.
pub struct Irq;

impl Irq {
    pub fn new() -> Self {
        Self
    }

    pub open spec fn exec_spec<B: Bus>(core: Core, bus: B::V) -> (Core, B::V, CpuStepStateEnum) {
        match core.internal_stat.step {
            1 | 2 => proceed::<B>(read_dummy_current_spec::<B>(core, bus)),
            3 => proceed::<B>(push_pc_high_spec::<B>(core, bus)),
            4 => proceed::<B>(push_pc_low_spec::<B>(core, bus)),
            5 => proceed::<B>(push_status_spec::<B>(core, bus, false)),
            6 => proceed::<B>(acknowledge_spec::<B>(core, bus)),
            7 => proceed::<B>(vector_high_spec::<B>(core, bus, core.internal_stat.address)),
            _ => (finished(core), bus, CpuStepStateEnum::Exit),
        }
    }

    pub fn exec<B: Bus>(core: &mut Core, bus: &mut B) -> (r: CpuStepStateEnum)
        ensures
            (*final(core), final(bus)@, r) == Self::exec_spec::<B>(*old(core), old(bus)@),
            one_access_or_none(*old(bus), *final(bus), *final(core), r),
    {
        match core.internal_stat.get_step() {
            1 | 2 => {
                read_dummy_current(core, bus);
            },
            3 => {
                push_pc_high(core, bus);
            },
            4 => {
                push_pc_low(core, bus);
            },
            5 => {
                push_status(core, bus, false);
            },
            6 => {
                acknowledge(core, bus);
            },
            7 => {
                let vector = core.internal_stat.get_address();
                vector_high(core, bus, vector);
            },
            _ => {
                return finish(core);
            },
        }
        CpuStepStateEnum::Continue
    }
}

/// The software interrupt: six cycles after the opcode fetch that skip the
/// byte behind the opcode, push the program counter and the status word
/// with break set, disable interrupts, and load the program counter from
/// the vector.
pub struct Brk;

impl Brk {
    pub fn new() -> Self {
        Self
    }

    pub open spec fn exec_spec<B: Bus>(core: Core, bus: B::V) -> (Core, B::V, CpuStepStateEnum) {
        match core.internal_stat.step {
            1 => proceed::<B>(skip_operand_spec::<B>(core, bus)),
            2 => proceed::<B>(push_pc_high_spec::<B>(core, bus)),
            3 => proceed::<B>(push_pc_low_spec::<B>(core, bus)),
            4 => proceed::<B>(push_status_spec::<B>(core, bus, true)),
            5 => proceed::<B>(acknowledge_spec::<B>(core, bus)),
            6 => proceed::<B>(vector_high_spec::<B>(core, bus, core.internal_stat.address)),
            _ => (finished(core), bus, CpuStepStateEnum::Exit),
        }
    }

    pub fn exec<B: Bus>(core: &mut Core, bus: &mut B) -> (r: CpuStepStateEnum)
        ensures
            (*final(core), final(bus)@, r) == Self::exec_spec::<B>(*old(core), old(bus)@),
            one_access_or_none(*old(bus), *final(bus), *final(core), r),
    {
        match core.internal_stat.get_step() {
            1 => {
                skip_operand(core, bus);
            },
            2 => {
                push_pc_high(core, bus);
            },
            3 => {
                push_pc_low(core, bus);
            },
            4 => {
                push_status(core, bus, true);
            },
            5 => {
                acknowledge(core, bus);
            },
            6 => {
                let vector = core.internal_stat.get_address();
                vector_high(core, bus, vector);
            },
            _ => {
                return finish(core);
            },
        }
        CpuStepStateEnum::Continue
    }
}

/// The return from an interrupt handler: five cycles that pull the status
/// word and the program counter.
pub struct Rti;

impl Rti {
    pub fn new() -> Self {
        Self
    }

    pub open spec fn exec_spec<B: Bus>(core: Core, bus: B::V) -> (Core, B::V, CpuStepStateEnum) {
        match core.internal_stat.step {
            1 => proceed::<B>(read_dummy_current_spec::<B>(core, bus)),
            2 => proceed::<B>(peek_stack_spec::<B>(core, bus)),
            3 => proceed::<B>(pull_p_spec::<B>(core, bus)),
            4 => proceed::<B>(pull_data_spec::<B>(core, bus)),
            5 => proceed::<B>(pull_pc_spec::<B>(core, bus)),
            _ => leave_opcode::<B>(core, bus),
        }
    }

    pub fn exec<B: Bus>(core: &mut Core, bus: &mut B) -> (r: CpuStepStateEnum)
        ensures
            (*final(core), final(bus)@, r) == Self::exec_spec::<B>(*old(core), old(bus)@),
            one_access_or_none(*old(bus), *final(bus), *final(core), r),
    {
        match core.internal_stat.get_step() {
            1 => {
                read_dummy_current(core, bus);
            },
            2 => {
                peek_stack(core, bus);
            },
            3 => {
                pull_p(core, bus);
            },
            4 => {
                pull_data(core, bus);
            },
            5 => {
                pull_pc(core, bus);
            },
            _ => {
                return exit_opcode(core);
            },
        }
        CpuStepStateEnum::Continue
    }
}

impl Reset {
    pub fn new() -> Self {
        Self
    }

    /// One attempt at a cycle of the sequence, by micro-step.
    pub open spec fn exec_spec<B: Bus>(core: Core, bus: B::V) -> (Core, B::V, CpuStepStateEnum) {
        match core.internal_stat.step {
            1 => proceed::<B>(release_lines_spec::<B>(core, bus)),
            2 => proceed::<B>(read_dummy_current_spec::<B>(core, bus)),
            3 | 4 | 5 => proceed::<B>(skip_push_spec::<B>(core, bus)),
            6 => proceed::<B>(vector_low_spec::<B>(core, bus, RESET_VECTOR)),
            7 => proceed::<B>(settle_spec::<B>(core, bus)),
            _ => leave_opcode::<B>(core, bus),
        }
    }

    pub fn exec<B: Bus>(core: &mut Core, bus: &mut B) -> (r: CpuStepStateEnum)
        ensures
            (*final(core), final(bus)@, r) == Self::exec_spec::<B>(*old(core), old(bus)@),
            one_access_or_none(*old(bus), *final(bus), *final(core), r),
    {
        match core.internal_stat.get_step() {
            1 => {
                release_lines(core, bus);
            },
            2 => {
                read_dummy_current(core, bus);
            },
            3 | 4 | 5 => {
                skip_push(core, bus);
            },
            6 => {
                vector_low(core, bus, RESET_VECTOR);
            },
            7 => {
                settle(core, bus);
            },
            _ => {
                return exit_opcode(core);
            },
        }
        CpuStepStateEnum::Continue
    }
}

} // verus!
