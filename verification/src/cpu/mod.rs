//! The 6502 CPU: register file, execution state and per-cycle microcode.
//!
//! An instruction runs as a chain of micro-sequences: the opcode fetch, the
//! addressing mode, the opcode proper. Each call of a sequence's `exec` is
//! one attempt at a cycle: it either makes exactly one bus access and
//! answers [`CpuStepStateEnum::Continue`], or finds itself finished, touches
//! nothing on the bus, names its successor and answers
//! [`CpuStepStateEnum::Exit`].

pub mod bus;
pub mod cycles;
pub mod decode;
pub mod dma;
pub mod executor;
pub mod internal_stat;
pub mod memory;
pub mod interrupt;
pub mod addressing_mode;
pub mod opcodes;
pub mod recording_bus;
pub mod register;
pub mod run;

use self::bus::{Bus, Transaction};
use self::decode::{operation, operation_of};
use self::dma::Dma;
use self::internal_stat::{CpuStatesEnum, InternalStat};
use self::interrupt::Interrupt;
use self::register::Register;
use vstd::prelude::*;

verus! {

/// Where the CPU finds the handler of a non-maskable interrupt.
pub const NMI_VECTOR: u16 = 0xFFFA;

/// Where the CPU finds its entry point after a reset.
pub const RESET_VECTOR: u16 = 0xFFFC;

/// Where the CPU finds the handler of a maskable interrupt or of `BRK`.
pub const IRQ_VECTOR: u16 = 0xFFFE;

/// What one attempt at a cycle came to.
#[derive(Debug, Clone, Copy, PartialEq, Eq, Structural)]
pub enum CpuStepStateEnum {
    /// One bus access was made: the cycle is spent.
    Continue,
    /// The sequence was over: no access was made, its successor is entered.
    Exit,
}

/// What a cycle leaves on the bus: exactly one more access, which is
/// `access`, and the devices where they stood in their own time and with
/// memories of the sizes they had.
pub open spec fn one_access<B: Bus>(before: B, after: B, access: Transaction) -> bool {
    &&& after.transactions() == before.transactions().push(access)
    &&& B::timing(after@) == B::timing(before@)
    &&& B::extent(after@) == B::extent(before@)
}

/// What every attempt at a cycle leaves on the bus: when it answered
/// `Continue` one more access, which is the one that `core`, the CPU after
/// the attempt, holds as its latest; nothing when it answered `Exit`.
pub open spec fn one_access_or_none<B: Bus>(
    before: B,
    after: B,
    core: Core,
    r: CpuStepStateEnum,
) -> bool {
    match r {
        CpuStepStateEnum::Continue => one_access(before, after, core.internal_stat.latest()),
        CpuStepStateEnum::Exit => after@ == before@ && after.transactions()
            == before.transactions(),
    }
}

/// The 16-bit word with the given low and high bytes.
pub open spec fn word(low: u8, high: u8) -> u16 {
    (high * 256 + low) as u16
}

/// The address of the stack slot that `sp` points at, in page one.
pub open spec fn stack_address(sp: u8) -> u16 {
    (0x0100 + sp) as u16
}

pub fn make_word(low: u8, high: u8) -> (r: u16)
    ensures
        r == word(low, high),
{
    (high as u16) * 256 + (low as u16)
}

pub fn high_byte(value: u16) -> (r: u8)
    ensures
        r == value / 256,
{
    (value / 256) as u8
}

pub fn low_byte(value: u16) -> (r: u8)
    ensures
        r == value % 256,
{
    (value % 256) as u8
}

pub fn stack_slot(sp: u8) -> (r: u16)
    ensures
        r == stack_address(sp),
{
    0x0100 + (sp as u16)
}

/// Whether two addresses lie in different 256-byte pages.
pub fn page_crossed(a: u16, b: u16) -> (r: bool)
    ensures
        r == (a / 256 != b / 256),
{
    a / 256 != b / 256
}

/// The CPU proper: registers, execution state and the interrupt lines it
/// polls.
#[derive(Debug, Clone, Copy, PartialEq, Eq, Structural)]
pub struct Core {
    pub register: Register,
    pub internal_stat: InternalStat,
    pub interrupt: Interrupt,
    /// What the DMA unit is doing in place of the instruction stream.
    pub dma: Dma,
    /// Whether the cycle about to run has an odd number, counted from
    /// power-on.
    pub odd_cycle: bool,
}

/// The interrupt lines as an access left them, with the CPU's own two
/// latches as they were: devices move lines, not latches.
pub open spec fn lines_moved(before: Interrupt, after: Interrupt) -> Interrupt {
    Interrupt { detected: before.detected, executing: before.executing, ..after }
}

/// `core` after a read at `address`.
pub open spec fn read_spec<B: Bus>(core: Core, bus: B::V, address: u16) -> (Core, B::V, u8) {
    let (b, i, value) = B::read_spec(bus, address, core.interrupt);
    (
        Core {
            interrupt: lines_moved(core.interrupt, i),
            internal_stat: InternalStat {
                last_read: address,
                last_write: false,
                last_value: value,
                ..core.internal_stat
            },
            ..core
        },
        b,
        value,
    )
}

/// `core` after a read at the program counter that moves it on by one.
pub open spec fn read_next_spec<B: Bus>(core: Core, bus: B::V) -> (Core, B::V, u8) {
    let (c, b, value) = read_spec::<B>(core, bus, core.register.pc);
    (Core { register: Register { pc: core.register.pc.wrapping_add(1), ..c.register }, ..c }, b, value)
}

/// `core` after a read at the program counter whose result is dropped.
pub open spec fn read_dummy_current_spec<B: Bus>(core: Core, bus: B::V) -> (Core, B::V) {
    let (c, b, _value) = read_spec::<B>(core, bus, core.register.pc);
    (c, b)
}

/// `core` after `value` is written to `address`.
pub open spec fn write_spec<B: Bus>(core: Core, bus: B::V, address: u16, value: u8) -> (Core, B::V) {
    let (b, i) = B::write_spec(bus, address, value, core.interrupt);
    (
        Core {
            interrupt: lines_moved(core.interrupt, i),
            internal_stat: InternalStat {
                last_write: true,
                last_written: address,
                last_value: value,
                ..core.internal_stat
            },
            ..core
        },
        b,
    )
}

/// `core` after `value` is written to the stack and the stack pointer
/// moved down.
pub open spec fn push_spec<B: Bus>(core: Core, bus: B::V, value: u8) -> (Core, B::V) {
    let (c, b) = write_spec::<B>(core, bus, stack_address(core.register.sp), value);
    (Core { register: Register { sp: core.register.sp.wrapping_sub(1), ..c.register }, ..c }, b)
}

/// `core` after the stack pointer moved up and the slot it then points at
/// was read.
pub open spec fn pull_spec<B: Bus>(core: Core, bus: B::V) -> (Core, B::V, u8) {
    let sp = core.register.sp.wrapping_add(1);
    read_spec::<B>(Core { register: Register { sp, ..core.register }, ..core }, bus, stack_address(sp))
}

/// `core` once an opcode sequence is over: an interrupt entry follows if
/// one is due, else the next opcode fetch.
pub open spec fn exit_opcode_spec(core: Core) -> Core {
    Core {
        internal_stat: InternalStat {
            state: if core.interrupt.executing {
                CpuStatesEnum::Irq
            } else {
                CpuStatesEnum::FetchOpCode
            },
            step: 0,
            ..core.internal_stat
        },
        ..core
    }
}

/// `core` once an addressing sequence is over: the operation that the
/// opcode byte selects follows.
pub open spec fn exit_addressing_mode_spec(core: Core) -> Core {
    Core {
        internal_stat: InternalStat {
            state: CpuStatesEnum::Op(operation_of(core.internal_stat.opcode)),
            step: 0,
            ..core.internal_stat
        },
        ..core
    }
}

/// The answer of a sequence that spent the cycle and left `after`.
pub open spec fn proceed<B: Bus>(after: (Core, B::V)) -> (Core, B::V, CpuStepStateEnum) {
    (after.0, after.1, CpuStepStateEnum::Continue)
}

/// The answer of an opcode sequence that found itself over.
pub open spec fn leave_opcode<B: Bus>(core: Core, bus: B::V) -> (Core, B::V, CpuStepStateEnum) {
    (exit_opcode_spec(core), bus, CpuStepStateEnum::Exit)
}

/// The answer of an addressing sequence that found itself over.
pub open spec fn leave_addressing_mode<B: Bus>(core: Core, bus: B::V) -> (
    Core,
    B::V,
    CpuStepStateEnum,
) {
    (exit_addressing_mode_spec(core), bus, CpuStepStateEnum::Exit)
}

/// Reads at `address`: the one access of a cycle, which the CPU then
/// holds as its latest.
pub fn read<B: Bus>(core: &mut Core, bus: &mut B, address: u16) -> (value: u8)
    ensures
        (*final(core), final(bus)@, value) == read_spec::<B>(*old(core), old(bus)@, address),
        final(bus).transactions() == old(bus).transactions().push(
            Transaction::Read { address, value },
        ),
        one_access_or_none(*old(bus), *final(bus), *final(core), CpuStepStateEnum::Continue),
{
    let detected = core.interrupt.detected;
    let executing = core.interrupt.executing;
    let value = bus.read(address, &mut core.interrupt);
    core.interrupt.detected = detected;
    core.interrupt.executing = executing;
    core.internal_stat.note_read(address, value);
    value
}

/// Writes `value` to `address`: the one access of a cycle, which the CPU
/// then holds as its latest.
pub fn write<B: Bus>(core: &mut Core, bus: &mut B, address: u16, value: u8)
    ensures
        (*final(core), final(bus)@) == write_spec::<B>(*old(core), old(bus)@, address, value),
        final(bus).transactions() == old(bus).transactions().push(
            Transaction::Write { address, value },
        ),
        one_access_or_none(*old(bus), *final(bus), *final(core), CpuStepStateEnum::Continue),
{
    let detected = core.interrupt.detected;
    let executing = core.interrupt.executing;
    bus.write(address, value, &mut core.interrupt);
    core.interrupt.detected = detected;
    core.interrupt.executing = executing;
    core.internal_stat.note_write(address, value);
}

pub fn read_next<B: Bus>(core: &mut Core, bus: &mut B) -> (value: u8)
    ensures
        (*final(core), final(bus)@, value) == read_next_spec::<B>(*old(core), old(bus)@),
        one_access_or_none(*old(bus), *final(bus), *final(core), CpuStepStateEnum::Continue),
{
    let pc = core.register.get_pc();
    let value = read(core, bus, pc);
    core.register.set_pc(pc.wrapping_add(1));
    value
}

pub fn read_dummy_current<B: Bus>(core: &mut Core, bus: &mut B)
    ensures
        (*final(core), final(bus)@) == read_dummy_current_spec::<B>(*old(core), old(bus)@),
        one_access_or_none(*old(bus), *final(bus), *final(core), CpuStepStateEnum::Continue),
{
    let pc = core.register.get_pc();
    let _ = read(core, bus, pc);
}

pub fn push<B: Bus>(core: &mut Core, bus: &mut B, value: u8)
    ensures
        (*final(core), final(bus)@) == push_spec::<B>(*old(core), old(bus)@, value),
        one_access_or_none(*old(bus), *final(bus), *final(core), CpuStepStateEnum::Continue),
{
    let sp = core.register.get_sp();
    self::write(core, bus, stack_slot(sp), value);
    core.register.set_sp(sp.wrapping_sub(1));
}

pub fn pull<B: Bus>(core: &mut Core, bus: &mut B) -> (value: u8)
    ensures
        (*final(core), final(bus)@, value) == pull_spec::<B>(*old(core), old(bus)@),
        one_access_or_none(*old(bus), *final(bus), *final(core), CpuStepStateEnum::Continue),
{
    let sp = core.register.get_sp().wrapping_add(1);
    core.register.set_sp(sp);
    read(core, bus, stack_slot(sp))
}

/// Ends an opcode sequence: see [`exit_opcode_spec`].
pub fn exit_opcode(core: &mut Core) -> (r: CpuStepStateEnum)
    ensures
        *final(core) == exit_opcode_spec(*old(core)),
        r == CpuStepStateEnum::Exit,
{
    if core.interrupt.executing {
        core.internal_stat.enter(CpuStatesEnum::Irq);
    } else {
        core.internal_stat.enter(CpuStatesEnum::FetchOpCode);
    }
    CpuStepStateEnum::Exit
}

/// Ends an addressing sequence: see [`exit_addressing_mode_spec`].
pub fn exit_addressing_mode(core: &mut Core) -> (r: CpuStepStateEnum)
    ensures
        *final(core) == exit_addressing_mode_spec(*old(core)),
        r == CpuStepStateEnum::Exit,
{
    let next = operation(core.internal_stat.get_opcode());
    core.internal_stat.enter(CpuStatesEnum::Op(next));
    CpuStepStateEnum::Exit
}

} // verus!
