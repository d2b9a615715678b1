//! The dispatch from the CPU's state to the micro-sequence that runs the
//! next cycle.

use super::addressing_mode::absolute::{
    Absolute, AbsoluteIndirect, AbsoluteX, AbsoluteXRmw, AbsoluteY, AbsoluteYRmw,
};
use super::addressing_mode::implied::{Accumulator, Immediate, Implied};
use super::addressing_mode::indexed_indirect::IndexedIndirect;
use super::addressing_mode::indirect_indexed::{IndirectIndexed, IndirectIndexedRmw};
use super::addressing_mode::relative::Relative;
use super::addressing_mode::zero_page::{ZeroPage, ZeroPageX, ZeroPageY};
use super::bus::{Bus, Transaction};
use super::dma::{
    dmc_cycle, dmc_cycle_spec, dmc_noticed, notice_dmc, oam_cycle, oam_cycle_spec, Dma, OamDma,
};
use super::interrupt::{Interrupt, IrqSet};
use super::register::Register;
use super::decode::{addressing_mode, addressing_mode_of};
use super::internal_stat::{AddressingMode, CpuStatesEnum, InternalStat, Opcode};
use super::opcodes::arithmetic::{Adc, And, Eor, Ora, Sbc};
use super::opcodes::bit::Bit;
use super::opcodes::combined::{
    read_opcode_spec, write_opcode_spec, Ahx, Alr, Anc, Arr, Axs, Las, Lax, Read, Sax, Shx, Shy,
    Tas, Write, Xaa,
};
use super::opcodes::compare::{compare_opcode_spec, Cmp, Compare, Cpx, Cpy};
use super::opcodes::condition_jump::{
    condition_jump_spec, Bcc, Bcs, Beq, Bmi, Bne, Bpl, Bvc, Bvs, ConditionJump,
};
use super::opcodes::interrupt::{Brk, Irq, Reset, Rti};
use super::opcodes::jump::{Jmp, Jsr, Rts};
use super::opcodes::load::{load_opcode_spec, Lda, Ldx, Ldy, Load};
use super::opcodes::nop::{Ign, Kil, Nop};
use super::opcodes::register_ops::{
    operate_opcode_spec, Clc, Cld, Cli, Clv, Dex, Dey, Inx, Iny, Operate, Sec, Sed, Sei, Tax,
    Tay, Tsx, Txa, Txs, Tya,
};
use super::opcodes::rmw::{
    accumulate_memory_spec, accumulate_spec, AccumulateMemory, Asl, Dcp, Dec, Inc, Isc, Lsr,
    Rla, Rol, Ror, Rra, Slo, Sre,
};
use super::opcodes::stack::{Pha, Php, Pla, Plp};
use super::opcodes::store::{Sta, Stx, Sty};
use super::{
    lines_moved, one_access, one_access_or_none, read_next, read_next_spec, Core,
    CpuStepStateEnum,
};
use vstd::prelude::*;

verus! {

/// `core` after the opcode was fetched: its addressing sequence is entered.
pub open spec fn fetch_spec<B: Bus>(core: Core, bus: B::V) -> (Core, B::V) {
    let (c, b, opcode) = read_next_spec::<B>(core, bus);
    (
        Core {
            internal_stat: InternalStat {
                opcode,
                state: CpuStatesEnum::Mode(addressing_mode_of(opcode)),
                step: 0,
                ..c.internal_stat
            },
            ..c
        },
        b,
    )
}

/// The opcode fetch: one cycle, whatever the micro-step.
pub struct FetchOpCode;

impl FetchOpCode {
    pub fn new() -> Self {
        Self
    }

    pub open spec fn exec_spec<B: Bus>(core: Core, bus: B::V) -> (Core, B::V, CpuStepStateEnum) {
        let (c, b) = fetch_spec::<B>(core, bus);
        (c, b, CpuStepStateEnum::Continue)
    }

    pub fn exec<B: Bus>(core: &mut Core, bus: &mut B) -> (r: CpuStepStateEnum)
        ensures
            (*final(core), final(bus)@, r) == Self::exec_spec::<B>(*old(core), old(bus)@),
            one_access_or_none(*old(bus), *final(bus), *final(core), r),
    {
        let opcode = read_next(core, bus);
        core.internal_stat.set_opcode(opcode);
        core.internal_stat.enter(CpuStatesEnum::Mode(addressing_mode(opcode)));
        CpuStepStateEnum::Continue
    }
}

/// One attempt at a cycle of the addressing sequence `mode`.
pub open spec fn exec_mode_spec<B: Bus>(mode: AddressingMode, core: Core, bus: B::V) -> (
    Core,
    B::V,
    CpuStepStateEnum,
) {
    match mode {
        AddressingMode::Implied => Implied::exec_spec::<B>(core, bus),
        AddressingMode::Accumulator => Accumulator::exec_spec::<B>(core, bus),
        AddressingMode::Immediate => Immediate::exec_spec::<B>(core, bus),
        AddressingMode::ZeroPage => ZeroPage::exec_spec::<B>(core, bus),
        AddressingMode::ZeroPageX => ZeroPageX::exec_spec::<B>(core, bus),
        AddressingMode::ZeroPageY => ZeroPageY::exec_spec::<B>(core, bus),
        AddressingMode::Absolute => Absolute::exec_spec::<B>(core, bus),
        AddressingMode::AbsoluteX => AbsoluteX::exec_spec::<B>(core, bus),
        AddressingMode::AbsoluteXRmw => AbsoluteXRmw::exec_spec::<B>(core, bus),
        AddressingMode::AbsoluteY => AbsoluteY::exec_spec::<B>(core, bus),
        AddressingMode::AbsoluteYRmw => AbsoluteYRmw::exec_spec::<B>(core, bus),
        AddressingMode::AbsoluteIndirect => AbsoluteIndirect::exec_spec::<B>(core, bus),
        AddressingMode::IndexedIndirect => IndexedIndirect::exec_spec::<B>(core, bus),
        AddressingMode::IndirectIndexed => IndirectIndexed::exec_spec::<B>(core, bus),
        AddressingMode::IndirectIndexedRmw => IndirectIndexedRmw::exec_spec::<B>(core, bus),
        AddressingMode::Relative => Relative::exec_spec::<B>(core, bus),
    }
}

/// One attempt at a cycle of the opcode sequence `opcode`.
pub open spec fn exec_opcode_spec<B: Bus>(opcode: Opcode, core: Core, bus: B::V) -> (
    Core,
    B::V,
    CpuStepStateEnum,
) {
    match opcode {
        Opcode::Adc => read_opcode_spec::<Adc, B>(core, bus),
        Opcode::And => read_opcode_spec::<And, B>(core, bus),
        Opcode::Asl => accumulate_memory_spec::<Asl, B>(core, bus),
        Opcode::AslAcc => accumulate_spec::<Asl, B>(core, bus),
        Opcode::Bcc => condition_jump_spec::<Bcc, B>(core, bus),
        Opcode::Bcs => condition_jump_spec::<Bcs, B>(core, bus),
        Opcode::Beq => condition_jump_spec::<Beq, B>(core, bus),
        Opcode::Bit => Bit::exec_spec::<B>(core, bus),
        Opcode::Bmi => condition_jump_spec::<Bmi, B>(core, bus),
        Opcode::Bne => condition_jump_spec::<Bne, B>(core, bus),
        Opcode::Bpl => condition_jump_spec::<Bpl, B>(core, bus),
        Opcode::Brk => Brk::exec_spec::<B>(core, bus),
        Opcode::Bvc => condition_jump_spec::<Bvc, B>(core, bus),
        Opcode::Bvs => condition_jump_spec::<Bvs, B>(core, bus),
        Opcode::Clc => operate_opcode_spec::<Clc, B>(core, bus),
        Opcode::Cld => operate_opcode_spec::<Cld, B>(core, bus),
        Opcode::Cli => operate_opcode_spec::<Cli, B>(core, bus),
        Opcode::Clv => operate_opcode_spec::<Clv, B>(core, bus),
        Opcode::Cmp => compare_opcode_spec::<Cmp, B>(core, bus),
        Opcode::Cpx => compare_opcode_spec::<Cpx, B>(core, bus),
        Opcode::Cpy => compare_opcode_spec::<Cpy, B>(core, bus),
        Opcode::Dec => accumulate_memory_spec::<Dec, B>(core, bus),
        Opcode::Dex => operate_opcode_spec::<Dex, B>(core, bus),
        Opcode::Dey => operate_opcode_spec::<Dey, B>(core, bus),
        Opcode::Eor => read_opcode_spec::<Eor, B>(core, bus),
        Opcode::Inc => accumulate_memory_spec::<Inc, B>(core, bus),
        Opcode::Inx => operate_opcode_spec::<Inx, B>(core, bus),
        Opcode::Iny => operate_opcode_spec::<Iny, B>(core, bus),
        Opcode::Jmp => Jmp::exec_spec::<B>(core, bus),
        Opcode::Jsr => Jsr::exec_spec::<B>(core, bus),
        Opcode::Lda => load_opcode_spec::<Lda, B>(core, bus),
        Opcode::Ldx => load_opcode_spec::<Ldx, B>(core, bus),
        Opcode::Ldy => load_opcode_spec::<Ldy, B>(core, bus),
        Opcode::Lsr => accumulate_memory_spec::<Lsr, B>(core, bus),
        Opcode::LsrAcc => accumulate_spec::<Lsr, B>(core, bus),
        Opcode::Nop => Nop::exec_spec::<B>(core, bus),
        Opcode::Ora => read_opcode_spec::<Ora, B>(core, bus),
        Opcode::Pha => Pha::exec_spec::<B>(core, bus),
        Opcode::Php => Php::exec_spec::<B>(core, bus),
        Opcode::Pla => Pla::exec_spec::<B>(core, bus),
        Opcode::Plp => Plp::exec_spec::<B>(core, bus),
        Opcode::Rol => accumulate_memory_spec::<Rol, B>(core, bus),
        Opcode::RolAcc => accumulate_spec::<Rol, B>(core, bus),
        Opcode::Ror => accumulate_memory_spec::<Ror, B>(core, bus),
        Opcode::RorAcc => accumulate_spec::<Ror, B>(core, bus),
        Opcode::Rti => Rti::exec_spec::<B>(core, bus),
        Opcode::Rts => Rts::exec_spec::<B>(core, bus),
        Opcode::Sbc => read_opcode_spec::<Sbc, B>(core, bus),
        Opcode::Sec => operate_opcode_spec::<Sec, B>(core, bus),
        Opcode::Sed => operate_opcode_spec::<Sed, B>(core, bus),
        Opcode::Sei => operate_opcode_spec::<Sei, B>(core, bus),
        Opcode::Sta => write_opcode_spec::<Sta, B>(core, bus),
        Opcode::Stx => write_opcode_spec::<Stx, B>(core, bus),
        Opcode::Sty => write_opcode_spec::<Sty, B>(core, bus),
        Opcode::Tax => operate_opcode_spec::<Tax, B>(core, bus),
        Opcode::Tay => operate_opcode_spec::<Tay, B>(core, bus),
        Opcode::Tsx => operate_opcode_spec::<Tsx, B>(core, bus),
        Opcode::Txa => operate_opcode_spec::<Txa, B>(core, bus),
        Opcode::Txs => operate_opcode_spec::<Txs, B>(core, bus),
        Opcode::Tya => operate_opcode_spec::<Tya, B>(core, bus),
        Opcode::Lax => read_opcode_spec::<Lax, B>(core, bus),
        Opcode::Sax => write_opcode_spec::<Sax, B>(core, bus),
        Opcode::Dcp => accumulate_memory_spec::<Dcp, B>(core, bus),
        Opcode::Isc => accumulate_memory_spec::<Isc, B>(core, bus),
        Opcode::Slo => accumulate_memory_spec::<Slo, B>(core, bus),
        Opcode::Rla => accumulate_memory_spec::<Rla, B>(core, bus),
        Opcode::Sre => accumulate_memory_spec::<Sre, B>(core, bus),
        Opcode::Rra => accumulate_memory_spec::<Rra, B>(core, bus),
        Opcode::Anc => read_opcode_spec::<Anc, B>(core, bus),
        Opcode::Alr => read_opcode_spec::<Alr, B>(core, bus),
        Opcode::Arr => read_opcode_spec::<Arr, B>(core, bus),
        Opcode::Axs => read_opcode_spec::<Axs, B>(core, bus),
        Opcode::Xaa => read_opcode_spec::<Xaa, B>(core, bus),
        Opcode::Las => read_opcode_spec::<Las, B>(core, bus),
        Opcode::Tas => write_opcode_spec::<Tas, B>(core, bus),
        Opcode::Ahx => write_opcode_spec::<Ahx, B>(core, bus),
        Opcode::Shx => write_opcode_spec::<Shx, B>(core, bus),
        Opcode::Shy => write_opcode_spec::<Shy, B>(core, bus),
        Opcode::Ign => Ign::exec_spec::<B>(core, bus),
        Opcode::Kil => Kil::exec_spec::<B>(core, bus),
    }
}

/// One attempt at a cycle of the sequence that `core` is in.
pub open spec fn exec_state_spec<B: Bus>(core: Core, bus: B::V) -> (Core, B::V, CpuStepStateEnum) {
    match core.internal_stat.state {
        CpuStatesEnum::FetchOpCode => FetchOpCode::exec_spec::<B>(core, bus),
        CpuStatesEnum::Reset => Reset::exec_spec::<B>(core, bus),
        CpuStatesEnum::Irq => Irq::exec_spec::<B>(core, bus),
        CpuStatesEnum::Mode(mode) => exec_mode_spec::<B>(mode, core, bus),
        CpuStatesEnum::Op(opcode) => exec_opcode_spec::<B>(opcode, core, bus),
    }
}

/// A sequence that just began and spends its first cycle whatever comes:
/// the opcode fetch or an interrupt entry.
pub open spec fn settled(core: Core) -> bool {
    core.internal_stat.step == 0 && (core.internal_stat.state == CpuStatesEnum::FetchOpCode
        || core.internal_stat.state == CpuStatesEnum::Irq)
}

/// How a sequence that is over hands on: an addressing sequence to an
/// opcode sequence, any other to a sequence that spends its first cycle.
pub open spec fn handed_on(before: Core, after: Core) -> bool {
    &&& after.internal_stat.step == 0
    &&& if before.internal_stat.state is Mode {
        after.internal_stat.state is Op
    } else {
        settled(after)
    }
}

pub fn exec_mode<B: Bus>(mode: AddressingMode, core: &mut Core, bus: &mut B) -> (r:
    CpuStepStateEnum)
    ensures
        (*final(core), final(bus)@, r) == exec_mode_spec::<B>(mode, *old(core), old(bus)@),
        one_access_or_none(*old(bus), *final(bus), *final(core), r),
        r == CpuStepStateEnum::Exit ==> final(core).internal_stat.step == 0
            && final(core).internal_stat.state is Op,
{
    match mode {
        AddressingMode::Implied => Implied::exec(core, bus),
        AddressingMode::Accumulator => Accumulator::exec(core, bus),
        AddressingMode::Immediate => Immediate::exec(core, bus),
        AddressingMode::ZeroPage => ZeroPage::exec(core, bus),
        AddressingMode::ZeroPageX => ZeroPageX::exec(core, bus),
        AddressingMode::ZeroPageY => ZeroPageY::exec(core, bus),
        AddressingMode::Absolute => Absolute::exec(core, bus),
        AddressingMode::AbsoluteX => AbsoluteX::exec(core, bus),
        AddressingMode::AbsoluteXRmw => AbsoluteXRmw::exec(core, bus),
        AddressingMode::AbsoluteY => AbsoluteY::exec(core, bus),
        AddressingMode::AbsoluteYRmw => AbsoluteYRmw::exec(core, bus),
        AddressingMode::AbsoluteIndirect => AbsoluteIndirect::exec(core, bus),
        AddressingMode::IndexedIndirect => IndexedIndirect::exec(core, bus),
        AddressingMode::IndirectIndexed => IndirectIndexed::exec(core, bus),
        AddressingMode::IndirectIndexedRmw => IndirectIndexedRmw::exec(core, bus),
        AddressingMode::Relative => Relative::exec(core, bus),
    }
}

pub fn exec_opcode<B: Bus>(opcode: Opcode, core: &mut Core, bus: &mut B) -> (r:
    CpuStepStateEnum)
    ensures
        (*final(core), final(bus)@, r) == exec_opcode_spec::<B>(opcode, *old(core), old(bus)@),
        one_access_or_none(*old(bus), *final(bus), *final(core), r),
        r == CpuStepStateEnum::Exit ==> settled(*final(core)),
{
    match opcode {
        Opcode::Adc => Adc::exec_opcode(core, bus),
        Opcode::And => And::exec_opcode(core, bus),
        Opcode::Asl => Asl::exec_opcode(core, bus),
        Opcode::AslAcc => Asl::exec_accumulator(core, bus),
        Opcode::Bcc => Bcc::exec_opcode(core, bus),
        Opcode::Bcs => Bcs::exec_opcode(core, bus),
        Opcode::Beq => Beq::exec_opcode(core, bus),
        Opcode::Bit => Bit::exec(core, bus),
        Opcode::Bmi => Bmi::exec_opcode(core, bus),
        Opcode::Bne => Bne::exec_opcode(core, bus),
        Opcode::Bpl => Bpl::exec_opcode(core, bus),
        Opcode::Brk => Brk::exec(core, bus),
        Opcode::Bvc => Bvc::exec_opcode(core, bus),
        Opcode::Bvs => Bvs::exec_opcode(core, bus),
        Opcode::Clc => Clc::exec_opcode(core, bus),
        Opcode::Cld => Cld::exec_opcode(core, bus),
        Opcode::Cli => Cli::exec_opcode(core, bus),
        Opcode::Clv => Clv::exec_opcode(core, bus),
        Opcode::Cmp => Cmp::exec_opcode(core, bus),
        Opcode::Cpx => Cpx::exec_opcode(core, bus),
        Opcode::Cpy => Cpy::exec_opcode(core, bus),
        Opcode::Dec => Dec::exec_opcode(core, bus),
        Opcode::Dex => Dex::exec_opcode(core, bus),
        Opcode::Dey => Dey::exec_opcode(core, bus),
        Opcode::Eor => Eor::exec_opcode(core, bus),
        Opcode::Inc => Inc::exec_opcode(core, bus),
        Opcode::Inx => Inx::exec_opcode(core, bus),
        Opcode::Iny => Iny::exec_opcode(core, bus),
        Opcode::Jmp => Jmp::exec(core, bus),
        Opcode::Jsr => Jsr::exec(core, bus),
        Opcode::Lda => Lda::exec_opcode(core, bus),
        Opcode::Ldx => Ldx::exec_opcode(core, bus),
        Opcode::Ldy => Ldy::exec_opcode(core, bus),
        Opcode::Lsr => Lsr::exec_opcode(core, bus),
        Opcode::LsrAcc => Lsr::exec_accumulator(core, bus),
        Opcode::Nop => Nop::exec(core, bus),
        Opcode::Ora => Ora::exec_opcode(core, bus),
        Opcode::Pha => Pha::exec(core, bus),
        Opcode::Php => Php::exec(core, bus),
        Opcode::Pla => Pla::exec(core, bus),
        Opcode::Plp => Plp::exec(core, bus),
        Opcode::Rol => Rol::exec_opcode(core, bus),
        Opcode::RolAcc => Rol::exec_accumulator(core, bus),
        Opcode::Ror => Ror::exec_opcode(core, bus),
        Opcode::RorAcc => Ror::exec_accumulator(core, bus),
        Opcode::Rti => Rti::exec(core, bus),
        Opcode::Rts => Rts::exec(core, bus),
        Opcode::Sbc => Sbc::exec_opcode(core, bus),
        Opcode::Sec => Sec::exec_opcode(core, bus),
        Opcode::Sed => Sed::exec_opcode(core, bus),
        Opcode::Sei => Sei::exec_opcode(core, bus),
        Opcode::Sta => Sta::exec_opcode(core, bus),
        Opcode::Stx => Stx::exec_opcode(core, bus),
        Opcode::Sty => Sty::exec_opcode(core, bus),
        Opcode::Tax => Tax::exec_opcode(core, bus),
        Opcode::Tay => Tay::exec_opcode(core, bus),
        Opcode::Tsx => Tsx::exec_opcode(core, bus),
        Opcode::Txa => Txa::exec_opcode(core, bus),
        Opcode::Txs => Txs::exec_opcode(core, bus),
        Opcode::Tya => Tya::exec_opcode(core, bus),
        Opcode::Lax => Lax::exec_opcode(core, bus),
        Opcode::Sax => Sax::exec_opcode(core, bus),
        Opcode::Dcp => Dcp::exec_opcode(core, bus),
        Opcode::Isc => Isc::exec_opcode(core, bus),
        Opcode::Slo => Slo::exec_opcode(core, bus),
        Opcode::Rla => Rla::exec_opcode(core, bus),
        Opcode::Sre => Sre::exec_opcode(core, bus),
        Opcode::Rra => Rra::exec_opcode(core, bus),
        Opcode::Anc => Anc::exec_opcode(core, bus),
        Opcode::Alr => Alr::exec_opcode(core, bus),
        Opcode::Arr => Arr::exec_opcode(core, bus),
        Opcode::Axs => Axs::exec_opcode(core, bus),
        Opcode::Xaa => Xaa::exec_opcode(core, bus),
        Opcode::Las => Las::exec_opcode(core, bus),
        Opcode::Tas => Tas::exec_opcode(core, bus),
        Opcode::Ahx => Ahx::exec_opcode(core, bus),
        Opcode::Shx => Shx::exec_opcode(core, bus),
        Opcode::Shy => Shy::exec_opcode(core, bus),
        Opcode::Ign => Ign::exec(core, bus),
        Opcode::Kil => Kil::exec(core, bus),
    }
}

pub fn exec_state<B: Bus>(core: &mut Core, bus: &mut B) -> (r: CpuStepStateEnum)
    ensures
        (*final(core), final(bus)@, r) == exec_state_spec::<B>(*old(core), old(bus)@),
        one_access_or_none(*old(bus), *final(bus), *final(core), r),
        r == CpuStepStateEnum::Exit ==> handed_on(*old(core), *final(core)),
        old(core).internal_stat.state == CpuStatesEnum::FetchOpCode ==> r
            == CpuStepStateEnum::Continue,
        old(core).internal_stat.state == CpuStatesEnum::Irq && old(core).internal_stat.step == 1
            ==> r == CpuStepStateEnum::Continue,
{
    match core.internal_stat.get_state() {
        CpuStatesEnum::FetchOpCode => FetchOpCode::exec(core, bus),
        CpuStatesEnum::Reset => Reset::exec(core, bus),
        CpuStatesEnum::Irq => Irq::exec(core, bus),
        CpuStatesEnum::Mode(mode) => exec_mode(mode, core, bus),
        CpuStatesEnum::Op(opcode) => exec_opcode(opcode, core, bus),
    }
}

/// `core` with the micro-step moved on by one.
pub open spec fn advanced(core: Core) -> Core {
    Core {
        internal_stat: InternalStat {
            step: core.internal_stat.step.wrapping_add(1),
            ..core.internal_stat
        },
        ..core
    }
}

/// One attempt at a cycle: the micro-step moves on and the current
/// sequence runs.
#[verifier::opaque]
pub open spec fn attempt_spec<B: Bus>(core: Core, bus: B::V) -> (Core, B::V, CpuStepStateEnum) {
    exec_state_spec::<B>(advanced(core), bus)
}

/// One cycle of the instruction stream: attempts are made until a
/// sequence spends the cycle. An addressing sequence that is over hands on
/// to the opcode sequence, an opcode sequence to the next fetch or to an
/// interrupt entry, so the third attempt at the latest spends it.
pub open spec fn instruction_cycle_spec<B: Bus>(core: Core, bus: B::V) -> (Core, B::V) {
    let (c1, b1, r1) = attempt_spec::<B>(core, bus);
    if r1 == CpuStepStateEnum::Continue {
        (c1, b1)
    } else {
        let (c2, b2, r2) = attempt_spec::<B>(c1, b1);
        if r2 == CpuStepStateEnum::Continue {
            (c2, b2)
        } else {
            let (c3, b3, _r3) = attempt_spec::<B>(c2, b2);
            (c3, b3)
        }
    }
}

pub fn attempt<B: Bus>(core: &mut Core, bus: &mut B) -> (r: CpuStepStateEnum)
    ensures
        (*final(core), final(bus)@, r) == attempt_spec::<B>(*old(core), old(bus)@),
        one_access_or_none(*old(bus), *final(bus), *final(core), r),
        r == CpuStepStateEnum::Exit ==> handed_on(*old(core), *final(core)),
        settled(*old(core)) ==> r == CpuStepStateEnum::Continue,
{
    reveal(attempt_spec);
    core.internal_stat.advance();
    exec_state(core, bus)
}

pub fn instruction_cycle<B: Bus>(core: &mut Core, bus: &mut B)
    ensures
        (*final(core), final(bus)@) == instruction_cycle_spec::<B>(*old(core), old(bus)@),
        one_access(*old(bus), *final(bus), final(core).internal_stat.latest()),
{
    match attempt(core, bus) {
        CpuStepStateEnum::Continue => {},
        CpuStepStateEnum::Exit => {
            match attempt(core, bus) {
                CpuStepStateEnum::Continue => {},
                CpuStepStateEnum::Exit => {
                    let _ = attempt(core, bus);
                },
            }
        },
    }
}

/// What the cycle is spent on: a stall for a sample fetch, a sprite copy
/// under way, the first cycle of a sprite copy that was asked for, or else
/// the instruction stream.
#[verifier::opaque]
pub open spec fn cycle_spec<B: Bus>(core: Core, bus: B::V) -> (Core, B::V) {
    let noticed = dmc_noticed::<B>(core, bus);
    if noticed.dma.dmc_stall > 0 {
        dmc_cycle_spec::<B>(noticed, bus)
    } else if noticed.dma.oam != OamDma::Idle {
        oam_cycle_spec::<B>(noticed, bus)
    } else if B::oam_dma_request(bus).is_some() {
        oam_cycle_spec::<B>(
            Core {
                dma: Dma {
                    oam: OamDma::Wait { page: B::oam_dma_request(bus).unwrap() },
                    ..noticed.dma
                },
                ..noticed
            },
            B::oam_dma_taken(bus),
        )
    } else {
        instruction_cycle_spec::<B>(noticed, bus)
    }
}

/// One CPU cycle: the cycle proper, then the interrupt latches move and
/// the lines are polled, and the cycle count goes from even to odd or
/// back.
pub open spec fn step_spec<B: Bus>(core: Core, bus: B::V) -> (Core, B::V) {
    let (c, b) = cycle_spec::<B>(core, bus);
    (Core { interrupt: c.interrupt.polled(c.register.i), odd_cycle: !c.odd_cycle, ..c }, b)
}

pub fn cycle<B: Bus>(core: &mut Core, bus: &mut B)
    ensures
        (*final(core), final(bus)@) == cycle_spec::<B>(*old(core), old(bus)@),
        one_access(*old(bus), *final(bus), final(core).internal_stat.latest()),
{
    reveal(cycle_spec);
    notice_dmc(core, bus);
    if core.dma.dmc_stall > 0 {
        dmc_cycle(core, bus);
    } else if !matches!(core.dma.oam, OamDma::Idle) {
        oam_cycle(core, bus);
    } else {
        match bus.take_oam_dma() {
            Some(page) => {
                core.dma.oam = OamDma::Wait { page };
                oam_cycle(core, bus);
            },
            None => {
                instruction_cycle(core, bus);
            },
        }
    }
}

impl Core {
    /// The CPU at power-on: registers clear, lines released, and the reset
    /// sequence about to begin, which blocks interrupts till it is over.
    pub open spec fn power_on() -> Core {
        Core {
            register: Register::new_spec(),
            internal_stat: InternalStat {
                state: CpuStatesEnum::Reset,
                opcode: 0,
                step: 0,
                address: 0,
                data: 0,
                crossed: false,
                interrupt: false,
                last_read: 0,
                last_write: false,
                last_written: 0,
                last_value: 0,
            },
            interrupt: Interrupt {
                nmi: false,
                irq_flag: IrqSet { external: false, frame_counter: false, dmc: false },
                irq_mask: IrqSet { external: true, frame_counter: true, dmc: true },
                detected: false,
                executing: true,
            },
            dma: Dma { oam: OamDma::Idle, dmc_stall: 0 },
            odd_cycle: false,
        }
    }

    /// The CPU at power-on: see [`Core::power_on`].
    pub fn new() -> (r: Self)
        ensures
            r == Self::power_on(),
    {
        let mut interrupt = Interrupt::new();
        interrupt.executing = true;
        Core {
            register: Register::new(),
            internal_stat: InternalStat::new(),
            interrupt,
            dma: Dma::new(),
            odd_cycle: false,
        }
    }

    /// `self` with the reset sequence about to begin; registers keep their
    /// values.
    pub open spec fn reset_spec(self) -> Core {
        Core {
            internal_stat: InternalStat {
                state: CpuStatesEnum::Reset,
                step: 0,
                ..self.internal_stat
            },
            interrupt: Interrupt { executing: true, ..self.interrupt },
            dma: Dma { oam: OamDma::Idle, dmc_stall: 0 },
            ..self
        }
    }

    /// Pulls the reset line: see [`Core::reset_spec`].
    pub fn reset(&mut self)
        ensures
            *final(self) == old(self).reset_spec(),
    {
        self.internal_stat.enter(CpuStatesEnum::Reset);
        self.interrupt.executing = true;
        self.dma = Dma::new();
    }

    /// Runs one CPU cycle, which makes exactly one access to the bus: the
    /// one that the CPU then holds as its latest.
    pub fn step<B: Bus>(&mut self, bus: &mut B)
        ensures
            (*final(self), final(bus)@) == step_spec::<B>(*old(self), old(bus)@),
            one_access(*old(bus), *final(bus), final(self).internal_stat.latest()),
    {
        cycle(self, bus);
        self.interrupt.poll(self.register.get_i());
        self.odd_cycle = !self.odd_cycle;
    }
}


/// A sample fetch that falls together with a read repeats the read. While
/// a sample is waited for the cycle belongs to the stall: every cycle of
/// it but the last reads again at the address of the latest read, and the
/// last reads the sample byte and hands it to the channel. No cycle of
/// the stall writes, and none moves the instruction on.
pub proof fn lemma_stall_repeats_read<B: Bus>(core: Core, bus: B::V)
    requires
        B::dmc_request(bus).is_some(),
    ensures
        ({
            let stall = dmc_noticed::<B>(core, bus).dma.dmc_stall;
            let (c, b) = step_spec::<B>(core, bus);
            let again = B::read_spec(bus, core.internal_stat.last_read, core.interrupt);
            let sample = B::read_spec(bus, B::dmc_request(bus).unwrap(), core.interrupt);
            &&& stall >= 1
            &&& c.dma.dmc_stall == stall - 1
            &&& c.register == core.register
            &&& c.internal_stat.state == core.internal_stat.state
            &&& c.internal_stat.step == core.internal_stat.step
            &&& stall > 1 ==> b == again.0 && c.internal_stat.latest() == (Transaction::Read {
                address: core.internal_stat.last_read,
                value: again.2,
            })
            &&& stall == 1 ==> b == B::dmc_fill_spec(
                sample.0,
                sample.2,
                lines_moved(core.interrupt, sample.1),
            ).0 && c.internal_stat.latest() == (Transaction::Read {
                address: B::dmc_request(bus).unwrap(),
                value: sample.2,
            })
        }),
{
    reveal(cycle_spec);
}

/// The reset sequence and the entry into an interrupt handler begin with
/// a read at the program counter, whose byte is dropped: the program
/// counter stays.
pub proof fn lemma_entry_begins_with_a_dummy_read<B: Bus>(core: Core, bus: B::V)
    requires
        core.internal_stat.state == CpuStatesEnum::Irq || core.internal_stat.state
            == CpuStatesEnum::Reset,
        core.internal_stat.step == 0,
        !core.dma.active(),
        B::dmc_request(bus).is_none(),
        B::oam_dma_request(bus).is_none(),
    ensures
        step_spec::<B>(core, bus).0.internal_stat.latest() == (Transaction::Read {
            address: core.register.pc,
            value: B::read_spec(bus, core.register.pc, core.interrupt).2,
        }),
        step_spec::<B>(core, bus).1 == B::read_spec(bus, core.register.pc, core.interrupt).0,
        step_spec::<B>(core, bus).0.register.pc == core.register.pc,
{
    reveal(cycle_spec);
    reveal(attempt_spec);
}

} // verus!
