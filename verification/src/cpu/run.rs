//! The run of one instruction: from the cycle after its opcode fetch to
//! the next opcode fetch, attempt by attempt.

use super::bus::Bus;
use super::cycles::{
    branch_taken, documented_cycles, is_branch, lemma_documented_cycle_counts, mode_cycles,
    operation_cycles,
};
use super::decode::{addressing_mode_of, operation_of};
use super::executor::attempt_spec;
use super::internal_stat::{AddressingMode, CpuStatesEnum, Opcode};
use super::{Core, CpuStepStateEnum};
use vstd::prelude::*;

verus! {

/// The CPU and the bus after `attempts` attempts at a cycle.
pub open spec fn after_attempts<B: Bus>(core: Core, bus: B::V, attempts: nat) -> (Core, B::V)
    decreases attempts,
{
    if attempts == 0 {
        (core, bus)
    } else {
        let (c, b, _r) = attempt_spec::<B>(core, bus);
        after_attempts::<B>(c, b, (attempts - 1) as nat)
    }
}

/// How many of the first `attempts` attempts spend a cycle.
pub open spec fn spent<B: Bus>(core: Core, bus: B::V, attempts: nat) -> nat
    decreases attempts,
{
    if attempts == 0 {
        0
    } else {
        let (c, b, r) = attempt_spec::<B>(core, bus);
        spent::<B>(c, b, (attempts - 1) as nat) + if r == CpuStepStateEnum::Continue {
            1nat
        } else {
            0
        }
    }
}

/// What the instruction stream comes to before it is at an opcode fetch
/// again: the cycles that it spends, and the CPU and the bus then; or
/// nothing, if `fuel` attempts do not bring it there.
pub open spec fn run_to_fetch<B: Bus>(core: Core, bus: B::V, fuel: nat) -> Option<
    (nat, Core, B::V),
>
    decreases fuel,
{
    if core.internal_stat.state == CpuStatesEnum::FetchOpCode {
        Some((0, core, bus))
    } else if fuel == 0 {
        None
    } else {
        let (c, b, r) = attempt_spec::<B>(core, bus);
        match run_to_fetch::<B>(c, b, (fuel - 1) as nat) {
            Some((cycles, last, end)) => Some(
                (
                    cycles + if r == CpuStepStateEnum::Continue {
                        1nat
                    } else {
                        0
                    },
                    last,
                    end,
                ),
            ),
            None => None,
        }
    }
}

/// Whether none of the first `attempts` attempts begins at an opcode
/// fetch.
pub open spec fn under_way<B: Bus>(core: Core, bus: B::V, attempts: nat) -> bool {
    forall|i: nat|
        i < attempts ==> (#[trigger] after_attempts::<B>(core, bus, i)).0.internal_stat.state
            != CpuStatesEnum::FetchOpCode
}

/// A run that is under way for some attempts and then at an opcode fetch
/// has spent the cycles that those attempts spent.
pub proof fn lemma_run_through<B: Bus>(core: Core, bus: B::V, attempts: nat, fuel: nat)
    requires
        under_way::<B>(core, bus, attempts),
        after_attempts::<B>(core, bus, attempts).0.internal_stat.state == CpuStatesEnum::FetchOpCode,
        fuel >= attempts,
    ensures
        run_to_fetch::<B>(core, bus, fuel) == Some(
            (
                spent::<B>(core, bus, attempts),
                after_attempts::<B>(core, bus, attempts).0,
                after_attempts::<B>(core, bus, attempts).1,
            ),
        ),
    decreases attempts,
{
    if attempts > 0 {
        assert(after_attempts::<B>(core, bus, 0).0.internal_stat.state != CpuStatesEnum::FetchOpCode);
        let (c, b, r) = attempt_spec::<B>(core, bus);
        assert forall|i: nat| i < attempts - 1 implies (#[trigger] after_attempts::<B>(
            c,
            b,
            i,
        )).0.internal_stat.state != CpuStatesEnum::FetchOpCode by {
            assert(after_attempts::<B>(core, bus, i + 1) == after_attempts::<B>(c, b, i));
        }
        lemma_run_through::<B>(c, b, (attempts - 1) as nat, (fuel - 1) as nat);
    }
}

/// The attempts of two runs, one behind the other, are the attempts of
/// one run.
pub proof fn lemma_attempts_add<B: Bus>(core: Core, bus: B::V, first: nat, second: nat)
    ensures
        after_attempts::<B>(core, bus, first + second) == after_attempts::<B>(
            after_attempts::<B>(core, bus, first).0,
            after_attempts::<B>(core, bus, first).1,
            second,
        ),
        spent::<B>(core, bus, first + second) == spent::<B>(core, bus, first) + spent::<B>(
            after_attempts::<B>(core, bus, first).0,
            after_attempts::<B>(core, bus, first).1,
            second,
        ),
    decreases first,
{
    if first > 0 {
        let (c, b, _r) = attempt_spec::<B>(core, bus);
        lemma_attempts_add::<B>(c, b, (first - 1) as nat, second);
        assert((first - 1) as nat + second == (first + second - 1) as nat);
    }
}

/// What a sequence leaves alone while it runs: the opcode, the flags
/// that branches look at, and what is due of interrupts.
pub open spec fn carried(before: Core, after: Core) -> bool {
    &&& after.internal_stat.opcode == before.internal_stat.opcode
    &&& after.interrupt.executing == before.interrupt.executing
    &&& after.register.c == before.register.c
    &&& after.register.z == before.register.z
    &&& after.register.v == before.register.v
    &&& after.register.n == before.register.n
}

/// What one attempt of an addressing sequence that has not run over comes
/// to: it spends the cycle and stays, or it is over after exactly the
/// cycles of its mode and hands on to the opcode sequence.
pub open spec fn mode_attempt_fits(
    mode: AddressingMode,
    core: Core,
    after: Core,
    answer: CpuStepStateEnum,
) -> bool {
    &&& carried(core, after)
    &&& answer == CpuStepStateEnum::Continue ==> {
        &&& after.internal_stat.state == core.internal_stat.state
        &&& after.internal_stat.step == core.internal_stat.step + 1
        &&& after.internal_stat.step <= mode_cycles(mode, after.internal_stat.crossed)
    }
    &&& answer == CpuStepStateEnum::Exit ==> {
        &&& after.internal_stat.state == CpuStatesEnum::Op(operation_of(core.internal_stat.opcode))
        &&& after.internal_stat.step == 0
        &&& after.internal_stat.crossed == core.internal_stat.crossed
        &&& core.internal_stat.step == mode_cycles(mode, core.internal_stat.crossed)
    }
}

/// What the lemmas on one attempt of an addressing sequence ask for.
pub open spec fn mode_attempt_ready(mode: AddressingMode, core: Core) -> bool {
    &&& core.internal_stat.state == CpuStatesEnum::Mode(mode)
    &&& core.internal_stat.step <= mode_cycles(mode, core.internal_stat.crossed)
}

/// Whether `mode` reaches no further than page zero or the bytes behind
/// the opcode.
pub open spec fn is_short(mode: AddressingMode) -> bool {
    match mode {
        AddressingMode::Implied | AddressingMode::Accumulator | AddressingMode::Immediate
        | AddressingMode::ZeroPage | AddressingMode::ZeroPageX | AddressingMode::ZeroPageY
        | AddressingMode::Relative => true,
        _ => false,
    }
}

/// Whether `mode` takes a 16-bit address as its operand.
pub open spec fn is_absolute(mode: AddressingMode) -> bool {
    match mode {
        AddressingMode::Absolute | AddressingMode::AbsoluteX | AddressingMode::AbsoluteXRmw
        | AddressingMode::AbsoluteY | AddressingMode::AbsoluteYRmw => true,
        _ => false,
    }
}

/// One attempt of a short mode: see [`mode_attempt_fits`].
#[verifier::rlimit(30)]
pub proof fn lemma_short_attempt<B: Bus>(mode: AddressingMode, core: Core, bus: B::V)
    requires
        is_short(mode),
        mode_attempt_ready(mode, core),
    ensures
        mode_attempt_fits(
            mode,
            core,
            attempt_spec::<B>(core, bus).0,
            attempt_spec::<B>(core, bus).2,
        ),
{
    reveal(attempt_spec);
}

/// One attempt of an absolute mode: see [`mode_attempt_fits`].
#[verifier::rlimit(30)]
pub proof fn lemma_absolute_attempt<B: Bus>(mode: AddressingMode, core: Core, bus: B::V)
    requires
        is_absolute(mode),
        mode_attempt_ready(mode, core),
    ensures
        mode_attempt_fits(
            mode,
            core,
            attempt_spec::<B>(core, bus).0,
            attempt_spec::<B>(core, bus).2,
        ),
{
    reveal(attempt_spec);
}

/// One attempt of an indirect mode: see [`mode_attempt_fits`].
#[verifier::rlimit(30)]
pub proof fn lemma_indirect_attempt<B: Bus>(mode: AddressingMode, core: Core, bus: B::V)
    requires
        !is_short(mode),
        !is_absolute(mode),
        mode_attempt_ready(mode, core),
    ensures
        mode_attempt_fits(
            mode,
            core,
            attempt_spec::<B>(core, bus).0,
            attempt_spec::<B>(core, bus).2,
        ),
{
    reveal(attempt_spec);
}

/// One attempt of any addressing sequence: see [`mode_attempt_fits`].
pub proof fn lemma_mode_attempt<B: Bus>(mode: AddressingMode, core: Core, bus: B::V)
    requires
        mode_attempt_ready(mode, core),
    ensures
        mode_attempt_fits(
            mode,
            core,
            attempt_spec::<B>(core, bus).0,
            attempt_spec::<B>(core, bus).2,
        ),
{
    if is_short(mode) {
        lemma_short_attempt::<B>(mode, core, bus);
    } else if is_absolute(mode) {
        lemma_absolute_attempt::<B>(mode, core, bus);
    } else {
        lemma_indirect_attempt::<B>(mode, core, bus);
    }
}

/// Whether the addressing sequence `mode` that stands at `core` spends
/// `more` cycles and then hands on to the opcode sequence, having spent
/// the cycles of its mode in all.
pub open spec fn mode_ran<B: Bus>(mode: AddressingMode, core: Core, bus: B::V, more: nat) -> bool {
    let last = after_attempts::<B>(core, bus, more + 1).0;
    &&& under_way::<B>(core, bus, more + 1)
    &&& spent::<B>(core, bus, more + 1) == more
    &&& last.internal_stat.state == CpuStatesEnum::Op(operation_of(core.internal_stat.opcode))
    &&& last.internal_stat.step == 0
    &&& carried(core, last)
    &&& core.internal_stat.step + more == mode_cycles(mode, last.internal_stat.crossed)
}

/// Every addressing sequence spends the cycles of its mode and then hands
/// on to the opcode sequence: for the plain indexed modes one more when
/// the index left the page.
pub proof fn lemma_mode_runs<B: Bus>(mode: AddressingMode, core: Core, bus: B::V)
    requires
        core.internal_stat.state == CpuStatesEnum::Mode(mode),
        core.internal_stat.step <= mode_cycles(mode, core.internal_stat.crossed),
    ensures
        exists|more: nat| more <= 4 - core.internal_stat.step && #[trigger] mode_ran::<B>(mode, core, bus, more),
    decreases 5 - core.internal_stat.step,
{
    lemma_mode_attempt::<B>(mode, core, bus);
    let (c, b, r) = attempt_spec::<B>(core, bus);
    reveal_with_fuel(after_attempts, 2);
    reveal_with_fuel(spent, 2);
    if r == CpuStepStateEnum::Exit {
        assert(under_way::<B>(core, bus, 1)) by {
            assert forall|i: nat| i < 1 implies (#[trigger] after_attempts::<B>(
                core,
                bus,
                i,
            )).0.internal_stat.state != CpuStatesEnum::FetchOpCode by {
                assert(i == 0);
            }
        }
        assert(mode_ran::<B>(mode, core, bus, 0));
    } else {
        lemma_mode_runs::<B>(mode, c, b);
        let more = choose|more: nat| more <= 4 - c.internal_stat.step && #[trigger] mode_ran::<B>(mode, c, b, more);
        lemma_attempts_add::<B>(core, bus, 1, more + 1);
        assert(under_way::<B>(core, bus, more + 2)) by {
            assert forall|i: nat| i < more + 2 implies (#[trigger] after_attempts::<B>(
                core,
                bus,
                i,
            )).0.internal_stat.state != CpuStatesEnum::FetchOpCode by {
                if i > 0 {
                    lemma_attempts_add::<B>(core, bus, 1, (i - 1) as nat);
                    assert(after_attempts::<B>(c, b, (i - 1) as nat).0.internal_stat.state
                        != CpuStatesEnum::FetchOpCode);
                }
            }
        }
        assert(mode_ran::<B>(mode, core, bus, more + 1));
    }
}

/// What holds of an opcode sequence that has not run over: it has spent
/// no more cycles than it has, and a branch past its first cycle is
/// taken.
pub open spec fn keeps_pace(opcode: Opcode, core: Core) -> bool {
    &&& core.internal_stat.step <= operation_cycles(
        opcode,
        branch_taken(opcode, core.register),
        core.internal_stat.crossed,
    )
    &&& is_branch(opcode) && core.internal_stat.step >= 1 ==> branch_taken(opcode, core.register)
}

/// What one attempt of an opcode sequence that has not run over comes to,
/// with no interrupt due: it spends the cycle and stays, or it is over
/// after exactly its cycles and hands on to the opcode fetch.
pub open spec fn attempt_fits(
    opcode: Opcode,
    core: Core,
    after: Core,
    answer: CpuStepStateEnum,
) -> bool {
    &&& !after.interrupt.executing
    &&& after.internal_stat.opcode == core.internal_stat.opcode
    &&& branch_taken(opcode, after.register) == branch_taken(opcode, core.register)
    &&& !is_branch(opcode) ==> after.internal_stat.crossed == core.internal_stat.crossed
    &&& answer == CpuStepStateEnum::Continue ==> {
        &&& after.internal_stat.state == core.internal_stat.state
        &&& after.internal_stat.step == core.internal_stat.step + 1
        &&& keeps_pace(opcode, after)
    }
    &&& answer == CpuStepStateEnum::Exit ==> {
        &&& after.internal_stat.state == CpuStatesEnum::FetchOpCode
        &&& core.internal_stat.step == operation_cycles(
            opcode,
            branch_taken(opcode, core.register),
            after.internal_stat.crossed,
        )
    }
}

/// What the lemmas on one attempt of an opcode sequence ask for.
pub open spec fn attempt_ready(opcode: Opcode, core: Core) -> bool {
    &&& core.internal_stat.state == CpuStatesEnum::Op(opcode)
    &&& !core.interrupt.executing
    &&& keeps_pace(opcode, core)
}

/// Whether `opcode` is one of the operations that read their operand into the registers.
pub open spec fn is_arithmetic(opcode: Opcode) -> bool {
    match opcode {
        Opcode::Adc | Opcode::And | Opcode::Ora | Opcode::Eor | Opcode::Sbc | Opcode::Lax
        | Opcode::Anc | Opcode::Alr | Opcode::Arr | Opcode::Xaa | Opcode::Las | Opcode::Axs => true,
        _ => false,
    }
}

/// One attempt of one of the operations that read their operand into the registers: see [`attempt_fits`].
#[verifier::rlimit(30)]
pub proof fn lemma_arithmetic_attempt<B: Bus>(opcode: Opcode, core: Core, bus: B::V)
    requires
        is_arithmetic(opcode),
        attempt_ready(opcode, core),
    ensures
        attempt_fits(
            opcode,
            core,
            attempt_spec::<B>(core, bus).0,
            attempt_spec::<B>(core, bus).2,
        ),
{
    reveal(attempt_spec);
    match opcode {
        Opcode::Adc => {},
        Opcode::And => {},
        Opcode::Ora => {},
        Opcode::Eor => {},
        Opcode::Sbc => {},
        Opcode::Lax => {},
        Opcode::Anc => {},
        Opcode::Alr => {},
        Opcode::Arr => {},
        Opcode::Xaa => {},
        Opcode::Las => {},
        Opcode::Axs => {},
        _ => {},
    }
}

/// Whether `opcode` is one of the loads, the comparisons, the bit test and the operations that change nothing.
pub open spec fn is_reading(opcode: Opcode) -> bool {
    match opcode {
        Opcode::Lda | Opcode::Ldx | Opcode::Ldy | Opcode::Cmp | Opcode::Cpx | Opcode::Cpy
        | Opcode::Bit | Opcode::Nop | Opcode::Ign => true,
        _ => false,
    }
}

/// One attempt of one of the loads, the comparisons, the bit test and the operations that change nothing: see [`attempt_fits`].
#[verifier::rlimit(30)]
pub proof fn lemma_reading_attempt<B: Bus>(opcode: Opcode, core: Core, bus: B::V)
    requires
        is_reading(opcode),
        attempt_ready(opcode, core),
    ensures
        attempt_fits(
            opcode,
            core,
            attempt_spec::<B>(core, bus).0,
            attempt_spec::<B>(core, bus).2,
        ),
{
    reveal(attempt_spec);
    match opcode {
        Opcode::Lda => {},
        Opcode::Ldx => {},
        Opcode::Ldy => {},
        Opcode::Cmp => {},
        Opcode::Cpx => {},
        Opcode::Cpy => {},
        Opcode::Bit => {},
        Opcode::Nop => {},
        Opcode::Ign => {},
        _ => {},
    }
}

/// Whether `opcode` is one of the operations that write one byte.
pub open spec fn is_writing(opcode: Opcode) -> bool {
    match opcode {
        Opcode::Sta | Opcode::Stx | Opcode::Sty | Opcode::Sax | Opcode::Tas | Opcode::Ahx
        | Opcode::Shx | Opcode::Shy => true,
        _ => false,
    }
}

/// One attempt of one of the operations that write one byte: see [`attempt_fits`].
#[verifier::rlimit(30)]
pub proof fn lemma_writing_attempt<B: Bus>(opcode: Opcode, core: Core, bus: B::V)
    requires
        is_writing(opcode),
        attempt_ready(opcode, core),
    ensures
        attempt_fits(
            opcode,
            core,
            attempt_spec::<B>(core, bus).0,
            attempt_spec::<B>(core, bus).2,
        ),
{
    reveal(attempt_spec);
    match opcode {
        Opcode::Sta => {},
        Opcode::Stx => {},
        Opcode::Sty => {},
        Opcode::Sax => {},
        Opcode::Tas => {},
        Opcode::Ahx => {},
        Opcode::Shx => {},
        Opcode::Shy => {},
        _ => {},
    }
}

/// Whether `opcode` is one of the operations that read, change and write back.
pub open spec fn is_modifying(opcode: Opcode) -> bool {
    match opcode {
        Opcode::Asl | Opcode::Lsr | Opcode::Rol | Opcode::Ror | Opcode::Inc | Opcode::Dec
        | Opcode::Isc | Opcode::Dcp | Opcode::Slo | Opcode::Rla | Opcode::Sre | Opcode::Rra => true,
        _ => false,
    }
}

/// One attempt of one of the operations that read, change and write back: see [`attempt_fits`].
#[verifier::rlimit(30)]
pub proof fn lemma_modifying_attempt<B: Bus>(opcode: Opcode, core: Core, bus: B::V)
    requires
        is_modifying(opcode),
        attempt_ready(opcode, core),
    ensures
        attempt_fits(
            opcode,
            core,
            attempt_spec::<B>(core, bus).0,
            attempt_spec::<B>(core, bus).2,
        ),
{
    reveal(attempt_spec);
    match opcode {
        Opcode::Asl => {},
        Opcode::Lsr => {},
        Opcode::Rol => {},
        Opcode::Ror => {},
        Opcode::Inc => {},
        Opcode::Dec => {},
        Opcode::Isc => {},
        Opcode::Dcp => {},
        Opcode::Slo => {},
        Opcode::Rla => {},
        Opcode::Sre => {},
        Opcode::Rra => {},
        _ => {},
    }
}

/// Whether `opcode` is one of the operations on the registers alone.
pub open spec fn is_register(opcode: Opcode) -> bool {
    match opcode {
        Opcode::AslAcc | Opcode::LsrAcc | Opcode::RolAcc | Opcode::RorAcc | Opcode::Clc
        | Opcode::Sec | Opcode::Cli | Opcode::Sei | Opcode::Cld | Opcode::Sed | Opcode::Clv
        | Opcode::Tax | Opcode::Tay | Opcode::Txa | Opcode::Tya | Opcode::Tsx | Opcode::Txs
        | Opcode::Inx | Opcode::Iny | Opcode::Dex | Opcode::Dey => true,
        _ => false,
    }
}

/// One attempt of one of the operations on the registers alone: see [`attempt_fits`].
#[verifier::rlimit(30)]
pub proof fn lemma_register_attempt<B: Bus>(opcode: Opcode, core: Core, bus: B::V)
    requires
        is_register(opcode),
        attempt_ready(opcode, core),
    ensures
        attempt_fits(
            opcode,
            core,
            attempt_spec::<B>(core, bus).0,
            attempt_spec::<B>(core, bus).2,
        ),
{
    reveal(attempt_spec);
    match opcode {
        Opcode::AslAcc => {},
        Opcode::LsrAcc => {},
        Opcode::RolAcc => {},
        Opcode::RorAcc => {},
        Opcode::Clc => {},
        Opcode::Sec => {},
        Opcode::Cli => {},
        Opcode::Sei => {},
        Opcode::Cld => {},
        Opcode::Sed => {},
        Opcode::Clv => {},
        Opcode::Tax => {},
        Opcode::Tay => {},
        Opcode::Txa => {},
        Opcode::Tya => {},
        Opcode::Tsx => {},
        Opcode::Txs => {},
        Opcode::Inx => {},
        Opcode::Iny => {},
        Opcode::Dex => {},
        Opcode::Dey => {},
        _ => {},
    }
}

/// Whether `opcode` is one of the branches.
pub open spec fn is_branching(opcode: Opcode) -> bool {
    match opcode {
        Opcode::Bcc | Opcode::Bcs | Opcode::Beq | Opcode::Bmi | Opcode::Bne | Opcode::Bpl
        | Opcode::Bvc | Opcode::Bvs => true,
        _ => false,
    }
}

/// One attempt of one of the branches: see [`attempt_fits`].
#[verifier::rlimit(30)]
pub proof fn lemma_branching_attempt<B: Bus>(opcode: Opcode, core: Core, bus: B::V)
    requires
        is_branching(opcode),
        attempt_ready(opcode, core),
    ensures
        attempt_fits(
            opcode,
            core,
            attempt_spec::<B>(core, bus).0,
            attempt_spec::<B>(core, bus).2,
        ),
{
    reveal(attempt_spec);
    match opcode {
        Opcode::Bcc => {},
        Opcode::Bcs => {},
        Opcode::Beq => {},
        Opcode::Bmi => {},
        Opcode::Bne => {},
        Opcode::Bpl => {},
        Opcode::Bvc => {},
        Opcode::Bvs => {},
        _ => {},
    }
}

/// Whether `opcode` is one of the stack operations, the jumps and the software interrupt.
pub open spec fn is_flow(opcode: Opcode) -> bool {
    match opcode {
        Opcode::Pha | Opcode::Php | Opcode::Pla | Opcode::Plp | Opcode::Jmp | Opcode::Jsr
        | Opcode::Rts | Opcode::Rti | Opcode::Brk => true,
        _ => false,
    }
}

/// One attempt of a stack operation: see [`attempt_fits`].
#[verifier::rlimit(30)]
pub proof fn lemma_stack_attempt<B: Bus>(opcode: Opcode, core: Core, bus: B::V)
    requires
        opcode == Opcode::Pha || opcode == Opcode::Php || opcode == Opcode::Pla || opcode == Opcode::Plp,
        attempt_ready(opcode, core),
    ensures
        attempt_fits(
            opcode,
            core,
            attempt_spec::<B>(core, bus).0,
            attempt_spec::<B>(core, bus).2,
        ),
{
    reveal(attempt_spec);
}

/// One attempt of a jump, a call or a return: see [`attempt_fits`].
#[verifier::rlimit(30)]
pub proof fn lemma_jump_attempt<B: Bus>(opcode: Opcode, core: Core, bus: B::V)
    requires
        opcode == Opcode::Jmp || opcode == Opcode::Jsr || opcode == Opcode::Rts,
        attempt_ready(opcode, core),
    ensures
        attempt_fits(
            opcode,
            core,
            attempt_spec::<B>(core, bus).0,
            attempt_spec::<B>(core, bus).2,
        ),
{
    reveal(attempt_spec);
}

/// One attempt of the return from an interrupt: see [`attempt_fits`].
#[verifier::rlimit(30)]
pub proof fn lemma_return_from_interrupt_attempt<B: Bus>(opcode: Opcode, core: Core, bus: B::V)
    requires
        opcode == Opcode::Rti,
        attempt_ready(opcode, core),
    ensures
        attempt_fits(
            opcode,
            core,
            attempt_spec::<B>(core, bus).0,
            attempt_spec::<B>(core, bus).2,
        ),
{
    reveal(attempt_spec);
}

/// One attempt of the software interrupt: see [`attempt_fits`].
#[verifier::rlimit(30)]
pub proof fn lemma_software_interrupt_attempt<B: Bus>(opcode: Opcode, core: Core, bus: B::V)
    requires
        opcode == Opcode::Brk,
        attempt_ready(opcode, core),
    ensures
        attempt_fits(
            opcode,
            core,
            attempt_spec::<B>(core, bus).0,
            attempt_spec::<B>(core, bus).2,
        ),
{
    reveal(attempt_spec);
}

/// One attempt of one of the stack operations, the jumps and the software
/// interrupt: see [`attempt_fits`].
pub proof fn lemma_flow_attempt<B: Bus>(opcode: Opcode, core: Core, bus: B::V)
    requires
        is_flow(opcode),
        attempt_ready(opcode, core),
    ensures
        attempt_fits(
            opcode,
            core,
            attempt_spec::<B>(core, bus).0,
            attempt_spec::<B>(core, bus).2,
        ),
{
    match opcode {
        Opcode::Pha | Opcode::Php | Opcode::Pla | Opcode::Plp => {
            lemma_stack_attempt::<B>(opcode, core, bus);
        },
        Opcode::Jmp | Opcode::Jsr | Opcode::Rts => {
            lemma_jump_attempt::<B>(opcode, core, bus);
        },
        Opcode::Rti => {
            lemma_return_from_interrupt_attempt::<B>(opcode, core, bus);
        },
        _ => {
            lemma_software_interrupt_attempt::<B>(opcode, core, bus);
        },
    }
}

/// One attempt of any opcode sequence but the jam: see [`attempt_fits`].
pub proof fn lemma_operation_attempt<B: Bus>(opcode: Opcode, core: Core, bus: B::V)
    requires
        opcode != Opcode::Kil,
        attempt_ready(opcode, core),
    ensures
        attempt_fits(
            opcode,
            core,
            attempt_spec::<B>(core, bus).0,
            attempt_spec::<B>(core, bus).2,
        ),
{
    if is_arithmetic(opcode) {
        lemma_arithmetic_attempt::<B>(opcode, core, bus);
    } else if is_reading(opcode) {
        lemma_reading_attempt::<B>(opcode, core, bus);
    } else if is_writing(opcode) {
        lemma_writing_attempt::<B>(opcode, core, bus);
    } else if is_modifying(opcode) {
        lemma_modifying_attempt::<B>(opcode, core, bus);
    } else if is_register(opcode) {
        lemma_register_attempt::<B>(opcode, core, bus);
    } else if is_branching(opcode) {
        lemma_branching_attempt::<B>(opcode, core, bus);
    } else {
        lemma_flow_attempt::<B>(opcode, core, bus);
    }
}

/// Whether the opcode sequence `opcode` that stands at `core` spends
/// `more` cycles and then hands on to the opcode fetch, having spent its
/// cycles in all.
pub open spec fn operation_ran<B: Bus>(opcode: Opcode, core: Core, bus: B::V, more: nat) -> bool {
    let last = after_attempts::<B>(core, bus, more + 1).0;
    &&& under_way::<B>(core, bus, more + 1)
    &&& spent::<B>(core, bus, more + 1) == more
    &&& last.internal_stat.state == CpuStatesEnum::FetchOpCode
    &&& last.internal_stat.opcode == core.internal_stat.opcode
    &&& !is_branch(opcode) ==> last.internal_stat.crossed == core.internal_stat.crossed
    &&& core.internal_stat.step + more == operation_cycles(
        opcode,
        branch_taken(opcode, core.register),
        last.internal_stat.crossed,
    )
}

/// Every opcode sequence but the jam spends its cycles and then hands on
/// to the opcode fetch, when no interrupt is due: a branch none when it
/// is not taken, one when it lands in the page, and two when it does not.
pub proof fn lemma_operation_runs<B: Bus>(opcode: Opcode, core: Core, bus: B::V)
    requires
        opcode != Opcode::Kil,
        attempt_ready(opcode, core),
    ensures
        exists|more: nat| more <= 6 - core.internal_stat.step && #[trigger] operation_ran::<B>(opcode, core, bus, more),
    decreases 7 - core.internal_stat.step,
{
    lemma_operation_attempt::<B>(opcode, core, bus);
    let (c, b, r) = attempt_spec::<B>(core, bus);
    reveal_with_fuel(after_attempts, 2);
    reveal_with_fuel(spent, 2);
    if r == CpuStepStateEnum::Exit {
        assert(under_way::<B>(core, bus, 1)) by {
            assert forall|i: nat| i < 1 implies (#[trigger] after_attempts::<B>(
                core,
                bus,
                i,
            )).0.internal_stat.state != CpuStatesEnum::FetchOpCode by {
                assert(i == 0);
            }
        }
        assert(operation_ran::<B>(opcode, core, bus, 0));
    } else {
        lemma_operation_runs::<B>(opcode, c, b);
        let more = choose|more: nat| more <= 6 - c.internal_stat.step && #[trigger] operation_ran::<B>(opcode, c, b, more);
        lemma_attempts_add::<B>(core, bus, 1, more + 1);
        assert(under_way::<B>(core, bus, more + 2)) by {
            assert forall|i: nat| i < more + 2 implies (#[trigger] after_attempts::<B>(
                core,
                bus,
                i,
            )).0.internal_stat.state != CpuStatesEnum::FetchOpCode by {
                if i > 0 {
                    lemma_attempts_add::<B>(core, bus, 1, (i - 1) as nat);
                    assert(after_attempts::<B>(c, b, (i - 1) as nat).0.internal_stat.state
                        != CpuStatesEnum::FetchOpCode);
                }
            }
        }
        assert(operation_ran::<B>(opcode, core, bus, more + 1));
    }
}

/// The branches are the opcodes with relative addressing.
pub proof fn lemma_branches_are_relative(opcode: u8)
    ensures
        is_branch(operation_of(opcode)) ==> addressing_mode_of(opcode) == AddressingMode::Relative,
{
}

/// From the cycle after its opcode fetch, with no interrupt due, every
/// instruction but the jams runs to the next opcode fetch in exactly the
/// cycles that are documented for its opcode, the cycle of its own fetch
/// counted in: with the penalty for a page that the index left if the run
/// noted one, and with those for a branch if the flags take it.
pub proof fn lemma_instruction_runs<B: Bus>(core: Core, bus: B::V)
    requires
        core.internal_stat.state == CpuStatesEnum::Mode(
            addressing_mode_of(core.internal_stat.opcode),
        ),
        core.internal_stat.step == 0,
        !core.interrupt.executing,
        operation_of(core.internal_stat.opcode) != Opcode::Kil,
    ensures
        run_to_fetch::<B>(core, bus, 12).is_some(),
        1 + run_to_fetch::<B>(core, bus, 12).unwrap().0 == documented_cycles(
            core.internal_stat.opcode,
            run_to_fetch::<B>(core, bus, 12).unwrap().1.internal_stat.crossed,
            branch_taken(operation_of(core.internal_stat.opcode), core.register),
        ),
{
    let code = core.internal_stat.opcode;
    let mode = addressing_mode_of(code);
    let opcode = operation_of(code);
    lemma_mode_runs::<B>(mode, core, bus);
    let first = choose|more: nat| more <= 4 - core.internal_stat.step && #[trigger] mode_ran::<B>(mode, core, bus, more);
    let (middle, between) = after_attempts::<B>(core, bus, first + 1);
    lemma_operation_runs::<B>(opcode, middle, between);
    let second = choose|more: nat| more <= 6 - middle.internal_stat.step && #[trigger] operation_ran::<B>(opcode, middle, between, more);
    let attempts = first + 1 + second + 1;
    lemma_attempts_add::<B>(core, bus, first + 1, second + 1);
    assert(under_way::<B>(core, bus, attempts)) by {
        assert forall|i: nat| i < attempts implies (#[trigger] after_attempts::<B>(
            core,
            bus,
            i,
        )).0.internal_stat.state != CpuStatesEnum::FetchOpCode by {
            if i >= first + 1 {
                lemma_attempts_add::<B>(core, bus, first + 1, (i - first - 1) as nat);
                assert(after_attempts::<B>(
                    middle,
                    between,
                    (i - first - 1) as nat,
                ).0.internal_stat.state != CpuStatesEnum::FetchOpCode);
            }
        }
    }
    lemma_run_through::<B>(core, bus, attempts, 12);
    let last = after_attempts::<B>(core, bus, attempts).0;
    let taken = branch_taken(opcode, core.register);
    assert(branch_taken(opcode, middle.register) == taken);
    lemma_branches_are_relative(code);
    lemma_documented_cycle_counts(code, last.internal_stat.crossed, taken);
}

/// What holds of an interrupt entry or a reset that has not run over: it
/// has spent no more than its seven cycles, and once the reset has spent
/// them nothing blocks interrupts any more.
pub open spec fn entering(core: Core) -> bool {
    &&& core.internal_stat.state == CpuStatesEnum::Irq || core.internal_stat.state
        == CpuStatesEnum::Reset
    &&& core.internal_stat.step <= 7
    &&& core.internal_stat.state == CpuStatesEnum::Reset && core.internal_stat.step == 7
        ==> !core.interrupt.executing
}

/// One attempt of an interrupt entry or a reset that has not run over: it
/// spends the cycle and stays, or it is over after exactly seven cycles
/// and hands on to the opcode fetch.
#[verifier::rlimit(30)]
pub proof fn lemma_entry_attempt<B: Bus>(core: Core, bus: B::V)
    requires
        entering(core),
    ensures
        ({
            let (c, b, r) = attempt_spec::<B>(core, bus);
            &&& r == CpuStepStateEnum::Continue ==> {
                &&& c.internal_stat.state == core.internal_stat.state
                &&& c.internal_stat.step == core.internal_stat.step + 1
                &&& entering(c)
            }
            &&& r == CpuStepStateEnum::Exit ==> {
                &&& c.internal_stat.state == CpuStatesEnum::FetchOpCode
                &&& core.internal_stat.step == 7
            }
        }),
{
    reveal(attempt_spec);
}

/// Whether the interrupt entry or reset that stands at `core` spends
/// `more` cycles and then hands on to the opcode fetch, having spent
/// seven in all.
pub open spec fn entry_ran<B: Bus>(core: Core, bus: B::V, more: nat) -> bool {
    &&& under_way::<B>(core, bus, more + 1)
    &&& spent::<B>(core, bus, more + 1) == more
    &&& after_attempts::<B>(core, bus, more + 1).0.internal_stat.state
        == CpuStatesEnum::FetchOpCode
    &&& core.internal_stat.step + more == 7
}

/// An interrupt entry and a reset run on to the opcode fetch.
pub proof fn lemma_entry_runs_on<B: Bus>(core: Core, bus: B::V)
    requires
        entering(core),
    ensures
        entry_ran::<B>(core, bus, (7 - core.internal_stat.step) as nat),
    decreases 8 - core.internal_stat.step,
{
    lemma_entry_attempt::<B>(core, bus);
    let (c, b, r) = attempt_spec::<B>(core, bus);
    reveal_with_fuel(after_attempts, 2);
    reveal_with_fuel(spent, 2);
    if r == CpuStepStateEnum::Exit {
        assert(under_way::<B>(core, bus, 1)) by {
            assert forall|i: nat| i < 1 implies (#[trigger] after_attempts::<B>(
                core,
                bus,
                i,
            )).0.internal_stat.state != CpuStatesEnum::FetchOpCode by {
                assert(i == 0);
            }
        }
    } else {
        lemma_entry_runs_on::<B>(c, b);
        let more = (7 - c.internal_stat.step) as nat;
        lemma_attempts_add::<B>(core, bus, 1, more + 1);
        assert(under_way::<B>(core, bus, more + 2)) by {
            assert forall|i: nat| i < more + 2 implies (#[trigger] after_attempts::<B>(
                core,
                bus,
                i,
            )).0.internal_stat.state != CpuStatesEnum::FetchOpCode by {
                if i > 0 {
                    lemma_attempts_add::<B>(core, bus, 1, (i - 1) as nat);
                    assert(after_attempts::<B>(c, b, (i - 1) as nat).0.internal_stat.state
                        != CpuStatesEnum::FetchOpCode);
                }
            }
        }
    }
}

/// The entry into an interrupt handler and the reset take exactly seven
/// cycles each, after which the next opcode is fetched.
pub proof fn lemma_entry_takes_seven_cycles<B: Bus>(core: Core, bus: B::V)
    requires
        core.internal_stat.state == CpuStatesEnum::Irq || core.internal_stat.state
            == CpuStatesEnum::Reset,
        core.internal_stat.step == 0,
    ensures
        run_to_fetch::<B>(core, bus, 8).is_some(),
        run_to_fetch::<B>(core, bus, 8).unwrap().0 == 7,
{
    lemma_entry_runs_on::<B>(core, bus);
    lemma_run_through::<B>(core, bus, 8, 8);
}

} // verus!
