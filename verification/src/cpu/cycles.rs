//! The cycle counts of the instructions: what the processor's
//! documentation says, and that the microcode spends exactly that.
//!
//! An instruction spends one cycle on its opcode fetch, then the cycles of
//! its addressing sequence, then those of its opcode sequence. A sequence
//! spends a cycle with every attempt that it answers with `Continue`;
//! attempts that it answers with `Exit` cost nothing.

use super::bus::Bus;
use super::decode::{addressing_mode_of, operation_of};
use super::executor::{exec_mode_spec, exec_opcode_spec};
use super::internal_stat::{AddressingMode, Opcode};
use super::register::Register;
use super::{Core, CpuStepStateEnum};
use vstd::prelude::*;

verus! {

/// The cycle count that the processor's documentation gives for `opcode`,
/// before corrections.
pub open spec fn documented_base_cycles(opcode: u8) -> int {
    match opcode {
        0x04 | 0x05 | 0x08 | 0x24 | 0x25 | 0x44 | 0x45 | 0x48 | 0x4C | 0x64 | 0x65 | 0x84
        | 0x85 | 0x86 | 0x87 | 0xA4 | 0xA5 | 0xA6 | 0xA7 | 0xC4 | 0xC5 | 0xE4 | 0xE5 => 3,
        0x0C | 0x0D | 0x14 | 0x15 | 0x19 | 0x1C | 0x1D | 0x28 | 0x2C | 0x2D | 0x34 | 0x35
        | 0x39 | 0x3C | 0x3D | 0x4D | 0x54 | 0x55 | 0x59 | 0x5C | 0x5D | 0x68 | 0x6D | 0x74
        | 0x75 | 0x79 | 0x7C | 0x7D | 0x8C | 0x8D | 0x8E | 0x8F | 0x94 | 0x95 | 0x96 | 0x97
        | 0xAC | 0xAD | 0xAE | 0xAF | 0xB4 | 0xB5 | 0xB6 | 0xB7 | 0xB9 | 0xBB | 0xBC | 0xBD
        | 0xBE | 0xBF | 0xCC | 0xCD | 0xD4 | 0xD5 | 0xD9 | 0xDC | 0xDD | 0xEC | 0xED | 0xF4
        | 0xF5 | 0xF9 | 0xFC | 0xFD => 4,
        0x06 | 0x07 | 0x11 | 0x26 | 0x27 | 0x31 | 0x46 | 0x47 | 0x51 | 0x66 | 0x67 | 0x6C
        | 0x71 | 0x99 | 0x9B | 0x9C | 0x9D | 0x9E | 0x9F | 0xB1 | 0xB3 | 0xC6 | 0xC7 | 0xD1
        | 0xE6 | 0xE7 | 0xF1 => 5,
        0x01 | 0x0E | 0x0F | 0x16 | 0x17 | 0x20 | 0x21 | 0x2E | 0x2F | 0x36 | 0x37 | 0x40
        | 0x41 | 0x4E | 0x4F | 0x56 | 0x57 | 0x60 | 0x61 | 0x6E | 0x6F | 0x76 | 0x77 | 0x81
        | 0x83 | 0x91 | 0x93 | 0xA1 | 0xA3 | 0xC1 | 0xCE | 0xCF | 0xD6 | 0xD7 | 0xE1 | 0xEE
        | 0xEF | 0xF6 | 0xF7 => 6,
        0x00 | 0x1B | 0x1E | 0x1F | 0x3B | 0x3E | 0x3F | 0x5B | 0x5E | 0x5F | 0x7B | 0x7E
        | 0x7F | 0xDB | 0xDE | 0xDF | 0xFB | 0xFE | 0xFF => 7,
        0x03 | 0x13 | 0x23 | 0x33 | 0x43 | 0x53 | 0x63 | 0x73 | 0xC3 | 0xD3 | 0xE3 | 0xF3 => 8,
        _ => 2,
    }
}

/// The opcodes that are documented to take one cycle more when indexing
/// leaves the page.
pub open spec fn documented_page_penalty(opcode: u8) -> bool {
    match opcode {
        0x11 | 0x19 | 0x1C | 0x1D | 0x31 | 0x39 | 0x3C | 0x3D | 0x51 | 0x59 | 0x5C | 0x5D
        | 0x71 | 0x79 | 0x7C | 0x7D | 0xB1 | 0xB3 | 0xB9 | 0xBB | 0xBC | 0xBD | 0xBE | 0xBF
        | 0xD1 | 0xD9 | 0xDC | 0xDD | 0xF1 | 0xF9 | 0xFC | 0xFD => true,
        _ => false,
    }
}

/// The conditional branches.
pub open spec fn documented_branch(opcode: u8) -> bool {
    match opcode {
        0x10 | 0x30 | 0x50 | 0x70 | 0x90 | 0xB0 | 0xD0 | 0xF0 => true,
        _ => false,
    }
}

/// The documented cycle count of `opcode`: the base count, one more for a
/// read whose indexing left the page (`crossed`), and for a branch one
/// more when it is taken and a second when its target lies in another
/// page.
pub open spec fn documented_cycles(opcode: u8, crossed: bool, taken: bool) -> int {
    documented_base_cycles(opcode) + if documented_branch(opcode) {
        if !taken {
            0int
        } else if crossed {
            2
        } else {
            1
        }
    } else if documented_page_penalty(opcode) && crossed {
        1
    } else {
        0
    }
}

/// The cycles that the addressing sequence `mode` spends, given whether
/// its indexing left the page.
pub open spec fn mode_cycles(mode: AddressingMode, crossed: bool) -> int {
    match mode {
        AddressingMode::Implied | AddressingMode::Accumulator | AddressingMode::Immediate => 0,
        AddressingMode::ZeroPage | AddressingMode::Relative => 1,
        AddressingMode::ZeroPageX | AddressingMode::ZeroPageY | AddressingMode::Absolute => 2,
        AddressingMode::AbsoluteX | AddressingMode::AbsoluteY => if crossed {
            3
        } else {
            2
        },
        AddressingMode::AbsoluteXRmw | AddressingMode::AbsoluteYRmw => 3,
        AddressingMode::IndirectIndexed => if crossed {
            4
        } else {
            3
        },
        AddressingMode::AbsoluteIndirect | AddressingMode::IndexedIndirect
        | AddressingMode::IndirectIndexedRmw => 4,
    }
}

/// Whether `opcode` is one of the eight branches.
pub open spec fn is_branch(opcode: Opcode) -> bool {
    match opcode {
        Opcode::Bcc | Opcode::Bcs | Opcode::Beq | Opcode::Bmi | Opcode::Bne | Opcode::Bpl
        | Opcode::Bvc | Opcode::Bvs => true,
        _ => false,
    }
}

/// Whether the branch `opcode` is taken with the flags of `register`.
pub open spec fn branch_taken(opcode: Opcode, register: Register) -> bool {
    match opcode {
        Opcode::Bcc => !register.c,
        Opcode::Bcs => register.c,
        Opcode::Beq => register.z,
        Opcode::Bmi => register.n,
        Opcode::Bne => !register.z,
        Opcode::Bpl => !register.n,
        Opcode::Bvc => !register.v,
        Opcode::Bvs => register.v,
        _ => false,
    }
}

/// The cycles that the opcode sequence `opcode` spends; for a branch,
/// given whether it is taken and whether its target lies in another page.
/// The jam has no count: it never ends.
pub open spec fn operation_cycles(opcode: Opcode, taken: bool, crossed: bool) -> int {
    match opcode {
        Opcode::Jmp => 0,
        Opcode::Bcc | Opcode::Bcs | Opcode::Beq | Opcode::Bmi | Opcode::Bne | Opcode::Bpl
        | Opcode::Bvc | Opcode::Bvs => if !taken {
            0
        } else if crossed {
            2
        } else {
            1
        },
        Opcode::Pha | Opcode::Php => 2,
        Opcode::Pla | Opcode::Plp | Opcode::Jsr => 3,
        Opcode::Asl | Opcode::Lsr | Opcode::Rol | Opcode::Ror | Opcode::Inc | Opcode::Dec
        | Opcode::Isc | Opcode::Dcp | Opcode::Slo | Opcode::Rla | Opcode::Sre | Opcode::Rra => 3,
        Opcode::Rti | Opcode::Rts => 5,
        Opcode::Brk => 6,
        _ => 1,
    }
}

/// The cycles that the microcode spends on the instruction `opcode`: the
/// fetch, the addressing sequence, the opcode sequence.
pub open spec fn instruction_cycles(opcode: u8, crossed: bool, taken: bool) -> int {
    1 + mode_cycles(addressing_mode_of(opcode), crossed) + operation_cycles(
        operation_of(opcode),
        taken,
        crossed,
    )
}

/// An addressing sequence spends the cycle at exactly its first
/// `mode_cycles` micro-steps, where what counts as crossed is what its
/// indexing noted.
pub proof fn lemma_mode_spends<B: Bus>(mode: AddressingMode, core: Core, bus: B::V)
    ensures
        exec_mode_spec::<B>(mode, core, bus).2 == CpuStepStateEnum::Continue <==> 1
            <= core.internal_stat.step <= mode_cycles(mode, core.internal_stat.crossed),
{
}

/// An opcode sequence other than the jam spends the cycle at exactly its
/// first `operation_cycles` micro-steps. A branch is taken by the flags,
/// and what counts as crossed is what its first cycle noted; its second
/// micro-step is reached only when it is taken.
pub proof fn lemma_operation_spends<B: Bus>(opcode: Opcode, core: Core, bus: B::V)
    requires
        opcode != Opcode::Kil,
        is_branch(opcode) && core.internal_stat.step >= 2 ==> branch_taken(opcode, core.register),
    ensures
        exec_opcode_spec::<B>(opcode, core, bus).2 == CpuStepStateEnum::Continue <==> 1
            <= core.internal_stat.step <= operation_cycles(
            opcode,
            branch_taken(opcode, core.register),
            core.internal_stat.crossed,
        ),
{
}

/// The jam spends every cycle.
pub proof fn lemma_jam_never_ends<B: Bus>(core: Core, bus: B::V)
    ensures
        exec_opcode_spec::<B>(Opcode::Kil, core, bus).2 == CpuStepStateEnum::Continue,
{
}

/// For every opcode but the jams, whatever the page crossing and the
/// branch's outcome, the microcode spends the documented number of
/// cycles.
pub proof fn lemma_documented_cycle_counts(opcode: u8, crossed: bool, taken: bool)
    requires
        operation_of(opcode) != Opcode::Kil,
    ensures
        instruction_cycles(opcode, crossed, taken) == documented_cycles(opcode, crossed, taken),
{
}

} // verus!
