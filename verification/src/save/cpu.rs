//! The bytes that stand for the CPU in a saved state.

use super::bytes::{
    bool_byte, byte_of_bool, byte_of_option, make_option, make_word, option_byte, option_of,
    word_of,
};
use super::codec::{
    join, joined, lemma_joined_bound, lemma_split_joined, read_sections, split, views, writable,
};
use crate::cpu::dma::{Dma, OamDma};
use crate::cpu::internal_stat::{AddressingMode, CpuStatesEnum, InternalStat, Opcode};
use crate::cpu::interrupt::{Interrupt, IrqSet};
use crate::cpu::register::Register;
use crate::cpu::Core;
use vstd::prelude::*;

verus! {

/// The byte that stands for an addressing mode.
pub open spec fn mode_code(value: AddressingMode) -> u8 {
    match value {
        AddressingMode::Implied => 0,
        AddressingMode::Accumulator => 1,
        AddressingMode::Immediate => 2,
        AddressingMode::ZeroPage => 3,
        AddressingMode::ZeroPageX => 4,
        AddressingMode::ZeroPageY => 5,
        AddressingMode::Absolute => 6,
        AddressingMode::AbsoluteX => 7,
        AddressingMode::AbsoluteXRmw => 8,
        AddressingMode::AbsoluteY => 9,
        AddressingMode::AbsoluteYRmw => 10,
        AddressingMode::AbsoluteIndirect => 11,
        AddressingMode::IndexedIndirect => 12,
        AddressingMode::IndirectIndexed => 13,
        AddressingMode::IndirectIndexedRmw => 14,
        AddressingMode::Relative => 15,
    }
}

/// What the byte `code` stands for, if it stands for an addressing mode.
pub open spec fn mode_of(code: u8) -> Option<AddressingMode> {
    match code {
        0 => Some(AddressingMode::Implied),
        1 => Some(AddressingMode::Accumulator),
        2 => Some(AddressingMode::Immediate),
        3 => Some(AddressingMode::ZeroPage),
        4 => Some(AddressingMode::ZeroPageX),
        5 => Some(AddressingMode::ZeroPageY),
        6 => Some(AddressingMode::Absolute),
        7 => Some(AddressingMode::AbsoluteX),
        8 => Some(AddressingMode::AbsoluteXRmw),
        9 => Some(AddressingMode::AbsoluteY),
        10 => Some(AddressingMode::AbsoluteYRmw),
        11 => Some(AddressingMode::AbsoluteIndirect),
        12 => Some(AddressingMode::IndexedIndirect),
        13 => Some(AddressingMode::IndirectIndexed),
        14 => Some(AddressingMode::IndirectIndexedRmw),
        15 => Some(AddressingMode::Relative),
        _ => None,
    }
}

pub fn code_of_mode(value: AddressingMode) -> (code: u8)
    ensures
        code == mode_code(value),
{
    match value {
        AddressingMode::Implied => 0,
        AddressingMode::Accumulator => 1,
        AddressingMode::Immediate => 2,
        AddressingMode::ZeroPage => 3,
        AddressingMode::ZeroPageX => 4,
        AddressingMode::ZeroPageY => 5,
        AddressingMode::Absolute => 6,
        AddressingMode::AbsoluteX => 7,
        AddressingMode::AbsoluteXRmw => 8,
        AddressingMode::AbsoluteY => 9,
        AddressingMode::AbsoluteYRmw => 10,
        AddressingMode::AbsoluteIndirect => 11,
        AddressingMode::IndexedIndirect => 12,
        AddressingMode::IndirectIndexed => 13,
        AddressingMode::IndirectIndexedRmw => 14,
        AddressingMode::Relative => 15,
    }
}

pub fn make_mode(code: u8) -> (r: Option<AddressingMode>)
    ensures
        r == mode_of(code),
{
    match code {
        0 => Some(AddressingMode::Implied),
        1 => Some(AddressingMode::Accumulator),
        2 => Some(AddressingMode::Immediate),
        3 => Some(AddressingMode::ZeroPage),
        4 => Some(AddressingMode::ZeroPageX),
        5 => Some(AddressingMode::ZeroPageY),
        6 => Some(AddressingMode::Absolute),
        7 => Some(AddressingMode::AbsoluteX),
        8 => Some(AddressingMode::AbsoluteXRmw),
        9 => Some(AddressingMode::AbsoluteY),
        10 => Some(AddressingMode::AbsoluteYRmw),
        11 => Some(AddressingMode::AbsoluteIndirect),
        12 => Some(AddressingMode::IndexedIndirect),
        13 => Some(AddressingMode::IndirectIndexed),
        14 => Some(AddressingMode::IndirectIndexedRmw),
        15 => Some(AddressingMode::Relative),
        _ => None,
    }
}

/// The byte that stands for an operation.
pub open spec fn operation_code(value: Opcode) -> u8 {
    match value {
        Opcode::Adc => 0,
        Opcode::And => 1,
        Opcode::Asl => 2,
        Opcode::AslAcc => 3,
        Opcode::Bcc => 4,
        Opcode::Bcs => 5,
        Opcode::Beq => 6,
        Opcode::Bit => 7,
        Opcode::Bmi => 8,
        Opcode::Bne => 9,
        Opcode::Bpl => 10,
        Opcode::Brk => 11,
        Opcode::Bvc => 12,
        Opcode::Bvs => 13,
        Opcode::Clc => 14,
        Opcode::Cld => 15,
        Opcode::Cli => 16,
        Opcode::Clv => 17,
        Opcode::Cmp => 18,
        Opcode::Cpx => 19,
        Opcode::Cpy => 20,
        Opcode::Dec => 21,
        Opcode::Dex => 22,
        Opcode::Dey => 23,
        Opcode::Eor => 24,
        Opcode::Inc => 25,
        Opcode::Inx => 26,
        Opcode::Iny => 27,
        Opcode::Jmp => 28,
        Opcode::Jsr => 29,
        Opcode::Lda => 30,
        Opcode::Ldx => 31,
        Opcode::Ldy => 32,
        Opcode::Lsr => 33,
        Opcode::LsrAcc => 34,
        Opcode::Nop => 35,
        Opcode::Ora => 36,
        Opcode::Pha => 37,
        Opcode::Php => 38,
        Opcode::Pla => 39,
        Opcode::Plp => 40,
        Opcode::Rol => 41,
        Opcode::RolAcc => 42,
        Opcode::Ror => 43,
        Opcode::RorAcc => 44,
        Opcode::Rti => 45,
        Opcode::Rts => 46,
        Opcode::Sbc => 47,
        Opcode::Sec => 48,
        Opcode::Sed => 49,
        Opcode::Sei => 50,
        Opcode::Sta => 51,
        Opcode::Stx => 52,
        Opcode::Sty => 53,
        Opcode::Tax => 54,
        Opcode::Tay => 55,
        Opcode::Tsx => 56,
        Opcode::Txa => 57,
        Opcode::Txs => 58,
        Opcode::Tya => 59,
        Opcode::Lax => 60,
        Opcode::Sax => 61,
        Opcode::Dcp => 62,
        Opcode::Isc => 63,
        Opcode::Slo => 64,
        Opcode::Rla => 65,
        Opcode::Sre => 66,
        Opcode::Rra => 67,
        Opcode::Anc => 68,
        Opcode::Alr => 69,
        Opcode::Arr => 70,
        Opcode::Axs => 71,
        Opcode::Xaa => 72,
        Opcode::Las => 73,
        Opcode::Tas => 74,
        Opcode::Ahx => 75,
        Opcode::Shx => 76,
        Opcode::Shy => 77,
        Opcode::Ign => 78,
        Opcode::Kil => 79,
    }
}

/// What the byte `code` stands for, if it stands for an operation.
pub open spec fn operation_of(code: u8) -> Option<Opcode> {
    match code {
        0 => Some(Opcode::Adc),
        1 => Some(Opcode::And),
        2 => Some(Opcode::Asl),
        3 => Some(Opcode::AslAcc),
        4 => Some(Opcode::Bcc),
        5 => Some(Opcode::Bcs),
        6 => Some(Opcode::Beq),
        7 => Some(Opcode::Bit),
        8 => Some(Opcode::Bmi),
        9 => Some(Opcode::Bne),
        10 => Some(Opcode::Bpl),
        11 => Some(Opcode::Brk),
        12 => Some(Opcode::Bvc),
        13 => Some(Opcode::Bvs),
        14 => Some(Opcode::Clc),
        15 => Some(Opcode::Cld),
        16 => Some(Opcode::Cli),
        17 => Some(Opcode::Clv),
        18 => Some(Opcode::Cmp),
        19 => Some(Opcode::Cpx),
        20 => Some(Opcode::Cpy),
        21 => Some(Opcode::Dec),
        22 => Some(Opcode::Dex),
        23 => Some(Opcode::Dey),
        24 => Some(Opcode::Eor),
        25 => Some(Opcode::Inc),
        26 => Some(Opcode::Inx),
        27 => Some(Opcode::Iny),
        28 => Some(Opcode::Jmp),
        29 => Some(Opcode::Jsr),
        30 => Some(Opcode::Lda),
        31 => Some(Opcode::Ldx),
        32 => Some(Opcode::Ldy),
        33 => Some(Opcode::Lsr),
        34 => Some(Opcode::LsrAcc),
        35 => Some(Opcode::Nop),
        36 => Some(Opcode::Ora),
        37 => Some(Opcode::Pha),
        38 => Some(Opcode::Php),
        39 => Some(Opcode::Pla),
        40 => Some(Opcode::Plp),
        41 => Some(Opcode::Rol),
        42 => Some(Opcode::RolAcc),
        43 => Some(Opcode::Ror),
        44 => Some(Opcode::RorAcc),
        45 => Some(Opcode::Rti),
        46 => Some(Opcode::Rts),
        47 => Some(Opcode::Sbc),
        48 => Some(Opcode::Sec),
        49 => Some(Opcode::Sed),
        50 => Some(Opcode::Sei),
        51 => Some(Opcode::Sta),
        52 => Some(Opcode::Stx),
        53 => Some(Opcode::Sty),
        54 => Some(Opcode::Tax),
        55 => Some(Opcode::Tay),
        56 => Some(Opcode::Tsx),
        57 => Some(Opcode::Txa),
        58 => Some(Opcode::Txs),
        59 => Some(Opcode::Tya),
        60 => Some(Opcode::Lax),
        61 => Some(Opcode::Sax),
        62 => Some(Opcode::Dcp),
        63 => Some(Opcode::Isc),
        64 => Some(Opcode::Slo),
        65 => Some(Opcode::Rla),
        66 => Some(Opcode::Sre),
        67 => Some(Opcode::Rra),
        68 => Some(Opcode::Anc),
        69 => Some(Opcode::Alr),
        70 => Some(Opcode::Arr),
        71 => Some(Opcode::Axs),
        72 => Some(Opcode::Xaa),
        73 => Some(Opcode::Las),
        74 => Some(Opcode::Tas),
        75 => Some(Opcode::Ahx),
        76 => Some(Opcode::Shx),
        77 => Some(Opcode::Shy),
        78 => Some(Opcode::Ign),
        79 => Some(Opcode::Kil),
        _ => None,
    }
}

pub fn code_of_operation(value: Opcode) -> (code: u8)
    ensures
        code == operation_code(value),
{
    match value {
        Opcode::Adc => 0,
        Opcode::And => 1,
        Opcode::Asl => 2,
        Opcode::AslAcc => 3,
        Opcode::Bcc => 4,
        Opcode::Bcs => 5,
        Opcode::Beq => 6,
        Opcode::Bit => 7,
        Opcode::Bmi => 8,
        Opcode::Bne => 9,
        Opcode::Bpl => 10,
        Opcode::Brk => 11,
        Opcode::Bvc => 12,
        Opcode::Bvs => 13,
        Opcode::Clc => 14,
        Opcode::Cld => 15,
        Opcode::Cli => 16,
        Opcode::Clv => 17,
        Opcode::Cmp => 18,
        Opcode::Cpx => 19,
        Opcode::Cpy => 20,
        Opcode::Dec => 21,
        Opcode::Dex => 22,
        Opcode::Dey => 23,
        Opcode::Eor => 24,
        Opcode::Inc => 25,
        Opcode::Inx => 26,
        Opcode::Iny => 27,
        Opcode::Jmp => 28,
        Opcode::Jsr => 29,
        Opcode::Lda => 30,
        Opcode::Ldx => 31,
        Opcode::Ldy => 32,
        Opcode::Lsr => 33,
        Opcode::LsrAcc => 34,
        Opcode::Nop => 35,
        Opcode::Ora => 36,
        Opcode::Pha => 37,
        Opcode::Php => 38,
        Opcode::Pla => 39,
        Opcode::Plp => 40,
        Opcode::Rol => 41,
        Opcode::RolAcc => 42,
        Opcode::Ror => 43,
        Opcode::RorAcc => 44,
        Opcode::Rti => 45,
        Opcode::Rts => 46,
        Opcode::Sbc => 47,
        Opcode::Sec => 48,
        Opcode::Sed => 49,
        Opcode::Sei => 50,
        Opcode::Sta => 51,
        Opcode::Stx => 52,
        Opcode::Sty => 53,
        Opcode::Tax => 54,
        Opcode::Tay => 55,
        Opcode::Tsx => 56,
        Opcode::Txa => 57,
        Opcode::Txs => 58,
        Opcode::Tya => 59,
        Opcode::Lax => 60,
        Opcode::Sax => 61,
        Opcode::Dcp => 62,
        Opcode::Isc => 63,
        Opcode::Slo => 64,
        Opcode::Rla => 65,
        Opcode::Sre => 66,
        Opcode::Rra => 67,
        Opcode::Anc => 68,
        Opcode::Alr => 69,
        Opcode::Arr => 70,
        Opcode::Axs => 71,
        Opcode::Xaa => 72,
        Opcode::Las => 73,
        Opcode::Tas => 74,
        Opcode::Ahx => 75,
        Opcode::Shx => 76,
        Opcode::Shy => 77,
        Opcode::Ign => 78,
        Opcode::Kil => 79,
    }
}

pub fn make_operation(code: u8) -> (r: Option<Opcode>)
    ensures
        r == operation_of(code),
{
    match code {
        0 => Some(Opcode::Adc),
        1 => Some(Opcode::And),
        2 => Some(Opcode::Asl),
        3 => Some(Opcode::AslAcc),
        4 => Some(Opcode::Bcc),
        5 => Some(Opcode::Bcs),
        6 => Some(Opcode::Beq),
        7 => Some(Opcode::Bit),
        8 => Some(Opcode::Bmi),
        9 => Some(Opcode::Bne),
        10 => Some(Opcode::Bpl),
        11 => Some(Opcode::Brk),
        12 => Some(Opcode::Bvc),
        13 => Some(Opcode::Bvs),
        14 => Some(Opcode::Clc),
        15 => Some(Opcode::Cld),
        16 => Some(Opcode::Cli),
        17 => Some(Opcode::Clv),
        18 => Some(Opcode::Cmp),
        19 => Some(Opcode::Cpx),
        20 => Some(Opcode::Cpy),
        21 => Some(Opcode::Dec),
        22 => Some(Opcode::Dex),
        23 => Some(Opcode::Dey),
        24 => Some(Opcode::Eor),
        25 => Some(Opcode::Inc),
        26 => Some(Opcode::Inx),
        27 => Some(Opcode::Iny),
        28 => Some(Opcode::Jmp),
        29 => Some(Opcode::Jsr),
        30 => Some(Opcode::Lda),
        31 => Some(Opcode::Ldx),
        32 => Some(Opcode::Ldy),
        33 => Some(Opcode::Lsr),
        34 => Some(Opcode::LsrAcc),
        35 => Some(Opcode::Nop),
        36 => Some(Opcode::Ora),
        37 => Some(Opcode::Pha),
        38 => Some(Opcode::Php),
        39 => Some(Opcode::Pla),
        40 => Some(Opcode::Plp),
        41 => Some(Opcode::Rol),
        42 => Some(Opcode::RolAcc),
        43 => Some(Opcode::Ror),
        44 => Some(Opcode::RorAcc),
        45 => Some(Opcode::Rti),
        46 => Some(Opcode::Rts),
        47 => Some(Opcode::Sbc),
        48 => Some(Opcode::Sec),
        49 => Some(Opcode::Sed),
        50 => Some(Opcode::Sei),
        51 => Some(Opcode::Sta),
        52 => Some(Opcode::Stx),
        53 => Some(Opcode::Sty),
        54 => Some(Opcode::Tax),
        55 => Some(Opcode::Tay),
        56 => Some(Opcode::Tsx),
        57 => Some(Opcode::Txa),
        58 => Some(Opcode::Txs),
        59 => Some(Opcode::Tya),
        60 => Some(Opcode::Lax),
        61 => Some(Opcode::Sax),
        62 => Some(Opcode::Dcp),
        63 => Some(Opcode::Isc),
        64 => Some(Opcode::Slo),
        65 => Some(Opcode::Rla),
        66 => Some(Opcode::Sre),
        67 => Some(Opcode::Rra),
        68 => Some(Opcode::Anc),
        69 => Some(Opcode::Alr),
        70 => Some(Opcode::Arr),
        71 => Some(Opcode::Axs),
        72 => Some(Opcode::Xaa),
        73 => Some(Opcode::Las),
        74 => Some(Opcode::Tas),
        75 => Some(Opcode::Ahx),
        76 => Some(Opcode::Shx),
        77 => Some(Opcode::Shy),
        78 => Some(Opcode::Ign),
        79 => Some(Opcode::Kil),
        _ => None,
    }
}

/// The first of the two bytes that stand for a micro-sequence: which kind
/// it is.
pub open spec fn state_tag(state: CpuStatesEnum) -> u8 {
    match state {
        CpuStatesEnum::FetchOpCode => 0,
        CpuStatesEnum::Reset => 1,
        CpuStatesEnum::Irq => 2,
        CpuStatesEnum::Mode(_) => 3,
        CpuStatesEnum::Op(_) => 4,
    }
}

/// The second of the two bytes that stand for a micro-sequence: which
/// addressing mode or operation it is, and zero for the others.
pub open spec fn state_payload(state: CpuStatesEnum) -> u8 {
    match state {
        CpuStatesEnum::Mode(mode) => mode_code(mode),
        CpuStatesEnum::Op(operation) => operation_code(operation),
        _ => 0,
    }
}

/// The micro-sequence that two bytes stand for, if they stand for one.
pub open spec fn state_of(tag: u8, payload: u8) -> Option<CpuStatesEnum> {
    match tag {
        0 => Some(CpuStatesEnum::FetchOpCode),
        1 => Some(CpuStatesEnum::Reset),
        2 => Some(CpuStatesEnum::Irq),
        3 => match mode_of(payload) {
            Some(mode) => Some(CpuStatesEnum::Mode(mode)),
            None => None,
        },
        4 => match operation_of(payload) {
            Some(operation) => Some(CpuStatesEnum::Op(operation)),
            None => None,
        },
        _ => None,
    }
}

/// The four bytes that stand for the state of a sprite copy: which step
/// comes next, the page, the index and the byte in flight, with zero for
/// what the step does not have.
pub open spec fn oam_dma_bytes(oam: OamDma) -> (u8, u8, u8, u8) {
    match oam {
        OamDma::Idle => (0, 0, 0, 0),
        OamDma::Wait { page } => (1, page, 0, 0),
        OamDma::Align { page } => (2, page, 0, 0),
        OamDma::Read { page, index } => (3, page, index, 0),
        OamDma::Write { page, index, value } => (4, page, index, value),
    }
}

/// The state of a sprite copy that four bytes stand for, if they stand
/// for one.
pub open spec fn oam_dma_of(tag: u8, page: u8, index: u8, value: u8) -> Option<OamDma> {
    match tag {
        0 => Some(OamDma::Idle),
        1 => Some(OamDma::Wait { page }),
        2 => Some(OamDma::Align { page }),
        3 => Some(OamDma::Read { page, index }),
        4 => Some(OamDma::Write { page, index, value }),
        _ => None,
    }
}

pub fn tag_of_state(state: CpuStatesEnum) -> (r: u8)
    ensures
        r == state_tag(state),
{
    match state {
        CpuStatesEnum::FetchOpCode => 0,
        CpuStatesEnum::Reset => 1,
        CpuStatesEnum::Irq => 2,
        CpuStatesEnum::Mode(_) => 3,
        CpuStatesEnum::Op(_) => 4,
    }
}

pub fn payload_of_state(state: CpuStatesEnum) -> (r: u8)
    ensures
        r == state_payload(state),
{
    match state {
        CpuStatesEnum::Mode(mode) => code_of_mode(mode),
        CpuStatesEnum::Op(operation) => code_of_operation(operation),
        _ => 0,
    }
}

pub fn make_state(tag: u8, payload: u8) -> (r: Option<CpuStatesEnum>)
    ensures
        r == state_of(tag, payload),
{
    match tag {
        0 => Some(CpuStatesEnum::FetchOpCode),
        1 => Some(CpuStatesEnum::Reset),
        2 => Some(CpuStatesEnum::Irq),
        3 => match make_mode(payload) {
            Some(mode) => Some(CpuStatesEnum::Mode(mode)),
            None => None,
        },
        4 => match make_operation(payload) {
            Some(operation) => Some(CpuStatesEnum::Op(operation)),
            None => None,
        },
        _ => None,
    }
}

pub fn bytes_of_oam_dma(oam: OamDma) -> (r: (u8, u8, u8, u8))
    ensures
        r == oam_dma_bytes(oam),
{
    match oam {
        OamDma::Idle => (0, 0, 0, 0),
        OamDma::Wait { page } => (1, page, 0, 0),
        OamDma::Align { page } => (2, page, 0, 0),
        OamDma::Read { page, index } => (3, page, index, 0),
        OamDma::Write { page, index, value } => (4, page, index, value),
    }
}

pub fn make_oam_dma(tag: u8, page: u8, index: u8, value: u8) -> (r: Option<OamDma>)
    ensures
        r == oam_dma_of(tag, page, index, value),
{
    match tag {
        0 => Some(OamDma::Idle),
        1 => Some(OamDma::Wait { page }),
        2 => Some(OamDma::Align { page }),
        3 => Some(OamDma::Read { page, index }),
        4 => Some(OamDma::Write { page, index, value }),
        _ => None,
    }
}

/// The micro-sequence that was saved is the one that is restored.
pub proof fn lemma_state_round_trip(state: CpuStatesEnum)
    ensures
        state_of(state_tag(state), state_payload(state)) == Some(state),
{
}

/// The state of a sprite copy that was saved is the one that is restored.
pub proof fn lemma_oam_dma_round_trip(oam: OamDma)
    ensures
        oam_dma_of(
            oam_dma_bytes(oam).0,
            oam_dma_bytes(oam).1,
            oam_dma_bytes(oam).2,
            oam_dma_bytes(oam).3,
        ) == Some(oam),
{
}

/// The number of bytes that stand for the register file.
pub const REGISTER_SIZE: usize = 14;

/// The bytes that stand for the register file: its fields in order, two bytes, lowest
/// first, for those of 16 bits.
pub open spec fn register_saved(register: Register) -> Seq<u8> {
    seq![
        (register.pc % 256) as u8,
        (register.pc / 256) as u8,
        register.sp,
        register.a,
        register.x,
        register.y,
        bool_byte(register.c),
        bool_byte(register.z),
        bool_byte(register.i),
        bool_byte(register.d),
        bool_byte(register.b),
        bool_byte(register.r),
        bool_byte(register.v),
        bool_byte(register.n),
    ]
}

/// What `bytes` stands for, if it stands for the register file.
pub open spec fn register_restored(bytes: Seq<u8>) -> Option<Register> {
    if bytes.len() == REGISTER_SIZE && bytes[6] <= 1 && bytes[7] <= 1 && bytes[8] <= 1 && bytes[9] <= 1 && bytes[10] <= 1 && bytes[11] <= 1 && bytes[12] <= 1 && bytes[13] <= 1 {
        Some(
            Register {
                pc: word_of(bytes[0], bytes[1]),
                sp: bytes[2],
                a: bytes[3],
                x: bytes[4],
                y: bytes[5],
                c: bytes[6] == 1,
                z: bytes[7] == 1,
                i: bytes[8] == 1,
                d: bytes[9] == 1,
                b: bytes[10] == 1,
                r: bytes[11] == 1,
                v: bytes[12] == 1,
                n: bytes[13] == 1,
            },
        )
    } else {
        None
    }
}

pub fn save_register(register: &Register) -> (out: Vec<u8>)
    ensures
        out@ == register_saved(*register),
{
    let mut out: Vec<u8> = Vec::new();
    out.push((register.pc % 256) as u8);
    out.push((register.pc / 256) as u8);
    out.push(register.sp);
    out.push(register.a);
    out.push(register.x);
    out.push(register.y);
    out.push(byte_of_bool(register.c));
    out.push(byte_of_bool(register.z));
    out.push(byte_of_bool(register.i));
    out.push(byte_of_bool(register.d));
    out.push(byte_of_bool(register.b));
    out.push(byte_of_bool(register.r));
    out.push(byte_of_bool(register.v));
    out.push(byte_of_bool(register.n));
    proof {
        assert(out@ =~= register_saved(*register));
    }
    out
}

pub fn restore_register(bytes: &Vec<u8>) -> (r: Option<Register>)
    ensures
        r == register_restored(bytes@),
{
    if bytes.len() != REGISTER_SIZE {
        return None;
    }
    if !(bytes[6] <= 1 && bytes[7] <= 1 && bytes[8] <= 1 && bytes[9] <= 1 && bytes[10] <= 1 && bytes[11] <= 1 && bytes[12] <= 1 && bytes[13] <= 1) {
        return None;
    }
    Some(
        Register {
            pc: make_word(bytes[0], bytes[1]),
            sp: bytes[2],
            a: bytes[3],
            x: bytes[4],
            y: bytes[5],
            c: bytes[6] == 1,
            z: bytes[7] == 1,
            i: bytes[8] == 1,
            d: bytes[9] == 1,
            b: bytes[10] == 1,
            r: bytes[11] == 1,
            v: bytes[12] == 1,
            n: bytes[13] == 1,
        },
    )
}

/// What was saved of the register file is what is restored.
pub proof fn lemma_register_round_trip(register: Register)
    ensures
        register_restored(register_saved(register)) == Some(register),
        register_saved(register).len() == REGISTER_SIZE,
{
}

/// The number of bytes that stand for the execution state.
pub const INTERNAL_STAT_SIZE: usize = 15;

/// The bytes that stand for the execution state: its fields in order, two bytes, lowest
/// first, for those of 16 bits.
pub open spec fn internal_stat_saved(stat: InternalStat) -> Seq<u8> {
    seq![
        state_tag(stat.state),
        state_payload(stat.state),
        stat.opcode,
        stat.step,
        (stat.address % 256) as u8,
        (stat.address / 256) as u8,
        stat.data,
        bool_byte(stat.crossed),
        bool_byte(stat.interrupt),
        (stat.last_read % 256) as u8,
        (stat.last_read / 256) as u8,
        bool_byte(stat.last_write),
        (stat.last_written % 256) as u8,
        (stat.last_written / 256) as u8,
        stat.last_value,
    ]
}

/// What `bytes` stands for, if it stands for the execution state.
pub open spec fn internal_stat_restored(bytes: Seq<u8>) -> Option<InternalStat> {
    if bytes.len() == INTERNAL_STAT_SIZE && state_of(bytes[0], bytes[1]).is_some() && bytes[7] <= 1 && bytes[8] <= 1 && bytes[11] <= 1 {
        Some(
            InternalStat {
                state: state_of(bytes[0], bytes[1]).unwrap(),
                opcode: bytes[2],
                step: bytes[3],
                address: word_of(bytes[4], bytes[5]),
                data: bytes[6],
                crossed: bytes[7] == 1,
                interrupt: bytes[8] == 1,
                last_read: word_of(bytes[9], bytes[10]),
                last_write: bytes[11] == 1,
                last_written: word_of(bytes[12], bytes[13]),
                last_value: bytes[14],
            },
        )
    } else {
        None
    }
}

pub fn save_internal_stat(stat: &InternalStat) -> (out: Vec<u8>)
    ensures
        out@ == internal_stat_saved(*stat),
{
    let mut out: Vec<u8> = Vec::new();
    out.push(tag_of_state(stat.state));
    out.push(payload_of_state(stat.state));
    out.push(stat.opcode);
    out.push(stat.step);
    out.push((stat.address % 256) as u8);
    out.push((stat.address / 256) as u8);
    out.push(stat.data);
    out.push(byte_of_bool(stat.crossed));
    out.push(byte_of_bool(stat.interrupt));
    out.push((stat.last_read % 256) as u8);
    out.push((stat.last_read / 256) as u8);
    out.push(byte_of_bool(stat.last_write));
    out.push((stat.last_written % 256) as u8);
    out.push((stat.last_written / 256) as u8);
    out.push(stat.last_value);
    proof {
        assert(out@ =~= internal_stat_saved(*stat));
    }
    out
}

pub fn restore_internal_stat(bytes: &Vec<u8>) -> (r: Option<InternalStat>)
    ensures
        r == internal_stat_restored(bytes@),
{
    if bytes.len() != INTERNAL_STAT_SIZE {
        return None;
    }
    if !(bytes[7] <= 1 && bytes[8] <= 1 && bytes[11] <= 1) {
        return None;
    }
    let state = match make_state(bytes[0], bytes[1]) {
        Some(state) => state,
        None => {
            return None;
        },
    };
    Some(
        InternalStat {
            state: state,
            opcode: bytes[2],
            step: bytes[3],
            address: make_word(bytes[4], bytes[5]),
            data: bytes[6],
            crossed: bytes[7] == 1,
            interrupt: bytes[8] == 1,
            last_read: make_word(bytes[9], bytes[10]),
            last_write: bytes[11] == 1,
            last_written: make_word(bytes[12], bytes[13]),
            last_value: bytes[14],
        },
    )
}

/// What was saved of the execution state is what is restored.
pub proof fn lemma_internal_stat_round_trip(stat: InternalStat)
    ensures
        internal_stat_restored(internal_stat_saved(stat)) == Some(stat),
        internal_stat_saved(stat).len() == INTERNAL_STAT_SIZE,
{
    lemma_state_round_trip(stat.state);
}

/// The number of bytes that stand for the interrupt lines.
pub const INTERRUPT_SIZE: usize = 9;

/// The bytes that stand for the interrupt lines: its fields in order, two bytes, lowest
/// first, for those of 16 bits.
pub open spec fn interrupt_saved(interrupt: Interrupt) -> Seq<u8> {
    seq![
        bool_byte(interrupt.nmi),
        bool_byte(interrupt.irq_flag.external),
        bool_byte(interrupt.irq_flag.frame_counter),
        bool_byte(interrupt.irq_flag.dmc),
        bool_byte(interrupt.irq_mask.external),
        bool_byte(interrupt.irq_mask.frame_counter),
        bool_byte(interrupt.irq_mask.dmc),
        bool_byte(interrupt.detected),
        bool_byte(interrupt.executing),
    ]
}

/// What `bytes` stands for, if it stands for the interrupt lines.
pub open spec fn interrupt_restored(bytes: Seq<u8>) -> Option<Interrupt> {
    if bytes.len() == INTERRUPT_SIZE && bytes[0] <= 1 && bytes[1] <= 1 && bytes[2] <= 1 && bytes[3] <= 1 && bytes[4] <= 1 && bytes[5] <= 1 && bytes[6] <= 1 && bytes[7] <= 1 && bytes[8] <= 1 {
        Some(
            Interrupt {
                nmi: bytes[0] == 1,
                irq_flag: IrqSet {
                    external: bytes[1] == 1,
                    frame_counter: bytes[2] == 1,
                    dmc: bytes[3] == 1,
                },
                irq_mask: IrqSet {
                    external: bytes[4] == 1,
                    frame_counter: bytes[5] == 1,
                    dmc: bytes[6] == 1,
                },
                detected: bytes[7] == 1,
                executing: bytes[8] == 1,
            },
        )
    } else {
        None
    }
}

pub fn save_interrupt(interrupt: &Interrupt) -> (out: Vec<u8>)
    ensures
        out@ == interrupt_saved(*interrupt),
{
    let mut out: Vec<u8> = Vec::new();
    out.push(byte_of_bool(interrupt.nmi));
    out.push(byte_of_bool(interrupt.irq_flag.external));
    out.push(byte_of_bool(interrupt.irq_flag.frame_counter));
    out.push(byte_of_bool(interrupt.irq_flag.dmc));
    out.push(byte_of_bool(interrupt.irq_mask.external));
    out.push(byte_of_bool(interrupt.irq_mask.frame_counter));
    out.push(byte_of_bool(interrupt.irq_mask.dmc));
    out.push(byte_of_bool(interrupt.detected));
    out.push(byte_of_bool(interrupt.executing));
    proof {
        assert(out@ =~= interrupt_saved(*interrupt));
    }
    out
}

pub fn restore_interrupt(bytes: &Vec<u8>) -> (r: Option<Interrupt>)
    ensures
        r == interrupt_restored(bytes@),
{
    if bytes.len() != INTERRUPT_SIZE {
        return None;
    }
    if !(bytes[0] <= 1 && bytes[1] <= 1 && bytes[2] <= 1 && bytes[3] <= 1 && bytes[4] <= 1 && bytes[5] <= 1 && bytes[6] <= 1 && bytes[7] <= 1 && bytes[8] <= 1) {
        return None;
    }
    Some(
        Interrupt {
            nmi: bytes[0] == 1,
            irq_flag: IrqSet {
                external: bytes[1] == 1,
                frame_counter: bytes[2] == 1,
                dmc: bytes[3] == 1,
            },
            irq_mask: IrqSet {
                external: bytes[4] == 1,
                frame_counter: bytes[5] == 1,
                dmc: bytes[6] == 1,
            },
            detected: bytes[7] == 1,
            executing: bytes[8] == 1,
        },
    )
}

/// What was saved of the interrupt lines is what is restored.
pub proof fn lemma_interrupt_round_trip(interrupt: Interrupt)
    ensures
        interrupt_restored(interrupt_saved(interrupt)) == Some(interrupt),
        interrupt_saved(interrupt).len() == INTERRUPT_SIZE,
{
}

/// The number of bytes that stand for the DMA unit.
pub const DMA_SIZE: usize = 5;

/// The bytes that stand for the DMA unit: its fields in order, two bytes, lowest
/// first, for those of 16 bits.
pub open spec fn dma_saved(dma: Dma) -> Seq<u8> {
    seq![
        oam_dma_bytes(dma.oam).0,
        oam_dma_bytes(dma.oam).1,
        oam_dma_bytes(dma.oam).2,
        oam_dma_bytes(dma.oam).3,
        dma.dmc_stall,
    ]
}

/// What `bytes` stands for, if it stands for the DMA unit.
pub open spec fn dma_restored(bytes: Seq<u8>) -> Option<Dma> {
    if bytes.len() == DMA_SIZE && oam_dma_of(bytes[0], bytes[1], bytes[2], bytes[3]).is_some() {
        Some(
            Dma {
                oam: oam_dma_of(bytes[0], bytes[1], bytes[2], bytes[3]).unwrap(),
                dmc_stall: bytes[4],
            },
        )
    } else {
        None
    }
}

pub fn save_dma(dma: &Dma) -> (out: Vec<u8>)
    ensures
        out@ == dma_saved(*dma),
{
    let mut out: Vec<u8> = Vec::new();
    let oam = bytes_of_oam_dma(dma.oam);
    out.push(oam.0);
    out.push(oam.1);
    out.push(oam.2);
    out.push(oam.3);
    out.push(dma.dmc_stall);
    proof {
        assert(out@ =~= dma_saved(*dma));
    }
    out
}

pub fn restore_dma(bytes: &Vec<u8>) -> (r: Option<Dma>)
    ensures
        r == dma_restored(bytes@),
{
    if bytes.len() != DMA_SIZE {
        return None;
    }
    let oam = match make_oam_dma(bytes[0], bytes[1], bytes[2], bytes[3]) {
        Some(oam) => oam,
        None => {
            return None;
        },
    };
    Some(
        Dma {
            oam: oam,
            dmc_stall: bytes[4],
        },
    )
}

/// What was saved of the DMA unit is what is restored.
pub proof fn lemma_dma_round_trip(dma: Dma)
    ensures
        dma_restored(dma_saved(dma)) == Some(dma),
        dma_saved(dma).len() == DMA_SIZE,
{
    lemma_oam_dma_round_trip(dma.oam);
}

/// The number of bytes that stand for the parity of the cycle count.
pub const PARITY_SIZE: usize = 1;

/// The byte that stands for the parity of the cycle count.
pub open spec fn parity_saved(odd: bool) -> Seq<u8> {
    seq![bool_byte(odd)]
}

/// What `bytes` stands for, if it stands for a parity.
pub open spec fn parity_restored(bytes: Seq<u8>) -> Option<bool> {
    if bytes.len() == PARITY_SIZE && bytes[0] <= 1 {
        Some(bytes[0] == 1)
    } else {
        None
    }
}

pub fn save_parity(odd: &bool) -> (out: Vec<u8>)
    ensures
        out@ == parity_saved(*odd),
{
    let mut out: Vec<u8> = Vec::new();
    out.push(byte_of_bool(*odd));
    proof {
        assert(out@ =~= parity_saved(*odd));
    }
    out
}

pub fn restore_parity(bytes: &Vec<u8>) -> (r: Option<bool>)
    ensures
        r == parity_restored(bytes@),
{
    if bytes.len() != PARITY_SIZE || bytes[0] > 1 {
        return None;
    }
    Some(bytes[0] == 1)
}

/// The parity that was saved is the one that is restored.
pub proof fn lemma_parity_round_trip(odd: bool)
    ensures
        parity_restored(parity_saved(odd)) == Some(odd),
        parity_saved(odd).len() == PARITY_SIZE,
{
}

/// Interrupt lines with nothing on them.
pub open spec fn interrupt_blank() -> Interrupt {
    Interrupt {
        nmi: false,
        irq_flag: IrqSet { external: false, frame_counter: false, dmc: false },
        irq_mask: IrqSet { external: true, frame_counter: true, dmc: true },
        detected: false,
        executing: false,
    }
}

/// An upper bound of the number of bytes that stand for the CPU without its interrupt lines.
pub const PROCESSOR_BOUND: usize = 76;

/// The sections that stand for the CPU without its interrupt lines, in order.
pub open spec fn processor_sections(core: Core) -> Seq<Seq<u8>> {
    seq![
        register_saved(core.register),
        internal_stat_saved(core.internal_stat),
        dma_saved(core.dma),
        parity_saved(core.odd_cycle),
    ]
}

/// The bytes that stand for the CPU without its interrupt lines: its sections, one after the other.
#[verifier::opaque]
pub open spec fn processor_saved(core: Core) -> Seq<u8> {
    joined(processor_sections(core))
}

/// What `bytes` stands for, if it stands for the CPU without its interrupt lines.
#[verifier::opaque]
pub open spec fn processor_restored(bytes: Seq<u8>) -> Option<Core> {
    match split(bytes, 0, 4) {
        Some((sections, end)) => {
            if end == bytes.len() && register_restored(sections[0]).is_some() && internal_stat_restored(sections[1]).is_some() && dma_restored(sections[2]).is_some() && parity_restored(sections[3]).is_some() {
                Some(
                    Core {
                        register: register_restored(sections[0]).unwrap(),
                        internal_stat: internal_stat_restored(sections[1]).unwrap(),
                        interrupt: interrupt_blank(),
                        dma: dma_restored(sections[2]).unwrap(),
                        odd_cycle: parity_restored(sections[3]).unwrap(),
                    },
                )
            } else {
                None
            }
        },
        None => None,
    }
}

pub fn save_processor(core: &Core) -> (out: Vec<u8>)
    ensures
        out@ == processor_saved(*core),
        out@.len() <= PROCESSOR_BOUND,
{
    reveal(processor_saved);
    let mut sections: Vec<Vec<u8>> = Vec::new();
    sections.push(save_register(&core.register));
    sections.push(save_internal_stat(&core.internal_stat));
    sections.push(save_dma(&core.dma));
    sections.push(save_parity(&core.odd_cycle));
    proof {
        assert(views(sections@) =~= processor_sections(*core));
        lemma_processor_round_trip(*core);
    }
    join(&sections)
}

pub fn restore_processor(bytes: &Vec<u8>) -> (r: Option<Core>)
    ensures
        r == processor_restored(bytes@),
{
    reveal(processor_restored);
    let (sections, end) = match read_sections(bytes, 0, 4) {
        Some(found) => found,
        None => {
            return None;
        },
    };
    if end != bytes.len() {
        return None;
    }
    assert(views(sections@)[0] == sections@[0]@);
    let register = match restore_register(&sections[0]) {
        Some(part) => part,
        None => {
            return None;
        },
    };
    assert(views(sections@)[1] == sections@[1]@);
    let internal_stat = match restore_internal_stat(&sections[1]) {
        Some(part) => part,
        None => {
            return None;
        },
    };
    assert(views(sections@)[2] == sections@[2]@);
    let dma = match restore_dma(&sections[2]) {
        Some(part) => part,
        None => {
            return None;
        },
    };
    assert(views(sections@)[3] == sections@[3]@);
    let odd_cycle = match restore_parity(&sections[3]) {
        Some(part) => part,
        None => {
            return None;
        },
    };
    Some(
        Core {
            register: register,
            internal_stat: internal_stat,
            interrupt: Interrupt::new(),
            dma: dma,
            odd_cycle: odd_cycle,
        },
    )
}

/// What was saved of the CPU without its interrupt lines is what is restored.
pub proof fn lemma_processor_round_trip(core: Core)
    ensures
        processor_restored(processor_saved(core)) == Some((Core { interrupt: interrupt_blank(), ..core })),
        processor_saved(core).len() <= PROCESSOR_BOUND,
        writable(processor_sections(core)),
{
    reveal(processor_saved);
    reveal(processor_restored);
    let sections = processor_sections(core);
    lemma_register_round_trip(core.register);
    lemma_internal_stat_round_trip(core.internal_stat);
    lemma_dma_round_trip(core.dma);
    lemma_parity_round_trip(core.odd_cycle);
    assert(forall|i: int| 0 <= i < sections.len() ==> (#[trigger] sections[i]).len() <= 15);
    lemma_joined_bound(sections, 15);
    assert(sections.len() * (15 + 4) == 76) by (nonlinear_arith)
        requires
            sections.len() == 4,
    ;
    lemma_split_joined(Seq::empty(), sections);
    assert(Seq::<u8>::empty() + joined(sections) =~= joined(sections));
}

/// The number of bytes that stand for what the bus keeps outside its
/// devices.
pub const LATCH_SIZE: usize = 3;

/// The bytes that stand for what the bus keeps outside its devices: the
/// byte that was last on the data lines, and the page of a sprite copy
/// that was asked for.
pub open spec fn latch_saved(open_bus: u8, oam_dma: Option<u8>) -> Seq<u8> {
    seq![open_bus, bool_byte(oam_dma.is_some()), option_byte(oam_dma)]
}

/// What `bytes` stands for, if it stands for what the bus keeps.
pub open spec fn latch_restored(bytes: Seq<u8>) -> Option<(u8, Option<u8>)> {
    if bytes.len() == LATCH_SIZE && bytes[1] <= 1 {
        Some((bytes[0], option_of(bytes[1], bytes[2])))
    } else {
        None
    }
}

pub fn save_latch(open_bus: u8, oam_dma: Option<u8>) -> (out: Vec<u8>)
    ensures
        out@ == latch_saved(open_bus, oam_dma),
{
    let mut out: Vec<u8> = Vec::new();
    out.push(open_bus);
    out.push(byte_of_bool(oam_dma.is_some()));
    out.push(byte_of_option(oam_dma));
    proof {
        assert(out@ =~= latch_saved(open_bus, oam_dma));
    }
    out
}

pub fn restore_latch(bytes: &Vec<u8>) -> (r: Option<(u8, Option<u8>)>)
    ensures
        r == latch_restored(bytes@),
{
    if bytes.len() != LATCH_SIZE || bytes[1] > 1 {
        return None;
    }
    Some((bytes[0], make_option(bytes[1], bytes[2])))
}

/// What was saved of the bus is what is restored.
pub proof fn lemma_latch_round_trip(open_bus: u8, oam_dma: Option<u8>)
    ensures
        latch_restored(latch_saved(open_bus, oam_dma)) == Some((open_bus, oam_dma)),
        latch_saved(open_bus, oam_dma).len() == LATCH_SIZE,
{
}

} // verus!
