//! The opcode matrix: which addressing mode and which operation each of the
//! 256 opcode bytes selects.

use super::internal_stat::{AddressingMode, Opcode};
use vstd::prelude::*;

verus! {

/// The addressing mode that `opcode` selects.
///
/// Indexed modes come in two forms: the plain one spends its extra cycle
/// only when the index leaves the page, the `Rmw` one always, as stores and
/// read-modify-write operations need.
pub open spec fn addressing_mode_of(opcode: u8) -> AddressingMode {
    match opcode {
        0x01 | 0x03 | 0x21 | 0x23 | 0x41 | 0x43 | 0x61 | 0x63 | 0x81 | 0x83 | 0xA1 | 0xA3
        | 0xC1 | 0xC3 | 0xE1 | 0xE3 => AddressingMode::IndexedIndirect,
        0x04 | 0x05 | 0x06 | 0x07 | 0x24 | 0x25 | 0x26 | 0x27 | 0x44 | 0x45 | 0x46 | 0x47
        | 0x64 | 0x65 | 0x66 | 0x67 | 0x84 | 0x85 | 0x86 | 0x87 | 0xA4 | 0xA5 | 0xA6 | 0xA7
        | 0xC4 | 0xC5 | 0xC6 | 0xC7 | 0xE4 | 0xE5 | 0xE6 | 0xE7 => AddressingMode::ZeroPage,
        0x09 | 0x0B | 0x29 | 0x2B | 0x49 | 0x4B | 0x69 | 0x6B | 0x80 | 0x82 | 0x89 | 0x8B
        | 0xA0 | 0xA2 | 0xA9 | 0xAB | 0xC0 | 0xC2 | 0xC9 | 0xCB | 0xE0 | 0xE2 | 0xE9 | 0xEB => AddressingMode::Immediate,
        0x0A | 0x2A | 0x4A | 0x6A => AddressingMode::Accumulator,
        0x0C | 0x0D | 0x0E | 0x0F | 0x20 | 0x2C | 0x2D | 0x2E | 0x2F | 0x4C | 0x4D | 0x4E
        | 0x4F | 0x6D | 0x6E | 0x6F | 0x8C | 0x8D | 0x8E | 0x8F | 0xAC | 0xAD | 0xAE | 0xAF
        | 0xCC | 0xCD | 0xCE | 0xCF | 0xEC | 0xED | 0xEE | 0xEF => AddressingMode::Absolute,
        0x10 | 0x30 | 0x50 | 0x70 | 0x90 | 0xB0 | 0xD0 | 0xF0 => AddressingMode::Relative,
        0x11 | 0x31 | 0x51 | 0x71 | 0xB1 | 0xB3 | 0xD1 | 0xF1 => AddressingMode::IndirectIndexed,
        0x13 | 0x33 | 0x53 | 0x73 | 0x91 | 0x93 | 0xD3 | 0xF3 => AddressingMode::IndirectIndexedRmw,
        0x14 | 0x15 | 0x16 | 0x17 | 0x34 | 0x35 | 0x36 | 0x37 | 0x54 | 0x55 | 0x56 | 0x57
        | 0x74 | 0x75 | 0x76 | 0x77 | 0x94 | 0x95 | 0xB4 | 0xB5 | 0xD4 | 0xD5 | 0xD6 | 0xD7
        | 0xF4 | 0xF5 | 0xF6 | 0xF7 => AddressingMode::ZeroPageX,
        0x19 | 0x39 | 0x59 | 0x79 | 0xB9 | 0xBB | 0xBE | 0xBF | 0xD9 | 0xF9 => AddressingMode::AbsoluteY,
        0x1B | 0x3B | 0x5B | 0x7B | 0x99 | 0x9B | 0x9E | 0x9F | 0xDB | 0xFB => AddressingMode::AbsoluteYRmw,
        0x1C | 0x1D | 0x3C | 0x3D | 0x5C | 0x5D | 0x7C | 0x7D | 0xBC | 0xBD | 0xDC | 0xDD
        | 0xFC | 0xFD => AddressingMode::AbsoluteX,
        0x1E | 0x1F | 0x3E | 0x3F | 0x5E | 0x5F | 0x7E | 0x7F | 0x9C | 0x9D | 0xDE | 0xDF
        | 0xFE | 0xFF => AddressingMode::AbsoluteXRmw,
        0x6C => AddressingMode::AbsoluteIndirect,
        0x96 | 0x97 | 0xB6 | 0xB7 => AddressingMode::ZeroPageY,
        _ => AddressingMode::Implied,
    }
}

/// The operation that `opcode` selects. Every byte selects one: those that
/// jam the processor select [`Opcode::Kil`].
pub open spec fn operation_of(opcode: u8) -> Opcode {
    match opcode {
        0x00 => Opcode::Brk,
        0x01 | 0x05 | 0x09 | 0x0D | 0x11 | 0x15 | 0x19 | 0x1D => Opcode::Ora,
        0x03 | 0x07 | 0x0F | 0x13 | 0x17 | 0x1B | 0x1F => Opcode::Slo,
        0x04 | 0x0C | 0x14 | 0x1C | 0x34 | 0x3C | 0x44 | 0x54 | 0x5C | 0x64 | 0x74 | 0x7C
        | 0x80 | 0x82 | 0x89 | 0xC2 | 0xD4 | 0xDC | 0xE2 | 0xF4 | 0xFC => Opcode::Ign,
        0x06 | 0x0E | 0x16 | 0x1E => Opcode::Asl,
        0x08 => Opcode::Php,
        0x0A => Opcode::AslAcc,
        0x0B | 0x2B => Opcode::Anc,
        0x10 => Opcode::Bpl,
        0x18 => Opcode::Clc,
        0x1A | 0x3A | 0x5A | 0x7A | 0xDA | 0xEA | 0xFA => Opcode::Nop,
        0x20 => Opcode::Jsr,
        0x21 | 0x25 | 0x29 | 0x2D | 0x31 | 0x35 | 0x39 | 0x3D => Opcode::And,
        0x23 | 0x27 | 0x2F | 0x33 | 0x37 | 0x3B | 0x3F => Opcode::Rla,
        0x24 | 0x2C => Opcode::Bit,
        0x26 | 0x2E | 0x36 | 0x3E => Opcode::Rol,
        0x28 => Opcode::Plp,
        0x2A => Opcode::RolAcc,
        0x30 => Opcode::Bmi,
        0x38 => Opcode::Sec,
        0x40 => Opcode::Rti,
        0x41 | 0x45 | 0x49 | 0x4D | 0x51 | 0x55 | 0x59 | 0x5D => Opcode::Eor,
        0x43 | 0x47 | 0x4F | 0x53 | 0x57 | 0x5B | 0x5F => Opcode::Sre,
        0x46 | 0x4E | 0x56 | 0x5E => Opcode::Lsr,
        0x48 => Opcode::Pha,
        0x4A => Opcode::LsrAcc,
        0x4B => Opcode::Alr,
        0x4C | 0x6C => Opcode::Jmp,
        0x50 => Opcode::Bvc,
        0x58 => Opcode::Cli,
        0x60 => Opcode::Rts,
        0x61 | 0x65 | 0x69 | 0x6D | 0x71 | 0x75 | 0x79 | 0x7D => Opcode::Adc,
        0x63 | 0x67 | 0x6F | 0x73 | 0x77 | 0x7B | 0x7F => Opcode::Rra,
        0x66 | 0x6E | 0x76 | 0x7E => Opcode::Ror,
        0x68 => Opcode::Pla,
        0x6A => Opcode::RorAcc,
        0x6B => Opcode::Arr,
        0x70 => Opcode::Bvs,
        0x78 => Opcode::Sei,
        0x81 | 0x85 | 0x8D | 0x91 | 0x95 | 0x99 | 0x9D => Opcode::Sta,
        0x83 | 0x87 | 0x8F | 0x97 => Opcode::Sax,
        0x84 | 0x8C | 0x94 => Opcode::Sty,
        0x86 | 0x8E | 0x96 => Opcode::Stx,
        0x88 => Opcode::Dey,
        0x8A => Opcode::Txa,
        0x8B => Opcode::Xaa,
        0x90 => Opcode::Bcc,
        0x93 | 0x9F => Opcode::Ahx,
        0x98 => Opcode::Tya,
        0x9A => Opcode::Txs,
        0x9B => Opcode::Tas,
        0x9C => Opcode::Shy,
        0x9E => Opcode::Shx,
        0xA0 | 0xA4 | 0xAC | 0xB4 | 0xBC => Opcode::Ldy,
        0xA1 | 0xA5 | 0xA9 | 0xAD | 0xB1 | 0xB5 | 0xB9 | 0xBD => Opcode::Lda,
        0xA2 | 0xA6 | 0xAE | 0xB6 | 0xBE => Opcode::Ldx,
        0xA3 | 0xA7 | 0xAB | 0xAF | 0xB3 | 0xB7 | 0xBF => Opcode::Lax,
        0xA8 => Opcode::Tay,
        0xAA => Opcode::Tax,
        0xB0 => Opcode::Bcs,
        0xB8 => Opcode::Clv,
        0xBA => Opcode::Tsx,
        0xBB => Opcode::Las,
        0xC0 | 0xC4 | 0xCC => Opcode::Cpy,
        0xC1 | 0xC5 | 0xC9 | 0xCD | 0xD1 | 0xD5 | 0xD9 | 0xDD => Opcode::Cmp,
        0xC3 | 0xC7 | 0xCF | 0xD3 | 0xD7 | 0xDB | 0xDF => Opcode::Dcp,
        0xC6 | 0xCE | 0xD6 | 0xDE => Opcode::Dec,
        0xC8 => Opcode::Iny,
        0xCA => Opcode::Dex,
        0xCB => Opcode::Axs,
        0xD0 => Opcode::Bne,
        0xD8 => Opcode::Cld,
        0xE0 | 0xE4 | 0xEC => Opcode::Cpx,
        0xE1 | 0xE5 | 0xE9 | 0xEB | 0xED | 0xF1 | 0xF5 | 0xF9 | 0xFD => Opcode::Sbc,
        0xE3 | 0xE7 | 0xEF | 0xF3 | 0xF7 | 0xFB | 0xFF => Opcode::Isc,
        0xE6 | 0xEE | 0xF6 | 0xFE => Opcode::Inc,
        0xE8 => Opcode::Inx,
        0xF0 => Opcode::Beq,
        0xF8 => Opcode::Sed,
        _ => Opcode::Kil,
    }
}

pub fn addressing_mode(opcode: u8) -> (r: AddressingMode)
    ensures
        r == addressing_mode_of(opcode),
{
    match opcode {
        0x01 | 0x03 | 0x21 | 0x23 | 0x41 | 0x43 | 0x61 | 0x63 | 0x81 | 0x83 | 0xA1 | 0xA3
        | 0xC1 | 0xC3 | 0xE1 | 0xE3 => AddressingMode::IndexedIndirect,
        0x04 | 0x05 | 0x06 | 0x07 | 0x24 | 0x25 | 0x26 | 0x27 | 0x44 | 0x45 | 0x46 | 0x47
        | 0x64 | 0x65 | 0x66 | 0x67 | 0x84 | 0x85 | 0x86 | 0x87 | 0xA4 | 0xA5 | 0xA6 | 0xA7
        | 0xC4 | 0xC5 | 0xC6 | 0xC7 | 0xE4 | 0xE5 | 0xE6 | 0xE7 => AddressingMode::ZeroPage,
        0x09 | 0x0B | 0x29 | 0x2B | 0x49 | 0x4B | 0x69 | 0x6B | 0x80 | 0x82 | 0x89 | 0x8B
        | 0xA0 | 0xA2 | 0xA9 | 0xAB | 0xC0 | 0xC2 | 0xC9 | 0xCB | 0xE0 | 0xE2 | 0xE9 | 0xEB => AddressingMode::Immediate,
        0x0A | 0x2A | 0x4A | 0x6A => AddressingMode::Accumulator,
        0x0C | 0x0D | 0x0E | 0x0F | 0x20 | 0x2C | 0x2D | 0x2E | 0x2F | 0x4C | 0x4D | 0x4E
        | 0x4F | 0x6D | 0x6E | 0x6F | 0x8C | 0x8D | 0x8E | 0x8F | 0xAC | 0xAD | 0xAE | 0xAF
        | 0xCC | 0xCD | 0xCE | 0xCF | 0xEC | 0xED | 0xEE | 0xEF => AddressingMode::Absolute,
        0x10 | 0x30 | 0x50 | 0x70 | 0x90 | 0xB0 | 0xD0 | 0xF0 => AddressingMode::Relative,
        0x11 | 0x31 | 0x51 | 0x71 | 0xB1 | 0xB3 | 0xD1 | 0xF1 => AddressingMode::IndirectIndexed,
        0x13 | 0x33 | 0x53 | 0x73 | 0x91 | 0x93 | 0xD3 | 0xF3 => AddressingMode::IndirectIndexedRmw,
        0x14 | 0x15 | 0x16 | 0x17 | 0x34 | 0x35 | 0x36 | 0x37 | 0x54 | 0x55 | 0x56 | 0x57
        | 0x74 | 0x75 | 0x76 | 0x77 | 0x94 | 0x95 | 0xB4 | 0xB5 | 0xD4 | 0xD5 | 0xD6 | 0xD7
        | 0xF4 | 0xF5 | 0xF6 | 0xF7 => AddressingMode::ZeroPageX,
        0x19 | 0x39 | 0x59 | 0x79 | 0xB9 | 0xBB | 0xBE | 0xBF | 0xD9 | 0xF9 => AddressingMode::AbsoluteY,
        0x1B | 0x3B | 0x5B | 0x7B | 0x99 | 0x9B | 0x9E | 0x9F | 0xDB | 0xFB => AddressingMode::AbsoluteYRmw,
        0x1C | 0x1D | 0x3C | 0x3D | 0x5C | 0x5D | 0x7C | 0x7D | 0xBC | 0xBD | 0xDC | 0xDD
        | 0xFC | 0xFD => AddressingMode::AbsoluteX,
        0x1E | 0x1F | 0x3E | 0x3F | 0x5E | 0x5F | 0x7E | 0x7F | 0x9C | 0x9D | 0xDE | 0xDF
        | 0xFE | 0xFF => AddressingMode::AbsoluteXRmw,
        0x6C => AddressingMode::AbsoluteIndirect,
        0x96 | 0x97 | 0xB6 | 0xB7 => AddressingMode::ZeroPageY,
        _ => AddressingMode::Implied,
    }
}

pub fn operation(opcode: u8) -> (r: Opcode)
    ensures
        r == operation_of(opcode),
{
    match opcode {
        0x00 => Opcode::Brk,
        0x01 | 0x05 | 0x09 | 0x0D | 0x11 | 0x15 | 0x19 | 0x1D => Opcode::Ora,
        0x03 | 0x07 | 0x0F | 0x13 | 0x17 | 0x1B | 0x1F => Opcode::Slo,
        0x04 | 0x0C | 0x14 | 0x1C | 0x34 | 0x3C | 0x44 | 0x54 | 0x5C | 0x64 | 0x74 | 0x7C
        | 0x80 | 0x82 | 0x89 | 0xC2 | 0xD4 | 0xDC | 0xE2 | 0xF4 | 0xFC => Opcode::Ign,
        0x06 | 0x0E | 0x16 | 0x1E => Opcode::Asl,
        0x08 => Opcode::Php,
        0x0A => Opcode::AslAcc,
        0x0B | 0x2B => Opcode::Anc,
        0x10 => Opcode::Bpl,
        0x18 => Opcode::Clc,
        0x1A | 0x3A | 0x5A | 0x7A | 0xDA | 0xEA | 0xFA => Opcode::Nop,
        0x20 => Opcode::Jsr,
        0x21 | 0x25 | 0x29 | 0x2D | 0x31 | 0x35 | 0x39 | 0x3D => Opcode::And,
        0x23 | 0x27 | 0x2F | 0x33 | 0x37 | 0x3B | 0x3F => Opcode::Rla,
        0x24 | 0x2C => Opcode::Bit,
        0x26 | 0x2E | 0x36 | 0x3E => Opcode::Rol,
        0x28 => Opcode::Plp,
        0x2A => Opcode::RolAcc,
        0x30 => Opcode::Bmi,
        0x38 => Opcode::Sec,
        0x40 => Opcode::Rti,
        0x41 | 0x45 | 0x49 | 0x4D | 0x51 | 0x55 | 0x59 | 0x5D => Opcode::Eor,
        0x43 | 0x47 | 0x4F | 0x53 | 0x57 | 0x5B | 0x5F => Opcode::Sre,
        0x46 | 0x4E | 0x56 | 0x5E => Opcode::Lsr,
        0x48 => Opcode::Pha,
        0x4A => Opcode::LsrAcc,
        0x4B => Opcode::Alr,
        0x4C | 0x6C => Opcode::Jmp,
        0x50 => Opcode::Bvc,
        0x58 => Opcode::Cli,
        0x60 => Opcode::Rts,
        0x61 | 0x65 | 0x69 | 0x6D | 0x71 | 0x75 | 0x79 | 0x7D => Opcode::Adc,
        0x63 | 0x67 | 0x6F | 0x73 | 0x77 | 0x7B | 0x7F => Opcode::Rra,
        0x66 | 0x6E | 0x76 | 0x7E => Opcode::Ror,
        0x68 => Opcode::Pla,
        0x6A => Opcode::RorAcc,
        0x6B => Opcode::Arr,
        0x70 => Opcode::Bvs,
        0x78 => Opcode::Sei,
        0x81 | 0x85 | 0x8D | 0x91 | 0x95 | 0x99 | 0x9D => Opcode::Sta,
        0x83 | 0x87 | 0x8F | 0x97 => Opcode::Sax,
        0x84 | 0x8C | 0x94 => Opcode::Sty,
        0x86 | 0x8E | 0x96 => Opcode::Stx,
        0x88 => Opcode::Dey,
        0x8A => Opcode::Txa,
        0x8B => Opcode::Xaa,
        0x90 => Opcode::Bcc,
        0x93 | 0x9F => Opcode::Ahx,
        0x98 => Opcode::Tya,
        0x9A => Opcode::Txs,
        0x9B => Opcode::Tas,
        0x9C => Opcode::Shy,
        0x9E => Opcode::Shx,
        0xA0 | 0xA4 | 0xAC | 0xB4 | 0xBC => Opcode::Ldy,
        0xA1 | 0xA5 | 0xA9 | 0xAD | 0xB1 | 0xB5 | 0xB9 | 0xBD => Opcode::Lda,
        0xA2 | 0xA6 | 0xAE | 0xB6 | 0xBE => Opcode::Ldx,
        0xA3 | 0xA7 | 0xAB | 0xAF | 0xB3 | 0xB7 | 0xBF => Opcode::Lax,
        0xA8 => Opcode::Tay,
        0xAA => Opcode::Tax,
        0xB0 => Opcode::Bcs,
        0xB8 => Opcode::Clv,
        0xBA => Opcode::Tsx,
        0xBB => Opcode::Las,
        0xC0 | 0xC4 | 0xCC => Opcode::Cpy,
        0xC1 | 0xC5 | 0xC9 | 0xCD | 0xD1 | 0xD5 | 0xD9 | 0xDD => Opcode::Cmp,
        0xC3 | 0xC7 | 0xCF | 0xD3 | 0xD7 | 0xDB | 0xDF => Opcode::Dcp,
        0xC6 | 0xCE | 0xD6 | 0xDE => Opcode::Dec,
        0xC8 => Opcode::Iny,
        0xCA => Opcode::Dex,
        0xCB => Opcode::Axs,
        0xD0 => Opcode::Bne,
        0xD8 => Opcode::Cld,
        0xE0 | 0xE4 | 0xEC => Opcode::Cpx,
        0xE1 | 0xE5 | 0xE9 | 0xEB | 0xED | 0xF1 | 0xF5 | 0xF9 | 0xFD => Opcode::Sbc,
        0xE3 | 0xE7 | 0xEF | 0xF3 | 0xF7 | 0xFB | 0xFF => Opcode::Isc,
        0xE6 | 0xEE | 0xF6 | 0xFE => Opcode::Inc,
        0xE8 => Opcode::Inx,
        0xF0 => Opcode::Beq,
        0xF8 => Opcode::Sed,
        _ => Opcode::Kil,
    }
}

} // verus!
