//! The bytes that stand for the picture unit's registers and latches in a
//! saved state.

use super::bytes::{bool_byte, byte_of_bool, make_word, word_of};
use crate::ppu::background::Background;
use crate::ppu::scroll::Scroll;
use crate::ppu::sprite::SpriteEvaluation;
use crate::ppu::state::PpuState;
use vstd::prelude::*;

verus! {

/// The number of bytes that stand for the picture unit's registers.
pub const PPU_STATE_SIZE: usize = 20;

/// The bytes that stand for the picture unit's registers: its fields in order, two bytes, lowest
/// first, for those of 16 bits.
pub open spec fn ppu_state_saved(state: PpuState) -> Seq<u8> {
    seq![
        state.ctrl,
        state.mask,
        bool_byte(state.vbl),
        bool_byte(state.sprite0_hit),
        bool_byte(state.overflow),
        state.oam_addr,
        (state.scroll.v % 256) as u8,
        (state.scroll.v / 256) as u8,
        (state.scroll.t % 256) as u8,
        (state.scroll.t / 256) as u8,
        state.scroll.x,
        bool_byte(state.scroll.w),
        state.read_buffer,
        state.open_bus,
        ((state.scanline + 0x8000) % 256) as u8,
        ((state.scanline + 0x8000) / 256) as u8,
        (state.dot % 256) as u8,
        (state.dot / 256) as u8,
        bool_byte(state.odd_frame),
        bool_byte(state.suppress_vbl),
    ]
}

/// What `bytes` stands for, if it stands for the picture unit's registers.
pub open spec fn ppu_state_restored(bytes: Seq<u8>) -> Option<PpuState> {
    if bytes.len() == PPU_STATE_SIZE && bytes[2] <= 1 && bytes[3] <= 1 && bytes[4] <= 1 && bytes[11] <= 1 && bytes[18] <= 1 && bytes[19] <= 1 {
        Some(
            PpuState {
                ctrl: bytes[0],
                mask: bytes[1],
                vbl: bytes[2] == 1,
                sprite0_hit: bytes[3] == 1,
                overflow: bytes[4] == 1,
                oam_addr: bytes[5],
                scroll: Scroll {
                    v: word_of(bytes[6], bytes[7]),
                    t: word_of(bytes[8], bytes[9]),
                    x: bytes[10],
                    w: bytes[11] == 1,
                },
                read_buffer: bytes[12],
                open_bus: bytes[13],
                scanline: (word_of(bytes[14], bytes[15]) - 0x8000) as i16,
                dot: word_of(bytes[16], bytes[17]),
                odd_frame: bytes[18] == 1,
                suppress_vbl: bytes[19] == 1,
            },
        )
    } else {
        None
    }
}

pub fn save_ppu_state(state: &PpuState) -> (out: Vec<u8>)
    ensures
        out@ == ppu_state_saved(*state),
{
    let mut out: Vec<u8> = Vec::new();
    out.push(state.ctrl);
    out.push(state.mask);
    out.push(byte_of_bool(state.vbl));
    out.push(byte_of_bool(state.sprite0_hit));
    out.push(byte_of_bool(state.overflow));
    out.push(state.oam_addr);
    out.push((state.scroll.v % 256) as u8);
    out.push((state.scroll.v / 256) as u8);
    out.push((state.scroll.t % 256) as u8);
    out.push((state.scroll.t / 256) as u8);
    out.push(state.scroll.x);
    out.push(byte_of_bool(state.scroll.w));
    out.push(state.read_buffer);
    out.push(state.open_bus);
    out.push((((state.scanline as i32) + 0x8000) % 256) as u8);
    out.push((((state.scanline as i32) + 0x8000) / 256) as u8);
    out.push((state.dot % 256) as u8);
    out.push((state.dot / 256) as u8);
    out.push(byte_of_bool(state.odd_frame));
    out.push(byte_of_bool(state.suppress_vbl));
    proof {
        assert(out@ =~= ppu_state_saved(*state));
    }
    out
}

pub fn restore_ppu_state(bytes: &Vec<u8>) -> (r: Option<PpuState>)
    ensures
        r == ppu_state_restored(bytes@),
{
    if bytes.len() != PPU_STATE_SIZE {
        return None;
    }
    if !(bytes[2] <= 1 && bytes[3] <= 1 && bytes[4] <= 1 && bytes[11] <= 1 && bytes[18] <= 1 && bytes[19] <= 1) {
        return None;
    }
    Some(
        PpuState {
            ctrl: bytes[0],
            mask: bytes[1],
            vbl: bytes[2] == 1,
            sprite0_hit: bytes[3] == 1,
            overflow: bytes[4] == 1,
            oam_addr: bytes[5],
            scroll: Scroll {
                v: make_word(bytes[6], bytes[7]),
                t: make_word(bytes[8], bytes[9]),
                x: bytes[10],
                w: bytes[11] == 1,
            },
            read_buffer: bytes[12],
            open_bus: bytes[13],
            scanline: ((make_word(bytes[14], bytes[15]) as i32) - 0x8000) as i16,
            dot: make_word(bytes[16], bytes[17]),
            odd_frame: bytes[18] == 1,
            suppress_vbl: bytes[19] == 1,
        },
    )
}

/// What was saved of the picture unit's registers is what is restored.
pub proof fn lemma_ppu_state_round_trip(state: PpuState)
    ensures
        ppu_state_restored(ppu_state_saved(state)) == Some(state),
        ppu_state_saved(state).len() == PPU_STATE_SIZE,
{
}

/// The number of bytes that stand for the background pipeline.
pub const BACKGROUND_SIZE: usize = 12;

/// The bytes that stand for the background pipeline: its fields in order, two bytes, lowest
/// first, for those of 16 bits.
pub open spec fn background_saved(background: Background) -> Seq<u8> {
    seq![
        background.nametable_byte,
        background.attribute_bits,
        background.pattern_low,
        background.pattern_high,
        (background.shift_low % 256) as u8,
        (background.shift_low / 256) as u8,
        (background.shift_high % 256) as u8,
        (background.shift_high / 256) as u8,
        background.attribute_shift_low,
        background.attribute_shift_high,
        bool_byte(background.attribute_latch_low),
        bool_byte(background.attribute_latch_high),
    ]
}

/// What `bytes` stands for, if it stands for the background pipeline.
pub open spec fn background_restored(bytes: Seq<u8>) -> Option<Background> {
    if bytes.len() == BACKGROUND_SIZE && bytes[10] <= 1 && bytes[11] <= 1 {
        Some(
            Background {
                nametable_byte: bytes[0],
                attribute_bits: bytes[1],
                pattern_low: bytes[2],
                pattern_high: bytes[3],
                shift_low: word_of(bytes[4], bytes[5]),
                shift_high: word_of(bytes[6], bytes[7]),
                attribute_shift_low: bytes[8],
                attribute_shift_high: bytes[9],
                attribute_latch_low: bytes[10] == 1,
                attribute_latch_high: bytes[11] == 1,
            },
        )
    } else {
        None
    }
}

pub fn save_background(background: &Background) -> (out: Vec<u8>)
    ensures
        out@ == background_saved(*background),
{
    let mut out: Vec<u8> = Vec::new();
    out.push(background.nametable_byte);
    out.push(background.attribute_bits);
    out.push(background.pattern_low);
    out.push(background.pattern_high);
    out.push((background.shift_low % 256) as u8);
    out.push((background.shift_low / 256) as u8);
    out.push((background.shift_high % 256) as u8);
    out.push((background.shift_high / 256) as u8);
    out.push(background.attribute_shift_low);
    out.push(background.attribute_shift_high);
    out.push(byte_of_bool(background.attribute_latch_low));
    out.push(byte_of_bool(background.attribute_latch_high));
    proof {
        assert(out@ =~= background_saved(*background));
    }
    out
}

pub fn restore_background(bytes: &Vec<u8>) -> (r: Option<Background>)
    ensures
        r == background_restored(bytes@),
{
    if bytes.len() != BACKGROUND_SIZE {
        return None;
    }
    if !(bytes[10] <= 1 && bytes[11] <= 1) {
        return None;
    }
    Some(
        Background {
            nametable_byte: bytes[0],
            attribute_bits: bytes[1],
            pattern_low: bytes[2],
            pattern_high: bytes[3],
            shift_low: make_word(bytes[4], bytes[5]),
            shift_high: make_word(bytes[6], bytes[7]),
            attribute_shift_low: bytes[8],
            attribute_shift_high: bytes[9],
            attribute_latch_low: bytes[10] == 1,
            attribute_latch_high: bytes[11] == 1,
        },
    )
}

/// What was saved of the background pipeline is what is restored.
pub proof fn lemma_background_round_trip(background: Background)
    ensures
        background_restored(background_saved(background)) == Some(background),
        background_saved(background).len() == BACKGROUND_SIZE,
{
}

/// The number of bytes that stand for sprite evaluation.
pub const EVALUATION_SIZE: usize = 8;

/// The bytes that stand for sprite evaluation: its fields in order, two bytes, lowest
/// first, for those of 16 bits.
pub open spec fn evaluation_saved(evaluation: SpriteEvaluation) -> Seq<u8> {
    seq![
        evaluation.oam_latch,
        evaluation.n,
        evaluation.m,
        evaluation.found,
        bool_byte(evaluation.done),
        bool_byte(evaluation.sprite0_next),
        evaluation.sprite_count,
        bool_byte(evaluation.sprite0_current),
    ]
}

/// What `bytes` stands for, if it stands for sprite evaluation.
pub open spec fn evaluation_restored(bytes: Seq<u8>) -> Option<SpriteEvaluation> {
    if bytes.len() == EVALUATION_SIZE && bytes[4] <= 1 && bytes[5] <= 1 && bytes[7] <= 1 {
        Some(
            SpriteEvaluation {
                oam_latch: bytes[0],
                n: bytes[1],
                m: bytes[2],
                found: bytes[3],
                done: bytes[4] == 1,
                sprite0_next: bytes[5] == 1,
                sprite_count: bytes[6],
                sprite0_current: bytes[7] == 1,
            },
        )
    } else {
        None
    }
}

pub fn save_evaluation(evaluation: &SpriteEvaluation) -> (out: Vec<u8>)
    ensures
        out@ == evaluation_saved(*evaluation),
{
    let mut out: Vec<u8> = Vec::new();
    out.push(evaluation.oam_latch);
    out.push(evaluation.n);
    out.push(evaluation.m);
    out.push(evaluation.found);
    out.push(byte_of_bool(evaluation.done));
    out.push(byte_of_bool(evaluation.sprite0_next));
    out.push(evaluation.sprite_count);
    out.push(byte_of_bool(evaluation.sprite0_current));
    proof {
        assert(out@ =~= evaluation_saved(*evaluation));
    }
    out
}

pub fn restore_evaluation(bytes: &Vec<u8>) -> (r: Option<SpriteEvaluation>)
    ensures
        r == evaluation_restored(bytes@),
{
    if bytes.len() != EVALUATION_SIZE {
        return None;
    }
    if !(bytes[4] <= 1 && bytes[5] <= 1 && bytes[7] <= 1) {
        return None;
    }
    Some(
        SpriteEvaluation {
            oam_latch: bytes[0],
            n: bytes[1],
            m: bytes[2],
            found: bytes[3],
            done: bytes[4] == 1,
            sprite0_next: bytes[5] == 1,
            sprite_count: bytes[6],
            sprite0_current: bytes[7] == 1,
        },
    )
}

/// What was saved of sprite evaluation is what is restored.
pub proof fn lemma_evaluation_round_trip(evaluation: SpriteEvaluation)
    ensures
        evaluation_restored(evaluation_saved(evaluation)) == Some(evaluation),
        evaluation_saved(evaluation).len() == EVALUATION_SIZE,
{
}

} // verus!
