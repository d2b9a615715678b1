//! The bytes that stand for the audio unit in a saved state.

use super::bytes::{
    bool_byte, byte_of_bool, byte_of_option, make_option, make_word, option_byte, option_of,
    word_of,
};
use super::codec::{
    join, joined, lemma_joined_bound, lemma_split_joined, read_sections, split, views, writable,
};
use crate::apu::dmc::DMC;
use crate::apu::envelope::EnvelopeDao;
use crate::apu::frame_counter::FrameCounter;
use crate::apu::length_counter::LengthCounterDao;
use crate::apu::noise::Noise;
use crate::apu::pulse::Pulse;
use crate::apu::timer::TimerDao;
use crate::apu::triangle::Triangle;
use crate::apu::Core;
use vstd::prelude::*;

verus! {

/// An envelope with nothing in it.
pub open spec fn envelope_blank() -> EnvelopeDao {
    EnvelopeDao { enabled: false, start: false, period: 0, divider: 0, counter: 0 }
}

/// A length counter with nothing in it.
pub open spec fn length_counter_blank() -> LengthCounterDao {
    LengthCounterDao {
        enabled: false,
        halt: false,
        new_halt: false,
        value: 0,
        prev_value: 0,
        reload_value: 0,
    }
}

/// A timer with nothing in it.
pub open spec fn timer_blank() -> TimerDao {
    TimerDao { period: 0, value: 0 }
}

/// The number of bytes that stand for an envelope.
pub const ENVELOPE_SIZE: usize = 5;

/// The bytes that stand for an envelope: its fields in order, two bytes, lowest
/// first, for those of 16 bits.
pub open spec fn envelope_saved(envelope: EnvelopeDao) -> Seq<u8> {
    seq![
        bool_byte(envelope.enabled),
        bool_byte(envelope.start),
        envelope.period,
        envelope.divider,
        envelope.counter,
    ]
}

/// What `bytes` stands for, if it stands for an envelope.
pub open spec fn envelope_restored(bytes: Seq<u8>) -> Option<EnvelopeDao> {
    if bytes.len() == ENVELOPE_SIZE && bytes[0] <= 1 && bytes[1] <= 1 {
        Some(
            EnvelopeDao {
                enabled: bytes[0] == 1,
                start: bytes[1] == 1,
                period: bytes[2],
                divider: bytes[3],
                counter: bytes[4],
            },
        )
    } else {
        None
    }
}

pub fn save_envelope(envelope: &EnvelopeDao) -> (out: Vec<u8>)
    ensures
        out@ == envelope_saved(*envelope),
{
    let mut out: Vec<u8> = Vec::new();
    out.push(byte_of_bool(envelope.enabled));
    out.push(byte_of_bool(envelope.start));
    out.push(envelope.period);
    out.push(envelope.divider);
    out.push(envelope.counter);
    proof {
        assert(out@ =~= envelope_saved(*envelope));
    }
    out
}

pub fn restore_envelope(bytes: &Vec<u8>) -> (r: Option<EnvelopeDao>)
    ensures
        r == envelope_restored(bytes@),
{
    if bytes.len() != ENVELOPE_SIZE {
        return None;
    }
    if !(bytes[0] <= 1 && bytes[1] <= 1) {
        return None;
    }
    Some(
        EnvelopeDao {
            enabled: bytes[0] == 1,
            start: bytes[1] == 1,
            period: bytes[2],
            divider: bytes[3],
            counter: bytes[4],
        },
    )
}

/// What was saved of an envelope is what is restored.
pub proof fn lemma_envelope_round_trip(envelope: EnvelopeDao)
    ensures
        envelope_restored(envelope_saved(envelope)) == Some(envelope),
        envelope_saved(envelope).len() == ENVELOPE_SIZE,
{
}

/// The number of bytes that stand for a length counter.
pub const LENGTH_COUNTER_SIZE: usize = 6;

/// The bytes that stand for a length counter: its fields in order, two bytes, lowest
/// first, for those of 16 bits.
pub open spec fn length_counter_saved(counter: LengthCounterDao) -> Seq<u8> {
    seq![
        bool_byte(counter.enabled),
        bool_byte(counter.halt),
        bool_byte(counter.new_halt),
        counter.value,
        counter.prev_value,
        counter.reload_value,
    ]
}

/// What `bytes` stands for, if it stands for a length counter.
pub open spec fn length_counter_restored(bytes: Seq<u8>) -> Option<LengthCounterDao> {
    if bytes.len() == LENGTH_COUNTER_SIZE && bytes[0] <= 1 && bytes[1] <= 1 && bytes[2] <= 1 {
        Some(
            LengthCounterDao {
                enabled: bytes[0] == 1,
                halt: bytes[1] == 1,
                new_halt: bytes[2] == 1,
                value: bytes[3],
                prev_value: bytes[4],
                reload_value: bytes[5],
            },
        )
    } else {
        None
    }
}

pub fn save_length_counter(counter: &LengthCounterDao) -> (out: Vec<u8>)
    ensures
        out@ == length_counter_saved(*counter),
{
    let mut out: Vec<u8> = Vec::new();
    out.push(byte_of_bool(counter.enabled));
    out.push(byte_of_bool(counter.halt));
    out.push(byte_of_bool(counter.new_halt));
    out.push(counter.value);
    out.push(counter.prev_value);
    out.push(counter.reload_value);
    proof {
        assert(out@ =~= length_counter_saved(*counter));
    }
    out
}

pub fn restore_length_counter(bytes: &Vec<u8>) -> (r: Option<LengthCounterDao>)
    ensures
        r == length_counter_restored(bytes@),
{
    if bytes.len() != LENGTH_COUNTER_SIZE {
        return None;
    }
    if !(bytes[0] <= 1 && bytes[1] <= 1 && bytes[2] <= 1) {
        return None;
    }
    Some(
        LengthCounterDao {
            enabled: bytes[0] == 1,
            halt: bytes[1] == 1,
            new_halt: bytes[2] == 1,
            value: bytes[3],
            prev_value: bytes[4],
            reload_value: bytes[5],
        },
    )
}

/// What was saved of a length counter is what is restored.
pub proof fn lemma_length_counter_round_trip(counter: LengthCounterDao)
    ensures
        length_counter_restored(length_counter_saved(counter)) == Some(counter),
        length_counter_saved(counter).len() == LENGTH_COUNTER_SIZE,
{
}

/// The number of bytes that stand for a timer.
pub const TIMER_SIZE: usize = 4;

/// The bytes that stand for a timer: its fields in order, two bytes, lowest
/// first, for those of 16 bits.
pub open spec fn timer_saved(timer: TimerDao) -> Seq<u8> {
    seq![
        (timer.period % 256) as u8,
        (timer.period / 256) as u8,
        (timer.value % 256) as u8,
        (timer.value / 256) as u8,
    ]
}

/// What `bytes` stands for, if it stands for a timer.
pub open spec fn timer_restored(bytes: Seq<u8>) -> Option<TimerDao> {
    if bytes.len() == TIMER_SIZE {
        Some(
            TimerDao {
                period: word_of(bytes[0], bytes[1]),
                value: word_of(bytes[2], bytes[3]),
            },
        )
    } else {
        None
    }
}

pub fn save_timer(timer: &TimerDao) -> (out: Vec<u8>)
    ensures
        out@ == timer_saved(*timer),
{
    let mut out: Vec<u8> = Vec::new();
    out.push((timer.period % 256) as u8);
    out.push((timer.period / 256) as u8);
    out.push((timer.value % 256) as u8);
    out.push((timer.value / 256) as u8);
    proof {
        assert(out@ =~= timer_saved(*timer));
    }
    out
}

pub fn restore_timer(bytes: &Vec<u8>) -> (r: Option<TimerDao>)
    ensures
        r == timer_restored(bytes@),
{
    if bytes.len() != TIMER_SIZE {
        return None;
    }
    Some(
        TimerDao {
            period: make_word(bytes[0], bytes[1]),
            value: make_word(bytes[2], bytes[3]),
        },
    )
}

/// What was saved of a timer is what is restored.
pub proof fn lemma_timer_round_trip(timer: TimerDao)
    ensures
        timer_restored(timer_saved(timer)) == Some(timer),
        timer_saved(timer).len() == TIMER_SIZE,
{
}

/// The number of bytes that stand for a pulse channel's own registers.
pub const PULSE_OWN_SIZE: usize = 13;

/// The bytes that stand for a pulse channel's own registers: its fields in order, two bytes, lowest
/// first, for those of 16 bits.
pub open spec fn pulse_own_saved(pulse: Pulse) -> Seq<u8> {
    seq![
        bool_byte(pulse.is_first_channel),
        pulse.duty_mode,
        pulse.duty_value,
        bool_byte(pulse.sweep_reload),
        bool_byte(pulse.sweep_enabled),
        bool_byte(pulse.sweep_negate),
        pulse.sweep_shift,
        pulse.sweep_period,
        pulse.sweep_value,
        (pulse.sweep_target_period % 256) as u8,
        (pulse.sweep_target_period / 256) as u8,
        (pulse.period % 256) as u8,
        (pulse.period / 256) as u8,
    ]
}

/// What `bytes` stands for, if it stands for a pulse channel's own registers.
pub open spec fn pulse_own_restored(bytes: Seq<u8>) -> Option<Pulse> {
    if bytes.len() == PULSE_OWN_SIZE && bytes[0] <= 1 && bytes[3] <= 1 && bytes[4] <= 1 && bytes[5] <= 1 {
        Some(
            Pulse {
                is_first_channel: bytes[0] == 1,
                duty_mode: bytes[1],
                duty_value: bytes[2],
                sweep_reload: bytes[3] == 1,
                sweep_enabled: bytes[4] == 1,
                sweep_negate: bytes[5] == 1,
                sweep_shift: bytes[6],
                sweep_period: bytes[7],
                sweep_value: bytes[8],
                sweep_target_period: word_of(bytes[9], bytes[10]),
                period: word_of(bytes[11], bytes[12]),
                envelope: envelope_blank(),
                length_counter: length_counter_blank(),
                timer: timer_blank(),
            },
        )
    } else {
        None
    }
}

pub fn save_pulse_own(pulse: &Pulse) -> (out: Vec<u8>)
    ensures
        out@ == pulse_own_saved(*pulse),
{
    let mut out: Vec<u8> = Vec::new();
    out.push(byte_of_bool(pulse.is_first_channel));
    out.push(pulse.duty_mode);
    out.push(pulse.duty_value);
    out.push(byte_of_bool(pulse.sweep_reload));
    out.push(byte_of_bool(pulse.sweep_enabled));
    out.push(byte_of_bool(pulse.sweep_negate));
    out.push(pulse.sweep_shift);
    out.push(pulse.sweep_period);
    out.push(pulse.sweep_value);
    out.push((pulse.sweep_target_period % 256) as u8);
    out.push((pulse.sweep_target_period / 256) as u8);
    out.push((pulse.period % 256) as u8);
    out.push((pulse.period / 256) as u8);
    proof {
        assert(out@ =~= pulse_own_saved(*pulse));
    }
    out
}

pub fn restore_pulse_own(bytes: &Vec<u8>) -> (r: Option<Pulse>)
    ensures
        r == pulse_own_restored(bytes@),
{
    if bytes.len() != PULSE_OWN_SIZE {
        return None;
    }
    if !(bytes[0] <= 1 && bytes[3] <= 1 && bytes[4] <= 1 && bytes[5] <= 1) {
        return None;
    }
    Some(
        Pulse {
            is_first_channel: bytes[0] == 1,
            duty_mode: bytes[1],
            duty_value: bytes[2],
            sweep_reload: bytes[3] == 1,
            sweep_enabled: bytes[4] == 1,
            sweep_negate: bytes[5] == 1,
            sweep_shift: bytes[6],
            sweep_period: bytes[7],
            sweep_value: bytes[8],
            sweep_target_period: make_word(bytes[9], bytes[10]),
            period: make_word(bytes[11], bytes[12]),
            envelope: EnvelopeDao::new(),
            length_counter: LengthCounterDao::new(),
            timer: TimerDao::new(),
        },
    )
}

/// What was saved of a pulse channel's own registers is what is restored.
pub proof fn lemma_pulse_own_round_trip(pulse: Pulse)
    ensures
        pulse_own_restored(pulse_own_saved(pulse)) == Some((Pulse { envelope: envelope_blank(), length_counter: length_counter_blank(), timer: timer_blank(), ..pulse })),
        pulse_own_saved(pulse).len() == PULSE_OWN_SIZE,
{
}

/// An upper bound of the number of bytes that stand for a pulse channel.
pub const PULSE_BOUND: usize = 68;

/// The sections that stand for a pulse channel, in order.
pub open spec fn pulse_sections(pulse: Pulse) -> Seq<Seq<u8>> {
    seq![
        pulse_own_saved(pulse),
        envelope_saved(pulse.envelope),
        length_counter_saved(pulse.length_counter),
        timer_saved(pulse.timer),
    ]
}

/// The bytes that stand for a pulse channel: its sections, one after the other.
#[verifier::opaque]
pub open spec fn pulse_saved(pulse: Pulse) -> Seq<u8> {
    joined(pulse_sections(pulse))
}

/// What `bytes` stands for, if it stands for a pulse channel.
#[verifier::opaque]
pub open spec fn pulse_restored(bytes: Seq<u8>) -> Option<Pulse> {
    match split(bytes, 0, 4) {
        Some((sections, end)) => {
            if end == bytes.len() && pulse_own_restored(sections[0]).is_some() && envelope_restored(sections[1]).is_some() && length_counter_restored(sections[2]).is_some() && timer_restored(sections[3]).is_some() {
                Some(
                    Pulse {
                        envelope: envelope_restored(sections[1]).unwrap(),
                        length_counter: length_counter_restored(sections[2]).unwrap(),
                        timer: timer_restored(sections[3]).unwrap(),
                        ..pulse_own_restored(sections[0]).unwrap()
                    },
                )
            } else {
                None
            }
        },
        None => None,
    }
}

pub fn save_pulse(pulse: &Pulse) -> (out: Vec<u8>)
    ensures
        out@ == pulse_saved(*pulse),
        out@.len() <= PULSE_BOUND,
{
    reveal(pulse_saved);
    let mut sections: Vec<Vec<u8>> = Vec::new();
    sections.push(save_pulse_own(pulse));
    sections.push(save_envelope(&pulse.envelope));
    sections.push(save_length_counter(&pulse.length_counter));
    sections.push(save_timer(&pulse.timer));
    proof {
        assert(views(sections@) =~= pulse_sections(*pulse));
        lemma_pulse_round_trip(*pulse);
    }
    join(&sections)
}

pub fn restore_pulse(bytes: &Vec<u8>) -> (r: Option<Pulse>)
    ensures
        r == pulse_restored(bytes@),
{
    reveal(pulse_restored);
    let (sections, end) = match read_sections(bytes, 0, 4) {
        Some(found) => found,
        None => {
            return None;
        },
    };
    if end != bytes.len() {
        return None;
    }
    assert(views(sections@)[0] == sections@[0]@);
    let own = match restore_pulse_own(&sections[0]) {
        Some(part) => part,
        None => {
            return None;
        },
    };
    assert(views(sections@)[1] == sections@[1]@);
    let envelope = match restore_envelope(&sections[1]) {
        Some(part) => part,
        None => {
            return None;
        },
    };
    assert(views(sections@)[2] == sections@[2]@);
    let length_counter = match restore_length_counter(&sections[2]) {
        Some(part) => part,
        None => {
            return None;
        },
    };
    assert(views(sections@)[3] == sections@[3]@);
    let timer = match restore_timer(&sections[3]) {
        Some(part) => part,
        None => {
            return None;
        },
    };
    Some(
        Pulse {
            envelope: envelope,
            length_counter: length_counter,
            timer: timer,
            ..own
        },
    )
}

/// What was saved of a pulse channel is what is restored.
pub proof fn lemma_pulse_round_trip(pulse: Pulse)
    ensures
        pulse_restored(pulse_saved(pulse)) == Some(pulse),
        pulse_saved(pulse).len() <= PULSE_BOUND,
        writable(pulse_sections(pulse)),
{
    reveal(pulse_saved);
    reveal(pulse_restored);
    let sections = pulse_sections(pulse);
    lemma_pulse_own_round_trip(pulse);
    lemma_envelope_round_trip(pulse.envelope);
    lemma_length_counter_round_trip(pulse.length_counter);
    lemma_timer_round_trip(pulse.timer);
    assert(forall|i: int| 0 <= i < sections.len() ==> (#[trigger] sections[i]).len() <= 13);
    lemma_joined_bound(sections, 13);
    assert(sections.len() * (13 + 4) == 68) by (nonlinear_arith)
        requires
            sections.len() == 4,
    ;
    lemma_split_joined(Seq::empty(), sections);
    assert(Seq::<u8>::empty() + joined(sections) =~= joined(sections));
}

/// The number of bytes that stand for the triangle channel's own registers.
pub const TRIANGLE_OWN_SIZE: usize = 7;

/// The bytes that stand for the triangle channel's own registers: its fields in order, two bytes, lowest
/// first, for those of 16 bits.
pub open spec fn triangle_own_saved(triangle: Triangle) -> Seq<u8> {
    seq![
        bool_byte(triangle.control),
        bool_byte(triangle.reload),
        triangle.reload_value,
        triangle.counter,
        triangle.position,
        (triangle.period % 256) as u8,
        (triangle.period / 256) as u8,
    ]
}

/// What `bytes` stands for, if it stands for the triangle channel's own registers.
pub open spec fn triangle_own_restored(bytes: Seq<u8>) -> Option<Triangle> {
    if bytes.len() == TRIANGLE_OWN_SIZE && bytes[0] <= 1 && bytes[1] <= 1 {
        Some(
            Triangle {
                control: bytes[0] == 1,
                reload: bytes[1] == 1,
                reload_value: bytes[2],
                counter: bytes[3],
                position: bytes[4],
                period: word_of(bytes[5], bytes[6]),
                length_counter: length_counter_blank(),
                timer: timer_blank(),
            },
        )
    } else {
        None
    }
}

pub fn save_triangle_own(triangle: &Triangle) -> (out: Vec<u8>)
    ensures
        out@ == triangle_own_saved(*triangle),
{
    let mut out: Vec<u8> = Vec::new();
    out.push(byte_of_bool(triangle.control));
    out.push(byte_of_bool(triangle.reload));
    out.push(triangle.reload_value);
    out.push(triangle.counter);
    out.push(triangle.position);
    out.push((triangle.period % 256) as u8);
    out.push((triangle.period / 256) as u8);
    proof {
        assert(out@ =~= triangle_own_saved(*triangle));
    }
    out
}

pub fn restore_triangle_own(bytes: &Vec<u8>) -> (r: Option<Triangle>)
    ensures
        r == triangle_own_restored(bytes@),
{
    if bytes.len() != TRIANGLE_OWN_SIZE {
        return None;
    }
    if !(bytes[0] <= 1 && bytes[1] <= 1) {
        return None;
    }
    Some(
        Triangle {
            control: bytes[0] == 1,
            reload: bytes[1] == 1,
            reload_value: bytes[2],
            counter: bytes[3],
            position: bytes[4],
            period: make_word(bytes[5], bytes[6]),
            length_counter: LengthCounterDao::new(),
            timer: TimerDao::new(),
        },
    )
}

/// What was saved of the triangle channel's own registers is what is restored.
pub proof fn lemma_triangle_own_round_trip(triangle: Triangle)
    ensures
        triangle_own_restored(triangle_own_saved(triangle)) == Some((Triangle { length_counter: length_counter_blank(), timer: timer_blank(), ..triangle })),
        triangle_own_saved(triangle).len() == TRIANGLE_OWN_SIZE,
{
}

/// An upper bound of the number of bytes that stand for the triangle channel.
pub const TRIANGLE_BOUND: usize = 33;

/// The sections that stand for the triangle channel, in order.
pub open spec fn triangle_sections(triangle: Triangle) -> Seq<Seq<u8>> {
    seq![
        triangle_own_saved(triangle),
        length_counter_saved(triangle.length_counter),
        timer_saved(triangle.timer),
    ]
}

/// The bytes that stand for the triangle channel: its sections, one after the other.
#[verifier::opaque]
pub open spec fn triangle_saved(triangle: Triangle) -> Seq<u8> {
    joined(triangle_sections(triangle))
}

/// What `bytes` stands for, if it stands for the triangle channel.
#[verifier::opaque]
pub open spec fn triangle_restored(bytes: Seq<u8>) -> Option<Triangle> {
    match split(bytes, 0, 3) {
        Some((sections, end)) => {
            if end == bytes.len() && triangle_own_restored(sections[0]).is_some() && length_counter_restored(sections[1]).is_some() && timer_restored(sections[2]).is_some() {
                Some(
                    Triangle {
                        length_counter: length_counter_restored(sections[1]).unwrap(),
                        timer: timer_restored(sections[2]).unwrap(),
                        ..triangle_own_restored(sections[0]).unwrap()
                    },
                )
            } else {
                None
            }
        },
        None => None,
    }
}

pub fn save_triangle(triangle: &Triangle) -> (out: Vec<u8>)
    ensures
        out@ == triangle_saved(*triangle),
        out@.len() <= TRIANGLE_BOUND,
{
    reveal(triangle_saved);
    let mut sections: Vec<Vec<u8>> = Vec::new();
    sections.push(save_triangle_own(triangle));
    sections.push(save_length_counter(&triangle.length_counter));
    sections.push(save_timer(&triangle.timer));
    proof {
        assert(views(sections@) =~= triangle_sections(*triangle));
        lemma_triangle_round_trip(*triangle);
    }
    join(&sections)
}

pub fn restore_triangle(bytes: &Vec<u8>) -> (r: Option<Triangle>)
    ensures
        r == triangle_restored(bytes@),
{
    reveal(triangle_restored);
    let (sections, end) = match read_sections(bytes, 0, 3) {
        Some(found) => found,
        None => {
            return None;
        },
    };
    if end != bytes.len() {
        return None;
    }
    assert(views(sections@)[0] == sections@[0]@);
    let own = match restore_triangle_own(&sections[0]) {
        Some(part) => part,
        None => {
            return None;
        },
    };
    assert(views(sections@)[1] == sections@[1]@);
    let length_counter = match restore_length_counter(&sections[1]) {
        Some(part) => part,
        None => {
            return None;
        },
    };
    assert(views(sections@)[2] == sections@[2]@);
    let timer = match restore_timer(&sections[2]) {
        Some(part) => part,
        None => {
            return None;
        },
    };
    Some(
        Triangle {
            length_counter: length_counter,
            timer: timer,
            ..own
        },
    )
}

/// What was saved of the triangle channel is what is restored.
pub proof fn lemma_triangle_round_trip(triangle: Triangle)
    ensures
        triangle_restored(triangle_saved(triangle)) == Some(triangle),
        triangle_saved(triangle).len() <= TRIANGLE_BOUND,
        writable(triangle_sections(triangle)),
{
    reveal(triangle_saved);
    reveal(triangle_restored);
    let sections = triangle_sections(triangle);
    lemma_triangle_own_round_trip(triangle);
    lemma_length_counter_round_trip(triangle.length_counter);
    lemma_timer_round_trip(triangle.timer);
    assert(forall|i: int| 0 <= i < sections.len() ==> (#[trigger] sections[i]).len() <= 7);
    lemma_joined_bound(sections, 7);
    assert(sections.len() * (7 + 4) == 33) by (nonlinear_arith)
        requires
            sections.len() == 3,
    ;
    lemma_split_joined(Seq::empty(), sections);
    assert(Seq::<u8>::empty() + joined(sections) =~= joined(sections));
}

/// The number of bytes that stand for the noise channel's own registers.
pub const NOISE_OWN_SIZE: usize = 3;

/// The bytes that stand for the noise channel's own registers: its fields in order, two bytes, lowest
/// first, for those of 16 bits.
pub open spec fn noise_own_saved(noise: Noise) -> Seq<u8> {
    seq![
        bool_byte(noise.mode),
        (noise.shift_register % 256) as u8,
        (noise.shift_register / 256) as u8,
    ]
}

/// What `bytes` stands for, if it stands for the noise channel's own registers.
pub open spec fn noise_own_restored(bytes: Seq<u8>) -> Option<Noise> {
    if bytes.len() == NOISE_OWN_SIZE && bytes[0] <= 1 {
        Some(
            Noise {
                mode: bytes[0] == 1,
                shift_register: word_of(bytes[1], bytes[2]),
                envelope: envelope_blank(),
                length_counter: length_counter_blank(),
                timer: timer_blank(),
            },
        )
    } else {
        None
    }
}

pub fn save_noise_own(noise: &Noise) -> (out: Vec<u8>)
    ensures
        out@ == noise_own_saved(*noise),
{
    let mut out: Vec<u8> = Vec::new();
    out.push(byte_of_bool(noise.mode));
    out.push((noise.shift_register % 256) as u8);
    out.push((noise.shift_register / 256) as u8);
    proof {
        assert(out@ =~= noise_own_saved(*noise));
    }
    out
}

pub fn restore_noise_own(bytes: &Vec<u8>) -> (r: Option<Noise>)
    ensures
        r == noise_own_restored(bytes@),
{
    if bytes.len() != NOISE_OWN_SIZE {
        return None;
    }
    if !(bytes[0] <= 1) {
        return None;
    }
    Some(
        Noise {
            mode: bytes[0] == 1,
            shift_register: make_word(bytes[1], bytes[2]),
            envelope: EnvelopeDao::new(),
            length_counter: LengthCounterDao::new(),
            timer: TimerDao::new(),
        },
    )
}

/// What was saved of the noise channel's own registers is what is restored.
pub proof fn lemma_noise_own_round_trip(noise: Noise)
    ensures
        noise_own_restored(noise_own_saved(noise)) == Some((Noise { envelope: envelope_blank(), length_counter: length_counter_blank(), timer: timer_blank(), ..noise })),
        noise_own_saved(noise).len() == NOISE_OWN_SIZE,
{
}

/// An upper bound of the number of bytes that stand for the noise channel.
pub const NOISE_BOUND: usize = 40;

/// The sections that stand for the noise channel, in order.
pub open spec fn noise_sections(noise: Noise) -> Seq<Seq<u8>> {
    seq![
        noise_own_saved(noise),
        envelope_saved(noise.envelope),
        length_counter_saved(noise.length_counter),
        timer_saved(noise.timer),
    ]
}

/// The bytes that stand for the noise channel: its sections, one after the other.
#[verifier::opaque]
pub open spec fn noise_saved(noise: Noise) -> Seq<u8> {
    joined(noise_sections(noise))
}

/// What `bytes` stands for, if it stands for the noise channel.
#[verifier::opaque]
pub open spec fn noise_restored(bytes: Seq<u8>) -> Option<Noise> {
    match split(bytes, 0, 4) {
        Some((sections, end)) => {
            if end == bytes.len() && noise_own_restored(sections[0]).is_some() && envelope_restored(sections[1]).is_some() && length_counter_restored(sections[2]).is_some() && timer_restored(sections[3]).is_some() {
                Some(
                    Noise {
                        envelope: envelope_restored(sections[1]).unwrap(),
                        length_counter: length_counter_restored(sections[2]).unwrap(),
                        timer: timer_restored(sections[3]).unwrap(),
                        ..noise_own_restored(sections[0]).unwrap()
                    },
                )
            } else {
                None
            }
        },
        None => None,
    }
}

pub fn save_noise(noise: &Noise) -> (out: Vec<u8>)
    ensures
        out@ == noise_saved(*noise),
        out@.len() <= NOISE_BOUND,
{
    reveal(noise_saved);
    let mut sections: Vec<Vec<u8>> = Vec::new();
    sections.push(save_noise_own(noise));
    sections.push(save_envelope(&noise.envelope));
    sections.push(save_length_counter(&noise.length_counter));
    sections.push(save_timer(&noise.timer));
    proof {
        assert(views(sections@) =~= noise_sections(*noise));
        lemma_noise_round_trip(*noise);
    }
    join(&sections)
}

pub fn restore_noise(bytes: &Vec<u8>) -> (r: Option<Noise>)
    ensures
        r == noise_restored(bytes@),
{
    reveal(noise_restored);
    let (sections, end) = match read_sections(bytes, 0, 4) {
        Some(found) => found,
        None => {
            return None;
        },
    };
    if end != bytes.len() {
        return None;
    }
    assert(views(sections@)[0] == sections@[0]@);
    let own = match restore_noise_own(&sections[0]) {
        Some(part) => part,
        None => {
            return None;
        },
    };
    assert(views(sections@)[1] == sections@[1]@);
    let envelope = match restore_envelope(&sections[1]) {
        Some(part) => part,
        None => {
            return None;
        },
    };
    assert(views(sections@)[2] == sections@[2]@);
    let length_counter = match restore_length_counter(&sections[2]) {
        Some(part) => part,
        None => {
            return None;
        },
    };
    assert(views(sections@)[3] == sections@[3]@);
    let timer = match restore_timer(&sections[3]) {
        Some(part) => part,
        None => {
            return None;
        },
    };
    Some(
        Noise {
            envelope: envelope,
            length_counter: length_counter,
            timer: timer,
            ..own
        },
    )
}

/// What was saved of the noise channel is what is restored.
pub proof fn lemma_noise_round_trip(noise: Noise)
    ensures
        noise_restored(noise_saved(noise)) == Some(noise),
        noise_saved(noise).len() <= NOISE_BOUND,
        writable(noise_sections(noise)),
{
    reveal(noise_saved);
    reveal(noise_restored);
    let sections = noise_sections(noise);
    lemma_noise_own_round_trip(noise);
    lemma_envelope_round_trip(noise.envelope);
    lemma_length_counter_round_trip(noise.length_counter);
    lemma_timer_round_trip(noise.timer);
    assert(forall|i: int| 0 <= i < sections.len() ==> (#[trigger] sections[i]).len() <= 6);
    lemma_joined_bound(sections, 6);
    assert(sections.len() * (6 + 4) == 40) by (nonlinear_arith)
        requires
            sections.len() == 4,
    ;
    lemma_split_joined(Seq::empty(), sections);
    assert(Seq::<u8>::empty() + joined(sections) =~= joined(sections));
}

/// The number of bytes that stand for the delta-modulation channel's own registers.
pub const DMC_OWN_SIZE: usize = 16;

/// The bytes that stand for the delta-modulation channel's own registers: its fields in order, two bytes, lowest
/// first, for those of 16 bits.
pub open spec fn dmc_own_saved(dmc: DMC) -> Seq<u8> {
    seq![
        bool_byte(dmc.irq_enabled),
        bool_byte(dmc.looped),
        (dmc.sample_address % 256) as u8,
        (dmc.sample_address / 256) as u8,
        (dmc.sample_length % 256) as u8,
        (dmc.sample_length / 256) as u8,
        (dmc.current_address % 256) as u8,
        (dmc.current_address / 256) as u8,
        (dmc.bytes_remaining % 256) as u8,
        (dmc.bytes_remaining / 256) as u8,
        dmc.level,
        bool_byte(dmc.buffer.is_some()),
        option_byte(dmc.buffer),
        dmc.shift_register,
        dmc.bits_remaining,
        bool_byte(dmc.silence),
    ]
}

/// What `bytes` stands for, if it stands for the delta-modulation channel's own registers.
pub open spec fn dmc_own_restored(bytes: Seq<u8>) -> Option<DMC> {
    if bytes.len() == DMC_OWN_SIZE && bytes[0] <= 1 && bytes[1] <= 1 && bytes[11] <= 1 && bytes[15] <= 1 {
        Some(
            DMC {
                irq_enabled: bytes[0] == 1,
                looped: bytes[1] == 1,
                sample_address: word_of(bytes[2], bytes[3]),
                sample_length: word_of(bytes[4], bytes[5]),
                current_address: word_of(bytes[6], bytes[7]),
                bytes_remaining: word_of(bytes[8], bytes[9]),
                level: bytes[10],
                buffer: option_of(bytes[11], bytes[12]),
                shift_register: bytes[13],
                bits_remaining: bytes[14],
                silence: bytes[15] == 1,
                timer: timer_blank(),
            },
        )
    } else {
        None
    }
}

pub fn save_dmc_own(dmc: &DMC) -> (out: Vec<u8>)
    ensures
        out@ == dmc_own_saved(*dmc),
{
    let mut out: Vec<u8> = Vec::new();
    out.push(byte_of_bool(dmc.irq_enabled));
    out.push(byte_of_bool(dmc.looped));
    out.push((dmc.sample_address % 256) as u8);
    out.push((dmc.sample_address / 256) as u8);
    out.push((dmc.sample_length % 256) as u8);
    out.push((dmc.sample_length / 256) as u8);
    out.push((dmc.current_address % 256) as u8);
    out.push((dmc.current_address / 256) as u8);
    out.push((dmc.bytes_remaining % 256) as u8);
    out.push((dmc.bytes_remaining / 256) as u8);
    out.push(dmc.level);
    out.push(byte_of_bool(dmc.buffer.is_some()));
    out.push(byte_of_option(dmc.buffer));
    out.push(dmc.shift_register);
    out.push(dmc.bits_remaining);
    out.push(byte_of_bool(dmc.silence));
    proof {
        assert(out@ =~= dmc_own_saved(*dmc));
    }
    out
}

pub fn restore_dmc_own(bytes: &Vec<u8>) -> (r: Option<DMC>)
    ensures
        r == dmc_own_restored(bytes@),
{
    if bytes.len() != DMC_OWN_SIZE {
        return None;
    }
    if !(bytes[0] <= 1 && bytes[1] <= 1 && bytes[11] <= 1 && bytes[15] <= 1) {
        return None;
    }
    Some(
        DMC {
            irq_enabled: bytes[0] == 1,
            looped: bytes[1] == 1,
            sample_address: make_word(bytes[2], bytes[3]),
            sample_length: make_word(bytes[4], bytes[5]),
            current_address: make_word(bytes[6], bytes[7]),
            bytes_remaining: make_word(bytes[8], bytes[9]),
            level: bytes[10],
            buffer: make_option(bytes[11], bytes[12]),
            shift_register: bytes[13],
            bits_remaining: bytes[14],
            silence: bytes[15] == 1,
            timer: TimerDao::new(),
        },
    )
}

/// What was saved of the delta-modulation channel's own registers is what is restored.
pub proof fn lemma_dmc_own_round_trip(dmc: DMC)
    ensures
        dmc_own_restored(dmc_own_saved(dmc)) == Some((DMC { timer: timer_blank(), ..dmc })),
        dmc_own_saved(dmc).len() == DMC_OWN_SIZE,
{
}

/// An upper bound of the number of bytes that stand for the delta-modulation channel.
pub const DMC_BOUND: usize = 40;

/// The sections that stand for the delta-modulation channel, in order.
pub open spec fn dmc_sections(dmc: DMC) -> Seq<Seq<u8>> {
    seq![
        dmc_own_saved(dmc),
        timer_saved(dmc.timer),
    ]
}

/// The bytes that stand for the delta-modulation channel: its sections, one after the other.
#[verifier::opaque]
pub open spec fn dmc_saved(dmc: DMC) -> Seq<u8> {
    joined(dmc_sections(dmc))
}

/// What `bytes` stands for, if it stands for the delta-modulation channel.
#[verifier::opaque]
pub open spec fn dmc_restored(bytes: Seq<u8>) -> Option<DMC> {
    match split(bytes, 0, 2) {
        Some((sections, end)) => {
            if end == bytes.len() && dmc_own_restored(sections[0]).is_some() && timer_restored(sections[1]).is_some() {
                Some(
                    DMC {
                        timer: timer_restored(sections[1]).unwrap(),
                        ..dmc_own_restored(sections[0]).unwrap()
                    },
                )
            } else {
                None
            }
        },
        None => None,
    }
}

pub fn save_dmc(dmc: &DMC) -> (out: Vec<u8>)
    ensures
        out@ == dmc_saved(*dmc),
        out@.len() <= DMC_BOUND,
{
    reveal(dmc_saved);
    let mut sections: Vec<Vec<u8>> = Vec::new();
    sections.push(save_dmc_own(dmc));
    sections.push(save_timer(&dmc.timer));
    proof {
        assert(views(sections@) =~= dmc_sections(*dmc));
        lemma_dmc_round_trip(*dmc);
    }
    join(&sections)
}

pub fn restore_dmc(bytes: &Vec<u8>) -> (r: Option<DMC>)
    ensures
        r == dmc_restored(bytes@),
{
    reveal(dmc_restored);
    let (sections, end) = match read_sections(bytes, 0, 2) {
        Some(found) => found,
        None => {
            return None;
        },
    };
    if end != bytes.len() {
        return None;
    }
    assert(views(sections@)[0] == sections@[0]@);
    let own = match restore_dmc_own(&sections[0]) {
        Some(part) => part,
        None => {
            return None;
        },
    };
    assert(views(sections@)[1] == sections@[1]@);
    let timer = match restore_timer(&sections[1]) {
        Some(part) => part,
        None => {
            return None;
        },
    };
    Some(
        DMC {
            timer: timer,
            ..own
        },
    )
}

/// What was saved of the delta-modulation channel is what is restored.
pub proof fn lemma_dmc_round_trip(dmc: DMC)
    ensures
        dmc_restored(dmc_saved(dmc)) == Some(dmc),
        dmc_saved(dmc).len() <= DMC_BOUND,
        writable(dmc_sections(dmc)),
{
    reveal(dmc_saved);
    reveal(dmc_restored);
    let sections = dmc_sections(dmc);
    lemma_dmc_own_round_trip(dmc);
    lemma_timer_round_trip(dmc.timer);
    assert(forall|i: int| 0 <= i < sections.len() ==> (#[trigger] sections[i]).len() <= 16);
    lemma_joined_bound(sections, 16);
    assert(sections.len() * (16 + 4) == 40) by (nonlinear_arith)
        requires
            sections.len() == 2,
    ;
    lemma_split_joined(Seq::empty(), sections);
    assert(Seq::<u8>::empty() + joined(sections) =~= joined(sections));
}

/// The number of bytes that stand for the frame sequencer.
pub const FRAME_COUNTER_SIZE: usize = 5;

/// The bytes that stand for the frame sequencer: its fields in order, two bytes, lowest
/// first, for those of 16 bits.
pub open spec fn frame_counter_saved(counter: FrameCounter) -> Seq<u8> {
    seq![
        bool_byte(counter.five_step),
        bool_byte(counter.irq_inhibit),
        bool_byte(counter.immediate),
        (counter.cycle % 256) as u8,
        (counter.cycle / 256) as u8,
    ]
}

/// What `bytes` stands for, if it stands for the frame sequencer.
pub open spec fn frame_counter_restored(bytes: Seq<u8>) -> Option<FrameCounter> {
    if bytes.len() == FRAME_COUNTER_SIZE && bytes[0] <= 1 && bytes[1] <= 1 && bytes[2] <= 1 {
        Some(
            FrameCounter {
                five_step: bytes[0] == 1,
                irq_inhibit: bytes[1] == 1,
                immediate: bytes[2] == 1,
                cycle: word_of(bytes[3], bytes[4]),
            },
        )
    } else {
        None
    }
}

pub fn save_frame_counter(counter: &FrameCounter) -> (out: Vec<u8>)
    ensures
        out@ == frame_counter_saved(*counter),
{
    let mut out: Vec<u8> = Vec::new();
    out.push(byte_of_bool(counter.five_step));
    out.push(byte_of_bool(counter.irq_inhibit));
    out.push(byte_of_bool(counter.immediate));
    out.push((counter.cycle % 256) as u8);
    out.push((counter.cycle / 256) as u8);
    proof {
        assert(out@ =~= frame_counter_saved(*counter));
    }
    out
}

pub fn restore_frame_counter(bytes: &Vec<u8>) -> (r: Option<FrameCounter>)
    ensures
        r == frame_counter_restored(bytes@),
{
    if bytes.len() != FRAME_COUNTER_SIZE {
        return None;
    }
    if !(bytes[0] <= 1 && bytes[1] <= 1 && bytes[2] <= 1) {
        return None;
    }
    Some(
        FrameCounter {
            five_step: bytes[0] == 1,
            irq_inhibit: bytes[1] == 1,
            immediate: bytes[2] == 1,
            cycle: make_word(bytes[3], bytes[4]),
        },
    )
}

/// What was saved of the frame sequencer is what is restored.
pub proof fn lemma_frame_counter_round_trip(counter: FrameCounter)
    ensures
        frame_counter_restored(frame_counter_saved(counter)) == Some(counter),
        frame_counter_saved(counter).len() == FRAME_COUNTER_SIZE,
{
}

/// An upper bound of the number of bytes that stand for the audio unit.
pub const APU_BOUND: usize = 432;

/// The sections that stand for the audio unit, in order.
pub open spec fn apu_sections(apu: Core) -> Seq<Seq<u8>> {
    seq![
        pulse_saved(apu.pulse1),
        pulse_saved(apu.pulse2),
        triangle_saved(apu.triangle),
        noise_saved(apu.noise),
        dmc_saved(apu.dmc),
        frame_counter_saved(apu.frame_counter),
    ]
}

/// The bytes that stand for the audio unit: its sections, one after the other.
#[verifier::opaque]
pub open spec fn apu_saved(apu: Core) -> Seq<u8> {
    joined(apu_sections(apu))
}

/// What `bytes` stands for, if it stands for the audio unit.
#[verifier::opaque]
pub open spec fn apu_restored(bytes: Seq<u8>) -> Option<Core> {
    match split(bytes, 0, 6) {
        Some((sections, end)) => {
            if end == bytes.len() && pulse_restored(sections[0]).is_some() && pulse_restored(sections[1]).is_some() && triangle_restored(sections[2]).is_some() && noise_restored(sections[3]).is_some() && dmc_restored(sections[4]).is_some() && frame_counter_restored(sections[5]).is_some() {
                Some(
                    Core {
                        pulse1: pulse_restored(sections[0]).unwrap(),
                        pulse2: pulse_restored(sections[1]).unwrap(),
                        triangle: triangle_restored(sections[2]).unwrap(),
                        noise: noise_restored(sections[3]).unwrap(),
                        dmc: dmc_restored(sections[4]).unwrap(),
                        frame_counter: frame_counter_restored(sections[5]).unwrap(),
                    },
                )
            } else {
                None
            }
        },
        None => None,
    }
}

pub fn save_apu(apu: &Core) -> (out: Vec<u8>)
    ensures
        out@ == apu_saved(*apu),
        out@.len() <= APU_BOUND,
{
    reveal(apu_saved);
    let mut sections: Vec<Vec<u8>> = Vec::new();
    sections.push(save_pulse(&apu.pulse1));
    sections.push(save_pulse(&apu.pulse2));
    sections.push(save_triangle(&apu.triangle));
    sections.push(save_noise(&apu.noise));
    sections.push(save_dmc(&apu.dmc));
    sections.push(save_frame_counter(&apu.frame_counter));
    proof {
        assert(views(sections@) =~= apu_sections(*apu));
        lemma_apu_round_trip(*apu);
    }
    join(&sections)
}

pub fn restore_apu(bytes: &Vec<u8>) -> (r: Option<Core>)
    ensures
        r == apu_restored(bytes@),
{
    reveal(apu_restored);
    let (sections, end) = match read_sections(bytes, 0, 6) {
        Some(found) => found,
        None => {
            return None;
        },
    };
    if end != bytes.len() {
        return None;
    }
    assert(views(sections@)[0] == sections@[0]@);
    let pulse1 = match restore_pulse(&sections[0]) {
        Some(part) => part,
        None => {
            return None;
        },
    };
    assert(views(sections@)[1] == sections@[1]@);
    let pulse2 = match restore_pulse(&sections[1]) {
        Some(part) => part,
        None => {
            return None;
        },
    };
    assert(views(sections@)[2] == sections@[2]@);
    let triangle = match restore_triangle(&sections[2]) {
        Some(part) => part,
        None => {
            return None;
        },
    };
    assert(views(sections@)[3] == sections@[3]@);
    let noise = match restore_noise(&sections[3]) {
        Some(part) => part,
        None => {
            return None;
        },
    };
    assert(views(sections@)[4] == sections@[4]@);
    let dmc = match restore_dmc(&sections[4]) {
        Some(part) => part,
        None => {
            return None;
        },
    };
    assert(views(sections@)[5] == sections@[5]@);
    let frame_counter = match restore_frame_counter(&sections[5]) {
        Some(part) => part,
        None => {
            return None;
        },
    };
    Some(
        Core {
            pulse1: pulse1,
            pulse2: pulse2,
            triangle: triangle,
            noise: noise,
            dmc: dmc,
            frame_counter: frame_counter,
        },
    )
}

/// What was saved of the audio unit is what is restored.
pub proof fn lemma_apu_round_trip(apu: Core)
    ensures
        apu_restored(apu_saved(apu)) == Some(apu),
        apu_saved(apu).len() <= APU_BOUND,
        writable(apu_sections(apu)),
{
    reveal(apu_saved);
    reveal(apu_restored);
    let sections = apu_sections(apu);
    lemma_pulse_round_trip(apu.pulse1);
    lemma_pulse_round_trip(apu.pulse2);
    lemma_triangle_round_trip(apu.triangle);
    lemma_noise_round_trip(apu.noise);
    lemma_dmc_round_trip(apu.dmc);
    lemma_frame_counter_round_trip(apu.frame_counter);
    assert(forall|i: int| 0 <= i < sections.len() ==> (#[trigger] sections[i]).len() <= 68);
    lemma_joined_bound(sections, 68);
    assert(sections.len() * (68 + 4) == 432) by (nonlinear_arith)
        requires
            sections.len() == 6,
    ;
    lemma_split_joined(Seq::empty(), sections);
    assert(Seq::<u8>::empty() + joined(sections) =~= joined(sections));
}

} // verus!
