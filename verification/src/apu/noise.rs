//! The noise channel: a 15-bit shift register with linear feedback.

use super::envelope::EnvelopeDao;
use super::length_counter::LengthCounterDao;
use super::timer::TimerDao;
use vstd::prelude::*;

verus! {

/// The timer period, in CPU cycles, that each of the 16 period indices
/// stands for.
pub open spec fn noise_period_of(index: u8) -> u16 {
    match index % 16 {
        0 => 4,
        1 => 8,
        2 => 16,
        3 => 32,
        4 => 64,
        5 => 96,
        6 => 128,
        7 => 160,
        8 => 202,
        9 => 254,
        10 => 380,
        11 => 508,
        12 => 762,
        13 => 1016,
        14 => 2034,
        _ => 4068,
    }
}

pub fn noise_period(index: u8) -> (r: u16)
    ensures
        r == noise_period_of(index),
        r >= 4,
{
    match index % 16 {
        0 => 4,
        1 => 8,
        2 => 16,
        3 => 32,
        4 => 64,
        5 => 96,
        6 => 128,
        7 => 160,
        8 => 202,
        9 => 254,
        10 => 380,
        11 => 508,
        12 => 762,
        13 => 1016,
        14 => 2034,
        _ => 4068,
    }
}

/// The shift register after one clock: bit 0 exclusive-or bit 1 (bit 6 in
/// `mode`) enters at bit 14 as the rest moves one place down.
pub open spec fn shifted(register: u16, mode: bool) -> u16 {
    let tap: u16 = if mode {
        (register >> 6) & 1
    } else {
        (register >> 1) & 1
    };
    (register >> 1) | (((register & 1) ^ tap) << 14)
}

pub fn shift(register: u16, mode: bool) -> (r: u16)
    ensures
        r == shifted(register, mode),
{
    let tap: u16 = if mode {
        (register >> 6) & 1
    } else {
        (register >> 1) & 1
    };
    (register >> 1) | (((register & 1) ^ tap) << 14)
}

/// The noise channel.
#[derive(Debug, Clone, Copy, PartialEq, Eq, Structural)]
pub struct Noise {
    pub mode: bool,
    pub shift_register: u16,
    pub envelope: EnvelopeDao,
    pub length_counter: LengthCounterDao,
    pub timer: TimerDao,
}

impl Noise {
    /// What holds of every channel: see [`EnvelopeDao::wf`].
    pub open spec fn wf(self) -> bool {
        self.envelope.wf()
    }

    /// The channel at power-on and after a reset: the shift register holds
    /// one, and the timer counts the shortest of the 16 periods.
    pub open spec fn initial() -> Noise {
        Noise {
            mode: false,
            shift_register: 1,
            envelope: EnvelopeDao::initial(),
            length_counter: LengthCounterDao::initial(),
            timer: TimerDao { period: 3, value: 0 },
        }
    }

    /// The channel after `value` was written to its control register.
    pub open spec fn control_written(self, value: u8) -> Noise {
        Noise {
            length_counter: LengthCounterDao {
                new_halt: (value & 0x20) != 0,
                ..self.length_counter
            },
            envelope: EnvelopeDao {
                enabled: (value & 0x10) == 0,
                period: value % 16,
                ..self.envelope
            },
            ..self
        }
    }

    /// The channel after `value` was written to its period register: bit 7
    /// selects the short feedback, bits 3 to 0 the period.
    pub open spec fn period_written(self, value: u8) -> Noise {
        Noise {
            mode: (value & 0x80) != 0,
            timer: TimerDao { period: (noise_period_of(value) - 1) as u16, ..self.timer },
            ..self
        }
    }

    /// The channel after `value` was written to its length register: the
    /// length counter is loaded and the envelope starts over.
    pub open spec fn length_written(self, value: u8) -> Noise {
        Noise {
            length_counter: self.length_counter.loaded(value >> 3),
            envelope: EnvelopeDao { start: true, ..self.envelope },
            ..self
        }
    }

    /// The channel after a CPU cycle of its timer.
    pub open spec fn timer_stepped(self) -> Noise {
        Noise {
            timer: self.timer.stepped(),
            shift_register: if self.timer.value == 0 {
                shifted(self.shift_register, self.mode)
            } else {
                self.shift_register
            },
            ..self
        }
    }

    /// The level that the channel puts out: zero while bit 0 of the shift
    /// register is set or the length counter has run down.
    pub open spec fn level(self) -> u8 {
        if (self.shift_register & 1) != 0 || self.length_counter.value == 0 {
            0
        } else {
            self.envelope.volume()
        }
    }

    pub fn new() -> (r: Self)
        ensures
            r == Self::initial(),
            r.wf(),
    {
        Noise {
            mode: false,
            shift_register: 1,
            envelope: EnvelopeDao::new(),
            length_counter: LengthCounterDao::new(),
            timer: TimerDao { period: 3, value: 0 },
        }
    }

    pub fn reset(&mut self)
        ensures
            *final(self) == Self::initial(),
            final(self).wf(),
    {
        *self = Noise::new();
    }

    pub fn write_control(&mut self, value: u8)
        ensures
            *final(self) == old(self).control_written(value),
            old(self).wf() ==> final(self).wf(),
    {
        self.length_counter.set_halt((value & 0x20) != 0);
        self.envelope.set_enabled((value & 0x10) == 0);
        self.envelope.set_period(value % 16);
    }

    pub fn write_period(&mut self, value: u8)
        ensures
            *final(self) == old(self).period_written(value),
            old(self).wf() ==> final(self).wf(),
    {
        self.mode = (value & 0x80) != 0;
        self.timer.set_period(noise_period(value) - 1);
    }

    pub fn write_length(&mut self, value: u8)
        ensures
            *final(self) == old(self).length_written(value),
            old(self).wf() ==> final(self).wf(),
    {
        self.length_counter.set_load(value >> 3);
        self.envelope.restart();
    }

    pub fn step_timer(&mut self)
        ensures
            *final(self) == old(self).timer_stepped(),
            old(self).wf() ==> final(self).wf(),
    {
        if self.timer.step_timer() {
            self.shift_register = shift(self.shift_register, self.mode);
        }
    }

    pub fn step_length_counter(&mut self)
        ensures
            *final(self) == (Noise {
                length_counter: old(self).length_counter.settled(),
                ..*old(self)
            }),
    {
        self.length_counter.step_length_counter();
    }

    pub fn step_envelope(&mut self)
        ensures
            *final(self) == (Noise {
                envelope: old(self).envelope.ticked(old(self).length_counter.halt),
                ..*old(self)
            }),
            old(self).wf() ==> final(self).wf(),
    {
        self.envelope.step_envelope(self.length_counter.halt);
    }

    pub fn step_length(&mut self)
        ensures
            *final(self) == (Noise {
                length_counter: old(self).length_counter.ticked(),
                ..*old(self)
            }),
    {
        self.length_counter.step_length();
    }

    pub fn output(&self) -> (r: u8)
        ensures
            r == self.level(),
            self.wf() ==> r <= 15,
    {
        if (self.shift_register & 1) != 0 || !self.length_counter.get_status() {
            0
        } else {
            self.envelope.get_volume()
        }
    }

    pub fn get_status(&self) -> (r: bool)
        ensures
            r == (self.length_counter.value > 0),
    {
        self.length_counter.get_status()
    }

    pub fn set_enabled(&mut self, enabled: bool)
        ensures
            *final(self) == (Noise {
                length_counter: old(self).length_counter.switched(enabled),
                ..*old(self)
            }),
    {
        self.length_counter.set_enabled(enabled);
    }
}

} // verus!
