//! The triangle channel: a 32-step sequencer gated by a length counter and
//! a linear counter.

use super::length_counter::LengthCounterDao;
use super::timer::TimerDao;
use vstd::prelude::*;

verus! {

/// The level at position `position` of the triangle sequence: down from 15
/// to 0, then up from 0 to 15.
pub open spec fn triangle_level(position: u8) -> u8 {
    let p = position % 32;
    if p < 16 {
        (15 - p) as u8
    } else {
        (p - 16) as u8
    }
}

/// The triangle channel.
#[derive(Debug, Clone, Copy, PartialEq, Eq, Structural)]
pub struct Triangle {
    pub control: bool,
    pub reload: bool,
    pub reload_value: u8,
    pub counter: u8,
    pub position: u8,
    pub period: u16,
    pub length_counter: LengthCounterDao,
    pub timer: TimerDao,
}

impl Triangle {
    /// What holds of every channel: the period fits the timer's eleven
    /// bits.
    pub open spec fn wf(self) -> bool {
        self.period <= 0x7FF
    }

    /// The channel at power-on and after a reset.
    pub open spec fn initial() -> Triangle {
        Triangle {
            control: false,
            reload: false,
            reload_value: 0,
            counter: 0,
            position: 0,
            period: 0,
            length_counter: LengthCounterDao::initial(),
            timer: TimerDao { period: 0, value: 0 },
        }
    }

    /// The channel after `value` was written to its control register: bit
    /// 7 is the control flag, which also halts the length counter; the
    /// other bits are what the linear counter reloads from.
    pub open spec fn control_written(self, value: u8) -> Triangle {
        Triangle {
            control: (value & 0x80) != 0,
            reload_value: value % 128,
            length_counter: LengthCounterDao {
                new_halt: (value & 0x80) != 0,
                ..self.length_counter
            },
            ..self
        }
    }

    /// The channel with a new period, which the timer counts in CPU
    /// cycles.
    pub open spec fn with_period(self, period: u16) -> Triangle {
        Triangle { period, timer: TimerDao { period, ..self.timer }, ..self }
    }

    /// The channel after `value` was written to its last register: the
    /// length counter is loaded, the period's high bits set, and the
    /// linear counter is to reload.
    pub open spec fn timer_high_written(self, value: u8) -> Triangle {
        Triangle {
            length_counter: self.length_counter.loaded(value >> 3),
            reload: true,
            ..self.with_period((self.period % 256 + (value % 8) * 256) as u16)
        }
    }

    /// The channel after a CPU cycle: what was written to the length
    /// counter takes effect, and when the timer was at zero the sequence
    /// moves on, provided both counters are above zero.
    pub open spec fn timer_stepped(self) -> Triangle {
        let length_counter = self.length_counter.settled();
        Triangle {
            length_counter,
            timer: self.timer.stepped(),
            position: if self.timer.value == 0 && length_counter.value > 0 && self.counter > 0 {
                ((self.position % 32 + 1) % 32) as u8
            } else {
                self.position
            },
            ..self
        }
    }

    /// The channel after a quarter-frame tick of its linear counter.
    pub open spec fn counter_stepped(self) -> Triangle {
        Triangle {
            counter: if self.reload {
                self.reload_value
            } else if self.counter > 0 {
                (self.counter - 1) as u8
            } else {
                0
            },
            reload: self.reload && self.control,
            ..self
        }
    }

    pub fn new() -> (r: Self)
        ensures
            r == Self::initial(),
            r.wf(),
    {
        Triangle {
            control: false,
            reload: false,
            reload_value: 0,
            counter: 0,
            position: 0,
            period: 0,
            length_counter: LengthCounterDao::new(),
            timer: TimerDao::new(),
        }
    }

    pub fn reset(&mut self)
        ensures
            *final(self) == Self::initial(),
            final(self).wf(),
    {
        *self = Triangle::new();
    }

    pub fn write_control(&mut self, value: u8)
        ensures
            *final(self) == old(self).control_written(value),
            old(self).wf() ==> final(self).wf(),
    {
        self.control = (value & 0x80) != 0;
        self.reload_value = value % 128;
        self.length_counter.set_halt((value & 0x80) != 0);
    }

    pub fn write_timer_low(&mut self, value: u8)
        ensures
            *final(self) == old(self).with_period(((old(self).period / 256) * 256 + value) as u16),
            old(self).wf() ==> final(self).wf(),
    {
        let period = (self.period / 256) * 256 + (value as u16);
        self.period = period;
        self.timer.set_period(period);
    }

    pub fn write_timer_high(&mut self, value: u8)
        ensures
            *final(self) == old(self).timer_high_written(value),
            final(self).wf(),
    {
        self.length_counter.set_load(value >> 3);
        let period = self.period % 256 + ((value % 8) as u16) * 256;
        self.period = period;
        self.timer.set_period(period);
        self.reload = true;
    }

    pub fn step_timer(&mut self)
        ensures
            *final(self) == old(self).timer_stepped(),
            old(self).wf() ==> final(self).wf(),
    {
        self.length_counter.step_length_counter();
        if self.timer.step_timer() && self.length_counter.get_status() && self.counter > 0 {
            self.position = (self.position % 32 + 1) % 32;
        }
    }

    pub fn step_counter(&mut self)
        ensures
            *final(self) == old(self).counter_stepped(),
            old(self).wf() ==> final(self).wf(),
    {
        if self.reload {
            self.counter = self.reload_value;
        } else if self.counter > 0 {
            self.counter = self.counter - 1;
        }
        if !self.control {
            self.reload = false;
        }
    }

    pub fn step_length(&mut self)
        ensures
            *final(self) == (Triangle {
                length_counter: old(self).length_counter.ticked(),
                ..*old(self)
            }),
    {
        self.length_counter.step_length();
    }

    /// The level at the sequence's position, from 0 to 15.
    pub fn output(&self) -> (r: u8)
        ensures
            r == triangle_level(self.position),
            r <= 15,
    {
        let p = self.position % 32;
        if p < 16 {
            15 - p
        } else {
            p - 16
        }
    }

    pub fn get_status(&self) -> (r: bool)
        ensures
            r == (self.length_counter.value > 0),
    {
        self.length_counter.get_status()
    }

    pub fn set_enabled(&mut self, enabled: bool)
        ensures
            *final(self) == (Triangle {
                length_counter: old(self).length_counter.switched(enabled),
                ..*old(self)
            }),
    {
        self.length_counter.set_enabled(enabled);
    }
}

} // verus!
