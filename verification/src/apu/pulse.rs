//! The pulse channel: a duty-cycle sequencer behind a timer, with a sweep
//! unit that bends the period, an envelope and a length counter.

use super::envelope::EnvelopeDao;
use super::length_counter::LengthCounterDao;
use super::timer::TimerDao;
use vstd::prelude::*;

verus! {

/// The highest period that the timer's eleven bits hold.
pub const MAX_PERIOD: u16 = 0x7FF;

/// Whether the waveform of duty mode `mode` is high at sequence position
/// `position`. The four modes are high at position 1, at 1 and 2, at 1 to
/// 4, and everywhere but at 1 and 2.
pub open spec fn duty_level(mode: u8, position: u8) -> bool {
    let p = position % 8;
    match mode % 4 {
        0 => p == 1,
        1 => p == 1 || p == 2,
        2 => 1 <= p <= 4,
        _ => !(p == 1 || p == 2),
    }
}

pub fn duty_table(mode: u8, position: u8) -> (r: bool)
    ensures
        r == duty_level(mode, position),
{
    let p = position % 8;
    match mode % 4 {
        0 => p == 1,
        1 => p == 1 || p == 2,
        2 => 1 <= p && p <= 4,
        _ => !(p == 1 || p == 2),
    }
}

/// One of the two pulse channels.
#[derive(Debug, Clone, Copy, PartialEq, Eq, Structural)]
pub struct Pulse {
    pub is_first_channel: bool,
    pub duty_mode: u8,
    pub duty_value: u8,
    pub sweep_reload: bool,
    pub sweep_enabled: bool,
    pub sweep_negate: bool,
    pub sweep_shift: u8,
    pub sweep_period: u8,
    pub sweep_value: u8,
    pub sweep_target_period: u16,
    pub period: u16,
    pub envelope: EnvelopeDao,
    pub length_counter: LengthCounterDao,
    pub timer: TimerDao,
}

impl Pulse {
    /// What holds of every channel: the period fits the timer's eleven
    /// bits, and the sweep shifts by less than eight.
    pub open spec fn wf(self) -> bool {
        self.period <= MAX_PERIOD && self.sweep_shift < 8 && self.envelope.wf()
    }

    /// The period that the sweep unit aims at: the period plus, or when
    /// negating minus, the period shifted right. The first channel
    /// subtracts one more. The result wraps at 16 bits.
    pub open spec fn target_period(self) -> u16 {
        let delta = self.period >> ((self.sweep_shift % 8) as u16);
        if self.sweep_negate {
            self.period.wrapping_sub(delta).wrapping_sub(
                if self.is_first_channel {
                    1u16
                } else {
                    0u16
                },
            )
        } else {
            self.period.wrapping_add(delta)
        }
    }

    /// The channel with the sweep target computed anew.
    pub open spec fn swept(self) -> Pulse {
        Pulse { sweep_target_period: self.target_period(), ..self }
    }

    /// The channel with a new period: the timer counts twice the period
    /// plus one CPU cycles (modulo its 16 bits, which an 11-bit period
    /// never reaches), and the sweep target follows.
    pub open spec fn with_period(self, period: u16) -> Pulse {
        Pulse {
            period,
            timer: TimerDao { period: period.wrapping_mul(2).wrapping_add(1), ..self.timer },
            ..self
        }.swept()
    }

    /// The channel at power-on.
    pub open spec fn initial(is_first_channel: bool) -> Pulse {
        Pulse {
            is_first_channel,
            duty_mode: 0,
            duty_value: 0,
            period: 0,
            sweep_reload: false,
            sweep_enabled: false,
            sweep_negate: false,
            sweep_shift: 0,
            sweep_period: 0,
            sweep_value: 0,
            sweep_target_period: 0,
            envelope: EnvelopeDao::initial(),
            length_counter: LengthCounterDao::initial(),
            timer: TimerDao { period: 0, value: 0 },
        }
    }

    /// The channel after `value` was written to its control register: bits
    /// 7 and 6 select the duty mode, bit 5 halts the length counter and
    /// loops the envelope, bit 4 selects constant volume, bits 3 to 0 are
    /// the volume or the envelope's period.
    pub open spec fn control_written(self, value: u8) -> Pulse {
        Pulse {
            length_counter: LengthCounterDao {
                new_halt: (value & 0x20) != 0,
                ..self.length_counter
            },
            envelope: EnvelopeDao {
                enabled: (value & 0x10) == 0,
                period: value % 16,
                ..self.envelope
            },
            duty_mode: (value >> 6) & 3,
            ..self
        }
    }

    /// The channel after `value` was written to its sweep register: bit 7
    /// enables the unit, bits 6 to 4 are its period less one, bit 3
    /// negates, bits 2 to 0 are the shift.
    pub open spec fn sweep_written(self, value: u8) -> Pulse {
        Pulse {
            sweep_enabled: (value & 0x80) != 0,
            sweep_period: ((value / 16) % 8 + 1) as u8,
            sweep_negate: (value & 0x08) != 0,
            sweep_shift: value % 8,
            sweep_reload: true,
            ..self
        }.swept()
    }

    /// The channel after `value` was written as the low byte of its
    /// period.
    pub open spec fn timer_low_written(self, value: u8) -> Pulse {
        self.with_period(((self.period / 256) * 256 + value) as u16)
    }

    /// The channel after `value` was written to its last register: bits 7
    /// to 3 load the length counter, bits 2 to 0 are the high bits of the
    /// period; the sequencer and the envelope start over.
    pub open spec fn timer_high_written(self, value: u8) -> Pulse {
        let loaded = Pulse { length_counter: self.length_counter.loaded(value >> 3), ..self };
        let tuned = loaded.with_period((self.period % 256 + (value % 8) * 256) as u16);
        Pulse {
            duty_value: 0,
            envelope: EnvelopeDao { start: true, ..tuned.envelope },
            ..tuned
        }
    }

    /// The channel after a CPU cycle of its timer: when the timer was at
    /// zero the sequencer moves one position back, modulo eight.
    pub open spec fn timer_stepped(self) -> Pulse {
        Pulse {
            timer: self.timer.stepped(),
            duty_value: if self.timer.value == 0 {
                self.duty_value.wrapping_sub(1) & 7
            } else {
                self.duty_value
            },
            ..self
        }
    }

    /// Whether the sweep unit may bend the period: it is enabled, shifts,
    /// and neither the period nor its target mutes the channel.
    pub open spec fn sweep_applies(self) -> bool {
        self.sweep_enabled && self.sweep_shift > 0 && self.period >= 8 && self.sweep_target_period
            <= MAX_PERIOD
    }

    /// The channel after a half-frame tick of its sweep unit: the divider
    /// counts down, and when it reaches zero the period becomes the target
    /// if the sweep applies, and the divider reloads; it also reloads
    /// after a write to the sweep register.
    pub open spec fn sweep_stepped(self) -> Pulse {
        let counted = self.sweep_value.wrapping_sub(1);
        let bent = if counted == 0 && self.sweep_applies() {
            self.with_period(self.sweep_target_period)
        } else {
            self
        };
        Pulse {
            sweep_value: if counted == 0 || self.sweep_reload {
                self.sweep_period
            } else {
                counted
            },
            sweep_reload: false,
            ..bent
        }
    }

    /// Whether the channel is silent whatever its envelope says: the
    /// period is below 8, the sweep target is beyond the timer's range,
    /// the length counter has run down, or the waveform is low.
    pub open spec fn muted(self) -> bool {
        self.period < 8 || self.sweep_target_period > MAX_PERIOD || self.length_counter.value == 0
            || !duty_level(self.duty_mode, self.duty_value)
    }

    /// The level that the channel puts out, from 0 to 15 where the
    /// envelope stays in its four bits.
    pub open spec fn level(self) -> u8 {
        if self.muted() {
            0
        } else {
            self.envelope.volume()
        }
    }

    pub fn new(is_first_channel: bool) -> (r: Self)
        ensures
            r == Self::initial(is_first_channel),
            r.wf(),
    {
        Self {
            is_first_channel,
            duty_mode: 0,
            duty_value: 0,
            period: 0,
            sweep_reload: false,
            sweep_enabled: false,
            sweep_negate: false,
            sweep_shift: 0,
            sweep_period: 0,
            sweep_value: 0,
            sweep_target_period: 0,
            envelope: EnvelopeDao::new(),
            length_counter: LengthCounterDao::new(),
            timer: TimerDao::new(),
        }
    }

    /// Back to power-on, but for the sweep target, which is computed anew.
    pub fn reset(&mut self)
        ensures
            *final(self) == Self::initial(old(self).is_first_channel).swept(),
            final(self).wf(),
    {
        self.length_counter.reset();
        self.envelope.reset();
        self.timer.reset();
        self.duty_mode = 0;
        self.duty_value = 0;
        self.period = 0;
        self.sweep_enabled = false;
        self.sweep_period = 0;
        self.sweep_negate = false;
        self.sweep_shift = 0;
        self.sweep_reload = false;
        self.sweep_value = 0;
        self.sweep_target_period = 0;
        self.sweep();
    }

    pub fn write_control(&mut self, value: u8)
        ensures
            *final(self) == old(self).control_written(value),
            old(self).wf() ==> final(self).wf(),
    {
        self.length_counter.set_halt((value & 0x20) != 0);
        self.envelope.set_enabled((value & 0x10) == 0);
        self.envelope.set_period(value % 16);
        self.duty_mode = (value >> 6) & 3;
    }

    pub fn write_sweep(&mut self, value: u8)
        ensures
            *final(self) == old(self).sweep_written(value),
            old(self).wf() ==> final(self).wf(),
    {
        self.sweep_enabled = (value & 0x80) != 0;
        self.sweep_period = (value / 16) % 8 + 1;
        self.sweep_negate = (value & 0x08) != 0;
        self.sweep_shift = value % 8;
        self.sweep_reload = true;
        self.sweep();
    }

    pub fn set_period(&mut self, period: u16)
        ensures
            *final(self) == old(self).with_period(period),
            period <= MAX_PERIOD && old(self).wf() ==> final(self).wf(),
            period <= MAX_PERIOD ==> final(self).timer.period == 2 * period + 1,
    {
        self.period = period;
        self.timer.set_period(period.wrapping_mul(2).wrapping_add(1));
        self.sweep();
    }

    pub fn write_timer_low(&mut self, value: u8)
        ensures
            *final(self) == old(self).timer_low_written(value),
            old(self).wf() ==> final(self).wf(),
    {
        self.set_period((self.period / 256) * 256 + (value as u16));
    }

    pub fn write_timer_high(&mut self, value: u8)
        ensures
            *final(self) == old(self).timer_high_written(value),
            old(self).wf() ==> final(self).wf(),
    {
        self.length_counter.set_load(value >> 3);
        self.set_period(self.period % 256 + ((value % 8) as u16) * 256);
        self.duty_value = 0;
        self.envelope.restart();
    }

    pub fn step_timer(&mut self)
        ensures
            *final(self) == old(self).timer_stepped(),
            old(self).wf() ==> final(self).wf(),
    {
        if self.timer.step_timer() {
            self.duty_value = self.duty_value.wrapping_sub(1) & 7;
        }
    }

    pub fn step_sweep(&mut self)
        ensures
            *final(self) == old(self).sweep_stepped(),
            old(self).wf() ==> final(self).wf(),
    {
        self.sweep_value = self.sweep_value.wrapping_sub(1);
        if self.sweep_value == 0 {
            if self.sweep_enabled && self.sweep_shift > 0 && self.period >= 8
                && self.sweep_target_period <= MAX_PERIOD {
                self.set_period(self.sweep_target_period);
            }
            self.sweep_value = self.sweep_period;
        }
        if self.sweep_reload {
            self.sweep_value = self.sweep_period;
            self.sweep_reload = false;
        }
    }

    /// Computes the sweep target anew.
    pub fn sweep(&mut self)
        ensures
            *final(self) == old(self).swept(),
    {
        let delta = self.period >> ((self.sweep_shift % 8) as u16);
        self.sweep_target_period = if self.sweep_negate {
            self.period.wrapping_sub(delta).wrapping_sub(
                if self.is_first_channel {
                    1
                } else {
                    0
                },
            )
        } else {
            self.period.wrapping_add(delta)
        };
    }

    /// The channel's level: zero whenever it is muted, else the
    /// envelope's volume.
    pub fn output(&self) -> (r: u8)
        ensures
            r == self.level(),
            self.muted() ==> r == 0,
            self.wf() ==> r <= 15,
    {
        if self.period < 8 || self.sweep_target_period > MAX_PERIOD
            || !self.length_counter.get_status() || !duty_table(self.duty_mode, self.duty_value) {
            0
        } else {
            self.envelope.get_volume()
        }
    }

    /// The CPU cycle of the length counter: what was written takes effect.
    pub fn step_length_counter(&mut self)
        ensures
            *final(self) == (Pulse {
                length_counter: old(self).length_counter.settled(),
                ..*old(self)
            }),
            old(self).wf() ==> final(self).wf(),
    {
        self.length_counter.step_length_counter();
    }

    /// The quarter-frame tick of the envelope, which loops while the
    /// length counter is halted.
    pub fn step_envelope(&mut self)
        ensures
            *final(self) == (Pulse {
                envelope: old(self).envelope.ticked(old(self).length_counter.halt),
                ..*old(self)
            }),
            old(self).wf() ==> final(self).wf(),
    {
        self.envelope.step_envelope(self.length_counter.halt);
    }

    /// The half-frame tick of the length counter.
    pub fn step_length(&mut self)
        ensures
            *final(self) == (Pulse {
                length_counter: old(self).length_counter.ticked(),
                ..*old(self)
            }),
            old(self).wf() ==> final(self).wf(),
    {
        self.length_counter.step_length();
    }

    /// Whether the length counter has not run down.
    pub fn get_status(&self) -> (r: bool)
        ensures
            r == (self.length_counter.value > 0),
    {
        self.length_counter.get_status()
    }

    pub fn set_enabled(&mut self, enabled: bool)
        ensures
            *final(self) == (Pulse {
                length_counter: old(self).length_counter.switched(enabled),
                ..*old(self)
            }),
            old(self).wf() ==> final(self).wf(),
    {
        self.length_counter.set_enabled(enabled);
    }
}

} // verus!
