//! The delta-modulation channel: a 7-bit level that sample bits move up
//! and down, fed by bytes that the CPU fetches on request.

use super::timer::TimerDao;
use crate::cpu::interrupt::{Interrupt, IrqSource};
use vstd::prelude::*;

verus! {

/// The timer period, in CPU cycles, that each of the 16 rate indices
/// stands for.
pub open spec fn dmc_period_of(index: u8) -> u16 {
    match index % 16 {
        0 => 428,
        1 => 380,
        2 => 340,
        3 => 320,
        4 => 286,
        5 => 254,
        6 => 226,
        7 => 214,
        8 => 190,
        9 => 160,
        10 => 142,
        11 => 128,
        12 => 106,
        13 => 84,
        14 => 72,
        _ => 54,
    }
}

pub fn dmc_period(index: u8) -> (r: u16)
    ensures
        r == dmc_period_of(index),
        r >= 54,
{
    match index % 16 {
        0 => 428,
        1 => 380,
        2 => 340,
        3 => 320,
        4 => 286,
        5 => 254,
        6 => 226,
        7 => 214,
        8 => 190,
        9 => 160,
        10 => 142,
        11 => 128,
        12 => 106,
        13 => 84,
        14 => 72,
        _ => 54,
    }
}

/// The address that follows `address` in a sample: 0xFFFF is followed by
/// 0x8000.
pub open spec fn next_sample_address(address: u16) -> u16 {
    if address == 0xFFFF {
        0x8000
    } else {
        (address + 1) as u16
    }
}

/// The level after one sample bit: two up for a one, two down for a zero,
/// unless that would leave the range from 0 to 127.
pub open spec fn moved_level(level: u8, bit: bool) -> u8 {
    if bit {
        if level <= 125 {
            (level + 2) as u8
        } else {
            level
        }
    } else {
        if level >= 2 {
            (level - 2) as u8
        } else {
            level
        }
    }
}

/// The delta-modulation channel.
#[derive(Debug, Clone, Copy, PartialEq, Eq, Structural)]
pub struct DMC {
    pub irq_enabled: bool,
    pub looped: bool,
    pub sample_address: u16,
    pub sample_length: u16,
    pub current_address: u16,
    pub bytes_remaining: u16,
    pub level: u8,
    pub buffer: Option<u8>,
    pub shift_register: u8,
    pub bits_remaining: u8,
    pub silence: bool,
    pub timer: TimerDao,
}

impl DMC {
    /// What holds of every channel: the level stays in seven bits.
    pub open spec fn wf(self) -> bool {
        self.level <= 127
    }

    /// The channel at power-on and after a reset.
    pub open spec fn initial() -> DMC {
        DMC {
            irq_enabled: false,
            looped: false,
            sample_address: 0xC000,
            sample_length: 1,
            current_address: 0xC000,
            bytes_remaining: 0,
            level: 0,
            buffer: None,
            shift_register: 0,
            bits_remaining: 8,
            silence: true,
            timer: TimerDao { period: 427, value: 0 },
        }
    }

    /// The channel with the sample started over.
    pub open spec fn restarted(self) -> DMC {
        DMC { current_address: self.sample_address, bytes_remaining: self.sample_length, ..self }
    }

    /// The channel after `value` was written to its control register: bit
    /// 7 enables its interrupt, bit 6 loops the sample, bits 3 to 0 select
    /// the rate.
    pub open spec fn control_written(self, value: u8) -> DMC {
        DMC {
            irq_enabled: (value & 0x80) != 0,
            looped: (value & 0x40) != 0,
            timer: TimerDao { period: (dmc_period_of(value) - 1) as u16, ..self.timer },
            ..self
        }
    }

    /// The channel after it was enabled or disabled: disabling drops the
    /// rest of the sample, enabling starts the sample if none is left.
    pub open spec fn switched(self, enabled: bool) -> DMC {
        if !enabled {
            DMC { bytes_remaining: 0, ..self }
        } else if self.bytes_remaining == 0 {
            self.restarted()
        } else {
            self
        }
    }

    /// The address of the byte that the channel waits for: its buffer is
    /// empty and the sample has bytes left.
    pub open spec fn request(self) -> Option<u16> {
        if self.buffer.is_none() && self.bytes_remaining > 0 {
            Some(self.current_address)
        } else {
            None
        }
    }

    /// The channel after the byte `value` was fetched for it. When that
    /// was the last byte, a looped sample starts over.
    pub open spec fn filled(self, value: u8) -> DMC {
        if self.bytes_remaining == 0 {
            self
        } else {
            let taken = DMC {
                buffer: Some(value),
                current_address: next_sample_address(self.current_address),
                bytes_remaining: (self.bytes_remaining - 1) as u16,
                ..self
            };
            if taken.bytes_remaining == 0 && self.looped {
                taken.restarted()
            } else {
                taken
            }
        }
    }

    /// Whether the fetch of a byte ends a sample that asks for an
    /// interrupt.
    pub open spec fn fill_interrupts(self) -> bool {
        self.bytes_remaining == 1 && !self.looped && self.irq_enabled
    }

    /// The channel after one clock of its output unit: a sample bit moves
    /// the level unless the unit is silent, and after eight bits the
    /// buffer, if full, is taken as the next eight.
    pub open spec fn clocked(self) -> DMC {
        let moved = if self.silence {
            self
        } else {
            DMC {
                level: moved_level(self.level, (self.shift_register & 1) != 0),
                shift_register: self.shift_register >> 1,
                ..self
            }
        };
        if self.bits_remaining > 1 {
            DMC { bits_remaining: (self.bits_remaining - 1) as u8, ..moved }
        } else {
            match self.buffer {
                Some(byte) => DMC {
                    bits_remaining: 8,
                    silence: false,
                    shift_register: byte,
                    buffer: None,
                    ..moved
                },
                None => DMC { bits_remaining: 8, silence: true, ..moved },
            }
        }
    }

    /// The channel after a CPU cycle of its timer.
    pub open spec fn timer_stepped(self) -> DMC {
        if self.timer.value == 0 {
            DMC { timer: self.timer.stepped(), ..self.clocked() }
        } else {
            DMC { timer: self.timer.stepped(), ..self }
        }
    }

    pub fn new() -> (r: Self)
        ensures
            r == Self::initial(),
            r.wf(),
    {
        DMC {
            irq_enabled: false,
            looped: false,
            sample_address: 0xC000,
            sample_length: 1,
            current_address: 0xC000,
            bytes_remaining: 0,
            level: 0,
            buffer: None,
            shift_register: 0,
            bits_remaining: 8,
            silence: true,
            timer: TimerDao { period: 427, value: 0 },
        }
    }

    pub fn reset(&mut self)
        ensures
            *final(self) == Self::initial(),
            final(self).wf(),
    {
        *self = DMC::new();
    }

    /// Writes the control register. Disabling the interrupt releases its
    /// line.
    pub fn write_control(&mut self, value: u8, interrupt: &mut Interrupt)
        ensures
            *final(self) == old(self).control_written(value),
            *final(interrupt) == (if (value & 0x80) != 0 {
                *old(interrupt)
            } else {
                Interrupt {
                    irq_flag: old(interrupt).irq_flag.with(IrqSource::Dmc, false),
                    ..*old(interrupt)
                }
            }),
            old(self).wf() ==> final(self).wf(),
    {
        self.irq_enabled = (value & 0x80) != 0;
        self.looped = (value & 0x40) != 0;
        self.timer.set_period(dmc_period(value) - 1);
        if !self.irq_enabled {
            interrupt.clear_irq(IrqSource::Dmc);
        }
    }

    /// Writes the level directly: its low seven bits.
    pub fn write_value(&mut self, value: u8)
        ensures
            *final(self) == (DMC { level: value % 128, ..*old(self) }),
            final(self).wf(),
    {
        self.level = value % 128;
    }

    /// Sets where the sample begins: 0xC000 plus 64 times `value`.
    pub fn write_address(&mut self, value: u8)
        ensures
            *final(self) == (DMC { sample_address: (0xC000 + value * 64) as u16, ..*old(self) }),
            old(self).wf() ==> final(self).wf(),
    {
        self.sample_address = 0xC000 + (value as u16) * 64;
    }

    /// Sets the sample's length: 16 times `value`, plus one.
    pub fn write_length(&mut self, value: u8)
        ensures
            *final(self) == (DMC { sample_length: (value * 16 + 1) as u16, ..*old(self) }),
            old(self).wf() ==> final(self).wf(),
    {
        self.sample_length = (value as u16) * 16 + 1;
    }

    /// Enables or disables the channel, which releases its interrupt line.
    pub fn set_enabled(&mut self, enabled: bool, interrupt: &mut Interrupt)
        ensures
            *final(self) == old(self).switched(enabled),
            *final(interrupt) == (Interrupt {
                irq_flag: old(interrupt).irq_flag.with(IrqSource::Dmc, false),
                ..*old(interrupt)
            }),
            old(self).wf() ==> final(self).wf(),
    {
        interrupt.clear_irq(IrqSource::Dmc);
        if !enabled {
            self.bytes_remaining = 0;
        } else if self.bytes_remaining == 0 {
            self.current_address = self.sample_address;
            self.bytes_remaining = self.sample_length;
        }
    }

    /// The address of the byte that the channel waits for, if it does.
    pub fn fill_address(&self) -> (r: Option<u16>)
        ensures
            r == self.request(),
    {
        if self.buffer.is_none() && self.bytes_remaining > 0 {
            Some(self.current_address)
        } else {
            None
        }
    }

    /// Takes a fetched byte. The end of a sample that is not looped pulls
    /// the interrupt line, if the interrupt is enabled.
    pub fn fill(&mut self, value: u8, interrupt: &mut Interrupt)
        ensures
            *final(self) == old(self).filled(value),
            *final(interrupt) == (if old(self).fill_interrupts() {
                Interrupt {
                    irq_flag: old(interrupt).irq_flag.with(IrqSource::Dmc, true),
                    ..*old(interrupt)
                }
            } else {
                *old(interrupt)
            }),
            old(self).wf() ==> final(self).wf(),
    {
        if self.bytes_remaining > 0 {
            self.buffer = Some(value);
            self.current_address = if self.current_address == 0xFFFF {
                0x8000
            } else {
                self.current_address + 1
            };
            self.bytes_remaining = self.bytes_remaining - 1;
            if self.bytes_remaining == 0 {
                if self.looped {
                    self.current_address = self.sample_address;
                    self.bytes_remaining = self.sample_length;
                } else if self.irq_enabled {
                    interrupt.set_irq(IrqSource::Dmc);
                }
            }
        }
    }

    /// One clock of the output unit: see [`DMC::clocked`].
    pub fn clock(&mut self)
        ensures
            *final(self) == old(self).clocked(),
            old(self).wf() ==> final(self).wf(),
    {
        if !self.silence {
            if (self.shift_register & 1) != 0 {
                if self.level <= 125 {
                    self.level = self.level + 2;
                }
            } else {
                if self.level >= 2 {
                    self.level = self.level - 2;
                }
            }
            self.shift_register = self.shift_register >> 1;
        }
        if self.bits_remaining > 1 {
            self.bits_remaining = self.bits_remaining - 1;
        } else {
            self.bits_remaining = 8;
            match self.buffer {
                Some(byte) => {
                    self.silence = false;
                    self.shift_register = byte;
                    self.buffer = None;
                },
                None => {
                    self.silence = true;
                },
            }
        }
    }

    pub fn step_timer(&mut self)
        ensures
            *final(self) == old(self).timer_stepped(),
            old(self).wf() ==> final(self).wf(),
    {
        if self.timer.step_timer() {
            self.clock();
        }
    }

    /// The level, from 0 to 127.
    pub fn output(&self) -> (r: u8)
        ensures
            r == self.level,
    {
        self.level
    }

    /// Whether the sample has bytes left.
    pub fn get_status(&self) -> (r: bool)
        ensures
            r == (self.bytes_remaining > 0),
    {
        self.bytes_remaining > 0
    }
}

} // verus!
