//! The audio unit: five channels, the frame sequencer that paces them, and
//! the mixer indices that their levels select.

pub mod dmc;
pub mod envelope;
pub mod frame_counter;
pub mod length_counter;
pub mod noise;
pub mod pulse;
pub mod timer;
pub mod triangle;

use self::dmc::DMC;
use self::frame_counter::{FrameCounter, FrameType};
use self::noise::Noise;
use self::pulse::Pulse;
use self::triangle::{triangle_level, Triangle};
use crate::cpu::interrupt::{Interrupt, IrqSource};
use crate::cpu::register::flag_bits;
use crate::open_bus::OpenBusReadResult;
use vstd::prelude::*;

verus! {

/// The address of the status register, the only one that can be read.
pub const STATUS: u16 = 0x4015;

/// What the mixer puts out for one CPU cycle, as the two indices into its
/// lookup tables: the sum of the pulse levels (0 to 30), and three times
/// the triangle level plus twice the noise level plus the
/// delta-modulation level (0 to 202).
#[derive(Debug, Clone, Copy, PartialEq, Eq, Structural)]
pub struct MixerSample {
    pub pulse: u16,
    pub tnd: u16,
}

/// Where the audio unit sends its samples, one per CPU cycle.
pub trait MixerInput {
    /// The samples taken so far, oldest first.
    spec fn samples(&self) -> Seq<MixerSample>;

    fn push(&mut self, data: MixerSample)
        ensures
            final(self).samples() == old(self).samples().push(data),
    ;
}

/// A sink that keeps every sample.
pub struct SampleBuffer {
    pub data: Vec<MixerSample>,
}

impl SampleBuffer {
    pub fn new() -> (r: Self)
        ensures
            r.data@.len() == 0,
    {
        SampleBuffer { data: Vec::new() }
    }
}

impl MixerInput for SampleBuffer {
    open spec fn samples(&self) -> Seq<MixerSample> {
        self.data@
    }

    fn push(&mut self, data: MixerSample) {
        self.data.push(data);
    }
}

/// The audio unit.
#[derive(Debug, Clone, Copy, PartialEq, Eq, Structural)]
pub struct Core {
    pub pulse1: Pulse,
    pub pulse2: Pulse,
    pub triangle: Triangle,
    pub noise: Noise,
    pub dmc: DMC,
    pub frame_counter: FrameCounter,
}

impl Core {
    /// What holds of every audio unit: what holds of each of its parts.
    pub open spec fn wf(self) -> bool {
        &&& self.pulse1.wf()
        &&& self.pulse2.wf()
        &&& self.triangle.wf()
        &&& self.noise.wf()
        &&& self.dmc.wf()
        &&& self.frame_counter.wf()
    }

    /// The unit with every part as at power-on.
    pub open spec fn fresh() -> Core {
        Core {
            pulse1: Pulse::initial(true),
            pulse2: Pulse::initial(false),
            triangle: Triangle::initial(),
            noise: Noise::initial(),
            dmc: DMC::initial(),
            frame_counter: FrameCounter::initial(),
        }
    }

    /// The unit after a quarter-frame tick: envelopes and the linear
    /// counter.
    pub open spec fn quarter_framed(self) -> Core {
        Core {
            pulse1: Pulse {
                envelope: self.pulse1.envelope.ticked(self.pulse1.length_counter.halt),
                ..self.pulse1
            },
            pulse2: Pulse {
                envelope: self.pulse2.envelope.ticked(self.pulse2.length_counter.halt),
                ..self.pulse2
            },
            noise: Noise {
                envelope: self.noise.envelope.ticked(self.noise.length_counter.halt),
                ..self.noise
            },
            triangle: self.triangle.counter_stepped(),
            ..self
        }
    }

    /// The unit after a half-frame tick: sweep units, then length
    /// counters.
    pub open spec fn half_framed(self) -> Core {
        let first = self.pulse1.sweep_stepped();
        let second = self.pulse2.sweep_stepped();
        Core {
            pulse1: Pulse { length_counter: first.length_counter.ticked(), ..first },
            pulse2: Pulse { length_counter: second.length_counter.ticked(), ..second },
            noise: Noise { length_counter: self.noise.length_counter.ticked(), ..self.noise },
            triangle: Triangle {
                length_counter: self.triangle.length_counter.ticked(),
                ..self.triangle
            },
            ..self
        }
    }

    /// The unit after every channel's CPU cycle: what was written to the
    /// length counters takes effect, and the timers count.
    pub open spec fn timers_stepped(self) -> Core {
        Core {
            pulse1: Pulse {
                length_counter: self.pulse1.length_counter.settled(),
                ..self.pulse1
            }.timer_stepped(),
            pulse2: Pulse {
                length_counter: self.pulse2.length_counter.settled(),
                ..self.pulse2
            }.timer_stepped(),
            noise: Noise {
                length_counter: self.noise.length_counter.settled(),
                ..self.noise
            }.timer_stepped(),
            dmc: self.dmc.timer_stepped(),
            triangle: self.triangle.timer_stepped(),
            ..self
        }
    }

    /// The unit after the ticks that `tick` asks for.
    pub open spec fn ticked(self, tick: FrameType) -> Core {
        match tick {
            FrameType::Half => self.quarter_framed().half_framed(),
            FrameType::Quarter => self.quarter_framed(),
            FrameType::Idle => self,
        }
    }

    /// The unit and the interrupt lines after one CPU cycle: the frame
    /// sequencer counts and may pull its line, the ticks it asks for are
    /// made, then every channel has its cycle.
    #[verifier::opaque]
    pub open spec fn frame_stepped(self, interrupt: Interrupt) -> (Core, Interrupt) {
        (
            Core { frame_counter: self.frame_counter.stepped(), ..self }.ticked(
                self.frame_counter.tick(),
            ).timers_stepped(),
            if self.frame_counter.interrupts() {
                Interrupt {
                    irq_flag: interrupt.irq_flag.with(IrqSource::FrameCounter, true),
                    ..interrupt
                }
            } else {
                interrupt
            },
        )
    }

    /// The unit and the lines after the four cycles that follow power-on
    /// and reset.
    pub open spec fn initialized(self, interrupt: Interrupt) -> (Core, Interrupt) {
        let (c1, i1) = self.frame_stepped(interrupt);
        let (c2, i2) = c1.frame_stepped(i1);
        let (c3, i3) = c2.frame_stepped(i2);
        c3.frame_stepped(i3)
    }

    /// The status byte: one bit for each channel whose length counter, or
    /// sample, has not run down, bit 6 for the frame sequencer's interrupt
    /// and bit 7 for that of the delta-modulation channel.
    pub open spec fn status(self, interrupt: Interrupt) -> int {
        flag_bits(self.pulse1.length_counter.value > 0, 0x01) + flag_bits(
            self.pulse2.length_counter.value > 0,
            0x02,
        ) + flag_bits(self.triangle.length_counter.value > 0, 0x04) + flag_bits(
            self.noise.length_counter.value > 0,
            0x08,
        ) + flag_bits(self.dmc.bytes_remaining > 0, 0x10) + flag_bits(
            interrupt.irq_flag.frame_counter,
            0x40,
        ) + flag_bits(interrupt.irq_flag.dmc, 0x80)
    }

    /// The unit after `value` was written to the channel switches: bits 0
    /// to 4 enable the two pulse channels, triangle, noise and
    /// delta-modulation.
    pub open spec fn control_written(self, value: u8) -> Core {
        Core {
            pulse1: Pulse {
                length_counter: self.pulse1.length_counter.switched((value & 1) != 0),
                ..self.pulse1
            },
            pulse2: Pulse {
                length_counter: self.pulse2.length_counter.switched((value & 2) != 0),
                ..self.pulse2
            },
            triangle: Triangle {
                length_counter: self.triangle.length_counter.switched((value & 4) != 0),
                ..self.triangle
            },
            noise: Noise {
                length_counter: self.noise.length_counter.switched((value & 8) != 0),
                ..self.noise
            },
            dmc: self.dmc.switched((value & 16) != 0),
            ..self
        }
    }

    /// The interrupt lines with the given source released.
    pub open spec fn released(interrupt: Interrupt, source: IrqSource) -> Interrupt {
        Interrupt { irq_flag: interrupt.irq_flag.with(source, false), ..interrupt }
    }

    /// The unit and the lines after `value` was written to the register at
    /// `address`. Addresses without a register take no effect.
    pub open spec fn register_written(self, address: u16, value: u8, interrupt: Interrupt) -> (
        Core,
        Interrupt,
    ) {
        match address {
            0x4000 => (Core { pulse1: self.pulse1.control_written(value), ..self }, interrupt),
            0x4001 => (Core { pulse1: self.pulse1.sweep_written(value), ..self }, interrupt),
            0x4002 => (Core { pulse1: self.pulse1.timer_low_written(value), ..self }, interrupt),
            0x4003 => (Core { pulse1: self.pulse1.timer_high_written(value), ..self }, interrupt),
            0x4004 => (Core { pulse2: self.pulse2.control_written(value), ..self }, interrupt),
            0x4005 => (Core { pulse2: self.pulse2.sweep_written(value), ..self }, interrupt),
            0x4006 => (Core { pulse2: self.pulse2.timer_low_written(value), ..self }, interrupt),
            0x4007 => (Core { pulse2: self.pulse2.timer_high_written(value), ..self }, interrupt),
            0x4008 => (Core { triangle: self.triangle.control_written(value), ..self }, interrupt),
            0x400A => (
                Core {
                    triangle: self.triangle.with_period(
                        ((self.triangle.period / 256) * 256 + value) as u16,
                    ),
                    ..self
                },
                interrupt,
            ),
            0x400B => (
                Core { triangle: self.triangle.timer_high_written(value), ..self },
                interrupt,
            ),
            0x400C => (Core { noise: self.noise.control_written(value), ..self }, interrupt),
            0x400E => (Core { noise: self.noise.period_written(value), ..self }, interrupt),
            0x400F => (Core { noise: self.noise.length_written(value), ..self }, interrupt),
            0x4010 => (
                Core { dmc: self.dmc.control_written(value), ..self },
                if (value & 0x80) != 0 {
                    interrupt
                } else {
                    Self::released(interrupt, IrqSource::Dmc)
                },
            ),
            0x4011 => (Core { dmc: DMC { level: value % 128, ..self.dmc }, ..self }, interrupt),
            0x4012 => (
                Core {
                    dmc: DMC { sample_address: (0xC000 + value * 64) as u16, ..self.dmc },
                    ..self
                },
                interrupt,
            ),
            0x4013 => (
                Core { dmc: DMC { sample_length: (value * 16 + 1) as u16, ..self.dmc }, ..self },
                interrupt,
            ),
            0x4015 => (self.control_written(value), Self::released(interrupt, IrqSource::Dmc)),
            0x4017 => (
                Core { frame_counter: self.frame_counter.written(value), ..self },
                if (value & 0x40) != 0 {
                    Self::released(interrupt, IrqSource::FrameCounter)
                } else {
                    interrupt
                },
            ),
            _ => (self, interrupt),
        }
    }

    /// The mixer indices that the channels' levels select.
    pub open spec fn mixed(self) -> MixerSample {
        MixerSample {
            pulse: (self.pulse1.level() + self.pulse2.level()) as u16,
            tnd: (3 * triangle_level(self.triangle.position) + 2 * self.noise.level()
                + self.dmc.level) as u16,
        }
    }

    /// The unit at power-on, four cycles in.
    pub fn new(interrupt: &mut Interrupt) -> (r: Self)
        ensures
            (r, *final(interrupt)) == Self::fresh().initialized(*old(interrupt)),
            r.wf(),
    {
        let mut result = Self {
            pulse1: Pulse::new(true),
            pulse2: Pulse::new(false),
            triangle: Triangle::new(),
            noise: Noise::new(),
            dmc: DMC::new(),
            frame_counter: FrameCounter::new(),
        };
        result.initialize(interrupt);
        result
    }

    /// Every part goes back to power-on, but each pulse channel keeps its
    /// place; then four cycles run.
    pub fn reset(&mut self, interrupt: &mut Interrupt)
        ensures
            (*final(self), *final(interrupt)) == (Core {
                pulse1: Pulse::initial(old(self).pulse1.is_first_channel).swept(),
                pulse2: Pulse::initial(old(self).pulse2.is_first_channel).swept(),
                ..Self::fresh()
            }).initialized(*old(interrupt)),
            final(self).wf(),
    {
        self.pulse1.reset();
        self.pulse2.reset();
        self.triangle.reset();
        self.noise.reset();
        self.dmc.reset();
        self.frame_counter.reset();
        self.initialize(interrupt);
    }

    pub fn initialize(&mut self, interrupt: &mut Interrupt)
        ensures
            (*final(self), *final(interrupt)) == old(self).initialized(*old(interrupt)),
            old(self).wf() ==> final(self).wf(),
    {
        self.step_frame(interrupt);
        self.step_frame(interrupt);
        self.step_frame(interrupt);
        self.step_frame(interrupt);
    }

    /// Whether a read of `address` finds a register: only the status
    /// register can be read.
    pub open spec fn reads(address: u16) -> bool {
        address == STATUS
    }

    /// Whether a write to `address` finds a register: those of the five
    /// channels from 0x4000 to 0x4013, the status register, and the frame
    /// sequencer's at 0x4017.
    pub open spec fn writes(address: u16) -> bool {
        0x4000 <= address <= 0x4013 || address == STATUS || address == 0x4017
    }

    /// Whether a read of `address` finds a register: see [`Core::reads`].
    pub fn handles_read(address: u16) -> (r: bool)
        ensures
            r == Self::reads(address),
    {
        address == STATUS
    }

    /// Whether a write to `address` finds a register: see
    /// [`Core::writes`].
    pub fn handles_write(address: u16) -> (r: bool)
        ensures
            r == Self::writes(address),
    {
        (0x4000 <= address && address <= 0x4013) || address == STATUS || address == 0x4017
    }

    /// Reads the register at `address`. Only the status register answers,
    /// on all lines but bit 5; reading it releases the frame sequencer's
    /// interrupt line.
    pub fn read_register(&mut self, address: u16, interrupt: &mut Interrupt) -> (r:
        OpenBusReadResult)
        ensures
            *final(self) == *old(self),
            address == STATUS ==> r == (OpenBusReadResult {
                data: old(self).status(*old(interrupt)) as u8,
                mask: 0xDF,
            }) && *final(interrupt) == Self::released(*old(interrupt), IrqSource::FrameCounter),
            address != STATUS ==> r == (OpenBusReadResult { data: 0, mask: 0 })
                && *final(interrupt) == *old(interrupt),
    {
        match address {
            0x4015 => OpenBusReadResult::new(self.read_status(interrupt), 0xDF),
            _ => OpenBusReadResult::new(0, 0),
        }
    }

    /// Writes `value` to the register at `address`: see
    /// [`Core::register_written`].
    pub fn write_register(&mut self, address: u16, value: u8, interrupt: &mut Interrupt)
        ensures
            (*final(self), *final(interrupt)) == old(self).register_written(
                address,
                value,
                *old(interrupt),
            ),
            !Self::writes(address) ==> *final(self) == *old(self) && *final(interrupt) == *old(
                interrupt,
            ),
            old(self).wf() ==> final(self).wf(),
    {
        match address {
            0x4000 => self.pulse1.write_control(value),
            0x4001 => self.pulse1.write_sweep(value),
            0x4002 => self.pulse1.write_timer_low(value),
            0x4003 => self.pulse1.write_timer_high(value),
            0x4004 => self.pulse2.write_control(value),
            0x4005 => self.pulse2.write_sweep(value),
            0x4006 => self.pulse2.write_timer_low(value),
            0x4007 => self.pulse2.write_timer_high(value),
            0x4008 => self.triangle.write_control(value),
            0x4009 => (),
            0x4010 => self.dmc.write_control(value, interrupt),
            0x4011 => self.dmc.write_value(value),
            0x4012 => self.dmc.write_address(value),
            0x4013 => self.dmc.write_length(value),
            0x400A => self.triangle.write_timer_low(value),
            0x400B => self.triangle.write_timer_high(value),
            0x400C => self.noise.write_control(value),
            0x400D => (),
            0x400E => self.noise.write_period(value),
            0x400F => self.noise.write_length(value),
            0x4015 => self.write_control(value, interrupt),
            0x4017 => self.frame_counter.write_frame_counter(value, interrupt),
            _ => (),
        }
    }

    /// Hands a fetched sample byte to the delta-modulation channel.
    pub fn dmc_fill(&mut self, value: u8, interrupt: &mut Interrupt)
        ensures
            *final(self) == (Core { dmc: old(self).dmc.filled(value), ..*old(self) }),
            *final(interrupt) == (if old(self).dmc.fill_interrupts() {
                Interrupt {
                    irq_flag: old(interrupt).irq_flag.with(IrqSource::Dmc, true),
                    ..*old(interrupt)
                }
            } else {
                *old(interrupt)
            }),
            old(self).wf() ==> final(self).wf(),
    {
        self.dmc.fill(value, interrupt);
    }

    /// The address of the sample byte that the delta-modulation channel
    /// waits for, if it does.
    pub fn dmc_fill_address(&self) -> (r: Option<u16>)
        ensures
            r == self.dmc.request(),
    {
        self.dmc.fill_address()
    }

    /// One CPU cycle without its sample: see [`Core::frame_stepped`].
    pub fn step_frame(&mut self, interrupt: &mut Interrupt)
        ensures
            (*final(self), *final(interrupt)) == old(self).frame_stepped(*old(interrupt)),
            old(self).wf() ==> final(self).wf(),
    {
        reveal(Core::frame_stepped);
        match self.frame_counter.step_frame_counter(interrupt) {
            FrameType::Half => {
                self.quarter_frame();
                self.half_frame();
            },
            FrameType::Quarter => self.quarter_frame(),
            FrameType::Idle => (),
        }
        self.step_timer();
    }

    /// One CPU cycle: the unit moves on, then sends exactly one sample.
    pub fn step<M: MixerInput>(&mut self, interrupt: &mut Interrupt, mixer: &mut M)
        ensures
            (*final(self), *final(interrupt)) == old(self).frame_stepped(*old(interrupt)),
            old(self).wf() ==> final(self).wf(),
            final(mixer).samples() == old(mixer).samples().push(final(self).mixed()),
    {
        self.step_frame(interrupt);
        self.send_sample(mixer);
    }

    pub fn send_sample<M: MixerInput>(&self, mixer: &mut M)
        ensures
            final(mixer).samples() == old(mixer).samples().push(self.mixed()),
    {
        mixer.push(self.output());
    }

    /// The mixer indices: the pulse index is at most 30, the other at most
    /// 202.
    pub fn output(&self) -> (r: MixerSample)
        ensures
            r == self.mixed(),
            self.wf() ==> r.pulse <= 30 && r.tnd <= 202,
    {
        MixerSample {
            pulse: (self.pulse1.output() as u16) + (self.pulse2.output() as u16),
            tnd: 3 * (self.triangle.output() as u16) + 2 * (self.noise.output() as u16) + (
            self.dmc.output() as u16),
        }
    }

    pub fn quarter_frame(&mut self)
        ensures
            *final(self) == old(self).quarter_framed(),
            old(self).wf() ==> final(self).wf(),
    {
        self.step_envelope();
    }

    pub fn half_frame(&mut self)
        ensures
            *final(self) == old(self).half_framed(),
            old(self).wf() ==> final(self).wf(),
    {
        self.step_sweep();
        self.step_length();
    }

    pub fn step_timer(&mut self)
        ensures
            *final(self) == old(self).timers_stepped(),
            old(self).wf() ==> final(self).wf(),
    {
        self.pulse1.step_length_counter();
        self.pulse2.step_length_counter();
        self.noise.step_length_counter();
        self.pulse1.step_timer();
        self.pulse2.step_timer();
        self.noise.step_timer();
        self.dmc.step_timer();
        self.triangle.step_timer();
    }

    pub fn step_envelope(&mut self)
        ensures
            *final(self) == old(self).quarter_framed(),
            old(self).wf() ==> final(self).wf(),
    {
        self.pulse1.step_envelope();
        self.pulse2.step_envelope();
        self.noise.step_envelope();
        self.triangle.step_counter();
    }

    pub fn step_sweep(&mut self)
        ensures
            *final(self) == (Core {
                pulse1: old(self).pulse1.sweep_stepped(),
                pulse2: old(self).pulse2.sweep_stepped(),
                ..*old(self)
            }),
            old(self).wf() ==> final(self).wf(),
    {
        self.pulse1.step_sweep();
        self.pulse2.step_sweep();
    }

    pub fn step_length(&mut self)
        ensures
            *final(self) == (Core {
                pulse1: Pulse {
                    length_counter: old(self).pulse1.length_counter.ticked(),
                    ..old(self).pulse1
                },
                pulse2: Pulse {
                    length_counter: old(self).pulse2.length_counter.ticked(),
                    ..old(self).pulse2
                },
                noise: Noise {
                    length_counter: old(self).noise.length_counter.ticked(),
                    ..old(self).noise
                },
                triangle: Triangle {
                    length_counter: old(self).triangle.length_counter.ticked(),
                    ..old(self).triangle
                },
                ..*old(self)
            }),
            old(self).wf() ==> final(self).wf(),
    {
        self.pulse1.step_length();
        self.pulse2.step_length();
        self.noise.step_length();
        self.triangle.step_length();
    }

    /// Reads the status byte, which releases the frame sequencer's
    /// interrupt line: see [`Core::status`].
    pub fn read_status(&mut self, interrupt: &mut Interrupt) -> (r: u8)
        ensures
            r == old(self).status(*old(interrupt)),
            *final(self) == *old(self),
            *final(interrupt) == Self::released(*old(interrupt), IrqSource::FrameCounter),
    {
        let channels: u8 = status_bit(self.pulse1.get_status(), 0x01) + status_bit(
            self.pulse2.get_status(),
            0x02,
        ) + status_bit(self.triangle.get_status(), 0x04) + status_bit(
            self.noise.get_status(),
            0x08,
        ) + status_bit(self.dmc.get_status(), 0x10);
        let result: u8 = channels + status_bit(interrupt.get_irq(IrqSource::FrameCounter), 0x40)
            + status_bit(interrupt.get_irq(IrqSource::Dmc), 0x80);
        interrupt.clear_irq(IrqSource::FrameCounter);
        result
    }

    /// Writes the channel switches, which releases the delta-modulation
    /// channel's interrupt line: see [`Core::control_written`].
    pub fn write_control(&mut self, value: u8, interrupt: &mut Interrupt)
        ensures
            *final(self) == old(self).control_written(value),
            *final(interrupt) == Self::released(*old(interrupt), IrqSource::Dmc),
            old(self).wf() ==> final(self).wf(),
    {
        self.pulse1.set_enabled((value & 1) != 0);
        self.pulse2.set_enabled((value & 2) != 0);
        self.triangle.set_enabled((value & 4) != 0);
        self.noise.set_enabled((value & 8) != 0);
        self.dmc.set_enabled((value & 16) != 0, interrupt);
    }
}

/// `mask` when `set`, else zero.
fn status_bit(set: bool, mask: u8) -> (r: u8)
    ensures
        r == flag_bits(set, mask),
{
    if set {
        mask
    } else {
        0
    }
}

} // verus!
