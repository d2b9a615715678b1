//! The frame sequencer: it counts CPU cycles and paces envelopes, linear
//! counter, length counters and sweep units.

use crate::cpu::interrupt::{Interrupt, IrqSource};
use vstd::prelude::*;

verus! {

/// What the sequencer asks for at a cycle.
#[derive(Debug, Clone, Copy, PartialEq, Eq, Structural)]
pub enum FrameType {
    /// Nothing.
    Idle,
    /// A quarter-frame tick: envelopes and the linear counter.
    Quarter,
    /// A quarter-frame and a half-frame tick: length counters and sweep
    /// units too.
    Half,
}

/// The cycle at which the first quarter-frame tick falls.
pub const FIRST_TICK: u16 = 7457;

/// The cycle at which the first half-frame tick falls.
pub const SECOND_TICK: u16 = 14913;

/// The cycle at which the third quarter-frame tick falls.
pub const THIRD_TICK: u16 = 22371;

/// The cycle at which the four-step sequence ends with a half-frame tick.
pub const FOURTH_TICK: u16 = 29829;

/// The cycle at which the five-step sequence ends with a half-frame tick.
pub const FIFTH_TICK: u16 = 37281;

/// The frame sequencer. `five_step` selects the longer sequence, which
/// never interrupts; `immediate` says that a write asked for a half-frame
/// tick at once.
#[derive(Debug, Clone, Copy, PartialEq, Eq, Structural)]
pub struct FrameCounter {
    pub five_step: bool,
    pub irq_inhibit: bool,
    pub immediate: bool,
    pub cycle: u16,
}

impl FrameCounter {
    /// What holds of every sequencer: the cycle count stays inside the
    /// longer sequence.
    pub open spec fn wf(self) -> bool {
        self.cycle <= FIFTH_TICK
    }

    /// The sequencer at power-on and after a reset.
    pub open spec fn initial() -> FrameCounter {
        FrameCounter { five_step: false, irq_inhibit: false, immediate: false, cycle: 0 }
    }

    /// The cycle count that the coming cycle reaches.
    pub open spec fn reached(self) -> u16 {
        self.cycle.wrapping_add(1)
    }

    /// What the coming cycle asks for.
    pub open spec fn tick(self) -> FrameType {
        let at = self.reached();
        if self.immediate {
            FrameType::Half
        } else if at == FIRST_TICK || at == THIRD_TICK {
            FrameType::Quarter
        } else if at == SECOND_TICK {
            FrameType::Half
        } else if at == FOURTH_TICK && !self.five_step {
            FrameType::Half
        } else if at == FIFTH_TICK && self.five_step {
            FrameType::Half
        } else {
            FrameType::Idle
        }
    }

    /// Whether the coming cycle pulls the interrupt line: in the four-step
    /// sequence, unless inhibited, at the last tick and at the cycles
    /// before and after it.
    pub open spec fn interrupts(self) -> bool {
        !self.five_step && !self.irq_inhibit && FOURTH_TICK - 1 <= self.reached() <= FOURTH_TICK
            + 1
    }

    /// The sequencer after the coming cycle: each sequence starts over
    /// one cycle after its last tick.
    pub open spec fn stepped(self) -> FrameCounter {
        let at = self.reached();
        FrameCounter {
            immediate: false,
            cycle: if (!self.five_step && at > FOURTH_TICK) || at > FIFTH_TICK {
                0
            } else {
                at
            },
            ..self
        }
    }

    /// The sequencer after `value` was written to its register: bit 7
    /// selects the five-step sequence, which ticks at once, bit 6 inhibits
    /// the interrupt; the sequence starts over.
    pub open spec fn written(self, value: u8) -> FrameCounter {
        FrameCounter {
            five_step: (value & 0x80) != 0,
            irq_inhibit: (value & 0x40) != 0,
            immediate: (value & 0x80) != 0,
            cycle: 0,
        }
    }

    pub fn new() -> (r: Self)
        ensures
            r == Self::initial(),
            r.wf(),
    {
        FrameCounter { five_step: false, irq_inhibit: false, immediate: false, cycle: 0 }
    }

    pub fn reset(&mut self)
        ensures
            *final(self) == Self::initial(),
            final(self).wf(),
    {
        *self = FrameCounter::new();
    }

    /// Counts one CPU cycle and answers what it asks for.
    pub fn step_frame_counter(&mut self, interrupt: &mut Interrupt) -> (r: FrameType)
        ensures
            r == old(self).tick(),
            *final(self) == old(self).stepped(),
            *final(interrupt) == (if old(self).interrupts() {
                Interrupt {
                    irq_flag: old(interrupt).irq_flag.with(IrqSource::FrameCounter, true),
                    ..*old(interrupt)
                }
            } else {
                *old(interrupt)
            }),
            final(self).wf(),
    {
        let at: u16 = self.cycle.wrapping_add(1);
        let result = if self.immediate {
            FrameType::Half
        } else if at == FIRST_TICK || at == THIRD_TICK {
            FrameType::Quarter
        } else if at == SECOND_TICK {
            FrameType::Half
        } else if at == FOURTH_TICK && !self.five_step {
            FrameType::Half
        } else if at == FIFTH_TICK && self.five_step {
            FrameType::Half
        } else {
            FrameType::Idle
        };
        if !self.five_step && !self.irq_inhibit && FOURTH_TICK - 1 <= at && at <= FOURTH_TICK + 1 {
            interrupt.set_irq(IrqSource::FrameCounter);
        }
        self.immediate = false;
        self.cycle = if (!self.five_step && at > FOURTH_TICK) || at > FIFTH_TICK {
            0
        } else {
            at
        };
        result
    }

    /// Writes the register. Inhibiting the interrupt releases its line.
    pub fn write_frame_counter(&mut self, value: u8, interrupt: &mut Interrupt)
        ensures
            *final(self) == old(self).written(value),
            *final(interrupt) == (if (value & 0x40) != 0 {
                Interrupt {
                    irq_flag: old(interrupt).irq_flag.with(IrqSource::FrameCounter, false),
                    ..*old(interrupt)
                }
            } else {
                *old(interrupt)
            }),
            final(self).wf(),
    {
        self.five_step = (value & 0x80) != 0;
        self.irq_inhibit = (value & 0x40) != 0;
        self.immediate = self.five_step;
        self.cycle = 0;
        if self.irq_inhibit {
            interrupt.clear_irq(IrqSource::FrameCounter);
        }
    }
}

} // verus!
