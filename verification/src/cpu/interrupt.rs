//! The interrupt lines shared by the CPU, the picture unit, the audio unit
//! and the cartridge.

use vstd::prelude::*;

verus! {

/// One source that can pull the maskable interrupt line.
#[derive(Debug, Clone, Copy, PartialEq, Eq, Structural)]
pub enum IrqSource {
    External,
    FrameCounter,
    Dmc,
}

/// A set of interrupt sources.
#[derive(Debug, Clone, Copy, PartialEq, Eq, Structural)]
pub struct IrqSet {
    pub external: bool,
    pub frame_counter: bool,
    pub dmc: bool,
}

impl IrqSet {
    /// Whether `source` is a member.
    pub open spec fn has(self, source: IrqSource) -> bool {
        match source {
            IrqSource::External => self.external,
            IrqSource::FrameCounter => self.frame_counter,
            IrqSource::Dmc => self.dmc,
        }
    }

    /// The set with `source` put in (`member`) or taken out.
    pub open spec fn with(self, source: IrqSource, member: bool) -> IrqSet {
        match source {
            IrqSource::External => IrqSet { external: member, ..self },
            IrqSource::FrameCounter => IrqSet { frame_counter: member, ..self },
            IrqSource::Dmc => IrqSet { dmc: member, ..self },
        }
    }

    /// Whether `self` and `other` share a member.
    pub open spec fn meets(self, other: IrqSet) -> bool {
        (self.external && other.external) || (self.frame_counter && other.frame_counter) || (
        self.dmc && other.dmc)
    }

    /// The set without members.
    pub fn empty() -> (r: Self)
        ensures
            r == (IrqSet { external: false, frame_counter: false, dmc: false }),
    {
        IrqSet { external: false, frame_counter: false, dmc: false }
    }

    /// The set of all three sources.
    pub fn all() -> (r: Self)
        ensures
            r == (IrqSet { external: true, frame_counter: true, dmc: true }),
    {
        IrqSet { external: true, frame_counter: true, dmc: true }
    }

    pub fn contains(&self, source: IrqSource) -> (r: bool)
        ensures
            r == self.has(source),
    {
        match source {
            IrqSource::External => self.external,
            IrqSource::FrameCounter => self.frame_counter,
            IrqSource::Dmc => self.dmc,
        }
    }

    pub fn set(&mut self, source: IrqSource, member: bool)
        ensures
            *final(self) == old(self).with(source, member),
    {
        match source {
            IrqSource::External => {
                self.external = member;
            },
            IrqSource::FrameCounter => {
                self.frame_counter = member;
            },
            IrqSource::Dmc => {
                self.dmc = member;
            },
        }
    }

    pub fn intersects(&self, other: &IrqSet) -> (r: bool)
        ensures
            r == self.meets(*other),
    {
        (self.external && other.external) || (self.frame_counter && other.frame_counter) || (
        self.dmc && other.dmc)
    }
}

/// The interrupt lines and the two latches through which the CPU sees them.
///
/// `nmi` is set by the picture unit and cleared when the CPU reads the
/// vector. `irq_flag` holds the sources that pull the maskable line, of which
/// only those in `irq_mask` count. `detected` is the poll made at the end of
/// the last cycle; `executing` says that an interrupt entry (or reset) is due
/// or under way, which blocks another.
#[derive(Debug, Clone, Copy, PartialEq, Eq, Structural)]
pub struct Interrupt {
    pub nmi: bool,
    pub irq_flag: IrqSet,
    pub irq_mask: IrqSet,
    pub detected: bool,
    pub executing: bool,
}

impl Interrupt {
    /// Whether an unmasked source pulls the maskable line.
    pub open spec fn irq_line(self) -> bool {
        self.irq_flag.meets(self.irq_mask)
    }

    /// What a poll at the end of a cycle sees: the non-maskable line, or the
    /// maskable one unless `disabled` (the CPU's interrupt-disable flag).
    pub open spec fn pending(self, disabled: bool) -> bool {
        self.nmi || (self.irq_line() && !disabled)
    }

    /// The lines after the latches move by one cycle: what had been detected
    /// becomes due, and the lines are polled anew.
    pub open spec fn polled(self, disabled: bool) -> Interrupt {
        Interrupt {
            executing: self.executing || self.detected,
            detected: self.pending(disabled),
            ..self
        }
    }

    /// All lines released, every source unmasked.
    pub fn new() -> (r: Self)
        ensures
            r == (Interrupt {
                nmi: false,
                irq_flag: (IrqSet { external: false, frame_counter: false, dmc: false }),
                irq_mask: (IrqSet { external: true, frame_counter: true, dmc: true }),
                detected: false,
                executing: false,
            }),
    {
        Interrupt {
            nmi: false,
            irq_flag: IrqSet::empty(),
            irq_mask: IrqSet::all(),
            detected: false,
            executing: false,
        }
    }

    pub fn get_irq(&self, source: IrqSource) -> (r: bool)
        ensures
            r == self.irq_flag.has(source),
    {
        self.irq_flag.contains(source)
    }

    pub fn set_irq(&mut self, source: IrqSource)
        ensures
            *final(self) == (Interrupt { irq_flag: old(self).irq_flag.with(source, true), ..*old(self) }),
    {
        self.irq_flag.set(source, true);
    }

    pub fn clear_irq(&mut self, source: IrqSource)
        ensures
            *final(self) == (Interrupt { irq_flag: old(self).irq_flag.with(source, false), ..*old(self) }),
    {
        self.irq_flag.set(source, false);
    }

    /// An interrupt is requested: see [`Interrupt::pending`].
    pub fn is_pending(&self, disabled: bool) -> (r: bool)
        ensures
            r == self.pending(disabled),
    {
        self.nmi || (self.irq_flag.intersects(&self.irq_mask) && !disabled)
    }

    /// Moves the latches by one cycle: see [`Interrupt::polled`].
    pub fn poll(&mut self, disabled: bool)
        ensures
            *final(self) == old(self).polled(disabled),
    {
        self.executing = self.executing || self.detected;
        self.detected = self.is_pending(disabled);
    }
}

} // verus!
