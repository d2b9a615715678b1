//! The DMA unit: the cycles that the sprite copy and the sample fetch take
//! from the instruction stream.

use super::bus::Bus;
use super::{
    lines_moved, make_word, one_access_or_none, read, read_dummy_current, read_dummy_current_spec,
    read_spec, word, write_spec, Core, CpuStepStateEnum,
};
use vstd::prelude::*;

verus! {

/// Where the sprite registers take the bytes of a sprite DMA.
pub const OAM_DATA: u16 = 0x2004;

/// How far a sprite DMA has come.
#[derive(Debug, Clone, Copy, PartialEq, Eq, Structural)]
pub enum OamDma {
    /// No copy is under way.
    Idle,
    /// The cycle that lets the instruction's write settle comes next.
    Wait { page: u8 },
    /// A cycle that brings reads onto even cycles comes next.
    Align { page: u8 },
    /// The read of byte `index` of the page comes next.
    Read { page: u8, index: u8 },
    /// The write of `value`, which was byte `index`, comes next.
    Write { page: u8, index: u8, value: u8 },
}

/// The DMA unit's state: the sprite copy, and the cycles left of a stall
/// for a sample fetch (zero: none).
#[derive(Debug, Clone, Copy, PartialEq, Eq, Structural)]
pub struct Dma {
    pub oam: OamDma,
    pub dmc_stall: u8,
}

impl Dma {
    pub fn new() -> (r: Self)
        ensures
            r == (Dma { oam: OamDma::Idle, dmc_stall: 0 }),
    {
        Dma { oam: OamDma::Idle, dmc_stall: 0 }
    }

    /// Whether the unit holds the bus in the coming cycle.
    pub open spec fn active(self) -> bool {
        self.dmc_stall > 0 || self.oam != OamDma::Idle
    }
}

/// The cycles that a sample fetch costs: two when it follows a write or
/// falls into a sprite copy, else four.
pub open spec fn dmc_stall_length(core: Core) -> u8 {
    if core.internal_stat.last_write || core.dma.oam != OamDma::Idle {
        2
    } else {
        4
    }
}

/// `core` with a stall begun if a sample is waited for and none is under
/// way.
pub open spec fn dmc_noticed<B: Bus>(core: Core, bus: B::V) -> Core {
    if core.dma.dmc_stall == 0 && B::dmc_request(bus).is_some() {
        Core { dma: Dma { dmc_stall: dmc_stall_length(core), ..core.dma }, ..core }
    } else {
        core
    }
}

/// One cycle of a stall: the latest read is repeated, but the last cycle
/// fetches the sample and hands it over.
pub open spec fn dmc_cycle_spec<B: Bus>(core: Core, bus: B::V) -> (Core, B::V) {
    let left = (core.dma.dmc_stall - 1) as u8;
    if left == 0 && B::dmc_request(bus).is_some() {
        let (c, b, value) = read_spec::<B>(core, bus, B::dmc_request(bus).unwrap());
        let (filled, i) = B::dmc_fill_spec(b, value, c.interrupt);
        (
            Core {
                interrupt: lines_moved(c.interrupt, i),
                dma: Dma { dmc_stall: 0, ..c.dma },
                ..c
            },
            filled,
        )
    } else {
        let (c, b, _value) = read_spec::<B>(core, bus, core.internal_stat.last_read);
        (Core { dma: Dma { dmc_stall: left, ..c.dma }, ..c }, b)
    }
}

/// One cycle of a sprite copy. Reads fall on even cycles: the copy begins
/// with one cycle of waiting, and a second if that one was even.
pub open spec fn oam_cycle_spec<B: Bus>(core: Core, bus: B::V) -> (Core, B::V) {
    match core.dma.oam {
        OamDma::Idle => (core, bus),
        OamDma::Wait { page } => {
            let (c, b) = read_dummy_current_spec::<B>(core, bus);
            (
                Core {
                    dma: Dma {
                        oam: if core.odd_cycle {
                            OamDma::Read { page, index: 0 }
                        } else {
                            OamDma::Align { page }
                        },
                        ..c.dma
                    },
                    ..c
                },
                b,
            )
        },
        OamDma::Align { page } => {
            let (c, b) = read_dummy_current_spec::<B>(core, bus);
            (Core { dma: Dma { oam: OamDma::Read { page, index: 0 }, ..c.dma }, ..c }, b)
        },
        OamDma::Read { page, index } => {
            let (c, b, value) = read_spec::<B>(core, bus, word(index, page));
            (Core { dma: Dma { oam: OamDma::Write { page, index, value }, ..c.dma }, ..c }, b)
        },
        OamDma::Write { page, index, value } => {
            let (c, b) = write_spec::<B>(core, bus, OAM_DATA, value);
            (
                Core {
                    dma: Dma {
                        oam: if index == 0xFF {
                            OamDma::Idle
                        } else {
                            OamDma::Read { page, index: (index + 1) as u8 }
                        },
                        ..c.dma
                    },
                    ..c
                },
                b,
            )
        },
    }
}

/// Begins a stall if a sample is waited for: see [`dmc_noticed`].
pub fn notice_dmc<B: Bus>(core: &mut Core, bus: &B)
    ensures
        *final(core) == dmc_noticed::<B>(*old(core), bus@),
{
    if core.dma.dmc_stall == 0 && bus.dmc_fill_address().is_some() {
        let after_write = core.internal_stat.last_write;
        let copying = !matches!(core.dma.oam, OamDma::Idle);
        core.dma.dmc_stall = if after_write || copying {
            2
        } else {
            4
        };
    }
}

pub fn dmc_cycle<B: Bus>(core: &mut Core, bus: &mut B)
    requires
        old(core).dma.dmc_stall > 0,
    ensures
        (*final(core), final(bus)@) == dmc_cycle_spec::<B>(*old(core), old(bus)@),
        one_access_or_none(*old(bus), *final(bus), *final(core), CpuStepStateEnum::Continue),
{
    let left = core.dma.dmc_stall - 1;
    let request = bus.dmc_fill_address();
    if left == 0 && request.is_some() {
        let value = read(core, bus, request.unwrap());
        let detected = core.interrupt.detected;
        let executing = core.interrupt.executing;
        bus.dmc_fill(value, &mut core.interrupt);
        core.interrupt.detected = detected;
        core.interrupt.executing = executing;
        core.dma.dmc_stall = 0;
    } else {
        let address = core.internal_stat.get_last_read();
        let _ = read(core, bus, address);
        core.dma.dmc_stall = left;
    }
}

pub fn oam_cycle<B: Bus>(core: &mut Core, bus: &mut B)
    requires
        old(core).dma.oam != OamDma::Idle,
    ensures
        (*final(core), final(bus)@) == oam_cycle_spec::<B>(*old(core), old(bus)@),
        one_access_or_none(*old(bus), *final(bus), *final(core), CpuStepStateEnum::Continue),
{
    match core.dma.oam {
        OamDma::Idle => {},
        OamDma::Wait { page } => {
            read_dummy_current(core, bus);
            core.dma.oam = if core.odd_cycle {
                OamDma::Read { page, index: 0 }
            } else {
                OamDma::Align { page }
            };
        },
        OamDma::Align { page } => {
            read_dummy_current(core, bus);
            core.dma.oam = OamDma::Read { page, index: 0 };
        },
        OamDma::Read { page, index } => {
            let value = read(core, bus, make_word(index, page));
            core.dma.oam = OamDma::Write { page, index, value };
        },
        OamDma::Write { page, index, value } => {
            crate::cpu::write(core, bus, OAM_DATA, value);
            core.dma.oam = if index == 0xFF {
                OamDma::Idle
            } else {
                OamDma::Read { page, index: index + 1 }
            };
        },
    }
}

/// The cycles that a sprite copy has left: 512 for the 256 bytes, and
/// before them one of waiting, or two when the waiting falls on an even
/// cycle.
pub open spec fn oam_cycles_left(oam: OamDma, odd_cycle: bool) -> int {
    match oam {
        OamDma::Idle => 0,
        OamDma::Wait { page } => if odd_cycle {
            513
        } else {
            514
        },
        OamDma::Align { page } => 513,
        OamDma::Read { page, index } => 2 * (256 - index),
        OamDma::Write { page, index, value } => 2 * (256 - index) - 1,
    }
}

/// Every cycle of a sprite copy brings it one cycle nearer to its end,
/// which is where it has no cycle left. So a copy takes 513 cycles, or 514
/// when the write that asked for it fell on an odd cycle: the waiting then
/// falls on an even one.
pub proof fn lemma_oam_cycle_counts<B: Bus>(core: Core, bus: B::V)
    requires
        core.dma.oam != OamDma::Idle,
    ensures
        oam_cycles_left(oam_cycle_spec::<B>(core, bus).0.dma.oam, !core.odd_cycle)
            == oam_cycles_left(core.dma.oam, core.odd_cycle) - 1,
        oam_cycle_spec::<B>(core, bus).0.odd_cycle == core.odd_cycle,
        oam_cycles_left(core.dma.oam, core.odd_cycle) == 1 <==> oam_cycle_spec::<B>(
            core,
            bus,
        ).0.dma.oam == OamDma::Idle,
{
}

} // verus!
