//! A bus of plain memory that records every access: what the CPU needs to
//! be driven alone.

use super::bus::{Bus, Transaction};
use super::interrupt::Interrupt;
use crate::memory::{fill, filled};
use vstd::prelude::*;

verus! {

/// The register whose writes ask for a sprite DMA.
pub const OAM_DMA: u16 = 0x4014;

/// The size of the address space.
pub const ADDRESS_SPACE: usize = 0x10000;

/// The bus as contracts see it.
pub struct RecordingBusView {
    /// The 64 KiB behind the addresses.
    pub memory: Seq<u8>,
    /// The page of a sprite DMA that was asked for and not yet taken up.
    pub oam_dma: Option<u8>,
    /// The address at which a sample byte is waited for.
    pub dmc: Option<u16>,
    /// The sample bytes handed over so far, oldest first.
    pub samples: Seq<u8>,
}

impl RecordingBusView {
    /// The byte at `address`: zero where there is no memory.
    pub open spec fn byte(self, address: u16) -> u8 {
        if address < self.memory.len() {
            self.memory[address as int]
        } else {
            0
        }
    }

    /// The memory with `value` at `address`, where there is memory.
    pub open spec fn stored(self, address: u16, value: u8) -> Seq<u8> {
        if address < self.memory.len() {
            self.memory.update(address as int, value)
        } else {
            self.memory
        }
    }


    /// The bus after `value` was written to `address`: memory takes it,
    /// and a write to the DMA register asks for a sprite copy from the
    /// page `value`.
    pub open spec fn after_write(self, address: u16, value: u8) -> RecordingBusView {
        RecordingBusView {
            memory: self.stored(address, value),
            oam_dma: if address == OAM_DMA {
                Some(value)
            } else {
                self.oam_dma
            },
            ..self
        }
    }
}

/// 64 KiB of memory at every address. A write to 0x4014 also asks for a
/// sprite DMA, and a sample fetch can be asked for by hand; neither the
/// reads nor the writes move an interrupt line.
pub struct RecordingBus {
    memory: Vec<u8>,
    log: Vec<Transaction>,
    oam_dma: Option<u8>,
    dmc: Option<u16>,
    samples: Vec<u8>,
}

impl View for RecordingBus {
    type V = RecordingBusView;

    closed spec fn view(&self) -> RecordingBusView {
        RecordingBusView {
            memory: self.memory@,
            oam_dma: self.oam_dma,
            dmc: self.dmc,
            samples: self.samples@,
        }
    }
}

impl RecordingBus {
    /// A bus whose memory is all zero and that has seen no access.
    pub fn new() -> (r: Self)
        ensures
            r.transactions() == Seq::<Transaction>::empty(),
            r@ == (RecordingBusView {
                memory: filled(ADDRESS_SPACE as nat, 0),
                oam_dma: None,
                dmc: None,
                samples: Seq::empty(),
            }),
    {
        RecordingBus {
            memory: fill(ADDRESS_SPACE, 0),
            log: Vec::new(),
            oam_dma: None,
            dmc: None,
            samples: Vec::new(),
        }
    }

    /// Puts `value` at `address` without an access.
    pub fn poke(&mut self, address: u16, value: u8)
        ensures
            final(self)@ == (RecordingBusView {
                memory: old(self)@.stored(address, value),
                ..old(self)@
            }),
            final(self).transactions() == old(self).transactions(),
    {
        if (address as usize) < self.memory.len() {
            self.memory.set(address as usize, value);
        }
    }

    /// The byte at `address`, without an access.
    pub fn peek(&self, address: u16) -> (value: u8)
        ensures
            value == self@.byte(address),
    {
        if (address as usize) < self.memory.len() {
            self.memory[address as usize]
        } else {
            0
        }
    }

    /// Asks for a sample fetch at `address`, or withdraws the request.
    pub fn request_sample(&mut self, address: Option<u16>)
        ensures
            final(self)@ == (RecordingBusView { dmc: address, ..old(self)@ }),
            final(self).transactions() == old(self).transactions(),
    {
        self.dmc = address;
    }

    /// How many accesses were made.
    pub fn count(&self) -> (r: usize)
        ensures
            r == self.transactions().len(),
    {
        self.log.len()
    }

    /// The access number `index`, counted from zero.
    pub fn access(&self, index: usize) -> (r: Option<Transaction>)
        ensures
            r == (if index < self.transactions().len() {
                Some(self.transactions()[index as int])
            } else {
                None
            }),
    {
        if index < self.log.len() {
            Some(self.log[index])
        } else {
            None
        }
    }

    /// How many sample bytes were handed over.
    pub fn sample_count(&self) -> (r: usize)
        ensures
            r == self@.samples.len(),
    {
        self.samples.len()
    }
}

impl Bus for RecordingBus {
    closed spec fn transactions(&self) -> Seq<Transaction> {
        self.log@
    }

    open spec fn read_spec(bus: RecordingBusView, address: u16, interrupt: Interrupt) -> (
        RecordingBusView,
        Interrupt,
        u8,
    ) {
        (bus, interrupt, bus.byte(address))
    }

    open spec fn write_spec(
        bus: RecordingBusView,
        address: u16,
        value: u8,
        interrupt: Interrupt,
    ) -> (RecordingBusView, Interrupt) {
        (bus.after_write(address, value), interrupt)
    }

    open spec fn timing(bus: RecordingBusView) -> (int, int) {
        (0, 0)
    }

    /// The size of the one memory.
    open spec fn extent(bus: RecordingBusView) -> Seq<nat> {
        seq![bus.memory.len()]
    }

    open spec fn oam_dma_request(bus: RecordingBusView) -> Option<u8> {
        bus.oam_dma
    }

    open spec fn oam_dma_taken(bus: RecordingBusView) -> RecordingBusView {
        RecordingBusView { oam_dma: None, ..bus }
    }

    open spec fn dmc_request(bus: RecordingBusView) -> Option<u16> {
        bus.dmc
    }

    open spec fn dmc_fill_spec(bus: RecordingBusView, value: u8, interrupt: Interrupt) -> (
        RecordingBusView,
        Interrupt,
    ) {
        (RecordingBusView { dmc: None, samples: bus.samples.push(value), ..bus }, interrupt)
    }

    fn read(&mut self, address: u16, interrupt: &mut Interrupt) -> (value: u8) {
        let value = self.peek(address);
        self.log.push(Transaction::Read { address, value });
        value
    }

    fn write(&mut self, address: u16, value: u8, interrupt: &mut Interrupt) {
        self.poke(address, value);
        self.log.push(Transaction::Write { address, value });
        if address == OAM_DMA {
            self.oam_dma = Some(value);
        }
    }

    fn take_oam_dma(&mut self) -> (page: Option<u8>) {
        let page = self.oam_dma;
        self.oam_dma = None;
        page
    }

    fn dmc_fill_address(&self) -> (address: Option<u16>) {
        self.dmc
    }

    fn dmc_fill(&mut self, value: u8, interrupt: &mut Interrupt) {
        self.dmc = None;
        self.samples.push(value);
    }
}

} // verus!
