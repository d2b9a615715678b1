//! The bus of the whole machine: 2 KiB of memory, the picture unit, the
//! audio unit, the controller ports and the cartridge, each at its
//! addresses.

use super::bus::{Bus, Transaction};
use super::interrupt::{Interrupt, IrqSource};
use crate::apu;
use crate::cartridge::Cartridge;
use crate::controller::Controller;
use crate::memory::{byte_at, fill, filled, load, store, stored};
use crate::open_bus::OpenBusReadResult;
use crate::ppu::{Ppu, PpuView};
use vstd::prelude::*;

verus! {

/// The size of the internal memory, which repeats up to 0x1FFF.
pub const RAM_SIZE: usize = 0x800;

/// The first address of the picture unit's registers, which repeat up to
/// 0x3FFF.
pub const PPU_BASE: u16 = 0x2000;

/// The first address of the audio unit's and the ports' registers.
pub const IO_BASE: u16 = 0x4000;

/// The register whose writes ask for a sprite DMA.
pub const OAM_DMA: u16 = 0x4014;

/// The audio unit's status register.
pub const APU_STATUS: u16 = 0x4015;

/// The first controller port, whose writes are the strobe.
pub const PORT1: u16 = 0x4016;

/// The second controller port, whose writes go to the audio unit's frame
/// sequencer.
pub const PORT2: u16 = 0x4017;

/// The first address that belongs to the cartridge.
pub const CARTRIDGE_BASE: u16 = 0x4020;

/// The machine behind the CPU's bus.
pub struct Memory<G, C> {
    pub ram: Vec<u8>,
    pub ppu: Ppu,
    pub apu: apu::Core,
    pub cartridge: G,
    pub controller: C,
    /// The byte that was last on the data lines.
    pub open_bus: u8,
    /// The page of a sprite DMA that was asked for and not yet taken up.
    pub oam_dma: Option<u8>,
    /// Every access so far.
    pub log: Ghost<Seq<Transaction>>,
}

/// The machine as contracts see it.
pub struct MemoryView<GV, CV> {
    pub ram: Seq<u8>,
    pub ppu: PpuView,
    pub apu: apu::Core,
    pub cartridge: GV,
    pub controller: CV,
    pub open_bus: u8,
    pub oam_dma: Option<u8>,
}

impl<G: Cartridge, C: Controller> View for Memory<G, C> {
    type V = MemoryView<G::V, C::V>;

    open spec fn view(&self) -> MemoryView<G::V, C::V> {
        MemoryView {
            ram: self.ram@,
            ppu: self.ppu@,
            apu: self.apu,
            cartridge: self.cartridge@,
            controller: self.controller@,
            open_bus: self.open_bus,
            oam_dma: self.oam_dma,
        }
    }
}

impl<GV, CV> MemoryView<GV, CV> {
    /// The sizes of the machine's memories: internal memory, then those
    /// of the picture unit.
    pub open spec fn extent(self) -> Seq<nat> {
        seq![self.ram.len()] + self.ppu.extent()
    }

    /// Whether every memory has the size that the machine is built with.
    pub open spec fn sized(self) -> bool {
        self.ram.len() == RAM_SIZE && self.ppu.sized()
    }
}

/// Machines whose memories have the same sizes are sized alike.
pub proof fn lemma_extent_sizes<GV, CV>(before: MemoryView<GV, CV>, after: MemoryView<GV, CV>)
    requires
        before.extent() == after.extent(),
    ensures
        before.sized() == after.sized(),
{
    let a = before.extent();
    let b = after.extent();
    assert(a[0] == b[0]);
    assert(before.ppu.extent() =~= a.subrange(1, a.len() as int));
    assert(after.ppu.extent() =~= b.subrange(1, b.len() as int));
    crate::ppu::lemma_extent_sizes(before.ppu, after.ppu);
}

/// The machine and the interrupt lines after the device at `address` was
/// read, and what the device drove.
///
/// Internal memory answers up to 0x1FFF, the picture unit up to 0x3FFF,
/// the audio unit at its status register, the controller at the two
/// ports, the cartridge from 0x4020 on, and nothing in between.
pub open spec fn device_read<G: Cartridge, C: Controller>(
    bus: MemoryView<G::V, C::V>,
    address: u16,
    interrupt: Interrupt,
) -> (MemoryView<G::V, C::V>, Interrupt, OpenBusReadResult) {
    if address < PPU_BASE {
        (
            bus,
            interrupt,
            OpenBusReadResult { data: byte_at(bus.ram, (address % 0x800) as int), mask: 0xFF },
        )
    } else if address < IO_BASE {
        let (ppu, cartridge, i, value) = bus.ppu.register_read::<G>(
            bus.cartridge,
            interrupt,
            address,
        );
        (MemoryView { ppu, cartridge, ..bus }, i, OpenBusReadResult { data: value, mask: 0xFF })
    } else if address == APU_STATUS {
        (
            bus,
            apu::Core::released(interrupt, IrqSource::FrameCounter),
            OpenBusReadResult { data: bus.apu.status(interrupt) as u8, mask: 0xDF },
        )
    } else if address == PORT1 || address == PORT2 {
        let (controller, result) = C::read_spec(bus.controller, address);
        (MemoryView { controller, ..bus }, interrupt, result)
    } else if address < CARTRIDGE_BASE {
        (bus, interrupt, OpenBusReadResult { data: 0, mask: 0 })
    } else {
        let (cartridge, result) = G::read_prg_spec(bus.cartridge, address);
        (MemoryView { cartridge, ..bus }, interrupt, result)
    }
}

/// The machine and the interrupt lines after `value` was written to the
/// device at `address`. A write to 0x4014 asks for a sprite DMA from the
/// page `value`, one to 0x4016 is the controllers' strobe, and the other
/// addresses from 0x4000 to 0x4017 belong to the audio unit.
pub open spec fn device_written<G: Cartridge, C: Controller>(
    bus: MemoryView<G::V, C::V>,
    address: u16,
    value: u8,
    interrupt: Interrupt,
) -> (MemoryView<G::V, C::V>, Interrupt) {
    if address < PPU_BASE {
        (MemoryView { ram: stored(bus.ram, (address % 0x800) as int, value), ..bus }, interrupt)
    } else if address < IO_BASE {
        let (ppu, cartridge, i) = bus.ppu.register_written::<G>(
            bus.cartridge,
            interrupt,
            address,
            value,
        );
        (MemoryView { ppu, cartridge, ..bus }, i)
    } else if address == OAM_DMA {
        (MemoryView { oam_dma: Some(value), ..bus }, interrupt)
    } else if address == PORT1 {
        (MemoryView { controller: C::write_spec(bus.controller, value), ..bus }, interrupt)
    } else if address < CARTRIDGE_BASE {
        let (apu, i) = bus.apu.register_written(address, value, interrupt);
        (MemoryView { apu, ..bus }, i)
    } else {
        (
            MemoryView { cartridge: G::write_prg_spec(bus.cartridge, address, value), ..bus },
            interrupt,
        )
    }
}

/// Whether `access` falls between 0x4000 and 0x401F and finds no device
/// there: a read of what is neither the audio unit's status register nor
/// a controller port, or a write that is neither the sprite DMA's nor the
/// strobe and reaches no register of the audio unit.
pub open spec fn unhandled(access: Transaction) -> bool {
    match access {
        Transaction::Read { address, value } => IO_BASE <= address < CARTRIDGE_BASE && address
            != PORT1 && address != PORT2 && !apu::Core::reads(address),
        Transaction::Write { address, value } => IO_BASE <= address < CARTRIDGE_BASE && address
            != OAM_DMA && address != PORT1 && !apu::Core::writes(address),
    }
}

/// Whether `access` found no device: see [`unhandled`].
pub fn is_unhandled(access: Transaction) -> (r: bool)
    ensures
        r == unhandled(access),
{
    match access {
        Transaction::Read { address, value } => IO_BASE <= address && address < CARTRIDGE_BASE
            && address != PORT1 && address != PORT2 && !apu::Core::handles_read(address),
        Transaction::Write { address, value } => IO_BASE <= address && address < CARTRIDGE_BASE
            && address != OAM_DMA && address != PORT1 && !apu::Core::handles_write(address),
    }
}

/// An access that finds no device changes nothing behind the bus: a read
/// drives no line, and a write is dropped.
pub proof fn lemma_unhandled_is_dropped<G: Cartridge, C: Controller>(
    bus: MemoryView<G::V, C::V>,
    address: u16,
    value: u8,
    interrupt: Interrupt,
)
    ensures
        unhandled(Transaction::Read { address, value }) ==> device_read::<G, C>(
            bus,
            address,
            interrupt,
        ) == (bus, interrupt, OpenBusReadResult { data: 0, mask: 0 }),
        unhandled(Transaction::Write { address, value }) ==> device_written::<G, C>(
            bus,
            address,
            value,
            interrupt,
        ) == (bus, interrupt),
{
}

impl<G: Cartridge, C: Controller> Memory<G, C> {
    /// The machine at power-on around the given cartridge and controller:
    /// memory cleared, and the audio unit four cycles in.
    pub fn new(cartridge: G, controller: C, interrupt: &mut Interrupt) -> (r: Self)
        ensures
            r@.ram == filled(RAM_SIZE as nat, 0),
            r@.ppu == PpuView::initial(),
            (r@.apu, *final(interrupt)) == apu::Core::fresh().initialized(*old(interrupt)),
            r@.apu.wf(),
            r@.cartridge == cartridge@,
            r@.controller == controller@,
            r@.open_bus == 0,
            r@.oam_dma.is_none(),
            r@.sized(),
            r.transactions() == Seq::<Transaction>::empty(),
    {
        Memory {
            ram: fill(RAM_SIZE, 0),
            ppu: Ppu::new(),
            apu: apu::Core::new(interrupt),
            cartridge,
            controller,
            open_bus: 0,
            oam_dma: None,
            log: Ghost(Seq::empty()),
        }
    }

    /// Reads the device at `address`: see [`device_read`].
    pub fn read_device(&mut self, address: u16, interrupt: &mut Interrupt) -> (r:
        OpenBusReadResult)
        ensures
            final(self).log@ == old(self).log@,
            final(self)@.extent() == old(self)@.extent(),
            (final(self)@, *final(interrupt), r) == device_read::<G, C>(
                old(self)@,
                address,
                *old(interrupt),
            ),
    {
        if address < PPU_BASE {
            OpenBusReadResult::new(load(&self.ram, (address % 0x800) as usize), 0xFF)
        } else if address < IO_BASE {
            let value = self.ppu.read_register(address, &mut self.cartridge, interrupt);
            OpenBusReadResult::new(value, 0xFF)
        } else if address == APU_STATUS {
            self.apu.read_register(address, interrupt)
        } else if address == PORT1 || address == PORT2 {
            self.controller.read(address)
        } else if address < CARTRIDGE_BASE {
            OpenBusReadResult::new(0, 0)
        } else {
            self.cartridge.read_prg(address)
        }
    }

    /// Writes to the device at `address`: see [`device_written`].
    pub fn write_device(&mut self, address: u16, value: u8, interrupt: &mut Interrupt)
        ensures
            final(self).log@ == old(self).log@,
            final(self)@.extent() == old(self)@.extent(),
            (final(self)@, *final(interrupt)) == device_written::<G, C>(
                old(self)@,
                address,
                value,
                *old(interrupt),
            ),
    {
        if address < PPU_BASE {
            store(&mut self.ram, (address % 0x800) as usize, value);
        } else if address < IO_BASE {
            self.ppu.write_register(address, value, &mut self.cartridge, interrupt);
        } else if address == OAM_DMA {
            self.oam_dma = Some(value);
        } else if address == PORT1 {
            self.controller.write(value);
        } else if address < CARTRIDGE_BASE {
            self.apu.write_register(address, value, interrupt);
        } else {
            self.cartridge.write_prg(address, value);
        }
    }
}

impl<G: Cartridge, C: Controller> Bus for Memory<G, C> {
    open spec fn transactions(&self) -> Seq<Transaction> {
        self.log@
    }

    /// The device is read; the lines that it does not drive keep what was
    /// last on the bus, and the byte that results stays there.
    open spec fn read_spec(bus: MemoryView<G::V, C::V>, address: u16, interrupt: Interrupt) -> (
        MemoryView<G::V, C::V>,
        Interrupt,
        u8,
    ) {
        let (b, i, result) = device_read::<G, C>(bus, address, interrupt);
        let value = result.resolved(bus.open_bus);
        (
            MemoryView { open_bus: value, ..b },
            i,
            value,
        )
    }

    open spec fn write_spec(
        bus: MemoryView<G::V, C::V>,
        address: u16,
        value: u8,
        interrupt: Interrupt,
    ) -> (MemoryView<G::V, C::V>, Interrupt) {
        let (b, i) = device_written::<G, C>(bus, address, value, interrupt);
        (
            MemoryView { open_bus: value, ..b },
            i,
        )
    }

    /// The line and the dot at which the picture unit stands.
    open spec fn timing(bus: MemoryView<G::V, C::V>) -> (int, int) {
        (bus.ppu.state.scanline as int, bus.ppu.state.dot as int)
    }

    open spec fn extent(bus: MemoryView<G::V, C::V>) -> Seq<nat> {
        bus.extent()
    }

    open spec fn oam_dma_request(bus: MemoryView<G::V, C::V>) -> Option<u8> {
        bus.oam_dma
    }

    open spec fn oam_dma_taken(bus: MemoryView<G::V, C::V>) -> MemoryView<G::V, C::V> {
        MemoryView { oam_dma: None, ..bus }
    }

    open spec fn dmc_request(bus: MemoryView<G::V, C::V>) -> Option<u16> {
        bus.apu.dmc.request()
    }

    open spec fn dmc_fill_spec(bus: MemoryView<G::V, C::V>, value: u8, interrupt: Interrupt) -> (
        MemoryView<G::V, C::V>,
        Interrupt,
    ) {
        (
            MemoryView { apu: apu::Core { dmc: bus.apu.dmc.filled(value), ..bus.apu }, ..bus },
            if bus.apu.dmc.fill_interrupts() {
                Interrupt { irq_flag: interrupt.irq_flag.with(IrqSource::Dmc, true), ..interrupt }
            } else {
                interrupt
            },
        )
    }

    fn read(&mut self, address: u16, interrupt: &mut Interrupt) -> (value: u8) {
        let result = self.read_device(address, interrupt);
        let value = result.resolve(self.open_bus);
        self.open_bus = value;
        proof {
            self.log@ = self.log@.push(Transaction::Read { address, value });
        }
        value
    }

    fn write(&mut self, address: u16, value: u8, interrupt: &mut Interrupt) {
        self.write_device(address, value, interrupt);
        self.open_bus = value;
        proof {
            self.log@ = self.log@.push(Transaction::Write { address, value });
        }
    }

    fn take_oam_dma(&mut self) -> (page: Option<u8>) {
        let page = self.oam_dma;
        self.oam_dma = None;
        page
    }

    fn dmc_fill_address(&self) -> (address: Option<u16>) {
        self.apu.dmc_fill_address()
    }

    fn dmc_fill(&mut self, value: u8, interrupt: &mut Interrupt) {
        self.apu.dmc_fill(value, interrupt);
    }
}

} // verus!
