//! The CPU's view of the machine: a 16-bit address space behind which
//! memory, registers and the cartridge answer.

use super::interrupt::Interrupt;
use vstd::prelude::*;

verus! {

/// One access to the address space.
#[derive(Debug, Clone, Copy, PartialEq, Eq, Structural)]
pub enum Transaction {
    Read { address: u16, value: u8 },
    Write { address: u16, value: u8 },
}

/// What the CPU drives: every access reaches some device, may move the
/// interrupt lines, and is recorded.
///
/// A bus is a deterministic machine. Its view is its state as contracts see
/// it; `read_spec` and `write_spec` give the state and the interrupt lines
/// after an access, and the byte that a read returns, as functions of the
/// state and the lines before it.
pub trait Bus: View + Sized {
    /// The accesses made so far, oldest first. They are the bus's history,
    /// not part of its state: nothing that the bus does depends on them.
    spec fn transactions(&self) -> Seq<Transaction>;

    /// The bus and the lines after a read of `address`, and the byte read.
    spec fn read_spec(bus: Self::V, address: u16, interrupt: Interrupt) -> (
        Self::V,
        Interrupt,
        u8,
    );

    /// The bus and the lines after `value` is written to `address`.
    spec fn write_spec(bus: Self::V, address: u16, value: u8, interrupt: Interrupt) -> (
        Self::V,
        Interrupt,
    );

    /// Where the devices behind the bus stand in their own time, which no
    /// access moves: whoever owns the bus clocks them.
    spec fn timing(bus: Self::V) -> (int, int);

    /// The sizes of the memories behind the bus, which no access changes.
    spec fn extent(bus: Self::V) -> Seq<nat>;

    /// The page that a sprite DMA was asked to copy, while the request waits.
    spec fn oam_dma_request(bus: Self::V) -> Option<u8>;

    /// The bus once the waiting sprite DMA request was taken up.
    spec fn oam_dma_taken(bus: Self::V) -> Self::V;

    /// The address of the sample byte that the delta-modulation channel
    /// waits for, while it waits.
    spec fn dmc_request(bus: Self::V) -> Option<u16>;

    /// The bus and the lines after the sample byte `value` was handed to
    /// the delta-modulation channel.
    spec fn dmc_fill_spec(bus: Self::V, value: u8, interrupt: Interrupt) -> (Self::V, Interrupt);

    fn read(&mut self, address: u16, interrupt: &mut Interrupt) -> (value: u8)
        ensures
            (final(self)@, *final(interrupt), value) == Self::read_spec(
                old(self)@,
                address,
                *old(interrupt),
            ),
            final(self).transactions() == old(self).transactions().push(
                Transaction::Read { address, value },
            ),
            Self::timing(final(self)@) == Self::timing(old(self)@),
            Self::extent(final(self)@) == Self::extent(old(self)@),
    ;

    fn write(&mut self, address: u16, value: u8, interrupt: &mut Interrupt)
        ensures
            (final(self)@, *final(interrupt)) == Self::write_spec(
                old(self)@,
                address,
                value,
                *old(interrupt),
            ),
            final(self).transactions() == old(self).transactions().push(
                Transaction::Write { address, value },
            ),
            Self::timing(final(self)@) == Self::timing(old(self)@),
            Self::extent(final(self)@) == Self::extent(old(self)@),
    ;

    /// Takes up the sprite DMA request, if one waits. No access is made.
    fn take_oam_dma(&mut self) -> (page: Option<u8>)
        ensures
            page == Self::oam_dma_request(old(self)@),
            final(self)@ == (if page.is_some() {
                Self::oam_dma_taken(old(self)@)
            } else {
                old(self)@
            }),
            final(self).transactions() == old(self).transactions(),
            Self::timing(final(self)@) == Self::timing(old(self)@),
            Self::extent(final(self)@) == Self::extent(old(self)@),
    ;

    /// The address of the sample byte that is waited for. No access is made.
    fn dmc_fill_address(&self) -> (address: Option<u16>)
        ensures
            address == Self::dmc_request(self@),
    ;

    /// Hands a sample byte to the delta-modulation channel. No access is
    /// made.
    fn dmc_fill(&mut self, value: u8, interrupt: &mut Interrupt)
        ensures
            (final(self)@, *final(interrupt)) == Self::dmc_fill_spec(
                old(self)@,
                value,
                *old(interrupt),
            ),
            final(self).transactions() == old(self).transactions(),
            Self::timing(final(self)@) == Self::timing(old(self)@),
            Self::extent(final(self)@) == Self::extent(old(self)@),
    ;
}

} // verus!
