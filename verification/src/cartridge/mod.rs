//! The cartridge as the core sees it.

pub mod format;
pub mod mapper;
pub mod nrom;
pub mod sxrom;

use crate::open_bus::OpenBusReadResult;
use crate::save::codec::MAX_SECTION;
use vstd::prelude::*;

verus! {

/// How the cartridge wires the picture unit's two kilobytes of nametable
/// memory into its four nametables.
#[derive(Debug, Clone, Copy, PartialEq, Eq, Structural)]
pub enum Mirroring {
    /// Nametables side by side show the same memory.
    Horizontal,
    /// Nametables one above the other show the same memory.
    Vertical,
    /// All four show the first kilobyte.
    SingleLower,
    /// All four show the second kilobyte.
    SingleUpper,
}

/// The part of the cartridge that never changes once it is loaded.
pub trait Cartridge: View + Sized {
    /// The cartridge after a read of `address` from the CPU's side, and
    /// what the read returns. The core assumes nothing about sizes.
    spec fn read_prg_spec(cartridge: Self::V, address: u16) -> (Self::V, OpenBusReadResult);

    /// The cartridge after a write from the CPU's side.
    spec fn write_prg_spec(cartridge: Self::V, address: u16, value: u8) -> Self::V;

    /// The cartridge after a read of `address` from the picture unit's
    /// side, and the byte read.
    spec fn read_chr_spec(cartridge: Self::V, address: u16) -> (Self::V, u8);

    /// The cartridge after a write from the picture unit's side.
    spec fn write_chr_spec(cartridge: Self::V, address: u16, value: u8) -> Self::V;

    /// How the nametables are wired.
    spec fn mirroring_spec(cartridge: Self::V) -> Mirroring;

    /// The cartridge after it was told that a scanline is drawn, and
    /// whether it pulls the interrupt line for it.
    spec fn notify_scanline_spec(cartridge: Self::V) -> (Self::V, bool);

    fn read_prg(&mut self, address: u16) -> (r: OpenBusReadResult)
        ensures
            (final(self)@, r) == Self::read_prg_spec(old(self)@, address),
    ;

    fn write_prg(&mut self, address: u16, value: u8)
        ensures
            final(self)@ == Self::write_prg_spec(old(self)@, address, value),
    ;

    fn read_chr(&mut self, address: u16) -> (r: u8)
        ensures
            (final(self)@, r) == Self::read_chr_spec(old(self)@, address),
    ;

    fn write_chr(&mut self, address: u16, value: u8)
        ensures
            final(self)@ == Self::write_chr_spec(old(self)@, address, value),
    ;

    fn mirroring(&self) -> (r: Mirroring)
        ensures
            r == Self::mirroring_spec(self@),
    ;

    fn notify_scanline(&mut self) -> (irq: bool)
        ensures
            (final(self)@, irq) == Self::notify_scanline_spec(old(self)@),
    ;

    /// The bytes that stand for what of the cartridge can change.
    spec fn saved(cartridge: Self::V) -> Seq<u8>;

    /// `cartridge` with what can change taken from `bytes`, if they stand for
    /// that.
    spec fn restored(cartridge: Self::V, bytes: Seq<u8>) -> Option<Self::V>;

    /// Whether two cartridges agree in what cannot change.
    spec fn same_image(cartridge: Self::V, other: Self::V) -> bool;

    /// Writes down what can change: see [`Cartridge::saved`].
    fn save(&self) -> (out: Vec<u8>)
        ensures
            out@ == Self::saved(self@),
    ;

    /// Whether `bytes` can be restored from.
    fn restorable(&self, bytes: &Vec<u8>) -> (r: bool)
        ensures
            r == Self::restored(self@, bytes@).is_some(),
    ;

    /// Takes what can change from `bytes`; answers whether they stood for
    /// that. If they did not, nothing changes.
    fn restore(&mut self, bytes: &Vec<u8>) -> (done: bool)
        ensures
            done == Self::restored(old(self)@, bytes@).is_some(),
            final(self)@ == (if done {
                Self::restored(old(self)@, bytes@).unwrap()
            } else {
                old(self)@
            }),
    ;

    /// What was saved of a cartridge is what is restored into any cartridge that
    /// agrees with it in what cannot change.
    proof fn lemma_restores(fresh: Self::V, cartridge: Self::V)
        requires
            Self::same_image(fresh, cartridge),
            Self::saved(cartridge).len() <= MAX_SECTION,
        ensures
            Self::restored(fresh, Self::saved(cartridge)) == Some(cartridge),
    ;
}

} // verus!
