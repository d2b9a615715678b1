//! The controller ports.

pub mod standard_controller;

use crate::open_bus::OpenBusReadResult;
use crate::save::codec::MAX_SECTION;
use vstd::prelude::*;

verus! {

/// What is plugged into the two controller ports.
///
/// A controller is a deterministic machine: its view is its state as
/// contracts see it, and `read_spec` and `write_spec` say what a read of
/// a port and a write to the strobe register come to.
pub trait Controller: View + Sized {
    /// The controller after a read of the port at `address`, and what the
    /// read returns.
    spec fn read_spec(controller: Self::V, address: u16) -> (Self::V, OpenBusReadResult);

    /// The controller after `value` was written to the strobe register.
    spec fn write_spec(controller: Self::V, value: u8) -> Self::V;

    fn read(&mut self, address: u16) -> (r: OpenBusReadResult)
        ensures
            (final(self)@, r) == Self::read_spec(old(self)@, address),
    ;

    fn write(&mut self, value: u8)
        ensures
            final(self)@ == Self::write_spec(old(self)@, value),
    ;

    /// The bytes that stand for what of the controller can change.
    spec fn saved(controller: Self::V) -> Seq<u8>;

    /// `controller` with what can change taken from `bytes`, if they stand for
    /// that.
    spec fn restored(controller: Self::V, bytes: Seq<u8>) -> Option<Self::V>;

    /// Whether two controllers agree in what cannot change.
    spec fn same_image(controller: Self::V, other: Self::V) -> bool;

    /// Writes down what can change: see [`Controller::saved`].
    fn save(&self) -> (out: Vec<u8>)
        ensures
            out@ == Self::saved(self@),
    ;

    /// Whether `bytes` can be restored from.
    fn restorable(&self, bytes: &Vec<u8>) -> (r: bool)
        ensures
            r == Self::restored(self@, bytes@).is_some(),
    ;

    /// Takes what can change from `bytes`; answers whether they stood for
    /// that. If they did not, nothing changes.
    fn restore(&mut self, bytes: &Vec<u8>) -> (done: bool)
        ensures
            done == Self::restored(old(self)@, bytes@).is_some(),
            final(self)@ == (if done {
                Self::restored(old(self)@, bytes@).unwrap()
            } else {
                old(self)@
            }),
    ;

    /// What was saved of a controller is what is restored into any controller that
    /// agrees with it in what cannot change.
    proof fn lemma_restores(fresh: Self::V, controller: Self::V)
        requires
            Self::same_image(fresh, controller),
            Self::saved(controller).len() <= MAX_SECTION,
        ensures
            Self::restored(fresh, Self::saved(controller)) == Some(controller),
    ;
}

} // verus!
