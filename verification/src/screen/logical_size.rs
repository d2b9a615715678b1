//! The size of the picture in pixels.

use vstd::prelude::*;

verus! {

/// Width and height of the picture as the picture unit counts them.
#[derive(Debug, Clone, Copy, PartialEq, Eq, Structural)]
pub struct LogicalSize {
    pub width: usize,
    pub height: usize,
}

} // verus!
