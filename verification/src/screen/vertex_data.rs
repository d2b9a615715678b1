//! The corners of the quad on which a display draws the picture.

use vstd::prelude::*;

verus! {

/// A point of the plane. Each coordinate is kept as the bit pattern of a
/// single-precision number, which is what the display's vertex buffer
/// takes.
#[derive(Debug, Clone, Copy, PartialEq, Eq, Structural)]
pub struct Vec2D {
    pub x: u32,
    pub y: u32,
}

impl Vec2D {
    pub fn new(x: u32, y: u32) -> (r: Self)
        ensures
            r == (Vec2D { x, y }),
    {
        Vec2D { x, y }
    }
}

/// One corner: where it lies on the display, and which point of the
/// picture it shows.
#[derive(Debug, Clone, Copy, PartialEq, Eq, Structural)]
pub struct VertexData {
    pub position: Vec2D,
    pub uv: Vec2D,
}

impl VertexData {
    pub fn new(position: Vec2D, uv: Vec2D) -> (r: Self)
        ensures
            r == (VertexData { position, uv }),
    {
        Self { position, uv }
    }
}

} // verus!
