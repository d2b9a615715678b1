//! Storage for a picture on its way to the display.

use super::logical_size::LogicalSize;
use crate::memory::{byte_at, fill, filled, load, store, stored};
use crate::ppu::{Pixel, Screen};
use vstd::pervasive::cloned;
use vstd::prelude::*;

verus! {

/// A picture of colour indices, row by row, that keeps what the picture
/// unit sent last for every pixel.
pub struct ScreenBuffer {
    pub size: LogicalSize,
    pub buffer: Vec<u8>,
    /// Every pixel that was sent, oldest first.
    pub history: Ghost<Seq<Pixel>>,
}

/// The picture `buffer` of the given width after `pixel` was drawn into
/// it. A pixel that lies outside is dropped.
pub open spec fn drawn_into(buffer: Seq<u8>, size: LogicalSize, pixel: Pixel) -> Seq<u8> {
    if pixel.x < size.width && pixel.y < size.height {
        stored(buffer, pixel.y * size.width + pixel.x, pixel.index)
    } else {
        buffer
    }
}

impl ScreenBuffer {
    /// A picture of the given size, all of colour index 0.
    pub fn new(size: LogicalSize) -> (r: Self)
        requires
            size.width * size.height <= usize::MAX,
        ensures
            r.size == size,
            r.buffer@ == filled((size.width * size.height) as nat, 0),
            r.history@ == Seq::<Pixel>::empty(),
    {
        ScreenBuffer { size, buffer: fill(size.width * size.height, 0), history: Ghost(Seq::empty()) }
    }

    pub fn logical_size(&self) -> (r: LogicalSize)
        ensures
            r == self.size,
    {
        self.size
    }

    /// The colour index at column `x` of row `y`; zero outside the
    /// picture.
    pub fn get(&self, x: usize, y: usize) -> (r: u8)
        ensures
            r == (if x < self.size.width && y < self.size.height {
                byte_at(self.buffer@, y * self.size.width + x)
            } else {
                0
            }),
    {
        if x < self.size.width && y < self.size.height {
            let length = self.buffer.len();
            match y.checked_mul(self.size.width) {
                Some(row) => match row.checked_add(x) {
                    Some(slot) => load(&self.buffer, slot),
                    None => {
                        assert(y * self.size.width + x > length);
                        0
                    },
                },
                None => {
                    assert(y * self.size.width + x > length);
                    0
                },
            }
        } else {
            0
        }
    }
}

impl Screen for ScreenBuffer {
    open spec fn pixels(&self) -> Seq<Pixel> {
        self.history@
    }

    fn write_pixel(&mut self, x: u8, y: u8, index: u8, emphasis: u8)
        ensures
            final(self).size == old(self).size,
            final(self).buffer@ == drawn_into(
                old(self).buffer@,
                old(self).size,
                Pixel { x, y, index, emphasis },
            ),
    {
        if (x as usize) < self.size.width && (y as usize) < self.size.height {
            let length = self.buffer.len();
            match (y as usize).checked_mul(self.size.width) {
                Some(row) => match row.checked_add(x as usize) {
                    Some(slot) => {
                        store(&mut self.buffer, slot, index);
                    },
                    None => {
                        assert(y * self.size.width + x > length);
                    },
                },
                None => {
                    assert(y * self.size.width + x > length);
                },
            }
        }
        proof {
            self.history@ = self.history@.push(Pixel { x, y, index, emphasis });
        }
    }
}

/// Every element of `buffer` is a clone of `value`.
pub open spec fn filled_with<T: Clone>(buffer: Seq<T>, value: T) -> bool {
    forall|i: int| 0 <= i < buffer.len() ==> cloned(value, #[trigger] buffer[i])
}

/// A buffer of `size` elements, each a clone of one value that
/// `T::default` gives.
pub fn allocate<T: Default + Clone>(size: usize) -> (buffer: Vec<T>)
    ensures
        buffer@.len() == size,
        exists|value: T| call_ensures(T::default, (), value) && filled_with(buffer@, value),
{
    let value = T::default();
    let buffer = vec![value; size];
    proof {
        assert(call_ensures(T::default, (), value) && filled_with(buffer@, value));
    }
    buffer
}

} // verus!
