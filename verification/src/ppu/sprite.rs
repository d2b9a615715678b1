//! Sprites: the evaluation that picks those of the next line, the fetch
//! of their patterns, and the pixel they show.

use super::state::{CTRL_SPRITE_TABLE, CTRL_TALL_SPRITES};
use crate::memory::{byte_at, load};
use vstd::prelude::*;

verus! {

/// The number of sprites in sprite memory.
pub const SPRITES: u8 = 64;

/// The number of sprites that a line shows.
pub const SPRITES_PER_LINE: u8 = 8;

/// Bit 5 of a sprite's attribute byte: the sprite lies behind the
/// background.
pub const ATTRIBUTE_BEHIND: u8 = 0x20;

/// Bit 6 of a sprite's attribute byte: the sprite is flipped left to
/// right.
pub const ATTRIBUTE_FLIP_X: u8 = 0x40;

/// Bit 7 of a sprite's attribute byte: the sprite is flipped top to
/// bottom.
pub const ATTRIBUTE_FLIP_Y: u8 = 0x80;

/// Where sprite evaluation stands.
#[derive(Debug, Clone, Copy, PartialEq, Eq, Structural)]
pub struct SpriteEvaluation {
    /// The byte of sprite memory that was read last.
    pub oam_latch: u8,
    /// The sprite that is looked at, and the byte inside it.
    pub n: u8,
    pub m: u8,
    /// How many sprites were found for the next line.
    pub found: u8,
    /// All 64 sprites were looked at, or the ninth was found.
    pub done: bool,
    /// Sprite 0 is among those found.
    pub sprite0_next: bool,
    /// How many sprites the line being drawn has, and whether the first
    /// of them is sprite 0.
    pub sprite_count: u8,
    pub sprite0_current: bool,
}

/// Whether a sprite whose Y byte is `y` covers the line after `scanline`,
/// which is the line that evaluation on `scanline` prepares.
pub open spec fn in_range(scanline: i16, y: u8, height: int) -> bool {
    0 <= scanline - y < height
}

/// The row of the sprite that shows on the line after `scanline`, from 0
/// at its top, or from 0 at its bottom when flipped; 0 for a sprite that
/// does not cover the line.
pub open spec fn sprite_row(scanline: i16, y: u8, height: int, flipped: bool) -> int {
    if in_range(scanline, y, height) {
        if flipped {
            height - 1 - (scanline - y)
        } else {
            scanline - y
        }
    } else {
        0
    }
}

/// The address of the low pattern byte of the sprite row `row`. Sprites of
/// 8 rows take their tile from the table that the control register
/// selects. Sprites of 16 rows take two tiles in a row from the table
/// that bit 0 of the tile number selects, the second for rows 8 to 15.
/// The high byte lies 8 further.
pub open spec fn sprite_pattern_address(ctrl: u8, tile: u8, row: int) -> u16 {
    if ctrl & CTRL_TALL_SPRITES != 0 {
        ((tile % 2) * 0x1000 + (tile - tile % 2 + (if row >= 8 {
            1int
        } else {
            0
        })) * 16 + row % 8) as u16
    } else {
        ((if ctrl & CTRL_SPRITE_TABLE != 0 {
            0x1000int
        } else {
            0
        }) + tile * 16 + row % 8) as u16
    }
}

pub fn covers(scanline: i16, y: u8, height: u8) -> (r: bool)
    ensures
        r == in_range(scanline, y, height as int),
{
    let distance: i32 = (scanline as i32) - (y as i32);
    0 <= distance && distance < (height as i32)
}

pub fn row_of(scanline: i16, y: u8, height: u8, flipped: bool) -> (r: u8)
    requires
        height == 8 || height == 16,
    ensures
        r == sprite_row(scanline, y, height as int, flipped),
        r < height,
{
    let distance: i32 = (scanline as i32) - (y as i32);
    if 0 <= distance && distance < (height as i32) {
        if flipped {
            ((height as i32) - 1 - distance) as u8
        } else {
            distance as u8
        }
    } else {
        0
    }
}

pub fn pattern_slot(ctrl: u8, tile: u8, row: u8) -> (r: u16)
    requires
        row < 16,
    ensures
        r == sprite_pattern_address(ctrl, tile, row as int),
{
    if ctrl & CTRL_TALL_SPRITES != 0 {
        let second: u16 = if row >= 8 {
            1
        } else {
            0
        };
        ((tile % 2) as u16) * 0x1000 + (((tile - tile % 2) as u16) + second) * 16 + ((row % 8) as u16)
    } else {
        let base: u16 = if ctrl & CTRL_SPRITE_TABLE != 0 {
            0x1000
        } else {
            0
        };
        base + (tile as u16) * 16 + ((row % 8) as u16)
    }
}

impl SpriteEvaluation {
    /// Evaluation at power-on.
    pub open spec fn initial() -> SpriteEvaluation {
        SpriteEvaluation {
            oam_latch: 0,
            n: 0,
            m: 0,
            found: 0,
            done: false,
            sprite0_next: false,
            sprite_count: 0,
            sprite0_current: false,
        }
    }

    /// Evaluation as it begins on a line, at dot 65.
    pub open spec fn begun(self) -> SpriteEvaluation {
        SpriteEvaluation { n: 0, m: 0, found: 0, done: false, sprite0_next: false, ..self }
    }

    /// Evaluation with the next sprite looked at: past the last one it is
    /// done.
    pub open spec fn next_sprite(self) -> SpriteEvaluation {
        if self.n >= SPRITES - 1 {
            SpriteEvaluation { n: 0, done: true, ..self }
        } else {
            SpriteEvaluation { n: (self.n + 1) as u8, ..self }
        }
    }

    /// The index into sprite memory of the byte that is looked at.
    pub open spec fn source(self) -> int {
        4 * (self.n % SPRITES) + self.m % 4
    }

    /// The index into the memory of found sprites that the byte looked at
    /// goes to.
    pub open spec fn target(self) -> int {
        4 * (self.found % SPRITES_PER_LINE) + self.m % 4
    }

    /// Evaluation after the byte read last was dealt with on `scanline`.
    ///
    /// While fewer than eight sprites are found, a Y byte that covers the
    /// line makes the sprite's other three bytes follow it, and one that
    /// does not makes the next sprite come. Once eight are found, a Y
    /// byte that covers the line ends evaluation, and one that does not
    /// moves on to the next sprite and, wrongly, to the next byte inside
    /// it too.
    pub open spec fn evaluated(self, scanline: i16, height: int) -> SpriteEvaluation {
        if self.done {
            self
        } else if self.found < SPRITES_PER_LINE {
            if self.m % 4 == 0 {
                if in_range(scanline, self.oam_latch, height) {
                    SpriteEvaluation {
                        m: 1,
                        sprite0_next: self.sprite0_next || self.n == 0,
                        ..self
                    }
                } else {
                    self.next_sprite()
                }
            } else if self.m % 4 == 3 {
                SpriteEvaluation { m: 0, found: (self.found + 1) as u8, ..self }.next_sprite()
            } else {
                SpriteEvaluation { m: (self.m % 4 + 1) as u8, ..self }
            }
        } else {
            if in_range(scanline, self.oam_latch, height) {
                SpriteEvaluation { done: true, ..self }
            } else {
                SpriteEvaluation { m: ((self.m % 4 + 1) % 4) as u8, ..self }.next_sprite()
            }
        }
    }

    /// Whether dealing with the byte read last copies it to the memory of
    /// found sprites.
    pub open spec fn copies(self) -> bool {
        !self.done && self.found < SPRITES_PER_LINE
    }

    /// Whether dealing with the byte read last finds a ninth sprite, which
    /// sets the overflow flag.
    pub open spec fn overflows(self, scanline: i16, height: int) -> bool {
        !self.done && self.found >= SPRITES_PER_LINE && in_range(
            scanline,
            self.oam_latch,
            height,
        )
    }

    /// Evaluation as its results go to the line that is drawn next: on a
    /// visible line what was found, on the pre-render line nothing.
    pub open spec fn handed_over(self, visible: bool) -> SpriteEvaluation {
        SpriteEvaluation {
            sprite_count: if visible {
                self.found
            } else {
                0
            },
            sprite0_current: visible && self.sprite0_next,
            ..self
        }
    }

    pub fn new() -> (r: Self)
        ensures
            r == Self::initial(),
    {
        SpriteEvaluation {
            oam_latch: 0,
            n: 0,
            m: 0,
            found: 0,
            done: false,
            sprite0_next: false,
            sprite_count: 0,
            sprite0_current: false,
        }
    }

    pub fn begin(&mut self)
        ensures
            *final(self) == old(self).begun(),
    {
        self.n = 0;
        self.m = 0;
        self.found = 0;
        self.done = false;
        self.sprite0_next = false;
    }

    pub fn get_source(&self) -> (r: usize)
        ensures
            r == self.source(),
            r < 256,
    {
        4 * ((self.n % SPRITES) as usize) + ((self.m % 4) as usize)
    }

    pub fn get_target(&self) -> (r: usize)
        ensures
            r == self.target(),
            r < 32,
    {
        4 * ((self.found % SPRITES_PER_LINE) as usize) + ((self.m % 4) as usize)
    }

    fn to_next_sprite(&mut self)
        ensures
            *final(self) == old(self).next_sprite(),
    {
        if self.n >= SPRITES - 1 {
            self.n = 0;
            self.done = true;
        } else {
            self.n = self.n + 1;
        }
    }

    /// Deals with the byte read last; answers whether a ninth sprite was
    /// found.
    pub fn evaluate(&mut self, scanline: i16, height: u8) -> (overflow: bool)
        ensures
            *final(self) == old(self).evaluated(scanline, height as int),
            overflow == old(self).overflows(scanline, height as int),
    {
        if self.done {
            false
        } else if self.found < SPRITES_PER_LINE {
            if self.m % 4 == 0 {
                if covers(scanline, self.oam_latch, height) {
                    self.m = 1;
                    self.sprite0_next = self.sprite0_next || self.n == 0;
                } else {
                    self.to_next_sprite();
                }
            } else if self.m % 4 == 3 {
                self.m = 0;
                self.found = self.found + 1;
                self.to_next_sprite();
            } else {
                self.m = self.m % 4 + 1;
            }
            false
        } else {
            if covers(scanline, self.oam_latch, height) {
                self.done = true;
                true
            } else {
                self.m = (self.m % 4 + 1) % 4;
                self.to_next_sprite();
                false
            }
        }
    }

    pub fn hand_over(&mut self, visible: bool)
        ensures
            *final(self) == old(self).handed_over(visible),
    {
        self.sprite_count = if visible {
            self.found
        } else {
            0
        };
        self.sprite0_current = visible && self.sprite0_next;
    }
}

/// What the sprites show at a pixel.
#[derive(Debug, Clone, Copy, PartialEq, Eq, Structural)]
pub struct SpritePixel {
    /// The two pattern bits; zero: no sprite shows.
    pub color: u8,
    /// The two palette bits.
    pub palette: u8,
    /// The sprite lies behind the background.
    pub behind: bool,
    /// The sprite is the first of its line.
    pub first: bool,
}

/// The four memories of the eight sprites of a line: pattern bytes,
/// attribute bytes and X positions.
pub struct SpriteUnits {
    pub low: Seq<u8>,
    pub high: Seq<u8>,
    pub attribute: Seq<u8>,
    pub x: Seq<u8>,
}

/// No sprite.
pub open spec fn no_sprite() -> SpritePixel {
    SpritePixel { color: 0, palette: 0, behind: false, first: false }
}

/// The two pattern bits that a sprite with the given pattern bytes shows
/// `offset` pixels right of its left edge.
pub open spec fn sprite_color(low: u8, high: u8, flipped: bool, offset: int) -> u8 {
    let bit = (if flipped {
        offset % 8
    } else {
        7 - offset % 8
    }) as u8;
    ((if (low >> bit) & 1 != 0 {
        1int
    } else {
        0
    }) + (if (high >> bit) & 1 != 0 {
        2int
    } else {
        0
    })) as u8
}

impl SpriteUnits {
    /// What the sprite number `index` of the line shows at the pixel `x`.
    pub open spec fn pixel_of(self, index: int, x: u8) -> SpritePixel {
        let offset = x - byte_at(self.x, index);
        let attribute = byte_at(self.attribute, index);
        if 0 <= offset < 8 {
            SpritePixel {
                color: sprite_color(
                    byte_at(self.low, index),
                    byte_at(self.high, index),
                    attribute & ATTRIBUTE_FLIP_X != 0,
                    offset,
                ),
                palette: attribute % 4,
                behind: attribute & ATTRIBUTE_BEHIND != 0,
                first: index == 0,
            }
        } else {
            no_sprite()
        }
    }

    /// What the sprites from number `index` on show at the pixel `x`: the
    /// first of them that is not transparent there.
    pub open spec fn pixel_from(self, index: int, count: int, x: u8) -> SpritePixel
        decreases count - index,
    {
        if index >= count || index < 0 {
            no_sprite()
        } else if self.pixel_of(index, x).color != 0 {
            self.pixel_of(index, x)
        } else {
            self.pixel_from(index + 1, count, x)
        }
    }
}

/// The pattern bits of a sprite at `offset`: see [`sprite_color`].
pub fn color_at(low: u8, high: u8, flipped: bool, offset: u8) -> (r: u8)
    ensures
        r == sprite_color(low, high, flipped, offset as int),
        r < 4,
{
    let bit: u8 = if flipped {
        offset % 8
    } else {
        7 - offset % 8
    };
    let low_bit: u8 = if (low >> bit) & 1 != 0 {
        1
    } else {
        0
    };
    let high_bit: u8 = if (high >> bit) & 1 != 0 {
        2
    } else {
        0
    };
    low_bit + high_bit
}

/// What the first `count` sprites of the line show at the pixel `x`.
pub fn sprite_pixel(
    low: &Vec<u8>,
    high: &Vec<u8>,
    attribute: &Vec<u8>,
    position: &Vec<u8>,
    count: u8,
    x: u8,
) -> (r: SpritePixel)
    ensures
        r == (SpriteUnits { low: low@, high: high@, attribute: attribute@, x: position@ }).pixel_from(
            0,
            count as int,
            x,
        ),
        r.color < 4,
        r.palette < 4,
{
    let ghost units = SpriteUnits { low: low@, high: high@, attribute: attribute@, x: position@ };
    let mut index: u8 = 0;
    while index < count
        invariant
            index <= count,
            units == (SpriteUnits { low: low@, high: high@, attribute: attribute@, x: position@ }),
            units.pixel_from(0, count as int, x) == units.pixel_from(index as int, count as int, x),
        decreases count - index,
    {
        let left = load(position, index as usize);
        if x >= left && x - left < 8 {
            let bits = load(attribute, index as usize);
            let color = color_at(
                load(low, index as usize),
                load(high, index as usize),
                bits & ATTRIBUTE_FLIP_X != 0,
                x - left,
            );
            if color != 0 {
                return SpritePixel {
                    color,
                    palette: bits % 4,
                    behind: bits & ATTRIBUTE_BEHIND != 0,
                    first: index == 0,
                };
            }
        }
        index = index + 1;
    }
    SpritePixel { color: 0, palette: 0, behind: false, first: false }
}

} // verus!
