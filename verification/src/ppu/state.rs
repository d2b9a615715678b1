//! The picture unit's registers and counters.

use super::scroll::Scroll;
use vstd::prelude::*;

verus! {

/// The line before the first visible one, on which the pipeline warms up.
pub const PRE_RENDER_LINE: i16 = -1;

/// The number of visible lines.
pub const VISIBLE_LINES: i16 = 240;

/// The line on whose second dot vertical blanking begins.
pub const VBL_LINE: i16 = 241;

/// The last line of a frame.
pub const LAST_LINE: i16 = 260;

/// The last dot of a line.
pub const LAST_DOT: u16 = 340;

/// The number of visible dots of a line, which are dots 1 to 256.
pub const VISIBLE_DOTS: u16 = 256;

/// The dot of a visible line at which the cartridge hears of the line.
pub const SCANLINE_DOT: u16 = 260;

/// The number of pixels of a frame: 256 by 240.
pub const FRAME_PIXELS: u32 = 61440;

/// The number of dots of a frame: 341 by 262.
pub const FRAME_DOTS: u32 = 89342;

/// Bit 7 of the control register: vertical blanking pulls the NMI line.
pub const CTRL_NMI: u8 = 0x80;

/// Bit 5 of the control register: sprites are 16 rows high.
pub const CTRL_TALL_SPRITES: u8 = 0x20;

/// Bit 4 of the control register: the background's pattern table.
pub const CTRL_BACKGROUND_TABLE: u8 = 0x10;

/// Bit 3 of the control register: the pattern table of 8-row sprites.
pub const CTRL_SPRITE_TABLE: u8 = 0x08;

/// Bit 2 of the control register: the data register steps by 32.
pub const CTRL_INCREMENT: u8 = 0x04;

/// Bit 0 of the mask register: colours lose their hue.
pub const MASK_GRAYSCALE: u8 = 0x01;

/// Bit 1 of the mask register: the background shows in the left 8 pixels.
pub const MASK_LEFT_BACKGROUND: u8 = 0x02;

/// Bit 2 of the mask register: sprites show in the left 8 pixels.
pub const MASK_LEFT_SPRITES: u8 = 0x04;

/// Bit 3 of the mask register: the background shows.
pub const MASK_BACKGROUND: u8 = 0x08;

/// Bit 4 of the mask register: sprites show.
pub const MASK_SPRITES: u8 = 0x10;

/// The picture unit's registers, flags and position.
#[derive(Debug, Clone, Copy, PartialEq, Eq, Structural)]
pub struct PpuState {
    pub ctrl: u8,
    pub mask: u8,
    /// The three flags of the status register.
    pub vbl: bool,
    pub sprite0_hit: bool,
    pub overflow: bool,
    pub oam_addr: u8,
    pub scroll: Scroll,
    /// The byte that a read of the data register returns next.
    pub read_buffer: u8,
    /// What was last on the register port's data lines.
    pub open_bus: u8,
    /// The line (-1 to 260) and the dot (0 to 340) that run next.
    pub scanline: i16,
    pub dot: u16,
    pub odd_frame: bool,
    /// A read of the status register caught this frame's vertical
    /// blanking just before it began: the flag stays clear.
    pub suppress_vbl: bool,
}

impl PpuState {
    /// The state at power-on: the pre-render line is about to begin.
    pub open spec fn initial() -> PpuState {
        PpuState {
            ctrl: 0,
            mask: 0,
            vbl: false,
            sprite0_hit: false,
            overflow: false,
            oam_addr: 0,
            scroll: Scroll { v: 0, t: 0, x: 0, w: false },
            read_buffer: 0,
            open_bus: 0,
            scanline: PRE_RENDER_LINE,
            dot: 0,
            odd_frame: false,
            suppress_vbl: false,
        }
    }

    /// What holds of every position: the line is one of the 262 and the dot
    /// one of the 341.
    pub open spec fn positioned(self) -> bool {
        PRE_RENDER_LINE <= self.scanline <= LAST_LINE && self.dot <= LAST_DOT
    }

    /// How many dots of the frame lie before the one that runs next.
    pub open spec fn dots_before(self) -> int {
        (self.scanline + 1) * 341 + self.dot
    }

    /// How many of the frame's pixels lie before the dot that runs next.
    pub open spec fn pixels_before(self) -> int {
        if self.scanline < 0 {
            0
        } else if self.scanline >= VISIBLE_LINES {
            FRAME_PIXELS as int
        } else {
            self.scanline * 256 + (if self.dot == 0 {
                0int
            } else if self.dot > VISIBLE_DOTS {
                256
            } else {
                self.dot - 1
            })
        }
    }

    /// Whether `self` stands where `other` stands, in a frame of the same
    /// parity, with the same bits in the control and mask registers and
    /// the same note about vertical blanking: what a dot's work on
    /// background and sprites leaves alone.
    pub open spec fn same_clock(self, other: PpuState) -> bool {
        &&& self.scanline == other.scanline
        &&& self.dot == other.dot
        &&& self.odd_frame == other.odd_frame
        &&& self.mask == other.mask
        &&& self.ctrl == other.ctrl
        &&& self.suppress_vbl == other.suppress_vbl
        &&& self.vbl == other.vbl
    }

    /// Whether the dot that runs next puts out a pixel.
    pub open spec fn puts_pixel(self) -> bool {
        self.visible_line() && self.visible_dot()
    }

    /// Whether the dot that runs next ends the frame.
    pub open spec fn ends_frame(self) -> bool {
        self.advanced().scanline == PRE_RENDER_LINE && self.advanced().dot == 0
    }

    /// Whether background or sprites show, which is what keeps the
    /// pipeline running.
    pub open spec fn rendering(self) -> bool {
        self.mask & 0x18 != 0
    }

    /// Whether the line that runs next is a visible one.
    pub open spec fn visible_line(self) -> bool {
        0 <= self.scanline < VISIBLE_LINES
    }

    /// Whether the dot that runs next puts out a pixel.
    pub open spec fn visible_dot(self) -> bool {
        1 <= self.dot <= VISIBLE_DOTS
    }

    /// Whether the line that runs next runs the pipeline: a visible one or
    /// the pre-render line.
    pub open spec fn render_line(self) -> bool {
        self.visible_line() || self.scanline == PRE_RENDER_LINE
    }

    /// Whether the dot that runs next shifts and fetches for the
    /// background: dots 1 to 256 and 321 to 336.
    pub open spec fn fetch_dot(self) -> bool {
        self.visible_dot() || 321 <= self.dot <= 336
    }

    /// The height of a sprite in rows.
    pub open spec fn sprite_height(self) -> int {
        if self.ctrl & CTRL_TALL_SPRITES != 0 {
            16
        } else {
            8
        }
    }

    /// The status byte's three flags, in bits 7, 6 and 5.
    pub open spec fn status_bits(self) -> u8 {
        ((if self.vbl {
            0x80int
        } else {
            0
        }) + (if self.sprite0_hit {
            0x40int
        } else {
            0
        }) + (if self.overflow {
            0x20int
        } else {
            0
        })) as u8
    }

    /// Whether the dot that runs next is the last of its frame: the last
    /// dot of the last line, or, on odd frames while the pipeline runs,
    /// the dot before.
    pub open spec fn last_of_frame(self) -> bool {
        self.scanline == LAST_LINE && self.dot >= LAST_DOT
    }

    /// The state with line and dot moved on by one dot. On odd frames
    /// while the pipeline runs, the pre-render line ends one dot early.
    pub open spec fn advanced(self) -> PpuState {
        if self.scanline == PRE_RENDER_LINE && self.dot == LAST_DOT - 1 && self.odd_frame
            && self.rendering() {
            PpuState { scanline: 0, dot: 0, ..self }
        } else if self.dot >= LAST_DOT {
            if self.scanline >= LAST_LINE || self.scanline < PRE_RENDER_LINE {
                PpuState {
                    scanline: PRE_RENDER_LINE,
                    dot: 0,
                    odd_frame: !self.odd_frame,
                    suppress_vbl: false,
                    ..self
                }
            } else {
                PpuState { scanline: (self.scanline + 1) as i16, dot: 0, ..self }
            }
        } else {
            PpuState { dot: (self.dot + 1) as u16, ..self }
        }
    }

    /// The state after the flags' dot: vertical blanking begins at dot 1
    /// of line 241 unless it was caught, and all three flags clear at dot
    /// 1 of the pre-render line.
    pub open spec fn flagged(self) -> PpuState {
        if self.dot == 1 && self.scanline == VBL_LINE {
            PpuState { vbl: !self.suppress_vbl, ..self }
        } else if self.dot == 1 && self.scanline == PRE_RENDER_LINE {
            PpuState { vbl: false, sprite0_hit: false, overflow: false, ..self }
        } else {
            self
        }
    }

    /// Whether the flags' dot pulls the NMI line: vertical blanking begins
    /// and the control register asks for the interrupt.
    pub open spec fn raises_nmi(self) -> bool {
        self.dot == 1 && self.scanline == VBL_LINE && !self.suppress_vbl && self.ctrl & CTRL_NMI
            != 0
    }

    pub fn new() -> (r: Self)
        ensures
            r == Self::initial(),
    {
        PpuState {
            ctrl: 0,
            mask: 0,
            vbl: false,
            sprite0_hit: false,
            overflow: false,
            oam_addr: 0,
            scroll: Scroll::new(),
            read_buffer: 0,
            open_bus: 0,
            scanline: PRE_RENDER_LINE,
            dot: 0,
            odd_frame: false,
            suppress_vbl: false,
        }
    }

    pub fn is_rendering(&self) -> (r: bool)
        ensures
            r == self.rendering(),
    {
        self.mask & 0x18 != 0
    }

    pub fn is_visible_line(&self) -> (r: bool)
        ensures
            r == self.visible_line(),
    {
        0 <= self.scanline && self.scanline < VISIBLE_LINES
    }

    pub fn is_visible_dot(&self) -> (r: bool)
        ensures
            r == self.visible_dot(),
    {
        1 <= self.dot && self.dot <= VISIBLE_DOTS
    }

    pub fn is_render_line(&self) -> (r: bool)
        ensures
            r == self.render_line(),
    {
        self.is_visible_line() || self.scanline == PRE_RENDER_LINE
    }

    pub fn is_fetch_dot(&self) -> (r: bool)
        ensures
            r == self.fetch_dot(),
    {
        self.is_visible_dot() || (321 <= self.dot && self.dot <= 336)
    }

    pub fn get_sprite_height(&self) -> (r: u8)
        ensures
            r == self.sprite_height(),
    {
        if self.ctrl & CTRL_TALL_SPRITES != 0 {
            16
        } else {
            8
        }
    }

    pub fn get_status_bits(&self) -> (r: u8)
        ensures
            r == self.status_bits(),
    {
        let vbl: u8 = if self.vbl {
            0x80
        } else {
            0
        };
        let hit: u8 = if self.sprite0_hit {
            0x40
        } else {
            0
        };
        let overflow: u8 = if self.overflow {
            0x20
        } else {
            0
        };
        vbl + hit + overflow
    }

    /// Moves line and dot on by one dot; answers whether that ended the
    /// frame.
    pub fn advance(&mut self) -> (frame: bool)
        ensures
            *final(self) == old(self).advanced(),
            frame == old(self).ends_frame(),
    {
        if self.scanline == PRE_RENDER_LINE && self.dot == LAST_DOT - 1 && self.odd_frame
            && self.is_rendering() {
            self.scanline = 0;
            self.dot = 0;
            false
        } else if self.dot >= LAST_DOT {
            self.dot = 0;
            if self.scanline >= LAST_LINE || self.scanline < PRE_RENDER_LINE {
                self.scanline = PRE_RENDER_LINE;
                self.odd_frame = !self.odd_frame;
                self.suppress_vbl = false;
                true
            } else {
                self.scanline = self.scanline + 1;
                false
            }
        } else {
            self.dot = self.dot + 1;
            false
        }
    }

    /// The flags' dot; answers whether the NMI line is pulled.
    pub fn flag(&mut self) -> (nmi: bool)
        ensures
            *final(self) == old(self).flagged(),
            nmi == old(self).raises_nmi(),
    {
        if self.dot == 1 && self.scanline == VBL_LINE {
            self.vbl = !self.suppress_vbl;
            !self.suppress_vbl && self.ctrl & CTRL_NMI != 0
        } else if self.dot == 1 && self.scanline == PRE_RENDER_LINE {
            self.vbl = false;
            self.sprite0_hit = false;
            self.overflow = false;
            false
        } else {
            false
        }
    }
}

/// A dot moves the position on inside the frame, or ends the frame; the
/// pixels that lie before the position grow by the pixel that the dot puts
/// out, and a frame that ends has put out all its pixels.
pub proof fn lemma_dot_progress(state: PpuState)
    requires
        state.positioned(),
    ensures
        state.advanced().positioned(),
        state.flagged().advanced() == (PpuState {
            scanline: state.advanced().scanline,
            dot: state.advanced().dot,
            odd_frame: state.advanced().odd_frame,
            suppress_vbl: state.advanced().suppress_vbl,
            ..state.flagged()
        }),
        state.ends_frame() ==> state.pixels_before() == FRAME_PIXELS && !state.puts_pixel()
            && state.advanced().pixels_before() == 0,
        !state.ends_frame() ==> state.advanced().pixels_before() == state.pixels_before() + (
        if state.puts_pixel() {
            1int
        } else {
            0
        }) && state.dots_before() < state.advanced().dots_before() < FRAME_DOTS,
        0 <= state.dots_before() < FRAME_DOTS,
{
}

} // verus!
