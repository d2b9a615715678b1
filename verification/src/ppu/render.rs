//! The dot: what the picture unit does in one tick of its clock.
//!
//! In order: the fetched tile enters the shifters, the pixel is put out,
//! the background pipeline shifts and fetches, the scroll position moves,
//! the sprites are cleared, evaluated or fetched, the cartridge hears of
//! the scanline, the flags change, and the position moves on by one dot.

use super::background::{
    attribute_address, attribute_quadrant, attribute_slot, pattern_address, pattern_slot,
    quadrant, tile_address, tile_slot, Background,
};
use super::scroll::{next_row, next_tile, with_horizontal, with_vertical, Scroll};
use super::sprite::{
    no_sprite, row_of, sprite_pattern_address, sprite_pixel, sprite_row, SpriteEvaluation,
    SpritePixel, SpriteUnits, ATTRIBUTE_FLIP_Y,
};
use super::state::{
    PpuState, CTRL_BACKGROUND_TABLE, MASK_BACKGROUND, MASK_GRAYSCALE, MASK_LEFT_BACKGROUND,
    MASK_LEFT_SPRITES, MASK_SPRITES, PRE_RENDER_LINE, SCANLINE_DOT,
};
use super::{Pixel, Ppu, PpuView, Screen};
use crate::cartridge::Cartridge;
use crate::cpu::interrupt::{Interrupt, IrqSource};
use crate::memory::{byte_at, load, store, stored};
use vstd::prelude::*;

verus! {

/// The palette entry that a background pixel and a sprite pixel show
/// together: the sprite's where it is not transparent and lies in front
/// or the background is transparent, else the background's, and entry 0
/// where both are transparent.
pub open spec fn palette_entry(background: u8, sprite: SpritePixel) -> u16 {
    if sprite.color != 0 && (background % 4 == 0 || !sprite.behind) {
        (16 + (sprite.palette % 4) * 4 + sprite.color % 4) as u16
    } else if background % 4 != 0 {
        (background % 16) as u16
    } else {
        0
    }
}

pub fn entry_of(background: u8, sprite: SpritePixel) -> (r: u16)
    ensures
        r == palette_entry(background, sprite),
{
    if sprite.color != 0 && (background % 4 == 0 || !sprite.behind) {
        (16 + (sprite.palette % 4) * 4 + sprite.color % 4) as u16
    } else if background % 4 != 0 {
        (background % 16) as u16
    } else {
        0
    }
}

impl PpuView {
    /// Whether the pipeline runs on the dot that comes: background or
    /// sprites show, and the line is a visible one or the pre-render
    /// line.
    pub open spec fn pipeline_runs(self) -> bool {
        self.state.rendering() && self.state.render_line()
    }

    /// The sprites of the line being drawn.
    pub open spec fn units(self) -> SpriteUnits {
        SpriteUnits {
            low: self.sprite_low,
            high: self.sprite_high,
            attribute: self.sprite_attribute,
            x: self.sprite_x,
        }
    }

    /// The picture unit after the fetched tile entered the shifters, which
    /// it does on the first of every eight fetch dots.
    #[verifier::opaque]
    pub open spec fn reload_dot(self) -> PpuView {
        if self.pipeline_runs() && self.state.fetch_dot() && self.state.dot % 8 == 1 {
            PpuView { background: self.background.reloaded(), ..self }
        } else {
            self
        }
    }

    /// Whether the dot that comes puts out a pixel: dots 1 to 256 of the
    /// 240 visible lines.
    pub open spec fn puts_pixel(self) -> bool {
        self.state.puts_pixel()
    }

    /// The background's pixel at the dot: transparent where the
    /// background does not show, which the mask register can say of the
    /// whole picture and of its left 8 pixels.
    pub open spec fn background_pixel(self) -> u8 {
        if self.state.mask & MASK_BACKGROUND != 0 && (self.state.dot > 8 || self.state.mask
            & MASK_LEFT_BACKGROUND != 0) {
            self.background.pixel(self.state.scroll.x)
        } else {
            0
        }
    }

    /// The sprites' pixel at the dot: none where sprites do not show.
    pub open spec fn sprite_pixel(self) -> SpritePixel {
        if self.state.mask & MASK_SPRITES != 0 && (self.state.dot > 8 || self.state.mask
            & MASK_LEFT_SPRITES != 0) {
            self.units().pixel_from(
                0,
                self.evaluation.sprite_count as int,
                ((self.state.dot + 255) % 256) as u8,
            )
        } else {
            no_sprite()
        }
    }

    /// The colour of the palette entry `entry`: six bits, of which the
    /// grayscale bit of the mask register leaves the upper two.
    pub open spec fn colour(self, entry: u16) -> u8 {
        let c = self.palette_read(entry) % 64;
        if self.state.mask & MASK_GRAYSCALE != 0 {
            (c - c % 16) as u8
        } else {
            c
        }
    }

    /// The pixel that the dot puts out.
    pub open spec fn shown(self) -> Pixel {
        Pixel {
            x: ((self.state.dot + 255) % 256) as u8,
            y: (self.state.scanline % 256) as u8,
            index: self.colour(palette_entry(self.background_pixel(), self.sprite_pixel())),
            emphasis: self.state.mask / 32,
        }
    }

    /// Whether the dot sets the sprite-0 flag: sprite 0 is the first
    /// sprite of the line, it shows at the dot, the background is not
    /// transparent there, and the dot is not the last of the line.
    pub open spec fn hits(self) -> bool {
        self.puts_pixel() && self.evaluation.sprite0_current && self.sprite_pixel().first
            && self.sprite_pixel().color != 0 && self.background_pixel() % 4 != 0
            && self.state.dot < 256
    }

    /// The picture unit after the pixel was put out.
    #[verifier::opaque]
    pub open spec fn pixel_dot(self) -> PpuView {
        PpuView {
            state: PpuState { sprite0_hit: self.state.sprite0_hit || self.hits(), ..self.state },
            ..self
        }
    }

    /// The picture unit and the cartridge after the background pipeline's
    /// dot: on fetch dots while the pipeline runs the shifters shift, and
    /// of every eight dots the first fetches the tile number, the third
    /// its palette bits, the fifth and seventh its pattern bytes, and the
    /// eighth moves the address one tile to the right.
    #[verifier::opaque]
    pub open spec fn fetch_dot<G: Cartridge>(self, cartridge: G::V) -> (PpuView, G::V) {
        if !(self.pipeline_runs() && self.state.fetch_dot()) {
            (self, cartridge)
        } else {
            let b = self.background.shifted();
            let v = self.state.scroll.v;
            let second = self.state.ctrl & CTRL_BACKGROUND_TABLE != 0;
            match self.state.dot % 8 {
                1 => {
                    let (c, byte) = self.vram_read::<G>(cartridge, tile_address(v));
                    (PpuView { background: Background { nametable_byte: byte, ..b }, ..self }, c)
                },
                3 => {
                    let (c, byte) = self.vram_read::<G>(cartridge, attribute_address(v));
                    (
                        PpuView {
                            background: Background {
                                attribute_bits: attribute_quadrant(v, byte),
                                ..b
                            },
                            ..self
                        },
                        c,
                    )
                },
                5 => {
                    let (c, byte) = self.vram_read::<G>(
                        cartridge,
                        pattern_address(second, b.nametable_byte, v),
                    );
                    (PpuView { background: Background { pattern_low: byte, ..b }, ..self }, c)
                },
                7 => {
                    let (c, byte) = self.vram_read::<G>(
                        cartridge,
                        (pattern_address(second, b.nametable_byte, v) + 8) as u16,
                    );
                    (PpuView { background: Background { pattern_high: byte, ..b }, ..self }, c)
                },
                0 => (
                    PpuView {
                        background: b,
                        state: PpuState {
                            scroll: Scroll { v: next_tile(v), ..self.state.scroll },
                            ..self.state
                        },
                        ..self
                    },
                    cartridge,
                ),
                _ => (PpuView { background: b, ..self }, cartridge),
            }
        }
    }

    /// The address after the scroll position's dot: while the pipeline
    /// runs it moves one pixel row down at dot 256, takes the horizontal
    /// bits of `t` at dot 257, and takes the vertical bits of `t` at dots
    /// 280 to 304 of the pre-render line.
    pub open spec fn scrolled(self) -> u16 {
        let v = self.state.scroll.v;
        if !self.pipeline_runs() {
            v
        } else if self.state.dot == 256 {
            next_row(v)
        } else if self.state.dot == 257 {
            with_horizontal(v, self.state.scroll.t)
        } else if self.state.scanline == PRE_RENDER_LINE && 280 <= self.state.dot <= 304 {
            with_vertical(v, self.state.scroll.t)
        } else {
            v
        }
    }

    /// The picture unit after the scroll position's dot.
    #[verifier::opaque]
    pub open spec fn scroll_dot(self) -> PpuView {
        PpuView {
            state: PpuState {
                scroll: Scroll { v: self.scrolled(), ..self.state.scroll },
                ..self.state
            },
            ..self
        }
    }

    /// The picture unit after a dot of clearing: every second dot a byte
    /// of the memory of found sprites is set to 0xFF.
    pub open spec fn clear_dot(self) -> PpuView {
        if self.state.dot % 2 == 0 {
            PpuView {
                secondary: stored(self.secondary, self.state.dot / 2 - 1, 0xFF),
                ..self
            }
        } else {
            self
        }
    }

    /// The picture unit after a dot of evaluation: on odd dots a byte of
    /// sprite memory is read, on even dots it is dealt with. Evaluation
    /// begins at dot 65.
    pub open spec fn evaluate_dot(self) -> PpuView {
        let e = if self.state.dot == 65 {
            self.evaluation.begun()
        } else {
            self.evaluation
        };
        if self.state.dot % 2 == 1 {
            PpuView {
                evaluation: SpriteEvaluation { oam_latch: byte_at(self.oam, e.source()), ..e },
                ..self
            }
        } else {
            PpuView {
                secondary: if e.copies() {
                    stored(self.secondary, e.target(), e.oam_latch)
                } else {
                    self.secondary
                },
                state: PpuState {
                    overflow: self.state.overflow || e.overflows(
                        self.state.scanline,
                        self.state.sprite_height(),
                    ),
                    ..self.state
                },
                evaluation: e.evaluated(self.state.scanline, self.state.sprite_height()),
                ..self
            }
        }
    }

    /// The address of the low pattern byte of the found sprite number
    /// `unit`, for the row of it that the next line shows.
    pub open spec fn unit_address(self, unit: int) -> u16 {
        sprite_pattern_address(
            self.state.ctrl,
            byte_at(self.secondary, 4 * unit + 1),
            sprite_row(
                self.state.scanline,
                byte_at(self.secondary, 4 * unit),
                self.state.sprite_height(),
                byte_at(self.secondary, 4 * unit + 2) & ATTRIBUTE_FLIP_Y != 0,
            ),
        )
    }

    /// The picture unit and the cartridge after a dot of sprite fetching.
    /// Each found sprite has eight dots, of which the fifth fetches its
    /// low pattern byte, with its attributes and position, and the
    /// seventh its high pattern byte. Places for which no sprite was
    /// found are fetched for too, and show nothing.
    pub open spec fn sprite_fetch_dot<G: Cartridge>(self, cartridge: G::V) -> (PpuView, G::V) {
        let handed = if self.state.dot == 257 {
            PpuView {
                evaluation: self.evaluation.handed_over(self.state.visible_line()),
                ..self
            }
        } else {
            self
        };
        let p = PpuView { state: PpuState { oam_addr: 0, ..handed.state }, ..handed };
        let unit = (self.state.dot - 257) / 8;
        let present = unit < p.evaluation.sprite_count;
        if (self.state.dot - 257) % 8 == 4 {
            let (c, byte) = p.vram_read::<G>(cartridge, p.unit_address(unit));
            (
                PpuView {
                    sprite_low: stored(p.sprite_low, unit, if present {
                        byte
                    } else {
                        0
                    }),
                    sprite_attribute: stored(
                        p.sprite_attribute,
                        unit,
                        byte_at(p.secondary, 4 * unit + 2),
                    ),
                    sprite_x: stored(p.sprite_x, unit, byte_at(p.secondary, 4 * unit + 3)),
                    ..p
                },
                c,
            )
        } else if (self.state.dot - 257) % 8 == 6 {
            let (c, byte) = p.vram_read::<G>(cartridge, (p.unit_address(unit) + 8) as u16);
            (
                PpuView {
                    sprite_high: stored(p.sprite_high, unit, if present {
                        byte
                    } else {
                        0
                    }),
                    ..p
                },
                c,
            )
        } else {
            (p, cartridge)
        }
    }

    /// The picture unit and the cartridge after the sprites' dot: while
    /// the pipeline runs, on visible lines the memory of found sprites is
    /// cleared during dots 1 to 64 and filled by evaluation during dots 65
    /// to 256, and on all its lines the sprites found are fetched during
    /// dots 257 to 320.
    #[verifier::opaque]
    pub open spec fn sprite_dot<G: Cartridge>(self, cartridge: G::V) -> (PpuView, G::V) {
        if !self.pipeline_runs() {
            (self, cartridge)
        } else if 1 <= self.state.dot <= 64 {
            if self.state.visible_line() {
                (self.clear_dot(), cartridge)
            } else {
                (self, cartridge)
            }
        } else if 65 <= self.state.dot <= 256 {
            if self.state.visible_line() {
                (self.evaluate_dot(), cartridge)
            } else {
                (self, cartridge)
            }
        } else if 257 <= self.state.dot <= 320 {
            self.sprite_fetch_dot::<G>(cartridge)
        } else {
            (self, cartridge)
        }
    }

    /// The picture unit after the flags' dot and the move to the next
    /// dot.
    pub open spec fn finish_dot(self) -> PpuView {
        PpuView { state: self.state.flagged().advanced(), ..self }
    }

    /// Whether the dot that runs next tells the cartridge of a scanline:
    /// dot 260 of every visible line, while rendering is on.
    pub open spec fn tells_scanline(self) -> bool {
        self.state.rendering() && self.state.visible_line() && self.state.dot == SCANLINE_DOT
    }

    /// The cartridge and the interrupt lines after the dot's word to the
    /// cartridge: where the dot tells of a scanline the cartridge hears of
    /// it, and the external line is pulled if the cartridge asks for it.
    pub open spec fn told<G: Cartridge>(self, cartridge: G::V, interrupt: Interrupt) -> (
        G::V,
        Interrupt,
    ) {
        if self.tells_scanline() {
            let (heard, irq) = G::notify_scanline_spec(cartridge);
            (
                heard,
                if irq {
                    Interrupt {
                        irq_flag: interrupt.irq_flag.with(IrqSource::External, true),
                        ..interrupt
                    }
                } else {
                    interrupt
                },
            )
        } else {
            (cartridge, interrupt)
        }
    }

    /// The picture unit, the cartridge and the interrupt lines after one
    /// dot.
    #[verifier::opaque]
    pub open spec fn dot_stepped<G: Cartridge>(self, cartridge: G::V, interrupt: Interrupt) -> (
        PpuView,
        G::V,
        Interrupt,
    ) {
        let reloaded = self.reload_dot();
        let painted = reloaded.pixel_dot();
        let (fetched, cartridge_between) = painted.fetch_dot::<G>(cartridge);
        let scrolled = fetched.scroll_dot();
        let (evaluated, cartridge_after) = scrolled.sprite_dot::<G>(cartridge_between);
        let (cartridge_told, lines) = evaluated.told::<G>(cartridge_after, interrupt);
        (
            evaluated.finish_dot(),
            cartridge_told,
            if evaluated.state.raises_nmi() {
                Interrupt { nmi: true, ..lines }
            } else {
                lines
            },
        )
    }

    /// The pixels after the dot: one more where the dot puts one out.
    pub open spec fn drawn(self, pixels: Seq<Pixel>) -> Seq<Pixel> {
        if self.state.puts_pixel() {
            pixels.push(self.reload_dot().shown())
        } else {
            pixels
        }
    }
}

impl Ppu {
    pub fn pipeline_runs(&self) -> (r: bool)
        ensures
            r == self@.pipeline_runs(),
    {
        self.state.is_rendering() && self.state.is_render_line()
    }

    pub fn reload_dot(&mut self)
        ensures
            final(self)@.extent() == old(self)@.extent(),
            final(self)@ == old(self)@.reload_dot(),
            final(self).state == old(self).state,
    {
        reveal(PpuView::reload_dot);
        if self.pipeline_runs() && self.state.is_fetch_dot() && self.state.dot % 8 == 1 {
            self.background.reload();
        }
    }

    pub fn background_pixel(&self) -> (r: u8)
        ensures
            r == self@.background_pixel(),
    {
        if self.state.mask & MASK_BACKGROUND != 0 && (self.state.dot > 8 || self.state.mask
            & MASK_LEFT_BACKGROUND != 0) {
            self.background.get_pixel(self.state.scroll.x)
        } else {
            0
        }
    }

    pub fn sprite_pixel(&self) -> (r: SpritePixel)
        ensures
            r == self@.sprite_pixel(),
    {
        if self.state.mask & MASK_SPRITES != 0 && (self.state.dot > 8 || self.state.mask
            & MASK_LEFT_SPRITES != 0) {
            let x: u8 = (((self.state.dot as u32) + 255) % 256) as u8;
            sprite_pixel(
                &self.sprite_low,
                &self.sprite_high,
                &self.sprite_attribute,
                &self.sprite_x,
                self.evaluation.sprite_count,
                x,
            )
        } else {
            SpritePixel { color: 0, palette: 0, behind: false, first: false }
        }
    }

    pub fn colour(&self, entry: u16) -> (r: u8)
        ensures
            r == self@.colour(entry),
            r < 64,
    {
        let c = self.read_palette(entry) % 64;
        if self.state.mask & MASK_GRAYSCALE != 0 {
            c - c % 16
        } else {
            c
        }
    }

    /// Puts out the pixel of the dot, if it has one, and sets the
    /// sprite-0 flag where it is due.
    pub fn pixel_dot<S: Screen>(&mut self, screen: &mut S)
        ensures
            final(self)@.extent() == old(self)@.extent(),
            final(self)@ == old(self)@.pixel_dot(),
            final(self).state.same_clock(old(self).state),
            final(screen).pixels() == (if old(self)@.puts_pixel() {
                old(screen).pixels().push(old(self)@.shown())
            } else {
                old(screen).pixels()
            }),
    {
        reveal(PpuView::pixel_dot);
        if self.state.is_visible_line() && self.state.is_visible_dot() {
            let background = self.background_pixel();
            let sprite = self.sprite_pixel();
            let index = self.colour(entry_of(background, sprite));
            let x: u8 = (((self.state.dot as u32) + 255) % 256) as u8;
            let y: u8 = (self.state.scanline % 256) as u8;
            screen.write_pixel(x, y, index, self.state.mask / 32);
            if self.evaluation.sprite0_current && sprite.first && sprite.color != 0 && background
                % 4 != 0 && self.state.dot < 256 {
                self.state.sprite0_hit = true;
            }
        }
    }

    fn fetch_nametable<G: Cartridge>(&mut self, cartridge: &mut G)
        ensures
            final(self)@.extent() == old(self)@.extent(),
            final(self)@ == (PpuView {
                background: Background {
                    nametable_byte: old(self)@.vram_read::<G>(
                        old(cartridge)@,
                        tile_address(old(self).state.scroll.v),
                    ).1,
                    ..old(self).background
                },
                ..old(self)@
            }),
            final(cartridge)@ == old(self)@.vram_read::<G>(
                old(cartridge)@,
                tile_address(old(self).state.scroll.v),
            ).0,
    {
        let byte = self.read_vram(tile_slot(self.state.scroll.v), cartridge);
        self.background.nametable_byte = byte;
    }

    fn fetch_attribute<G: Cartridge>(&mut self, cartridge: &mut G)
        ensures
            final(self)@.extent() == old(self)@.extent(),
            final(self)@ == (PpuView {
                background: Background {
                    attribute_bits: attribute_quadrant(
                        old(self).state.scroll.v,
                        old(self)@.vram_read::<G>(
                            old(cartridge)@,
                            attribute_address(old(self).state.scroll.v),
                        ).1,
                    ),
                    ..old(self).background
                },
                ..old(self)@
            }),
            final(cartridge)@ == old(self)@.vram_read::<G>(
                old(cartridge)@,
                attribute_address(old(self).state.scroll.v),
            ).0,
    {
        let v = self.state.scroll.v;
        let byte = self.read_vram(attribute_slot(v), cartridge);
        self.background.attribute_bits = quadrant(v, byte);
    }

    fn fetch_pattern<G: Cartridge>(&mut self, high: bool, cartridge: &mut G)
        ensures
            final(self)@.extent() == old(self)@.extent(),
            ({
                let low_address = pattern_address(
                    old(self).state.ctrl & CTRL_BACKGROUND_TABLE != 0,
                    old(self).background.nametable_byte,
                    old(self).state.scroll.v,
                );
                let address = if high {
                    (low_address + 8) as u16
                } else {
                    low_address
                };
                let (c, byte) = old(self)@.vram_read::<G>(old(cartridge)@, address);
                &&& final(cartridge)@ == c
                &&& final(self)@ == (PpuView {
                    background: if high {
                        Background { pattern_high: byte, ..old(self).background }
                    } else {
                        Background { pattern_low: byte, ..old(self).background }
                    },
                    ..old(self)@
                })
            }),
    {
        let low_address = pattern_slot(
            self.state.ctrl & CTRL_BACKGROUND_TABLE != 0,
            self.background.nametable_byte,
            self.state.scroll.v,
        );
        if high {
            let byte = self.read_vram(low_address + 8, cartridge);
            self.background.pattern_high = byte;
        } else {
            let byte = self.read_vram(low_address, cartridge);
            self.background.pattern_low = byte;
        }
    }

    /// The background pipeline's dot: see [`PpuView::fetch_dot`].
    pub fn fetch_dot<G: Cartridge>(&mut self, cartridge: &mut G)
        ensures
            final(self)@.extent() == old(self)@.extent(),
            (final(self)@, final(cartridge)@) == old(self)@.fetch_dot::<G>(old(cartridge)@),
            final(self).state.same_clock(old(self).state),
    {
        reveal(PpuView::fetch_dot);
        if self.pipeline_runs() && self.state.is_fetch_dot() {
            self.background.shift();
            match self.state.dot % 8 {
                1 => self.fetch_nametable(cartridge),
                3 => self.fetch_attribute(cartridge),
                5 => self.fetch_pattern(false, cartridge),
                7 => self.fetch_pattern(true, cartridge),
                0 => self.state.scroll.increment_x(),
                _ => {},
            }
        }
    }

    /// The scroll position's dot: see [`PpuView::scroll_dot`].
    pub fn scroll_dot(&mut self)
        ensures
            final(self)@.extent() == old(self)@.extent(),
            final(self)@ == old(self)@.scroll_dot(),
            final(self).state.same_clock(old(self).state),
    {
        reveal(PpuView::scroll_dot);
        if self.pipeline_runs() {
            if self.state.dot == 256 {
                self.state.scroll.increment_y();
            } else if self.state.dot == 257 {
                self.state.scroll.copy_x();
            } else if self.state.scanline == PRE_RENDER_LINE && 280 <= self.state.dot
                && self.state.dot <= 304 {
                self.state.scroll.copy_y();
            }
        }
    }

    fn clear_dot(&mut self)
        requires
            1 <= old(self).state.dot <= 64,
        ensures
            final(self)@.extent() == old(self)@.extent(),
            final(self)@ == old(self)@.clear_dot(),
    {
        if self.state.dot % 2 == 0 {
            store(&mut self.secondary, (self.state.dot / 2 - 1) as usize, 0xFF);
        }
    }

    fn evaluate_dot(&mut self)
        ensures
            final(self)@.extent() == old(self)@.extent(),
            final(self)@ == old(self)@.evaluate_dot(),
    {
        if self.state.dot == 65 {
            self.evaluation.begin();
        }
        if self.state.dot % 2 == 1 {
            self.evaluation.oam_latch = load(&self.oam, self.evaluation.get_source());
        } else {
            if self.evaluation.found < 8 && !self.evaluation.done {
                store(&mut self.secondary, self.evaluation.get_target(), self.evaluation.oam_latch);
            }
            let height = self.state.get_sprite_height();
            if self.evaluation.evaluate(self.state.scanline, height) {
                self.state.overflow = true;
            }
        }
    }

    fn unit_address(&self, unit: usize) -> (r: u16)
        requires
            unit < 8,
        ensures
            r == self@.unit_address(unit as int),
            r <= 0x1FFF,
    {
        let height = self.state.get_sprite_height();
        let row = row_of(
            self.state.scanline,
            load(&self.secondary, 4 * unit),
            height,
            load(&self.secondary, 4 * unit + 2) & ATTRIBUTE_FLIP_Y != 0,
        );
        super::sprite::pattern_slot(self.state.ctrl, load(&self.secondary, 4 * unit + 1), row)
    }

    fn sprite_fetch_dot<G: Cartridge>(&mut self, cartridge: &mut G)
        requires
            257 <= old(self).state.dot <= 320,
        ensures
            final(self)@.extent() == old(self)@.extent(),
            (final(self)@, final(cartridge)@) == old(self)@.sprite_fetch_dot::<G>(old(cartridge)@),
    {
        if self.state.dot == 257 {
            self.evaluation.hand_over(self.state.is_visible_line());
        }
        self.state.oam_addr = 0;
        let unit = ((self.state.dot - 257) / 8) as usize;
        let present = unit < (self.evaluation.sprite_count as usize);
        let phase = (self.state.dot - 257) % 8;
        if phase == 4 {
            let byte = self.read_vram(self.unit_address(unit), cartridge);
            store(&mut self.sprite_low, unit, if present {
                byte
            } else {
                0
            });
            let attribute = load(&self.secondary, 4 * unit + 2);
            store(&mut self.sprite_attribute, unit, attribute);
            let x = load(&self.secondary, 4 * unit + 3);
            store(&mut self.sprite_x, unit, x);
        } else if phase == 6 {
            let byte = self.read_vram(self.unit_address(unit) + 8, cartridge);
            store(&mut self.sprite_high, unit, if present {
                byte
            } else {
                0
            });
        }
    }

    /// The sprites' dot: see [`PpuView::sprite_dot`].
    pub fn sprite_dot<G: Cartridge>(&mut self, cartridge: &mut G)
        ensures
            final(self)@.extent() == old(self)@.extent(),
            (final(self)@, final(cartridge)@) == old(self)@.sprite_dot::<G>(old(cartridge)@),
            final(self).state.same_clock(old(self).state),
    {
        reveal(PpuView::sprite_dot);
        if self.pipeline_runs() {
            let dot = self.state.dot;
            if 1 <= dot && dot <= 64 {
                if self.state.is_visible_line() {
                    self.clear_dot();
                }
            } else if 65 <= dot && dot <= 256 {
                if self.state.is_visible_line() {
                    self.evaluate_dot();
                }
            } else if 257 <= dot && dot <= 320 {
                self.sprite_fetch_dot(cartridge);
            }
        }
    }

    /// The dot's word to the cartridge: see [`PpuView::told`].
    pub fn tell<G: Cartridge>(&self, cartridge: &mut G, interrupt: &mut Interrupt)
        ensures
            (final(cartridge)@, *final(interrupt)) == self@.told::<G>(
                old(cartridge)@,
                *old(interrupt),
            ),
    {
        if self.state.is_rendering() && self.state.is_visible_line() && self.state.dot
            == SCANLINE_DOT {
            if cartridge.notify_scanline() {
                interrupt.set_irq(IrqSource::External);
            }
        }
    }

    /// Runs one dot; answers whether it was the last of its frame.
    ///
    /// Dots 1 to 256 of the 240 visible lines send exactly one pixel each
    /// to `screen`, and no other dot sends any.
    pub fn step<G: Cartridge, S: Screen>(
        &mut self,
        cartridge: &mut G,
        interrupt: &mut Interrupt,
        screen: &mut S,
    ) -> (frame: bool)
        ensures
            final(self)@.extent() == old(self)@.extent(),
            (final(self)@, final(cartridge)@, *final(interrupt)) == old(self)@.dot_stepped::<G>(
                old(cartridge)@,
                *old(interrupt),
            ),
            final(screen).pixels() == old(self)@.drawn(old(screen).pixels()),
            frame == old(self).state.ends_frame(),
            final(self).state.scanline == old(self).state.advanced().scanline,
            final(self).state.dot == old(self).state.advanced().dot,
            final(self).state.odd_frame == old(self).state.advanced().odd_frame,
            final(self).state.mask == old(self).state.mask,
    {
        reveal(PpuView::dot_stepped);
        self.reload_dot();
        self.pixel_dot(screen);
        self.fetch_dot(cartridge);
        self.scroll_dot();
        self.sprite_dot(cartridge);
        self.tell(cartridge, interrupt);
        if self.state.flag() {
            interrupt.nmi = true;
        }
        self.state.advance()
    }
}


/// The work of a dot on background and sprites leaves the position and
/// the mask alone.
pub proof fn lemma_dot_keeps_clock<G: Cartridge>(ppu: PpuView, cartridge: G::V)
    ensures
        ppu.reload_dot().state.same_clock(ppu.state),
        ppu.pixel_dot().state.same_clock(ppu.state),
        ppu.fetch_dot::<G>(cartridge).0.state.same_clock(ppu.state),
        ppu.scroll_dot().state.same_clock(ppu.state),
        ppu.sprite_dot::<G>(cartridge).0.state.same_clock(ppu.state),
{
    assert(ppu.reload_dot().state.same_clock(ppu.state)) by {
        reveal(PpuView::reload_dot);
    }
    assert(ppu.pixel_dot().state.same_clock(ppu.state)) by {
        reveal(PpuView::pixel_dot);
    }
    assert(ppu.fetch_dot::<G>(cartridge).0.state.same_clock(ppu.state)) by {
        reveal(PpuView::fetch_dot);
    }
    assert(ppu.scroll_dot().state.same_clock(ppu.state)) by {
        reveal(PpuView::scroll_dot);
    }
    assert(ppu.sprite_dot::<G>(cartridge).0.state.same_clock(ppu.state)) by {
        reveal(PpuView::sprite_dot);
    }
}

/// The cartridge hears of a scanline at dot 260 of every visible line
/// while rendering is on, and at no other dot. A dot that tells of none
/// leaves the interrupt request lines as they are; one that tells of a
/// scanline pulls the external line if the cartridge asks for it, and
/// leaves the other request lines and the mask alone.
pub proof fn lemma_scanline_is_told<G: Cartridge>(
    ppu: PpuView,
    cartridge: G::V,
    interrupt: Interrupt,
)
    ensures
        ({
            let (after, heard, lines) = ppu.dot_stepped::<G>(cartridge, interrupt);
            &&& lines.irq_mask == interrupt.irq_mask
            &&& lines.irq_flag.frame_counter == interrupt.irq_flag.frame_counter
            &&& lines.irq_flag.dmc == interrupt.irq_flag.dmc
            &&& !ppu.tells_scanline() ==> lines.irq_flag == interrupt.irq_flag
            &&& ppu.tells_scanline() ==> exists|between: G::V|
                heard == G::notify_scanline_spec(between).0 && lines.irq_flag.external == (
                interrupt.irq_flag.external || #[trigger] G::notify_scanline_spec(between).1)
        }),
{
    reveal(PpuView::dot_stepped);
    let reloaded = ppu.reload_dot();
    let painted = reloaded.pixel_dot();
    let (fetched, cartridge_between) = painted.fetch_dot::<G>(cartridge);
    let scrolled = fetched.scroll_dot();
    let (evaluated, cartridge_after) = scrolled.sprite_dot::<G>(cartridge_between);
    lemma_dot_keeps_clock::<G>(ppu, cartridge);
    lemma_dot_keeps_clock::<G>(reloaded, cartridge);
    lemma_dot_keeps_clock::<G>(painted, cartridge);
    lemma_dot_keeps_clock::<G>(fetched, cartridge_between);
    lemma_dot_keeps_clock::<G>(scrolled, cartridge_between);
    assert(evaluated.tells_scanline() == ppu.tells_scanline());
    if ppu.tells_scanline() {
        let (heard, irq) = G::notify_scanline_spec(cartridge_after);
        assert(ppu.dot_stepped::<G>(cartridge, interrupt).1 == heard);
    }
}

} // verus!
