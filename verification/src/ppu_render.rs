//! The PPU rendering state machine: scroll arithmetic, the background
//! and sprite pipelines, and the per-dot clock.

use crate::cartridge::{CartView, Cartridge};
use crate::oam::OamEntry;
use crate::ppu::{spec_ppu_read, FgView, Ppu, PpuView};
use crate::screen::{Pixel, ScreenView};
use crate::ppu_regs::{RamAddrData, StatusReg};
use vstd::prelude::*;

verus! {

/// Dots per scanline.
pub const DOTS_PER_SCANLINE: u16 = 341;

/// Scanlines per frame, the pre-render line included.
pub const SCANLINES_PER_FRAME: u16 = 262;

/// The position of a dot within the frame, counted from dot 0 of the
/// pre-render scanline: a number in [0, 89342).
pub open spec fn spec_dot_ord(scanline: i16, cycle: i16) -> int {
    (scanline + 1) * 341 + cycle
}

/// The horizontal scroll increment as a function.
pub open spec fn spec_increment_scroll_x(p: PpuView) -> PpuView {
    if !p.mask.rendering() {
        p
    } else if p.vram_addr.spec_coarse_x() == 31 {
        PpuView {
            vram_addr: p.vram_addr.spec_with_coarse_x(0).spec_with_nametable_x(
                !p.vram_addr.spec_nametable_x(),
            ),
            ..p
        }
    } else {
        PpuView {
            vram_addr: p.vram_addr.spec_with_coarse_x((p.vram_addr.spec_coarse_x() + 1) as u16),
            ..p
        }
    }
}

/// The vertical scroll increment as a function.
pub open spec fn spec_increment_scroll_y(p: PpuView) -> PpuView {
    if !p.mask.rendering() {
        p
    } else if p.vram_addr.spec_fine_y() < 7 {
        PpuView {
            vram_addr: p.vram_addr.spec_with_fine_y((p.vram_addr.spec_fine_y() + 1) as u16),
            ..p
        }
    } else {
        let t = p.vram_addr.spec_with_fine_y(0);
        PpuView {
            vram_addr: if p.vram_addr.spec_coarse_y() == 29 {
                t.spec_with_coarse_y(0).spec_with_nametable_y(!p.vram_addr.spec_nametable_y())
            } else if p.vram_addr.spec_coarse_y() == 31 {
                t.spec_with_coarse_y(0)
            } else {
                t.spec_with_coarse_y((p.vram_addr.spec_coarse_y() + 1) as u16)
            },
            ..p
        }
    }
}

/// The horizontal transfer as a function.
pub open spec fn spec_transfer_address_x(p: PpuView) -> PpuView {
    if !p.mask.rendering() {
        p
    } else {
        PpuView {
            vram_addr: p.vram_addr.spec_with_nametable_x(
                p.tram_addr.spec_nametable_x(),
            ).spec_with_coarse_x(p.tram_addr.spec_coarse_x()),
            ..p
        }
    }
}

/// The vertical transfer as a function.
pub open spec fn spec_transfer_address_y(p: PpuView) -> PpuView {
    if !p.mask.rendering() {
        p
    } else {
        PpuView {
            vram_addr: p.vram_addr.spec_with_fine_y(
                p.tram_addr.spec_fine_y(),
            ).spec_with_nametable_y(p.tram_addr.spec_nametable_y()).spec_with_coarse_y(
                p.tram_addr.spec_coarse_y(),
            ),
            ..p
        }
    }
}

/// The background shifter reload as a function.
pub open spec fn spec_load_background_shifters(p: PpuView) -> PpuView {
    PpuView {
        bg: crate::ppu::BackgroundData {
            shifter_pattern_low: (p.bg.shifter_pattern_low & 0xFF00) | (p.bg.next_tile_lsb as u16),
            shifter_pattern_high: (p.bg.shifter_pattern_high & 0xFF00) | (
            p.bg.next_tile_msb as u16),
            shifter_attrib_low: (p.bg.shifter_attrib_low & 0xFF00) | (if p.bg.next_tile_attrib
                & 0x01 != 0 {
                0x00FFu16
            } else {
                0u16
            }),
            shifter_attrib_high: (p.bg.shifter_attrib_high & 0xFF00) | (if p.bg.next_tile_attrib
                & 0x02 != 0 {
                0x00FFu16
            } else {
                0u16
            }),
            ..p.bg
        },
        ..p
    }
}

/// One dot of sprite movement as a function over all eight slots.
pub open spec fn spec_shift_sprites(fg: FgView) -> FgView {
    FgView {
        sprite_scanline: Seq::new(
            8,
            |i: int|
                if i < fg.sprite_count && fg.sprite_scanline[i].x > 0 {
                    OamEntry { x: (fg.sprite_scanline[i].x - 1) as u8, ..fg.sprite_scanline[i] }
                } else {
                    fg.sprite_scanline[i]
                },
        ),
        sprite_shifter_pattern_low: Seq::new(
            8,
            |i: int|
                if i < fg.sprite_count && fg.sprite_scanline[i].x == 0 {
                    fg.sprite_shifter_pattern_low[i] << 1
                } else {
                    fg.sprite_shifter_pattern_low[i]
                },
        ),
        sprite_shifter_pattern_high: Seq::new(
            8,
            |i: int|
                if i < fg.sprite_count && fg.sprite_scanline[i].x == 0 {
                    fg.sprite_shifter_pattern_high[i] << 1
                } else {
                    fg.sprite_shifter_pattern_high[i]
                },
        ),
        ..fg
    }
}

/// One dot of shifter movement as a function: the background shifters
/// move while the background renders; the sprites move in dots 1 to
/// 257 while sprites render.
pub open spec fn spec_update_shifters(p: PpuView) -> PpuView {
    let bg = if p.mask.render_background {
        crate::ppu::BackgroundData {
            shifter_pattern_low: p.bg.shifter_pattern_low << 1,
            shifter_pattern_high: p.bg.shifter_pattern_high << 1,
            shifter_attrib_low: p.bg.shifter_attrib_low << 1,
            shifter_attrib_high: p.bg.shifter_attrib_high << 1,
            ..p.bg
        }
    } else {
        p.bg
    };
    let fg = if p.mask.render_sprites && 1 <= p.cycle < 258 {
        spec_shift_sprites(p.fg)
    } else {
        p.fg
    };
    PpuView { bg, fg, ..p }
}

impl Ppu {
    /// Advance the horizontal scroll by one tile, wrapping into the
    /// neighbouring nametable; only while rendering is enabled.
    pub fn increment_scroll_x(&mut self)
        requires
            old(self).inv(),
        ensures
            final(self).inv(),
            final(self)@ == spec_increment_scroll_x(old(self)@),
            !old(self)@.mask.rendering() ==> final(self)@ == old(self)@,
            old(self)@.mask.rendering() && old(self)@.vram_addr.spec_coarse_x() == 31 ==> final(self)@ == (PpuView {
                vram_addr: old(self)@.vram_addr.spec_with_coarse_x(0).spec_with_nametable_x(
                    !old(self)@.vram_addr.spec_nametable_x(),
                ),
                ..old(self)@
            }),
            old(self)@.mask.rendering() && old(self)@.vram_addr.spec_coarse_x() != 31 ==> final(self)@ == (PpuView {
                vram_addr: old(self)@.vram_addr.spec_with_coarse_x(
                    (old(self)@.vram_addr.spec_coarse_x() + 1) as u16,
                ),
                ..old(self)@
            }),
    {
        if self.mask.render_background || self.mask.render_sprites {
            if self.vram_addr.coarse_x() == 31 {
                self.vram_addr.set_coarse_x(0);
                let flipped = !self.vram_addr.nametable_x();
                self.vram_addr.set_nametable_x(flipped);
            } else {
                let next = self.vram_addr.coarse_x() + 1;
                self.vram_addr.set_coarse_x(next);
            }
        }
    }

    /// Advance the vertical scroll by one pixel row, stepping the
    /// coarse row at row 7 and wrapping out of the attribute rows;
    /// only while rendering is enabled.
    pub fn increment_scroll_y(&mut self)
        requires
            old(self).inv(),
        ensures
            final(self).inv(),
            final(self)@ == spec_increment_scroll_y(old(self)@),
            !old(self)@.mask.rendering() ==> final(self)@ == old(self)@,
            old(self)@.mask.rendering() && old(self)@.vram_addr.spec_fine_y() < 7 ==> final(self)@
                == (PpuView {
                vram_addr: old(self)@.vram_addr.spec_with_fine_y(
                    (old(self)@.vram_addr.spec_fine_y() + 1) as u16,
                ),
                ..old(self)@
            }),
            old(self)@.mask.rendering() && old(self)@.vram_addr.spec_fine_y() >= 7 ==> final(self)@
                == (PpuView {
                vram_addr: ({
                    let t = old(self)@.vram_addr.spec_with_fine_y(0);
                    if old(self)@.vram_addr.spec_coarse_y() == 29 {
                        t.spec_with_coarse_y(0).spec_with_nametable_y(
                            !old(self)@.vram_addr.spec_nametable_y(),
                        )
                    } else if old(self)@.vram_addr.spec_coarse_y() == 31 {
                        t.spec_with_coarse_y(0)
                    } else {
                        t.spec_with_coarse_y((old(self)@.vram_addr.spec_coarse_y() + 1) as u16)
                    }
                }),
                ..old(self)@
            }),
    {
        if self.mask.render_background || self.mask.render_sprites {
            if self.vram_addr.fine_y() < 7 {
                let next = self.vram_addr.fine_y() + 1;
                self.vram_addr.set_fine_y(next);
                return ;
            }
            self.vram_addr.set_fine_y(0);
            if self.vram_addr.coarse_y() == 29 {
                self.vram_addr.set_coarse_y(0);
                let flipped = !self.vram_addr.nametable_y();
                self.vram_addr.set_nametable_y(flipped);
            } else if self.vram_addr.coarse_y() == 31 {
                self.vram_addr.set_coarse_y(0);
            } else {
                let next = self.vram_addr.coarse_y() + 1;
                self.vram_addr.set_coarse_y(next);
            }
        }
    }

    /// Copy the horizontal scroll bits from the temporary composite
    /// into the live one; only while rendering is enabled.
    pub fn transfer_address_x(&mut self)
        requires
            old(self).inv(),
        ensures
            final(self).inv(),
            final(self)@ == spec_transfer_address_x(old(self)@),
            !old(self)@.mask.rendering() ==> final(self)@ == old(self)@,
            old(self)@.mask.rendering() ==> final(self)@ == (PpuView {
                vram_addr: old(self)@.vram_addr.spec_with_nametable_x(
                    old(self)@.tram_addr.spec_nametable_x(),
                ).spec_with_coarse_x(old(self)@.tram_addr.spec_coarse_x()),
                ..old(self)@
            }),
    {
        if self.mask.render_background || self.mask.render_sprites {
            let nx = self.tram_addr.nametable_x();
            let cx = self.tram_addr.coarse_x();
            self.vram_addr.set_nametable_x(nx);
            self.vram_addr.set_coarse_x(cx);
        }
    }

    /// Copy the vertical scroll bits from the temporary composite into
    /// the live one; only while rendering is enabled.
    pub fn transfer_address_y(&mut self)
        requires
            old(self).inv(),
        ensures
            final(self).inv(),
            final(self)@ == spec_transfer_address_y(old(self)@),
            !old(self)@.mask.rendering() ==> final(self)@ == old(self)@,
            old(self)@.mask.rendering() ==> final(self)@ == (PpuView {
                vram_addr: old(self)@.vram_addr.spec_with_fine_y(
                    old(self)@.tram_addr.spec_fine_y(),
                ).spec_with_nametable_y(old(self)@.tram_addr.spec_nametable_y()).spec_with_coarse_y(
                    old(self)@.tram_addr.spec_coarse_y(),
                ),
                ..old(self)@
            }),
    {
        if self.mask.render_background || self.mask.render_sprites {
            let fy = self.tram_addr.fine_y();
            let ny = self.tram_addr.nametable_y();
            let cy = self.tram_addr.coarse_y();
            self.vram_addr.set_fine_y(fy);
            self.vram_addr.set_nametable_y(ny);
            self.vram_addr.set_coarse_y(cy);
        }
    }

    /// Reload the low bytes of the four background shifters from the
    /// holding registers; attribute shifters take 0xFF or 0x00 per
    /// attribute bit.
    pub fn load_backgrond_shifters(&mut self)
        requires
            old(self).inv(),
        ensures
            final(self).inv(),
            final(self)@ == spec_load_background_shifters(old(self)@),
            final(self)@ == (PpuView {
                bg: crate::ppu::BackgroundData {
                    shifter_pattern_low: (old(self)@.bg.shifter_pattern_low & 0xFF00) | (old(self)@.bg.next_tile_lsb as u16),
                    shifter_pattern_high: (old(self)@.bg.shifter_pattern_high & 0xFF00) | (old(self)@.bg.next_tile_msb as u16),
                    shifter_attrib_low: (old(self)@.bg.shifter_attrib_low & 0xFF00) | (if old(self)@.bg.next_tile_attrib & 0x01 != 0 {
                        0x00FFu16
                    } else {
                        0u16
                    }),
                    shifter_attrib_high: (old(self)@.bg.shifter_attrib_high & 0xFF00) | (if old(self)@.bg.next_tile_attrib & 0x02 != 0 {
                        0x00FFu16
                    } else {
                        0u16
                    }),
                    ..old(self)@.bg
                },
                ..old(self)@
            }),
    {
        self.bg.shifter_pattern_low = (self.bg.shifter_pattern_low & 0xFF00) | (
        self.bg.next_tile_lsb as u16);
        self.bg.shifter_pattern_high = (self.bg.shifter_pattern_high & 0xFF00) | (
        self.bg.next_tile_msb as u16);
        self.bg.shifter_attrib_low = (self.bg.shifter_attrib_low & 0xFF00) | (if self.bg.next_tile_attrib & 0x01 != 0 {
            0x00FF
        } else {
            0x0000
        });
        self.bg.shifter_attrib_high = (self.bg.shifter_attrib_high & 0xFF00) | (if self.bg.next_tile_attrib & 0x02 != 0 {
            0x00FF
        } else {
            0x0000
        });
    }

    /// Advance the shifters one bit: the background shifters while the
    /// background is rendered, and in dots 1 to 257 each sprite either
    /// counts its x position down or, once it reached zero, shifts.
    pub fn update_shifters(&mut self)
        requires
            old(self).inv(),
        ensures
            final(self).inv(),
            final(self)@ == spec_update_shifters(old(self)@),
            final(self)@ == (PpuView { bg: final(self)@.bg, fg: final(self)@.fg, ..old(self)@ }),
            old(self)@.mask.render_background ==> final(self)@.bg == (
            crate::ppu::BackgroundData {
                shifter_pattern_low: old(self)@.bg.shifter_pattern_low << 1,
                shifter_pattern_high: old(self)@.bg.shifter_pattern_high << 1,
                shifter_attrib_low: old(self)@.bg.shifter_attrib_low << 1,
                shifter_attrib_high: old(self)@.bg.shifter_attrib_high << 1,
                ..old(self)@.bg
            }),
            !old(self)@.mask.render_background ==> final(self)@.bg == old(self)@.bg,
            final(self)@.fg.sprite_count == old(self)@.fg.sprite_count,
            final(self)@.fg.sprite_zero_hit_possible == old(self)@.fg.sprite_zero_hit_possible,
            final(self)@.fg.sprite_zero_being_rendered == old(self)@.fg.sprite_zero_being_rendered,
            !(old(self)@.mask.render_sprites && 1 <= old(self)@.cycle < 258) ==> final(self)@.fg
                == old(self)@.fg,
            old(self)@.mask.render_sprites && 1 <= old(self)@.cycle < 258 ==> (forall|i: int|
                #![auto]
                0 <= i < old(self)@.fg.sprite_count ==> spec_sprite_shifted(
                    old(self)@.fg,
                    final(self)@.fg,
                    i,
                    true,
                )),
            old(self)@.mask.render_sprites && 1 <= old(self)@.cycle < 258 ==> (forall|i: int|
                #![auto]
                old(self)@.fg.sprite_count <= i < 8 ==> spec_sprite_shifted(
                    old(self)@.fg,
                    final(self)@.fg,
                    i,
                    false,
                )),
    {
        if self.mask.render_background {
            self.bg.shifter_pattern_low = self.bg.shifter_pattern_low << 1;
            self.bg.shifter_pattern_high = self.bg.shifter_pattern_high << 1;
            self.bg.shifter_attrib_low = self.bg.shifter_attrib_low << 1;
            self.bg.shifter_attrib_high = self.bg.shifter_attrib_high << 1;
        }
        if self.mask.render_sprites && 1 <= self.cycle && self.cycle < 258 {
            self.shift_sprites();
        }
        proof {
            assert(self@ =~~= spec_update_shifters(old(self)@));
        }
    }

    /// One dot of sprite movement: each in-flight sprite counts its x
    /// position down until zero, then shifts its pattern bits.
    #[verifier::rlimit(100)]
    #[verifier::spinoff_prover]
    fn shift_sprites(&mut self)
        requires
            old(self).inv(),
        ensures
            final(self).inv(),
            final(self)@ == (PpuView { fg: final(self)@.fg, ..old(self)@ }),
            final(self)@.fg.sprite_count == old(self)@.fg.sprite_count,
            final(self)@.fg.sprite_zero_hit_possible == old(self)@.fg.sprite_zero_hit_possible,
            final(self)@.fg.sprite_zero_being_rendered
                == old(self)@.fg.sprite_zero_being_rendered,
            forall|i: int|
                #![auto]
                0 <= i < old(self)@.fg.sprite_count ==> spec_sprite_shifted(
                    old(self)@.fg,
                    final(self)@.fg,
                    i,
                    true,
                ),
            forall|i: int|
                #![auto]
                old(self)@.fg.sprite_count <= i < 8 ==> spec_sprite_shifted(
                    old(self)@.fg,
                    final(self)@.fg,
                    i,
                    false,
                ),
    {
        let count = self.fg.sprite_count as usize;
        let mut i: usize = 0;
        while i < count
            invariant
                count <= 8,
                count == old(self)@.fg.sprite_count,
                i <= count,
                forall|j: int|
                    #![auto]
                    0 <= j < i ==> spec_sprite_shifted(old(self)@.fg, self@.fg, j, true),
                forall|j: int|
                    #![auto]
                    i <= j < 8 ==> spec_sprite_shifted(old(self)@.fg, self@.fg, j, false),
                self@.fg.sprite_scanline.len() == 8,
                self@.fg.sprite_shifter_pattern_low.len() == 8,
                self@.fg.sprite_shifter_pattern_high.len() == 8,
                self@.screen == old(self)@.screen,
                self@.frame_complete == old(self)@.frame_complete,
                self@.name_table == old(self)@.name_table,
                self@.pattern_table == old(self)@.pattern_table,
                self@.palette_table == old(self)@.palette_table,
                self@.nmi == old(self)@.nmi,
                self@.cycle == old(self)@.cycle,
                self@.scanline == old(self)@.scanline,
                self@.oam == old(self)@.oam,
                self@.oam_addr == old(self)@.oam_addr,
                self@.status == old(self)@.status,
                self@.mask == old(self)@.mask,
                self@.control == old(self)@.control,
                self@.address_latch == old(self)@.address_latch,
                self@.ppu_data_buffer == old(self)@.ppu_data_buffer,
                self@.vram_addr == old(self)@.vram_addr,
                self@.tram_addr == old(self)@.tram_addr,
                self@.fine_x == old(self)@.fine_x,
                self@.bg == old(self)@.bg,
                self@.fg.sprite_count == old(self)@.fg.sprite_count,
                self@.fg.sprite_zero_hit_possible == old(self)@.fg.sprite_zero_hit_possible,
                self@.fg.sprite_zero_being_rendered == old(self)@.fg.sprite_zero_being_rendered,
            decreases count - i,
        {
            let entry = self.fg.sprite_scanline[i];
            if entry.x > 0 {
                let mut e = entry;
                e.x = e.x - 1;
                self.fg.sprite_scanline.set(i, e);
            } else {
                let lo = self.fg.sprite_shifter_pattern_low[i];
                self.fg.sprite_shifter_pattern_low.set(i, lo << 1);
                let hi = self.fg.sprite_shifter_pattern_high[i];
                self.fg.sprite_shifter_pattern_high.set(i, hi << 1);
            }
            i = i + 1;
        }
    }
}

/// Whether two PPU states agree on everything except the foreground
/// pipeline and the status register.
pub open spec fn spec_eq_except_fg_status(a: PpuView, b: PpuView) -> bool {
    &&& a.screen == b.screen
    &&& a.frame_complete == b.frame_complete
    &&& a.name_table == b.name_table
    &&& a.pattern_table == b.pattern_table
    &&& a.palette_table == b.palette_table
    &&& a.nmi == b.nmi
    &&& a.cycle == b.cycle
    &&& a.scanline == b.scanline
    &&& a.oam == b.oam
    &&& a.oam_addr == b.oam_addr
    &&& a.mask == b.mask
    &&& a.control == b.control
    &&& a.address_latch == b.address_latch
    &&& a.ppu_data_buffer == b.ppu_data_buffer
    &&& a.vram_addr == b.vram_addr
    &&& a.tram_addr == b.tram_addr
    &&& a.fine_x == b.fine_x
    &&& a.bg == b.bg
}

/// What one dot does to sprite slot `i`: an active sprite (`active`)
/// counts its x position down until zero and then shifts its pattern
/// bits left; an inactive slot keeps its state.
#[verifier::inline]
pub open spec fn spec_sprite_shifted(before: FgView, after: FgView, i: int, active: bool) -> bool {
    if active {
        if before.sprite_scanline[i].x > 0 {
            &&& after.sprite_scanline[i] == (OamEntry {
                x: (before.sprite_scanline[i].x - 1) as u8,
                ..before.sprite_scanline[i]
            })
            &&& after.sprite_shifter_pattern_low[i] == before.sprite_shifter_pattern_low[i]
            &&& after.sprite_shifter_pattern_high[i] == before.sprite_shifter_pattern_high[i]
        } else {
            &&& after.sprite_scanline[i] == before.sprite_scanline[i]
            &&& after.sprite_shifter_pattern_low[i] == before.sprite_shifter_pattern_low[i] << 1
            &&& after.sprite_shifter_pattern_high[i] == before.sprite_shifter_pattern_high[i] << 1
        }
    } else {
        &&& after.sprite_scanline[i] == before.sprite_scanline[i]
        &&& after.sprite_shifter_pattern_low[i] == before.sprite_shifter_pattern_low[i]
        &&& after.sprite_shifter_pattern_high[i] == before.sprite_shifter_pattern_high[i]
    }
}

/// Reverse the bit order of a byte.
fn flip_byte(byte: u8) -> u8 {
    let b1 = ((byte & 0xF0) >> 4) | ((byte & 0x0F) << 4);
    let b2 = ((b1 & 0xCC) >> 2) | ((b1 & 0x33) << 2);
    ((b2 & 0xAA) >> 1) | ((b2 & 0x55) << 1)
}

impl Ppu {
    /// Select up to eight sprites of the sprite table for the next
    /// scanline; a ninth candidate raises the overflow flag.
    fn evaluate_sprites(&mut self)
        requires
            old(self).inv(),
        ensures
            final(self).inv(),
            spec_eq_except_fg_status(final(self)@, old(self)@),
            final(self)@.status.vertical_blank == old(self)@.status.vertical_blank,
            final(self)@.status.sprite_zero_hit == old(self)@.status.sprite_zero_hit,
            old(self)@.status.sprite_overflow ==> final(self)@.status.sprite_overflow,
    {
        self.fg.sprite_count = 0;
        self.fg.sprite_zero_hit_possible = false;
        let mut j: usize = 0;
        while j < 8
            invariant
                j <= 8,
                self.inv(),
                spec_eq_except_fg_status(self@, old(self)@),
                self@.status == old(self)@.status,
                self@.fg.sprite_count == 0,
                !self@.fg.sprite_zero_hit_possible,
            decreases 8 - j,
        {
            self.fg.sprite_scanline.set(j, OamEntry { y: 0xFF, tile_id: 0xFF, attribute: 0xFF, x: 0xFF });
            self.fg.sprite_shifter_pattern_low.set(j, 0);
            self.fg.sprite_shifter_pattern_high.set(j, 0);
            j = j + 1;
        }
        let mut oam_index: u8 = 0;
        while oam_index < 64
            invariant
                oam_index <= 64,
                self.inv(),
                spec_eq_except_fg_status(self@, old(self)@),
                self@.status.vertical_blank == old(self)@.status.vertical_blank,
                self@.status.sprite_zero_hit == old(self)@.status.sprite_zero_hit,
                old(self)@.status.sprite_overflow ==> self@.status.sprite_overflow,
            decreases 64 - oam_index,
        {
            let entry = self.oam.get_entry(oam_index);
            let diff: i16 = self.scanline - (entry.y as i16);
            let sprite_size: i16 = if self.control.sprite_size {
                16
            } else {
                8
            };
            if 0 <= diff && diff < sprite_size {
                if self.fg.sprite_count < 8 {
                    if oam_index == 0 {
                        // sprite zero is in flight, a hit becomes possible
                        self.fg.sprite_zero_hit_possible = true;
                    }
                    let count = self.fg.sprite_count as usize;
                    self.fg.sprite_scanline.set(count, entry);
                    self.fg.sprite_count = self.fg.sprite_count + 1;
                } else {
                    // a ninth sprite passed the test
                    self.status.sprite_overflow = true;
                }
            }
            oam_index = oam_index + 1;
        }
    }

    /// Fetch the pattern row of each in-flight sprite into its two
    /// shifters, honouring sprite size and both flip bits.
    fn fetch_sprite_patterns(&mut self, cart: &Cartridge)
        requires
            old(self).inv(),
            cart.inv(),
        ensures
            final(self).inv(),
            spec_eq_except_fg_status(final(self)@, old(self)@),
            final(self)@.status == old(self)@.status,
            final(self)@.fg.sprite_scanline == old(self)@.fg.sprite_scanline,
            final(self)@.fg.sprite_count == old(self)@.fg.sprite_count,
            final(self)@.fg.sprite_zero_hit_possible == old(self)@.fg.sprite_zero_hit_possible,
            final(self)@.fg.sprite_zero_being_rendered == old(self)@.fg.sprite_zero_being_rendered,
    {
        let count = self.fg.sprite_count as usize;
        let mut i: usize = 0;
        while i < count
            invariant
                count <= 8,
                cart.inv(),
                self.inv(),
                spec_eq_except_fg_status(self@, old(self)@),
                self@.status == old(self)@.status,
                self@.fg.sprite_scanline == old(self)@.fg.sprite_scanline,
                self@.fg.sprite_count == old(self)@.fg.sprite_count,
                self@.fg.sprite_zero_hit_possible == old(self)@.fg.sprite_zero_hit_possible,
                self@.fg.sprite_zero_being_rendered == old(self)@.fg.sprite_zero_being_rendered,
            decreases count - i,
        {
            let sprite = self.fg.sprite_scanline[i];
            let row_raw: i16 = self.scanline - (sprite.y as i16);
            let rowu: u16 = #[verifier::truncate] (row_raw as u16);
            proof {
                crate::util::lemma_u16_and_le(rowu, 0x0007);
            }
            let row: u16 = rowu & 0x0007;
            let addr_low: u16;
            if !self.control.sprite_size {
                // 8x8 sprites: one tile, rows 0 to 7
                let base: u16 = if self.control.pattern_sprite {
                    0x1000
                } else {
                    0
                };
                let tile: u16 = (sprite.tile_id as u16) << 4;
                let r: u16 = if sprite.attribute & 0x80 == 0 {
                    row
                } else {
                    7 - row
                };
                proof {
                    crate::util::lemma_u16_shl4_le(sprite.tile_id as u16);
                    crate::util::lemma_u16_or_le_sum(base, tile);
                    crate::util::lemma_u16_or_le_sum(base | tile, r);
                }
                addr_low = (base | tile) | r;
            } else {
                // 8x16 sprites: the tile pair starts at an even index
                let bank: u16 = if sprite.tile_id & 0x01 != 0 {
                    0x1000
                } else {
                    0
                };
                let top_half = row_raw < 8;
                let flipped = sprite.attribute & 0x80 != 0;
                let tile_index: u16 = if top_half == !flipped {
                    (sprite.tile_id & 0xFE) as u16
                } else {
                    ((sprite.tile_id & 0xFE) as u16) + 1
                };
                let r: u16 = if flipped {
                    7 - row
                } else {
                    row
                };
                proof {
                    crate::util::lemma_u8_and_le(sprite.tile_id, 0xFE);
                    crate::util::lemma_u16_shl4_le(tile_index);
                    crate::util::lemma_u16_or_le_sum(bank, tile_index << 4);
                    crate::util::lemma_u16_or_le_sum(bank | (tile_index << 4), r);
                }
                addr_low = (bank | (tile_index << 4)) | r;
            }
            let addr_high: u16 = addr_low + 8;
            let mut bits_low = self.ppu_read(addr_low, cart);
            let mut bits_high = self.ppu_read(addr_high, cart);
            if sprite.attribute & 0x40 != 0 {
                // horizontal flip: reverse the pattern bits
                bits_low = flip_byte(bits_low);
                bits_high = flip_byte(bits_high);
            }
            self.fg.sprite_shifter_pattern_low.set(i, bits_low);
            self.fg.sprite_shifter_pattern_high.set(i, bits_high);
            i = i + 1;
        }
    }

    /// Compose the background and foreground pixels of the current dot,
    /// record a sprite-zero hit, and draw into the work buffer.
    fn render_dot(&mut self, cart: &Cartridge)
        requires
            old(self).inv(),
            cart.inv(),
        ensures
            final(self).inv(),
            final(self)@.frame_complete == old(self)@.frame_complete,
            final(self)@.name_table == old(self)@.name_table,
            final(self)@.pattern_table == old(self)@.pattern_table,
            final(self)@.palette_table == old(self)@.palette_table,
            final(self)@.nmi == old(self)@.nmi,
            final(self)@.cycle == old(self)@.cycle,
            final(self)@.scanline == old(self)@.scanline,
            final(self)@.oam == old(self)@.oam,
            final(self)@.oam_addr == old(self)@.oam_addr,
            final(self)@.mask == old(self)@.mask,
            final(self)@.control == old(self)@.control,
            final(self)@.address_latch == old(self)@.address_latch,
            final(self)@.ppu_data_buffer == old(self)@.ppu_data_buffer,
            final(self)@.vram_addr == old(self)@.vram_addr,
            final(self)@.tram_addr == old(self)@.tram_addr,
            final(self)@.fine_x == old(self)@.fine_x,
            final(self)@.bg == old(self)@.bg,
            final(self)@.fg.sprite_scanline == old(self)@.fg.sprite_scanline,
            final(self)@.fg.sprite_count == old(self)@.fg.sprite_count,
            final(self)@.fg.sprite_zero_hit_possible == old(self)@.fg.sprite_zero_hit_possible,
            final(self)@.fg.sprite_shifter_pattern_low == old(self)@.fg.sprite_shifter_pattern_low,
            final(self)@.fg.sprite_shifter_pattern_high == old(self)@.fg.sprite_shifter_pattern_high,
            final(self)@.status.vertical_blank == old(self)@.status.vertical_blank,
            final(self)@.status.sprite_overflow == old(self)@.status.sprite_overflow,
            old(self)@.status.sprite_zero_hit ==> final(self)@.status.sprite_zero_hit,
            final(self)@.screen.width == old(self)@.screen.width,
            final(self)@.screen.height == old(self)@.screen.height,
            final(self)@.screen.work_is_first == old(self)@.screen.work_is_first,
            final(self)@.screen.draw() == old(self)@.screen.draw(),
    {
        let mut bg_pixel: u8 = 0;
        let mut bg_palette: u8 = 0;
        if self.mask.render_background {
            let bit_mux: u16 = 0x8000 >> (self.fine_x as u16);
            let p0: u8 = if (self.bg.shifter_pattern_low & bit_mux) > 0 {
                1
            } else {
                0
            };
            let p1: u8 = if (self.bg.shifter_pattern_high & bit_mux) > 0 {
                1
            } else {
                0
            };
            bg_pixel = (p1 << 1) | p0;
            let b0: u8 = if (self.bg.shifter_attrib_low & bit_mux) > 0 {
                1
            } else {
                0
            };
            let b1: u8 = if (self.bg.shifter_attrib_high & bit_mux) > 0 {
                1
            } else {
                0
            };
            bg_palette = (b1 << 1) | b0;
        }
        let mut fg_pixel: u8 = 0;
        let mut fg_palette: u8 = 0;
        let mut fg_priority: bool = false;
        if self.mask.render_sprites {
            self.fg.sprite_zero_being_rendered = false;
            let count = self.fg.sprite_count as usize;
            let mut found = false;
            let mut i: usize = 0;
            while i < count
                invariant
                    count <= 8,
                    self.inv(),
                    spec_eq_except_fg_status(self@, old(self)@),
                    self@.status == old(self)@.status,
                    self@.fg.sprite_scanline == old(self)@.fg.sprite_scanline,
                    self@.fg.sprite_count == old(self)@.fg.sprite_count,
                    self@.fg.sprite_zero_hit_possible == old(self)@.fg.sprite_zero_hit_possible,
                    self@.fg.sprite_shifter_pattern_low == old(self)@.fg.sprite_shifter_pattern_low,
                    self@.fg.sprite_shifter_pattern_high == old(self)@.fg.sprite_shifter_pattern_high,
                decreases count - i,
            {
                if !found {
                    let sprite = self.fg.sprite_scanline[i];
                    if sprite.x == 0 {
                        // the scanline reached this sprite; fine x does
                        // not apply to sprites
                        let lo: u8 = if (self.fg.sprite_shifter_pattern_low[i] & 0x80) > 0 {
                            1
                        } else {
                            0
                        };
                        let hi: u8 = if (self.fg.sprite_shifter_pattern_high[i] & 0x80) > 0 {
                            1
                        } else {
                            0
                        };
                        fg_pixel = (hi << 1) | lo;
                        proof {
                            crate::util::lemma_u8_and_le(sprite.attribute, 0x03);
                        }
                        fg_palette = (sprite.attribute & 0x03) + 0x04;
                        fg_priority = (sprite.attribute & 0x20) == 0;
                        if fg_pixel != 0 {
                            if i == 0 {
                                self.fg.sprite_zero_being_rendered = true;
                            }
                            found = true;
                        }
                    }
                }
                i = i + 1;
            }
        }
        let mut pixel: u8 = 0;
        let mut palette: u8 = 0;
        if bg_pixel == 0 && fg_pixel > 0 {
            pixel = fg_pixel;
            palette = fg_palette;
        } else if bg_pixel > 0 && fg_pixel == 0 {
            pixel = bg_pixel;
            palette = bg_palette;
        } else if bg_pixel > 0 && fg_pixel > 0 {
            if fg_priority {
                pixel = fg_pixel;
                palette = fg_palette;
            } else {
                pixel = bg_pixel;
                palette = bg_palette;
            }
            if self.fg.sprite_zero_hit_possible && self.fg.sprite_zero_being_rendered {
                // sprite zero collided with the background; both layers
                // must be enabled for the hit to count
                if self.mask.render_background && self.mask.render_sprites {
                    if !(self.mask.render_background_left && self.mask.render_sprites_left) {
                        if 9 <= self.cycle && self.cycle < 258 {
                            self.status.sprite_zero_hit = true;
                        }
                    } else if 1 <= self.cycle && self.cycle < 258 {
                        self.status.sprite_zero_hit = true;
                    }
                }
            }
        }
        let color = self.color_from_palette(palette, pixel, cart);
        if self.scanline >= 0 && self.cycle >= 1 {
            let x = self.scanline as usize;
            let y = (self.cycle - 1) as usize;
            self.screen.set_pixel((x, y), color);
        }
    }
}

impl Ppu {
    /// One dot of the rendering portion (pre-render and visible
    /// scanlines): the odd-frame skip, the status clears of the
    /// pre-render dot, the background fetch pipeline, the scroll
    /// increments and transfers, and the end-of-line sprite work.
    #[verifier::rlimit(100)]
    #[verifier::spinoff_prover]
    fn clock_render_line(&mut self, cart: &Cartridge)
        requires
            old(self).inv(),
            cart.inv(),
            -1 <= old(self)@.scanline <= 239,
        ensures
            final(self).inv(),
            final(self)@.cycle == (if old(self)@.scanline == 0 && old(self)@.cycle == 0 {
                1i16
            } else {
                old(self)@.cycle
            }),
            final(self)@.scanline == old(self)@.scanline,
            final(self)@.frame_complete == old(self)@.frame_complete,
            final(self)@.nmi == old(self)@.nmi,
            final(self)@.control == old(self)@.control,
            final(self)@.mask == old(self)@.mask,
            old(self)@.scanline == -1 && old(self)@.cycle == 1 ==> final(self)@.status == (
            StatusReg {
                sprite_overflow: false,
                sprite_zero_hit: false,
                vertical_blank: false,
            }),
            !(old(self)@.scanline == -1 && old(self)@.cycle == 1) ==> {
                &&& final(self)@.status.vertical_blank == old(self)@.status.vertical_blank
                &&& final(self)@.status.sprite_zero_hit == old(self)@.status.sprite_zero_hit
                &&& (old(self)@.status.sprite_overflow ==> final(self)@.status.sprite_overflow)
            },
    {
        if self.scanline == 0 && self.cycle == 0 {
            // odd-frame cycle skip
            self.cycle = 1;
        }
        if self.scanline == -1 && self.cycle == 1 {
            // start of a new frame
            self.status.vertical_blank = false;
            self.status.sprite_overflow = false;
            self.status.sprite_zero_hit = false;
            let mut j: usize = 0;
            while j < 8
                invariant
                    j <= 8,
                    self.inv(),
                    spec_eq_except_fg_status(self@, old(self)@),
                    self@.status == (StatusReg {
                        sprite_overflow: false,
                        sprite_zero_hit: false,
                        vertical_blank: false,
                    }),
                    self@.fg.sprite_count == old(self)@.fg.sprite_count,
                decreases 8 - j,
            {
                self.fg.sprite_shifter_pattern_low.set(j, 0);
                self.fg.sprite_shifter_pattern_high.set(j, 0);
                j = j + 1;
            }
        }
        self.bg_pipeline_dot(cart);
        self.line_maintenance(cart);
    }

    /// The eight-dot background fetch pipeline: shifter movement and
    /// the staggered nametable, attribute and pattern fetches, with the
    /// horizontal scroll increment on the last step.
    #[verifier::rlimit(100)]
    #[verifier::spinoff_prover]
    fn bg_pipeline_dot(&mut self, cart: &Cartridge)
        requires
            old(self).inv(),
            cart.inv(),
        ensures
            final(self).inv(),
            final(self)@.cycle == old(self)@.cycle,
            final(self)@.scanline == old(self)@.scanline,
            final(self)@.frame_complete == old(self)@.frame_complete,
            final(self)@.nmi == old(self)@.nmi,
            final(self)@.control == old(self)@.control,
            final(self)@.mask == old(self)@.mask,
            final(self)@.status == old(self)@.status,
            !old(self)@.mask.rendering() ==> final(self)@.vram_addr == old(self)@.vram_addr,
    {
        if (2 <= self.cycle && self.cycle <= 257) || (321 <= self.cycle && self.cycle <= 337) {
            self.update_shifters();
            match (self.cycle - 1) % 8 {
                0 => {
                    self.load_backgrond_shifters();
                    let id = self.ppu_read(0x2000 | (self.vram_addr.0 & 0x0FFF), cart);
                    self.bg.next_tile_id = id;
                },
                2 => {
                    let ny: u16 = if self.vram_addr.nametable_y() {
                        0x0800
                    } else {
                        0
                    };
                    let nx: u16 = if self.vram_addr.nametable_x() {
                        0x0400
                    } else {
                        0
                    };
                    let addr: u16 = 0x23C0 | ny | nx | ((self.vram_addr.coarse_y() >> 2) << 3) | (
                    self.vram_addr.coarse_x() >> 2);
                    let mut attrib = self.ppu_read(addr, cart);
                    if self.vram_addr.coarse_y() & 0x02 != 0 {
                        attrib = attrib >> 4;
                    }
                    if self.vram_addr.coarse_x() & 0x02 != 0 {
                        attrib = attrib >> 2;
                    }
                    self.bg.next_tile_attrib = attrib & 0x03;
                },
                4 => {
                    let base: u16 = if self.control.pattern_background {
                        0x1000
                    } else {
                        0
                    };
                    proof {
                        crate::util::lemma_u16_shl4_le(self.bg.next_tile_id as u16);
                    }
                    let addr: u16 = base + ((self.bg.next_tile_id as u16) << 4)
                        + self.vram_addr.fine_y();
                    let lsb = self.ppu_read(addr, cart);
                    self.bg.next_tile_lsb = lsb;
                },
                6 => {
                    let base: u16 = if self.control.pattern_background {
                        0x1000
                    } else {
                        0
                    };
                    proof {
                        crate::util::lemma_u16_shl4_le(self.bg.next_tile_id as u16);
                    }
                    let addr: u16 = base + ((self.bg.next_tile_id as u16) << 4)
                        + self.vram_addr.fine_y() + 8;
                    let msb = self.ppu_read(addr, cart);
                    self.bg.next_tile_msb = msb;
                },
                7 => {
                    self.increment_scroll_x();
                },
                _ => {},
            }
        }
    }

    /// The end-of-line work: the vertical scroll increment at dot 256,
    /// shifter reload and horizontal transfer at dot 257, the dummy
    /// nametable fetches, the pre-render vertical transfers, sprite
    /// evaluation at dot 257 and sprite pattern fetch at dot 340.
    #[verifier::rlimit(100)]
    #[verifier::spinoff_prover]
    fn line_maintenance(&mut self, cart: &Cartridge)
        requires
            old(self).inv(),
            cart.inv(),
        ensures
            final(self).inv(),
            final(self)@.cycle == old(self)@.cycle,
            final(self)@.scanline == old(self)@.scanline,
            final(self)@.frame_complete == old(self)@.frame_complete,
            final(self)@.nmi == old(self)@.nmi,
            final(self)@.control == old(self)@.control,
            final(self)@.mask == old(self)@.mask,
            final(self)@.status.vertical_blank == old(self)@.status.vertical_blank,
            final(self)@.status.sprite_zero_hit == old(self)@.status.sprite_zero_hit,
            old(self)@.status.sprite_overflow ==> final(self)@.status.sprite_overflow,
            old(self)@.cycle != 257 ==> final(self)@.status.sprite_overflow == old(self)@.status.sprite_overflow,
            !old(self)@.mask.rendering() ==> final(self)@.vram_addr == old(self)@.vram_addr,
    {
        if self.cycle == 256 {
            self.increment_scroll_y();
        }
        if self.cycle == 257 {
            self.load_backgrond_shifters();
            self.transfer_address_x();
        }
        if self.cycle == 338 || self.cycle == 340 {
            let id = self.ppu_read(0x2000 | (self.vram_addr.0 & 0x0FFF), cart);
            self.bg.next_tile_id = id;
        }
        if self.scanline == -1 && 280 <= self.cycle && self.cycle <= 304 {
            self.transfer_address_y();
        }
        if self.cycle == 257 && self.scanline >= 0 {
            // end of the visible part: select the sprites of the next
            // scanline in one burst
            self.evaluate_sprites();
        }
        if self.cycle == 340 {
            self.fetch_sprite_patterns(cart);
        }
    }

    /// One PPU dot.
    ///
    /// Advances the (scanline, dot) position by exactly one dot — two
    /// across the skipped dot at scanline 0, dot 0 — raises vertical
    /// blank (and, when enabled, the pending interrupt) at scanline
    /// 241, dot 1, clears the status bits at the pre-render dot, and
    /// reports the frame complete after the last dot of the frame.
    #[verifier::rlimit(100)]
    #[verifier::spinoff_prover]
    pub fn clock(&mut self, cart: &Cartridge)
        requires
            old(self).inv(),
            cart.inv(),
        ensures
            final(self).inv(),
            ({
                let o = spec_dot_ord(old(self)@.scanline, old(self)@.cycle);
                let n = spec_dot_ord(final(self)@.scanline, final(self)@.cycle);
                if old(self)@.scanline == 0 && old(self)@.cycle == 0 {
                    n == o + 2
                } else if o == 89341 {
                    n == 0
                } else {
                    n == o + 1
                }
            }),
            final(self)@.frame_complete == (spec_dot_ord(old(self)@.scanline, old(self)@.cycle)
                == 89341),
            final(self)@.status.vertical_blank == (if old(self)@.scanline == 241 && old(self)@.cycle == 1 {
                true
            } else if old(self)@.scanline == -1 && old(self)@.cycle == 1 {
                false
            } else {
                old(self)@.status.vertical_blank
            }),
            final(self)@.nmi == (old(self)@.nmi || (old(self)@.scanline == 241 && old(self)@.cycle
                == 1 && old(self)@.control.enable_nmi)),
            old(self)@.scanline == -1 && old(self)@.cycle == 1 ==> !final(self)@.status.sprite_overflow,
            final(self)@.control == old(self)@.control,
            final(self)@.mask == old(self)@.mask,
    {
        self.frame_complete = false;
        if self.scanline <= 239 {
            self.clock_render_line(cart);
        } else if self.scanline == 241 && self.cycle == 1 {
            self.status.vertical_blank = true;
            if self.control.enable_nmi {
                // drawing is done; tell the CPU it may work on the frame
                self.nmi = true;
            }
        }
        self.render_dot(cart);
        self.advance_dot();
    }

    /// Step to the next dot: the dot counter wraps at 341 into the next
    /// scanline, and the scanline wraps after 260 into the pre-render
    /// line, completing the frame.
    fn advance_dot(&mut self)
        requires
            old(self).inv(),
        ensures
            final(self).inv(),
            final(self)@.screen == old(self)@.screen,
            final(self)@.name_table == old(self)@.name_table,
            final(self)@.pattern_table == old(self)@.pattern_table,
            final(self)@.palette_table == old(self)@.palette_table,
            final(self)@.nmi == old(self)@.nmi,
            final(self)@.oam == old(self)@.oam,
            final(self)@.oam_addr == old(self)@.oam_addr,
            final(self)@.status == old(self)@.status,
            final(self)@.mask == old(self)@.mask,
            final(self)@.control == old(self)@.control,
            final(self)@.address_latch == old(self)@.address_latch,
            final(self)@.ppu_data_buffer == old(self)@.ppu_data_buffer,
            final(self)@.vram_addr == old(self)@.vram_addr,
            final(self)@.tram_addr == old(self)@.tram_addr,
            final(self)@.fine_x == old(self)@.fine_x,
            final(self)@.bg == old(self)@.bg,
            final(self)@.fg == old(self)@.fg,
            ({
                let o = spec_dot_ord(old(self)@.scanline, old(self)@.cycle);
                let n = spec_dot_ord(final(self)@.scanline, final(self)@.cycle);
                n == (if o == 89341 {
                    0int
                } else {
                    o + 1
                })
            }),
            final(self)@.frame_complete == (old(self)@.frame_complete || spec_dot_ord(
                old(self)@.scanline,
                old(self)@.cycle,
            ) == 89341),
    {
        self.cycle = self.cycle + 1;
        if self.cycle >= 341 {
            self.cycle = 0;
            self.scanline = self.scanline + 1;
            if self.scanline >= 261 {
                self.scanline = -1;
                self.frame_complete = true;
            }
        }
    }
}

} // verus!
