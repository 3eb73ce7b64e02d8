//! The picture processing unit: register file, video memory, and the
//! rendering state machine that produces one 256x240 frame per 89342
//! dots.
//!
//! The PPU reaches cartridge memory through its own bus; the cartridge
//! is handed in by the caller for every access, so that the system can
//! share one cartridge between the CPU bus and the PPU.

use crate::cartridge::{CartView, Cartridge, CartridgeMirror};
use crate::oam::{Oam, OamEntry};
use crate::ppu_regs::{ControlReg, MaskReg, PPUReadWriteFlags, RamAddrData, StatusReg};
use crate::screen::{master_palette, Pixel, Screen, ScreenView};
use crate::util::{lemma_u16_and_le, lemma_u16_low_masks_are_mod};
use vstd::prelude::*;

verus! {

/// First PPU register address on the CPU bus.
pub const PPU_ADDR_START: u16 = 0x2000;

/// Last PPU register address on the CPU bus; also the PPU bus mask.
pub const PPU_ADDR_END: u16 = 0x3FFF;

/// Holding registers and shifters of the background pipeline.
#[derive(Clone, Copy, Debug, PartialEq, Eq, Structural)]
pub struct BackgroundData {
    /// Tile index fetched for the next tile.
    pub next_tile_id: u8,
    /// Palette attribute bits fetched for the next tile.
    pub next_tile_attrib: u8,
    /// Low pattern byte fetched for the next tile.
    pub next_tile_lsb: u8,
    /// High pattern byte fetched for the next tile.
    pub next_tile_msb: u8,
    /// Low pattern shifter.
    pub shifter_pattern_low: u16,
    /// High pattern shifter.
    pub shifter_pattern_high: u16,
    /// Low attribute shifter.
    pub shifter_attrib_low: u16,
    /// High attribute shifter.
    pub shifter_attrib_high: u16,
}

impl BackgroundData {
    /// An empty pipeline.
    pub fn zeroed() -> (r: BackgroundData)
        ensures
            r == BackgroundData::spec_zeroed(),
    {
        BackgroundData {
            next_tile_id: 0,
            next_tile_attrib: 0,
            next_tile_lsb: 0,
            next_tile_msb: 0,
            shifter_pattern_low: 0,
            shifter_pattern_high: 0,
            shifter_attrib_low: 0,
            shifter_attrib_high: 0,
        }
    }

    /// The empty pipeline.
    pub open spec fn spec_zeroed() -> BackgroundData {
        BackgroundData {
            next_tile_id: 0,
            next_tile_attrib: 0,
            next_tile_lsb: 0,
            next_tile_msb: 0,
            shifter_pattern_low: 0,
            shifter_pattern_high: 0,
            shifter_attrib_low: 0,
            shifter_attrib_high: 0,
        }
    }
}

/// The up-to-eight in-flight sprites of the next scanline and their
/// pattern shifters.
#[derive(Clone, Debug)]
pub struct ForegroundData {
    /// The sprites selected for the coming scanline.
    pub sprite_scanline: Vec<OamEntry>,
    /// How many of the eight slots are in use.
    pub sprite_count: u8,
    /// Low pattern shifter of each in-flight sprite.
    pub sprite_shifter_pattern_low: Vec<u8>,
    /// High pattern shifter of each in-flight sprite.
    pub sprite_shifter_pattern_high: Vec<u8>,
    /// Sprite zero was copied into the scanline buffer.
    pub sprite_zero_hit_possible: bool,
    /// Sprite zero contributed the pixel drawn this dot.
    pub sprite_zero_being_rendered: bool,
}

/// The mathematical state of the foreground pipeline.
#[verifier::ext_equal]
pub struct FgView {
    /// The sprites selected for the coming scanline.
    pub sprite_scanline: Seq<OamEntry>,
    /// How many of the eight slots are in use.
    pub sprite_count: u8,
    /// Low pattern shifters.
    pub sprite_shifter_pattern_low: Seq<u8>,
    /// High pattern shifters.
    pub sprite_shifter_pattern_high: Seq<u8>,
    /// Sprite zero was copied into the scanline buffer.
    pub sprite_zero_hit_possible: bool,
    /// Sprite zero contributed the pixel drawn this dot.
    pub sprite_zero_being_rendered: bool,
}

impl View for ForegroundData {
    type V = FgView;

    open spec fn view(&self) -> FgView {
        FgView {
            sprite_scanline: self.sprite_scanline@,
            sprite_count: self.sprite_count,
            sprite_shifter_pattern_low: self.sprite_shifter_pattern_low@,
            sprite_shifter_pattern_high: self.sprite_shifter_pattern_high@,
            sprite_zero_hit_possible: self.sprite_zero_hit_possible,
            sprite_zero_being_rendered: self.sprite_zero_being_rendered,
        }
    }
}

impl ForegroundData {
    /// The eight slots exist and the count stays within them.
    pub open spec fn inv(&self) -> bool {
        &&& self@.sprite_scanline.len() == 8
        &&& self@.sprite_shifter_pattern_low.len() == 8
        &&& self@.sprite_shifter_pattern_high.len() == 8
        &&& self@.sprite_count <= 8
    }

    /// An empty foreground pipeline.
    pub fn zeroed() -> (r: ForegroundData)
        ensures
            r.inv(),
            r@.sprite_count == 0,
            !r@.sprite_zero_hit_possible,
            !r@.sprite_zero_being_rendered,
    {
        let mut sprite_scanline: Vec<OamEntry> = Vec::new();
        let mut low: Vec<u8> = Vec::new();
        let mut high: Vec<u8> = Vec::new();
        let mut i: usize = 0;
        while i < 8
            invariant
                i <= 8,
                sprite_scanline@.len() == i,
                low@.len() == i,
                high@.len() == i,
            decreases 8 - i,
        {
            sprite_scanline.push(OamEntry { y: 0, tile_id: 0, attribute: 0, x: 0 });
            low.push(0u8);
            high.push(0u8);
            i = i + 1;
        }
        ForegroundData {
            sprite_scanline,
            sprite_count: 0,
            sprite_shifter_pattern_low: low,
            sprite_shifter_pattern_high: high,
            sprite_zero_hit_possible: false,
            sprite_zero_being_rendered: false,
        }
    }
}

/// The picture processing unit.
#[derive(Clone, Debug)]
pub struct Ppu {
    /// The double-buffered framebuffer.
    pub screen: Screen,
    /// The last dot of the frame has been produced.
    pub frame_complete: bool,
    /// Both internal nametables, 1024 bytes each.
    pub name_table: Vec<u8>,
    /// Both internal pattern tables, 4096 bytes each.
    pub pattern_table: Vec<u8>,
    /// The 32-byte palette memory.
    pub palette_table: Vec<u8>,
    /// An NMI is pending for the CPU.
    pub nmi: bool,
    /// Current dot within the scanline, 0 to 340.
    pub cycle: i16,
    /// Current scanline, -1 (pre-render) to 260.
    pub scanline: i16,
    /// The sprite table, written directly by the DMA engine.
    pub oam: Oam,
    /// The OAM address register.
    pub oam_addr: u8,
    /// The status register.
    pub status: StatusReg,
    /// The mask register.
    pub mask: MaskReg,
    /// The control register.
    pub control: ControlReg,
    /// Which half of a two-write register sequence comes next.
    pub address_latch: u8,
    /// The delayed read buffer of the data register.
    pub ppu_data_buffer: u8,
    /// The live VRAM address composite.
    pub vram_addr: RamAddrData,
    /// The temporary VRAM address composite.
    pub tram_addr: RamAddrData,
    /// Horizontal pixel offset within a tile.
    pub fine_x: u8,
    /// The background pipeline.
    pub bg: BackgroundData,
    /// The foreground pipeline.
    pub fg: ForegroundData,
}

/// The mathematical state of the PPU.
#[verifier::ext_equal]
pub struct PpuView {
    /// The double-buffered framebuffer.
    pub screen: ScreenView,
    /// The last dot of the frame has been produced.
    pub frame_complete: bool,
    /// Both internal nametables, 1024 bytes each.
    pub name_table: Seq<u8>,
    /// Both internal pattern tables, 4096 bytes each.
    pub pattern_table: Seq<u8>,
    /// The 32-byte palette memory.
    pub palette_table: Seq<u8>,
    /// An NMI is pending for the CPU.
    pub nmi: bool,
    /// Current dot within the scanline, 0 to 340.
    pub cycle: i16,
    /// Current scanline, -1 (pre-render) to 260.
    pub scanline: i16,
    /// The 256-byte sprite table.
    pub oam: Seq<u8>,
    /// The OAM address register.
    pub oam_addr: u8,
    /// The status register.
    pub status: StatusReg,
    /// The mask register.
    pub mask: MaskReg,
    /// The control register.
    pub control: ControlReg,
    /// Which half of a two-write register sequence comes next.
    pub address_latch: u8,
    /// The delayed read buffer of the data register.
    pub ppu_data_buffer: u8,
    /// The live VRAM address composite.
    pub vram_addr: RamAddrData,
    /// The temporary VRAM address composite.
    pub tram_addr: RamAddrData,
    /// Horizontal pixel offset within a tile.
    pub fine_x: u8,
    /// The background pipeline.
    pub bg: BackgroundData,
    /// The foreground pipeline.
    pub fg: FgView,
}

impl View for Ppu {
    type V = PpuView;

    open spec fn view(&self) -> PpuView {
        PpuView {
            screen: self.screen@,
            frame_complete: self.frame_complete,
            name_table: self.name_table@,
            pattern_table: self.pattern_table@,
            palette_table: self.palette_table@,
            nmi: self.nmi,
            cycle: self.cycle,
            scanline: self.scanline,
            oam: self.oam@,
            oam_addr: self.oam_addr,
            status: self.status,
            mask: self.mask,
            control: self.control,
            address_latch: self.address_latch,
            ppu_data_buffer: self.ppu_data_buffer,
            vram_addr: self.vram_addr,
            tram_addr: self.tram_addr,
            fine_x: self.fine_x,
            bg: self.bg,
            fg: self.fg@,
        }
    }
}

/// The palette-memory index an address selects: the low five bits,
/// with the four sprite universal-background slots aliased onto the
/// background ones.
pub open spec fn spec_pal_index(a: int) -> int {
    let i = a % 32;
    if i == 0x10 {
        0x00
    } else if i == 0x14 {
        0x04
    } else if i == 0x18 {
        0x08
    } else if i == 0x1C {
        0x0C
    } else {
        i
    }
}

/// The index into the two internal nametables that an address selects
/// under the given mirroring, or `None` when the one-screen modes leave
/// the access unrouted.
pub open spec fn spec_nt_index(mirror: CartridgeMirror, a: int) -> Option<int> {
    let r = a % 0x1000;
    match mirror {
        CartridgeMirror::Vertical => Some(((r / 0x0400) % 2) * 1024 + (r % 0x0400)),
        CartridgeMirror::Horizontal => Some((r / 0x0800) * 1024 + (r % 0x0400)),
        _ => None,
    }
}

/// What a read on the PPU bus returns: the cartridge first, then
/// nametable memory under mirroring, then palette memory.
pub open spec fn spec_ppu_read(p: PpuView, c: CartView, addr: u16) -> u8 {
    let a = (addr as int) % 0x4000;
    if a < 0x2000 {
        c.character[a]
    } else if a < 0x3F00 {
        match spec_nt_index(c.mirror, a) {
            Some(i) => p.name_table[i],
            None => 0u8,
        }
    } else {
        p.palette_table[spec_pal_index(a)] & (if p.mask.grayscale {
            0x30u8
        } else {
            0x3Fu8
        })
    }
}

/// The PPU and cartridge after a write on the PPU bus: character RAM
/// first, then internal pattern memory, nametables under mirroring, or
/// palette memory.
pub open spec fn spec_ppu_write(p: PpuView, c: CartView, addr: u16, data: u8) -> (PpuView, CartView) {
    let a = (addr as int) % 0x4000;
    if a < 0x2000 && c.character_banks == 0 {
        (p, CartView { character: c.character.update(a, data), ..c })
    } else if a < 0x2000 {
        (PpuView { pattern_table: p.pattern_table.update(a, data), ..p }, c)
    } else if a < 0x3F00 {
        match spec_nt_index(c.mirror, a) {
            Some(i) => (PpuView { name_table: p.name_table.update(i, data), ..p }, c),
            None => (p, c),
        }
    } else {
        (PpuView { palette_table: p.palette_table.update(spec_pal_index(a), data), ..p }, c)
    }
}

impl PpuView {
    /// Well-formedness of the whole unit: table sizes, register ranges
    /// and the 15-bit bound on both VRAM composites.
    pub open spec fn inv(&self) -> bool {
        &&& self.screen.width == 256
        &&& self.screen.height == 240
        &&& self.screen.buffer1.len() == 256 * 240
        &&& self.screen.buffer2.len() == 256 * 240
        &&& self.name_table.len() == 2048
        &&& self.pattern_table.len() == 8192
        &&& self.palette_table.len() == 32
        &&& self.oam.len() == 256
        &&& self.vram_addr.inv()
        &&& self.tram_addr.inv()
        &&& self.fine_x < 8
        &&& 0 <= self.cycle <= 340
        &&& -1 <= self.scanline <= 260
        &&& self.fg.sprite_scanline.len() == 8
        &&& self.fg.sprite_shifter_pattern_low.len() == 8
        &&& self.fg.sprite_shifter_pattern_high.len() == 8
        &&& self.fg.sprite_count <= 8
    }
}

impl Ppu {
    /// Well-formedness of the whole unit.
    pub open spec fn inv(&self) -> bool {
        self@.inv()
    }

    /// A freshly powered-on PPU: all memory zeroed, position at the
    /// first dot of the first visible scanline.
    pub fn new() -> (r: Ppu)
        ensures
            r.inv(),
            r@.cycle == 0,
            r@.scanline == 0,
            !r@.nmi,
            !r@.frame_complete,
            r@.status == StatusReg::spec_empty(),
            r@.mask == MaskReg::spec_from_bits(0),
            r@.control == ControlReg::spec_from_bits(0),
            r@.vram_addr.0 == 0,
            r@.tram_addr.0 == 0,
            r@.fine_x == 0,
            r@.address_latch == 0,
            r@.ppu_data_buffer == 0,
            r@.oam_addr == 0,
            r@.oam == Seq::<u8>::new(256, |i: int| 0u8),
            r@.name_table == Seq::<u8>::new(2048, |i: int| 0u8),
            r@.pattern_table == Seq::<u8>::new(8192, |i: int| 0u8),
            r@.palette_table == Seq::<u8>::new(32, |i: int| 0u8),
    {
        Ppu {
            screen: Screen::new(256, 240),
            frame_complete: false,
            name_table: zero_bytes(2048),
            pattern_table: zero_bytes(8192),
            palette_table: zero_bytes(32),
            nmi: false,
            cycle: 0,
            scanline: 0,
            oam: Oam::new(),
            oam_addr: 0,
            status: StatusReg::empty(),
            mask: MaskReg::empty(),
            control: ControlReg::empty(),
            address_latch: 0,
            ppu_data_buffer: 0,
            vram_addr: RamAddrData(0),
            tram_addr: RamAddrData(0),
            fine_x: 0,
            bg: BackgroundData::zeroed(),
            fg: ForegroundData::zeroed(),
        }
    }

    /// Reset the rendering state and registers; video memory and the
    /// sprite table keep their contents.
    pub fn reset(&mut self)
        requires
            old(self).inv(),
        ensures
            final(self).inv(),
            final(self)@.cycle == 0,
            final(self)@.scanline == 0,
            final(self)@.fine_x == 0,
            final(self)@.address_latch == 0,
            final(self)@.ppu_data_buffer == 0,
            final(self)@.status == StatusReg::spec_empty(),
            final(self)@.mask == MaskReg::spec_from_bits(0),
            final(self)@.control == ControlReg::spec_from_bits(0),
            final(self)@.vram_addr.0 == 0,
            final(self)@.tram_addr.0 == 0,
            final(self)@.bg == BackgroundData::spec_zeroed(),
            final(self)@.fg.sprite_count == 0,
            final(self)@.name_table == old(self)@.name_table,
            final(self)@.pattern_table == old(self)@.pattern_table,
            final(self)@.palette_table == old(self)@.palette_table,
            final(self)@.oam == old(self)@.oam,
            final(self)@.screen == old(self)@.screen,
            final(self)@.nmi == old(self)@.nmi,
            final(self)@.frame_complete == old(self)@.frame_complete,
            final(self)@.oam_addr == old(self)@.oam_addr,
    {
        self.fine_x = 0;
        self.address_latch = 0;
        self.ppu_data_buffer = 0;
        self.scanline = 0;
        self.cycle = 0;
        self.bg = BackgroundData::zeroed();
        self.fg = ForegroundData::zeroed();
        self.status = StatusReg::empty();
        self.mask = MaskReg::empty();
        self.control = ControlReg::empty();
        self.vram_addr = RamAddrData(0);
        self.tram_addr = RamAddrData(0);
    }

    /// The framebuffer.
    pub fn screen(&self) -> (r: &Screen)
        ensures
            r@ == self@.screen,
    {
        &self.screen
    }

    /// Whether a finished frame is waiting; when one is, the buffers
    /// are switched and the flag is consumed.
    pub fn screen_ready(&mut self) -> (r: bool)
        requires
            old(self).inv(),
        ensures
            final(self).inv(),
            r == old(self)@.frame_complete,
            !final(self)@.frame_complete,
            final(self)@ == (PpuView {
                frame_complete: false,
                screen: final(self)@.screen,
                ..old(self)@
            }),
            r ==> final(self)@.screen == (ScreenView {
                work_is_first: !old(self)@.screen.work_is_first,
                ..old(self)@.screen
            }),
            !r ==> final(self)@.screen == old(self)@.screen,
    {
        if self.frame_complete {
            self.frame_complete = false;
            self.screen.switch_buffer();
            true
        } else {
            false
        }
    }

    /// Whether the PPU has an interrupt pending for the CPU.
    pub fn interrupt_sent(&self) -> (r: bool)
        ensures
            r == self@.nmi,
    {
        self.nmi
    }

    /// Acknowledge the pending interrupt.
    pub fn interrupt_done(&mut self)
        ensures
            final(self)@ == (PpuView { nmi: false, ..old(self)@ }),
    {
        self.nmi = false;
    }

    /// A read on the PPU's own bus.
    pub fn ppu_read(&self, addr: u16, cart: &Cartridge) -> (r: u8)
        requires
            self.inv(),
            cart.inv(),
        ensures
            r == spec_ppu_read(self@, cart@, addr),
    {
        proof {
            lemma_u16_low_masks_are_mod(addr);
        }
        let a: u16 = addr & PPU_ADDR_END;
        match cart.ppu_map_read(a) {
            Some(mapped) => mapped,
            None => {
                if a < 0x2000 {
                    // unreachable with the NROM mapper, which claims the
                    // whole pattern range
                    self.pattern_table[a as usize]
                } else if a <= 0x3EFF {
                    proof {
                        lemma_u16_low_masks_are_mod(a);
                    }
                    let masked: u16 = a & 0x0FFF;
                    let off: usize = (a & 0x03FF) as usize;
                    proof {
                        lemma_u16_low_masks_are_mod(masked);
                        assert((masked as int) % 0x0400 == (a as int) % 0x0400) by {
                            assert((a as int) % 0x1000 % 0x0400 == (a as int) % 0x0400) by (nonlinear_arith);
                        };
                    }
                    match cart.mirror_mode() {
                        CartridgeMirror::Vertical => {
                            if masked <= 0x03FF || (0x0800 <= masked && masked <= 0x0BFF) {
                                self.name_table[off]
                            } else {
                                self.name_table[1024 + off]
                            }
                        },
                        CartridgeMirror::Horizontal => {
                            if masked <= 0x07FF {
                                self.name_table[off]
                            } else {
                                self.name_table[1024 + off]
                            }
                        },
                        _ => 0u8,
                    }
                } else {
                    let i: u16 = a & 0x001F;
                    proof {
                        lemma_u16_low_masks_are_mod(a);
                    }
                    let idx: u16 = match i {
                        0x0010 => 0x0000,
                        0x0014 => 0x0004,
                        0x0018 => 0x0008,
                        0x001C => 0x000C,
                        _ => i,
                    };
                    self.palette_table[idx as usize] & (if self.mask.grayscale {
                        0x30u8
                    } else {
                        0x3Fu8
                    })
                }
            },
        }
    }

    /// A write on the PPU's own bus.
    pub fn ppu_write(&mut self, addr: u16, data: u8, cart: &mut Cartridge)
        requires
            old(self).inv(),
            old(cart).inv(),
        ensures
            final(self).inv(),
            final(cart).inv(),
            (final(self)@, final(cart)@) == spec_ppu_write(old(self)@, old(cart)@, addr, data),
    {
        proof {
            lemma_u16_low_masks_are_mod(addr);
        }
        let a: u16 = addr & PPU_ADDR_END;
        match cart.ppu_map_write(a, data) {
            Some(_) => {},
            None => {
                if a < 0x2000 {
                    self.pattern_table.set(a as usize, data);
                } else if a <= 0x3EFF {
                    proof {
                        lemma_u16_low_masks_are_mod(a);
                    }
                    let masked: u16 = a & 0x0FFF;
                    let off: usize = (a & 0x03FF) as usize;
                    proof {
                        lemma_u16_low_masks_are_mod(masked);
                        assert((masked as int) % 0x0400 == (a as int) % 0x0400) by {
                            assert((a as int) % 0x1000 % 0x0400 == (a as int) % 0x0400) by (nonlinear_arith);
                        };
                    }
                    match cart.mirror_mode() {
                        CartridgeMirror::Vertical => {
                            if masked <= 0x03FF || (0x0800 <= masked && masked <= 0x0BFF) {
                                self.name_table.set(off, data);
                            } else {
                                self.name_table.set(1024 + off, data);
                            }
                        },
                        CartridgeMirror::Horizontal => {
                            if masked <= 0x07FF {
                                self.name_table.set(off, data);
                            } else {
                                self.name_table.set(1024 + off, data);
                            }
                        },
                        _ => {},
                    }
                } else {
                    let i: u16 = a & 0x001F;
                    proof {
                        lemma_u16_low_masks_are_mod(a);
                    }
                    let idx: u16 = match i {
                        0x0010 => 0x0000,
                        0x0014 => 0x0004,
                        0x0018 => 0x0008,
                        0x001C => 0x000C,
                        _ => i,
                    };
                    self.palette_table.set(idx as usize, data);
                }
            },
        }
    }

    /// The master color selected by a palette and pixel index pair.
    pub fn color_from_palette(&self, palette_index: u8, pixel_index: u8, cart: &Cartridge) -> (p:
        Pixel)
        requires
            self.inv(),
            cart.inv(),
        ensures
            ({
                let addr = (0x3F00 + palette_index * 4 + pixel_index) as u16;
                p == crate::screen::spec_master_palette(
                    (spec_ppu_read(self@, cart@, addr) & 0x3F) as int,
                )
            }),
    {
        let addr: u16 = 0x3F00 + (palette_index as u16) * 4 + (pixel_index as u16);
        let raw = self.ppu_read(addr, cart);
        proof {
            lemma_u16_and_le(raw as u16, 0x3F);
            assert((raw & 0x3Fu8) < 64) by (bit_vector);
        }
        master_palette(raw & 0x3F)
    }
}

/// The VRAM address after one data-register access: up by 32 in
/// vertical increment mode, by 1 otherwise, within 15 bits.
pub open spec fn spec_vram_increment(p: PpuView) -> RamAddrData {
    RamAddrData(
        (((p.vram_addr.0 as int) + (if p.control.increment_mode {
            32int
        } else {
            1int
        })) % 0x8000) as u16,
    )
}

/// What the CPU reads from PPU register `reg`: the status byte mixed
/// with read-buffer noise, the OAM byte under the OAM address, or the
/// delayed data-register buffer (palette reads skip the delay).
pub open spec fn spec_cpu_read_result(p: PpuView, c: CartView, reg: u16) -> u8 {
    if reg == 2 {
        (p.status.spec_bits() & 0xE0) | (p.ppu_data_buffer & 0x1F)
    } else if reg == 4 {
        p.oam[p.oam_addr as int]
    } else if reg == 7 {
        if p.vram_addr.0 >= 0x3F00 {
            spec_ppu_read(p, c, p.vram_addr.0)
        } else {
            p.ppu_data_buffer
        }
    } else {
        0u8
    }
}

/// The PPU after the CPU reads register `reg`: a status read clears
/// vertical blank and the write latch; a data read refills the buffer
/// and advances the VRAM address.
pub open spec fn spec_cpu_read_next(p: PpuView, c: CartView, reg: u16) -> PpuView {
    if reg == 2 {
        PpuView {
            status: StatusReg { vertical_blank: false, ..p.status },
            address_latch: 0,
            ..p
        }
    } else if reg == 7 {
        PpuView {
            ppu_data_buffer: spec_ppu_read(p, c, p.vram_addr.0),
            vram_addr: spec_vram_increment(p),
            ..p
        }
    } else {
        p
    }
}

/// The PPU and cartridge after the CPU writes `data` to register
/// `reg`: control and mask loads, OAM addressing, the two-write scroll
/// and address sequences, and the data register with its address
/// increment.
pub open spec fn spec_cpu_write_next(p: PpuView, c: CartView, reg: u16, data: u8) -> (
    PpuView,
    CartView,
) {
    if reg == 0 {
        let ctrl = ControlReg::spec_from_bits(data);
        let t = p.tram_addr.spec_with_nametable_x(ctrl.nametable_x).spec_with_nametable_y(
            ctrl.nametable_y,
        );
        (PpuView { control: ctrl, tram_addr: t, ..p }, c)
    } else if reg == 1 {
        (PpuView { mask: MaskReg::spec_from_bits(data), ..p }, c)
    } else if reg == 3 {
        (PpuView { oam_addr: data, ..p }, c)
    } else if reg == 4 {
        (PpuView { oam: p.oam.update(p.oam_addr as int, data), ..p }, c)
    } else if reg == 5 {
        if p.address_latch == 0 {
            (
                PpuView {
                    fine_x: data & 0x07,
                    tram_addr: p.tram_addr.spec_with_coarse_x((data as u16) >> 3),
                    address_latch: 1,
                    ..p
                },
                c,
            )
        } else {
            (
                PpuView {
                    tram_addr: p.tram_addr.spec_with_fine_y((data & 0x07) as u16).spec_with_coarse_y(
                        (data as u16) >> 3,
                    ),
                    address_latch: 0,
                    ..p
                },
                c,
            )
        }
    } else if reg == 6 {
        if p.address_latch == 0 {
            (
                PpuView {
                    tram_addr: RamAddrData(
                        (((data & 0x3F) as u16) << 8) | (p.tram_addr.0 & 0x00FF),
                    ),
                    address_latch: 1,
                    ..p
                },
                c,
            )
        } else {
            let t = RamAddrData((p.tram_addr.0 & 0xFF00) | (data as u16));
            (PpuView { tram_addr: t, vram_addr: t, address_latch: 0, ..p }, c)
        }
    } else if reg == 7 {
        let (p2, c2) = spec_ppu_write(p, c, p.vram_addr.0, data);
        (PpuView { vram_addr: spec_vram_increment(PpuView { ..p2 }), ..p2 }, c2)
    } else {
        (p, c)
    }
}

impl Ppu {
    /// A status-register read: the three status bits over read-buffer
    /// noise; clears vertical blank and the write latch.
    fn reg_read_status(&mut self) -> (r: u8)
        requires
            old(self).inv(),
        ensures
            final(self).inv(),
            final(self)@ == (PpuView {
                status: StatusReg { vertical_blank: false, ..old(self)@.status },
                address_latch: 0,
                ..old(self)@
            }),
            r == ((old(self)@.status.spec_bits() & 0xE0) | (old(self)@.ppu_data_buffer & 0x1F)),
    {
        let data = (self.status.bits() & 0xE0) | (self.ppu_data_buffer & 0x1F);
        self.status.vertical_blank = false;
        self.address_latch = 0;
        proof {
            assert(self@ =~= (PpuView {
                status: StatusReg { vertical_blank: false, ..old(self)@.status },
                address_latch: 0,
                ..old(self)@
            }));
        }
        data
    }

    /// A data-register read: returns the delayed buffer (palette reads
    /// skip the delay), refills the buffer, advances the VRAM address.
    fn reg_read_data(&mut self, cart: &Cartridge) -> (r: u8)
        requires
            old(self).inv(),
            cart.inv(),
        ensures
            final(self).inv(),
            final(self)@ == (PpuView {
                ppu_data_buffer: spec_ppu_read(old(self)@, cart@, old(self)@.vram_addr.0),
                vram_addr: spec_vram_increment(old(self)@),
                ..old(self)@
            }),
            r == (if old(self)@.vram_addr.0 >= 0x3F00 {
                spec_ppu_read(old(self)@, cart@, old(self)@.vram_addr.0)
            } else {
                old(self)@.ppu_data_buffer
            }),
    {
        let mut data = self.ppu_data_buffer;
        self.ppu_data_buffer = self.ppu_read(self.vram_addr.0, cart);
        if self.vram_addr.0 >= 0x3F00 {
            data = self.ppu_data_buffer;
        }
        let inc: u16 = if self.control.increment_mode {
            32
        } else {
            1
        };
        self.vram_addr = RamAddrData((self.vram_addr.0 + inc) % 0x8000);
        proof {
            assert(self@ =~= (PpuView {
                ppu_data_buffer: spec_ppu_read(old(self)@, cart@, old(self)@.vram_addr.0),
                vram_addr: spec_vram_increment(old(self)@),
                ..old(self)@
            }));
        }
        data
    }

    /// A CPU read of the register selected by the low three bits of
    /// `addr`. Mutating: a status read clears state and a data read
    /// advances the read buffer and VRAM address.
    pub fn cpu_read(&mut self, addr: u16, cart: &Cartridge) -> (r: u8)
        requires
            old(self).inv(),
            cart.inv(),
        ensures
            final(self).inv(),
            r == spec_cpu_read_result(old(self)@, cart@, addr & 0x07),
            final(self)@ == spec_cpu_read_next(old(self)@, cart@, addr & 0x07),
    {
        proof {
            lemma_u16_and_le(addr, 0x07);
        }
        let reg: u16 = addr & 0x07;
        match PPUReadWriteFlags::from_index(reg) {
            PPUReadWriteFlags::Status => self.reg_read_status(),
            PPUReadWriteFlags::OAMData => self.oam.get_byte(self.oam_addr),
            PPUReadWriteFlags::PPUData => self.reg_read_data(cart),
            _ => 0u8,
        }
    }

    /// A control-register write: load the bits and copy the nametable
    /// selectors into the temporary VRAM address.
    fn reg_write_control(&mut self, data: u8)
        requires
            old(self).inv(),
        ensures
            final(self).inv(),
            final(self)@ == (PpuView {
                control: ControlReg::spec_from_bits(data),
                tram_addr: old(self)@.tram_addr.spec_with_nametable_x(
                    ControlReg::spec_from_bits(data).nametable_x,
                ).spec_with_nametable_y(ControlReg::spec_from_bits(data).nametable_y),
                ..old(self)@
            }),
    {
        self.control = ControlReg::from_bits_truncate(data);
        self.tram_addr.set_nametable_x(self.control.nametable_x);
        self.tram_addr.set_nametable_y(self.control.nametable_y);
        proof {
            assert(self@ =~= (PpuView {
                control: ControlReg::spec_from_bits(data),
                tram_addr: old(self)@.tram_addr.spec_with_nametable_x(
                    ControlReg::spec_from_bits(data).nametable_x,
                ).spec_with_nametable_y(ControlReg::spec_from_bits(data).nametable_y),
                ..old(self)@
            }));
        }
    }

    /// A scroll-register write: fine x and coarse x on the first
    /// write, fine y and coarse y on the second.
    fn reg_write_scroll(&mut self, data: u8)
        requires
            old(self).inv(),
        ensures
            final(self).inv(),
            old(self)@.address_latch == 0 ==> final(self)@ == (PpuView {
                fine_x: data & 0x07,
                tram_addr: old(self)@.tram_addr.spec_with_coarse_x((data as u16) >> 3),
                address_latch: 1,
                ..old(self)@
            }),
            old(self)@.address_latch != 0 ==> final(self)@ == (PpuView {
                tram_addr: old(self)@.tram_addr.spec_with_fine_y(
                    (data & 0x07) as u16,
                ).spec_with_coarse_y((data as u16) >> 3),
                address_latch: 0,
                ..old(self)@
            }),
    {
        if self.address_latch == 0 {
            proof {
                crate::util::lemma_u8_and_le(data, 0x07);
            }
            self.fine_x = data & 0x07;
            self.tram_addr.set_coarse_x((data as u16) >> 3);
            self.address_latch = 1;
            proof {
                assert(self@ =~= (PpuView {
                    fine_x: data & 0x07,
                    tram_addr: old(self)@.tram_addr.spec_with_coarse_x((data as u16) >> 3),
                    address_latch: 1,
                    ..old(self)@
                }));
            }
        } else {
            self.tram_addr.set_fine_y((data & 0x07) as u16);
            self.tram_addr.set_coarse_y((data as u16) >> 3);
            self.address_latch = 0;
            proof {
                assert(self@ =~= (PpuView {
                    tram_addr: old(self)@.tram_addr.spec_with_fine_y(
                        (data & 0x07) as u16,
                    ).spec_with_coarse_y((data as u16) >> 3),
                    address_latch: 0,
                    ..old(self)@
                }));
            }
        }
    }

    /// An address-register write: the high six bits on the first
    /// write, the low byte on the second, which also loads the live
    /// VRAM address.
    fn reg_write_address(&mut self, data: u8)
        requires
            old(self).inv(),
        ensures
            final(self).inv(),
            old(self)@.address_latch == 0 ==> final(self)@ == (PpuView {
                tram_addr: RamAddrData(
                    (((data & 0x3F) as u16) << 8) | (old(self)@.tram_addr.0 & 0x00FF),
                ),
                address_latch: 1,
                ..old(self)@
            }),
            old(self)@.address_latch != 0 ==> final(self)@ == (PpuView {
                tram_addr: RamAddrData((old(self)@.tram_addr.0 & 0xFF00) | (data as u16)),
                vram_addr: RamAddrData((old(self)@.tram_addr.0 & 0xFF00) | (data as u16)),
                address_latch: 0,
                ..old(self)@
            }),
    {
        if self.address_latch == 0 {
            let t = ((((data & 0x3F) as u16) << 8) | (self.tram_addr.0 & 0x00FF));
            proof {
                assert((((data & 0x3F) as u16) << 8) == (((data as u16) & 0x3F) << 8))
                    by (bit_vector);
                crate::util::lemma_u16_shl8_6bit(data as u16);
                lemma_u16_and_le(self.tram_addr.0, 0x00FF);
                crate::util::lemma_u16_or_15bit(
                    ((data & 0x3F) as u16) << 8,
                    self.tram_addr.0 & 0x00FF,
                );
            }
            self.tram_addr = RamAddrData(t);
            self.address_latch = 1;
        } else {
            let t = (self.tram_addr.0 & 0xFF00) | (data as u16);
            proof {
                crate::util::lemma_u16_and_le_self(self.tram_addr.0, 0xFF00);
                crate::util::lemma_u16_or_15bit(self.tram_addr.0 & 0xFF00, data as u16);
            }
            self.tram_addr = RamAddrData(t);
            self.vram_addr = self.tram_addr;
            self.address_latch = 0;
        }
    }

    /// A data-register write: a write on the PPU bus at the live VRAM
    /// address, which then advances.
    fn reg_write_data(&mut self, data: u8, cart: &mut Cartridge)
        requires
            old(self).inv(),
            old(cart).inv(),
        ensures
            final(self).inv(),
            final(cart).inv(),
            ({
                let (p2, c2) = spec_ppu_write(old(self)@, old(cart)@, old(self)@.vram_addr.0, data);
                final(self)@ == (PpuView { vram_addr: spec_vram_increment(p2), ..p2 })
                    && final(cart)@ == c2
            }),
    {
        self.ppu_write(self.vram_addr.0, data, cart);
        let inc: u16 = if self.control.increment_mode {
            32
        } else {
            1
        };
        self.vram_addr = RamAddrData((self.vram_addr.0 + inc) % 0x8000);
        proof {
            let (p2, c2) = spec_ppu_write(old(self)@, old(cart)@, old(self)@.vram_addr.0, data);
            assert(self@ =~= (PpuView { vram_addr: spec_vram_increment(p2), ..p2 }));
        }
    }

    /// A CPU write to the register selected by the low three bits of
    /// `addr`.
    pub fn cpu_write(&mut self, addr: u16, data: u8, cart: &mut Cartridge)
        requires
            old(self).inv(),
            old(cart).inv(),
        ensures
            final(self).inv(),
            final(cart).inv(),
            (final(self)@, final(cart)@) == spec_cpu_write_next(
                old(self)@,
                old(cart)@,
                addr & 0x07,
                data,
            ),
    {
        proof {
            lemma_u16_and_le(addr, 0x07);
        }
        let reg: u16 = addr & 0x07;
        match PPUReadWriteFlags::from_index(reg) {
            PPUReadWriteFlags::Control => self.reg_write_control(data),
            PPUReadWriteFlags::Mask => {
                self.mask = MaskReg::from_bits_truncate(data);
            },
            PPUReadWriteFlags::Status => {},
            PPUReadWriteFlags::OAMAddress => {
                self.oam_addr = data;
            },
            PPUReadWriteFlags::OAMData => {
                self.oam.set_byte(self.oam_addr, data);
            },
            PPUReadWriteFlags::Scroll => self.reg_write_scroll(data),
            PPUReadWriteFlags::PPUAddress => self.reg_write_address(data),
            PPUReadWriteFlags::PPUData => self.reg_write_data(data, cart),
        }
    }
}

/// A vector of `n` zero bytes.
pub fn zero_bytes(n: usize) -> (r: Vec<u8>)
    ensures
        r@ == Seq::<u8>::new(n as nat, |i: int| 0u8),
{
    let mut v: Vec<u8> = Vec::new();
    let mut i: usize = 0;
    while i < n
        invariant
            i <= n,
            v@ =~= Seq::<u8>::new(i as nat, |j: int| 0u8),
        decreases n - i,
    {
        v.push(0u8);
        i = i + 1;
    }
    proof {
        assert(v@ =~= Seq::<u8>::new(n as nat, |i: int| 0u8));
    }
    v
}

} // verus!
