//! Register file of the PPU: the control, mask and status bytes, and
//! the 15-bit VRAM address composite ("loopy register") with its five
//! packed scroll fields.

use crate::util::lemma_u16_and_le;
use vstd::prelude::*;

verus! {

/// The status register: three readable bits in the top of the byte.
#[derive(Clone, Copy, Debug, PartialEq, Eq, Structural)]
pub struct StatusReg {
    /// More than eight sprites were found on one scanline.
    pub sprite_overflow: bool,
    /// An opaque pixel of sprite zero overlapped an opaque background
    /// pixel this frame.
    pub sprite_zero_hit: bool,
    /// The PPU is inside vertical blank.
    pub vertical_blank: bool,
}

impl StatusReg {
    /// The readable byte: flags in bits 5 to 7, low bits zero.
    pub open spec fn spec_bits(&self) -> u8 {
        ((if self.sprite_overflow { 0x20u8 } else { 0u8 }) + (if self.sprite_zero_hit {
            0x40u8
        } else {
            0u8
        }) + (if self.vertical_blank { 0x80u8 } else { 0u8 })) as u8
    }

    /// The register with all status bits clear.
    pub open spec fn spec_empty() -> StatusReg {
        StatusReg { sprite_overflow: false, sprite_zero_hit: false, vertical_blank: false }
    }

    /// All status bits clear.
    pub fn empty() -> (r: StatusReg)
        ensures
            r == (StatusReg {
                sprite_overflow: false,
                sprite_zero_hit: false,
                vertical_blank: false,
            }),
    {
        StatusReg { sprite_overflow: false, sprite_zero_hit: false, vertical_blank: false }
    }

    /// Pack the status bits into the high bits of a byte.
    pub fn bits(&self) -> (r: u8)
        ensures
            r == self.spec_bits(),
    {
        (if self.sprite_overflow {
            0x20u8
        } else {
            0u8
        }) + (if self.sprite_zero_hit {
            0x40
        } else {
            0
        }) + (if self.vertical_blank {
            0x80
        } else {
            0
        })
    }
}

/// The mask register: rendering switches and color emphasis.
#[derive(Clone, Copy, Debug, PartialEq, Eq, Structural)]
pub struct MaskReg {
    /// Show the palette in grayscale.
    pub grayscale: bool,
    /// Render the background in the leftmost eight columns.
    pub render_background_left: bool,
    /// Render sprites in the leftmost eight columns.
    pub render_sprites_left: bool,
    /// Render the background at all.
    pub render_background: bool,
    /// Render sprites at all.
    pub render_sprites: bool,
    /// Emphasise red.
    pub enhance_red: bool,
    /// Emphasise green.
    pub enhance_green: bool,
    /// Emphasise blue.
    pub enhance_blue: bool,
}

impl MaskReg {
    /// The mask described by a written register byte.
    pub open spec fn spec_from_bits(bits: u8) -> MaskReg {
        MaskReg {
            grayscale: bits & 0x01 != 0,
            render_background_left: bits & 0x02 != 0,
            render_sprites_left: bits & 0x04 != 0,
            render_background: bits & 0x08 != 0,
            render_sprites: bits & 0x10 != 0,
            enhance_red: bits & 0x20 != 0,
            enhance_green: bits & 0x40 != 0,
            enhance_blue: bits & 0x80 != 0,
        }
    }

    /// Whether any rendering is enabled.
    pub open spec fn rendering(&self) -> bool {
        self.render_background || self.render_sprites
    }

    /// All mask bits clear.
    pub fn empty() -> (r: MaskReg)
        ensures
            r == MaskReg::spec_from_bits(0),
    {
        assert(0u8 & 0x01 == 0 && 0u8 & 0x02 == 0 && 0u8 & 0x04 == 0 && 0u8 & 0x08 == 0 && 0u8
            & 0x10 == 0 && 0u8 & 0x20 == 0 && 0u8 & 0x40 == 0 && 0u8 & 0x80 == 0) by (bit_vector);
        MaskReg {
            grayscale: false,
            render_background_left: false,
            render_sprites_left: false,
            render_background: false,
            render_sprites: false,
            enhance_red: false,
            enhance_green: false,
            enhance_blue: false,
        }
    }

    /// Unpack a written register byte.
    pub fn from_bits_truncate(bits: u8) -> (r: MaskReg)
        ensures
            r == MaskReg::spec_from_bits(bits),
    {
        MaskReg {
            grayscale: bits & 0x01 != 0,
            render_background_left: bits & 0x02 != 0,
            render_sprites_left: bits & 0x04 != 0,
            render_background: bits & 0x08 != 0,
            render_sprites: bits & 0x10 != 0,
            enhance_red: bits & 0x20 != 0,
            enhance_green: bits & 0x40 != 0,
            enhance_blue: bits & 0x80 != 0,
        }
    }
}

/// The control register: nametable selectors, increment mode, pattern
/// banks, sprite size and the vertical-blank interrupt switch.
#[derive(Clone, Copy, Debug, PartialEq, Eq, Structural)]
pub struct ControlReg {
    /// Low bit of the base nametable address.
    pub nametable_x: bool,
    /// High bit of the base nametable address.
    pub nametable_y: bool,
    /// VRAM address increments by 32 instead of 1.
    pub increment_mode: bool,
    /// Sprites fetch from the second pattern bank.
    pub pattern_sprite: bool,
    /// The background fetches from the second pattern bank.
    pub pattern_background: bool,
    /// Sprites are 8x16 instead of 8x8.
    pub sprite_size: bool,
    /// Master/slave select; latched but never consulted.
    pub slave_mode: bool,
    /// Raise the non-maskable interrupt at the start of vertical blank.
    pub enable_nmi: bool,
}

impl ControlReg {
    /// The control state described by a written register byte.
    pub open spec fn spec_from_bits(bits: u8) -> ControlReg {
        ControlReg {
            nametable_x: bits & 0x01 != 0,
            nametable_y: bits & 0x02 != 0,
            increment_mode: bits & 0x04 != 0,
            pattern_sprite: bits & 0x08 != 0,
            pattern_background: bits & 0x10 != 0,
            sprite_size: bits & 0x20 != 0,
            slave_mode: bits & 0x40 != 0,
            enable_nmi: bits & 0x80 != 0,
        }
    }

    /// All control bits clear.
    pub fn empty() -> (r: ControlReg)
        ensures
            r == ControlReg::spec_from_bits(0),
    {
        assert(0u8 & 0x01 == 0 && 0u8 & 0x02 == 0 && 0u8 & 0x04 == 0 && 0u8 & 0x08 == 0 && 0u8
            & 0x10 == 0 && 0u8 & 0x20 == 0 && 0u8 & 0x40 == 0 && 0u8 & 0x80 == 0) by (bit_vector);
        ControlReg {
            nametable_x: false,
            nametable_y: false,
            increment_mode: false,
            pattern_sprite: false,
            pattern_background: false,
            sprite_size: false,
            slave_mode: false,
            enable_nmi: false,
        }
    }

    /// Unpack a written register byte.
    pub fn from_bits_truncate(bits: u8) -> (r: ControlReg)
        ensures
            r == ControlReg::spec_from_bits(bits),
    {
        ControlReg {
            nametable_x: bits & 0x01 != 0,
            nametable_y: bits & 0x02 != 0,
            increment_mode: bits & 0x04 != 0,
            pattern_sprite: bits & 0x08 != 0,
            pattern_background: bits & 0x10 != 0,
            sprite_size: bits & 0x20 != 0,
            slave_mode: bits & 0x40 != 0,
            enable_nmi: bits & 0x80 != 0,
        }
    }
}

/// The 15-bit VRAM address composite. Five fields are packed into one
/// 16-bit integer: coarse x in bits 0-4, coarse y in bits 5-9, the two
/// nametable selectors in bits 10 and 11, and fine y in bits 12-14.
/// Bit 15 is never set.
#[derive(Clone, Copy, Debug, PartialEq, Eq, Structural)]
pub struct RamAddrData(pub u16);

impl RamAddrData {
    /// Tile column, bits 0-4.
    pub open spec fn spec_coarse_x(&self) -> u16 {
        self.0 & 0x001F
    }

    /// Tile row, bits 5-9.
    pub open spec fn spec_coarse_y(&self) -> u16 {
        (self.0 >> 5) & 0x001F
    }

    /// Horizontal nametable selector, bit 10.
    pub open spec fn spec_nametable_x(&self) -> bool {
        self.0 & 0x0400 != 0
    }

    /// Vertical nametable selector, bit 11.
    pub open spec fn spec_nametable_y(&self) -> bool {
        self.0 & 0x0800 != 0
    }

    /// Pixel row within the tile, bits 12-14.
    pub open spec fn spec_fine_y(&self) -> u16 {
        (self.0 >> 12) & 0x0007
    }

    /// The composite fits in 15 bits.
    pub open spec fn inv(&self) -> bool {
        self.0 < 0x8000
    }

    /// The composite with its tile column replaced.
    pub open spec fn spec_with_coarse_x(&self, v: u16) -> RamAddrData {
        RamAddrData((self.0 & !0x001F) | (v & 0x001F))
    }

    /// The composite with its tile row replaced.
    pub open spec fn spec_with_coarse_y(&self, v: u16) -> RamAddrData {
        RamAddrData((self.0 & !0x03E0) | ((v & 0x001F) << 5))
    }

    /// The composite with its horizontal nametable selector replaced.
    pub open spec fn spec_with_nametable_x(&self, v: bool) -> RamAddrData {
        RamAddrData((self.0 & !0x0400) | (if v { 0x0400u16 } else { 0u16 }))
    }

    /// The composite with its vertical nametable selector replaced.
    pub open spec fn spec_with_nametable_y(&self, v: bool) -> RamAddrData {
        RamAddrData((self.0 & !0x0800) | (if v { 0x0800u16 } else { 0u16 }))
    }

    /// The composite with its pixel row replaced.
    pub open spec fn spec_with_fine_y(&self, v: u16) -> RamAddrData {
        RamAddrData((self.0 & !0x7000) | ((v & 0x0007) << 12))
    }

    /// Tile column.
    pub fn coarse_x(&self) -> (r: u16)
        ensures
            r == self.spec_coarse_x(),
            r < 32,
    {
        proof {
            lemma_u16_and_le(self.0, 0x001F);
        }
        self.0 & 0x001F
    }

    /// Tile row.
    pub fn coarse_y(&self) -> (r: u16)
        ensures
            r == self.spec_coarse_y(),
            r < 32,
    {
        proof {
            lemma_u16_and_le(self.0 >> 5, 0x001F);
        }
        (self.0 >> 5) & 0x001F
    }

    /// Horizontal nametable selector.
    pub fn nametable_x(&self) -> (r: bool)
        ensures
            r == self.spec_nametable_x(),
    {
        self.0 & 0x0400 != 0
    }

    /// Vertical nametable selector.
    pub fn nametable_y(&self) -> (r: bool)
        ensures
            r == self.spec_nametable_y(),
    {
        self.0 & 0x0800 != 0
    }

    /// Pixel row within the tile.
    pub fn fine_y(&self) -> (r: u16)
        ensures
            r == self.spec_fine_y(),
            r < 8,
    {
        proof {
            lemma_u16_and_le(self.0 >> 12, 0x0007);
        }
        (self.0 >> 12) & 0x0007
    }

    /// Replace the tile column with the low five bits of `v`.
    pub fn set_coarse_x(&mut self, v: u16)
        ensures
            *final(self) == old(self).spec_with_coarse_x(v),
            final(self).spec_coarse_x() == (v & 0x001F),
            final(self).spec_coarse_y() == old(self).spec_coarse_y(),
            final(self).spec_nametable_x() == old(self).spec_nametable_x(),
            final(self).spec_nametable_y() == old(self).spec_nametable_y(),
            final(self).spec_fine_y() == old(self).spec_fine_y(),
            old(self).inv() ==> final(self).inv(),
    {
        let b = self.0;
        let r = (self.0 & !0x001F) | (v & 0x001F);
        assert((r & 0x001F) == (v & 0x001F) && ((r >> 5) & 0x001F) == ((b >> 5) & 0x001F) && (r
            & 0x0400) == (b & 0x0400) && (r & 0x0800) == (b & 0x0800) && ((r >> 12) & 0x0007) == ((b
            >> 12) & 0x0007) && (b < 0x8000 ==> r < 0x8000)) by (bit_vector)
            requires
                r == (b & !0x001F) | (v & 0x001F),
        ;
        self.0 = r;
    }

    /// Replace the tile row with the low five bits of `v`.
    pub fn set_coarse_y(&mut self, v: u16)
        ensures
            *final(self) == old(self).spec_with_coarse_y(v),
            final(self).spec_coarse_y() == (v & 0x001F),
            final(self).spec_coarse_x() == old(self).spec_coarse_x(),
            final(self).spec_nametable_x() == old(self).spec_nametable_x(),
            final(self).spec_nametable_y() == old(self).spec_nametable_y(),
            final(self).spec_fine_y() == old(self).spec_fine_y(),
            old(self).inv() ==> final(self).inv(),
    {
        let b = self.0;
        let r = (self.0 & !0x03E0) | ((v & 0x001F) << 5);
        assert(((r >> 5) & 0x001F) == (v & 0x001F) && (r & 0x001F) == (b & 0x001F) && (r & 0x0400)
            == (b & 0x0400) && (r & 0x0800) == (b & 0x0800) && ((r >> 12) & 0x0007) == ((b >> 12)
            & 0x0007) && (b < 0x8000 ==> r < 0x8000)) by (bit_vector)
            requires
                r == (b & !0x03E0) | ((v & 0x001F) << 5),
        ;
        self.0 = r;
    }

    /// Replace the horizontal nametable selector.
    pub fn set_nametable_x(&mut self, v: bool)
        ensures
            *final(self) == old(self).spec_with_nametable_x(v),
            final(self).spec_nametable_x() == v,
            final(self).spec_coarse_x() == old(self).spec_coarse_x(),
            final(self).spec_coarse_y() == old(self).spec_coarse_y(),
            final(self).spec_nametable_y() == old(self).spec_nametable_y(),
            final(self).spec_fine_y() == old(self).spec_fine_y(),
            old(self).inv() ==> final(self).inv(),
    {
        let b = self.0;
        let w: u16 = if v {
            0x0400
        } else {
            0
        };
        let r = (self.0 & !0x0400) | w;
        assert(((r & 0x0400 != 0) == (w == 0x0400)) && (r & 0x001F) == (b & 0x001F) && ((r >> 5)
            & 0x001F) == ((b >> 5) & 0x001F) && (r & 0x0800) == (b & 0x0800) && ((r >> 12) & 0x0007)
            == ((b >> 12) & 0x0007) && (b < 0x8000 ==> r < 0x8000)) by (bit_vector)
            requires
                r == (b & !0x0400) | w,
                w == 0x0400 || w == 0,
        ;
        self.0 = r;
    }

    /// Replace the vertical nametable selector.
    pub fn set_nametable_y(&mut self, v: bool)
        ensures
            *final(self) == old(self).spec_with_nametable_y(v),
            final(self).spec_nametable_y() == v,
            final(self).spec_coarse_x() == old(self).spec_coarse_x(),
            final(self).spec_coarse_y() == old(self).spec_coarse_y(),
            final(self).spec_nametable_x() == old(self).spec_nametable_x(),
            final(self).spec_fine_y() == old(self).spec_fine_y(),
            old(self).inv() ==> final(self).inv(),
    {
        let b = self.0;
        let w: u16 = if v {
            0x0800
        } else {
            0
        };
        let r = (self.0 & !0x0800) | w;
        assert(((r & 0x0800 != 0) == (w == 0x0800)) && (r & 0x001F) == (b & 0x001F) && ((r >> 5)
            & 0x001F) == ((b >> 5) & 0x001F) && (r & 0x0400) == (b & 0x0400) && ((r >> 12) & 0x0007)
            == ((b >> 12) & 0x0007) && (b < 0x8000 ==> r < 0x8000)) by (bit_vector)
            requires
                r == (b & !0x0800) | w,
                w == 0x0800 || w == 0,
        ;
        self.0 = r;
    }

    /// Replace the pixel row with the low three bits of `v`.
    pub fn set_fine_y(&mut self, v: u16)
        ensures
            *final(self) == old(self).spec_with_fine_y(v),
            final(self).spec_fine_y() == (v & 0x0007),
            final(self).spec_coarse_x() == old(self).spec_coarse_x(),
            final(self).spec_coarse_y() == old(self).spec_coarse_y(),
            final(self).spec_nametable_x() == old(self).spec_nametable_x(),
            final(self).spec_nametable_y() == old(self).spec_nametable_y(),
            old(self).inv() ==> final(self).inv(),
    {
        let b = self.0;
        let r = (self.0 & !0x7000) | ((v & 0x0007) << 12);
        assert(((r >> 12) & 0x0007) == (v & 0x0007) && (r & 0x001F) == (b & 0x001F) && ((r >> 5)
            & 0x001F) == ((b >> 5) & 0x001F) && (r & 0x0400) == (b & 0x0400) && (r & 0x0800) == (b
            & 0x0800) && (b < 0x8000 ==> r < 0x8000)) by (bit_vector)
            requires
                r == (b & !0x7000) | ((v & 0x0007) << 12),
        ;
        self.0 = r;
    }
}

/// Which of the eight CPU-visible PPU registers an address selects.
#[derive(Clone, Copy, Debug, PartialEq, Eq, Structural)]
pub enum PPUReadWriteFlags {
    /// Register 0: control.
    Control,
    /// Register 1: mask.
    Mask,
    /// Register 2: status.
    Status,
    /// Register 3: OAM address.
    OAMAddress,
    /// Register 4: OAM data.
    OAMData,
    /// Register 5: scroll.
    Scroll,
    /// Register 6: PPU address.
    PPUAddress,
    /// Register 7: PPU data.
    PPUData,
}

impl PPUReadWriteFlags {
    /// The register selected by a three-bit register index.
    pub open spec fn spec_from_index(idx: u16) -> PPUReadWriteFlags {
        if idx == 0 {
            PPUReadWriteFlags::Control
        } else if idx == 1 {
            PPUReadWriteFlags::Mask
        } else if idx == 2 {
            PPUReadWriteFlags::Status
        } else if idx == 3 {
            PPUReadWriteFlags::OAMAddress
        } else if idx == 4 {
            PPUReadWriteFlags::OAMData
        } else if idx == 5 {
            PPUReadWriteFlags::Scroll
        } else if idx == 6 {
            PPUReadWriteFlags::PPUAddress
        } else {
            PPUReadWriteFlags::PPUData
        }
    }

    /// Select a register by its three-bit index.
    pub fn from_index(idx: u16) -> (r: PPUReadWriteFlags)
        requires
            idx < 8,
        ensures
            r == PPUReadWriteFlags::spec_from_index(idx),
    {
        match idx {
            0 => PPUReadWriteFlags::Control,
            1 => PPUReadWriteFlags::Mask,
            2 => PPUReadWriteFlags::Status,
            3 => PPUReadWriteFlags::OAMAddress,
            4 => PPUReadWriteFlags::OAMData,
            5 => PPUReadWriteFlags::Scroll,
            6 => PPUReadWriteFlags::PPUAddress,
            _ => PPUReadWriteFlags::PPUData,
        }
    }
}

} // verus!
