//! Cartridge mappers: address translators between the console's buses
//! and cartridge memory.
//!
//! A mapper answers every bus access with either `None` — the address is
//! not the cartridge's, the bus must handle it — or `Some(offset)`, the
//! offset into cartridge memory that the access maps to.

use crate::ram::RAM_ADDR_END;
use vstd::prelude::*;

verus! {

/// Interface of a cartridge mapper. Only mapper 0 (NROM) ships with the
/// library; users may implement further mappers.
pub trait Mapper {
    /// Translate a CPU read.
    fn cpu_map_read(&self, addr: u16) -> Option<u32>;

    /// Translate a CPU write.
    fn cpu_map_write(&self, addr: u16, data: u8) -> Option<u32>;

    /// Translate a PPU read.
    fn ppu_map_read(&self, addr: u16) -> Option<u32>;

    /// Translate a PPU write.
    fn ppu_map_write(&self, addr: u16) -> Option<u32>;
}

/// Mapper 0 (NROM): program ROM mirrored over [0x8000, 0xFFFF] in one or
/// two 16 KiB banks; character memory passed through over
/// [0x0000, 0x1FFF], writable only when the cartridge carries
/// character RAM instead of ROM.
#[derive(Clone, Copy, Debug, PartialEq, Eq, Structural)]
pub struct Mapper0 {
    program_banks: u8,
    character_banks: u8,
}

impl Mapper0 {
    /// The number of 16 KiB program banks.
    pub closed spec fn spec_program_banks(&self) -> u8 {
        self.program_banks
    }

    /// The number of 8 KiB character banks; zero means character RAM.
    pub closed spec fn spec_character_banks(&self) -> u8 {
        self.character_banks
    }

    /// The address mask that folds the CPU window onto the program ROM:
    /// 32 KiB with two banks and more, 16 KiB with one.
    pub open spec fn spec_program_mask(&self) -> u16 {
        if self.spec_program_banks() > 1 {
            0x7FFF
        } else {
            0x3FFF
        }
    }

    /// An NROM mapper for the given bank counts.
    pub fn new(program_banks: u8, character_banks: u8) -> (r: Mapper0)
        ensures
            r.spec_program_banks() == program_banks,
            r.spec_character_banks() == character_banks,
    {
        Mapper0 { program_banks, character_banks }
    }

    /// Translate a CPU read: the ROM window folds onto the program ROM.
    pub fn map_cpu_read(&self, addr: u16) -> (r: Option<u32>)
        ensures
            addr >= 0x8000 ==> r == Some((addr & self.spec_program_mask()) as u32),
            addr < 0x8000 ==> r is None,
    {
        let mirror: u16 = if self.program_banks > 1 {
            0x7FFF
        } else {
            0x3FFF
        };
        if addr >= 0x8000 {
            Some((addr & mirror) as u32)
        } else {
            None
        }
    }

    /// Translate a CPU write, the same way as a read.
    pub fn map_cpu_write(&self, addr: u16, data: u8) -> (r: Option<u32>)
        ensures
            addr >= 0x8000 ==> r == Some((addr & self.spec_program_mask()) as u32),
            addr < 0x8000 ==> r is None,
    {
        let _ = data;
        self.map_cpu_read(addr)
    }

    /// Translate a PPU read: the pattern range passes through.
    pub fn map_ppu_read(&self, addr: u16) -> (r: Option<u32>)
        ensures
            addr <= RAM_ADDR_END ==> r == Some(addr as u32),
            addr > RAM_ADDR_END ==> r is None,
    {
        if addr <= RAM_ADDR_END {
            Some(addr as u32)
        } else {
            None
        }
    }

    /// Translate a PPU write: the pattern range is writable only with
    /// character RAM (no character banks).
    pub fn map_ppu_write(&self, addr: u16) -> (r: Option<u32>)
        ensures
            addr <= RAM_ADDR_END && self.spec_character_banks() == 0 ==> r == Some(addr as u32),
            !(addr <= RAM_ADDR_END && self.spec_character_banks() == 0) ==> r is None,
    {
        if addr <= RAM_ADDR_END && self.character_banks == 0 {
            Some(addr as u32)
        } else {
            None
        }
    }
}

impl Mapper for Mapper0 {
    fn cpu_map_read(&self, addr: u16) -> Option<u32> {
        self.map_cpu_read(addr)
    }

    fn cpu_map_write(&self, addr: u16, data: u8) -> Option<u32> {
        self.map_cpu_write(addr, data)
    }

    fn ppu_map_read(&self, addr: u16) -> Option<u32> {
        self.map_ppu_read(addr)
    }

    fn ppu_map_write(&self, addr: u16) -> Option<u32> {
        self.map_ppu_write(addr)
    }
}

} // verus!
