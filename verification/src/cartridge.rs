//! The game cartridge: program ROM, character memory, the nametable
//! mirroring mode, and an NROM mapper.
//!
//! Loading a cartridge from a ROM file is the concern of an external
//! loader; the core receives the ROM images as plain byte vectors and a
//! cartridge is well-formed from construction on.

use crate::mapper::Mapper0;
use crate::util::lemma_u16_and_le;
use vstd::prelude::*;

verus! {

/// Nametable mirroring arrangement of the cartridge.
#[derive(Clone, Copy, Debug, PartialEq, Eq, Structural)]
pub enum CartridgeMirror {
    /// Nametables stacked vertically; addresses mirror horizontally.
    Horizontal,
    /// Nametables side by side; addresses mirror vertically.
    Vertical,
    /// Every window shows the first nametable.
    OneScreenLow,
    /// Every window shows the second nametable.
    OneScreenHigh,
}

/// The sixteen-byte header of an iNES ROM image, as an external loader
/// decodes it.
#[derive(Clone, Copy, Debug)]
pub struct CartridgeHeader {
    /// File magic, `NES\x1A` in a well-formed image.
    pub name: [u8; 4],
    /// Number of 16 KiB program ROM chunks.
    pub program_rom_chunks: u8,
    /// Number of 8 KiB character ROM chunks.
    pub character_rom_chunks: u8,
    /// Mapper low nibble and flags.
    pub mapper1: u8,
    /// Mapper high nibble and flags.
    pub mapper2: u8,
    /// Program RAM size marker.
    pub program_ram_size: u8,
    /// TV system marker.
    pub tv_system1: u8,
    /// Second TV system marker.
    pub tv_system2: u8,
}

/// Bytes of one program bank.
pub const PROGRAM_BANK_SIZE: usize = 16384;

/// Bytes of one character bank.
pub const CHARACTER_BANK_SIZE: usize = 8192;

/// The mathematical state of a cartridge.
pub struct CartView {
    /// Program memory bytes.
    pub program: Seq<u8>,
    /// Character memory bytes.
    pub character: Seq<u8>,
    /// Nametable mirroring mode.
    pub mirror: CartridgeMirror,
    /// Number of 16 KiB program banks.
    pub program_banks: u8,
    /// Number of 8 KiB character banks; zero means character RAM.
    pub character_banks: u8,
}

impl CartView {
    /// The mask that folds the CPU window [0x8000, 0xFFFF] onto the
    /// program memory.
    pub open spec fn program_mask(&self) -> u16 {
        if self.program_banks > 1 {
            0x7FFF
        } else {
            0x3FFF
        }
    }

    /// What a CPU read returns: `Some` byte when the cartridge claims
    /// the address, `None` when the bus must handle it.
    pub open spec fn spec_cpu_read(&self, addr: u16) -> Option<u8> {
        if addr >= 0x8000 {
            Some(self.program[(addr & self.program_mask()) as int])
        } else {
            None
        }
    }

    /// Whether a CPU write is claimed by the cartridge.
    pub open spec fn cpu_write_claimed(&self, addr: u16) -> bool {
        addr >= 0x8000
    }

    /// The cartridge after a CPU write.
    pub open spec fn spec_cpu_write(&self, addr: u16, data: u8) -> CartView {
        if self.cpu_write_claimed(addr) {
            CartView {
                program: self.program.update((addr & self.program_mask()) as int, data),
                ..*self
            }
        } else {
            *self
        }
    }

    /// What a PPU read returns: the pattern range [0x0000, 0x1FFF] is
    /// backed by character memory.
    pub open spec fn spec_ppu_read(&self, addr: u16) -> Option<u8> {
        if addr <= 0x1FFF {
            Some(self.character[addr as int])
        } else {
            None
        }
    }

    /// Whether a PPU write is claimed: only character RAM is writable.
    pub open spec fn ppu_write_claimed(&self, addr: u16) -> bool {
        addr <= 0x1FFF && self.character_banks == 0
    }

    /// The cartridge after a PPU write.
    pub open spec fn spec_ppu_write(&self, addr: u16, data: u8) -> CartView {
        if self.ppu_write_claimed(addr) {
            CartView { character: self.character.update(addr as int, data), ..*self }
        } else {
            *self
        }
    }
}

/// A game cartridge with an NROM mapper.
#[derive(Clone, Debug)]
pub struct Cartridge {
    /// Nametable mirroring mode, consulted by the PPU bus.
    pub mirror: CartridgeMirror,
    program_memory: Vec<u8>,
    character_memory: Vec<u8>,
    mapper_id: u8,
    program_banks: u8,
    character_banks: u8,
    mapper: Mapper0,
}

impl View for Cartridge {
    type V = CartView;

    closed spec fn view(&self) -> CartView {
        CartView {
            program: self.program_memory@,
            character: self.character_memory@,
            mirror: self.mirror,
            program_banks: self.program_banks,
            character_banks: self.character_banks,
        }
    }
}

impl CartView {
    /// Well-formedness: at least one program bank, and both memories
    /// exactly as large as their bank counts say. A cartridge without
    /// character banks carries one bank of character RAM.
    pub open spec fn inv(&self) -> bool {
        &&& 1 <= self.program_banks
        &&& self.program.len() == (self.program_banks as int) * (PROGRAM_BANK_SIZE as int)
        &&& self.character.len() == if self.character_banks == 0 {
            CHARACTER_BANK_SIZE as int
        } else {
            (self.character_banks as int) * (CHARACTER_BANK_SIZE as int)
        }
    }
}

impl Cartridge {
    /// Well-formedness of the cartridge memories.
    pub open spec fn inv(&self) -> bool {
        self@.inv()
    }

    /// Build a cartridge from ROM images handed over by a loader.
    ///
    /// The program image must hold between 1 and 255 whole banks; the
    /// character image holds whole banks, and an empty character image
    /// means the cartridge carries 8 KiB of character RAM instead.
    pub fn new(program_memory: Vec<u8>, character_memory: Vec<u8>, mirror: CartridgeMirror) -> (r:
        Cartridge)
        requires
            program_memory@.len() >= PROGRAM_BANK_SIZE,
            (program_memory@.len() as int) % (PROGRAM_BANK_SIZE as int) == 0,
            program_memory@.len() <= 255 * (PROGRAM_BANK_SIZE as int),
            (character_memory@.len() as int) % (CHARACTER_BANK_SIZE as int) == 0,
            character_memory@.len() <= 255 * (CHARACTER_BANK_SIZE as int),
        ensures
            r.inv(),
            r@.program == program_memory@,
            r@.mirror == mirror,
            r@.program_banks == (program_memory@.len() as int) / (PROGRAM_BANK_SIZE as int),
            r@.character_banks == (character_memory@.len() as int) / (CHARACTER_BANK_SIZE as int),
            character_memory@.len() > 0 ==> r@.character == character_memory@,
            character_memory@.len() == 0 ==> r@.character == Seq::<u8>::new(
                CHARACTER_BANK_SIZE as nat,
                |i: int| 0u8,
            ),
    {
        let program_banks: u8 = (program_memory.len() / PROGRAM_BANK_SIZE) as u8;
        let character_banks: u8 = (character_memory.len() / CHARACTER_BANK_SIZE) as u8;
        let mut character_memory = character_memory;
        if character_memory.len() == 0 {
            let mut i: usize = 0;
            while i < CHARACTER_BANK_SIZE
                invariant
                    i <= CHARACTER_BANK_SIZE,
                    character_memory@ =~= Seq::<u8>::new(i as nat, |j: int| 0u8),
                decreases CHARACTER_BANK_SIZE - i,
            {
                character_memory.push(0u8);
                i = i + 1;
            }
            proof {
                assert(character_memory@ =~= Seq::<u8>::new(CHARACTER_BANK_SIZE as nat, |i: int| 0u8));
            }
        }
        Cartridge {
            mirror,
            program_memory,
            character_memory,
            mapper_id: 0,
            program_banks,
            character_banks,
            mapper: Mapper0::new(program_banks, character_banks),
        }
    }

    /// The nametable mirroring arrangement.
    pub fn mirror_mode(&self) -> (m: CartridgeMirror)
        ensures
            m == self@.mirror,
    {
        self.mirror
    }

    /// A CPU-side read. `Some` means the cartridge claimed the address
    /// and supplied the byte; `None` means the bus must handle it.
    pub fn cpu_map_read(&self, addr: u16) -> (r: Option<u8>)
        requires
            self.inv(),
        ensures
            r == self@.spec_cpu_read(addr),
    {
        if addr >= 0x8000 {
            let mask: u16 = if self.program_banks > 1 {
                0x7FFF
            } else {
                0x3FFF
            };
            proof {
                lemma_u16_and_le(addr, mask);
            }
            Some(self.program_memory[(addr & mask) as usize])
        } else {
            None
        }
    }

    /// A CPU-side write; the claimed ROM window is treated as writable
    /// so that loaders and tests can patch program memory.
    pub fn cpu_map_write(&mut self, addr: u16, data: u8) -> (r: Option<u8>)
        requires
            old(self).inv(),
        ensures
            final(self).inv(),
            final(self)@ == old(self)@.spec_cpu_write(addr, data),
            r is Some <==> old(self)@.cpu_write_claimed(addr),
    {
        if addr >= 0x8000 {
            let mask: u16 = if self.program_banks > 1 {
                0x7FFF
            } else {
                0x3FFF
            };
            proof {
                lemma_u16_and_le(addr, mask);
            }
            self.program_memory.set((addr & mask) as usize, data);
            Some(data)
        } else {
            None
        }
    }

    /// A PPU-side read of the pattern range.
    pub fn ppu_map_read(&self, addr: u16) -> (r: Option<u8>)
        requires
            self.inv(),
        ensures
            r == self@.spec_ppu_read(addr),
    {
        if addr <= 0x1FFF {
            Some(self.character_memory[addr as usize])
        } else {
            None
        }
    }

    /// A PPU-side write; only character RAM accepts it.
    pub fn ppu_map_write(&mut self, addr: u16, data: u8) -> (r: Option<u8>)
        requires
            old(self).inv(),
        ensures
            final(self).inv(),
            final(self)@ == old(self)@.spec_ppu_write(addr, data),
            r is Some <==> old(self)@.ppu_write_claimed(addr),
    {
        if addr <= 0x1FFF && self.character_banks == 0 {
            self.character_memory.set(addr as usize, data);
            Some(data)
        } else {
            None
        }
    }
}

} // verus!
