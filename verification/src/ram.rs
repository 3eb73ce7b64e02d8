//! Work RAM of the console: a 2 KiB byte array that the bus exposes
//! through an 8 KiB mirror window.

use crate::util::lemma_u16_and_le;
use vstd::prelude::*;

verus! {

/// Start of the RAM window on the CPU bus.
pub const RAM_ADDR_START: u16 = 0x0000;

/// Last address of the RAM window on the CPU bus.
///
/// The RAM itself is only 2 KiB; the window is 8 KiB, so each byte of
/// RAM is visible at four addresses.
pub const RAM_ADDR_END: u16 = 0x1FFF;

/// One byte past the RAM window; first PPU register address.
pub const AFTER_RAM_END: u16 = 0x2000;

/// Number of bytes of physical RAM.
pub const RAM_SIZE: usize = 2048;

/// Mask that folds the 8 KiB window onto the 2 KiB of storage.
pub const RAM_MIRROR: u16 = 0x07FF;

/// Random access memory with a mirrored address window.
#[derive(Clone, Debug)]
pub struct Ram {
    mem: Vec<u8>,
}

impl View for Ram {
    type V = Seq<u8>;

    closed spec fn view(&self) -> Seq<u8> {
        self.mem@
    }
}

impl Ram {
    /// Fresh RAM of `size` bytes, all zero.
    pub fn new(size: usize) -> (r: Ram)
        ensures
            r@ == Seq::<u8>::new(size as nat, |i: int| 0u8),
            r@.len() == size,
    {
        let mut mem: Vec<u8> = Vec::new();
        let mut i: usize = 0;
        while i < size
            invariant
                i <= size,
                mem@ =~= Seq::<u8>::new(i as nat, |j: int| 0u8),
            decreases size - i,
        {
            mem.push(0u8);
            i = i + 1;
        }
        proof {
            assert(mem@ =~= Seq::<u8>::new(size as nat, |i: int| 0u8));
        }
        Ram { mem }
    }

    /// Store `data` at the physical address `addr`.
    pub fn write(&mut self, addr: u16, data: u8)
        requires
            (addr as int) < old(self)@.len(),
        ensures
            final(self)@ == old(self)@.update(addr as int, data),
    {
        self.mem.set(addr as usize, data);
    }

    /// The byte at the physical address `addr`.
    pub fn read(&self, addr: u16) -> (r: u8)
        requires
            (addr as int) < self@.len(),
        ensures
            r == self@[addr as int],
    {
        self.mem[addr as usize]
    }

    /// Store `data` at `addr & mirror`, folding the mirror window onto
    /// the physical storage.
    pub fn write_mirrored(&mut self, addr: u16, data: u8, mirror: u16)
        requires
            (mirror as int) < old(self)@.len(),
        ensures
            final(self)@ == old(self)@.update((addr & mirror) as int, data),
    {
        proof {
            lemma_u16_and_le(addr, mirror);
        }
        self.mem.set((addr & mirror) as usize, data);
    }

    /// The byte at `addr & mirror`.
    pub fn read_mirrored(&self, addr: u16, mirror: u16) -> (r: u8)
        requires
            (mirror as int) < self@.len(),
        ensures
            r == self@[(addr & mirror) as int],
    {
        proof {
            lemma_u16_and_le(addr, mirror);
        }
        self.mem[(addr & mirror) as usize]
    }
}

} // verus!
