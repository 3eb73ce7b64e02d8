//! Object attribute memory: the 256-byte sprite table of the PPU,
//! addressable both as 256 bytes and as 64 four-byte sprite entries.

use vstd::prelude::*;

verus! {

/// One sprite record, laid out in memory as y, tile_id, attribute, x.
/// The DMA engine relies on exactly this byte order.
#[derive(Copy, Clone, Debug, Default, PartialEq, Eq, Structural)]
pub struct OamEntry {
    /// Y position of the sprite's top row.
    pub y: u8,
    /// Tile index in pattern memory.
    pub tile_id: u8,
    /// Palette, priority and flip bits.
    pub attribute: u8,
    /// X position of the sprite's left column.
    pub x: u8,
}

impl OamEntry {
    /// The memory image of the entry, as the sequence of its four bytes.
    pub open spec fn to_bytes_spec(&self) -> Seq<u8> {
        seq![self.y, self.tile_id, self.attribute, self.x]
    }

    /// The entry described by a four-byte memory image.
    pub open spec fn from_bytes_spec(s: Seq<u8>) -> OamEntry {
        OamEntry { y: s[0], tile_id: s[1], attribute: s[2], x: s[3] }
    }

    /// The entry described by four raw bytes, in memory order.
    pub fn from_bytes(arr: [u8; 4]) -> (r: OamEntry)
        ensures
            r == OamEntry::from_bytes_spec(arr@),
    {
        OamEntry { y: arr[0], tile_id: arr[1], attribute: arr[2], x: arr[3] }
    }

    /// The four raw bytes of the entry, in memory order.
    pub fn to_bytes(&self) -> (r: [u8; 4])
        ensures
            r@ =~= self.to_bytes_spec(),
    {
        [self.y, self.tile_id, self.attribute, self.x]
    }
}

/// A sprite entry and its four-byte memory image carry exactly the same
/// information: decoding then encoding gives the bytes back, and encoding
/// then decoding gives the entry back.
pub proof fn lemma_oam_entry_roundtrip(e: OamEntry, s: Seq<u8>)
    requires
        s.len() == 4,
    ensures
        OamEntry::from_bytes_spec(s).to_bytes_spec() =~= s,
        OamEntry::from_bytes_spec(e.to_bytes_spec()) == e,
{
}

/// The sprite table. Exactly 256 bytes at all times.
#[derive(Clone, Debug)]
pub struct Oam {
    mem: Vec<u8>,
}

impl View for Oam {
    type V = Seq<u8>;

    closed spec fn view(&self) -> Seq<u8> {
        self.mem@
    }
}

impl Oam {
    /// Whether the table holds its fixed 256 bytes.
    pub open spec fn inv(&self) -> bool {
        self@.len() == 256
    }

    /// A zeroed sprite table.
    pub fn new() -> (r: Oam)
        ensures
            r.inv(),
            r@ == Seq::<u8>::new(256, |i: int| 0u8),
    {
        let mut mem: Vec<u8> = Vec::new();
        let mut i: usize = 0;
        while i < 256
            invariant
                i <= 256,
                mem@ =~= Seq::<u8>::new(i as nat, |j: int| 0u8),
            decreases 256 - i,
        {
            mem.push(0u8);
            i = i + 1;
        }
        proof {
            assert(mem@ =~= Seq::<u8>::new(256, |i: int| 0u8));
        }
        Oam { mem }
    }

    /// The byte at `index`.
    pub fn get_byte(&self, index: u8) -> (r: u8)
        requires
            self.inv(),
        ensures
            r == self@[index as int],
    {
        self.mem[index as usize]
    }

    /// Store `data` at byte `index`.
    pub fn set_byte(&mut self, index: u8, data: u8)
        requires
            old(self).inv(),
        ensures
            final(self).inv(),
            final(self)@ == old(self)@.update(index as int, data),
    {
        self.mem.set(index as usize, data);
    }

    /// The four-byte entry at `index & 63`.
    pub fn get_entry(&self, index: u8) -> (r: OamEntry)
        requires
            self.inv(),
        ensures
            r.y == self@[4 * ((index & 63) as int)],
            r.tile_id == self@[4 * ((index & 63) as int) + 1],
            r.attribute == self@[4 * ((index & 63) as int) + 2],
            r.x == self@[4 * ((index & 63) as int) + 3],
    {
        assert((index & 63) < 64) by (bit_vector);
        let base: usize = 4 * ((index & 63) as usize);
        OamEntry {
            y: self.mem[base],
            tile_id: self.mem[base + 1],
            attribute: self.mem[base + 2],
            x: self.mem[base + 3],
        }
    }

    /// Store `entry` as the four bytes of entry `index & 63`.
    pub fn set_entry(&mut self, index: u8, entry: OamEntry)
        requires
            old(self).inv(),
        ensures
            final(self).inv(),
            final(self)@ == old(self)@.update(4 * ((index & 63) as int), entry.y).update(
                4 * ((index & 63) as int) + 1,
                entry.tile_id,
            ).update(4 * ((index & 63) as int) + 2, entry.attribute).update(
                4 * ((index & 63) as int) + 3,
                entry.x,
            ),
    {
        assert((index & 63) < 64) by (bit_vector);
        let base: usize = 4 * ((index & 63) as usize);
        self.mem.set(base, entry.y);
        self.mem.set(base + 1, entry.tile_id);
        self.mem.set(base + 2, entry.attribute);
        self.mem.set(base + 3, entry.x);
    }
}

} // verus!
