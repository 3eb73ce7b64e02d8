//! Direct memory access: a page-copy engine that moves 256 bytes from
//! CPU address space into the PPU's sprite table while the CPU is
//! stalled.

use vstd::prelude::*;

verus! {

/// A CPU write to this address starts a DMA transfer.
pub const DMA_ADDR: u16 = 0x4014;

/// State of the page-copy engine.
///
/// At rest `transfer` is false and `dummy` is true. A write to the
/// trigger address loads `page`, clears `addr` and raises `transfer`;
/// the bus then alternates reads (even system clocks) and writes (odd
/// system clocks) until `addr` wraps back to zero.
#[derive(Clone, Copy, Debug, PartialEq, Eq, Structural)]
pub struct Dma {
    /// High byte of the CPU address the page is copied from.
    pub page: u8,
    /// Low byte of the next address to copy; also the OAM target byte.
    pub addr: u8,
    /// The byte most recently read, waiting to be written to OAM.
    pub data: u8,
    /// Whether a transfer is in progress.
    pub transfer: bool,
    /// Whether the engine is still waiting to synchronise with an odd
    /// system clock before the first read.
    pub dummy: bool,
}

impl Dma {
    /// A DMA engine at rest.
    pub fn new() -> (r: Dma)
        ensures
            r == (Dma { page: 0u8, addr: 0u8, data: 0u8, transfer: false, dummy: true }),
    {
        Dma { page: 0, addr: 0, data: 0, transfer: false, dummy: true }
    }
}

} // verus!
