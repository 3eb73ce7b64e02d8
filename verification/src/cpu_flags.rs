//! Status flags of the 6502 CPU.
//!
//! The flags live in one 8-bit register: carry (bit 0), zero (1),
//! interrupt disable (2), decimal (3, unused on this console), break
//! (4), the always-observed-as-one unused bit (5), overflow (6) and
//! negative (7).

use vstd::prelude::*;

verus! {

/// The 6502 status flags, one field per bit of the status register.
#[derive(Clone, Copy, Debug, PartialEq, Eq, Structural)]
pub struct CpuFlags {
    /// Carry, bit 0.
    pub c: bool,
    /// Zero, bit 1.
    pub z: bool,
    /// Interrupt disable, bit 2.
    pub i: bool,
    /// Decimal mode, bit 3; latched but never consulted.
    pub d: bool,
    /// Break, bit 4.
    pub b: bool,
    /// Unused, bit 5; observed as one whenever the register is pushed.
    pub u: bool,
    /// Overflow, bit 6.
    pub v: bool,
    /// Negative, bit 7.
    pub n: bool,
}

impl CpuFlags {
    /// The packed register byte these flags describe.
    pub open spec fn spec_bits(&self) -> u8 {
        ((if self.c { 1u8 } else { 0u8 }) + (if self.z { 2u8 } else { 0u8 }) + (if self.i {
            4u8
        } else {
            0u8
        }) + (if self.d { 8u8 } else { 0u8 }) + (if self.b { 16u8 } else { 0u8 }) + (if self.u {
            32u8
        } else {
            0u8
        }) + (if self.v { 64u8 } else { 0u8 }) + (if self.n { 128u8 } else { 0u8 })) as u8
    }

    /// The flags described by a packed register byte.
    pub open spec fn spec_from_bits(bits: u8) -> CpuFlags {
        CpuFlags {
            c: bits & 0x01 != 0,
            z: bits & 0x02 != 0,
            i: bits & 0x04 != 0,
            d: bits & 0x08 != 0,
            b: bits & 0x10 != 0,
            u: bits & 0x20 != 0,
            v: bits & 0x40 != 0,
            n: bits & 0x80 != 0,
        }
    }

    /// The register with all flags clear.
    pub open spec fn spec_empty() -> CpuFlags {
        CpuFlags { c: false, z: false, i: false, d: false, b: false, u: false, v: false, n: false }
    }

    /// All flags clear.
    pub fn empty() -> (r: CpuFlags)
        ensures
            r == (CpuFlags {
                c: false,
                z: false,
                i: false,
                d: false,
                b: false,
                u: false,
                v: false,
                n: false,
            }),
    {
        CpuFlags { c: false, z: false, i: false, d: false, b: false, u: false, v: false, n: false }
    }

    /// Pack the flags into the register byte.
    pub fn bits(&self) -> (r: u8)
        ensures
            r == self.spec_bits(),
    {
        (if self.c {
            1u8
        } else {
            0u8
        }) + (if self.z {
            2
        } else {
            0
        }) + (if self.i {
            4
        } else {
            0
        }) + (if self.d {
            8
        } else {
            0
        }) + (if self.b {
            16
        } else {
            0
        }) + (if self.u {
            32
        } else {
            0
        }) + (if self.v {
            64
        } else {
            0
        }) + (if self.n {
            128
        } else {
            0
        })
    }

    /// Unpack a register byte into flags.
    pub fn from_bits_truncate(bits: u8) -> (r: CpuFlags)
        ensures
            r == CpuFlags::spec_from_bits(bits),
    {
        CpuFlags {
            c: bits & 0x01 != 0,
            z: bits & 0x02 != 0,
            i: bits & 0x04 != 0,
            d: bits & 0x08 != 0,
            b: bits & 0x10 != 0,
            u: bits & 0x20 != 0,
            v: bits & 0x40 != 0,
            n: bits & 0x80 != 0,
        }
    }
}

} // verus!
