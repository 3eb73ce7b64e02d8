//! Gamepad state: an 8-bit bitfield per controller, latched into a
//! shift register by a write to the controller port and read back one
//! bit at a time, most significant bit first.

use vstd::prelude::*;

verus! {

/// First controller port address on the CPU bus.
pub const CTRL_ADDR_START: u16 = 0x4016;

/// Second controller port address on the CPU bus.
pub const CTRL_ADDR_END: u16 = 0x4017;

/// Button bit: right on the directional pad.
pub const CONTROLLER_RIGHT: u8 = 0x01;

/// Button bit: left on the directional pad.
pub const CONTROLLER_LEFT: u8 = 0x02;

/// Button bit: down on the directional pad.
pub const CONTROLLER_DOWN: u8 = 0x04;

/// Button bit: up on the directional pad.
pub const CONTROLLER_UP: u8 = 0x08;

/// Button bit: start.
pub const CONTROLLER_START: u8 = 0x10;

/// Button bit: select.
pub const CONTROLLER_SELECT: u8 = 0x20;

/// Button bit: the A button.
pub const CONTROLLER_BUTTON_A: u8 = 0x40;

/// Button bit: the B button.
pub const CONTROLLER_BUTTON_B: u8 = 0x80;

/// One gamepad's button bitfield.
#[derive(Clone, Copy, Debug, PartialEq, Eq, Structural)]
pub struct Controller {
    /// The raw button bits, one per button.
    pub bits: u8,
}

impl Controller {
    /// A controller with no button pressed.
    pub fn empty() -> (r: Controller)
        ensures
            r.bits == 0,
    {
        Controller { bits: 0 }
    }

    /// The raw bitfield.
    pub fn bits(&self) -> (r: u8)
        ensures
            r == self.bits,
    {
        self.bits
    }

    /// A controller holding exactly the given raw bits.
    pub fn from_bits_truncate(bits: u8) -> (r: Controller)
        ensures
            r.bits == bits,
    {
        Controller { bits }
    }

    /// Whether every button of `mask` is pressed.
    pub fn contains(&self, mask: u8) -> (r: bool)
        ensures
            r == ((self.bits & mask) == mask),
    {
        (self.bits & mask) == mask
    }

    /// Press (`value` true) or release (`value` false) the buttons of
    /// `mask`, leaving all other buttons as they are.
    pub fn set(&mut self, mask: u8, value: bool)
        ensures
            value ==> final(self).bits == (old(self).bits | mask),
            !value ==> final(self).bits == (old(self).bits & !mask),
    {
        if value {
            self.bits = self.bits | mask;
        } else {
            self.bits = self.bits & !mask;
        }
    }
}

} // verus!
