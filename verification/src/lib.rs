//! Core of a Nintendo Entertainment System emulator: a cycle-level
//! co-simulation of a 6502-family CPU, a picture processing unit (PPU),
//! a system bus with 2 KiB of work RAM, a cartridge with an NROM mapper,
//! and a direct-memory-access helper for sprite uploads.
//!
//! The host is expected to supply a constructed cartridge and per-frame
//! controller bitfields, and to consume the finished RGB framebuffer.

pub mod util;
pub mod ram;
pub mod oam;
pub mod dma;
pub mod controller;
pub mod screen;
pub mod mapper;
pub mod cartridge;
pub mod cpu_flags;
pub mod ppu_regs;
pub mod ppu;
pub mod ppu_render;
pub mod bus;
pub mod cpu;
pub mod addressing;
pub mod instructions;
pub mod system;
pub mod laws;

use crate::cartridge::Cartridge;
use crate::controller::Controller;
use crate::screen::Screen;
use crate::system::System;
use vstd::prelude::*;

verus! {

/// Width of the visible frame in pixels.
pub const SCREEN_WIDTH: usize = 256;

/// Height of the visible frame in pixels.
pub const SCREEN_HEIGHT: usize = 240;

/// The console as the host sees it: insert a cartridge, feed
/// controller state, pull finished frames.
#[derive(Clone, Debug)]
pub struct Nes {
    system: System,
}

impl View for Nes {
    type V = crate::system::SystemView;

    closed spec fn view(&self) -> crate::system::SystemView {
        self.system@
    }
}

impl Nes {
    /// Whether the console is well-formed.
    pub open spec fn inv(&self) -> bool {
        self@.cpu.bus.inv()
    }

    /// A console with the cartridge inserted and reset.
    pub fn new(cartridge: Cartridge) -> (r: Nes)
        requires
            cartridge.inv(),
        ensures
            r.inv(),
            r@.cpu.bus.cartridge.program == cartridge@.program,
            r@.cpu.bus.cartridge.mirror == cartridge@.mirror,
    {
        Nes { system: System::new(cartridge) }
    }

    /// The stable draw buffer of the last finished frame.
    pub fn screen(&self) -> (r: &Screen)
        ensures
            r@ == self@.cpu.bus.ppu.screen,
    {
        self.system.screen()
    }

    /// Emulate until the frame in progress is complete, and hand the
    /// finished frame out.
    pub fn next_frame(&mut self) -> (r: &Screen)
        requires
            old(self).inv(),
        ensures
            final(self).inv(),
            r@ == final(self)@.cpu.bus.ppu.screen,
    {
        self.system.next_frame()
    }

    /// The live gamepad state.
    pub fn controllers(&self) -> (r: &[Controller; 2])
        ensures
            r@ == self@.cpu.bus.controllers,
    {
        self.system.controllers()
    }

    /// Replace the live gamepad state for the coming frame.
    pub fn set_controllers(&mut self, controllers: [Controller; 2])
        requires
            old(self).inv(),
        ensures
            final(self).inv(),
            final(self)@.cpu.bus.controllers == controllers@,
    {
        self.system.set_controllers(controllers);
    }

    /// One system clock.
    pub fn system_clock(&mut self)
        requires
            old(self).inv(),
        ensures
            final(self).inv(),
    {
        self.system.clock();
    }

    /// Reset the console.
    pub fn system_reset(&mut self)
        requires
            old(self).inv(),
        ensures
            final(self).inv(),
    {
        self.system.reset();
    }

    /// The console's internals, for hosts that drive it clock by
    /// clock.
    pub fn system(&self) -> (r: &System)
        ensures
            r@ == self@,
    {
        &self.system
    }
}

} // verus!
