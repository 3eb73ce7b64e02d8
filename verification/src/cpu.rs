//! The 6502-family CPU: registers, stack, interrupts and the
//! fetch-dispatch-execute clock. The CPU owns the system bus.

use crate::addressing::AddrType;
use crate::bus::{spec_bus_read_next, spec_bus_read_result, spec_bus_write_next, Bus, BusView};
use crate::cpu_flags::CpuFlags;
use crate::instructions::Instruction;
use vstd::prelude::*;

verus! {

/// Base address of the stack page: the stack lives in
/// [0x0100, 0x01FF].
pub const STACK_BASE: u16 = 0x0100;

/// Per-instruction scratch state.
#[derive(Clone, Copy, Debug, PartialEq, Eq, Structural)]
pub struct CpuData {
    /// Clock cycles left on the instruction in flight.
    pub cycles: u8,
    /// The opcode being executed.
    pub opcode: u8,
    /// The operand byte fetched for the ALU.
    pub fetched: u8,
    /// The absolute address the instruction works on.
    pub addr_abs: u16,
    /// The sign-extended branch offset.
    pub addr_rel: u16,
    /// The addressing mode of the instruction in flight.
    pub mode: AddrType,
}

/// The CPU and everything it can reach through its bus.
#[derive(Clone, Debug)]
pub struct Cpu {
    /// The system bus and all devices on it.
    pub bus: Bus,
    /// Accumulator.
    pub a: u8,
    /// X index register.
    pub x: u8,
    /// Y index register.
    pub y: u8,
    /// Stack pointer, an offset into the stack page.
    pub stkp: u8,
    /// Program counter.
    pub pc: u16,
    /// Status flags.
    pub status: CpuFlags,
    /// Per-instruction scratch state.
    pub data: CpuData,
}

/// The mathematical state of the CPU and its bus.
#[verifier::ext_equal]
pub struct CpuView {
    /// The bus and all devices on it.
    pub bus: BusView,
    /// Accumulator.
    pub a: u8,
    /// X index register.
    pub x: u8,
    /// Y index register.
    pub y: u8,
    /// Stack pointer.
    pub stkp: u8,
    /// Program counter.
    pub pc: u16,
    /// Status flags.
    pub status: CpuFlags,
    /// Per-instruction scratch state.
    pub data: CpuData,
}

impl View for Cpu {
    type V = CpuView;

    open spec fn view(&self) -> CpuView {
        CpuView {
            bus: self.bus@,
            a: self.a,
            x: self.x,
            y: self.y,
            stkp: self.stkp,
            pc: self.pc,
            status: self.status,
            data: self.data,
        }
    }
}

/// A 16-bit value incremented with wrap-around.
pub open spec fn spec_inc16(x: u16) -> u16 {
    if x == 0xFFFF {
        0u16
    } else {
        (x + 1) as u16
    }
}

/// A byte incremented with wrap-around.
pub open spec fn spec_inc8(x: u8) -> u8 {
    if x == 0xFF {
        0u8
    } else {
        (x + 1) as u8
    }
}

/// A byte decremented with wrap-around.
pub open spec fn spec_dec8(x: u8) -> u8 {
    if x == 0 {
        0xFFu8
    } else {
        (x - 1) as u8
    }
}

/// Whether two CPU states agree on the PPU's frame position and
/// pending-interrupt flags: nothing the CPU does on its own moves the
/// PPU through the frame.
pub open spec fn spec_ppu_timing_eq(a: CpuView, b: CpuView) -> bool {
    &&& a.bus.ppu.cycle == b.bus.ppu.cycle
    &&& a.bus.ppu.scanline == b.bus.ppu.scanline
    &&& a.bus.ppu.frame_complete == b.bus.ppu.frame_complete
    &&& a.bus.ppu.nmi == b.bus.ppu.nmi
}

/// The result and successor state of one bus read.
pub open spec fn spec_read1(c: CpuView, addr: u16) -> (u8, CpuView) {
    (spec_bus_read_result(c.bus, addr), CpuView { bus: spec_bus_read_next(c.bus, addr), ..c })
}

/// The successor state of one bus write.
pub open spec fn spec_write1(c: CpuView, addr: u16, data: u8) -> CpuView {
    CpuView { bus: spec_bus_write_next(c.bus, addr, data), ..c }
}

/// The result and successor state of reading the byte under the
/// program counter and stepping past it.
pub open spec fn spec_fetch_pc(c: CpuView) -> (u8, CpuView) {
    let (v, c1) = spec_read1(c, c.pc);
    (v, CpuView { pc: spec_inc16(c.pc), ..c1 })
}

/// The successor state of pushing one byte onto the stack.
pub open spec fn spec_push(c: CpuView, v: u8) -> CpuView {
    let c1 = spec_write1(c, (STACK_BASE + c.stkp) as u16, v);
    CpuView { stkp: spec_dec8(c.stkp), ..c1 }
}

/// The result and successor state of pulling one byte off the stack.
pub open spec fn spec_pop(c: CpuView) -> (u8, CpuView) {
    let sp = spec_inc8(c.stkp);
    let (v, c1) = spec_read1(CpuView { stkp: sp, ..c }, (STACK_BASE + sp) as u16);
    (v, c1)
}

/// The operand of the instruction in flight: the accumulator image
/// under implied addressing, the byte at the absolute address
/// otherwise.
pub open spec fn spec_fetch_operand(c: CpuView) -> (u8, CpuView) {
    if c.data.mode == AddrType::Imp {
        (c.data.fetched, c)
    } else {
        let (v, c1) = spec_read1(c, c.data.addr_abs);
        (v, CpuView { data: CpuData { fetched: v, ..c1.data }, ..c1 })
    }
}

/// The state after an interrupt is taken: the program counter goes
/// onto the stack, then the status byte with break clear and unused
/// set — the interrupt-disable bit in the pushed byte is the one the
/// program was running with; it is set only after the push — and
/// execution continues at the handler named by the little-endian
/// vector.
pub open spec fn spec_interrupt(c: CpuView, vector: u16, cycles: u8) -> CpuView {
    let c1 = spec_push(c, ((c.pc >> 8) & 0x00FF) as u8);
    let c2 = spec_push(c1, (c.pc & 0x00FF) as u8);
    let pushed = CpuFlags { b: false, u: true, ..c.status };
    let c3 = spec_push(CpuView { status: pushed, ..c2 }, pushed.spec_bits());
    let c4 = CpuView { status: CpuFlags { i: true, ..pushed }, ..c3 };
    let (lo, c5) = spec_read1(c4, vector);
    let (hi, c6) = spec_read1(c5, (vector + 1) as u16);
    CpuView {
        pc: ((hi as u16) << 8) | (lo as u16),
        data: CpuData { cycles, addr_abs: vector, ..c.data },
        ..c6
    }
}

impl Cpu {
    /// Well-formedness of the CPU: its bus and devices are well-formed.
    pub open spec fn inv(&self) -> bool {
        self.bus.inv()
    }

    /// A CPU wired to a fresh bus holding the given cartridge, with
    /// all registers cleared.
    pub fn new(cartridge: crate::cartridge::Cartridge) -> (r: Cpu)
        requires
            cartridge.inv(),
        ensures
            r.inv(),
            r@.a == 0,
            r@.x == 0,
            r@.y == 0,
            r@.stkp == 0,
            r@.pc == 0,
            r@.status == CpuFlags::spec_empty(),
            r@.data.cycles == 0,
            r@.bus.cartridge == cartridge@,
    {
        Cpu {
            bus: Bus::new(cartridge),
            a: 0,
            x: 0,
            y: 0,
            stkp: 0,
            pc: 0,
            status: CpuFlags::empty(),
            data: CpuData {
                cycles: 0,
                opcode: 0,
                fetched: 0,
                addr_abs: 0,
                addr_rel: 0,
                mode: AddrType::Imp,
            },
        }
    }

    /// Write `data` to memory at `addr` through the bus.
    pub fn write(&mut self, addr: u16, data: u8)
        requires
            old(self).inv(),
        ensures
            final(self).inv(),
            spec_ppu_timing_eq(final(self)@, old(self)@),
            final(self)@ == spec_write1(old(self)@, addr, data),
    {
        self.bus.write(addr, data);
    }

    /// Read the byte at `addr` through the bus. Mutating: reads can
    /// reach the PPU's status register or a controller port.
    pub fn read(&mut self, addr: u16) -> (r: u8)
        requires
            old(self).inv(),
        ensures
            final(self).inv(),
            spec_ppu_timing_eq(final(self)@, old(self)@),
            r == spec_read1(old(self)@, addr).0,
            final(self)@ == spec_read1(old(self)@, addr).1,
    {
        self.bus.read(addr)
    }

    /// Read the byte under the program counter.
    pub fn read_from_pc(&mut self) -> (r: u8)
        requires
            old(self).inv(),
        ensures
            final(self).inv(),
            spec_ppu_timing_eq(final(self)@, old(self)@),
            r == spec_read1(old(self)@, old(self)@.pc).0,
            final(self)@ == spec_read1(old(self)@, old(self)@.pc).1,
    {
        let pc = self.pc;
        self.read(pc)
    }

    /// Read the byte under the program counter and step past it.
    pub fn read_inc_pc(&mut self) -> (r: u8)
        requires
            old(self).inv(),
        ensures
            final(self).inv(),
            spec_ppu_timing_eq(final(self)@, old(self)@),
            r == spec_fetch_pc(old(self)@).0,
            final(self)@ == spec_fetch_pc(old(self)@).1,
    {
        let pc = self.pc;
        let result = self.read(pc);
        self.pc = if self.pc == 0xFFFF {
            0
        } else {
            self.pc + 1
        };
        result
    }

    /// Fetch the operand of the instruction in flight; implied
    /// addressing keeps what the addressing step latched.
    pub fn fetch(&mut self) -> (r: u8)
        requires
            old(self).inv(),
        ensures
            final(self).inv(),
            spec_ppu_timing_eq(final(self)@, old(self)@),
            r == spec_fetch_operand(old(self)@).0,
            final(self)@ == spec_fetch_operand(old(self)@).1,
    {
        if !matches!(self.data.mode, AddrType::Imp) {
            let addr = self.data.addr_abs;
            let v = self.read(addr);
            self.data.fetched = v;
        }
        self.data.fetched
    }

    /// Push one byte onto the stack; the stack pointer wraps within
    /// the stack page.
    pub fn stack_push(&mut self, v: u8)
        requires
            old(self).inv(),
        ensures
            final(self).inv(),
            spec_ppu_timing_eq(final(self)@, old(self)@),
            final(self)@ == spec_push(old(self)@, v),
    {
        let addr: u16 = STACK_BASE + (self.stkp as u16);
        self.write(addr, v);
        self.stkp = if self.stkp == 0 {
            0xFF
        } else {
            self.stkp - 1
        };
    }

    /// Pull one byte off the stack; the stack pointer wraps within the
    /// stack page.
    pub fn stack_pop(&mut self) -> (r: u8)
        requires
            old(self).inv(),
        ensures
            final(self).inv(),
            spec_ppu_timing_eq(final(self)@, old(self)@),
            r == spec_pop(old(self)@).0,
            final(self)@ == spec_pop(old(self)@).1,
    {
        self.stkp = if self.stkp == 0xFF {
            0
        } else {
            self.stkp + 1
        };
        let addr: u16 = STACK_BASE + (self.stkp as u16);
        self.read(addr)
    }

    /// Reset the CPU into its power-on state: registers cleared, stack
    /// pointer at 0xFD, only the unused flag set, and the program
    /// counter loaded from the little-endian vector at 0xFFFC. Takes
    /// eight cycles.
    pub fn reset(&mut self)
        requires
            old(self).inv(),
        ensures
            final(self).inv(),
            spec_ppu_timing_eq(final(self)@, old(self)@),
            ({
                let (lo, c1) = spec_read1(old(self)@, 0xFFFC);
                let (hi, c2) = spec_read1(c1, 0xFFFD);
                final(self)@ == (CpuView {
                    a: 0,
                    x: 0,
                    y: 0,
                    stkp: 0xFD,
                    pc: ((hi as u16) << 8) | (lo as u16),
                    status: CpuFlags {
                        c: false,
                        z: false,
                        i: false,
                        d: false,
                        b: false,
                        u: true,
                        v: false,
                        n: false,
                    },
                    data: CpuData {
                        cycles: 8,
                        opcode: old(self)@.data.opcode,
                        fetched: 0,
                        addr_abs: 0,
                        addr_rel: 0,
                        mode: old(self)@.data.mode,
                    },
                    ..c2
                })
            }),
    {
        self.a = 0;
        self.x = 0;
        self.y = 0;
        self.stkp = 0xFD;
        self.status = CpuFlags::empty();
        self.status.u = true;

        self.data.addr_abs = 0xFFFC;
        let lo = self.read(0xFFFC);
        let hi = self.read(0xFFFD);
        self.pc = ((hi as u16) << 8) | (lo as u16);

        self.data.addr_abs = 0;
        self.data.addr_rel = 0;
        self.data.fetched = 0;
        self.data.cycles = 8;
    }

    /// Take the interrupt request if interrupts are enabled: push the
    /// return state and jump through the vector at 0xFFFE. Takes seven
    /// cycles.
    pub fn irq(&mut self)
        requires
            old(self).inv(),
        ensures
            final(self).inv(),
            spec_ppu_timing_eq(final(self)@, old(self)@),
            old(self)@.status.i ==> final(self)@ == old(self)@,
            !old(self)@.status.i ==> final(self)@ == spec_interrupt(old(self)@, 0xFFFE, 7),
    {
        if self.status.i {
            return ;
        }
        let pch: u8 = ((self.pc >> 8) & 0x00FF) as u8;
        let pcl: u8 = (self.pc & 0x00FF) as u8;
        self.stack_push(pch);
        self.stack_push(pcl);
        self.status.b = false;
        self.status.u = true;
        let st = self.status.bits();
        self.stack_push(st);
        self.status.i = true;
        self.data.addr_abs = 0xFFFE;
        let lo = self.read(0xFFFE);
        let hi = self.read(0xFFFF);
        self.pc = ((hi as u16) << 8) | (lo as u16);
        self.data.cycles = 7;
    }

    /// Take the non-maskable interrupt: push the return state and jump
    /// through the vector at 0xFFFA. Takes eight cycles.
    pub fn nmi(&mut self)
        requires
            old(self).inv(),
        ensures
            final(self).inv(),
            spec_ppu_timing_eq(final(self)@, old(self)@),
            final(self)@ == spec_interrupt(old(self)@, 0xFFFA, 8),
    {
        let pch: u8 = ((self.pc >> 8) & 0x00FF) as u8;
        let pcl: u8 = (self.pc & 0x00FF) as u8;
        self.stack_push(pch);
        self.stack_push(pcl);
        self.status.b = false;
        self.status.u = true;
        let st = self.status.bits();
        self.stack_push(st);
        self.status.i = true;
        self.data.addr_abs = 0xFFFA;
        let lo = self.read(0xFFFA);
        let hi = self.read(0xFFFB);
        self.pc = ((hi as u16) << 8) | (lo as u16);
        self.data.cycles = 8;
    }

    /// One CPU subcycle: while an instruction is in flight only its
    /// cycle counter falls; at zero the next opcode is fetched, looked
    /// up in the dispatch table, its addressing mode and execute steps
    /// run, and its cycle count (plus any extra cycle both steps agree
    /// on) is loaded.
    #[verifier::rlimit(100)]
    #[verifier::spinoff_prover]
    pub fn clock(&mut self)
        requires
            old(self).inv(),
        ensures
            final(self).inv(),
            spec_ppu_timing_eq(final(self)@, old(self)@),
            old(self)@.data.cycles > 0 ==> final(self)@ == (CpuView {
                data: CpuData {
                    cycles: (old(self)@.data.cycles - 1) as u8,
                    ..old(self)@.data
                },
                ..old(self)@
            }),
            old(self)@.data.cycles == 0 ==> final(self)@.status.u,
            old(self)@.data.cycles == 0 ==> final(self)@.data.opcode == spec_read1(
                old(self)@,
                old(self)@.pc,
            ).0,
            old(self)@.data.cycles == 0 ==> final(self)@.data.cycles <= 10,
            final(self)@ == crate::instructions::spec_cpu_clock(old(self)@),
    {
        if self.data.cycles != 0 {
            self.data.cycles = self.data.cycles - 1;
            return ;
        }
        let opcode = self.read_inc_pc();
        self.data.opcode = opcode;
        let ins = Instruction::lookup(opcode);
        self.data.mode = ins.addrmode;
        self.status.u = true;
        self.data.cycles = 0;
        let add_cycle1 = self.run_addrmode(ins.addrmode);
        let add_cycle2 = self.run_execute(ins.execute);
        // the base cycles, one extra cycle when both steps ask for it,
        // and the extra cycles a taken branch recorded
        proof {
            assert((add_cycle1 & add_cycle2) <= 1) by (bit_vector)
                requires
                    add_cycle1 <= 1,
                    add_cycle2 <= 1,
            ;
        }
        let cycles = ins.cycles + (add_cycle1 & add_cycle2);
        self.data.cycles = self.data.cycles + cycles;
        self.status.u = true;
        self.data.cycles = self.data.cycles - 1;
    }
}

} // verus!
