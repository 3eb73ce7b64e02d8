//! The instruction set: the 256-entry dispatch table and the execute
//! step of every instruction, official and otherwise.

use crate::addressing::{spec_add16, AddrType};
use crate::cpu::{
    spec_fetch_operand, spec_inc16, spec_pop, spec_push, spec_read1, spec_write1, Cpu, CpuData,
    CpuView,
};
use crate::cpu_flags::CpuFlags;
use vstd::prelude::*;

verus! {

/// The execute step an opcode dispatches to.
#[derive(Clone, Copy, Debug, PartialEq, Eq, Structural)]
pub enum Op {
    /// The ADC execute step.
    Adc,
    /// The AND execute step.
    And,
    /// The ASL execute step.
    Asl,
    /// The BCC execute step.
    Bcc,
    /// The BCS execute step.
    Bcs,
    /// The BEQ execute step.
    Beq,
    /// The BIT execute step.
    Bit,
    /// The BMI execute step.
    Bmi,
    /// The BNE execute step.
    Bne,
    /// The BPL execute step.
    Bpl,
    /// The BRK execute step.
    Brk,
    /// The BVC execute step.
    Bvc,
    /// The BVS execute step.
    Bvs,
    /// The CLC execute step.
    Clc,
    /// The CLD execute step.
    Cld,
    /// The CLI execute step.
    Cli,
    /// The CLV execute step.
    Clv,
    /// The CMP execute step.
    Cmp,
    /// The CPX execute step.
    Cpx,
    /// The CPY execute step.
    Cpy,
    /// The DEC execute step.
    Dec,
    /// The DEX execute step.
    Dex,
    /// The DEY execute step.
    Dey,
    /// The EOR execute step.
    Eor,
    /// The INC execute step.
    Inc,
    /// The INX execute step.
    Inx,
    /// The INY execute step.
    Iny,
    /// The JMP execute step.
    Jmp,
    /// The JSR execute step.
    Jsr,
    /// The LDA execute step.
    Lda,
    /// The LDX execute step.
    Ldx,
    /// The LDY execute step.
    Ldy,
    /// The LSR execute step.
    Lsr,
    /// The NOP execute step.
    Nop,
    /// The ORA execute step.
    Ora,
    /// The PHA execute step.
    Pha,
    /// The PHP execute step.
    Php,
    /// The PLA execute step.
    Pla,
    /// The PLP execute step.
    Plp,
    /// The ROL execute step.
    Rol,
    /// The ROR execute step.
    Ror,
    /// The RTI execute step.
    Rti,
    /// The RTS execute step.
    Rts,
    /// The SBC execute step.
    Sbc,
    /// The SEC execute step.
    Sec,
    /// The SED execute step.
    Sed,
    /// The SEI execute step.
    Sei,
    /// The STA execute step.
    Sta,
    /// The STX execute step.
    Stx,
    /// The STY execute step.
    Sty,
    /// The TAX execute step.
    Tax,
    /// The TAY execute step.
    Tay,
    /// The TSX execute step.
    Tsx,
    /// The TXA execute step.
    Txa,
    /// The TXS execute step.
    Txs,
    /// The TYA execute step.
    Tya,
}

/// One entry of the dispatch table: the base cycle count, the
/// addressing mode and the execute step of an opcode.
#[derive(Clone, Copy, Debug, PartialEq, Eq, Structural)]
pub struct Instruction {
    /// Base clock cycles of the instruction.
    pub cycles: u8,
    /// Addressing mode tag.
    pub addrmode: AddrType,
    /// Execute step tag.
    pub execute: Op,
}

/// The dispatch table as a function: the instruction every opcode
/// resolves to.
pub open spec fn spec_lookup(opcode: u8) -> Instruction {
    if opcode == 0x00 {
        Instruction { cycles: 7, addrmode: AddrType::Imm, execute: Op::Brk }
    } else     if opcode == 0x01 {
        Instruction { cycles: 6, addrmode: AddrType::Izx, execute: Op::Ora }
    } else     if opcode == 0x02 {
        Instruction { cycles: 2, addrmode: AddrType::Imp, execute: Op::Nop }
    } else     if opcode == 0x03 {
        Instruction { cycles: 8, addrmode: AddrType::Imp, execute: Op::Nop }
    } else     if opcode == 0x04 {
        Instruction { cycles: 3, addrmode: AddrType::Imp, execute: Op::Nop }
    } else     if opcode == 0x05 {
        Instruction { cycles: 3, addrmode: AddrType::Zp0, execute: Op::Ora }
    } else     if opcode == 0x06 {
        Instruction { cycles: 5, addrmode: AddrType::Zp0, execute: Op::Asl }
    } else     if opcode == 0x07 {
        Instruction { cycles: 5, addrmode: AddrType::Imp, execute: Op::Nop }
    } else     if opcode == 0x08 {
        Instruction { cycles: 3, addrmode: AddrType::Imp, execute: Op::Php }
    } else     if opcode == 0x09 {
        Instruction { cycles: 2, addrmode: AddrType::Imm, execute: Op::Ora }
    } else     if opcode == 0x0A {
        Instruction { cycles: 2, addrmode: AddrType::Imp, execute: Op::Asl }
    } else     if opcode == 0x0B {
        Instruction { cycles: 2, addrmode: AddrType::Imp, execute: Op::Nop }
    } else     if opcode == 0x0C {
        Instruction { cycles: 4, addrmode: AddrType::Imp, execute: Op::Nop }
    } else     if opcode == 0x0D {
        Instruction { cycles: 4, addrmode: AddrType::Abs, execute: Op::Ora }
    } else     if opcode == 0x0E {
        Instruction { cycles: 6, addrmode: AddrType::Abs, execute: Op::Asl }
    } else     if opcode == 0x0F {
        Instruction { cycles: 6, addrmode: AddrType::Imp, execute: Op::Nop }
    } else     if opcode == 0x10 {
        Instruction { cycles: 2, addrmode: AddrType::Rel, execute: Op::Bpl }
    } else     if opcode == 0x11 {
        Instruction { cycles: 5, addrmode: AddrType::Izy, execute: Op::Ora }
    } else     if opcode == 0x12 {
        Instruction { cycles: 2, addrmode: AddrType::Imp, execute: Op::Nop }
    } else     if opcode == 0x13 {
        Instruction { cycles: 8, addrmode: AddrType::Imp, execute: Op::Nop }
    } else     if opcode == 0x14 {
        Instruction { cycles: 4, addrmode: AddrType::Imp, execute: Op::Nop }
    } else     if opcode == 0x15 {
        Instruction { cycles: 4, addrmode: AddrType::Zpx, execute: Op::Ora }
    } else     if opcode == 0x16 {
        Instruction { cycles: 6, addrmode: AddrType::Zpx, execute: Op::Asl }
    } else     if opcode == 0x17 {
        Instruction { cycles: 6, addrmode: AddrType::Imp, execute: Op::Nop }
    } else     if opcode == 0x18 {
        Instruction { cycles: 2, addrmode: AddrType::Imp, execute: Op::Clc }
    } else     if opcode == 0x19 {
        Instruction { cycles: 4, addrmode: AddrType::Aby, execute: Op::Ora }
    } else     if opcode == 0x1A {
        Instruction { cycles: 2, addrmode: AddrType::Imp, execute: Op::Nop }
    } else     if opcode == 0x1B {
        Instruction { cycles: 7, addrmode: AddrType::Imp, execute: Op::Nop }
    } else     if opcode == 0x1C {
        Instruction { cycles: 4, addrmode: AddrType::Imp, execute: Op::Nop }
    } else     if opcode == 0x1D {
        Instruction { cycles: 4, addrmode: AddrType::Abx, execute: Op::Ora }
    } else     if opcode == 0x1E {
        Instruction { cycles: 7, addrmode: AddrType::Abx, execute: Op::Asl }
    } else     if opcode == 0x1F {
        Instruction { cycles: 7, addrmode: AddrType::Imp, execute: Op::Nop }
    } else     if opcode == 0x20 {
        Instruction { cycles: 6, addrmode: AddrType::Abs, execute: Op::Jsr }
    } else     if opcode == 0x21 {
        Instruction { cycles: 6, addrmode: AddrType::Izx, execute: Op::And }
    } else     if opcode == 0x22 {
        Instruction { cycles: 2, addrmode: AddrType::Imp, execute: Op::Nop }
    } else     if opcode == 0x23 {
        Instruction { cycles: 8, addrmode: AddrType::Imp, execute: Op::Nop }
    } else     if opcode == 0x24 {
        Instruction { cycles: 3, addrmode: AddrType::Zp0, execute: Op::Bit }
    } else     if opcode == 0x25 {
        Instruction { cycles: 3, addrmode: AddrType::Zp0, execute: Op::And }
    } else     if opcode == 0x26 {
        Instruction { cycles: 5, addrmode: AddrType::Zp0, execute: Op::Rol }
    } else     if opcode == 0x27 {
        Instruction { cycles: 5, addrmode: AddrType::Imp, execute: Op::Nop }
    } else     if opcode == 0x28 {
        Instruction { cycles: 4, addrmode: AddrType::Imp, execute: Op::Plp }
    } else     if opcode == 0x29 {
        Instruction { cycles: 2, addrmode: AddrType::Imm, execute: Op::And }
    } else     if opcode == 0x2A {
        Instruction { cycles: 2, addrmode: AddrType::Imp, execute: Op::Rol }
    } else     if opcode == 0x2B {
        Instruction { cycles: 2, addrmode: AddrType::Imp, execute: Op::Nop }
    } else     if opcode == 0x2C {
        Instruction { cycles: 4, addrmode: AddrType::Abs, execute: Op::Bit }
    } else     if opcode == 0x2D {
        Instruction { cycles: 4, addrmode: AddrType::Abs, execute: Op::And }
    } else     if opcode == 0x2E {
        Instruction { cycles: 6, addrmode: AddrType::Abs, execute: Op::Rol }
    } else     if opcode == 0x2F {
        Instruction { cycles: 6, addrmode: AddrType::Imp, execute: Op::Nop }
    } else     if opcode == 0x30 {
        Instruction { cycles: 2, addrmode: AddrType::Rel, execute: Op::Bmi }
    } else     if opcode == 0x31 {
        Instruction { cycles: 5, addrmode: AddrType::Izy, execute: Op::And }
    } else     if opcode == 0x32 {
        Instruction { cycles: 2, addrmode: AddrType::Imp, execute: Op::Nop }
    } else     if opcode == 0x33 {
        Instruction { cycles: 8, addrmode: AddrType::Imp, execute: Op::Nop }
    } else     if opcode == 0x34 {
        Instruction { cycles: 4, addrmode: AddrType::Imp, execute: Op::Nop }
    } else     if opcode == 0x35 {
        Instruction { cycles: 4, addrmode: AddrType::Zpx, execute: Op::And }
    } else     if opcode == 0x36 {
        Instruction { cycles: 6, addrmode: AddrType::Zpx, execute: Op::Rol }
    } else     if opcode == 0x37 {
        Instruction { cycles: 6, addrmode: AddrType::Imp, execute: Op::Nop }
    } else     if opcode == 0x38 {
        Instruction { cycles: 2, addrmode: AddrType::Imp, execute: Op::Sec }
    } else     if opcode == 0x39 {
        Instruction { cycles: 4, addrmode: AddrType::Aby, execute: Op::And }
    } else     if opcode == 0x3A {
        Instruction { cycles: 2, addrmode: AddrType::Imp, execute: Op::Nop }
    } else     if opcode == 0x3B {
        Instruction { cycles: 7, addrmode: AddrType::Imp, execute: Op::Nop }
    } else     if opcode == 0x3C {
        Instruction { cycles: 4, addrmode: AddrType::Imp, execute: Op::Nop }
    } else     if opcode == 0x3D {
        Instruction { cycles: 4, addrmode: AddrType::Abx, execute: Op::And }
    } else     if opcode == 0x3E {
        Instruction { cycles: 7, addrmode: AddrType::Abx, execute: Op::Rol }
    } else     if opcode == 0x3F {
        Instruction { cycles: 7, addrmode: AddrType::Imp, execute: Op::Nop }
    } else     if opcode == 0x40 {
        Instruction { cycles: 6, addrmode: AddrType::Imp, execute: Op::Rti }
    } else     if opcode == 0x41 {
        Instruction { cycles: 6, addrmode: AddrType::Izx, execute: Op::Eor }
    } else     if opcode == 0x42 {
        Instruction { cycles: 2, addrmode: AddrType::Imp, execute: Op::Nop }
    } else     if opcode == 0x43 {
        Instruction { cycles: 8, addrmode: AddrType::Imp, execute: Op::Nop }
    } else     if opcode == 0x44 {
        Instruction { cycles: 3, addrmode: AddrType::Imp, execute: Op::Nop }
    } else     if opcode == 0x45 {
        Instruction { cycles: 3, addrmode: AddrType::Zp0, execute: Op::Eor }
    } else     if opcode == 0x46 {
        Instruction { cycles: 5, addrmode: AddrType::Zp0, execute: Op::Lsr }
    } else     if opcode == 0x47 {
        Instruction { cycles: 5, addrmode: AddrType::Imp, execute: Op::Nop }
    } else     if opcode == 0x48 {
        Instruction { cycles: 3, addrmode: AddrType::Imp, execute: Op::Pha }
    } else     if opcode == 0x49 {
        Instruction { cycles: 2, addrmode: AddrType::Imm, execute: Op::Eor }
    } else     if opcode == 0x4A {
        Instruction { cycles: 2, addrmode: AddrType::Imp, execute: Op::Lsr }
    } else     if opcode == 0x4B {
        Instruction { cycles: 2, addrmode: AddrType::Imp, execute: Op::Nop }
    } else     if opcode == 0x4C {
        Instruction { cycles: 3, addrmode: AddrType::Abs, execute: Op::Jmp }
    } else     if opcode == 0x4D {
        Instruction { cycles: 4, addrmode: AddrType::Abs, execute: Op::Eor }
    } else     if opcode == 0x4E {
        Instruction { cycles: 6, addrmode: AddrType::Abs, execute: Op::Lsr }
    } else     if opcode == 0x4F {
        Instruction { cycles: 6, addrmode: AddrType::Imp, execute: Op::Nop }
    } else     if opcode == 0x50 {
        Instruction { cycles: 2, addrmode: AddrType::Rel, execute: Op::Bvc }
    } else     if opcode == 0x51 {
        Instruction { cycles: 5, addrmode: AddrType::Izy, execute: Op::Eor }
    } else     if opcode == 0x52 {
        Instruction { cycles: 2, addrmode: AddrType::Imp, execute: Op::Nop }
    } else     if opcode == 0x53 {
        Instruction { cycles: 8, addrmode: AddrType::Imp, execute: Op::Nop }
    } else     if opcode == 0x54 {
        Instruction { cycles: 4, addrmode: AddrType::Imp, execute: Op::Nop }
    } else     if opcode == 0x55 {
        Instruction { cycles: 4, addrmode: AddrType::Zpx, execute: Op::Eor }
    } else     if opcode == 0x56 {
        Instruction { cycles: 6, addrmode: AddrType::Zpx, execute: Op::Lsr }
    } else     if opcode == 0x57 {
        Instruction { cycles: 6, addrmode: AddrType::Imp, execute: Op::Nop }
    } else     if opcode == 0x58 {
        Instruction { cycles: 2, addrmode: AddrType::Imp, execute: Op::Cli }
    } else     if opcode == 0x59 {
        Instruction { cycles: 4, addrmode: AddrType::Aby, execute: Op::Eor }
    } else     if opcode == 0x5A {
        Instruction { cycles: 2, addrmode: AddrType::Imp, execute: Op::Nop }
    } else     if opcode == 0x5B {
        Instruction { cycles: 7, addrmode: AddrType::Imp, execute: Op::Nop }
    } else     if opcode == 0x5C {
        Instruction { cycles: 4, addrmode: AddrType::Imp, execute: Op::Nop }
    } else     if opcode == 0x5D {
        Instruction { cycles: 4, addrmode: AddrType::Abx, execute: Op::Eor }
    } else     if opcode == 0x5E {
        Instruction { cycles: 7, addrmode: AddrType::Abx, execute: Op::Lsr }
    } else     if opcode == 0x5F {
        Instruction { cycles: 7, addrmode: AddrType::Imp, execute: Op::Nop }
    } else     if opcode == 0x60 {
        Instruction { cycles: 6, addrmode: AddrType::Imp, execute: Op::Rts }
    } else     if opcode == 0x61 {
        Instruction { cycles: 6, addrmode: AddrType::Izx, execute: Op::Adc }
    } else     if opcode == 0x62 {
        Instruction { cycles: 2, addrmode: AddrType::Imp, execute: Op::Nop }
    } else     if opcode == 0x63 {
        Instruction { cycles: 8, addrmode: AddrType::Imp, execute: Op::Nop }
    } else     if opcode == 0x64 {
        Instruction { cycles: 3, addrmode: AddrType::Imp, execute: Op::Nop }
    } else     if opcode == 0x65 {
        Instruction { cycles: 3, addrmode: AddrType::Zp0, execute: Op::Adc }
    } else     if opcode == 0x66 {
        Instruction { cycles: 5, addrmode: AddrType::Zp0, execute: Op::Ror }
    } else     if opcode == 0x67 {
        Instruction { cycles: 5, addrmode: AddrType::Imp, execute: Op::Nop }
    } else     if opcode == 0x68 {
        Instruction { cycles: 4, addrmode: AddrType::Imp, execute: Op::Pla }
    } else     if opcode == 0x69 {
        Instruction { cycles: 2, addrmode: AddrType::Imm, execute: Op::Adc }
    } else     if opcode == 0x6A {
        Instruction { cycles: 2, addrmode: AddrType::Imp, execute: Op::Ror }
    } else     if opcode == 0x6B {
        Instruction { cycles: 2, addrmode: AddrType::Imp, execute: Op::Nop }
    } else     if opcode == 0x6C {
        Instruction { cycles: 5, addrmode: AddrType::Ind, execute: Op::Jmp }
    } else     if opcode == 0x6D {
        Instruction { cycles: 4, addrmode: AddrType::Abs, execute: Op::Adc }
    } else     if opcode == 0x6E {
        Instruction { cycles: 6, addrmode: AddrType::Abs, execute: Op::Ror }
    } else     if opcode == 0x6F {
        Instruction { cycles: 6, addrmode: AddrType::Imp, execute: Op::Nop }
    } else     if opcode == 0x70 {
        Instruction { cycles: 2, addrmode: AddrType::Rel, execute: Op::Bvs }
    } else     if opcode == 0x71 {
        Instruction { cycles: 5, addrmode: AddrType::Izy, execute: Op::Adc }
    } else     if opcode == 0x72 {
        Instruction { cycles: 2, addrmode: AddrType::Imp, execute: Op::Nop }
    } else     if opcode == 0x73 {
        Instruction { cycles: 8, addrmode: AddrType::Imp, execute: Op::Nop }
    } else     if opcode == 0x74 {
        Instruction { cycles: 4, addrmode: AddrType::Imp, execute: Op::Nop }
    } else     if opcode == 0x75 {
        Instruction { cycles: 4, addrmode: AddrType::Zpx, execute: Op::Adc }
    } else     if opcode == 0x76 {
        Instruction { cycles: 6, addrmode: AddrType::Zpx, execute: Op::Ror }
    } else     if opcode == 0x77 {
        Instruction { cycles: 6, addrmode: AddrType::Imp, execute: Op::Nop }
    } else     if opcode == 0x78 {
        Instruction { cycles: 2, addrmode: AddrType::Imp, execute: Op::Sei }
    } else     if opcode == 0x79 {
        Instruction { cycles: 4, addrmode: AddrType::Aby, execute: Op::Adc }
    } else     if opcode == 0x7A {
        Instruction { cycles: 2, addrmode: AddrType::Imp, execute: Op::Nop }
    } else     if opcode == 0x7B {
        Instruction { cycles: 7, addrmode: AddrType::Imp, execute: Op::Nop }
    } else     if opcode == 0x7C {
        Instruction { cycles: 4, addrmode: AddrType::Imp, execute: Op::Nop }
    } else     if opcode == 0x7D {
        Instruction { cycles: 4, addrmode: AddrType::Abx, execute: Op::Adc }
    } else     if opcode == 0x7E {
        Instruction { cycles: 7, addrmode: AddrType::Abx, execute: Op::Ror }
    } else     if opcode == 0x7F {
        Instruction { cycles: 7, addrmode: AddrType::Imp, execute: Op::Nop }
    } else     if opcode == 0x80 {
        Instruction { cycles: 2, addrmode: AddrType::Imp, execute: Op::Nop }
    } else     if opcode == 0x81 {
        Instruction { cycles: 6, addrmode: AddrType::Izx, execute: Op::Sta }
    } else     if opcode == 0x82 {
        Instruction { cycles: 2, addrmode: AddrType::Imp, execute: Op::Nop }
    } else     if opcode == 0x83 {
        Instruction { cycles: 6, addrmode: AddrType::Imp, execute: Op::Nop }
    } else     if opcode == 0x84 {
        Instruction { cycles: 3, addrmode: AddrType::Zp0, execute: Op::Sty }
    } else     if opcode == 0x85 {
        Instruction { cycles: 3, addrmode: AddrType::Zp0, execute: Op::Sta }
    } else     if opcode == 0x86 {
        Instruction { cycles: 3, addrmode: AddrType::Zp0, execute: Op::Stx }
    } else     if opcode == 0x87 {
        Instruction { cycles: 3, addrmode: AddrType::Imp, execute: Op::Nop }
    } else     if opcode == 0x88 {
        Instruction { cycles: 2, addrmode: AddrType::Imp, execute: Op::Dey }
    } else     if opcode == 0x89 {
        Instruction { cycles: 2, addrmode: AddrType::Imp, execute: Op::Nop }
    } else     if opcode == 0x8A {
        Instruction { cycles: 2, addrmode: AddrType::Imp, execute: Op::Txa }
    } else     if opcode == 0x8B {
        Instruction { cycles: 2, addrmode: AddrType::Imp, execute: Op::Nop }
    } else     if opcode == 0x8C {
        Instruction { cycles: 4, addrmode: AddrType::Abs, execute: Op::Sty }
    } else     if opcode == 0x8D {
        Instruction { cycles: 4, addrmode: AddrType::Abs, execute: Op::Sta }
    } else     if opcode == 0x8E {
        Instruction { cycles: 4, addrmode: AddrType::Abs, execute: Op::Stx }
    } else     if opcode == 0x8F {
        Instruction { cycles: 4, addrmode: AddrType::Imp, execute: Op::Nop }
    } else     if opcode == 0x90 {
        Instruction { cycles: 2, addrmode: AddrType::Rel, execute: Op::Bcc }
    } else     if opcode == 0x91 {
        Instruction { cycles: 6, addrmode: AddrType::Izy, execute: Op::Sta }
    } else     if opcode == 0x92 {
        Instruction { cycles: 2, addrmode: AddrType::Imp, execute: Op::Nop }
    } else     if opcode == 0x93 {
        Instruction { cycles: 6, addrmode: AddrType::Imp, execute: Op::Nop }
    } else     if opcode == 0x94 {
        Instruction { cycles: 4, addrmode: AddrType::Zpx, execute: Op::Sty }
    } else     if opcode == 0x95 {
        Instruction { cycles: 4, addrmode: AddrType::Zpx, execute: Op::Sta }
    } else     if opcode == 0x96 {
        Instruction { cycles: 4, addrmode: AddrType::Zpy, execute: Op::Stx }
    } else     if opcode == 0x97 {
        Instruction { cycles: 4, addrmode: AddrType::Imp, execute: Op::Nop }
    } else     if opcode == 0x98 {
        Instruction { cycles: 2, addrmode: AddrType::Imp, execute: Op::Tya }
    } else     if opcode == 0x99 {
        Instruction { cycles: 5, addrmode: AddrType::Aby, execute: Op::Sta }
    } else     if opcode == 0x9A {
        Instruction { cycles: 2, addrmode: AddrType::Imp, execute: Op::Txs }
    } else     if opcode == 0x9B {
        Instruction { cycles: 5, addrmode: AddrType::Imp, execute: Op::Nop }
    } else     if opcode == 0x9C {
        Instruction { cycles: 5, addrmode: AddrType::Imp, execute: Op::Nop }
    } else     if opcode == 0x9D {
        Instruction { cycles: 5, addrmode: AddrType::Abx, execute: Op::Sta }
    } else     if opcode == 0x9E {
        Instruction { cycles: 5, addrmode: AddrType::Imp, execute: Op::Nop }
    } else     if opcode == 0x9F {
        Instruction { cycles: 5, addrmode: AddrType::Imp, execute: Op::Nop }
    } else     if opcode == 0xA0 {
        Instruction { cycles: 2, addrmode: AddrType::Imm, execute: Op::Ldy }
    } else     if opcode == 0xA1 {
        Instruction { cycles: 6, addrmode: AddrType::Izx, execute: Op::Lda }
    } else     if opcode == 0xA2 {
        Instruction { cycles: 2, addrmode: AddrType::Imm, execute: Op::Ldx }
    } else     if opcode == 0xA3 {
        Instruction { cycles: 6, addrmode: AddrType::Imp, execute: Op::Nop }
    } else     if opcode == 0xA4 {
        Instruction { cycles: 3, addrmode: AddrType::Zp0, execute: Op::Ldy }
    } else     if opcode == 0xA5 {
        Instruction { cycles: 3, addrmode: AddrType::Zp0, execute: Op::Lda }
    } else     if opcode == 0xA6 {
        Instruction { cycles: 3, addrmode: AddrType::Zp0, execute: Op::Ldx }
    } else     if opcode == 0xA7 {
        Instruction { cycles: 3, addrmode: AddrType::Imp, execute: Op::Nop }
    } else     if opcode == 0xA8 {
        Instruction { cycles: 2, addrmode: AddrType::Imp, execute: Op::Tay }
    } else     if opcode == 0xA9 {
        Instruction { cycles: 2, addrmode: AddrType::Imm, execute: Op::Lda }
    } else     if opcode == 0xAA {
        Instruction { cycles: 2, addrmode: AddrType::Imp, execute: Op::Tax }
    } else     if opcode == 0xAB {
        Instruction { cycles: 2, addrmode: AddrType::Imp, execute: Op::Nop }
    } else     if opcode == 0xAC {
        Instruction { cycles: 4, addrmode: AddrType::Abs, execute: Op::Ldy }
    } else     if opcode == 0xAD {
        Instruction { cycles: 4, addrmode: AddrType::Abs, execute: Op::Lda }
    } else     if opcode == 0xAE {
        Instruction { cycles: 4, addrmode: AddrType::Abs, execute: Op::Ldx }
    } else     if opcode == 0xAF {
        Instruction { cycles: 4, addrmode: AddrType::Imp, execute: Op::Nop }
    } else     if opcode == 0xB0 {
        Instruction { cycles: 2, addrmode: AddrType::Rel, execute: Op::Bcs }
    } else     if opcode == 0xB1 {
        Instruction { cycles: 5, addrmode: AddrType::Izy, execute: Op::Lda }
    } else     if opcode == 0xB2 {
        Instruction { cycles: 2, addrmode: AddrType::Imp, execute: Op::Nop }
    } else     if opcode == 0xB3 {
        Instruction { cycles: 5, addrmode: AddrType::Imp, execute: Op::Nop }
    } else     if opcode == 0xB4 {
        Instruction { cycles: 4, addrmode: AddrType::Zpx, execute: Op::Ldy }
    } else     if opcode == 0xB5 {
        Instruction { cycles: 4, addrmode: AddrType::Zpx, execute: Op::Lda }
    } else     if opcode == 0xB6 {
        Instruction { cycles: 4, addrmode: AddrType::Zpy, execute: Op::Ldx }
    } else     if opcode == 0xB7 {
        Instruction { cycles: 4, addrmode: AddrType::Imp, execute: Op::Nop }
    } else     if opcode == 0xB8 {
        Instruction { cycles: 2, addrmode: AddrType::Imp, execute: Op::Clv }
    } else     if opcode == 0xB9 {
        Instruction { cycles: 4, addrmode: AddrType::Aby, execute: Op::Lda }
    } else     if opcode == 0xBA {
        Instruction { cycles: 2, addrmode: AddrType::Imp, execute: Op::Tsx }
    } else     if opcode == 0xBB {
        Instruction { cycles: 4, addrmode: AddrType::Imp, execute: Op::Nop }
    } else     if opcode == 0xBC {
        Instruction { cycles: 4, addrmode: AddrType::Abx, execute: Op::Ldy }
    } else     if opcode == 0xBD {
        Instruction { cycles: 4, addrmode: AddrType::Abx, execute: Op::Lda }
    } else     if opcode == 0xBE {
        Instruction { cycles: 4, addrmode: AddrType::Aby, execute: Op::Ldx }
    } else     if opcode == 0xBF {
        Instruction { cycles: 4, addrmode: AddrType::Imp, execute: Op::Nop }
    } else     if opcode == 0xC0 {
        Instruction { cycles: 2, addrmode: AddrType::Imm, execute: Op::Cpy }
    } else     if opcode == 0xC1 {
        Instruction { cycles: 6, addrmode: AddrType::Izx, execute: Op::Cmp }
    } else     if opcode == 0xC2 {
        Instruction { cycles: 2, addrmode: AddrType::Imp, execute: Op::Nop }
    } else     if opcode == 0xC3 {
        Instruction { cycles: 8, addrmode: AddrType::Imp, execute: Op::Nop }
    } else     if opcode == 0xC4 {
        Instruction { cycles: 3, addrmode: AddrType::Zp0, execute: Op::Cpy }
    } else     if opcode == 0xC5 {
        Instruction { cycles: 3, addrmode: AddrType::Zp0, execute: Op::Cmp }
    } else     if opcode == 0xC6 {
        Instruction { cycles: 5, addrmode: AddrType::Zp0, execute: Op::Dec }
    } else     if opcode == 0xC7 {
        Instruction { cycles: 5, addrmode: AddrType::Imp, execute: Op::Nop }
    } else     if opcode == 0xC8 {
        Instruction { cycles: 2, addrmode: AddrType::Imp, execute: Op::Iny }
    } else     if opcode == 0xC9 {
        Instruction { cycles: 2, addrmode: AddrType::Imm, execute: Op::Cmp }
    } else     if opcode == 0xCA {
        Instruction { cycles: 2, addrmode: AddrType::Imp, execute: Op::Dex }
    } else     if opcode == 0xCB {
        Instruction { cycles: 2, addrmode: AddrType::Imp, execute: Op::Nop }
    } else     if opcode == 0xCC {
        Instruction { cycles: 4, addrmode: AddrType::Abs, execute: Op::Cpy }
    } else     if opcode == 0xCD {
        Instruction { cycles: 4, addrmode: AddrType::Abs, execute: Op::Cmp }
    } else     if opcode == 0xCE {
        Instruction { cycles: 6, addrmode: AddrType::Abs, execute: Op::Dec }
    } else     if opcode == 0xCF {
        Instruction { cycles: 6, addrmode: AddrType::Imp, execute: Op::Nop }
    } else     if opcode == 0xD0 {
        Instruction { cycles: 2, addrmode: AddrType::Rel, execute: Op::Bne }
    } else     if opcode == 0xD1 {
        Instruction { cycles: 5, addrmode: AddrType::Izy, execute: Op::Cmp }
    } else     if opcode == 0xD2 {
        Instruction { cycles: 2, addrmode: AddrType::Imp, execute: Op::Nop }
    } else     if opcode == 0xD3 {
        Instruction { cycles: 8, addrmode: AddrType::Imp, execute: Op::Nop }
    } else     if opcode == 0xD4 {
        Instruction { cycles: 4, addrmode: AddrType::Imp, execute: Op::Nop }
    } else     if opcode == 0xD5 {
        Instruction { cycles: 4, addrmode: AddrType::Zpx, execute: Op::Cmp }
    } else     if opcode == 0xD6 {
        Instruction { cycles: 6, addrmode: AddrType::Zpx, execute: Op::Dec }
    } else     if opcode == 0xD7 {
        Instruction { cycles: 6, addrmode: AddrType::Imp, execute: Op::Nop }
    } else     if opcode == 0xD8 {
        Instruction { cycles: 2, addrmode: AddrType::Imp, execute: Op::Cld }
    } else     if opcode == 0xD9 {
        Instruction { cycles: 4, addrmode: AddrType::Aby, execute: Op::Cmp }
    } else     if opcode == 0xDA {
        Instruction { cycles: 2, addrmode: AddrType::Imp, execute: Op::Nop }
    } else     if opcode == 0xDB {
        Instruction { cycles: 7, addrmode: AddrType::Imp, execute: Op::Nop }
    } else     if opcode == 0xDC {
        Instruction { cycles: 4, addrmode: AddrType::Imp, execute: Op::Nop }
    } else     if opcode == 0xDD {
        Instruction { cycles: 4, addrmode: AddrType::Abx, execute: Op::Cmp }
    } else     if opcode == 0xDE {
        Instruction { cycles: 7, addrmode: AddrType::Abx, execute: Op::Dec }
    } else     if opcode == 0xDF {
        Instruction { cycles: 7, addrmode: AddrType::Imp, execute: Op::Nop }
    } else     if opcode == 0xE0 {
        Instruction { cycles: 2, addrmode: AddrType::Imm, execute: Op::Cpx }
    } else     if opcode == 0xE1 {
        Instruction { cycles: 6, addrmode: AddrType::Izx, execute: Op::Sbc }
    } else     if opcode == 0xE2 {
        Instruction { cycles: 2, addrmode: AddrType::Imp, execute: Op::Nop }
    } else     if opcode == 0xE3 {
        Instruction { cycles: 8, addrmode: AddrType::Imp, execute: Op::Nop }
    } else     if opcode == 0xE4 {
        Instruction { cycles: 3, addrmode: AddrType::Zp0, execute: Op::Cpx }
    } else     if opcode == 0xE5 {
        Instruction { cycles: 3, addrmode: AddrType::Zp0, execute: Op::Sbc }
    } else     if opcode == 0xE6 {
        Instruction { cycles: 5, addrmode: AddrType::Zp0, execute: Op::Inc }
    } else     if opcode == 0xE7 {
        Instruction { cycles: 5, addrmode: AddrType::Imp, execute: Op::Nop }
    } else     if opcode == 0xE8 {
        Instruction { cycles: 2, addrmode: AddrType::Imp, execute: Op::Inx }
    } else     if opcode == 0xE9 {
        Instruction { cycles: 2, addrmode: AddrType::Imm, execute: Op::Sbc }
    } else     if opcode == 0xEA {
        Instruction { cycles: 2, addrmode: AddrType::Imp, execute: Op::Nop }
    } else     if opcode == 0xEB {
        Instruction { cycles: 2, addrmode: AddrType::Imp, execute: Op::Sbc }
    } else     if opcode == 0xEC {
        Instruction { cycles: 4, addrmode: AddrType::Abs, execute: Op::Cpx }
    } else     if opcode == 0xED {
        Instruction { cycles: 4, addrmode: AddrType::Abs, execute: Op::Sbc }
    } else     if opcode == 0xEE {
        Instruction { cycles: 6, addrmode: AddrType::Abs, execute: Op::Inc }
    } else     if opcode == 0xEF {
        Instruction { cycles: 6, addrmode: AddrType::Imp, execute: Op::Nop }
    } else     if opcode == 0xF0 {
        Instruction { cycles: 2, addrmode: AddrType::Rel, execute: Op::Beq }
    } else     if opcode == 0xF1 {
        Instruction { cycles: 5, addrmode: AddrType::Izy, execute: Op::Sbc }
    } else     if opcode == 0xF2 {
        Instruction { cycles: 2, addrmode: AddrType::Imp, execute: Op::Nop }
    } else     if opcode == 0xF3 {
        Instruction { cycles: 8, addrmode: AddrType::Imp, execute: Op::Nop }
    } else     if opcode == 0xF4 {
        Instruction { cycles: 4, addrmode: AddrType::Imp, execute: Op::Nop }
    } else     if opcode == 0xF5 {
        Instruction { cycles: 4, addrmode: AddrType::Zpx, execute: Op::Sbc }
    } else     if opcode == 0xF6 {
        Instruction { cycles: 6, addrmode: AddrType::Zpx, execute: Op::Inc }
    } else     if opcode == 0xF7 {
        Instruction { cycles: 6, addrmode: AddrType::Imp, execute: Op::Nop }
    } else     if opcode == 0xF8 {
        Instruction { cycles: 2, addrmode: AddrType::Imp, execute: Op::Sed }
    } else     if opcode == 0xF9 {
        Instruction { cycles: 4, addrmode: AddrType::Aby, execute: Op::Sbc }
    } else     if opcode == 0xFA {
        Instruction { cycles: 2, addrmode: AddrType::Imp, execute: Op::Nop }
    } else     if opcode == 0xFB {
        Instruction { cycles: 7, addrmode: AddrType::Imp, execute: Op::Nop }
    } else     if opcode == 0xFC {
        Instruction { cycles: 4, addrmode: AddrType::Imp, execute: Op::Nop }
    } else     if opcode == 0xFD {
        Instruction { cycles: 4, addrmode: AddrType::Abx, execute: Op::Sbc }
    } else     if opcode == 0xFE {
        Instruction { cycles: 7, addrmode: AddrType::Abx, execute: Op::Inc }
    } else {
        Instruction { cycles: 7, addrmode: AddrType::Imp, execute: Op::Nop }
    }
}

impl Instruction {
    /// Look an opcode up in the dispatch table. The table has exactly
    /// 256 entries, and every opcode — the undocumented ones included —
    /// resolves to a defined instruction with a base cycle count
    /// between 2 and 8.
    pub fn lookup(opcode: u8) -> (r: Instruction)
        ensures
            r == spec_lookup(opcode),
            2 <= r.cycles <= 8,
    {
        match opcode {
            0x00 => Instruction { cycles: 7, addrmode: AddrType::Imm, execute: Op::Brk },
            0x01 => Instruction { cycles: 6, addrmode: AddrType::Izx, execute: Op::Ora },
            0x02 => Instruction { cycles: 2, addrmode: AddrType::Imp, execute: Op::Nop },
            0x03 => Instruction { cycles: 8, addrmode: AddrType::Imp, execute: Op::Nop },
            0x04 => Instruction { cycles: 3, addrmode: AddrType::Imp, execute: Op::Nop },
            0x05 => Instruction { cycles: 3, addrmode: AddrType::Zp0, execute: Op::Ora },
            0x06 => Instruction { cycles: 5, addrmode: AddrType::Zp0, execute: Op::Asl },
            0x07 => Instruction { cycles: 5, addrmode: AddrType::Imp, execute: Op::Nop },
            0x08 => Instruction { cycles: 3, addrmode: AddrType::Imp, execute: Op::Php },
            0x09 => Instruction { cycles: 2, addrmode: AddrType::Imm, execute: Op::Ora },
            0x0A => Instruction { cycles: 2, addrmode: AddrType::Imp, execute: Op::Asl },
            0x0B => Instruction { cycles: 2, addrmode: AddrType::Imp, execute: Op::Nop },
            0x0C => Instruction { cycles: 4, addrmode: AddrType::Imp, execute: Op::Nop },
            0x0D => Instruction { cycles: 4, addrmode: AddrType::Abs, execute: Op::Ora },
            0x0E => Instruction { cycles: 6, addrmode: AddrType::Abs, execute: Op::Asl },
            0x0F => Instruction { cycles: 6, addrmode: AddrType::Imp, execute: Op::Nop },
            0x10 => Instruction { cycles: 2, addrmode: AddrType::Rel, execute: Op::Bpl },
            0x11 => Instruction { cycles: 5, addrmode: AddrType::Izy, execute: Op::Ora },
            0x12 => Instruction { cycles: 2, addrmode: AddrType::Imp, execute: Op::Nop },
            0x13 => Instruction { cycles: 8, addrmode: AddrType::Imp, execute: Op::Nop },
            0x14 => Instruction { cycles: 4, addrmode: AddrType::Imp, execute: Op::Nop },
            0x15 => Instruction { cycles: 4, addrmode: AddrType::Zpx, execute: Op::Ora },
            0x16 => Instruction { cycles: 6, addrmode: AddrType::Zpx, execute: Op::Asl },
            0x17 => Instruction { cycles: 6, addrmode: AddrType::Imp, execute: Op::Nop },
            0x18 => Instruction { cycles: 2, addrmode: AddrType::Imp, execute: Op::Clc },
            0x19 => Instruction { cycles: 4, addrmode: AddrType::Aby, execute: Op::Ora },
            0x1A => Instruction { cycles: 2, addrmode: AddrType::Imp, execute: Op::Nop },
            0x1B => Instruction { cycles: 7, addrmode: AddrType::Imp, execute: Op::Nop },
            0x1C => Instruction { cycles: 4, addrmode: AddrType::Imp, execute: Op::Nop },
            0x1D => Instruction { cycles: 4, addrmode: AddrType::Abx, execute: Op::Ora },
            0x1E => Instruction { cycles: 7, addrmode: AddrType::Abx, execute: Op::Asl },
            0x1F => Instruction { cycles: 7, addrmode: AddrType::Imp, execute: Op::Nop },
            0x20 => Instruction { cycles: 6, addrmode: AddrType::Abs, execute: Op::Jsr },
            0x21 => Instruction { cycles: 6, addrmode: AddrType::Izx, execute: Op::And },
            0x22 => Instruction { cycles: 2, addrmode: AddrType::Imp, execute: Op::Nop },
            0x23 => Instruction { cycles: 8, addrmode: AddrType::Imp, execute: Op::Nop },
            0x24 => Instruction { cycles: 3, addrmode: AddrType::Zp0, execute: Op::Bit },
            0x25 => Instruction { cycles: 3, addrmode: AddrType::Zp0, execute: Op::And },
            0x26 => Instruction { cycles: 5, addrmode: AddrType::Zp0, execute: Op::Rol },
            0x27 => Instruction { cycles: 5, addrmode: AddrType::Imp, execute: Op::Nop },
            0x28 => Instruction { cycles: 4, addrmode: AddrType::Imp, execute: Op::Plp },
            0x29 => Instruction { cycles: 2, addrmode: AddrType::Imm, execute: Op::And },
            0x2A => Instruction { cycles: 2, addrmode: AddrType::Imp, execute: Op::Rol },
            0x2B => Instruction { cycles: 2, addrmode: AddrType::Imp, execute: Op::Nop },
            0x2C => Instruction { cycles: 4, addrmode: AddrType::Abs, execute: Op::Bit },
            0x2D => Instruction { cycles: 4, addrmode: AddrType::Abs, execute: Op::And },
            0x2E => Instruction { cycles: 6, addrmode: AddrType::Abs, execute: Op::Rol },
            0x2F => Instruction { cycles: 6, addrmode: AddrType::Imp, execute: Op::Nop },
            0x30 => Instruction { cycles: 2, addrmode: AddrType::Rel, execute: Op::Bmi },
            0x31 => Instruction { cycles: 5, addrmode: AddrType::Izy, execute: Op::And },
            0x32 => Instruction { cycles: 2, addrmode: AddrType::Imp, execute: Op::Nop },
            0x33 => Instruction { cycles: 8, addrmode: AddrType::Imp, execute: Op::Nop },
            0x34 => Instruction { cycles: 4, addrmode: AddrType::Imp, execute: Op::Nop },
            0x35 => Instruction { cycles: 4, addrmode: AddrType::Zpx, execute: Op::And },
            0x36 => Instruction { cycles: 6, addrmode: AddrType::Zpx, execute: Op::Rol },
            0x37 => Instruction { cycles: 6, addrmode: AddrType::Imp, execute: Op::Nop },
            0x38 => Instruction { cycles: 2, addrmode: AddrType::Imp, execute: Op::Sec },
            0x39 => Instruction { cycles: 4, addrmode: AddrType::Aby, execute: Op::And },
            0x3A => Instruction { cycles: 2, addrmode: AddrType::Imp, execute: Op::Nop },
            0x3B => Instruction { cycles: 7, addrmode: AddrType::Imp, execute: Op::Nop },
            0x3C => Instruction { cycles: 4, addrmode: AddrType::Imp, execute: Op::Nop },
            0x3D => Instruction { cycles: 4, addrmode: AddrType::Abx, execute: Op::And },
            0x3E => Instruction { cycles: 7, addrmode: AddrType::Abx, execute: Op::Rol },
            0x3F => Instruction { cycles: 7, addrmode: AddrType::Imp, execute: Op::Nop },
            0x40 => Instruction { cycles: 6, addrmode: AddrType::Imp, execute: Op::Rti },
            0x41 => Instruction { cycles: 6, addrmode: AddrType::Izx, execute: Op::Eor },
            0x42 => Instruction { cycles: 2, addrmode: AddrType::Imp, execute: Op::Nop },
            0x43 => Instruction { cycles: 8, addrmode: AddrType::Imp, execute: Op::Nop },
            0x44 => Instruction { cycles: 3, addrmode: AddrType::Imp, execute: Op::Nop },
            0x45 => Instruction { cycles: 3, addrmode: AddrType::Zp0, execute: Op::Eor },
            0x46 => Instruction { cycles: 5, addrmode: AddrType::Zp0, execute: Op::Lsr },
            0x47 => Instruction { cycles: 5, addrmode: AddrType::Imp, execute: Op::Nop },
            0x48 => Instruction { cycles: 3, addrmode: AddrType::Imp, execute: Op::Pha },
            0x49 => Instruction { cycles: 2, addrmode: AddrType::Imm, execute: Op::Eor },
            0x4A => Instruction { cycles: 2, addrmode: AddrType::Imp, execute: Op::Lsr },
            0x4B => Instruction { cycles: 2, addrmode: AddrType::Imp, execute: Op::Nop },
            0x4C => Instruction { cycles: 3, addrmode: AddrType::Abs, execute: Op::Jmp },
            0x4D => Instruction { cycles: 4, addrmode: AddrType::Abs, execute: Op::Eor },
            0x4E => Instruction { cycles: 6, addrmode: AddrType::Abs, execute: Op::Lsr },
            0x4F => Instruction { cycles: 6, addrmode: AddrType::Imp, execute: Op::Nop },
            0x50 => Instruction { cycles: 2, addrmode: AddrType::Rel, execute: Op::Bvc },
            0x51 => Instruction { cycles: 5, addrmode: AddrType::Izy, execute: Op::Eor },
            0x52 => Instruction { cycles: 2, addrmode: AddrType::Imp, execute: Op::Nop },
            0x53 => Instruction { cycles: 8, addrmode: AddrType::Imp, execute: Op::Nop },
            0x54 => Instruction { cycles: 4, addrmode: AddrType::Imp, execute: Op::Nop },
            0x55 => Instruction { cycles: 4, addrmode: AddrType::Zpx, execute: Op::Eor },
            0x56 => Instruction { cycles: 6, addrmode: AddrType::Zpx, execute: Op::Lsr },
            0x57 => Instruction { cycles: 6, addrmode: AddrType::Imp, execute: Op::Nop },
            0x58 => Instruction { cycles: 2, addrmode: AddrType::Imp, execute: Op::Cli },
            0x59 => Instruction { cycles: 4, addrmode: AddrType::Aby, execute: Op::Eor },
            0x5A => Instruction { cycles: 2, addrmode: AddrType::Imp, execute: Op::Nop },
            0x5B => Instruction { cycles: 7, addrmode: AddrType::Imp, execute: Op::Nop },
            0x5C => Instruction { cycles: 4, addrmode: AddrType::Imp, execute: Op::Nop },
            0x5D => Instruction { cycles: 4, addrmode: AddrType::Abx, execute: Op::Eor },
            0x5E => Instruction { cycles: 7, addrmode: AddrType::Abx, execute: Op::Lsr },
            0x5F => Instruction { cycles: 7, addrmode: AddrType::Imp, execute: Op::Nop },
            0x60 => Instruction { cycles: 6, addrmode: AddrType::Imp, execute: Op::Rts },
            0x61 => Instruction { cycles: 6, addrmode: AddrType::Izx, execute: Op::Adc },
            0x62 => Instruction { cycles: 2, addrmode: AddrType::Imp, execute: Op::Nop },
            0x63 => Instruction { cycles: 8, addrmode: AddrType::Imp, execute: Op::Nop },
            0x64 => Instruction { cycles: 3, addrmode: AddrType::Imp, execute: Op::Nop },
            0x65 => Instruction { cycles: 3, addrmode: AddrType::Zp0, execute: Op::Adc },
            0x66 => Instruction { cycles: 5, addrmode: AddrType::Zp0, execute: Op::Ror },
            0x67 => Instruction { cycles: 5, addrmode: AddrType::Imp, execute: Op::Nop },
            0x68 => Instruction { cycles: 4, addrmode: AddrType::Imp, execute: Op::Pla },
            0x69 => Instruction { cycles: 2, addrmode: AddrType::Imm, execute: Op::Adc },
            0x6A => Instruction { cycles: 2, addrmode: AddrType::Imp, execute: Op::Ror },
            0x6B => Instruction { cycles: 2, addrmode: AddrType::Imp, execute: Op::Nop },
            0x6C => Instruction { cycles: 5, addrmode: AddrType::Ind, execute: Op::Jmp },
            0x6D => Instruction { cycles: 4, addrmode: AddrType::Abs, execute: Op::Adc },
            0x6E => Instruction { cycles: 6, addrmode: AddrType::Abs, execute: Op::Ror },
            0x6F => Instruction { cycles: 6, addrmode: AddrType::Imp, execute: Op::Nop },
            0x70 => Instruction { cycles: 2, addrmode: AddrType::Rel, execute: Op::Bvs },
            0x71 => Instruction { cycles: 5, addrmode: AddrType::Izy, execute: Op::Adc },
            0x72 => Instruction { cycles: 2, addrmode: AddrType::Imp, execute: Op::Nop },
            0x73 => Instruction { cycles: 8, addrmode: AddrType::Imp, execute: Op::Nop },
            0x74 => Instruction { cycles: 4, addrmode: AddrType::Imp, execute: Op::Nop },
            0x75 => Instruction { cycles: 4, addrmode: AddrType::Zpx, execute: Op::Adc },
            0x76 => Instruction { cycles: 6, addrmode: AddrType::Zpx, execute: Op::Ror },
            0x77 => Instruction { cycles: 6, addrmode: AddrType::Imp, execute: Op::Nop },
            0x78 => Instruction { cycles: 2, addrmode: AddrType::Imp, execute: Op::Sei },
            0x79 => Instruction { cycles: 4, addrmode: AddrType::Aby, execute: Op::Adc },
            0x7A => Instruction { cycles: 2, addrmode: AddrType::Imp, execute: Op::Nop },
            0x7B => Instruction { cycles: 7, addrmode: AddrType::Imp, execute: Op::Nop },
            0x7C => Instruction { cycles: 4, addrmode: AddrType::Imp, execute: Op::Nop },
            0x7D => Instruction { cycles: 4, addrmode: AddrType::Abx, execute: Op::Adc },
            0x7E => Instruction { cycles: 7, addrmode: AddrType::Abx, execute: Op::Ror },
            0x7F => Instruction { cycles: 7, addrmode: AddrType::Imp, execute: Op::Nop },
            0x80 => Instruction { cycles: 2, addrmode: AddrType::Imp, execute: Op::Nop },
            0x81 => Instruction { cycles: 6, addrmode: AddrType::Izx, execute: Op::Sta },
            0x82 => Instruction { cycles: 2, addrmode: AddrType::Imp, execute: Op::Nop },
            0x83 => Instruction { cycles: 6, addrmode: AddrType::Imp, execute: Op::Nop },
            0x84 => Instruction { cycles: 3, addrmode: AddrType::Zp0, execute: Op::Sty },
            0x85 => Instruction { cycles: 3, addrmode: AddrType::Zp0, execute: Op::Sta },
            0x86 => Instruction { cycles: 3, addrmode: AddrType::Zp0, execute: Op::Stx },
            0x87 => Instruction { cycles: 3, addrmode: AddrType::Imp, execute: Op::Nop },
            0x88 => Instruction { cycles: 2, addrmode: AddrType::Imp, execute: Op::Dey },
            0x89 => Instruction { cycles: 2, addrmode: AddrType::Imp, execute: Op::Nop },
            0x8A => Instruction { cycles: 2, addrmode: AddrType::Imp, execute: Op::Txa },
            0x8B => Instruction { cycles: 2, addrmode: AddrType::Imp, execute: Op::Nop },
            0x8C => Instruction { cycles: 4, addrmode: AddrType::Abs, execute: Op::Sty },
            0x8D => Instruction { cycles: 4, addrmode: AddrType::Abs, execute: Op::Sta },
            0x8E => Instruction { cycles: 4, addrmode: AddrType::Abs, execute: Op::Stx },
            0x8F => Instruction { cycles: 4, addrmode: AddrType::Imp, execute: Op::Nop },
            0x90 => Instruction { cycles: 2, addrmode: AddrType::Rel, execute: Op::Bcc },
            0x91 => Instruction { cycles: 6, addrmode: AddrType::Izy, execute: Op::Sta },
            0x92 => Instruction { cycles: 2, addrmode: AddrType::Imp, execute: Op::Nop },
            0x93 => Instruction { cycles: 6, addrmode: AddrType::Imp, execute: Op::Nop },
            0x94 => Instruction { cycles: 4, addrmode: AddrType::Zpx, execute: Op::Sty },
            0x95 => Instruction { cycles: 4, addrmode: AddrType::Zpx, execute: Op::Sta },
            0x96 => Instruction { cycles: 4, addrmode: AddrType::Zpy, execute: Op::Stx },
            0x97 => Instruction { cycles: 4, addrmode: AddrType::Imp, execute: Op::Nop },
            0x98 => Instruction { cycles: 2, addrmode: AddrType::Imp, execute: Op::Tya },
            0x99 => Instruction { cycles: 5, addrmode: AddrType::Aby, execute: Op::Sta },
            0x9A => Instruction { cycles: 2, addrmode: AddrType::Imp, execute: Op::Txs },
            0x9B => Instruction { cycles: 5, addrmode: AddrType::Imp, execute: Op::Nop },
            0x9C => Instruction { cycles: 5, addrmode: AddrType::Imp, execute: Op::Nop },
            0x9D => Instruction { cycles: 5, addrmode: AddrType::Abx, execute: Op::Sta },
            0x9E => Instruction { cycles: 5, addrmode: AddrType::Imp, execute: Op::Nop },
            0x9F => Instruction { cycles: 5, addrmode: AddrType::Imp, execute: Op::Nop },
            0xA0 => Instruction { cycles: 2, addrmode: AddrType::Imm, execute: Op::Ldy },
            0xA1 => Instruction { cycles: 6, addrmode: AddrType::Izx, execute: Op::Lda },
            0xA2 => Instruction { cycles: 2, addrmode: AddrType::Imm, execute: Op::Ldx },
            0xA3 => Instruction { cycles: 6, addrmode: AddrType::Imp, execute: Op::Nop },
            0xA4 => Instruction { cycles: 3, addrmode: AddrType::Zp0, execute: Op::Ldy },
            0xA5 => Instruction { cycles: 3, addrmode: AddrType::Zp0, execute: Op::Lda },
            0xA6 => Instruction { cycles: 3, addrmode: AddrType::Zp0, execute: Op::Ldx },
            0xA7 => Instruction { cycles: 3, addrmode: AddrType::Imp, execute: Op::Nop },
            0xA8 => Instruction { cycles: 2, addrmode: AddrType::Imp, execute: Op::Tay },
            0xA9 => Instruction { cycles: 2, addrmode: AddrType::Imm, execute: Op::Lda },
            0xAA => Instruction { cycles: 2, addrmode: AddrType::Imp, execute: Op::Tax },
            0xAB => Instruction { cycles: 2, addrmode: AddrType::Imp, execute: Op::Nop },
            0xAC => Instruction { cycles: 4, addrmode: AddrType::Abs, execute: Op::Ldy },
            0xAD => Instruction { cycles: 4, addrmode: AddrType::Abs, execute: Op::Lda },
            0xAE => Instruction { cycles: 4, addrmode: AddrType::Abs, execute: Op::Ldx },
            0xAF => Instruction { cycles: 4, addrmode: AddrType::Imp, execute: Op::Nop },
            0xB0 => Instruction { cycles: 2, addrmode: AddrType::Rel, execute: Op::Bcs },
            0xB1 => Instruction { cycles: 5, addrmode: AddrType::Izy, execute: Op::Lda },
            0xB2 => Instruction { cycles: 2, addrmode: AddrType::Imp, execute: Op::Nop },
            0xB3 => Instruction { cycles: 5, addrmode: AddrType::Imp, execute: Op::Nop },
            0xB4 => Instruction { cycles: 4, addrmode: AddrType::Zpx, execute: Op::Ldy },
            0xB5 => Instruction { cycles: 4, addrmode: AddrType::Zpx, execute: Op::Lda },
            0xB6 => Instruction { cycles: 4, addrmode: AddrType::Zpy, execute: Op::Ldx },
            0xB7 => Instruction { cycles: 4, addrmode: AddrType::Imp, execute: Op::Nop },
            0xB8 => Instruction { cycles: 2, addrmode: AddrType::Imp, execute: Op::Clv },
            0xB9 => Instruction { cycles: 4, addrmode: AddrType::Aby, execute: Op::Lda },
            0xBA => Instruction { cycles: 2, addrmode: AddrType::Imp, execute: Op::Tsx },
            0xBB => Instruction { cycles: 4, addrmode: AddrType::Imp, execute: Op::Nop },
            0xBC => Instruction { cycles: 4, addrmode: AddrType::Abx, execute: Op::Ldy },
            0xBD => Instruction { cycles: 4, addrmode: AddrType::Abx, execute: Op::Lda },
            0xBE => Instruction { cycles: 4, addrmode: AddrType::Aby, execute: Op::Ldx },
            0xBF => Instruction { cycles: 4, addrmode: AddrType::Imp, execute: Op::Nop },
            0xC0 => Instruction { cycles: 2, addrmode: AddrType::Imm, execute: Op::Cpy },
            0xC1 => Instruction { cycles: 6, addrmode: AddrType::Izx, execute: Op::Cmp },
            0xC2 => Instruction { cycles: 2, addrmode: AddrType::Imp, execute: Op::Nop },
            0xC3 => Instruction { cycles: 8, addrmode: AddrType::Imp, execute: Op::Nop },
            0xC4 => Instruction { cycles: 3, addrmode: AddrType::Zp0, execute: Op::Cpy },
            0xC5 => Instruction { cycles: 3, addrmode: AddrType::Zp0, execute: Op::Cmp },
            0xC6 => Instruction { cycles: 5, addrmode: AddrType::Zp0, execute: Op::Dec },
            0xC7 => Instruction { cycles: 5, addrmode: AddrType::Imp, execute: Op::Nop },
            0xC8 => Instruction { cycles: 2, addrmode: AddrType::Imp, execute: Op::Iny },
            0xC9 => Instruction { cycles: 2, addrmode: AddrType::Imm, execute: Op::Cmp },
            0xCA => Instruction { cycles: 2, addrmode: AddrType::Imp, execute: Op::Dex },
            0xCB => Instruction { cycles: 2, addrmode: AddrType::Imp, execute: Op::Nop },
            0xCC => Instruction { cycles: 4, addrmode: AddrType::Abs, execute: Op::Cpy },
            0xCD => Instruction { cycles: 4, addrmode: AddrType::Abs, execute: Op::Cmp },
            0xCE => Instruction { cycles: 6, addrmode: AddrType::Abs, execute: Op::Dec },
            0xCF => Instruction { cycles: 6, addrmode: AddrType::Imp, execute: Op::Nop },
            0xD0 => Instruction { cycles: 2, addrmode: AddrType::Rel, execute: Op::Bne },
            0xD1 => Instruction { cycles: 5, addrmode: AddrType::Izy, execute: Op::Cmp },
            0xD2 => Instruction { cycles: 2, addrmode: AddrType::Imp, execute: Op::Nop },
            0xD3 => Instruction { cycles: 8, addrmode: AddrType::Imp, execute: Op::Nop },
            0xD4 => Instruction { cycles: 4, addrmode: AddrType::Imp, execute: Op::Nop },
            0xD5 => Instruction { cycles: 4, addrmode: AddrType::Zpx, execute: Op::Cmp },
            0xD6 => Instruction { cycles: 6, addrmode: AddrType::Zpx, execute: Op::Dec },
            0xD7 => Instruction { cycles: 6, addrmode: AddrType::Imp, execute: Op::Nop },
            0xD8 => Instruction { cycles: 2, addrmode: AddrType::Imp, execute: Op::Cld },
            0xD9 => Instruction { cycles: 4, addrmode: AddrType::Aby, execute: Op::Cmp },
            0xDA => Instruction { cycles: 2, addrmode: AddrType::Imp, execute: Op::Nop },
            0xDB => Instruction { cycles: 7, addrmode: AddrType::Imp, execute: Op::Nop },
            0xDC => Instruction { cycles: 4, addrmode: AddrType::Imp, execute: Op::Nop },
            0xDD => Instruction { cycles: 4, addrmode: AddrType::Abx, execute: Op::Cmp },
            0xDE => Instruction { cycles: 7, addrmode: AddrType::Abx, execute: Op::Dec },
            0xDF => Instruction { cycles: 7, addrmode: AddrType::Imp, execute: Op::Nop },
            0xE0 => Instruction { cycles: 2, addrmode: AddrType::Imm, execute: Op::Cpx },
            0xE1 => Instruction { cycles: 6, addrmode: AddrType::Izx, execute: Op::Sbc },
            0xE2 => Instruction { cycles: 2, addrmode: AddrType::Imp, execute: Op::Nop },
            0xE3 => Instruction { cycles: 8, addrmode: AddrType::Imp, execute: Op::Nop },
            0xE4 => Instruction { cycles: 3, addrmode: AddrType::Zp0, execute: Op::Cpx },
            0xE5 => Instruction { cycles: 3, addrmode: AddrType::Zp0, execute: Op::Sbc },
            0xE6 => Instruction { cycles: 5, addrmode: AddrType::Zp0, execute: Op::Inc },
            0xE7 => Instruction { cycles: 5, addrmode: AddrType::Imp, execute: Op::Nop },
            0xE8 => Instruction { cycles: 2, addrmode: AddrType::Imp, execute: Op::Inx },
            0xE9 => Instruction { cycles: 2, addrmode: AddrType::Imm, execute: Op::Sbc },
            0xEA => Instruction { cycles: 2, addrmode: AddrType::Imp, execute: Op::Nop },
            0xEB => Instruction { cycles: 2, addrmode: AddrType::Imp, execute: Op::Sbc },
            0xEC => Instruction { cycles: 4, addrmode: AddrType::Abs, execute: Op::Cpx },
            0xED => Instruction { cycles: 4, addrmode: AddrType::Abs, execute: Op::Sbc },
            0xEE => Instruction { cycles: 6, addrmode: AddrType::Abs, execute: Op::Inc },
            0xEF => Instruction { cycles: 6, addrmode: AddrType::Imp, execute: Op::Nop },
            0xF0 => Instruction { cycles: 2, addrmode: AddrType::Rel, execute: Op::Beq },
            0xF1 => Instruction { cycles: 5, addrmode: AddrType::Izy, execute: Op::Sbc },
            0xF2 => Instruction { cycles: 2, addrmode: AddrType::Imp, execute: Op::Nop },
            0xF3 => Instruction { cycles: 8, addrmode: AddrType::Imp, execute: Op::Nop },
            0xF4 => Instruction { cycles: 4, addrmode: AddrType::Imp, execute: Op::Nop },
            0xF5 => Instruction { cycles: 4, addrmode: AddrType::Zpx, execute: Op::Sbc },
            0xF6 => Instruction { cycles: 6, addrmode: AddrType::Zpx, execute: Op::Inc },
            0xF7 => Instruction { cycles: 6, addrmode: AddrType::Imp, execute: Op::Nop },
            0xF8 => Instruction { cycles: 2, addrmode: AddrType::Imp, execute: Op::Sed },
            0xF9 => Instruction { cycles: 4, addrmode: AddrType::Aby, execute: Op::Sbc },
            0xFA => Instruction { cycles: 2, addrmode: AddrType::Imp, execute: Op::Nop },
            0xFB => Instruction { cycles: 7, addrmode: AddrType::Imp, execute: Op::Nop },
            0xFC => Instruction { cycles: 4, addrmode: AddrType::Imp, execute: Op::Nop },
            0xFD => Instruction { cycles: 4, addrmode: AddrType::Abx, execute: Op::Sbc },
            0xFE => Instruction { cycles: 7, addrmode: AddrType::Abx, execute: Op::Inc },
            _ => Instruction { cycles: 7, addrmode: AddrType::Imp, execute: Op::Nop },
        }
    }
}

/// A 16-bit value decremented with wrap-around.
pub open spec fn spec_dec16(x: u16) -> u16 {
    if x == 0 {
        0xFFFFu16
    } else {
        (x - 1) as u16
    }
}

/// The zero and negative flags an operation leaves behind: zero when
/// the value is zero, negative when its top bit is set.
pub open spec fn spec_zn(st: CpuFlags, v: u8) -> CpuFlags {
    CpuFlags { z: v == 0, n: v >= 128, ..st }
}

/// Add with carry: the sum of the accumulator, the operand and the
/// carry bit, reduced to a byte, with the four result flags (result,
/// carry, zero, overflow, negative). Overflow is signed: it is raised
/// exactly when both inputs share a sign that the result does not.
pub open spec fn spec_adc(a: u8, m: u8, c: bool) -> (u8, bool, bool, bool, bool) {
    let sum = (a as int) + (m as int) + (if c {
        1int
    } else {
        0int
    });
    let r = (sum % 256) as u8;
    let acc_pos = a < 128;
    let mem_pos = m < 128;
    let res_pos = r < 128;
    (r, sum > 255, r == 0, (acc_pos && mem_pos && !res_pos) || (!acc_pos && !mem_pos && res_pos), r
        >= 128)
}

/// Subtract with borrow: algebraically the same operation as add with
/// carry on the bitwise-complemented operand.
pub open spec fn spec_sbc(a: u8, m: u8, c: bool) -> (u8, bool, bool, bool, bool) {
    spec_adc(a, (255 - m) as u8, c)
}

/// The comparison flags of a register against an operand: carry when
/// the register is at least the operand, zero on equality, negative
/// from the wrapped difference.
pub open spec fn spec_compare(reg: u8, m: u8) -> (bool, bool, bool) {
    let diff = (((reg as int) + 256) - (m as int)) % 256;
    (reg >= m, diff == 0, diff >= 128)
}

/// The state after a taken branch: the program counter moves by the
/// sign-extended offset, costing one extra cycle, or two when the
/// target lies in another page.
pub open spec fn spec_branch(c: CpuView) -> CpuView {
    let target = spec_add16(c.pc, c.data.addr_rel);
    CpuView {
        pc: target,
        data: CpuData {
            cycles: (c.data.cycles + 1 + (if (target & 0xFF00) != (c.pc & 0xFF00) {
                1int
            } else {
                0int
            })) as u8,
            addr_abs: target,
            ..c.data
        },
        ..c
    }
}

/// The ADC execute step as a function.
pub open spec fn spec_step_adc(c: CpuView) -> (u8, CpuView) {
    {
            let (m, c1) = spec_fetch_operand(c);
            let o = spec_adc(c.a, m, c.status.c);
            (
                1u8,
                CpuView {
                    a: o.0,
                    status: CpuFlags { c: o.1, z: o.2, v: o.3, n: o.4, ..c.status },
                    ..c1
                },
            )
        }
}

/// The AND execute step as a function.
pub open spec fn spec_step_and(c: CpuView) -> (u8, CpuView) {
    {
            let (m, c1) = spec_fetch_operand(c);
            (1u8, CpuView { a: (c.a & m) as u8, status: spec_zn(c.status, (c.a & m) as u8), ..c1 })
        }
}

/// The ASL execute step as a function.
pub open spec fn spec_step_asl(c: CpuView) -> (u8, CpuView) {
    {
            let (m, c1) = spec_fetch_operand(c);
            let v = (((m as int) * 2) % 256) as u8;
            let st = CpuFlags { c: m >= 128, z: v == 0, n: v >= 128, ..c.status };
            if c.data.mode == AddrType::Imp {
                (0u8, CpuView { a: v, status: st, ..c1 })
            } else {
                (0u8, spec_write1((CpuView { status: st, ..c1 }), c1.data.addr_abs, v))
            }
        }
}

/// The BCC execute step as a function.
pub open spec fn spec_step_bcc(c: CpuView) -> (u8, CpuView) {
    (
            0u8,
            if !c.status.c {
                spec_branch(c)
            } else {
                c
            },
        )
}

/// The BCS execute step as a function.
pub open spec fn spec_step_bcs(c: CpuView) -> (u8, CpuView) {
    (
            0u8,
            if c.status.c {
                spec_branch(c)
            } else {
                c
            },
        )
}

/// The BEQ execute step as a function.
pub open spec fn spec_step_beq(c: CpuView) -> (u8, CpuView) {
    (
            0u8,
            if c.status.z {
                spec_branch(c)
            } else {
                c
            },
        )
}

/// The BIT execute step as a function.
pub open spec fn spec_step_bit(c: CpuView) -> (u8, CpuView) {
    {
            let (m, c1) = spec_fetch_operand(c);
            (
                0u8,
                CpuView {
                    status: CpuFlags {
                        z: (c.a & m) == 0,
                        n: m >= 128,
                        v: (m & 0x40) != 0,
                        ..c.status
                    },
                    ..c1
                },
            )
        }
}

/// The BMI execute step as a function.
pub open spec fn spec_step_bmi(c: CpuView) -> (u8, CpuView) {
    (
            0u8,
            if c.status.n {
                spec_branch(c)
            } else {
                c
            },
        )
}

/// The BNE execute step as a function.
pub open spec fn spec_step_bne(c: CpuView) -> (u8, CpuView) {
    (
            0u8,
            if !c.status.z {
                spec_branch(c)
            } else {
                c
            },
        )
}

/// The BPL execute step as a function.
pub open spec fn spec_step_bpl(c: CpuView) -> (u8, CpuView) {
    (
            0u8,
            if !c.status.n {
                spec_branch(c)
            } else {
                c
            },
        )
}

/// The BRK execute step as a function.
pub open spec fn spec_step_brk(c: CpuView) -> (u8, CpuView) {
    {
            let pc1 = spec_inc16(c.pc);
            let c0 = CpuView { pc: pc1, ..c };
            let c1 = spec_push(c0, ((pc1 >> 8) & 0x00FF) as u8);
            let c2 = spec_push(c1, (pc1 & 0x00FF) as u8);
            let stb = CpuFlags { b: true, u: true, ..c.status };
            let c3 = spec_push((CpuView { status: stb, ..c2 }), stb.spec_bits());
            let c4 = CpuView { status: CpuFlags { b: false, ..stb }, ..c3 };
            let (lo, c5) = spec_read1(c4, 0xFFFE);
            let (hi, c6) = spec_read1(c5, 0xFFFF);
            (
                0u8,
                CpuView {
                    pc: ((hi as u16) << 8) | (lo as u16),
                    status: CpuFlags { i: true, b: false, ..stb },
                    ..c6
                },
            )
        }
}

/// The BVC execute step as a function.
pub open spec fn spec_step_bvc(c: CpuView) -> (u8, CpuView) {
    (
            0u8,
            if !c.status.v {
                spec_branch(c)
            } else {
                c
            },
        )
}

/// The BVS execute step as a function.
pub open spec fn spec_step_bvs(c: CpuView) -> (u8, CpuView) {
    (
            0u8,
            if c.status.v {
                spec_branch(c)
            } else {
                c
            },
        )
}

/// The CLC execute step as a function.
pub open spec fn spec_step_clc(c: CpuView) -> (u8, CpuView) {
    (0u8, CpuView { status: CpuFlags { c: false, ..c.status }, ..c })
}

/// The CLD execute step as a function.
pub open spec fn spec_step_cld(c: CpuView) -> (u8, CpuView) {
    (0u8, CpuView { status: CpuFlags { d: false, ..c.status }, ..c })
}

/// The CLI execute step as a function.
pub open spec fn spec_step_cli(c: CpuView) -> (u8, CpuView) {
    (0u8, CpuView { status: CpuFlags { i: false, ..c.status }, ..c })
}

/// The CLV execute step as a function.
pub open spec fn spec_step_clv(c: CpuView) -> (u8, CpuView) {
    (0u8, CpuView { status: CpuFlags { v: false, ..c.status }, ..c })
}

/// The CMP execute step as a function.
pub open spec fn spec_step_cmp(c: CpuView) -> (u8, CpuView) {
    {
            let (m, c1) = spec_fetch_operand(c);
            let o = spec_compare(c.a, m);
            (1u8, CpuView { status: CpuFlags { c: o.0, z: o.1, n: o.2, ..c.status }, ..c1 })
        }
}

/// The CPX execute step as a function.
pub open spec fn spec_step_cpx(c: CpuView) -> (u8, CpuView) {
    {
            let (m, c1) = spec_fetch_operand(c);
            let o = spec_compare(c.x, m);
            (0u8, CpuView { status: CpuFlags { c: o.0, z: o.1, n: o.2, ..c.status }, ..c1 })
        }
}

/// The CPY execute step as a function.
pub open spec fn spec_step_cpy(c: CpuView) -> (u8, CpuView) {
    {
            let (m, c1) = spec_fetch_operand(c);
            let o = spec_compare(c.y, m);
            (0u8, CpuView { status: CpuFlags { c: o.0, z: o.1, n: o.2, ..c.status }, ..c1 })
        }
}

/// The DEC execute step as a function.
pub open spec fn spec_step_dec(c: CpuView) -> (u8, CpuView) {
    {
            let (m, c1) = spec_fetch_operand(c);
            let v = crate::cpu::spec_dec8(m);
            (
                0u8,
                CpuView {
                    status: spec_zn(c.status, v),
                    ..spec_write1(c1, c1.data.addr_abs, v)
                },
            )
        }
}

/// The DEX execute step as a function.
pub open spec fn spec_step_dex(c: CpuView) -> (u8, CpuView) {
    (
            0u8,
            CpuView {
                x: crate::cpu::spec_dec8(c.x),
                status: spec_zn(c.status, crate::cpu::spec_dec8(c.x)),
                ..c
            },
        )
}

/// The DEY execute step as a function.
pub open spec fn spec_step_dey(c: CpuView) -> (u8, CpuView) {
    (
            0u8,
            CpuView {
                y: crate::cpu::spec_dec8(c.y),
                status: spec_zn(c.status, crate::cpu::spec_dec8(c.y)),
                ..c
            },
        )
}

/// The EOR execute step as a function.
pub open spec fn spec_step_eor(c: CpuView) -> (u8, CpuView) {
    {
            let (m, c1) = spec_fetch_operand(c);
            (1u8, CpuView { a: (c.a ^ m) as u8, status: spec_zn(c.status, (c.a ^ m) as u8), ..c1 })
        }
}

/// The INC execute step as a function.
pub open spec fn spec_step_inc(c: CpuView) -> (u8, CpuView) {
    {
            let (m, c1) = spec_fetch_operand(c);
            let v = crate::cpu::spec_inc8(m);
            (
                0u8,
                CpuView {
                    status: spec_zn(c.status, v),
                    ..spec_write1(c1, c1.data.addr_abs, v)
                },
            )
        }
}

/// The INX execute step as a function.
pub open spec fn spec_step_inx(c: CpuView) -> (u8, CpuView) {
    (
            0u8,
            CpuView {
                x: crate::cpu::spec_inc8(c.x),
                status: spec_zn(c.status, crate::cpu::spec_inc8(c.x)),
                ..c
            },
        )
}

/// The INY execute step as a function.
pub open spec fn spec_step_iny(c: CpuView) -> (u8, CpuView) {
    (
            0u8,
            CpuView {
                y: crate::cpu::spec_inc8(c.y),
                status: spec_zn(c.status, crate::cpu::spec_inc8(c.y)),
                ..c
            },
        )
}

/// The JMP execute step as a function.
pub open spec fn spec_step_jmp(c: CpuView) -> (u8, CpuView) {
    (0u8, CpuView { pc: c.data.addr_abs, ..c })
}

/// The JSR execute step as a function.
pub open spec fn spec_step_jsr(c: CpuView) -> (u8, CpuView) {
    {
            let ret = spec_dec16(c.pc);
            let c1 = spec_push((CpuView { pc: ret, ..c }), ((ret >> 8) & 0x00FF) as u8);
            let c2 = spec_push(c1, (ret & 0x00FF) as u8);
            (0u8, CpuView { pc: c.data.addr_abs, ..c2 })
        }
}

/// The LDA execute step as a function.
pub open spec fn spec_step_lda(c: CpuView) -> (u8, CpuView) {
    {
            let (m, c1) = spec_fetch_operand(c);
            (1u8, CpuView { a: m, status: spec_zn(c.status, m), ..c1 })
        }
}

/// The LDX execute step as a function.
pub open spec fn spec_step_ldx(c: CpuView) -> (u8, CpuView) {
    {
            let (m, c1) = spec_fetch_operand(c);
            (1u8, CpuView { x: m, status: spec_zn(c.status, m), ..c1 })
        }
}

/// The LDY execute step as a function.
pub open spec fn spec_step_ldy(c: CpuView) -> (u8, CpuView) {
    {
            let (m, c1) = spec_fetch_operand(c);
            (1u8, CpuView { y: m, status: spec_zn(c.status, m), ..c1 })
        }
}

/// The LSR execute step as a function.
pub open spec fn spec_step_lsr(c: CpuView) -> (u8, CpuView) {
    {
            let (m, c1) = spec_fetch_operand(c);
            let v = (m / 2) as u8;
            let st = CpuFlags { c: m % 2 == 1, z: v == 0, n: v >= 128, ..c.status };
            if c.data.mode == AddrType::Imp {
                (0u8, CpuView { a: v, status: st, ..c1 })
            } else {
                (0u8, spec_write1((CpuView { status: st, ..c1 }), c1.data.addr_abs, v))
            }
        }
}

/// The NOP execute step as a function.
pub open spec fn spec_step_nop(c: CpuView) -> (u8, CpuView) {
    (
            if c.data.opcode == 0x1C || c.data.opcode == 0x3C || c.data.opcode == 0x5C
                || c.data.opcode == 0x7C || c.data.opcode == 0xDC || c.data.opcode == 0xFC {
                1u8
            } else {
                0u8
            },
            c,
        )
}

/// The ORA execute step as a function.
pub open spec fn spec_step_ora(c: CpuView) -> (u8, CpuView) {
    {
            let (m, c1) = spec_fetch_operand(c);
            (1u8, CpuView { a: (c.a | m) as u8, status: spec_zn(c.status, (c.a | m) as u8), ..c1 })
        }
}

/// The PHA execute step as a function.
pub open spec fn spec_step_pha(c: CpuView) -> (u8, CpuView) {
    (0u8, spec_push(c, c.a))
}

/// The PHP execute step as a function.
pub open spec fn spec_step_php(c: CpuView) -> (u8, CpuView) {
    {
            let pushed = (CpuFlags { b: true, u: true, ..c.status }).spec_bits();
            let c1 = spec_push(c, pushed);
            (0u8, CpuView { status: CpuFlags { b: false, u: false, ..c.status }, ..c1 })
        }
}

/// The PLA execute step as a function.
pub open spec fn spec_step_pla(c: CpuView) -> (u8, CpuView) {
    {
            let (v, c1) = spec_pop(c);
            (0u8, CpuView { a: v, status: spec_zn(c.status, v), ..c1 })
        }
}

/// The PLP execute step as a function.
pub open spec fn spec_step_plp(c: CpuView) -> (u8, CpuView) {
    {
            let (v, c1) = spec_pop(c);
            (0u8, CpuView { status: CpuFlags { u: true, ..CpuFlags::spec_from_bits(v) }, ..c1 })
        }
}

/// The ROL execute step as a function.
pub open spec fn spec_step_rol(c: CpuView) -> (u8, CpuView) {
    {
            let (m, c1) = spec_fetch_operand(c);
            let wide = (m as int) * 2 + (if c.status.c {
                1int
            } else {
                0int
            });
            let v = (wide % 256) as u8;
            let st = CpuFlags { c: wide > 255, z: v == 0, n: v >= 128, ..c.status };
            if c.data.mode == AddrType::Imp {
                (0u8, CpuView { a: v, status: st, ..c1 })
            } else {
                (0u8, spec_write1((CpuView { status: st, ..c1 }), c1.data.addr_abs, v))
            }
        }
}

/// The ROR execute step as a function.
pub open spec fn spec_step_ror(c: CpuView) -> (u8, CpuView) {
    {
            let (m, c1) = spec_fetch_operand(c);
            let v = ((if c.status.c {
                128int
            } else {
                0int
            }) + (m as int) / 2) as u8;
            let st = CpuFlags { c: m % 2 == 1, z: v == 0, n: v >= 128, ..c.status };
            if c.data.mode == AddrType::Imp {
                (0u8, CpuView { a: v, status: st, ..c1 })
            } else {
                (0u8, spec_write1((CpuView { status: st, ..c1 }), c1.data.addr_abs, v))
            }
        }
}

/// The RTI execute step as a function.
pub open spec fn spec_step_rti(c: CpuView) -> (u8, CpuView) {
    {
            let (st, c1) = spec_pop(c);
            let (lo, c2) = spec_pop(c1);
            let (hi, c3) = spec_pop(c2);
            (
                0u8,
                CpuView {
                    status: CpuFlags { b: false, u: false, ..CpuFlags::spec_from_bits(st) },
                    pc: ((hi as u16) << 8) | (lo as u16),
                    ..c3
                },
            )
        }
}

/// The RTS execute step as a function.
pub open spec fn spec_step_rts(c: CpuView) -> (u8, CpuView) {
    {
            let (lo, c1) = spec_pop(c);
            let (hi, c2) = spec_pop(c1);
            (0u8, CpuView { pc: spec_inc16(((hi as u16) << 8) | (lo as u16)), ..c2 })
        }
}

/// The SBC execute step as a function.
pub open spec fn spec_step_sbc(c: CpuView) -> (u8, CpuView) {
    {
            let (m, c1) = spec_fetch_operand(c);
            let o = spec_sbc(c.a, m, c.status.c);
            (
                1u8,
                CpuView {
                    a: o.0,
                    status: CpuFlags { c: o.1, z: o.2, v: o.3, n: o.4, ..c.status },
                    ..c1
                },
            )
        }
}

/// The SEC execute step as a function.
pub open spec fn spec_step_sec(c: CpuView) -> (u8, CpuView) {
    (0u8, CpuView { status: CpuFlags { c: true, ..c.status }, ..c })
}

/// The SED execute step as a function.
pub open spec fn spec_step_sed(c: CpuView) -> (u8, CpuView) {
    (0u8, CpuView { status: CpuFlags { d: true, ..c.status }, ..c })
}

/// The SEI execute step as a function.
pub open spec fn spec_step_sei(c: CpuView) -> (u8, CpuView) {
    (0u8, CpuView { status: CpuFlags { i: true, ..c.status }, ..c })
}

/// The STA execute step as a function.
pub open spec fn spec_step_sta(c: CpuView) -> (u8, CpuView) {
    (0u8, spec_write1(c, c.data.addr_abs, c.a))
}

/// The STX execute step as a function.
pub open spec fn spec_step_stx(c: CpuView) -> (u8, CpuView) {
    (0u8, spec_write1(c, c.data.addr_abs, c.x))
}

/// The STY execute step as a function.
pub open spec fn spec_step_sty(c: CpuView) -> (u8, CpuView) {
    (0u8, spec_write1(c, c.data.addr_abs, c.y))
}

/// The TAX execute step as a function.
pub open spec fn spec_step_tax(c: CpuView) -> (u8, CpuView) {
    (
            0u8,
            CpuView { x: c.a, status: spec_zn(c.status, c.a), ..c },
        )
}

/// The TAY execute step as a function.
pub open spec fn spec_step_tay(c: CpuView) -> (u8, CpuView) {
    (
            0u8,
            CpuView { y: c.a, status: spec_zn(c.status, c.a), ..c },
        )
}

/// The TSX execute step as a function.
pub open spec fn spec_step_tsx(c: CpuView) -> (u8, CpuView) {
    (
            0u8,
            CpuView { x: c.stkp, status: spec_zn(c.status, c.stkp), ..c },
        )
}

/// The TXA execute step as a function.
pub open spec fn spec_step_txa(c: CpuView) -> (u8, CpuView) {
    (
            0u8,
            CpuView { a: c.x, status: spec_zn(c.status, c.x), ..c },
        )
}

/// The TXS execute step as a function.
pub open spec fn spec_step_txs(c: CpuView) -> (u8, CpuView) {
    (0u8, CpuView { stkp: c.x, ..c })
}

/// The TYA execute step as a function.
pub open spec fn spec_step_tya(c: CpuView) -> (u8, CpuView) {
    (
            0u8,
            CpuView { a: c.y, status: spec_zn(c.status, c.y), ..c },
        )
}

/// One CPU subcycle as a function. While an instruction is in flight
/// only its cycle counter falls. At a boundary the opcode under the
/// program counter is fetched, the unused flag is set, the addressing
/// and execute steps of the instruction run, and the pending count
/// becomes the base cycles, plus one extra cycle when both steps ask
/// for it, plus the extra cycles a taken branch recorded, minus the
/// one consumed by this call.
pub open spec fn spec_cpu_clock(c: CpuView) -> CpuView {
    if c.data.cycles > 0 {
        CpuView { data: CpuData { cycles: (c.data.cycles - 1) as u8, ..c.data }, ..c }
    } else {
        let (opcode, c1) = crate::cpu::spec_fetch_pc(c);
        let ins = spec_lookup(opcode);
        let c2 = CpuView {
            data: CpuData { opcode, mode: ins.addrmode, cycles: 0, ..c1.data },
            status: CpuFlags { u: true, ..c1.status },
            ..c1
        };
        let (e1, c3) = crate::addressing::spec_addrmode_step(c2, ins.addrmode);
        let (e2, c4) = spec_execute_step(c3, ins.execute);
        CpuView {
            data: CpuData {
                cycles: ((c4.data.cycles + ins.cycles + (e1 & e2)) - 1) as u8,
                ..c4.data
            },
            status: CpuFlags { u: true, ..c4.status },
            ..c4
        }
    }
}

/// The execute step as a function: the extra-cycle request and the
/// successor state of every instruction's execute phase.
pub open spec fn spec_execute_step(c: CpuView, op: Op) -> (u8, CpuView) {
    match op {
        Op::Adc => spec_step_adc(c),
        Op::And => spec_step_and(c),
        Op::Asl => spec_step_asl(c),
        Op::Bcc => spec_step_bcc(c),
        Op::Bcs => spec_step_bcs(c),
        Op::Beq => spec_step_beq(c),
        Op::Bit => spec_step_bit(c),
        Op::Bmi => spec_step_bmi(c),
        Op::Bne => spec_step_bne(c),
        Op::Bpl => spec_step_bpl(c),
        Op::Brk => spec_step_brk(c),
        Op::Bvc => spec_step_bvc(c),
        Op::Bvs => spec_step_bvs(c),
        Op::Clc => spec_step_clc(c),
        Op::Cld => spec_step_cld(c),
        Op::Cli => spec_step_cli(c),
        Op::Clv => spec_step_clv(c),
        Op::Cmp => spec_step_cmp(c),
        Op::Cpx => spec_step_cpx(c),
        Op::Cpy => spec_step_cpy(c),
        Op::Dec => spec_step_dec(c),
        Op::Dex => spec_step_dex(c),
        Op::Dey => spec_step_dey(c),
        Op::Eor => spec_step_eor(c),
        Op::Inc => spec_step_inc(c),
        Op::Inx => spec_step_inx(c),
        Op::Iny => spec_step_iny(c),
        Op::Jmp => spec_step_jmp(c),
        Op::Jsr => spec_step_jsr(c),
        Op::Lda => spec_step_lda(c),
        Op::Ldx => spec_step_ldx(c),
        Op::Ldy => spec_step_ldy(c),
        Op::Lsr => spec_step_lsr(c),
        Op::Nop => spec_step_nop(c),
        Op::Ora => spec_step_ora(c),
        Op::Pha => spec_step_pha(c),
        Op::Php => spec_step_php(c),
        Op::Pla => spec_step_pla(c),
        Op::Plp => spec_step_plp(c),
        Op::Rol => spec_step_rol(c),
        Op::Ror => spec_step_ror(c),
        Op::Rti => spec_step_rti(c),
        Op::Rts => spec_step_rts(c),
        Op::Sbc => spec_step_sbc(c),
        Op::Sec => spec_step_sec(c),
        Op::Sed => spec_step_sed(c),
        Op::Sei => spec_step_sei(c),
        Op::Sta => spec_step_sta(c),
        Op::Stx => spec_step_stx(c),
        Op::Sty => spec_step_sty(c),
        Op::Tax => spec_step_tax(c),
        Op::Tay => spec_step_tay(c),
        Op::Tsx => spec_step_tsx(c),
        Op::Txa => spec_step_txa(c),
        Op::Txs => spec_step_txs(c),
        Op::Tya => spec_step_tya(c),
    }
}

impl Cpu {
    /// Set the zero and negative flags from a result byte.
    fn set_zn(&mut self, v: u8)
        requires
            old(self).inv(),
        ensures
            final(self).inv(),
            crate::cpu::spec_ppu_timing_eq(final(self)@, old(self)@),
            final(self)@ == (CpuView { status: spec_zn(old(self)@.status, v), ..old(self)@ }),
    {
        self.status.z = v == 0;
        self.status.n = v >= 128;
    }

    /// Move the program counter to the branch target, charging the
    /// extra cycles of a taken branch.
    fn branch(&mut self)
        requires
            old(self).inv(),
            old(self)@.data.cycles <= 250,
        ensures
            final(self).inv(),
            crate::cpu::spec_ppu_timing_eq(final(self)@, old(self)@),
            final(self)@ == spec_branch(old(self)@),
    {
        self.data.cycles = self.data.cycles + 1;
        let target = crate::addressing::add16(self.pc, self.data.addr_rel);
        self.data.addr_abs = target;
        if (target & 0xFF00) != (self.pc & 0xFF00) {
            // crossing a page costs one more cycle
            self.data.cycles = self.data.cycles + 1;
        }
        self.pc = target;
    }

    /// Bitwise AND of the accumulator with the operand. Sets the zero and negative flags; may need an
    /// extra cycle.
    pub fn and(&mut self) -> (r: u8)
        requires
            old(self).inv(),
        ensures
            final(self).inv(),
            crate::cpu::spec_ppu_timing_eq(final(self)@, old(self)@),
            r == spec_step_and(old(self)@).0,
            final(self)@ == spec_step_and(old(self)@).1,
            ({
                let (m, c1) = spec_fetch_operand(old(self)@);
                final(self)@ == (CpuView {
                    a: (old(self)@.a & m) as u8,
                    status: spec_zn(old(self)@.status, (old(self)@.a & m) as u8),
                    ..c1
                })
            }),
            r == 1,
    {
        let m = self.fetch();
        let v: u8 = self.a & m;
        self.a = v;
        self.set_zn(v);
        1
    }
    /// Bitwise exclusive or of the accumulator with the operand. Sets the zero and negative flags; may need an
    /// extra cycle.
    pub fn eor(&mut self) -> (r: u8)
        requires
            old(self).inv(),
        ensures
            final(self).inv(),
            crate::cpu::spec_ppu_timing_eq(final(self)@, old(self)@),
            r == spec_step_eor(old(self)@).0,
            final(self)@ == spec_step_eor(old(self)@).1,
            ({
                let (m, c1) = spec_fetch_operand(old(self)@);
                final(self)@ == (CpuView {
                    a: (old(self)@.a ^ m) as u8,
                    status: spec_zn(old(self)@.status, (old(self)@.a ^ m) as u8),
                    ..c1
                })
            }),
            r == 1,
    {
        let m = self.fetch();
        let v: u8 = self.a ^ m;
        self.a = v;
        self.set_zn(v);
        1
    }
    /// Bitwise OR of the accumulator with the operand. Sets the zero and negative flags; may need an
    /// extra cycle.
    pub fn ora(&mut self) -> (r: u8)
        requires
            old(self).inv(),
        ensures
            final(self).inv(),
            crate::cpu::spec_ppu_timing_eq(final(self)@, old(self)@),
            r == spec_step_ora(old(self)@).0,
            final(self)@ == spec_step_ora(old(self)@).1,
            ({
                let (m, c1) = spec_fetch_operand(old(self)@);
                final(self)@ == (CpuView {
                    a: (old(self)@.a | m) as u8,
                    status: spec_zn(old(self)@.status, (old(self)@.a | m) as u8),
                    ..c1
                })
            }),
            r == 1,
    {
        let m = self.fetch();
        let v: u8 = self.a | m;
        self.a = v;
        self.set_zn(v);
        1
    }
    /// Load the accumulator from memory. Sets the zero and negative flags; may need an
    /// extra cycle.
    pub fn lda(&mut self) -> (r: u8)
        requires
            old(self).inv(),
        ensures
            final(self).inv(),
            crate::cpu::spec_ppu_timing_eq(final(self)@, old(self)@),
            r == spec_step_lda(old(self)@).0,
            final(self)@ == spec_step_lda(old(self)@).1,
            ({
                let (m, c1) = spec_fetch_operand(old(self)@);
                final(self)@ == (CpuView {
                    a: m,
                    status: spec_zn(old(self)@.status, m),
                    ..c1
                })
            }),
            r == 1,
    {
        let m = self.fetch();
        let v: u8 = m;
        self.a = v;
        self.set_zn(v);
        1
    }
    /// Load the X register from memory. Sets the zero and negative flags; may need an
    /// extra cycle.
    pub fn ldx(&mut self) -> (r: u8)
        requires
            old(self).inv(),
        ensures
            final(self).inv(),
            crate::cpu::spec_ppu_timing_eq(final(self)@, old(self)@),
            r == spec_step_ldx(old(self)@).0,
            final(self)@ == spec_step_ldx(old(self)@).1,
            ({
                let (m, c1) = spec_fetch_operand(old(self)@);
                final(self)@ == (CpuView {
                    x: m,
                    status: spec_zn(old(self)@.status, m),
                    ..c1
                })
            }),
            r == 1,
    {
        let m = self.fetch();
        let v: u8 = m;
        self.x = v;
        self.set_zn(v);
        1
    }
    /// Load the Y register from memory. Sets the zero and negative flags; may need an
    /// extra cycle.
    pub fn ldy(&mut self) -> (r: u8)
        requires
            old(self).inv(),
        ensures
            final(self).inv(),
            crate::cpu::spec_ppu_timing_eq(final(self)@, old(self)@),
            r == spec_step_ldy(old(self)@).0,
            final(self)@ == spec_step_ldy(old(self)@).1,
            ({
                let (m, c1) = spec_fetch_operand(old(self)@);
                final(self)@ == (CpuView {
                    y: m,
                    status: spec_zn(old(self)@.status, m),
                    ..c1
                })
            }),
            r == 1,
    {
        let m = self.fetch();
        let v: u8 = m;
        self.y = v;
        self.set_zn(v);
        1
    }
    /// Compare the accumulator with the operand: carry when the
    /// register is at least the operand, zero on equality, negative
    /// from the wrapped difference.
    pub fn cmp(&mut self) -> (r: u8)
        requires
            old(self).inv(),
        ensures
            final(self).inv(),
            crate::cpu::spec_ppu_timing_eq(final(self)@, old(self)@),
            r == spec_step_cmp(old(self)@).0,
            final(self)@ == spec_step_cmp(old(self)@).1,
            ({
                let (m, c1) = spec_fetch_operand(old(self)@);
                let o = spec_compare(old(self)@.a, m);
                final(self)@ == (CpuView {
                    status: (CpuFlags { c: o.0, z: o.1, n: o.2, ..old(self)@.status }),
                    ..c1
                })
            }),
            r == 1,
    {
        let m = self.fetch();
        let diff: u16 = ((self.a as u16) + 256 - (m as u16)) % 256;
        self.status.c = self.a >= m;
        self.status.z = diff == 0;
        self.status.n = diff >= 128;
        1
    }
    /// Compare the X register with the operand: carry when the
    /// register is at least the operand, zero on equality, negative
    /// from the wrapped difference.
    pub fn cpx(&mut self) -> (r: u8)
        requires
            old(self).inv(),
        ensures
            final(self).inv(),
            crate::cpu::spec_ppu_timing_eq(final(self)@, old(self)@),
            r == spec_step_cpx(old(self)@).0,
            final(self)@ == spec_step_cpx(old(self)@).1,
            ({
                let (m, c1) = spec_fetch_operand(old(self)@);
                let o = spec_compare(old(self)@.x, m);
                final(self)@ == (CpuView {
                    status: (CpuFlags { c: o.0, z: o.1, n: o.2, ..old(self)@.status }),
                    ..c1
                })
            }),
            r == 0,
    {
        let m = self.fetch();
        let diff: u16 = ((self.x as u16) + 256 - (m as u16)) % 256;
        self.status.c = self.x >= m;
        self.status.z = diff == 0;
        self.status.n = diff >= 128;
        0
    }
    /// Compare the Y register with the operand: carry when the
    /// register is at least the operand, zero on equality, negative
    /// from the wrapped difference.
    pub fn cpy(&mut self) -> (r: u8)
        requires
            old(self).inv(),
        ensures
            final(self).inv(),
            crate::cpu::spec_ppu_timing_eq(final(self)@, old(self)@),
            r == spec_step_cpy(old(self)@).0,
            final(self)@ == spec_step_cpy(old(self)@).1,
            ({
                let (m, c1) = spec_fetch_operand(old(self)@);
                let o = spec_compare(old(self)@.y, m);
                final(self)@ == (CpuView {
                    status: (CpuFlags { c: o.0, z: o.1, n: o.2, ..old(self)@.status }),
                    ..c1
                })
            }),
            r == 0,
    {
        let m = self.fetch();
        let diff: u16 = ((self.y as u16) + 256 - (m as u16)) % 256;
        self.status.c = self.y >= m;
        self.status.z = diff == 0;
        self.status.n = diff >= 128;
        0
    }
    /// Decrement the X register by one, wrapping; sets the zero and
    /// negative flags.
    pub fn dex(&mut self) -> (r: u8)
        requires
            old(self).inv(),
        ensures
            final(self).inv(),
            crate::cpu::spec_ppu_timing_eq(final(self)@, old(self)@),
            r == spec_step_dex(old(self)@).0,
            final(self)@ == spec_step_dex(old(self)@).1,
            final(self)@ == (CpuView {
                x: crate::cpu::spec_dec8(old(self)@.x),
                status: spec_zn(old(self)@.status, crate::cpu::spec_dec8(old(self)@.x)),
                ..old(self)@
            }),
            r == 0,
    {
        let v: u8 = if self.x == 0 { 255 } else { self.x - 1 };
        self.x = v;
        self.set_zn(v);
        0
    }
    /// Decrement the Y register by one, wrapping; sets the zero and
    /// negative flags.
    pub fn dey(&mut self) -> (r: u8)
        requires
            old(self).inv(),
        ensures
            final(self).inv(),
            crate::cpu::spec_ppu_timing_eq(final(self)@, old(self)@),
            r == spec_step_dey(old(self)@).0,
            final(self)@ == spec_step_dey(old(self)@).1,
            final(self)@ == (CpuView {
                y: crate::cpu::spec_dec8(old(self)@.y),
                status: spec_zn(old(self)@.status, crate::cpu::spec_dec8(old(self)@.y)),
                ..old(self)@
            }),
            r == 0,
    {
        let v: u8 = if self.y == 0 { 255 } else { self.y - 1 };
        self.y = v;
        self.set_zn(v);
        0
    }
    /// Increment the X register by one, wrapping; sets the zero and
    /// negative flags.
    pub fn inx(&mut self) -> (r: u8)
        requires
            old(self).inv(),
        ensures
            final(self).inv(),
            crate::cpu::spec_ppu_timing_eq(final(self)@, old(self)@),
            r == spec_step_inx(old(self)@).0,
            final(self)@ == spec_step_inx(old(self)@).1,
            final(self)@ == (CpuView {
                x: crate::cpu::spec_inc8(old(self)@.x),
                status: spec_zn(old(self)@.status, crate::cpu::spec_inc8(old(self)@.x)),
                ..old(self)@
            }),
            r == 0,
    {
        let v: u8 = if self.x == 0xFF { 0 } else { self.x + 1 };
        self.x = v;
        self.set_zn(v);
        0
    }
    /// Increment the Y register by one, wrapping; sets the zero and
    /// negative flags.
    pub fn iny(&mut self) -> (r: u8)
        requires
            old(self).inv(),
        ensures
            final(self).inv(),
            crate::cpu::spec_ppu_timing_eq(final(self)@, old(self)@),
            r == spec_step_iny(old(self)@).0,
            final(self)@ == spec_step_iny(old(self)@).1,
            final(self)@ == (CpuView {
                y: crate::cpu::spec_inc8(old(self)@.y),
                status: spec_zn(old(self)@.status, crate::cpu::spec_inc8(old(self)@.y)),
                ..old(self)@
            }),
            r == 0,
    {
        let v: u8 = if self.y == 0xFF { 0 } else { self.y + 1 };
        self.y = v;
        self.set_zn(v);
        0
    }
    /// Decrement the byte in memory by one, wrapping; sets the zero
    /// and negative flags.
    pub fn dec(&mut self) -> (r: u8)
        requires
            old(self).inv(),
        ensures
            final(self).inv(),
            crate::cpu::spec_ppu_timing_eq(final(self)@, old(self)@),
            r == spec_step_dec(old(self)@).0,
            final(self)@ == spec_step_dec(old(self)@).1,
            ({
                let (m, c1) = spec_fetch_operand(old(self)@);
                let v = crate::cpu::spec_dec8(m);
                final(self)@ == (CpuView {
                    status: spec_zn(old(self)@.status, v),
                    ..spec_write1(c1, c1.data.addr_abs, v)
                })
            }),
            r == 0,
    {
        let m = self.fetch();
        let v: u8 = if m == 0 { 255 } else { m - 1 };
        let addr = self.data.addr_abs;
        self.write(addr, v);
        self.set_zn(v);
        0
    }
    /// Increment the byte in memory by one, wrapping; sets the zero
    /// and negative flags.
    pub fn inc(&mut self) -> (r: u8)
        requires
            old(self).inv(),
        ensures
            final(self).inv(),
            crate::cpu::spec_ppu_timing_eq(final(self)@, old(self)@),
            r == spec_step_inc(old(self)@).0,
            final(self)@ == spec_step_inc(old(self)@).1,
            ({
                let (m, c1) = spec_fetch_operand(old(self)@);
                let v = crate::cpu::spec_inc8(m);
                final(self)@ == (CpuView {
                    status: spec_zn(old(self)@.status, v),
                    ..spec_write1(c1, c1.data.addr_abs, v)
                })
            }),
            r == 0,
    {
        let m = self.fetch();
        let v: u8 = if m == 0xFF { 0 } else { m + 1 };
        let addr = self.data.addr_abs;
        self.write(addr, v);
        self.set_zn(v);
        0
    }
    /// Branch when carry is clear.
    pub fn bcc(&mut self) -> (r: u8)
        requires
            old(self).inv(),
            old(self)@.data.cycles <= 250,
        ensures
            final(self).inv(),
            crate::cpu::spec_ppu_timing_eq(final(self)@, old(self)@),
            r == spec_step_bcc(old(self)@).0,
            final(self)@ == spec_step_bcc(old(self)@).1,
            (!old(self)@.status.c) ==> final(self)@ == spec_branch(old(self)@),
            !(!old(self)@.status.c) ==> final(self)@ == old(self)@,
            r == 0,
    {
        if !self.status.c {
            self.branch();
        }
        0
    }
    /// Branch when carry is set.
    pub fn bcs(&mut self) -> (r: u8)
        requires
            old(self).inv(),
            old(self)@.data.cycles <= 250,
        ensures
            final(self).inv(),
            crate::cpu::spec_ppu_timing_eq(final(self)@, old(self)@),
            r == spec_step_bcs(old(self)@).0,
            final(self)@ == spec_step_bcs(old(self)@).1,
            (old(self)@.status.c) ==> final(self)@ == spec_branch(old(self)@),
            !(old(self)@.status.c) ==> final(self)@ == old(self)@,
            r == 0,
    {
        if self.status.c {
            self.branch();
        }
        0
    }
    /// Branch when the zero flag is set.
    pub fn beq(&mut self) -> (r: u8)
        requires
            old(self).inv(),
            old(self)@.data.cycles <= 250,
        ensures
            final(self).inv(),
            crate::cpu::spec_ppu_timing_eq(final(self)@, old(self)@),
            r == spec_step_beq(old(self)@).0,
            final(self)@ == spec_step_beq(old(self)@).1,
            (old(self)@.status.z) ==> final(self)@ == spec_branch(old(self)@),
            !(old(self)@.status.z) ==> final(self)@ == old(self)@,
            r == 0,
    {
        if self.status.z {
            self.branch();
        }
        0
    }
    /// Branch when the zero flag is clear.
    pub fn bne(&mut self) -> (r: u8)
        requires
            old(self).inv(),
            old(self)@.data.cycles <= 250,
        ensures
            final(self).inv(),
            crate::cpu::spec_ppu_timing_eq(final(self)@, old(self)@),
            r == spec_step_bne(old(self)@).0,
            final(self)@ == spec_step_bne(old(self)@).1,
            (!old(self)@.status.z) ==> final(self)@ == spec_branch(old(self)@),
            !(!old(self)@.status.z) ==> final(self)@ == old(self)@,
            r == 0,
    {
        if !self.status.z {
            self.branch();
        }
        0
    }
    /// Branch when the negative flag is set.
    pub fn bmi(&mut self) -> (r: u8)
        requires
            old(self).inv(),
            old(self)@.data.cycles <= 250,
        ensures
            final(self).inv(),
            crate::cpu::spec_ppu_timing_eq(final(self)@, old(self)@),
            r == spec_step_bmi(old(self)@).0,
            final(self)@ == spec_step_bmi(old(self)@).1,
            (old(self)@.status.n) ==> final(self)@ == spec_branch(old(self)@),
            !(old(self)@.status.n) ==> final(self)@ == old(self)@,
            r == 0,
    {
        if self.status.n {
            self.branch();
        }
        0
    }
    /// Branch when the negative flag is clear.
    pub fn bpl(&mut self) -> (r: u8)
        requires
            old(self).inv(),
            old(self)@.data.cycles <= 250,
        ensures
            final(self).inv(),
            crate::cpu::spec_ppu_timing_eq(final(self)@, old(self)@),
            r == spec_step_bpl(old(self)@).0,
            final(self)@ == spec_step_bpl(old(self)@).1,
            (!old(self)@.status.n) ==> final(self)@ == spec_branch(old(self)@),
            !(!old(self)@.status.n) ==> final(self)@ == old(self)@,
            r == 0,
    {
        if !self.status.n {
            self.branch();
        }
        0
    }
    /// Branch when the overflow flag is clear.
    pub fn bvc(&mut self) -> (r: u8)
        requires
            old(self).inv(),
            old(self)@.data.cycles <= 250,
        ensures
            final(self).inv(),
            crate::cpu::spec_ppu_timing_eq(final(self)@, old(self)@),
            r == spec_step_bvc(old(self)@).0,
            final(self)@ == spec_step_bvc(old(self)@).1,
            (!old(self)@.status.v) ==> final(self)@ == spec_branch(old(self)@),
            !(!old(self)@.status.v) ==> final(self)@ == old(self)@,
            r == 0,
    {
        if !self.status.v {
            self.branch();
        }
        0
    }
    /// Branch when the overflow flag is set.
    pub fn bvs(&mut self) -> (r: u8)
        requires
            old(self).inv(),
            old(self)@.data.cycles <= 250,
        ensures
            final(self).inv(),
            crate::cpu::spec_ppu_timing_eq(final(self)@, old(self)@),
            r == spec_step_bvs(old(self)@).0,
            final(self)@ == spec_step_bvs(old(self)@).1,
            (old(self)@.status.v) ==> final(self)@ == spec_branch(old(self)@),
            !(old(self)@.status.v) ==> final(self)@ == old(self)@,
            r == 0,
    {
        if self.status.v {
            self.branch();
        }
        0
    }
    /// Clear the carry flag.
    pub fn clc(&mut self) -> (r: u8)
        requires
            old(self).inv(),
        ensures
            final(self).inv(),
            crate::cpu::spec_ppu_timing_eq(final(self)@, old(self)@),
            r == spec_step_clc(old(self)@).0,
            final(self)@ == spec_step_clc(old(self)@).1,
            final(self)@ == (CpuView {
                status: (CpuFlags { c: false, ..old(self)@.status }),
                ..old(self)@
            }),
            r == 0,
    {
        self.status.c = false;
        0
    }
    /// Clear the decimal-mode flag.
    pub fn cld(&mut self) -> (r: u8)
        requires
            old(self).inv(),
        ensures
            final(self).inv(),
            crate::cpu::spec_ppu_timing_eq(final(self)@, old(self)@),
            r == spec_step_cld(old(self)@).0,
            final(self)@ == spec_step_cld(old(self)@).1,
            final(self)@ == (CpuView {
                status: (CpuFlags { d: false, ..old(self)@.status }),
                ..old(self)@
            }),
            r == 0,
    {
        self.status.d = false;
        0
    }
    /// Clear the interrupt-disable flag.
    pub fn cli(&mut self) -> (r: u8)
        requires
            old(self).inv(),
        ensures
            final(self).inv(),
            crate::cpu::spec_ppu_timing_eq(final(self)@, old(self)@),
            r == spec_step_cli(old(self)@).0,
            final(self)@ == spec_step_cli(old(self)@).1,
            final(self)@ == (CpuView {
                status: (CpuFlags { i: false, ..old(self)@.status }),
                ..old(self)@
            }),
            r == 0,
    {
        self.status.i = false;
        0
    }
    /// Clear the overflow flag.
    pub fn clv(&mut self) -> (r: u8)
        requires
            old(self).inv(),
        ensures
            final(self).inv(),
            crate::cpu::spec_ppu_timing_eq(final(self)@, old(self)@),
            r == spec_step_clv(old(self)@).0,
            final(self)@ == spec_step_clv(old(self)@).1,
            final(self)@ == (CpuView {
                status: (CpuFlags { v: false, ..old(self)@.status }),
                ..old(self)@
            }),
            r == 0,
    {
        self.status.v = false;
        0
    }
    /// Set the carry flag.
    pub fn sec(&mut self) -> (r: u8)
        requires
            old(self).inv(),
        ensures
            final(self).inv(),
            crate::cpu::spec_ppu_timing_eq(final(self)@, old(self)@),
            r == spec_step_sec(old(self)@).0,
            final(self)@ == spec_step_sec(old(self)@).1,
            final(self)@ == (CpuView {
                status: (CpuFlags { c: true, ..old(self)@.status }),
                ..old(self)@
            }),
            r == 0,
    {
        self.status.c = true;
        0
    }
    /// Set the decimal-mode flag.
    pub fn sed(&mut self) -> (r: u8)
        requires
            old(self).inv(),
        ensures
            final(self).inv(),
            crate::cpu::spec_ppu_timing_eq(final(self)@, old(self)@),
            r == spec_step_sed(old(self)@).0,
            final(self)@ == spec_step_sed(old(self)@).1,
            final(self)@ == (CpuView {
                status: (CpuFlags { d: true, ..old(self)@.status }),
                ..old(self)@
            }),
            r == 0,
    {
        self.status.d = true;
        0
    }
    /// Set the interrupt-disable flag.
    pub fn sei(&mut self) -> (r: u8)
        requires
            old(self).inv(),
        ensures
            final(self).inv(),
            crate::cpu::spec_ppu_timing_eq(final(self)@, old(self)@),
            r == spec_step_sei(old(self)@).0,
            final(self)@ == spec_step_sei(old(self)@).1,
            final(self)@ == (CpuView {
                status: (CpuFlags { i: true, ..old(self)@.status }),
                ..old(self)@
            }),
            r == 0,
    {
        self.status.i = true;
        0
    }
    /// Store the accumulator to memory.
    pub fn sta(&mut self) -> (r: u8)
        requires
            old(self).inv(),
        ensures
            final(self).inv(),
            crate::cpu::spec_ppu_timing_eq(final(self)@, old(self)@),
            r == spec_step_sta(old(self)@).0,
            final(self)@ == spec_step_sta(old(self)@).1,
            final(self)@ == spec_write1(old(self)@, old(self)@.data.addr_abs, old(self)@.a),
            r == 0,
    {
        let addr = self.data.addr_abs;
        let v = self.a;
        self.write(addr, v);
        0
    }
    /// Store the X register to memory.
    pub fn stx(&mut self) -> (r: u8)
        requires
            old(self).inv(),
        ensures
            final(self).inv(),
            crate::cpu::spec_ppu_timing_eq(final(self)@, old(self)@),
            r == spec_step_stx(old(self)@).0,
            final(self)@ == spec_step_stx(old(self)@).1,
            final(self)@ == spec_write1(old(self)@, old(self)@.data.addr_abs, old(self)@.x),
            r == 0,
    {
        let addr = self.data.addr_abs;
        let v = self.x;
        self.write(addr, v);
        0
    }
    /// Store the Y register to memory.
    pub fn sty(&mut self) -> (r: u8)
        requires
            old(self).inv(),
        ensures
            final(self).inv(),
            crate::cpu::spec_ppu_timing_eq(final(self)@, old(self)@),
            r == spec_step_sty(old(self)@).0,
            final(self)@ == spec_step_sty(old(self)@).1,
            final(self)@ == spec_write1(old(self)@, old(self)@.data.addr_abs, old(self)@.y),
            r == 0,
    {
        let addr = self.data.addr_abs;
        let v = self.y;
        self.write(addr, v);
        0
    }
    /// Transfer the accumulator to the X register; sets the zero and negative flags.
    pub fn tax(&mut self) -> (r: u8)
        requires
            old(self).inv(),
        ensures
            final(self).inv(),
            crate::cpu::spec_ppu_timing_eq(final(self)@, old(self)@),
            r == spec_step_tax(old(self)@).0,
            final(self)@ == spec_step_tax(old(self)@).1,
            final(self)@ == (CpuView {
                x: old(self)@.a,
                status: spec_zn(old(self)@.status, old(self)@.a),
                ..old(self)@
            }),
            r == 0,
    {
        let v = self.a;
        self.x = v;
        self.set_zn(v);
        0
    }
    /// Transfer the accumulator to the Y register; sets the zero and negative flags.
    pub fn tay(&mut self) -> (r: u8)
        requires
            old(self).inv(),
        ensures
            final(self).inv(),
            crate::cpu::spec_ppu_timing_eq(final(self)@, old(self)@),
            r == spec_step_tay(old(self)@).0,
            final(self)@ == spec_step_tay(old(self)@).1,
            final(self)@ == (CpuView {
                y: old(self)@.a,
                status: spec_zn(old(self)@.status, old(self)@.a),
                ..old(self)@
            }),
            r == 0,
    {
        let v = self.a;
        self.y = v;
        self.set_zn(v);
        0
    }
    /// Transfer the stack pointer to the X register; sets the zero and negative flags.
    pub fn tsx(&mut self) -> (r: u8)
        requires
            old(self).inv(),
        ensures
            final(self).inv(),
            crate::cpu::spec_ppu_timing_eq(final(self)@, old(self)@),
            r == spec_step_tsx(old(self)@).0,
            final(self)@ == spec_step_tsx(old(self)@).1,
            final(self)@ == (CpuView {
                x: old(self)@.stkp,
                status: spec_zn(old(self)@.status, old(self)@.stkp),
                ..old(self)@
            }),
            r == 0,
    {
        let v = self.stkp;
        self.x = v;
        self.set_zn(v);
        0
    }
    /// Transfer the X register to the accumulator; sets the zero and negative flags.
    pub fn txa(&mut self) -> (r: u8)
        requires
            old(self).inv(),
        ensures
            final(self).inv(),
            crate::cpu::spec_ppu_timing_eq(final(self)@, old(self)@),
            r == spec_step_txa(old(self)@).0,
            final(self)@ == spec_step_txa(old(self)@).1,
            final(self)@ == (CpuView {
                a: old(self)@.x,
                status: spec_zn(old(self)@.status, old(self)@.x),
                ..old(self)@
            }),
            r == 0,
    {
        let v = self.x;
        self.a = v;
        self.set_zn(v);
        0
    }
    /// Transfer the Y register to the accumulator; sets the zero and negative flags.
    pub fn tya(&mut self) -> (r: u8)
        requires
            old(self).inv(),
        ensures
            final(self).inv(),
            crate::cpu::spec_ppu_timing_eq(final(self)@, old(self)@),
            r == spec_step_tya(old(self)@).0,
            final(self)@ == spec_step_tya(old(self)@).1,
            final(self)@ == (CpuView {
                a: old(self)@.y,
                status: spec_zn(old(self)@.status, old(self)@.y),
                ..old(self)@
            }),
            r == 0,
    {
        let v = self.y;
        self.a = v;
        self.set_zn(v);
        0
    }
    /// Transfer the X register to the stack pointer; no flags change.
    pub fn txs(&mut self) -> (r: u8)
        requires
            old(self).inv(),
        ensures
            final(self).inv(),
            crate::cpu::spec_ppu_timing_eq(final(self)@, old(self)@),
            r == spec_step_txs(old(self)@).0,
            final(self)@ == spec_step_txs(old(self)@).1,
            final(self)@ == (CpuView { stkp: old(self)@.x, ..old(self)@ }),
            r == 0,
    {
        self.stkp = self.x;
        0
    }

    /// Add the operand and the carry bit to the accumulator; sets all
    /// four arithmetic flags. May need an extra cycle.
    pub fn adc(&mut self) -> (r: u8)
        requires
            old(self).inv(),
        ensures
            final(self).inv(),
            crate::cpu::spec_ppu_timing_eq(final(self)@, old(self)@),
            r == spec_step_adc(old(self)@).0,
            final(self)@ == spec_step_adc(old(self)@).1,
            ({
                let (m, c1) = spec_fetch_operand(old(self)@);
                let o = spec_adc(old(self)@.a, m, old(self)@.status.c);
                final(self)@ == (CpuView {
                    a: o.0,
                    status: (CpuFlags { c: o.1, z: o.2, v: o.3, n: o.4, ..old(self)@.status }),
                    ..c1
                })
            }),
            r == 1,
    {
        let m = self.fetch();
        let c01: u16 = if self.status.c {
            1
        } else {
            0
        };
        let sum: u16 = (self.a as u16) + (m as u16) + c01;
        self.status.c = sum > 0xFF;
        let r8: u8 = (sum % 256) as u8;
        self.status.z = r8 == 0;
        self.status.n = r8 >= 128;
        let acc_pos = self.a < 128;
        let mem_pos = m < 128;
        let res_pos = r8 < 128;
        self.status.v = (acc_pos && mem_pos && !res_pos) || (!acc_pos && !mem_pos && res_pos);
        self.a = r8;
        1
    }

    /// Subtract the operand and the borrow from the accumulator: the
    /// same operation as adding the complemented operand with carry.
    /// May need an extra cycle.
    pub fn sbc(&mut self) -> (r: u8)
        requires
            old(self).inv(),
        ensures
            final(self).inv(),
            crate::cpu::spec_ppu_timing_eq(final(self)@, old(self)@),
            r == spec_step_sbc(old(self)@).0,
            final(self)@ == spec_step_sbc(old(self)@).1,
            ({
                let (m, c1) = spec_fetch_operand(old(self)@);
                let o = spec_sbc(old(self)@.a, m, old(self)@.status.c);
                final(self)@ == (CpuView {
                    a: o.0,
                    status: (CpuFlags { c: o.1, z: o.2, v: o.3, n: o.4, ..old(self)@.status }),
                    ..c1
                })
            }),
            r == 1,
    {
        let m = self.fetch();
        // A - M - (1 - C) is A + !M + C in two's complement
        let value: u8 = !m;
        proof {
            crate::util::lemma_u8_not_is_sub(m);
        }
        let c01: u16 = if self.status.c {
            1
        } else {
            0
        };
        let sum: u16 = (self.a as u16) + (value as u16) + c01;
        self.status.c = sum > 0xFF;
        let r8: u8 = (sum % 256) as u8;
        self.status.z = r8 == 0;
        self.status.n = r8 >= 128;
        let acc_pos = self.a < 128;
        let mem_pos = value < 128;
        let res_pos = r8 < 128;
        self.status.v = (acc_pos && mem_pos && !res_pos) || (!acc_pos && !mem_pos && res_pos);
        self.a = r8;
        1
    }

    /// Test bits: zero from the masked accumulator, negative and
    /// overflow from the operand's top bits.
    #[verifier::rlimit(100)]
    #[verifier::spinoff_prover]
    pub fn bit(&mut self) -> (r: u8)
        requires
            old(self).inv(),
        ensures
            final(self).inv(),
            crate::cpu::spec_ppu_timing_eq(final(self)@, old(self)@),
            r == spec_step_bit(old(self)@).0,
            final(self)@ == spec_step_bit(old(self)@).1,
            ({
                let (m, c1) = spec_fetch_operand(old(self)@);
                final(self)@ == (CpuView {
                    status: (CpuFlags {
                        z: (old(self)@.a & m) == 0,
                        n: m >= 128,
                        v: (m & 0x40) != 0,
                        ..old(self)@.status
                    }),
                    ..c1
                })
            }),
            r == 0,
    {
        let m = self.fetch();
        self.status.z = (self.a & m) == 0;
        self.status.n = m >= 128;
        self.status.v = (m & 0x40) != 0;
        0
    }

    /// Shift the operand left one bit, through memory or the
    /// accumulator under implied addressing; the lost bit enters carry.
    pub fn asl(&mut self) -> (r: u8)
        requires
            old(self).inv(),
        ensures
            final(self).inv(),
            crate::cpu::spec_ppu_timing_eq(final(self)@, old(self)@),
            r == spec_step_asl(old(self)@).0,
            final(self)@ == spec_step_asl(old(self)@).1,
            ({
                let (m, c1) = spec_fetch_operand(old(self)@);
                let v = (((m as int) * 2) % 256) as u8;
                let st = CpuFlags { c: m >= 128, z: v == 0, n: v >= 128, ..old(self)@.status };
                if old(self)@.data.mode == AddrType::Imp {
                    final(self)@ == (CpuView { a: v, status: st, ..c1 })
                } else {
                    final(self)@ == spec_write1(
                        (CpuView { status: st, ..c1 }),
                        c1.data.addr_abs,
                        v,
                    )
                }
            }),
            r == 0,
    {
        let m = self.fetch();
        let wide: u16 = (m as u16) * 2;
        self.status.c = m >= 128;
        let v: u8 = (wide % 256) as u8;
        self.status.z = v == 0;
        self.status.n = v >= 128;
        if matches!(self.data.mode, AddrType::Imp) {
            self.a = v;
        } else {
            let addr = self.data.addr_abs;
            self.write(addr, v);
        }
        0
    }

    /// Shift the operand right one bit, through memory or the
    /// accumulator under implied addressing; the lost bit enters carry.
    pub fn lsr(&mut self) -> (r: u8)
        requires
            old(self).inv(),
        ensures
            final(self).inv(),
            crate::cpu::spec_ppu_timing_eq(final(self)@, old(self)@),
            r == spec_step_lsr(old(self)@).0,
            final(self)@ == spec_step_lsr(old(self)@).1,
            ({
                let (m, c1) = spec_fetch_operand(old(self)@);
                let v = (m / 2) as u8;
                let st = CpuFlags { c: m % 2 == 1, z: v == 0, n: v >= 128, ..old(self)@.status };
                if old(self)@.data.mode == AddrType::Imp {
                    final(self)@ == (CpuView { a: v, status: st, ..c1 })
                } else {
                    final(self)@ == spec_write1(
                        (CpuView { status: st, ..c1 }),
                        c1.data.addr_abs,
                        v,
                    )
                }
            }),
            r == 0,
    {
        let m = self.fetch();
        self.status.c = m % 2 == 1;
        let v: u8 = m / 2;
        self.status.z = v == 0;
        self.status.n = v >= 128;
        if matches!(self.data.mode, AddrType::Imp) {
            self.a = v;
        } else {
            let addr = self.data.addr_abs;
            self.write(addr, v);
        }
        0
    }

    /// Rotate the operand left one bit: carry enters bit 0 and the old
    /// bit 7 becomes the carry.
    pub fn rol(&mut self) -> (r: u8)
        requires
            old(self).inv(),
        ensures
            final(self).inv(),
            crate::cpu::spec_ppu_timing_eq(final(self)@, old(self)@),
            r == spec_step_rol(old(self)@).0,
            final(self)@ == spec_step_rol(old(self)@).1,
            ({
                let (m, c1) = spec_fetch_operand(old(self)@);
                let wide = (m as int) * 2 + (if old(self)@.status.c {
                    1int
                } else {
                    0int
                });
                let v = (wide % 256) as u8;
                let st = CpuFlags { c: wide > 255, z: v == 0, n: v >= 128, ..old(self)@.status };
                if old(self)@.data.mode == AddrType::Imp {
                    final(self)@ == (CpuView { a: v, status: st, ..c1 })
                } else {
                    final(self)@ == spec_write1(
                        (CpuView { status: st, ..c1 }),
                        c1.data.addr_abs,
                        v,
                    )
                }
            }),
            r == 0,
    {
        let m = self.fetch();
        let carry: u16 = if self.status.c {
            1
        } else {
            0
        };
        let wide: u16 = (m as u16) * 2 + carry;
        self.status.c = wide > 0xFF;
        let v: u8 = (wide % 256) as u8;
        self.status.z = v == 0;
        self.status.n = v >= 128;
        if matches!(self.data.mode, AddrType::Imp) {
            self.a = v;
        } else {
            let addr = self.data.addr_abs;
            self.write(addr, v);
        }
        0
    }

    /// Rotate the operand right one bit: carry enters bit 7 and the
    /// old bit 0 becomes the carry.
    pub fn ror(&mut self) -> (r: u8)
        requires
            old(self).inv(),
        ensures
            final(self).inv(),
            crate::cpu::spec_ppu_timing_eq(final(self)@, old(self)@),
            r == spec_step_ror(old(self)@).0,
            final(self)@ == spec_step_ror(old(self)@).1,
            ({
                let (m, c1) = spec_fetch_operand(old(self)@);
                let v = ((if old(self)@.status.c {
                    128int
                } else {
                    0int
                }) + (m as int) / 2) as u8;
                let st = CpuFlags { c: m % 2 == 1, z: v == 0, n: v >= 128, ..old(self)@.status };
                if old(self)@.data.mode == AddrType::Imp {
                    final(self)@ == (CpuView { a: v, status: st, ..c1 })
                } else {
                    final(self)@ == spec_write1(
                        (CpuView { status: st, ..c1 }),
                        c1.data.addr_abs,
                        v,
                    )
                }
            }),
            r == 0,
    {
        let m = self.fetch();
        let carry: u8 = if self.status.c {
            128
        } else {
            0
        };
        let v: u8 = carry + m / 2;
        self.status.c = m % 2 == 1;
        self.status.z = v == 0;
        self.status.n = v >= 128;
        if matches!(self.data.mode, AddrType::Imp) {
            self.a = v;
        } else {
            let addr = self.data.addr_abs;
            self.write(addr, v);
        }
        0
    }

    /// Jump to the resolved absolute address.
    pub fn jmp(&mut self) -> (r: u8)
        requires
            old(self).inv(),
        ensures
            final(self).inv(),
            crate::cpu::spec_ppu_timing_eq(final(self)@, old(self)@),
            r == spec_step_jmp(old(self)@).0,
            final(self)@ == spec_step_jmp(old(self)@).1,
            final(self)@ == (CpuView { pc: old(self)@.data.addr_abs, ..old(self)@ }),
            r == 0,
    {
        self.pc = self.data.addr_abs;
        0
    }

    /// Jump to a subroutine: the address of the last byte of this
    /// instruction goes onto the stack, then the jump is taken.
    pub fn jsr(&mut self) -> (r: u8)
        requires
            old(self).inv(),
        ensures
            final(self).inv(),
            crate::cpu::spec_ppu_timing_eq(final(self)@, old(self)@),
            r == spec_step_jsr(old(self)@).0,
            final(self)@ == spec_step_jsr(old(self)@).1,
            ({
                let ret = spec_dec16(old(self)@.pc);
                let c1 = spec_push(
                    (CpuView { pc: ret, ..old(self)@ }),
                    ((ret >> 8) & 0x00FF) as u8,
                );
                let c2 = spec_push(c1, (ret & 0x00FF) as u8);
                final(self)@ == (CpuView { pc: old(self)@.data.addr_abs, ..c2 })
            }),
            r == 0,
    {
        self.pc = if self.pc == 0 {
            0xFFFF
        } else {
            self.pc - 1
        };
        let pch: u8 = ((self.pc >> 8) & 0x00FF) as u8;
        let pcl: u8 = (self.pc & 0x00FF) as u8;
        self.stack_push(pch);
        self.stack_push(pcl);
        self.pc = self.data.addr_abs;
        0
    }

    /// Return from a subroutine: pull the return address and continue
    /// one byte past it.
    pub fn rts(&mut self) -> (r: u8)
        requires
            old(self).inv(),
        ensures
            final(self).inv(),
            crate::cpu::spec_ppu_timing_eq(final(self)@, old(self)@),
            r == spec_step_rts(old(self)@).0,
            final(self)@ == spec_step_rts(old(self)@).1,
            ({
                let (lo, c1) = spec_pop(old(self)@);
                let (hi, c2) = spec_pop(c1);
                final(self)@ == (CpuView {
                    pc: spec_inc16(((hi as u16) << 8) | (lo as u16)),
                    ..c2
                })
            }),
            r == 0,
    {
        let lo = self.stack_pop();
        let hi = self.stack_pop();
        let addr: u16 = ((hi as u16) << 8) | (lo as u16);
        self.pc = if addr == 0xFFFF {
            0
        } else {
            addr + 1
        };
        0
    }

    /// Return from an interrupt: pull the status byte (break and
    /// unused cleared) and the return address.
    pub fn rti(&mut self) -> (r: u8)
        requires
            old(self).inv(),
        ensures
            final(self).inv(),
            crate::cpu::spec_ppu_timing_eq(final(self)@, old(self)@),
            r == spec_step_rti(old(self)@).0,
            final(self)@ == spec_step_rti(old(self)@).1,
            ({
                let (st, c1) = spec_pop(old(self)@);
                let (lo, c2) = spec_pop(c1);
                let (hi, c3) = spec_pop(c2);
                final(self)@ == (CpuView {
                    status: (CpuFlags { b: false, u: false, ..CpuFlags::spec_from_bits(st) }),
                    pc: ((hi as u16) << 8) | (lo as u16),
                    ..c3
                })
            }),
            r == 0,
    {
        let st = self.stack_pop();
        self.status = CpuFlags::from_bits_truncate(st);
        self.status.b = false;
        self.status.u = false;
        let lo = self.stack_pop();
        let hi = self.stack_pop();
        self.pc = ((hi as u16) << 8) | (lo as u16);
        0
    }

    /// Push the accumulator onto the stack.
    pub fn pha(&mut self) -> (r: u8)
        requires
            old(self).inv(),
        ensures
            final(self).inv(),
            crate::cpu::spec_ppu_timing_eq(final(self)@, old(self)@),
            r == spec_step_pha(old(self)@).0,
            final(self)@ == spec_step_pha(old(self)@).1,
            final(self)@ == spec_push(old(self)@, old(self)@.a),
            r == 0,
    {
        let v = self.a;
        self.stack_push(v);
        0
    }

    /// Push the status register with break and unused observed as set,
    /// then clear both live flags.
    pub fn php(&mut self) -> (r: u8)
        requires
            old(self).inv(),
        ensures
            final(self).inv(),
            crate::cpu::spec_ppu_timing_eq(final(self)@, old(self)@),
            r == spec_step_php(old(self)@).0,
            final(self)@ == spec_step_php(old(self)@).1,
            ({
                let pushed = (CpuFlags { b: true, u: true, ..old(self)@.status }).spec_bits();
                let c1 = spec_push(old(self)@, pushed);
                final(self)@ == (CpuView {
                    status: (CpuFlags { b: false, u: false, ..old(self)@.status }),
                    ..c1
                })
            }),
            r == 0,
    {
        let mut st = self.status;
        st.b = true;
        st.u = true;
        let bits = st.bits();
        self.stack_push(bits);
        self.status.b = false;
        self.status.u = false;
        0
    }

    /// Pull the accumulator off the stack; sets the zero and negative
    /// flags.
    pub fn pla(&mut self) -> (r: u8)
        requires
            old(self).inv(),
        ensures
            final(self).inv(),
            crate::cpu::spec_ppu_timing_eq(final(self)@, old(self)@),
            r == spec_step_pla(old(self)@).0,
            final(self)@ == spec_step_pla(old(self)@).1,
            ({
                let (v, c1) = spec_pop(old(self)@);
                final(self)@ == (CpuView {
                    a: v,
                    status: spec_zn(old(self)@.status, v),
                    ..c1
                })
            }),
            r == 0,
    {
        let v = self.stack_pop();
        self.a = v;
        self.set_zn(v);
        0
    }

    /// Pull the status register off the stack; the unused flag is
    /// forced on.
    pub fn plp(&mut self) -> (r: u8)
        requires
            old(self).inv(),
        ensures
            final(self).inv(),
            crate::cpu::spec_ppu_timing_eq(final(self)@, old(self)@),
            r == spec_step_plp(old(self)@).0,
            final(self)@ == spec_step_plp(old(self)@).1,
            ({
                let (v, c1) = spec_pop(old(self)@);
                final(self)@ == (CpuView {
                    status: (CpuFlags { u: true, ..CpuFlags::spec_from_bits(v) }),
                    ..c1
                })
            }),
            r == 0,
    {
        let v = self.stack_pop();
        self.status = CpuFlags::from_bits_truncate(v);
        self.status.u = true;
        0
    }

    /// Force an interrupt: push the incremented program counter, then
    /// the status byte with break and unused set — the pushed byte
    /// keeps the interrupt-disable bit the program was running with —
    /// clear break, jump through the vector at 0xFFFE, and only then
    /// disable interrupts.
    #[verifier::rlimit(100)]
    #[verifier::spinoff_prover]
    pub fn brk(&mut self) -> (r: u8)
        requires
            old(self).inv(),
        ensures
            final(self).inv(),
            crate::cpu::spec_ppu_timing_eq(final(self)@, old(self)@),
            r == spec_step_brk(old(self)@).0,
            final(self)@ == spec_step_brk(old(self)@).1,
            ({
                let pc1 = spec_inc16(old(self)@.pc);
                let c0 = CpuView { pc: pc1, ..old(self)@ };
                let c1 = spec_push(c0, ((pc1 >> 8) & 0x00FF) as u8);
                let c2 = spec_push(c1, (pc1 & 0x00FF) as u8);
                let stb = CpuFlags { b: true, u: true, ..old(self)@.status };
                let c3 = spec_push((CpuView { status: stb, ..c2 }), stb.spec_bits());
                let c4 = CpuView { status: (CpuFlags { b: false, ..stb }), ..c3 };
                let (lo, c5) = spec_read1(c4, 0xFFFE);
                let (hi, c6) = spec_read1(c5, 0xFFFF);
                final(self)@ == (CpuView {
                    pc: ((hi as u16) << 8) | (lo as u16),
                    status: (CpuFlags { i: true, b: false, ..stb }),
                    ..c6
                })
            }),
            r == 0,
    {
        self.pc = if self.pc == 0xFFFF {
            0
        } else {
            self.pc + 1
        };
        let pch: u8 = ((self.pc >> 8) & 0x00FF) as u8;
        let pcl: u8 = (self.pc & 0x00FF) as u8;
        self.stack_push(pch);
        self.stack_push(pcl);
        self.status.b = true;
        self.status.u = true;
        let bits = self.status.bits();
        self.stack_push(bits);
        self.status.b = false;
        let lo = self.read(0xFFFE);
        let hi = self.read(0xFFFF);
        self.pc = ((hi as u16) << 8) | (lo as u16);
        self.status.i = true;
        0
    }

    /// No operation; a handful of undocumented opcodes may ask for an
    /// extra cycle.
    pub fn nop(&mut self) -> (r: u8)
        requires
            old(self).inv(),
        ensures
            final(self).inv(),
            crate::cpu::spec_ppu_timing_eq(final(self)@, old(self)@),
            r == spec_step_nop(old(self)@).0,
            final(self)@ == spec_step_nop(old(self)@).1,
            final(self)@ == old(self)@,
            r == (if old(self)@.data.opcode == 0x1C || old(self)@.data.opcode == 0x3C || old(
                self,
            )@.data.opcode == 0x5C || old(self)@.data.opcode == 0x7C || old(self)@.data.opcode
                == 0xDC || old(self)@.data.opcode == 0xFC {
                1u8
            } else {
                0u8
            }),
    {
        match self.data.opcode {
            0x1C => 1,
            0x3C => 1,
            0x5C => 1,
            0x7C => 1,
            0xDC => 1,
            0xFC => 1,
            _ => 0,
        }
    }

    /// Catch-all for undocumented opcodes without an effect.
    pub fn xxx(&mut self) -> (r: u8)
        requires
            old(self).inv(),
        ensures
            final(self).inv(),
            crate::cpu::spec_ppu_timing_eq(final(self)@, old(self)@),
            final(self)@ == old(self)@,
            r == 0,
    {
        0
    }

    /// Dispatch on an execute-step tag.
    #[verifier::rlimit(100)]
    #[verifier::spinoff_prover]
    pub fn run_execute(&mut self, op: Op) -> (r: u8)
        requires
            old(self).inv(),
            old(self)@.data.cycles <= 250,
        ensures
            final(self).inv(),
            crate::cpu::spec_ppu_timing_eq(final(self)@, old(self)@),
            r == 0 || r == 1,
            final(self)@.data.cycles <= old(self)@.data.cycles + 2,
            final(self)@.data.opcode == old(self)@.data.opcode,
            final(self)@.data.mode == old(self)@.data.mode,
            r == spec_execute_step(old(self)@, op).0,
            final(self)@ == spec_execute_step(old(self)@, op).1,
    {
        match op {
            Op::Adc => self.adc(),
            Op::And => self.and(),
            Op::Asl => self.asl(),
            Op::Bcc => self.bcc(),
            Op::Bcs => self.bcs(),
            Op::Beq => self.beq(),
            Op::Bit => self.bit(),
            Op::Bmi => self.bmi(),
            Op::Bne => self.bne(),
            Op::Bpl => self.bpl(),
            Op::Brk => self.brk(),
            Op::Bvc => self.bvc(),
            Op::Bvs => self.bvs(),
            Op::Clc => self.clc(),
            Op::Cld => self.cld(),
            Op::Cli => self.cli(),
            Op::Clv => self.clv(),
            Op::Cmp => self.cmp(),
            Op::Cpx => self.cpx(),
            Op::Cpy => self.cpy(),
            Op::Dec => self.dec(),
            Op::Dex => self.dex(),
            Op::Dey => self.dey(),
            Op::Eor => self.eor(),
            Op::Inc => self.inc(),
            Op::Inx => self.inx(),
            Op::Iny => self.iny(),
            Op::Jmp => self.jmp(),
            Op::Jsr => self.jsr(),
            Op::Lda => self.lda(),
            Op::Ldx => self.ldx(),
            Op::Ldy => self.ldy(),
            Op::Lsr => self.lsr(),
            Op::Nop => self.nop(),
            Op::Ora => self.ora(),
            Op::Pha => self.pha(),
            Op::Php => self.php(),
            Op::Pla => self.pla(),
            Op::Plp => self.plp(),
            Op::Rol => self.rol(),
            Op::Ror => self.ror(),
            Op::Rti => self.rti(),
            Op::Rts => self.rts(),
            Op::Sbc => self.sbc(),
            Op::Sec => self.sec(),
            Op::Sed => self.sed(),
            Op::Sei => self.sei(),
            Op::Sta => self.sta(),
            Op::Stx => self.stx(),
            Op::Sty => self.sty(),
            Op::Tax => self.tax(),
            Op::Tay => self.tay(),
            Op::Tsx => self.tsx(),
            Op::Txa => self.txa(),
            Op::Txs => self.txs(),
            Op::Tya => self.tya(),
        }
    }
}

} // verus!
