//! Tests of the CPU: dispatch table, arithmetic, flags, stack, and
//! small programs run through the clock.

use nes::addressing::AddrType;
use nes::cartridge::{Cartridge, CartridgeMirror};
use nes::cpu::Cpu;
use nes::instructions::{Instruction, Op};

fn rom_with(patches: &[(usize, u8)]) -> Cartridge {
    let mut prog = vec![0u8; 16384];
    for &(a, v) in patches {
        prog[a] = v;
    }
    Cartridge::new(prog, Vec::new(), CartridgeMirror::Horizontal)
}

/// A CPU whose reset vector points at 0x8000, where `program` lies.
fn cpu_with_program(program: &[u8]) -> Cpu {
    let mut patches: Vec<(usize, u8)> = vec![(0x3FFC, 0x00), (0x3FFD, 0x80)];
    for (i, &b) in program.iter().enumerate() {
        patches.push((i, b));
    }
    let mut cpu = Cpu::new(rom_with(&patches));
    cpu.reset();
    // consume the eight reset cycles
    for _ in 0..8 {
        cpu.clock();
    }
    cpu
}

/// Clock through exactly one instruction: the fetch tick plus the
/// pending cycles it loads.
fn step_instruction(cpu: &mut Cpu) {
    cpu.clock();
    while cpu.data.cycles > 0 {
        cpu.clock();
    }
}

#[test]
fn test_fn_equality() {
    assert_eq!(AddrType::Imp, AddrType::Imp);

    let addr_modes = [
        AddrType::Imm,
        AddrType::Zp0,
        AddrType::Zpx,
        AddrType::Zpy,
        AddrType::Abs,
        AddrType::Abx,
        AddrType::Aby,
        AddrType::Ind,
        AddrType::Izx,
        AddrType::Izy,
        AddrType::Rel,
    ];

    for &mode in addr_modes.iter() {
        assert_ne!(mode, AddrType::Imp);
    }
}

#[test]
fn dispatch_table_has_defined_cycles_for_all_256_opcodes() {
    for opcode in 0..=255u8 {
        let ins = Instruction::lookup(opcode);
        assert!(ins.cycles >= 2 && ins.cycles <= 8);
    }
}

#[test]
fn dispatch_table_spot_entries() {
    let lda_imm = Instruction::lookup(0xA9);
    assert_eq!(lda_imm.cycles, 2);
    assert_eq!(lda_imm.addrmode, AddrType::Imm);
    assert_eq!(lda_imm.execute, Op::Lda);
    let brk = Instruction::lookup(0x00);
    assert_eq!(brk.cycles, 7);
    assert_eq!(brk.execute, Op::Brk);
    let jmp_ind = Instruction::lookup(0x6C);
    assert_eq!(jmp_ind.addrmode, AddrType::Ind);
    let sta_abx = Instruction::lookup(0x9D);
    assert_eq!(sta_abx.cycles, 5);
    assert_eq!(sta_abx.execute, Op::Sta);
}

#[test]
fn adc_sets_carry_zero_overflow_negative() {
    let mut cpu = cpu_with_program(&[]);
    // 0x50 + 0x50 overflows into the negative range
    cpu.a = 0x50;
    cpu.data.mode = AddrType::Imp;
    cpu.data.fetched = 0x50;
    cpu.status.c = false;
    cpu.adc();
    assert_eq!(cpu.a, 0xA0);
    assert!(!cpu.status.c && cpu.status.v && cpu.status.n && !cpu.status.z);
    // 0xFF + 0x01 wraps to zero with a carry out
    cpu.a = 0xFF;
    cpu.data.fetched = 0x01;
    cpu.status.c = false;
    cpu.adc();
    assert_eq!(cpu.a, 0x00);
    assert!(cpu.status.c && cpu.status.z && !cpu.status.v && !cpu.status.n);
}

#[test]
fn sbc_matches_adc_of_complement() {
    // the subtract step must agree with the add step on the
    // complemented operand for every flag, over a spread of inputs
    for &a in &[0x00u8, 0x01, 0x0F, 0x50, 0x7F, 0x80, 0xB0, 0xFF] {
        for &m in &[0x00u8, 0x01, 0x10, 0x50, 0x7F, 0x80, 0xB0, 0xFF] {
            for &c in &[false, true] {
                let mut left = cpu_with_program(&[]);
                left.a = a;
                left.data.mode = AddrType::Imp;
                left.data.fetched = m;
                left.status.c = c;
                left.sbc();

                let mut right = cpu_with_program(&[]);
                right.a = a;
                right.data.mode = AddrType::Imp;
                right.data.fetched = !m;
                right.status.c = c;
                right.adc();

                assert_eq!(left.a, right.a);
                assert_eq!(left.status.c, right.status.c);
                assert_eq!(left.status.z, right.status.z);
                assert_eq!(left.status.v, right.status.v);
                assert_eq!(left.status.n, right.status.n);
            }
        }
    }
}

#[test]
fn lda_then_tax_copies_value_and_flags() {
    // LDA #$80 ; TAX
    let mut cpu = cpu_with_program(&[0xA9, 0x80, 0xAA]);
    step_instruction(&mut cpu);
    assert_eq!(cpu.a, 0x80);
    step_instruction(&mut cpu);
    assert_eq!(cpu.a, 0x80);
    assert_eq!(cpu.x, 0x80);
    assert!(cpu.status.n && !cpu.status.z);

    // LDA #$00 ; TAX
    let mut cpu = cpu_with_program(&[0xA9, 0x00, 0xAA]);
    step_instruction(&mut cpu);
    step_instruction(&mut cpu);
    assert_eq!(cpu.a, 0x00);
    assert_eq!(cpu.x, 0x00);
    assert!(cpu.status.z && !cpu.status.n);
}

#[test]
fn small_program_traces_registers() {
    // LDA #$01 ; STA $00 ; LDA #$05 ; CLC ; ADC #$03 ; STA $01 ; LDX #$FF ; INX
    let program = [0xA9, 0x01, 0x85, 0x00, 0xA9, 0x05, 0x18, 0x69, 0x03, 0x85, 0x01, 0xA2, 0xFF,
        0xE8];
    let mut cpu = cpu_with_program(&program);
    let expected: [(u16, u8, u8); 8] = [
        // (pc after the instruction, a, x)
        (0x8002, 0x01, 0x00),
        (0x8004, 0x01, 0x00),
        (0x8006, 0x05, 0x00),
        (0x8007, 0x05, 0x00),
        (0x8009, 0x08, 0x00),
        (0x800B, 0x08, 0x00),
        (0x800D, 0x08, 0xFF),
        (0x800E, 0x08, 0x00),
    ];
    for &(pc, a, x) in expected.iter() {
        step_instruction(&mut cpu);
        assert_eq!(cpu.pc, pc);
        assert_eq!(cpu.a, a);
        assert_eq!(cpu.x, x);
    }
    // the stores landed in zero-page RAM
    assert_eq!(cpu.read(0x0000), 0x01);
    assert_eq!(cpu.read(0x0001), 0x08);
    // INX wrapped 0xFF to 0x00 and set the zero flag
    assert!(cpu.status.z);
}

#[test]
fn stack_wraps_within_its_page() {
    let mut cpu = cpu_with_program(&[]);
    cpu.stkp = 0x00;
    cpu.a = 0x7E;
    cpu.pha();
    // the push wrote at 0x0100 and wrapped the pointer
    assert_eq!(cpu.stkp, 0xFF);
    assert_eq!(cpu.read(0x0100), 0x7E);
    cpu.pla();
    assert_eq!(cpu.stkp, 0x00);
    assert_eq!(cpu.a, 0x7E);
}

#[test]
fn reset_loads_vector_and_state() {
    let cart = rom_with(&[(0x3FFC, 0x34), (0x3FFD, 0x12)]);
    let mut cpu = Cpu::new(cart);
    cpu.reset();
    assert_eq!(cpu.pc, 0x1234);
    assert_eq!(cpu.stkp, 0xFD);
    assert_eq!(cpu.a, 0);
    assert!(cpu.status.u);
    assert_eq!(cpu.data.cycles, 8);
}

#[test]
fn irq_respects_interrupt_disable() {
    let mut cpu = cpu_with_program(&[]);
    cpu.status.i = true;
    let pc = cpu.pc;
    let sp = cpu.stkp;
    cpu.irq();
    assert_eq!(cpu.pc, pc);
    assert_eq!(cpu.stkp, sp);
}

#[test]
fn branch_taken_costs_extra_cycles() {
    // SEC ; BCS +2 — the branch is taken within the same page
    let mut cpu = cpu_with_program(&[0x38, 0xB0, 0x02]);
    step_instruction(&mut cpu);
    assert!(cpu.status.c);
    // a taken branch without a page cross takes 3 cycles in all
    cpu.clock();
    assert_eq!(cpu.data.cycles, 2);
    while cpu.data.cycles > 0 {
        cpu.clock();
    }
    assert_eq!(cpu.pc, 0x8005);
}
