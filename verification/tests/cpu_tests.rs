//! The 6502 interpreter on a flat 64 KiB memory.

use protones::cpu6502::{Cpu6502, Memory, Ram, FLAG_C, FLAG_I, FLAG_N, FLAG_V, FLAG_Z};

/// A machine with `program` at 0x0400 and the reset vector pointing there.
fn machine(program: &[u8]) -> (Cpu6502, Ram) {
    let mut ram = Ram::new();
    for (i, b) in program.iter().enumerate() {
        ram.mem[0x0400 + i] = *b;
    }
    ram.mem[0xFFFC] = 0x00;
    ram.mem[0xFFFD] = 0x04;
    let mut cpu = Cpu6502::new();
    cpu.reset();
    (cpu, ram)
}

#[test]
fn reset_vectors_and_costs_seven_cycles() {
    let (mut cpu, mut ram) = machine(&[0xEA]);
    let n = cpu.execute(&mut ram);
    assert_eq!(n, 7);
    assert_eq!(cpu.pc, 0x0400);
    assert_eq!(cpu.sp, 0xFD);
    assert_eq!(cpu.a, 0);
    assert!(!cpu.reset_pending);
}

#[test]
fn immediate_load_sets_flags() {
    // LDA #$00; LDA #$80; LDA #$05
    let (mut cpu, mut ram) = machine(&[0xA9, 0x00, 0xA9, 0x80, 0xA9, 0x05]);
    cpu.execute(&mut ram);
    let n = cpu.execute(&mut ram);
    assert_eq!(n, 2);
    assert_eq!(cpu.a, 0x00);
    assert_eq!(cpu.p & FLAG_Z, FLAG_Z);
    cpu.execute(&mut ram);
    assert_eq!(cpu.a, 0x80);
    assert_eq!(cpu.p & FLAG_N, FLAG_N);
    assert_eq!(cpu.p & FLAG_Z, 0);
    cpu.execute(&mut ram);
    assert_eq!(cpu.a, 0x05);
    assert_eq!(cpu.p & (FLAG_N | FLAG_Z), 0);
}

#[test]
fn store_and_load_through_memory() {
    // LDA #$42; STA $0200; LDX $0200
    let (mut cpu, mut ram) = machine(&[0xA9, 0x42, 0x8D, 0x00, 0x02, 0xAE, 0x00, 0x02]);
    cpu.execute(&mut ram);
    cpu.execute(&mut ram);
    let n = cpu.execute(&mut ram);
    assert_eq!(n, 4);
    assert_eq!(ram.mem[0x0200], 0x42);
    cpu.execute(&mut ram);
    assert_eq!(cpu.x, 0x42);
}

#[test]
fn adc_carry_and_overflow() {
    // CLC; LDA #$7F; ADC #$01  -> 0x80, V set, C clear
    let (mut cpu, mut ram) = machine(&[0x18, 0xA9, 0x7F, 0x69, 0x01]);
    cpu.execute(&mut ram);
    cpu.execute(&mut ram);
    cpu.execute(&mut ram);
    cpu.execute(&mut ram);
    assert_eq!(cpu.a, 0x80);
    assert_eq!(cpu.p & FLAG_V, FLAG_V);
    assert_eq!(cpu.p & FLAG_C, 0);
    assert_eq!(cpu.p & FLAG_N, FLAG_N);
}

#[test]
fn adc_wraps_with_carry_out() {
    // SEC; LDA #$FF; ADC #$00 -> 0x00, C set, Z set
    let (mut cpu, mut ram) = machine(&[0x38, 0xA9, 0xFF, 0x69, 0x00]);
    cpu.execute(&mut ram);
    cpu.execute(&mut ram);
    cpu.execute(&mut ram);
    cpu.execute(&mut ram);
    assert_eq!(cpu.a, 0x00);
    assert_eq!(cpu.p & FLAG_C, FLAG_C);
    assert_eq!(cpu.p & FLAG_Z, FLAG_Z);
}

#[test]
fn sbc_borrows() {
    // SEC; LDA #$03; SBC #$05 -> 0xFE, C clear (borrow), N set
    let (mut cpu, mut ram) = machine(&[0x38, 0xA9, 0x03, 0xE9, 0x05]);
    cpu.execute(&mut ram);
    cpu.execute(&mut ram);
    cpu.execute(&mut ram);
    cpu.execute(&mut ram);
    assert_eq!(cpu.a, 0xFE);
    assert_eq!(cpu.p & FLAG_C, 0);
    assert_eq!(cpu.p & FLAG_N, FLAG_N);
}

#[test]
fn branch_taken_costs_extra_cycle() {
    // LDA #$00; BEQ +2 (taken, same page)
    let (mut cpu, mut ram) = machine(&[0xA9, 0x00, 0xF0, 0x02, 0xEA, 0xEA, 0xEA]);
    cpu.execute(&mut ram);
    cpu.execute(&mut ram);
    let n = cpu.execute(&mut ram);
    assert_eq!(n, 3);
    assert_eq!(cpu.pc, 0x0406);
}

#[test]
fn branch_not_taken_costs_base_cycles() {
    // LDA #$01; BEQ +2 (not taken)
    let (mut cpu, mut ram) = machine(&[0xA9, 0x01, 0xF0, 0x02, 0xEA]);
    cpu.execute(&mut ram);
    cpu.execute(&mut ram);
    let n = cpu.execute(&mut ram);
    assert_eq!(n, 2);
    assert_eq!(cpu.pc, 0x0404);
}

#[test]
fn absolute_x_page_cross_costs_extra_cycle() {
    // LDX #$01; LDA $02FF,X  (crosses into 0x0300)
    let (mut cpu, mut ram) = machine(&[0xA2, 0x01, 0xBD, 0xFF, 0x02]);
    ram.mem[0x0300] = 0x77;
    cpu.execute(&mut ram);
    cpu.execute(&mut ram);
    let n = cpu.execute(&mut ram);
    assert_eq!(n, 5);
    assert_eq!(cpu.a, 0x77);
}

#[test]
fn jsr_rts_round_trip() {
    // JSR $0410; (at 0x0410) LDA #$09; RTS
    let (mut cpu, mut ram) = machine(&[0x20, 0x10, 0x04]);
    ram.mem[0x0410] = 0xA9;
    ram.mem[0x0411] = 0x09;
    ram.mem[0x0412] = 0x60;
    cpu.execute(&mut ram);
    let n = cpu.execute(&mut ram);
    assert_eq!(n, 6);
    assert_eq!(cpu.pc, 0x0410);
    cpu.execute(&mut ram);
    cpu.execute(&mut ram);
    assert_eq!(cpu.a, 0x09);
    assert_eq!(cpu.pc, 0x0403);
}

#[test]
fn stack_push_pull() {
    // LDA #$5A; PHA; LDA #$00; PLA
    let (mut cpu, mut ram) = machine(&[0xA9, 0x5A, 0x48, 0xA9, 0x00, 0x68]);
    for _ in 0..4 {
        cpu.execute(&mut ram);
    }
    cpu.execute(&mut ram);  // PLA
    assert_eq!(cpu.a, 0x5A);
    assert_eq!(cpu.sp, 0xFD);
}

#[test]
fn compare_sets_carry_on_greater_or_equal() {
    // LDA #$10; CMP #$10; then CMP #$20
    let (mut cpu, mut ram) = machine(&[0xA9, 0x10, 0xC9, 0x10, 0xC9, 0x20]);
    cpu.execute(&mut ram);
    cpu.execute(&mut ram);
    cpu.execute(&mut ram);
    assert_eq!(cpu.p & FLAG_C, FLAG_C);
    assert_eq!(cpu.p & FLAG_Z, FLAG_Z);
    cpu.execute(&mut ram);
    assert_eq!(cpu.p & FLAG_C, 0);
}

#[test]
fn shifts_and_rotates() {
    // SEC; LDA #$81; ROL A -> 0x03 carry set
    let (mut cpu, mut ram) = machine(&[0x38, 0xA9, 0x81, 0x2A]);
    for _ in 0..4 {
        cpu.execute(&mut ram);
    }
    assert_eq!(cpu.a, 0x03);
    assert_eq!(cpu.p & FLAG_C, FLAG_C);
}

#[test]
fn indirect_jump_page_wrap_quirk() {
    // JMP ($02FF): low byte from 0x02FF, high byte from 0x0200 (not 0x0300).
    let (mut cpu, mut ram) = machine(&[0x6C, 0xFF, 0x02]);
    ram.mem[0x02FF] = 0x34;
    ram.mem[0x0200] = 0x12;
    ram.mem[0x0300] = 0x99;
    cpu.execute(&mut ram);
    cpu.execute(&mut ram);
    assert_eq!(cpu.pc, 0x1234);
}

#[test]
fn illegal_opcode_halts_permanently() {
    let (mut cpu, mut ram) = machine(&[0x02]);
    cpu.execute(&mut ram);
    cpu.execute(&mut ram);
    assert!(cpu.halted);
    let n = cpu.execute(&mut ram);
    assert_eq!(n, 0);
    // A reset releases the halt.
    cpu.reset();
    assert!(!cpu.halted);
    let n = cpu.execute(&mut ram);
    assert_eq!(n, 7);
}

#[test]
fn nmi_vectors_and_masks() {
    let (mut cpu, mut ram) = machine(&[0xEA, 0xEA]);
    ram.mem[0xFFFA] = 0x00;
    ram.mem[0xFFFB] = 0x05;
    cpu.execute(&mut ram);
    cpu.signal_nmi();
    let n = cpu.execute(&mut ram);
    assert_eq!(n, 7);
    assert_eq!(cpu.pc, 0x0500);
    assert_eq!(cpu.p & FLAG_I, FLAG_I);
    assert_eq!(cpu.sp, 0xFD - 3);
}

#[test]
fn irq_respects_interrupt_disable() {
    let (mut cpu, mut ram) = machine(&[0x58, 0xEA, 0xEA]);
    ram.mem[0xFFFE] = 0x00;
    ram.mem[0xFFFF] = 0x06;
    cpu.execute(&mut ram);
    // The flag is still set right after reset: the request waits.
    cpu.signal_irq();
    assert_eq!(cpu.p & FLAG_I, FLAG_I);
    cpu.execute(&mut ram);  // CLI
    assert_eq!(cpu.p & FLAG_I, 0);
    let n = cpu.execute(&mut ram);  // now the IRQ is serviced
    assert_eq!(n, 7);
    assert_eq!(cpu.pc, 0x0600);
}

#[test]
fn self_checking_program_reaches_its_success_marker() {
    // A small conformance program: sums 5..=1 into $10, doubles it in a
    // subroutine, verifies the result with a compare-and-branch, then
    // exercises memory increment and the shift/rotate chain before
    // parking on a jump-to-self at 0x0426 (the success marker).  A failed
    // compare would fall into the 0xEE store and park with bad memory.
    // This run-until-the-program-counter-repeats check stands in for the
    // full published conformance program, whose binary is not available
    // here to embed.
    let (mut cpu, mut ram) = machine(&[
        0xA9, 0x00, 0x85, 0x10, 0xA2, 0x05, 0x8A, 0x18, 0x65, 0x10, 0x85, 0x10, 0xCA, 0xD0,
        0xF7, 0x20, 0x30, 0x04, 0xA5, 0x10, 0xC9, 0x1E, 0xF0, 0x02, 0xA9, 0xEE, 0x8D, 0x00,
        0x03, 0xEE, 0x00, 0x03, 0x4A, 0x6A, 0x2A, 0x8D, 0x01, 0x03, 0x4C, 0x26, 0x04,
    ]);
    // The doubling subroutine at 0x0430: LDA $10; ASL A; STA $10; RTS.
    ram.mem[0x0430] = 0xA5;
    ram.mem[0x0431] = 0x10;
    ram.mem[0x0432] = 0x0A;
    ram.mem[0x0433] = 0x85;
    ram.mem[0x0434] = 0x10;
    ram.mem[0x0435] = 0x60;
    let mut last_pc = 0xFFFFu16;
    let mut steps = 0;
    while cpu.get_pc() != last_pc && steps < 1000 {
        last_pc = cpu.get_pc();
        cpu.execute(&mut ram);
        steps += 1;
    }
    assert_eq!(last_pc, 0x0426);
    assert_eq!(ram.mem[0x0010], 0x1E);
    assert_eq!(ram.mem[0x0300], 0x1F);
    assert_eq!(ram.mem[0x0301], 0x0F);
    assert_eq!(cpu.a, 0x0F);
    assert_eq!(cpu.x, 0);
}

#[test]
fn countdown_loop_runs_to_completion() {
    // LDX #$0A; loop: DEX; BNE loop; STX $0200; done: JMP done
    let (mut cpu, mut ram) = machine(
        &[0xA2, 0x0A, 0xCA, 0xD0, 0xFD, 0x8E, 0x00, 0x02, 0x4C, 0x08, 0x04],
    );
    let mut last_pc = 0xFFFFu16;
    let mut steps = 0;
    while cpu.get_pc() != last_pc && steps < 1000 {
        last_pc = cpu.get_pc();
        cpu.execute(&mut ram);
        steps += 1;
    }
    assert_eq!(last_pc, 0x0408);
    assert_eq!(cpu.x, 0);
    assert_eq!(ram.mem[0x0200], 0);
}
