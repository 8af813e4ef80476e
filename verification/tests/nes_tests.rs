//! The assembled console: dispatch, DMA stalls, pads and whole frames.

use protones::controller::{Command, CommandKey};
use protones::cpu6502::Memory;
use protones::nes::{stall_penalty, Nes};

/// An image whose reset vector points at `program`, placed at 0xC000.
fn build_image(program: &[u8]) -> Vec<u8> {
    let mut data = vec![0x4e, 0x45, 0x53, 0x1a, 1, 1, 0, 0];
    data.extend_from_slice(&[0u8; 8]);
    let mut prg = vec![0u8; 16384];
    for (i, b) in program.iter().enumerate() {
        prg[i] = *b;
    }
    // PRG bank 1 maps at 0xC000: the vectors live at its top.
    prg[0x3FFC] = 0x00;
    prg[0x3FFD] = 0xC0;
    data.extend_from_slice(&prg);
    data.extend(std::iter::repeat(0u8).take(8192));
    data
}

fn console(program: &[u8]) -> Nes {
    Nes::from_image(&build_image(program)).unwrap()
}

#[test]
fn ram_mirrors_every_2k() {
    let mut nes = console(&[0xEA]);
    nes.body.write(0x0005, 0x77);
    assert_eq!(nes.body.read(0x0805), 0x77);
    assert_eq!(nes.body.read(0x1005), 0x77);
    assert_eq!(nes.body.read(0x1805), 0x77);
}

#[test]
fn unmapped_reads_answer_zero() {
    let mut nes = console(&[0xEA]);
    assert_eq!(nes.body.read(0x4018), 0);
    assert_eq!(nes.body.read(0x4013), 0);
}

#[test]
fn cartridge_space_starts_at_0x4020() {
    // The test image's single PRG bank also answers low cartridge-space
    // reads through the board's bank folding.
    let mut nes = console(&[0xEA]);
    let expected = nes.body.bus.mapper.read(0x4020);
    assert_eq!(nes.body.read(0x4020), expected);
}

#[test]
fn ppu_registers_mirror_every_8_bytes() {
    let mut nes = console(&[0xEA]);
    nes.body.write(0x2006, 0x3F);
    nes.body.write(0x200E, 0x01);  // second address write through a mirror
    nes.body.write(0x2007, 0x2B);
    assert_eq!(nes.body.bus.pram[0x01], 0x2B);
}

#[test]
fn oam_dma_books_513_stall_cycles() {
    let mut nes = console(&[0xEA]);
    for i in 0..16 {
        nes.body.write(0x0200 + i, (i * 2) as u8);
    }
    nes.body.write(0x4014, 0x02);
    assert_eq!(nes.body.bus.stall_cycles, 513);
    assert!(nes.body.bus.stall_oddcycle);
    assert_eq!(nes.body.ppu.oam[0], 0);
    assert_eq!(nes.body.ppu.oam[1], 2);
    assert_eq!(nes.body.ppu.oam[15], 30);
}

#[test]
fn dma_stall_costs_513_on_even_and_514_on_odd_cycles() {
    assert_eq!(stall_penalty(100, 513, true), 513);
    assert_eq!(stall_penalty(101, 513, true), 514);
    assert_eq!(stall_penalty(101, 4, false), 4);

    // Through the running console: trigger the DMA on an even cycle.
    let mut nes = console(&[0xEA, 0xEA]);
    assert_eq!(nes.cpu.cycles, 0);
    nes.body.write(0x4014, 0x02);
    let dots_before = nes.body.ppu.scanline * 341 + nes.body.ppu.cycle;
    nes.emulate();  // reset service: 7 cycles + the 513-cycle stall
    let dots_after = nes.body.ppu.scanline * 341 + nes.body.ppu.cycle;
    assert_eq!(dots_after - dots_before, 3 * (7 + 513));

    // And on an odd cycle: after the 7-cycle reset the counter is odd.
    let mut nes = console(&[0xEA, 0xEA]);
    nes.emulate();
    assert_eq!(nes.cpu.cycles, 7);
    nes.body.write(0x4014, 0x02);
    let dots_before = nes.body.ppu.scanline * 341 + nes.body.ppu.cycle;
    nes.emulate();  // NOP: 2 cycles, plus 513 + 1 for the odd start
    let dots_after = nes.body.ppu.scanline * 341 + nes.body.ppu.cycle;
    assert_eq!(dots_after - dots_before, 3 * (2 + 513 + 1));
}

#[test]
fn controller_strobe_and_serial_read() {
    let mut nes = console(&[0xEA]);
    nes.body.bus.controller0.set_buttons(0xB1);  // A, Up, Down, Right
    nes.body.write(0x4016, 1);
    nes.body.write(0x4016, 0);
    let mut bits = Vec::new();
    for _ in 0..10 {
        bits.push(nes.body.read(0x4016));
    }
    // A, B, Select, Start, Up, Down, Left, Right, then zeros.
    assert_eq!(bits, vec![1, 0, 0, 0, 1, 1, 0, 1, 0, 0]);
}

#[test]
fn controller_commands_drive_the_button_mask() {
    let mut nes = console(&[0xEA]);
    nes.body.bus.controller0.process_command(&Command::Down(CommandKey::ControllerA));
    nes.body.bus.controller0.process_command(&Command::Down(CommandKey::ControllerUp));
    assert_eq!(nes.body.bus.controller0.buttons, 0x11);
    nes.body.bus.controller0.process_command(&Command::Up(CommandKey::ControllerA));
    assert_eq!(nes.body.bus.controller0.buttons, 0x10);
    nes.body.bus.controller0.process_command(&Command::Idle);
    assert_eq!(nes.body.bus.controller0.buttons, 0x10);
}

#[test]
fn mmc3_scanline_irq_fires_on_the_pre_render_line() {
    // Mapper 4 image; enable rendering, arm the counter with reload 0, and
    // run whole frames: each frame's visible and pre-render lines clock
    // the counter, so the IRQ fires and vectors the processor.
    let mut data = vec![0x4e, 0x45, 0x53, 0x1a, 1, 1, 0x40, 0];
    data.extend_from_slice(&[0u8; 8]);
    let mut prg = vec![0u8; 16384];
    prg[0] = 0x4C;  // JMP 0xC000 (busy loop)
    prg[1] = 0x00;
    prg[2] = 0xC0;
    prg[0x3FFC] = 0x00;
    prg[0x3FFD] = 0xC0;
    data.extend_from_slice(&prg);
    data.extend(std::iter::repeat(0u8).take(8192));
    let mut nes = Nes::from_image(&data).unwrap();
    nes.emulate();  // reset service
    nes.body.write(0x2001, 0x08);  // rendering on
    // Reload 240: the 240 visible-line boundaries count it down to one,
    // and the pre-render line's boundary fires.
    nes.body.write(0xC000, 240);
    nes.body.write(0xE001, 0);  // IRQ enable
    // Drive dots directly to the pre-render line's qualifying dot.
    let mut fired = false;
    for _ in 0..2 * 341 * 262 {
        nes.body.ppu.emulate(&mut nes.body.bus);
        let rendering = nes.body.ppu.rendering_enabled();
        if nes.body.bus.mapper.emulate(
            nes.body.ppu.cycle,
            nes.body.ppu.scanline,
            rendering,
        ) {
            assert_eq!(nes.body.ppu.scanline, 261);
            fired = true;
            break;
        }
    }
    assert!(fired);
}

#[test]
fn emulate_frame_advances_the_picture() {
    // A busy loop: JMP to itself.
    let mut nes = console(&[0x4C, 0x00, 0xC0]);
    let frame = nes.body.ppu.frame;
    nes.emulate_frame();
    assert_eq!(nes.body.ppu.frame, frame + 1);
    // Audio samples accumulated along the way.
    assert!(!nes.audio.is_empty());
}

#[test]
fn emulate_frame_honors_pause_and_single_step() {
    let mut nes = console(&[0x4C, 0x00, 0xC0]);
    nes.pause = true;
    let frame = nes.body.ppu.frame;
    nes.emulate_frame();
    assert_eq!(nes.body.ppu.frame, frame);
    nes.framestep = true;
    nes.emulate_frame();
    assert_eq!(nes.body.ppu.frame, frame + 1);
    assert!(!nes.framestep);
}

#[test]
fn palette_lookup_goes_through_palette_ram() {
    let mut nes = console(&[0xEA]);
    // Palette RAM entry 0 picks hardware palette color 0x0D (black).
    nes.body.write(0x2006, 0x3F);
    nes.body.write(0x2006, 0x00);
    nes.body.write(0x2007, 0x0D);
    assert_eq!(nes.palette_lookup(0), 0xff000000);
    // Values above 63 fold into the table instead of failing.
    nes.body.write(0x2006, 0x3F);
    nes.body.write(0x2006, 0x00);
    nes.body.write(0x2007, 0x40);
    assert_eq!(nes.palette_lookup(0), 0xff666666);
}

#[test]
fn halted_processor_stops_the_console() {
    // 0x02 is not an instruction: the core locks up.
    let mut nes = console(&[0x02]);
    assert_eq!(nes.emulate(), 7);  // reset service
    assert!(nes.emulate() != 0);  // the bad fetch consumes its base cycles
    assert!(nes.cpu.halted);
    assert_eq!(nes.emulate(), 0);
    // A console reset releases the lock-up.
    nes.reset();
    assert_eq!(nes.emulate(), 7);
    assert!(!nes.cpu.halted);
}
