//! The picture processor's dot clock, registers and sprite evaluation.

use protones::bus::Bus;
use protones::cartridge::Cartridge;
use protones::mapper::Mapper;
use protones::ppu::Ppu;

fn build_image(prgsz: u8, chrsz: u8, flags6: u8) -> Vec<u8> {
    let mut data = vec![0x4e, 0x45, 0x53, 0x1a, prgsz, chrsz, flags6, 0];
    data.extend_from_slice(&[0u8; 8]);
    data.extend(std::iter::repeat(0u8).take(prgsz as usize * 16384));
    data.extend(std::iter::repeat(0u8).take(chrsz as usize * 8192));
    data
}

fn setup() -> (Ppu, Bus) {
    let cart = Cartridge::from_reader(&build_image(1, 1, 0)).unwrap();
    let mapper = Mapper::new(cart).unwrap();
    (Ppu::new(), Bus::new(mapper))
}

#[test]
fn one_frame_of_dots_with_rendering_disabled() {
    let (mut ppu, mut bus) = setup();
    assert_eq!((ppu.scanline, ppu.cycle, ppu.frame), (0, 0, 0));
    for _ in 0..341 * 262 {
        ppu.emulate(&mut bus);
    }
    assert_eq!(ppu.frame, 1);
    assert_eq!(ppu.scanline, 0);
    assert_eq!(ppu.cycle, 0);
    // Another frame's worth of dots wraps again.
    for _ in 0..341 * 262 {
        ppu.emulate(&mut bus);
    }
    assert_eq!(ppu.frame, 2);
    assert_eq!((ppu.scanline, ppu.cycle), (0, 0));
}

#[test]
fn vblank_flag_rises_and_clears() {
    let (mut ppu, mut bus) = setup();
    // Run to scanline 241, cycle 2 (the flag rises at cycle 1).
    for _ in 0..(241 * 341 + 2) {
        ppu.emulate(&mut bus);
    }
    let status = ppu.read(&mut bus, 0x2002);
    assert_eq!(status & 0x80, 0x80);
    // Reading cleared it.
    let status = ppu.read(&mut bus, 0x2002);
    assert_eq!(status & 0x80, 0);
}

#[test]
fn nmi_line_pulls_after_the_latch_delay() {
    let (mut ppu, mut bus) = setup();
    // Enable the interrupt, then run through the blank edge.
    ppu.write(&mut bus, 0x2000, 0x80);
    for _ in 0..(241 * 341 + 2) {
        ppu.emulate(&mut bus);
    }
    assert!(!bus.nmi_line);
    // The 15-dot latch delay runs out.
    for _ in 0..15 {
        ppu.emulate(&mut bus);
    }
    assert!(bus.nmi_line);
}

#[test]
fn sprite_overflow_needs_nine_sprites() {
    let (mut ppu, mut bus) = setup();
    ppu.scanline = 100;
    // Eight sprites covering scanline 100 (8-pixel height, y in 93..=100).
    for i in 0..8 {
        ppu.oam[i * 4] = 97;
        ppu.oam[i * 4 + 3] = (i * 8) as u8;
    }
    ppu.evaluate_sprites(&mut bus);
    assert_eq!(ppu.sprite_count, 8);
    assert_eq!(ppu.status & 0x20, 0);
    // A ninth sets the overflow bit and still resolves only eight.
    ppu.oam[8 * 4] = 99;
    ppu.evaluate_sprites(&mut bus);
    assert_eq!(ppu.sprite_count, 8);
    assert_eq!(ppu.status & 0x20, 0x20);
}

#[test]
fn sprite_evaluation_respects_height() {
    let (mut ppu, mut bus) = setup();
    ppu.scanline = 50;
    ppu.oam[0] = 40;  // ten rows above: only hits with 16-pixel sprites
    ppu.evaluate_sprites(&mut bus);
    assert_eq!(ppu.sprite_count, 0);
    ppu.control = 0x20;
    ppu.evaluate_sprites(&mut bus);
    assert_eq!(ppu.sprite_count, 1);
}

#[test]
fn scroll_register_write_pair() {
    let (mut ppu, mut bus) = setup();
    ppu.write(&mut bus, 0x2005, 0x7D);  // coarse X = 15, fine x = 5
    assert_eq!(ppu.x, 5);
    assert_eq!(ppu.t & 0x1F, 15);
    ppu.write(&mut bus, 0x2005, 0x5E);  // Y = 0x5E
    assert_eq!((ppu.t >> 12) & 7, 6);  // fine Y
    assert_eq!((ppu.t >> 5) & 0x1F, 11);  // coarse Y
    assert!(!ppu.w);
}

#[test]
fn address_register_write_pair_and_data_port() {
    let (mut ppu, mut bus) = setup();
    // Point at a nametable byte and write through the data port.
    ppu.write(&mut bus, 0x2006, 0x21);
    ppu.write(&mut bus, 0x2006, 0x08);
    ppu.write(&mut bus, 0x2007, 0xAB);
    // The address stepped by one (increment bit clear).
    ppu.write(&mut bus, 0x2007, 0xCD);
    // Read back through the buffered data port.
    ppu.write(&mut bus, 0x2006, 0x21);
    ppu.write(&mut bus, 0x2006, 0x08);
    let first = ppu.read(&mut bus, 0x2007);  // stale buffer
    let second = ppu.read(&mut bus, 0x2007);
    let third = ppu.read(&mut bus, 0x2007);
    assert_eq!(first, 0);
    assert_eq!(second, 0xAB);
    assert_eq!(third, 0xCD);
}

#[test]
fn data_port_increment_32_mode() {
    let (mut ppu, mut bus) = setup();
    ppu.write(&mut bus, 0x2000, 0x04);
    ppu.write(&mut bus, 0x2006, 0x20);
    ppu.write(&mut bus, 0x2006, 0x00);
    ppu.write(&mut bus, 0x2007, 0x11);
    ppu.write(&mut bus, 0x2007, 0x22);
    assert_eq!(bus.vram[0x000], 0x11);
    assert_eq!(bus.vram[0x020], 0x22);
}

#[test]
fn status_read_resets_the_write_toggle() {
    let (mut ppu, mut bus) = setup();
    ppu.write(&mut bus, 0x2005, 0x10);
    assert!(ppu.w);
    ppu.read(&mut bus, 0x2002);
    assert!(!ppu.w);
}

#[test]
fn oam_port_writes_and_reads() {
    let (mut ppu, mut bus) = setup();
    ppu.write(&mut bus, 0x2003, 0x10);
    ppu.write(&mut bus, 0x2004, 0x5A);
    assert_eq!(ppu.oam[0x10], 0x5A);
    assert_eq!(ppu.oam_addr, 0x11);
    ppu.write(&mut bus, 0x2003, 0x10);
    assert_eq!(ppu.read(&mut bus, 0x2004), 0x5A);
}

#[test]
fn palette_accesses_fold_the_mirrored_slots() {
    let (mut ppu, mut bus) = setup();
    // 0x3F10 aliases 0x3F00, for writes and reads alike.
    ppu.write(&mut bus, 0x2006, 0x3F);
    ppu.write(&mut bus, 0x2006, 0x10);
    ppu.write(&mut bus, 0x2007, 0x2A);
    assert_eq!(bus.pram[0x00], 0x2A);
    ppu.write(&mut bus, 0x2006, 0x3F);
    ppu.write(&mut bus, 0x2006, 0x00);
    ppu.write(&mut bus, 0x2007, 0x31);
    ppu.write(&mut bus, 0x2006, 0x3F);
    ppu.write(&mut bus, 0x2006, 0x10);
    // Palette reads are direct (unbuffered) and see the aliased slot.
    assert_eq!(ppu.read(&mut bus, 0x2007), 0x31);
}

#[test]
fn reset_inserts_two_dead_frames() {
    let (mut ppu, mut bus) = setup();
    ppu.reset();
    assert_eq!(ppu.dead, 2 * 262 * 341);
    let (sl, cy) = (ppu.scanline, ppu.cycle);
    for _ in 0..100 {
        ppu.emulate(&mut bus);
    }
    // Dead dots burn off without moving the clock.
    assert_eq!((ppu.scanline, ppu.cycle), (sl, cy));
    assert_eq!(ppu.dead, 2 * 262 * 341 - 100);
}

#[test]
fn background_renders_a_solid_tile() {
    let cart = {
        let mut data = vec![0x4e, 0x45, 0x53, 0x1a, 1, 1, 0, 0];
        data.extend_from_slice(&[0u8; 8]);
        data.extend(std::iter::repeat(0u8).take(16384));
        let mut chr = vec![0u8; 8192];
        // Tile 1: low bit plane solid, high plane clear -> color 1.
        for row in 0..8 {
            chr[16 + row] = 0xFF;
        }
        data.extend_from_slice(&chr);
        data
    };
    let mapper = Mapper::new(Cartridge::from_reader(&cart).unwrap()).unwrap();
    let mut bus = Bus::new(mapper);
    let mut ppu = Ppu::new();
    // Every nametable entry shows tile 1; attributes stay zero.
    for i in 0..960 {
        bus.vram[i] = 1;
    }
    // Background palette: color 1 of group 0.
    bus.pram[0] = 0x0F;
    bus.pram[1] = 0x21;
    // Show the background, left edge included.
    ppu.write(&mut bus, 0x2001, 0x0A);
    for _ in 0..2 * 341 * 262 {
        ppu.emulate(&mut bus);
    }
    // A mid-screen pixel resolved through palette entry 1.
    let expected = bus.palette[0x21];
    assert_eq!(ppu.picture[100 * 256 + 100], expected);
    assert_eq!(ppu.picture[10 * 256 + 200], expected);
}

#[test]
fn odd_frame_skip_with_rendering_enabled() {
    let (mut ppu, mut bus) = setup();
    ppu.mask = 0x08;
    // Frame 0 (even, f clear): full 89342 dots.
    for _ in 0..341 * 262 {
        ppu.emulate(&mut bus);
    }
    assert_eq!(ppu.frame, 1);
    assert_eq!((ppu.scanline, ppu.cycle), (0, 0));
    // Frame 1 (f now set): one dot shorter.
    for _ in 0..341 * 262 - 1 {
        ppu.emulate(&mut bus);
    }
    assert_eq!(ppu.frame, 2);
    assert_eq!((ppu.scanline, ppu.cycle), (0, 0));
}
