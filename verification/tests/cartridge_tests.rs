//! ROM image parsing, serialization and mirroring.

use protones::cartridge::{Cartridge, InesHeader, LoadError};
use protones::nes::Nes;

/// A minimal valid image: 1 PRG bank, 1 CHR bank, the given mapper and
/// flag bytes, with recognizable fill bytes in each bank.
fn build_image(prgsz: u8, chrsz: u8, flags6: u8, flags7: u8) -> Vec<u8> {
    let mut data = vec![0x4e, 0x45, 0x53, 0x1a, prgsz, chrsz, flags6, flags7];
    data.extend_from_slice(&[0u8; 8]);
    for i in 0..(prgsz as usize * 16384) {
        data.push((i % 251) as u8);
    }
    for i in 0..(chrsz as usize * 8192) {
        data.push((i % 241) as u8);
    }
    data
}

#[test]
fn header_parses_fields() {
    let data = build_image(2, 1, 0x0b, 0x40);
    let h = InesHeader::from_reader(&data).unwrap();
    assert_eq!(h.signature, 0x1a53454e);
    assert_eq!(h.prgsz, 2);
    assert_eq!(h.chrsz, 1);
    assert!(h.mirror);
    assert!(h.battery);
    assert!(!h.trainer);
    assert!(h.fourscreen);
    assert_eq!(h.mapper, 0x40);
    assert_eq!(h.version, 0);
}

#[test]
fn header_mapper_nibbles_combine() {
    let data = build_image(1, 1, 0x40, 0x30);
    let h = InesHeader::from_reader(&data).unwrap();
    assert_eq!(h.mapper, 0x34);
}

#[test]
fn bad_magic_is_rejected() {
    let mut data = build_image(1, 1, 0, 0);
    data[0] = 0x4d;
    assert_eq!(InesHeader::from_reader(&data), Err(LoadError::BadSignature));
    assert!(matches!(Cartridge::from_reader(&data), Err(LoadError::BadSignature)));
    assert!(matches!(Nes::from_image(&data), Err(LoadError::BadSignature)));
}

#[test]
fn short_image_is_rejected() {
    let data = vec![0x4e, 0x45, 0x53, 0x1a, 1, 1, 0, 0];
    assert_eq!(InesHeader::from_reader(&data), Err(LoadError::TooShort));
    let mut longer = build_image(1, 1, 0, 0);
    longer.truncate(16 + 1000);
    assert!(matches!(Cartridge::from_reader(&longer), Err(LoadError::TooShort)));
}

#[test]
fn zero_prg_banks_are_rejected() {
    let data = build_image(0, 1, 0, 0);
    assert!(matches!(Cartridge::from_reader(&data), Err(LoadError::NoPrgBanks)));
}

#[test]
fn unsupported_mapper_is_rejected() {
    // Mapper id 5 (low nibble in the high bits of flag byte 6).
    let data = build_image(1, 1, 0x50, 0x00);
    assert!(matches!(Nes::from_image(&data), Err(LoadError::UnsupportedMapper(5))));
}

#[test]
fn banks_are_copied() {
    let data = build_image(1, 1, 0, 0);
    let c = Cartridge::from_reader(&data).unwrap();
    assert_eq!(c.prg.len(), 16384);
    assert_eq!(c.chr.len(), 8192);
    assert_eq!(c.prg[0], data[16]);
    assert_eq!(c.prg[16383], data[16 + 16383]);
    assert_eq!(c.chr[0], data[16 + 16384]);
}

#[test]
fn chr_ram_boards_get_a_blank_bank() {
    let data = build_image(1, 0, 0, 0);
    let c = Cartridge::from_reader(&data).unwrap();
    assert_eq!(c.header.chrsz, 1);
    assert_eq!(c.chr.len(), 8192);
    assert!(c.chr.iter().all(|&b| b == 0));
}

#[test]
fn image_round_trips_through_write() {
    let data = build_image(1, 1, 0x03, 0x00);
    let c = Cartridge::from_reader(&data).unwrap();
    let mut out = Vec::new();
    c.write(&mut out);
    assert_eq!(out, data);
}

#[test]
fn mirror_address_horizontal() {
    let data = build_image(1, 1, 0x00, 0x00);
    let c = Cartridge::from_reader(&data).unwrap();
    // Horizontal: both horizontal neighbours share a page.
    assert_eq!(c.mirror_address(0x2000), 0x0000);
    assert_eq!(c.mirror_address(0x2400), 0x0000);
    assert_eq!(c.mirror_address(0x2800), 0x0400);
    assert_eq!(c.mirror_address(0x2C00), 0x0400);
}

#[test]
fn mirror_address_vertical() {
    let data = build_image(1, 1, 0x01, 0x00);
    let c = Cartridge::from_reader(&data).unwrap();
    assert_eq!(c.mirror_address(0x2000), 0x0000);
    assert_eq!(c.mirror_address(0x2400), 0x0400);
    assert_eq!(c.mirror_address(0x2800), 0x0000);
    assert_eq!(c.mirror_address(0x2C00), 0x0400);
}
