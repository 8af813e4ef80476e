//! Bank switching, save RAM gating and the scanline IRQ counter.

use protones::cartridge::Cartridge;
use protones::mapper::{simple_mirror_address, Mapper};
use protones::mmc3::MMC3;

/// A valid image with distinguishable bytes: PRG byte i of bank b is
/// `b * 16 + (i % 16)` folded into u8, CHR byte i of bank b likewise.
fn build_image(prgsz: u8, chrsz: u8, flags6: u8, flags7: u8) -> Vec<u8> {
    let mut data = vec![0x4e, 0x45, 0x53, 0x1a, prgsz, chrsz, flags6, flags7];
    data.extend_from_slice(&[0u8; 8]);
    for b in 0..prgsz as usize {
        for i in 0..16384usize {
            data.push((b * 16 + (i % 16)) as u8);
        }
    }
    for b in 0..chrsz as usize {
        for i in 0..8192usize {
            data.push((b * 16 + (i % 13)) as u8);
        }
    }
    data
}

fn cart(prgsz: u8, chrsz: u8, flags6: u8, flags7: u8) -> Cartridge {
    Cartridge::from_reader(&build_image(prgsz, chrsz, flags6, flags7)).unwrap()
}

#[test]
fn uxrom_bank_register_reduces_modulo_bank_count() {
    // Mapper 2, 4 PRG banks: writing 0xFF selects bank 0xFF % 4 == 3.
    let mut m = Mapper::new(cart(4, 1, 0x20, 0x00)).unwrap();
    m.write(0x8000, 0xFF);
    assert_eq!(m.read(0x8000), 3 * 16);
    // The fixed high window stays on the last bank.
    assert_eq!(m.read(0xC000), 3 * 16);
    m.write(0x8000, 0x01);
    assert_eq!(m.read(0x8000), 16);
}

#[test]
fn cnrom_chr_bank_select() {
    // Mapper 3, 4 CHR banks.
    let mut m = Mapper::new(cart(2, 4, 0x30, 0x00)).unwrap();
    assert_eq!(m.read(0x0000), 0);
    m.write(0x8000, 0x02);
    assert_eq!(m.read(0x0000), 2 * 16);
    // Only the low two bits matter, then reduced modulo the bank count.
    m.write(0x8000, 0xFD);
    assert_eq!(m.read(0x0000), 16);
}

#[test]
fn axrom_switches_32k_banks() {
    // Mapper 7, 4 PRG banks of 16 KiB = two 32 KiB banks.
    let mut m = Mapper::new(cart(4, 1, 0x70, 0x00)).unwrap();
    assert_eq!(m.read(0x8000), 0);
    m.write(0x8000, 0x01);
    assert_eq!(m.read(0x8000), 2 * 16);
    // Out-of-range values reduce modulo the 32 KiB bank count.
    m.write(0x8000, 0x03);
    assert_eq!(m.read(0x8000), 2 * 16);
}

#[test]
fn mmc1_serial_register_write() {
    // Mapper 1, 8 PRG banks.  Load PRG bank 3 through five serial writes
    // to the PRG bank register at 0xE000 (LSB first).
    let mut m = Mapper::new(cart(8, 1, 0x10, 0x00)).unwrap();
    // First set the control register to PRG mode 3 (fix last bank high):
    // value 0x0C = 0b01100.
    for bit in [0u8, 0, 1, 1, 0] {
        m.write(0x8000, bit);
    }
    for bit in [1u8, 1, 0, 0, 0] {
        m.write(0xE000, bit);
    }
    assert_eq!(m.read(0x8000), 3 * 16);
    // High window pinned to the last bank in mode 3.
    assert_eq!(m.read(0xC000), 7 * 16);
}

#[test]
fn mmc1_reset_bit_clears_shift_register() {
    let mut m = Mapper::new(cart(8, 1, 0x10, 0x00)).unwrap();
    // Two bits in, then a write with the high bit set abandons them.
    m.write(0xE000, 1);
    m.write(0xE000, 1);
    m.write(0xE000, 0x80);
    // Five fresh writes now load a full value.
    for bit in [0u8, 1, 0, 0, 0] {
        m.write(0xE000, bit);
    }
    assert_eq!(m.read(0x8000), 2 * 16);
}

#[test]
fn mmc3_bank_table_and_modes() {
    // Mapper 4, 8 PRG banks of 16 KiB = sixteen 8 KiB banks.
    let mut m = Mapper::new(cart(8, 1, 0x40, 0x00)).unwrap();
    // Select table entry 6 (the 0x8000 window in mode 0), load bank 5.
    m.write(0x8000, 6);
    m.write(0x8001, 5);
    // 8 KiB bank 5 starts at byte 5 * 0x2000 inside PRG, whose fill byte
    // is (5 * 0x2000 / 16384) * 16 = 2 * 16.
    assert_eq!(m.read(0x8000), 2 * 16);
    // The last window is pinned to the last 8 KiB bank, which starts
    // halfway into the last 16 KiB bank.
    assert_eq!(m.read(0xE000), 7 * 16);
}

#[test]
fn mmc3_scanline_counter_fires_once_after_reload() {
    let mut m = MMC3::new(cart(8, 1, 0x40, 0x00));
    // Reload value 4 and IRQ enabled, counter spent.
    m.write(0xC000, 4);
    m.write(0xE001, 0);
    assert!(m.irq_enable);
    assert_eq!(m.counter, 0);
    let mut irqs = 0;
    for boundary in 1..=5 {
        let irq = m.emulate(280, 100, true);
        if irq {
            irqs += 1;
            assert_eq!(boundary, 5);
        }
    }
    assert_eq!(irqs, 1);
    assert_eq!(m.counter, 0);
}

#[test]
fn mmc3_counter_ignores_non_qualifying_dots() {
    let mut m = MMC3::new(cart(8, 1, 0x40, 0x00));
    m.write(0xC000, 1);
    m.write(0xE001, 0);
    assert!(!m.emulate(279, 100, true));
    assert!(!m.emulate(280, 100, false));
    assert!(!m.emulate(280, 250, true));
    assert!(!m.emulate(280, 260, true));
    assert_eq!(m.counter, 0);
    // A qualifying dot reloads; the pre-render line fires next.
    assert!(!m.emulate(280, 100, true));
    assert!(m.emulate(280, 261, true));
}

#[test]
fn mmc3_irq_disable_suppresses_the_pull() {
    let mut m = MMC3::new(cart(8, 1, 0x40, 0x00));
    m.write(0xC000, 1);
    m.write(0xE000, 0);
    assert!(!m.emulate(280, 0, true));
    assert!(!m.emulate(280, 1, true));
}

#[test]
fn sram_round_trips_through_save_and_load() {
    // Battery flag set (bit 1 of flag byte 6).
    let mut m = Mapper::new(cart(2, 1, 0x02, 0x00)).unwrap();
    for i in 0..32u16 {
        m.write(0x6000 + i * 7, (i * 3 + 1) as u8);
    }
    let dump = m.sram_save().unwrap();
    assert_eq!(dump.len(), 8192);
    let mut fresh = Mapper::new(cart(2, 1, 0x02, 0x00)).unwrap();
    assert!(fresh.sram_load(&dump));
    for i in 0..32u16 {
        assert_eq!(fresh.read(0x6000 + i * 7), (i * 3 + 1) as u8);
    }
    assert_eq!(fresh.sram_save().unwrap(), dump);
}

#[test]
fn sram_save_requires_a_battery() {
    let mut m = Mapper::new(cart(2, 1, 0x00, 0x00)).unwrap();
    assert!(m.sram_save().is_none());
    // Loading without a battery is a successful no-op.
    assert!(m.sram_load(&vec![0u8; 16]));
}

#[test]
fn sram_load_rejects_wrong_sizes() {
    let mut m = Mapper::new(cart(2, 1, 0x02, 0x00)).unwrap();
    assert!(!m.sram_load(&vec![1u8; 100]));
    assert!(m.sram_load(&vec![1u8; 8192]));
    assert_eq!(m.read(0x6000), 1);
}

#[test]
fn simple_mirror_modes() {
    // Horizontal.
    assert_eq!(simple_mirror_address(0, 0x2400), 0x0000);
    assert_eq!(simple_mirror_address(0, 0x2800), 0x0400);
    // Vertical.
    assert_eq!(simple_mirror_address(1, 0x2800), 0x0000);
    assert_eq!(simple_mirror_address(1, 0x2400), 0x0400);
    // Single screen, low and high.
    assert_eq!(simple_mirror_address(2, 0x2C33), 0x0033);
    assert_eq!(simple_mirror_address(3, 0x2033), 0x0433);
    // Four screen.
    assert_eq!(simple_mirror_address(4, 0x2C33), 0x0C33);
}
