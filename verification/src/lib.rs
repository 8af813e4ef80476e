//! Cycle-level model of an 8-bit console: a 6502 interpreter, a scanline
//! picture processor, a frame-sequenced audio processor, the cartridge
//! mappers that bank-switch the address space, and the bus that ties them
//! together.

pub mod apu;
pub mod apu_dmc;
pub mod apu_noise;
pub mod apu_pulse;
pub mod apu_triangle;
pub mod axrom;
pub mod bitops;
pub mod bus;
pub mod cartridge;
pub mod cnrom;
pub mod controller;
pub mod cpu6502;
pub mod cpu6502_info;
pub mod mapper;
pub mod mmc1;
pub mod mmc3;
pub mod nes;
pub mod ppu;
pub mod ppu_helper;
pub mod sram;
pub mod uxrom;
