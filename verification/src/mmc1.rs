//! The MMC1 board: a 5-bit serial shift register loads the control and
//! bank registers; PRG and CHR each bank in two windows whose layout the
//! control register picks.

use vstd::prelude::*;
use crate::bitops::{lemma_bank_window, lemma_u16_and_le, lemma_u8_and_le};
use crate::cartridge::Cartridge;
use crate::mapper::{simple_mirror_address, spec_simple_mirror};
use crate::sram::SRam;

verus! {

broadcast use lemma_u16_and_le, lemma_u8_and_le;

/// Byte offset of 16 KiB PRG bank `bank`, reduced modulo the bank count.
pub open spec fn spec_prg_bank_offset(cart: Cartridge, bank: u8) -> int {
    0x4000 * (bank as int % (cart.header.prgsz as int))
}

/// Byte offset of 4 KiB CHR bank `bank`, reduced modulo the count of 4 KiB
/// banks (twice the 8 KiB header count).
pub open spec fn spec_chr_bank_offset(cart: Cartridge, bank: u8) -> int {
    0x1000 * (bank as int % (2 * cart.header.chrsz as int))
}

#[derive(Debug, Clone)]
pub struct MMC1 {
    pub cartridge: Cartridge,
    pub shift_register: u8,
    pub control: u8,
    pub prg_mode: u8,
    pub chr_mode: u8,
    pub prg_bank: u8,
    pub chr_bank0: u8,
    pub chr_bank1: u8,
    pub prg_offset0: usize,
    pub prg_offset1: usize,
    pub chr_offset0: usize,
    pub chr_offset1: usize,
    pub sram: SRam,
}

impl MMC1 {
    /// Derived offsets always leave a whole window inside the arrays, and
    /// the mode fields stay in their decoded ranges.
    pub open spec fn wf(self) -> bool {
        &&& self.cartridge.wf()
        &&& self.prg_mode <= 3
        &&& self.chr_mode <= 1
        &&& self.prg_offset0 + 0x4000 <= self.cartridge.prg@.len()
        &&& self.prg_offset1 + 0x4000 <= self.cartridge.prg@.len()
        &&& self.chr_offset0 + 0x1000 <= self.cartridge.chr@.len()
        &&& self.chr_offset1 + 0x1000 <= self.cartridge.chr@.len()
        &&& self.sram.data@.len() == 8192
    }

    /// A fresh board: empty shift register, the high PRG window on the
    /// last bank.
    pub fn new(cartridge: Cartridge) -> (r: MMC1)
        requires
            cartridge.wf(),
        ensures
            r.wf(),
            r.cartridge == cartridge,
            r.shift_register == 0x10,
            r.control == 0 && r.prg_mode == 0 && r.chr_mode == 0,
            r.prg_bank == 0 && r.chr_bank0 == 0 && r.chr_bank1 == 0,
            r.prg_offset0 == 0,
            r.prg_offset1 == spec_prg_bank_offset(cartridge, 0xFF),
            r.chr_offset0 == 0 && r.chr_offset1 == 0,
            r.sram.data@ == Seq::<u8>::new(8192, |i: int| 0u8),
    {
        let prg_offset1 = MMC1::prg_bank_offset(&cartridge, 0xFF);
        MMC1 {
            cartridge,
            shift_register: 0x10,
            control: 0,
            prg_mode: 0,
            chr_mode: 0,
            prg_bank: 0,
            chr_bank0: 0,
            chr_bank1: 0,
            prg_offset0: 0,
            prg_offset1,
            chr_offset0: 0,
            chr_offset1: 0,
            sram: SRam::with_size(8192),
        }
    }

    /// Byte offset of a 16 KiB PRG bank, reduced modulo the bank count so
    /// the window always fits.
    pub fn prg_bank_offset(cartridge: &Cartridge, bank: u8) -> (r: usize)
        requires
            cartridge.wf(),
        ensures
            r == spec_prg_bank_offset(*cartridge, bank),
            r + 0x4000 <= cartridge.prg@.len(),
    {
        let bank = bank % cartridge.header.prgsz;
        proof {
            lemma_bank_window(bank as int, cartridge.header.prgsz as int, 0x4000);
        }
        0x4000 * bank as usize
    }

    /// Byte offset of a 4 KiB CHR bank, reduced modulo the count of 4 KiB
    /// banks so the window always fits.
    pub fn chr_bank_offset(cartridge: &Cartridge, bank: u8) -> (r: usize)
        requires
            cartridge.wf(),
        ensures
            r == spec_chr_bank_offset(*cartridge, bank),
            r + 0x1000 <= cartridge.chr@.len(),
    {
        let banks = 2 * cartridge.header.chrsz as u16;
        let bank = bank as u16 % banks;
        proof {
            lemma_bank_window(bank as int, banks as int, 0x1000);
        }
        0x1000 * bank as usize
    }

    /// The state after a control write: the mode bits are decoded out of
    /// the value.
    pub open spec fn spec_write_control(self, val: u8) -> MMC1 {
        MMC1 { control: val, chr_mode: (val >> 4) & 1, prg_mode: (val >> 2) & 3, ..self }
    }

    /// The offsets the current mode and bank registers derive.
    pub open spec fn spec_updated_offsets(self) -> MMC1 {
        MMC1 {
            prg_offset0: (if self.prg_mode == 2 {
                0int
            } else if self.prg_mode == 3 {
                spec_prg_bank_offset(self.cartridge, self.prg_bank)
            } else {
                spec_prg_bank_offset(self.cartridge, self.prg_bank & 0xFE)
            }) as usize,
            prg_offset1: (if self.prg_mode == 2 {
                spec_prg_bank_offset(self.cartridge, self.prg_bank)
            } else if self.prg_mode == 3 {
                spec_prg_bank_offset(self.cartridge, 0xFF)
            } else {
                spec_prg_bank_offset(self.cartridge, self.prg_bank | 0x01)
            }) as usize,
            chr_offset0: (if self.chr_mode == 0 {
                spec_chr_bank_offset(self.cartridge, self.chr_bank0 & 0xFE)
            } else {
                spec_chr_bank_offset(self.cartridge, self.chr_bank0)
            }) as usize,
            chr_offset1: (if self.chr_mode == 0 {
                spec_chr_bank_offset(self.cartridge, self.chr_bank0 | 0x01)
            } else {
                spec_chr_bank_offset(self.cartridge, self.chr_bank1)
            }) as usize,
            ..self
        }
    }

    /// The state after a completed 5-bit register write lands at `addr`.
    pub open spec fn spec_write_register(self, addr: u16, val: u8) -> MMC1 {
        let s = if addr < 0xA000 {
            self.spec_write_control(val)
        } else if addr < 0xC000 {
            MMC1 { chr_bank0: val, ..self }
        } else if addr < 0xE000 {
            MMC1 { chr_bank1: val, ..self }
        } else {
            MMC1 { prg_bank: val & 0x0F, ..self }
        };
        s.spec_updated_offsets()
    }

    /// The state after one serial write: a high bit resets the shifter and
    /// forces the PRG mode bits; otherwise one bit shifts in, and the
    /// fifth completes a register write.
    pub open spec fn spec_load_register(self, addr: u16, val: u8) -> MMC1 {
        if val & 0x80 != 0 {
            MMC1 {
                shift_register: 0x10,
                ..self.spec_write_control(self.control | 0x0C).spec_updated_offsets()
            }
        } else {
            let complete = self.shift_register & 1 != 0;
            let sr = (self.shift_register >> 1) | ((val & 1) << 4);
            if complete {
                MMC1 { shift_register: 0x10, ..self.spec_write_register(addr, sr) }
            } else {
                MMC1 { shift_register: sr, ..self }
            }
        }
    }

    /// Decode the control value into the mode fields.
    pub fn write_control(&mut self, val: u8)
        ensures
            *final(self) == old(self).spec_write_control(val),
    {
        self.control = val;
        self.chr_mode = (val >> 4) & 1;
        self.prg_mode = (val >> 2) & 3;
    }

    /// Recompute the four window offsets from the modes and bank
    /// registers.
    pub fn update_offsets(&mut self)
        requires
            old(self).cartridge.wf(),
        ensures
            *final(self) == old(self).spec_updated_offsets(),
            final(self).sram == old(self).sram,
            old(self).sram.data@.len() == 8192 && old(self).prg_mode <= 3 && old(self).chr_mode
                <= 1 ==> final(self).wf(),
    {
        if self.prg_mode == 2 {
            self.prg_offset0 = 0;
            self.prg_offset1 = MMC1::prg_bank_offset(&self.cartridge, self.prg_bank);
        } else if self.prg_mode == 3 {
            self.prg_offset0 = MMC1::prg_bank_offset(&self.cartridge, self.prg_bank);
            self.prg_offset1 = MMC1::prg_bank_offset(&self.cartridge, 0xFF);
        } else {
            self.prg_offset0 = MMC1::prg_bank_offset(&self.cartridge, self.prg_bank & 0xFE);
            self.prg_offset1 = MMC1::prg_bank_offset(&self.cartridge, self.prg_bank | 0x01);
        }
        if self.chr_mode == 0 {
            self.chr_offset0 = MMC1::chr_bank_offset(&self.cartridge, self.chr_bank0 & 0xFE);
            self.chr_offset1 = MMC1::chr_bank_offset(&self.cartridge, self.chr_bank0 | 0x01);
        } else {
            self.chr_offset0 = MMC1::chr_bank_offset(&self.cartridge, self.chr_bank0);
            self.chr_offset1 = MMC1::chr_bank_offset(&self.cartridge, self.chr_bank1);
        }
    }

    /// Apply a completed 5-bit value to the register `addr` selects, then
    /// rederive the offsets.
    pub fn write_register(&mut self, addr: u16, val: u8)
        requires
            old(self).wf(),
        ensures
            *final(self) == old(self).spec_write_register(addr, val),
            final(self).wf(),
    {
        if addr < 0xA000 {
            self.write_control(val);
        } else if addr < 0xC000 {
            self.chr_bank0 = val;
        } else if addr < 0xE000 {
            self.chr_bank1 = val;
        } else {
            self.prg_bank = val & 0x0F;
        }
        self.update_offsets();
    }

    /// One serial write into the shift register.
    pub fn load_register(&mut self, addr: u16, val: u8)
        requires
            old(self).wf(),
        ensures
            *final(self) == old(self).spec_load_register(addr, val),
            final(self).wf(),
    {
        if val & 0x80 != 0 {
            self.shift_register = 0x10;
            let control = self.control;
            self.write_control(control | 0x0C);
            self.update_offsets();
            self.shift_register = 0x10;
        } else {
            let complete = (self.shift_register & 1) != 0;
            self.shift_register = (self.shift_register >> 1) | ((val & 1) << 4);
            if complete {
                let sr = self.shift_register;
                self.write_register(addr, sr);
                self.shift_register = 0x10;
            }
        }
    }

    /// What a processor-side read returns: the two 4 KiB character windows
    /// below 0x2000, save RAM in its window, the two 16 KiB program
    /// windows above 0x8000, and open bus elsewhere.
    pub open spec fn spec_read(self, address: u16) -> u8 {
        if address < 0x1000 {
            self.cartridge.chr@[self.chr_offset0 + address]
        } else if address < 0x2000 {
            self.cartridge.chr@[self.chr_offset1 + (address - 0x1000)]
        } else if address >= 0x6000 && address < 0x8000 {
            self.sram.data@[(address & 0x1FFF) as int]
        } else if address >= 0x8000 && address < 0xC000 {
            self.cartridge.prg@[self.prg_offset0 + ((address & 0x7FFF) % 0x4000)]
        } else if address >= 0xC000 {
            self.cartridge.prg@[self.prg_offset1 + ((address & 0x7FFF) % 0x4000)]
        } else {
            0
        }
    }

    pub fn read(&mut self, address: u16) -> (r: u8)
        requires
            old(self).wf(),
        ensures
            *final(self) == *old(self),
            r == old(self).spec_read(address),
    {
        if address < 0x2000 {
            let bank = (address / 0x1000) as usize;
            let offset = (address % 0x1000) as usize;
            if bank == 0 {
                self.cartridge.chr[self.chr_offset0 + offset]
            } else {
                self.cartridge.chr[self.chr_offset1 + offset]
            }
        } else if address >= 0x6000 && address < 0x8000 {
            self.sram.read((address & 0x1FFF) as usize)
        } else if address >= 0x8000 {
            proof {
                assert((address & 0x7FFF) == address % 0x8000) by (bit_vector);
            }
            let a = (address & 0x7FFF) as usize;
            let bank = a / 0x4000;
            let offset = a % 0x4000;
            if bank == 0 {
                self.cartridge.prg[self.prg_offset0 + offset]
            } else {
                self.cartridge.prg[self.prg_offset1 + offset]
            }
        } else {
            0
        }
    }

    /// Exactly what a processor-side write does, as a relation between the
    /// board before (`self`) and after (`post`).
    pub open spec fn spec_write_effect(self, address: u16, value: u8, post: MMC1) -> bool {
        &&& post.cartridge.header == self.cartridge.header
        &&& post.cartridge.prg == self.cartridge.prg
        &&& (address < 0x1000 ==> {
            &&& post.cartridge.chr@ == self.cartridge.chr@.update(
                self.chr_offset0 + (address % 0x1000),
                value,
            )
            &&& post == (MMC1 { cartridge: post.cartridge, ..self })
        })
        &&& (address >= 0x1000 && address < 0x2000 ==> {
            &&& post.cartridge.chr@ == self.cartridge.chr@.update(
                self.chr_offset1 + (address % 0x1000),
                value,
            )
            &&& post == (MMC1 { cartridge: post.cartridge, ..self })
        })
        &&& (address >= 0x6000 && address < 0x8000 ==> {
            &&& post.sram.data@ == self.sram.data@.update((address & 0x1FFF) as int, value)
            &&& post == (MMC1 { sram: post.sram, ..self })
        })
        &&& (address >= 0x8000 ==> post == self.spec_load_register(address, value))
        &&& (address >= 0x2000 && address < 0x6000 ==> post == self)
    }

    /// Processor-side write: character RAM below 0x2000 through the
    /// selected window, save RAM in its window, and above 0x8000 a serial
    /// write into the shift register.
    pub fn write(&mut self, address: u16, value: u8)
        requires
            old(self).wf(),
        ensures
            final(self).wf(),
            old(self).spec_write_effect(address, value, *final(self)),
    {
        if address < 0x2000 {
            let bank = (address / 0x1000) as usize;
            let offset = (address % 0x1000) as usize;
            if bank == 0 {
                self.cartridge.chr[self.chr_offset0 + offset] = value;
            } else {
                self.cartridge.chr[self.chr_offset1 + offset] = value;
            }
        } else if address >= 0x6000 && address < 0x8000 {
            self.sram.write((address & 0x1FFF) as usize, value);
        } else if address >= 0x8000 {
            self.load_register(address, value);
        }
    }

    /// Mirroring policy: four-screen boards pass through; otherwise the
    /// low control bits pick the mode (inverted into the shared mode
    /// numbering).
    pub fn mirror_address(&self, address: u16) -> (r: u16)
        ensures
            r == spec_simple_mirror(
                if self.cartridge.header.fourscreen {
                    4u8
                } else {
                    !self.control & 3
                },
                address,
            ),
            r < 0x1000,
    {
        let mode = if self.cartridge.header.fourscreen {
            4
        } else {
            !self.control & 3
        };
        simple_mirror_address(mode, address)
    }
}

} // verus!
