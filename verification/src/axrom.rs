//! The AxROM board: one switchable 32 KiB PRG window covering the whole
//! upper address space.

use vstd::prelude::*;
use crate::bitops::{lemma_bank_window, lemma_u16_and_le, lemma_u8_and_le};
use crate::cartridge::Cartridge;
use crate::sram::SRam;

verus! {

broadcast use lemma_u16_and_le, lemma_u8_and_le;

#[derive(Debug, Clone)]
pub struct AxROM {
    pub cartridge: Cartridge,
    /// Count of 32 KiB banks (half the 16 KiB count in the header, with a
    /// floor of one).
    pub prg_banks: u8,
    pub prg_bank1: u8,
    pub sram: SRam,
}

impl AxROM {
    /// The bank register stays reduced below the 32 KiB bank count.
    pub open spec fn wf(self) -> bool {
        &&& self.cartridge.wf()
        &&& self.prg_banks == if self.cartridge.header.prgsz >= 2 {
            self.cartridge.header.prgsz / 2
        } else {
            1u8
        }
        &&& self.prg_bank1 < self.prg_banks
        &&& self.sram.data@.len() == 8192
    }

    /// A fresh board on bank 0.
    pub fn new(cartridge: Cartridge) -> (r: AxROM)
        requires
            cartridge.wf(),
        ensures
            r.wf(),
            r.cartridge == cartridge,
            r.prg_bank1 == 0,
            r.sram.data@ == Seq::<u8>::new(8192, |i: int| 0u8),
    {
        let prgsz = cartridge.header.prgsz;
        let banks = if prgsz >= 2 {
            prgsz / 2
        } else {
            1
        };
        AxROM { cartridge, prg_banks: banks, prg_bank1: 0, sram: SRam::with_size(8192) }
    }

    /// What a processor-side read returns: character data below 0x2000,
    /// save RAM in its window, and the selected 32 KiB bank above 0x8000
    /// (folded into the array on 16 KiB boards).
    pub open spec fn spec_read(self, address: u16) -> u8 {
        if address < 0x2000 {
            self.cartridge.chr@[address as int]
        } else if address >= 0x6000 && address < 0x8000 {
            self.sram.data@[(address & 0x1FFF) as int]
        } else if address >= 0x8000 {
            self.cartridge.prg@[((self.prg_bank1 & 0xF) as int * 0x8000 + (address & 0x7FFF))
                % self.cartridge.prg@.len() as int]
        } else {
            0
        }
    }

    pub fn read(&mut self, address: u16) -> (r: u8)
        requires
            old(self).wf(),
        ensures
            *final(self) == *old(self),
            r == old(self).spec_read(address),
    {
        if address < 0x2000 {
            self.cartridge.chr[address as usize]
        } else if address >= 0x6000 && address < 0x8000 {
            self.sram.read((address & 0x1FFF) as usize)
        } else if address >= 0x8000 {
            let a = ((self.prg_bank1 & 0xF) as usize) * 0x8000 + (address & 0x7FFF) as usize;
            let a = a % self.cartridge.prg.len();
            self.cartridge.prg[a]
        } else {
            0
        }
    }

    /// Exactly what a processor-side write does, as a relation between the
    /// board before (`self`) and after (`post`).
    pub open spec fn spec_write_effect(self, address: u16, value: u8, post: AxROM) -> bool {
        &&& post.prg_banks == self.prg_banks
        &&& post.cartridge.header == self.cartridge.header
        &&& post.cartridge.prg == self.cartridge.prg
        &&& (address < 0x2000 ==> {
            &&& post.cartridge.chr@ == self.cartridge.chr@.update(address as int, value)
            &&& post.sram == self.sram
            &&& post.prg_bank1 == self.prg_bank1
        })
        &&& (address >= 0x6000 && address < 0x8000 ==> {
            &&& post.sram.data@ == self.sram.data@.update((address & 0x1FFF) as int, value)
            &&& post.cartridge == self.cartridge
            &&& post.prg_bank1 == self.prg_bank1
        })
        &&& (address >= 0x8000 ==> {
            &&& post.prg_bank1 == value % self.prg_banks
            &&& post.cartridge == self.cartridge
            &&& post.sram == self.sram
        })
        &&& (address >= 0x2000 && address < 0x6000 ==> post == self)
    }

    /// Processor-side write: character RAM below 0x2000, save RAM in its
    /// window, and above 0x8000 the value picks the 32 KiB bank, reduced
    /// modulo the bank count.
    pub fn write(&mut self, address: u16, value: u8)
        requires
            old(self).wf(),
        ensures
            final(self).wf(),
            old(self).spec_write_effect(address, value, *final(self)),
    {
        if address < 0x2000 {
            self.cartridge.chr[address as usize] = value;
        } else if address >= 0x6000 && address < 0x8000 {
            self.sram.write((address & 0x1FFF) as usize, value);
        } else if address >= 0x8000 {
            self.prg_bank1 = value % self.prg_banks;
        }
    }
}

} // verus!
