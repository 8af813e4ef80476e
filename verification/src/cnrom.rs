//! The CNROM board: fixed PRG, a switchable 8 KiB CHR bank.

use vstd::prelude::*;
use crate::bitops::{lemma_bank_window, lemma_u16_and_le, lemma_u8_and_le};
use crate::cartridge::Cartridge;
use crate::sram::SRam;

verus! {

broadcast use lemma_u16_and_le, lemma_u8_and_le;

#[derive(Debug, Clone)]
pub struct CNROM {
    pub cartridge: Cartridge,
    pub chr_banks: u8,
    pub chr_bank1: u8,
    pub sram: SRam,
}

impl CNROM {
    /// The character bank register stays reduced below the bank count, so
    /// its 8 KiB window fits the character array.
    pub open spec fn wf(self) -> bool {
        &&& self.cartridge.wf()
        &&& self.chr_banks == self.cartridge.header.chrsz
        &&& self.chr_bank1 < self.chr_banks
        &&& self.sram.data@.len() == 8192
    }

    /// A fresh board on character bank 0.
    pub fn new(cartridge: Cartridge) -> (r: CNROM)
        requires
            cartridge.wf(),
        ensures
            r.wf(),
            r.cartridge == cartridge,
            r.chr_bank1 == 0,
            r.sram.data@ == Seq::<u8>::new(8192, |i: int| 0u8),
    {
        let chrsz = cartridge.header.chrsz;
        CNROM { cartridge, chr_banks: chrsz, chr_bank1: 0, sram: SRam::with_size(8192) }
    }

    /// What a processor-side read returns: the selected character bank
    /// below 0x2000, save RAM in its window, fixed program data above
    /// 0x8000 (folded into the array on 16 KiB boards), and open bus
    /// elsewhere.
    pub open spec fn spec_read(self, address: u16) -> u8 {
        if address < 0x2000 {
            self.cartridge.chr@[self.chr_bank1 as int * 0x2000 + address]
        } else if address >= 0x6000 && address < 0x8000 {
            self.sram.data@[(address & 0x1FFF) as int]
        } else if address >= 0x8000 {
            self.cartridge.prg@[(address & 0x7FFF) as int % self.cartridge.prg@.len() as int]
        } else {
            0
        }
    }

    pub fn read(&mut self, address: u16) -> (r: u8)
        requires
            old(self).wf(),
        ensures
            *final(self) == *old(self),
            r == old(self).spec_read(address),
    {
        if address < 0x2000 {
            proof {
                lemma_bank_window(self.chr_bank1 as int, self.chr_banks as int, 0x2000);
            }
            let a = (self.chr_bank1 as usize) * 0x2000 + address as usize;
            self.cartridge.chr[a]
        } else if address >= 0x6000 && address < 0x8000 {
            self.sram.read((address & 0x1FFF) as usize)
        } else if address >= 0x8000 {
            let a = (address & 0x7FFF) as usize % self.cartridge.prg.len();
            self.cartridge.prg[a]
        } else {
            0
        }
    }

    /// Exactly what a processor-side write does, as a relation between the
    /// board before (`self`) and after (`post`).
    pub open spec fn spec_write_effect(self, address: u16, value: u8, post: CNROM) -> bool {
        &&& post.chr_banks == self.chr_banks
        &&& post.cartridge.header == self.cartridge.header
        &&& post.cartridge.prg == self.cartridge.prg
        &&& (address < 0x2000 ==> {
            &&& post.cartridge.chr@ == self.cartridge.chr@.update(address as int, value)
            &&& post.sram == self.sram
            &&& post.chr_bank1 == self.chr_bank1
        })
        &&& (address >= 0x6000 && address < 0x8000 ==> {
            &&& post.sram.data@ == self.sram.data@.update((address & 0x1FFF) as int, value)
            &&& post.cartridge == self.cartridge
            &&& post.chr_bank1 == self.chr_bank1
        })
        &&& (address >= 0x8000 ==> {
            &&& post.chr_bank1 == value % self.chr_banks
            &&& post.cartridge == self.cartridge
            &&& post.sram == self.sram
        })
        &&& (address >= 0x2000 && address < 0x6000 ==> post == self)
    }

    /// Processor-side write: character RAM below 0x2000, save RAM in its
    /// window, and above 0x8000 the value picks the character bank,
    /// reduced modulo the bank count.
    pub fn write(&mut self, address: u16, value: u8)
        requires
            old(self).wf(),
        ensures
            final(self).wf(),
            old(self).spec_write_effect(address, value, *final(self)),
    {
        if address < 0x2000 {
            self.cartridge.chr[address as usize] = value;
        } else if address >= 0x6000 && address < 0x8000 {
            self.sram.write((address & 0x1FFF) as usize, value);
        } else if address >= 0x8000 {
            self.chr_bank1 = value % self.chr_banks;
        }
    }
}

} // verus!
