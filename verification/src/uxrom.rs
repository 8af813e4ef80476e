//! The UxROM board: a switchable 16 KiB PRG bank at 0x8000 and a fixed
//! last bank at 0xC000.

use vstd::prelude::*;
use crate::bitops::{lemma_bank_window, lemma_u16_and_le};
use crate::cartridge::Cartridge;
use crate::sram::SRam;

verus! {

broadcast use lemma_u16_and_le;

#[derive(Debug, Clone)]
pub struct UxROM {
    pub cartridge: Cartridge,
    pub prg_banks: u8,
    pub prg_bank1: u8,
    pub prg_bank2: u8,
    pub sram: SRam,
}

impl UxROM {
    /// Bank registers stay reduced below the bank count, so bank windows
    /// always land inside the PRG array.
    pub open spec fn wf(self) -> bool {
        &&& self.cartridge.wf()
        &&& self.prg_banks == self.cartridge.header.prgsz
        &&& self.prg_bank1 < self.prg_banks
        &&& self.prg_bank2 == self.prg_banks - 1
        &&& self.sram.data@.len() == 8192
    }

    /// A fresh board: the low window on bank 0, the high window fixed on
    /// the last bank.
    pub fn new(cartridge: Cartridge) -> (r: UxROM)
        requires
            cartridge.wf(),
        ensures
            r.wf(),
            r.cartridge == cartridge,
            r.prg_bank1 == 0,
            r.prg_bank2 == cartridge.header.prgsz - 1,
            r.sram.data@ == Seq::<u8>::new(8192, |i: int| 0u8),
    {
        let banks = cartridge.header.prgsz;
        UxROM {
            cartridge,
            prg_banks: banks,
            prg_bank1: 0,
            prg_bank2: banks - 1,
            sram: SRam::with_size(8192),
        }
    }

    /// What a processor-side read returns: character data below 0x2000,
    /// save RAM in its window, the switchable bank up to 0xC000, and the
    /// fixed bank above.
    pub open spec fn spec_read(self, address: u16) -> u8 {
        if address < 0x2000 {
            self.cartridge.chr@[address as int]
        } else if address >= 0x6000 && address < 0x8000 {
            self.sram.data@[(address & 0x1FFF) as int]
        } else if address < 0xC000 {
            self.cartridge.prg@[self.prg_bank1 as int * 0x4000 + (address & 0x3FFF)]
        } else {
            self.cartridge.prg@[self.prg_bank2 as int * 0x4000 + (address & 0x3FFF)]
        }
    }

    pub fn read(&mut self, address: u16) -> (r: u8)
        requires
            old(self).wf(),
        ensures
            *final(self) == *old(self),
            r == old(self).spec_read(address),
    {
        proof {
            lemma_bank_window(self.prg_bank1 as int, self.prg_banks as int, 0x4000);
            lemma_bank_window(self.prg_bank2 as int, self.prg_banks as int, 0x4000);
        }
        if address < 0x2000 {
            self.cartridge.chr[address as usize]
        } else if address >= 0x6000 && address < 0x8000 {
            self.sram.read((address & 0x1FFF) as usize)
        } else if address < 0xC000 {
            let a = (self.prg_bank1 as usize) * 0x4000 + (address & 0x3FFF) as usize;
            self.cartridge.prg[a]
        } else {
            let a = (self.prg_bank2 as usize) * 0x4000 + (address & 0x3FFF) as usize;
            self.cartridge.prg[a]
        }
    }

    /// Exactly what a processor-side write does, as a relation between the
    /// board before (`self`) and after (`post`).
    pub open spec fn spec_write_effect(self, address: u16, value: u8, post: UxROM) -> bool {
        &&& post.prg_banks == self.prg_banks
        &&& post.prg_bank2 == self.prg_bank2
        &&& post.cartridge.header == self.cartridge.header
        &&& post.cartridge.prg == self.cartridge.prg
        &&& (address < 0x2000 ==> {
            &&& post.cartridge.chr@ == self.cartridge.chr@.update(address as int, value)
            &&& post.sram == self.sram
            &&& post.prg_bank1 == self.prg_bank1
        })
        &&& (address >= 0x6000 && address < 0x8000 ==> {
            &&& post.sram.data@ == self.sram.data@.update((address & 0x1FFF) as int, value)
            &&& post.cartridge == self.cartridge
            &&& post.prg_bank1 == self.prg_bank1
        })
        &&& (address >= 0x8000 ==> {
            &&& post.prg_bank1 == value % self.prg_banks
            &&& post.cartridge == self.cartridge
            &&& post.sram == self.sram
        })
        &&& (address >= 0x2000 && address < 0x6000 ==> post == self)
    }

    /// Processor-side write: character RAM below 0x2000, save RAM in its
    /// window, and above 0x8000 the value picks the switchable bank,
    /// reduced modulo the bank count.
    pub fn write(&mut self, address: u16, value: u8)
        requires
            old(self).wf(),
        ensures
            final(self).wf(),
            old(self).spec_write_effect(address, value, *final(self)),
    {
        if address < 0x2000 {
            self.cartridge.chr[address as usize] = value;
        } else if address >= 0x6000 && address < 0x8000 {
            self.sram.write((address & 0x1FFF) as usize, value);
        } else if address >= 0x8000 {
            self.prg_bank1 = value % self.prg_banks;
        }
    }
}

} // verus!
