//! Cartridge mappers: the board logic that banks PRG/CHR into the address
//! space, routes save RAM, and (on one board) counts scanlines for IRQs.
//! The supported boards form a closed set, so one enum dispatches them.

use vstd::prelude::*;
use crate::axrom::AxROM;
use crate::cartridge::{Cartridge, LoadError};
use crate::cnrom::CNROM;
use crate::mmc1::MMC1;
use crate::mmc3::MMC3;
use crate::sram::SRam;
use crate::uxrom::UxROM;

verus! {

/// What `simple_mirror_address` folds a nametable address to, by mode:
/// 0 horizontal, 1 vertical, 2 single low page, 3 single high page,
/// 4 four-screen (identity).
pub open spec fn spec_simple_mirror(mode: u8, address: u16) -> u16 {
    let a = address & 0xFFF;
    if mode == 0 {
        (a & !0xC00) | ((a & 0x800) >> 1)
    } else if mode == 1 {
        a & !0x800
    } else if mode == 2 {
        a & !0xC00
    } else if mode == 3 {
        (a & !0xC00) | 0x400
    } else {
        a
    }
}

/// Fold a nametable address down to the 4 KiB VRAM window under one of the
/// five mirroring modes.
pub fn simple_mirror_address(mode: u8, address: u16) -> (r: u16)
    requires
        mode <= 4,
    ensures
        r == spec_simple_mirror(mode, address),
        r < 0x1000,
{
    let a = address & 0xFFF;
    match mode {
        0 => {
            let a11 = a & 0x800;
            proof {
                assert((((address & 0xFFF) & !0xC00u16) | (((address & 0xFFF) & 0x800) >> 1))
                    < 0x1000) by (bit_vector);
            }
            (a & !0xC00) | (a11 >> 1)
        },
        1 => {
            proof {
                assert(((address & 0xFFF) & !0x800u16) < 0x1000) by (bit_vector);
            }
            a & !0x800
        },
        2 => {
            proof {
                assert(((address & 0xFFF) & !0xC00u16) < 0x1000) by (bit_vector);
            }
            a & !0xC00
        },
        3 => {
            proof {
                assert((((address & 0xFFF) & !0xC00u16) | 0x400) < 0x1000) by (bit_vector);
            }
            (a & !0xC00) | 0x400
        },
        _ => {
            proof {
                assert((address & 0xFFF) < 0x1000) by (bit_vector);
            }
            a
        },
    }
}

/// The closed set of cartridge boards the console knows how to drive.
#[derive(Debug, Clone)]
pub enum Mapper {
    UxROM(UxROM),
    MMC1(MMC1),
    CNROM(CNROM),
    MMC3(MMC3),
    AxROM(AxROM),
}

impl Mapper {
    /// The board invariant: bank registers stay reduced so every derived
    /// offset lands inside the cartridge arrays.
    pub open spec fn wf(self) -> bool {
        match self {
            Mapper::UxROM(m) => m.wf(),
            Mapper::MMC1(m) => m.wf(),
            Mapper::CNROM(m) => m.wf(),
            Mapper::MMC3(m) => m.wf(),
            Mapper::AxROM(m) => m.wf(),
        }
    }

    /// The cartridge the board carries.
    pub open spec fn spec_cart(self) -> Cartridge {
        match self {
            Mapper::UxROM(m) => m.cartridge,
            Mapper::MMC1(m) => m.cartridge,
            Mapper::CNROM(m) => m.cartridge,
            Mapper::MMC3(m) => m.cartridge,
            Mapper::AxROM(m) => m.cartridge,
        }
    }

    /// The save RAM the board carries.
    pub open spec fn spec_sram(self) -> SRam {
        match self {
            Mapper::UxROM(m) => m.sram,
            Mapper::MMC1(m) => m.sram,
            Mapper::CNROM(m) => m.sram,
            Mapper::MMC3(m) => m.sram,
            Mapper::AxROM(m) => m.sram,
        }
    }

    /// What a processor-side read of the board returns.
    pub open spec fn spec_read(self, address: u16) -> u8 {
        match self {
            Mapper::UxROM(m) => m.spec_read(address),
            Mapper::MMC1(m) => m.spec_read(address),
            Mapper::CNROM(m) => m.spec_read(address),
            Mapper::MMC3(m) => m.spec_read(address),
            Mapper::AxROM(m) => m.spec_read(address),
        }
    }

    /// Pick the board variant the header's mapper id names.  Ids outside
    /// the supported set are a fatal load error.
    pub fn new(cartridge: Cartridge) -> (r: Result<Mapper, LoadError>)
        requires
            cartridge.wf(),
        ensures
            r is Ok <==> (cartridge.header.mapper == 0 || cartridge.header.mapper == 1
                || cartridge.header.mapper == 2 || cartridge.header.mapper == 3
                || cartridge.header.mapper == 4 || cartridge.header.mapper == 7),
            r is Err ==> r->Err_0 == LoadError::UnsupportedMapper(cartridge.header.mapper),
            r is Ok ==> r->Ok_0.wf() && r->Ok_0.spec_cart() == cartridge,
            r is Ok ==> ((r->Ok_0 is UxROM) <==> (cartridge.header.mapper == 0
                || cartridge.header.mapper == 2)),
            r is Ok ==> ((r->Ok_0 is MMC1) <==> cartridge.header.mapper == 1),
            r is Ok ==> ((r->Ok_0 is CNROM) <==> cartridge.header.mapper == 3),
            r is Ok ==> ((r->Ok_0 is MMC3) <==> cartridge.header.mapper == 4),
            r is Ok ==> ((r->Ok_0 is AxROM) <==> cartridge.header.mapper == 7),
    {
        match cartridge.header.mapper {
            0 | 2 => Ok(Mapper::UxROM(UxROM::new(cartridge))),
            1 => Ok(Mapper::MMC1(MMC1::new(cartridge))),
            3 => Ok(Mapper::CNROM(CNROM::new(cartridge))),
            4 => Ok(Mapper::MMC3(MMC3::new(cartridge))),
            7 => Ok(Mapper::AxROM(AxROM::new(cartridge))),
            m => Err(LoadError::UnsupportedMapper(m)),
        }
    }

    /// Processor-side read, dispatched to the board.
    pub fn read(&mut self, address: u16) -> (r: u8)
        requires
            old(self).wf(),
        ensures
            *final(self) == *old(self),
            r == old(self).spec_read(address),
    {
        match self {
            Mapper::UxROM(m) => m.read(address),
            Mapper::MMC1(m) => m.read(address),
            Mapper::CNROM(m) => m.read(address),
            Mapper::MMC3(m) => m.read(address),
            Mapper::AxROM(m) => m.read(address),
        }
    }

    /// Exactly what a processor-side write does: the board variant is
    /// kept, and the variant's own write relation holds between the board
    /// before and after.
    pub open spec fn spec_write_effect(self, address: u16, value: u8, post: Mapper) -> bool {
        match self {
            Mapper::UxROM(m) => post is UxROM && m.spec_write_effect(address, value, post->UxROM_0),
            Mapper::MMC1(m) => post is MMC1 && m.spec_write_effect(address, value, post->MMC1_0),
            Mapper::CNROM(m) => post is CNROM && m.spec_write_effect(address, value, post->CNROM_0),
            Mapper::MMC3(m) => post is MMC3 && m.spec_write_effect(address, value, post->MMC3_0),
            Mapper::AxROM(m) => post is AxROM && m.spec_write_effect(address, value, post->AxROM_0),
        }
    }

    /// Processor-side write, dispatched to the board.  Keeps the board
    /// invariant, never touches PRG data, and leaves the header alone.
    pub fn write(&mut self, address: u16, value: u8)
        requires
            old(self).wf(),
        ensures
            final(self).wf(),
            final(self).spec_cart().header == old(self).spec_cart().header,
            final(self).spec_cart().prg == old(self).spec_cart().prg,
            old(self).spec_write_effect(address, value, *final(self)),
    {
        match self {
            Mapper::UxROM(m) => m.write(address, value),
            Mapper::MMC1(m) => m.write(address, value),
            Mapper::CNROM(m) => m.write(address, value),
            Mapper::MMC3(m) => m.write(address, value),
            Mapper::AxROM(m) => m.write(address, value),
        }
    }

    /// The nametable address the board's mirroring folds `address` to.
    pub open spec fn spec_mirror(self, address: u16) -> u16 {
        match self {
            Mapper::UxROM(m) => crate::cartridge::spec_mirror_cart(
                m.cartridge.header.fourscreen,
                m.cartridge.header.mirror,
                address,
            ),
            Mapper::CNROM(m) => crate::cartridge::spec_mirror_cart(
                m.cartridge.header.fourscreen,
                m.cartridge.header.mirror,
                address,
            ),
            Mapper::AxROM(m) => crate::cartridge::spec_mirror_cart(
                m.cartridge.header.fourscreen,
                m.cartridge.header.mirror,
                address,
            ),
            Mapper::MMC1(m) => spec_simple_mirror(
                if m.cartridge.header.fourscreen {
                    4u8
                } else {
                    !m.control & 3
                },
                address,
            ),
            Mapper::MMC3(m) => spec_simple_mirror(
                if m.cartridge.header.fourscreen {
                    4u8
                } else {
                    m.mirror_mode
                },
                address,
            ),
        }
    }

    /// Fold a nametable address per the board's mirroring policy.
    pub fn mirror_address(&self, address: u16) -> (r: u16)
        requires
            self.wf(),
        ensures
            r == self.spec_mirror(address),
            r < 0x1000,
    {
        match self {
            Mapper::UxROM(m) => m.cartridge.mirror_address(address),
            Mapper::MMC1(m) => m.mirror_address(address),
            Mapper::CNROM(m) => m.cartridge.mirror_address(address),
            Mapper::MMC3(m) => m.mirror_address(address),
            Mapper::AxROM(m) => m.cartridge.mirror_address(address),
        }
    }

    /// Per-dot hook: only the MMC3 board watches the picture processor's
    /// position to clock its scanline counter.  Returns true when the board
    /// asserts the processor IRQ line.
    pub fn emulate(&mut self, cycle: i32, scanline: i32, rendering: bool) -> (irq: bool)
        requires
            old(self).wf(),
        ensures
            final(self).wf(),
            final(self).spec_cart() == old(self).spec_cart(),
            final(self).spec_sram() == old(self).spec_sram(),
            !(*old(self) is MMC3) ==> *final(self) == *old(self) && !irq,
            *old(self) is MMC3 ==> *final(self) == Mapper::MMC3(
                (*old(self))->MMC3_0.spec_emulate(cycle, scanline, rendering),
            ) && irq == (*old(self))->MMC3_0.spec_emulate_irq(cycle, scanline, rendering),
    {
        match self {
            Mapper::MMC3(m) => m.emulate(cycle, scanline, rendering),
            _ => false,
        }
    }

    /// Battery-gated restore of the save RAM from a byte dump.  Boards
    /// without a battery ignore the dump and report success, as a missing
    /// save file is equivalent to fresh memory.
    pub fn sram_load(&mut self, bytes: &Vec<u8>) -> (r: bool)
        requires
            old(self).wf(),
        ensures
            final(self).wf(),
            final(self).spec_cart() == old(self).spec_cart(),
            !old(self).spec_cart().header.battery ==> *final(self) == *old(self) && r,
            old(self).spec_cart().header.battery ==> {
                &&& (r <==> bytes@.len() == old(self).spec_sram().data@.len())
                &&& (r ==> final(self).spec_sram().data@ == bytes@)
                &&& (!r ==> *final(self) == *old(self))
            },
    {
        if !self.battery() {
            return true;
        }
        match self {
            Mapper::UxROM(m) => m.sram.load(bytes),
            Mapper::MMC1(m) => m.sram.load(bytes),
            Mapper::CNROM(m) => m.sram.load(bytes),
            Mapper::MMC3(m) => m.sram.load(bytes),
            Mapper::AxROM(m) => m.sram.load(bytes),
        }
    }

    /// Battery-gated dump of the save RAM; boards without a battery have
    /// nothing to persist.
    pub fn sram_save(&self) -> (r: Option<Vec<u8>>)
        requires
            self.wf(),
        ensures
            r is Some <==> self.spec_cart().header.battery,
            r is Some ==> r->0@ == self.spec_sram().data@,
    {
        if !self.battery() {
            return None;
        }
        match self {
            Mapper::UxROM(m) => Some(m.sram.save()),
            Mapper::MMC1(m) => Some(m.sram.save()),
            Mapper::CNROM(m) => Some(m.sram.save()),
            Mapper::MMC3(m) => Some(m.sram.save()),
            Mapper::AxROM(m) => Some(m.sram.save()),
        }
    }

    /// Whether the cartridge reports battery-backed save RAM.
    pub fn battery(&self) -> (r: bool)
        ensures
            r == self.spec_cart().header.battery,
    {
        match self {
            Mapper::UxROM(m) => m.cartridge.header.battery,
            Mapper::MMC1(m) => m.cartridge.header.battery,
            Mapper::CNROM(m) => m.cartridge.header.battery,
            Mapper::MMC3(m) => m.cartridge.header.battery,
            Mapper::AxROM(m) => m.cartridge.header.battery,
        }
    }
}

/// Round trip at the board level: a battery-backed board's dump restores
/// into a fresh battery-backed board with the same save-RAM size,
/// reproducing the contents byte for byte.  (`sram_save` hands back
/// exactly the save-RAM view, and `sram_load` installs an accepted dump
/// verbatim.)
pub proof fn lemma_sram_round_trip(a: Mapper, fresh: Mapper)
    requires
        a.spec_cart().header.battery,
        fresh.spec_cart().header.battery,
        fresh.spec_sram().data@.len() == a.spec_sram().data@.len(),
    ensures
        fresh.spec_sram().spec_load_accepts(a.spec_sram().spec_save()),
        fresh.spec_sram().spec_loaded_view(a.spec_sram().spec_save()) == a.spec_sram().data@,
{
}

} // verus!
