//! The shared side of the console: cartridge board, work RAM, video RAM,
//! palette RAM, the two pad latches, the DMA stall ledger and the
//! interrupt request lines the other units pull.

use vstd::prelude::*;
use crate::bitops::{lemma_u16_and_le, lemma_u8_and_le};
use crate::controller::Controller;
use crate::mapper::Mapper;

verus! {

broadcast use lemma_u16_and_le, lemma_u8_and_le;

/// The 64-entry hardware palette, as packed ABGR pixels.
pub fn hardware_palette() -> (r: Vec<u32>)
    ensures
        r@.len() == 64,
        r@[0] == 0xff666666u32,
        r@[13] == 0xff000000u32,
{
    let mut r: Vec<u32> = Vec::new();
    r.push(0xff666666);
    r.push(0xff882a00);
    r.push(0xffa71214);
    r.push(0xffa4003b);
    r.push(0xff7e005c);
    r.push(0xff40006e);
    r.push(0xff00066c);
    r.push(0xff001d56);
    r.push(0xff003533);
    r.push(0xff00480b);
    r.push(0xff005200);
    r.push(0xff084f00);
    r.push(0xff4d4000);
    r.push(0xff000000);
    r.push(0xff000000);
    r.push(0xff000000);
    r.push(0xffadadad);
    r.push(0xffd95f15);
    r.push(0xffff4042);
    r.push(0xfffe2775);
    r.push(0xffcc1aa0);
    r.push(0xff7b1eb7);
    r.push(0xff2031b5);
    r.push(0xff004e99);
    r.push(0xff006d6b);
    r.push(0xff008738);
    r.push(0xff00930c);
    r.push(0xff328f00);
    r.push(0xff8d7c00);
    r.push(0xff000000);
    r.push(0xff000000);
    r.push(0xff000000);
    r.push(0xfffffeff);
    r.push(0xffffb064);
    r.push(0xffff9092);
    r.push(0xffff76c6);
    r.push(0xffff6af3);
    r.push(0xffcc6efe);
    r.push(0xff7081fe);
    r.push(0xff229eea);
    r.push(0xff00bebc);
    r.push(0xff00d888);
    r.push(0xff30e45c);
    r.push(0xff82e045);
    r.push(0xffdecd48);
    r.push(0xff4f4f4f);
    r.push(0xff000000);
    r.push(0xff000000);
    r.push(0xfffffeff);
    r.push(0xffffdfc0);
    r.push(0xffffd2d3);
    r.push(0xffffc8e8);
    r.push(0xffffc2fb);
    r.push(0xffeac4fe);
    r.push(0xffc5ccfe);
    r.push(0xffa5d8f7);
    r.push(0xff94e5e4);
    r.push(0xff96efcf);
    r.push(0xffabf4bd);
    r.push(0xffccf3b3);
    r.push(0xfff2ebb5);
    r.push(0xffb8b8b8);
    r.push(0xff000000);
    r.push(0xff000000);
    r
}

#[derive(Debug, Clone)]
pub struct Bus {
    pub mapper: Mapper,
    pub ram: Vec<u8>,
    pub vram: Vec<u8>,
    pub pram: Vec<u8>,
    pub palette: Vec<u32>,
    pub controller0: Controller,
    pub controller1: Controller,
    pub stall_cycles: u32,
    pub stall_oddcycle: bool,
    pub nmi_line: bool,
    pub irq_line: bool,
}

/// Palette RAM folding: 32 entries, with the sprite background slots 16,
/// 20, 24 and 28 aliasing the background slots 0, 4, 8 and 12.
pub open spec fn spec_palette_addr(address: u16) -> int {
    let a = address & 0x1F;
    if a >= 16 && a % 4 == 0 {
        a - 16
    } else {
        a as int
    }
}

impl Bus {
    /// The memory invariant: every array at its hardware size, the board
    /// sound.
    pub open spec fn wf(self) -> bool {
        &&& self.mapper.wf()
        &&& self.ram@.len() == 2048
        &&& self.vram@.len() == 4096
        &&& self.pram@.len() == 32
        &&& self.palette@.len() == 64
    }

    /// Fresh memories around a board: all RAM zeroed, no stall owed, no
    /// line pulled.
    pub fn new(mapper: Mapper) -> (r: Bus)
        requires
            mapper.wf(),
        ensures
            r.wf(),
            r.mapper == mapper,
            r.ram@ == Seq::<u8>::new(2048, |i: int| 0u8),
            r.vram@ == Seq::<u8>::new(4096, |i: int| 0u8),
            r.pram@ == Seq::<u8>::new(32, |i: int| 0u8),
            r.controller0 == (Controller { buttons: 0, index: 0, strobe: 0 }),
            r.controller1 == (Controller { buttons: 0, index: 0, strobe: 0 }),
            r.stall_cycles == 0 && !r.stall_oddcycle && !r.nmi_line && !r.irq_line,
    {
        Bus {
            mapper,
            ram: zero_bytes(2048),
            vram: zero_bytes(4096),
            pram: zero_bytes(32),
            palette: hardware_palette(),
            controller0: Controller::new(),
            controller1: Controller::new(),
            stall_cycles: 0,
            stall_oddcycle: false,
            nmi_line: false,
            irq_line: false,
        }
    }

    /// Fold a palette RAM address to the slot it lands in.
    pub fn palette_addr(address: u16) -> (r: usize)
        ensures
            r == spec_palette_addr(address),
            r < 32,
    {
        let address = address & 0x1F;
        let a = if address >= 16 && (address % 4) == 0 {
            address - 16
        } else {
            address
        };
        a as usize
    }

    /// What a read from the picture processor's address space returns.
    pub open spec fn spec_read_direct_ppu(self, address: u16) -> u8 {
        if address < 0x2000 {
            self.mapper.spec_read(address)
        } else if address < 0x3F00 {
            self.vram@[self.mapper.spec_mirror(address) as int]
        } else if address < 0x4000 {
            self.pram@[spec_palette_addr(address)]
        } else {
            0
        }
    }

    /// A read from the picture processor's address space: pattern tables
    /// through the board, nametables in VRAM under the board's mirroring,
    /// palette RAM behind both (reads fold the mirrored slots exactly as
    /// writes do).
    pub fn ppu_read(&mut self, address: u16) -> (r: u8)
        requires
            old(self).wf(),
        ensures
            *final(self) == *old(self),
            r == old(self).spec_read_direct_ppu(address),
    {
        if address < 0x2000 {
            self.mapper.read(address)
        } else if address < 0x3F00 {
            let a = self.mapper.mirror_address(address);
            self.vram[a as usize]
        } else if address < 0x4000 {
            self.pram[Bus::palette_addr(address)]
        } else {
            0
        }
    }

    /// A write into the picture processor's address space; palette writes
    /// land in the folded slot.
    pub fn ppu_write(&mut self, address: u16, val: u8)
        requires
            old(self).wf(),
        ensures
            final(self).wf(),
            final(self).stall_cycles == old(self).stall_cycles,
            final(self).stall_oddcycle == old(self).stall_oddcycle,
            final(self).nmi_line == old(self).nmi_line,
            final(self).irq_line == old(self).irq_line,
            final(self).controller0 == old(self).controller0,
            final(self).controller1 == old(self).controller1,
            final(self).palette == old(self).palette,
            address < 0x2000 ==> final(self).ram == old(self).ram && final(self).vram == old(
                self,
            ).vram && final(self).pram == old(self).pram,
            0x2000 <= address < 0x3F00 ==> *final(self) == (Bus {
                vram: final(self).vram,
                ..*old(self)
            }) && final(self).vram@ == old(self).vram@.update(
                old(self).mapper.spec_mirror(address) as int,
                val,
            ),
            0x3F00 <= address < 0x4000 ==> *final(self) == (Bus {
                pram: final(self).pram,
                ..*old(self)
            }) && final(self).pram@ == old(self).pram@.update(spec_palette_addr(address), val),
            address >= 0x4000 ==> *final(self) == *old(self),
    {
        if address < 0x2000 {
            self.mapper.write(address, val);
        } else if address < 0x3F00 {
            let a = self.mapper.mirror_address(address);
            self.vram[a as usize] = val;
        } else if address < 0x4000 {
            let a = Bus::palette_addr(address);
            self.pram[a] = val;
        }
    }

    /// Resolve a 5-bit palette index to an output pixel through palette
    /// RAM and the hardware palette (palette values fold into the 64
    /// entries).
    pub fn palette_lookup(&self, color: u8) -> (r: u32)
        requires
            self.wf(),
            color < 32,
        ensures
            r == self.palette@[(self.pram@[color as int] & 0x3F) as int],
    {
        let pcolor = self.pram[color as usize] & 0x3F;
        self.palette[pcolor as usize]
    }

    /// What a processor-space read that bypasses the picture and audio
    /// registers returns: work RAM below 0x2000, the board from 0x4020 up,
    /// open bus between.  The sample reader uses this path; its cursor
    /// never points into the register window.
    pub open spec fn spec_read_direct(self, address: u16) -> u8 {
        if address < 0x2000 {
            self.ram@[(address & 0x7FF) as int]
        } else if address >= 0x4020 {
            self.mapper.spec_read(address)
        } else {
            0
        }
    }

    /// Read one byte from work RAM or the board, bypassing the register
    /// windows.
    pub fn read_direct(&mut self, address: u16) -> (r: u8)
        requires
            old(self).wf(),
        ensures
            *final(self) == *old(self),
            r == old(self).spec_read_direct(address),
    {
        if address < 0x2000 {
            self.ram[(address & 0x7FF) as usize]
        } else if address >= 0x4020 {
            self.mapper.read(address)
        } else {
            0
        }
    }

    /// Owe the processor a DMA stall; `oddcycle` marks a stall whose cost
    /// grows by one when it starts on an odd cycle.  The ledger saturates
    /// rather than wrapping.
    pub fn add_stall(&mut self, cycles: u32, oddcycle: bool)
        ensures
            *final(self) == (Bus {
                stall_cycles: if old(self).stall_cycles + cycles <= u32::MAX {
                    (old(self).stall_cycles + cycles) as u32
                } else {
                    u32::MAX
                },
                stall_oddcycle: old(self).stall_oddcycle || oddcycle,
                ..*old(self)
            }),
    {
        if self.stall_cycles <= u32::MAX - cycles {
            self.stall_cycles = self.stall_cycles + cycles;
        } else {
            self.stall_cycles = u32::MAX;
        }
        if oddcycle {
            self.stall_oddcycle = true;
        }
    }

    /// Settle the stall ledger.
    pub fn clear_stall(&mut self)
        ensures
            *final(self) == (Bus { stall_cycles: 0, stall_oddcycle: false, ..*old(self) }),
    {
        self.stall_cycles = 0;
        self.stall_oddcycle = false;
    }
}

/// A zero-filled byte vector of the given length.
pub fn zero_bytes(length: usize) -> (r: Vec<u8>)
    ensures
        r@ == Seq::<u8>::new(length as nat, |i: int| 0u8),
{
    let mut data: Vec<u8> = Vec::new();
    let mut i: usize = 0;
    while i < length
        invariant
            i <= length,
            data@ =~= Seq::<u8>::new(i as nat, |j: int| 0u8),
        decreases length - i,
    {
        data.push(0);
        i += 1;
        proof {
            assert(data@ =~= Seq::<u8>::new(i as nat, |j: int| 0u8));
        }
    }
    data
}

} // verus!
