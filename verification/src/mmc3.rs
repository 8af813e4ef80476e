//! The MMC3 board: an 8-register bank table driven by paired bank-select /
//! bank-data writes, plus a scanline counter that raises the processor IRQ
//! line.

use vstd::prelude::*;
use crate::bitops::{lemma_bank_window, lemma_u16_and_le, lemma_u8_and_le};
use crate::cartridge::Cartridge;
use crate::mapper::{simple_mirror_address, spec_simple_mirror};
use crate::sram::SRam;
use vstd::array::ArrayAdditionalExecFns;

verus! {

broadcast use lemma_u16_and_le, lemma_u8_and_le;

/// Byte offset of 8 KiB PRG bank `bank`, reduced modulo the count of 8 KiB
/// banks (twice the 16 KiB header count).
pub open spec fn spec_prg_bank_offset(cart: Cartridge, bank: u8) -> int {
    0x2000 * (bank as int % (2 * cart.header.prgsz as int))
}

/// Byte offset of 1 KiB CHR bank `bank`, reduced modulo the count of 1 KiB
/// banks (eight times the 8 KiB header count).
pub open spec fn spec_chr_bank_offset(cart: Cartridge, bank: u8) -> int {
    0x400 * (bank as int % (8 * cart.header.chrsz as int))
}

#[derive(Debug, Clone)]
pub struct MMC3 {
    pub cartridge: Cartridge,
    pub irq_enable: bool,
    pub register: u8,
    pub reload: u8,
    pub counter: u8,
    pub prg_mode: u8,
    pub chr_mode: u8,
    pub mirror_mode: u8,
    pub registers: [u8; 8],
    pub prg_offset: [usize; 4],
    pub chr_offset: [usize; 8],
    pub sram: SRam,
}

impl MMC3 {
    /// Derived offsets always leave a whole window inside the arrays, and
    /// the decoded mode fields stay in range.
    pub open spec fn wf(self) -> bool {
        &&& self.cartridge.wf()
        &&& self.register < 8
        &&& self.prg_mode <= 1
        &&& self.chr_mode <= 1
        &&& self.mirror_mode <= 1
        &&& forall|i: int|
            0 <= i < 4 ==> #[trigger] self.prg_offset@[i] + 0x2000 <= self.cartridge.prg@.len()
        &&& forall|i: int|
            0 <= i < 8 ==> #[trigger] self.chr_offset@[i] + 0x400 <= self.cartridge.chr@.len()
        &&& self.sram.data@.len() == 8192
    }

    /// The 8 KiB bank fed to PRG window `i` under the current mode: two
    /// switchable windows and two pinned to the last banks, with the mode
    /// swapping which half is pinned.
    pub open spec fn spec_prg_bank_at(self, i: int) -> u8 {
        if self.prg_mode == 0 {
            if i == 0 {
                self.registers@[6]
            } else if i == 1 {
                self.registers@[7]
            } else if i == 2 {
                0xFE
            } else {
                0xFF
            }
        } else {
            if i == 0 {
                0xFE
            } else if i == 1 {
                self.registers@[7]
            } else if i == 2 {
                self.registers@[6]
            } else {
                0xFF
            }
        }
    }

    /// The 1 KiB bank fed to CHR window `i`: two even/odd pairs and four
    /// single banks, with the mode swapping the halves.
    pub open spec fn spec_chr_bank_at(self, i: int) -> u8 {
        let j = if self.chr_mode == 0 {
            i
        } else {
            if i < 4 {
                i + 4
            } else {
                i - 4
            }
        };
        if j == 0 {
            self.registers@[0] & 0xFE
        } else if j == 1 {
            self.registers@[0] | 0x01
        } else if j == 2 {
            self.registers@[1] & 0xFE
        } else if j == 3 {
            self.registers@[1] | 0x01
        } else {
            self.registers@[j - 2]
        }
    }

    /// A fresh board: the two switchable PRG windows on the first banks,
    /// the fixed pair on the last.
    pub fn new(cartridge: Cartridge) -> (r: MMC3)
        requires
            cartridge.wf(),
        ensures
            r.wf(),
            r.cartridge == cartridge,
            r.irq_enable == false && r.register == 0 && r.reload == 0 && r.counter == 0,
            r.prg_mode == 0 && r.chr_mode == 0 && r.mirror_mode == 0,
            r.registers@ =~= Seq::<u8>::new(8, |i: int| 0u8),
            r.prg_offset@[0] == spec_prg_bank_offset(cartridge, 0x00),
            r.prg_offset@[1] == spec_prg_bank_offset(cartridge, 0x01),
            r.prg_offset@[2] == spec_prg_bank_offset(cartridge, 0xFE),
            r.prg_offset@[3] == spec_prg_bank_offset(cartridge, 0xFF),
            forall|i: int| 0 <= i < 8 ==> #[trigger] r.chr_offset@[i] == 0,
            r.sram.data@ == Seq::<u8>::new(8192, |i: int| 0u8),
    {
        let prg_offset = [
            MMC3::prg_bank_offset(&cartridge, 0x00),
            MMC3::prg_bank_offset(&cartridge, 0x01),
            MMC3::prg_bank_offset(&cartridge, 0xFE),
            MMC3::prg_bank_offset(&cartridge, 0xFF),
        ];
        MMC3 {
            cartridge,
            irq_enable: false,
            register: 0,
            reload: 0,
            counter: 0,
            prg_mode: 0,
            chr_mode: 0,
            mirror_mode: 0,
            registers: [0u8; 8],
            prg_offset,
            chr_offset: [0usize; 8],
            sram: SRam::with_size(8192),
        }
    }

    /// Byte offset of an 8 KiB PRG bank, reduced modulo the bank count so
    /// the window always fits.
    pub fn prg_bank_offset(cartridge: &Cartridge, bank: u8) -> (r: usize)
        requires
            cartridge.wf(),
        ensures
            r == spec_prg_bank_offset(*cartridge, bank),
            r + 0x2000 <= cartridge.prg@.len(),
    {
        let banks = 2 * cartridge.header.prgsz as u16;
        let bank = bank as u16 % banks;
        proof {
            lemma_bank_window(bank as int, banks as int, 0x2000);
        }
        0x2000 * bank as usize
    }

    /// Byte offset of a 1 KiB CHR bank, reduced modulo the bank count so
    /// the window always fits.
    pub fn chr_bank_offset(cartridge: &Cartridge, bank: u8) -> (r: usize)
        requires
            cartridge.wf(),
        ensures
            r == spec_chr_bank_offset(*cartridge, bank),
            r + 0x400 <= cartridge.chr@.len(),
    {
        let banks = 8 * cartridge.header.chrsz as u16;
        let bank = bank as u16 % banks;
        proof {
            lemma_bank_window(bank as int, banks as int, 0x400);
        }
        0x400 * bank as usize
    }

    /// Recompute all twelve window offsets from the modes and the bank
    /// table.
    #[verifier::rlimit(60)]
    pub fn update_offsets(&mut self)
        requires
            old(self).cartridge.wf(),
        ensures
            final(self).cartridge == old(self).cartridge,
            final(self).irq_enable == old(self).irq_enable,
            final(self).register == old(self).register,
            final(self).reload == old(self).reload,
            final(self).counter == old(self).counter,
            final(self).prg_mode == old(self).prg_mode,
            final(self).chr_mode == old(self).chr_mode,
            final(self).mirror_mode == old(self).mirror_mode,
            final(self).registers == old(self).registers,
            final(self).sram == old(self).sram,
            forall|i: int|
                0 <= i < 4 ==> #[trigger] final(self).prg_offset@[i] == spec_prg_bank_offset(
                    old(self).cartridge,
                    old(self).spec_prg_bank_at(i),
                ),
            forall|i: int|
                0 <= i < 8 ==> #[trigger] final(self).chr_offset@[i] == spec_chr_bank_offset(
                    old(self).cartridge,
                    old(self).spec_chr_bank_at(i),
                ),
            forall|i: int|
                0 <= i < 4 ==> #[trigger] final(self).prg_offset@[i] + 0x2000 <= old(
                    self,
                ).cartridge.prg@.len(),
            forall|i: int|
                0 <= i < 8 ==> #[trigger] final(self).chr_offset@[i] + 0x400 <= old(
                    self,
                ).cartridge.chr@.len(),
    {
        if self.prg_mode == 0 {
            self.prg_offset = [
                MMC3::prg_bank_offset(&self.cartridge, self.registers[6]),
                MMC3::prg_bank_offset(&self.cartridge, self.registers[7]),
                MMC3::prg_bank_offset(&self.cartridge, 0xFE),
                MMC3::prg_bank_offset(&self.cartridge, 0xFF),
            ];
        } else {
            self.prg_offset = [
                MMC3::prg_bank_offset(&self.cartridge, 0xFE),
                MMC3::prg_bank_offset(&self.cartridge, self.registers[7]),
                MMC3::prg_bank_offset(&self.cartridge, self.registers[6]),
                MMC3::prg_bank_offset(&self.cartridge, 0xFF),
            ];
        }
        if self.chr_mode == 0 {
            self.chr_offset.set(0, MMC3::chr_bank_offset(&self.cartridge, self.registers[0] & 0xFE));
            self.chr_offset.set(1, MMC3::chr_bank_offset(&self.cartridge, self.registers[0] | 0x01));
            self.chr_offset.set(2, MMC3::chr_bank_offset(&self.cartridge, self.registers[1] & 0xFE));
            self.chr_offset.set(3, MMC3::chr_bank_offset(&self.cartridge, self.registers[1] | 0x01));
            self.chr_offset.set(4, MMC3::chr_bank_offset(&self.cartridge, self.registers[2]));
            self.chr_offset.set(5, MMC3::chr_bank_offset(&self.cartridge, self.registers[3]));
            self.chr_offset.set(6, MMC3::chr_bank_offset(&self.cartridge, self.registers[4]));
            self.chr_offset.set(7, MMC3::chr_bank_offset(&self.cartridge, self.registers[5]));
        } else {
            self.chr_offset.set(0, MMC3::chr_bank_offset(&self.cartridge, self.registers[2]));
            self.chr_offset.set(1, MMC3::chr_bank_offset(&self.cartridge, self.registers[3]));
            self.chr_offset.set(2, MMC3::chr_bank_offset(&self.cartridge, self.registers[4]));
            self.chr_offset.set(3, MMC3::chr_bank_offset(&self.cartridge, self.registers[5]));
            self.chr_offset.set(4, MMC3::chr_bank_offset(&self.cartridge, self.registers[0] & 0xFE));
            self.chr_offset.set(5, MMC3::chr_bank_offset(&self.cartridge, self.registers[0] | 0x01));
            self.chr_offset.set(6, MMC3::chr_bank_offset(&self.cartridge, self.registers[1] & 0xFE));
            self.chr_offset.set(7, MMC3::chr_bank_offset(&self.cartridge, self.registers[1] | 0x01));
        }
    }

    /// Decode a bank-select write: the two banking modes and which table
    /// entry the next bank-data write lands in.
    pub fn write_bank_select(&mut self, val: u8)
        ensures
            *final(self) == (MMC3 {
                prg_mode: (val >> 6) & 1,
                chr_mode: (val >> 7) & 1,
                register: val & 7,
                ..*old(self)
            }),
    {
        self.prg_mode = (val >> 6) & 1;
        self.chr_mode = (val >> 7) & 1;
        self.register = val & 7;
    }

    /// Decode a mirroring write: bit 0 picks the mode, inverted into the
    /// shared numbering.
    pub fn write_mirror_mode(&mut self, val: u8)
        ensures
            *final(self) == (MMC3 { mirror_mode: (1 - (val & 1) as int) as u8, ..*old(self) }),
    {
        self.mirror_mode = 1 - (val & 1);
    }

    /// A register-space write, decoded by address range and parity:
    /// bank select / bank data, mirroring, IRQ reload / clear, IRQ
    /// disable / enable.
    pub fn write_register(&mut self, addr: u16, val: u8)
        requires
            old(self).wf(),
            addr >= 0x8000,
        ensures
            final(self).wf(),
            final(self).cartridge == old(self).cartridge,
            final(self).sram == old(self).sram,
            addr < 0xA000 ==> {
                &&& final(self).irq_enable == old(self).irq_enable
                &&& final(self).reload == old(self).reload
                &&& final(self).counter == old(self).counter
                &&& final(self).mirror_mode == old(self).mirror_mode
            },
            addr < 0xA000 && addr & 1 == 0 ==> {
                &&& final(self).prg_mode == (val >> 6) & 1
                &&& final(self).chr_mode == (val >> 7) & 1
                &&& final(self).register == val & 7
                &&& final(self).registers == old(self).registers
            },
            addr < 0xA000 && addr & 1 == 1 ==> {
                &&& final(self).registers@ == old(self).registers@.update(
                    old(self).register as int,
                    val,
                )
                &&& final(self).prg_mode == old(self).prg_mode
                &&& final(self).chr_mode == old(self).chr_mode
                &&& final(self).register == old(self).register
            },
            addr < 0xA000 ==> {
                &&& forall|i: int|
                    0 <= i < 4 ==> #[trigger] final(self).prg_offset@[i] == spec_prg_bank_offset(
                        old(self).cartridge,
                        final(self).spec_prg_bank_at(i),
                    )
                &&& forall|i: int|
                    0 <= i < 8 ==> #[trigger] final(self).chr_offset@[i] == spec_chr_bank_offset(
                        old(self).cartridge,
                        final(self).spec_chr_bank_at(i),
                    )
            },
            addr >= 0xA000 && addr < 0xC000 ==> *final(self) == (MMC3 {
                mirror_mode: final(self).mirror_mode,
                ..*old(self)
            }) && final(self).mirror_mode == if addr & 1 == 0 {
                (1 - (val & 1) as int) as u8
            } else {
                old(self).mirror_mode
            },
            addr >= 0xC000 && addr < 0xE000 && addr & 1 == 0 ==> *final(self) == (MMC3 {
                reload: val,
                ..*old(self)
            }),
            addr >= 0xC000 && addr < 0xE000 && addr & 1 == 1 ==> *final(self) == (MMC3 {
                counter: 0,
                ..*old(self)
            }),
            addr >= 0xE000 ==> *final(self) == (MMC3 {
                irq_enable: addr & 1 == 1,
                ..*old(self)
            }),
    {
        proof {
            assert(addr & 1 == 0 || addr & 1 == 1) by (bit_vector);
        }
        if addr < 0xA000 {
            if (addr & 1) == 0 {
                self.write_bank_select(val);
            } else {
                self.registers.set(self.register as usize, val);
            }
            self.update_offsets();
        } else if addr < 0xC000 {
            if (addr & 1) == 0 {
                self.write_mirror_mode(val);
            }
        } else if addr < 0xE000 {
            if (addr & 1) == 0 {
                self.reload = val;
            } else {
                self.counter = 0;
            }
        } else {
            self.irq_enable = (addr & 1) != 0;
        }
    }

    /// One qualifying scanline boundary: a spent counter reloads, anything
    /// else counts down.
    pub open spec fn spec_clock(self) -> MMC3 {
        if self.counter == 0 {
            MMC3 { counter: self.reload, ..self }
        } else {
            MMC3 { counter: (self.counter - 1) as u8, ..self }
        }
    }

    /// Whether one qualifying boundary fires the IRQ: only a count-down
    /// that reaches zero with the IRQ enabled.
    pub open spec fn spec_clock_irq(self) -> bool {
        self.counter == 1 && self.irq_enable
    }

    /// Whether the picture processor's position clocks the counter: dot
    /// 280 of a visible or pre-render line, while rendering is on.
    pub open spec fn spec_qualifies(cycle: i32, scanline: i32, rendering: bool) -> bool {
        cycle == 280 && (scanline < 240 || scanline == 261) && rendering
    }

    /// The state after one per-dot hook call.
    pub open spec fn spec_emulate(self, cycle: i32, scanline: i32, rendering: bool) -> MMC3 {
        if MMC3::spec_qualifies(cycle, scanline, rendering) {
            self.spec_clock()
        } else {
            self
        }
    }

    /// Whether one per-dot hook call asserts the IRQ line.
    pub open spec fn spec_emulate_irq(self, cycle: i32, scanline: i32, rendering: bool) -> bool {
        MMC3::spec_qualifies(cycle, scanline, rendering) && self.spec_clock_irq()
    }

    /// Per-dot hook: clock the scanline counter on qualifying boundaries;
    /// returns true when the board asserts the processor IRQ line.
    pub fn emulate(&mut self, cycle: i32, scanline: i32, rendering: bool) -> (irq: bool)
        requires
            old(self).wf(),
        ensures
            final(self).wf(),
            *final(self) == old(self).spec_emulate(cycle, scanline, rendering),
            irq == old(self).spec_emulate_irq(cycle, scanline, rendering),
    {
        if cycle == 280 && (scanline < 240 || scanline == 261) && rendering {
            if self.counter == 0 {
                self.counter = self.reload;
                false
            } else {
                self.counter = self.counter - 1;
                self.counter == 0 && self.irq_enable
            }
        } else {
            false
        }
    }

    /// What a processor-side read returns: the eight 1 KiB character
    /// windows below 0x2000, save RAM in its window, the four 8 KiB
    /// program windows above 0x8000, and open bus elsewhere.
    pub open spec fn spec_read(self, address: u16) -> u8 {
        if address < 0x2000 {
            self.cartridge.chr@[self.chr_offset@[address as int / 0x400] + (address as int
                % 0x400)]
        } else if address >= 0x6000 && address < 0x8000 {
            self.sram.data@[(address & 0x1FFF) as int]
        } else if address >= 0x8000 {
            self.cartridge.prg@[self.prg_offset@[(address - 0x8000) as int / 0x2000] + ((address
                - 0x8000) as int % 0x2000)]
        } else {
            0
        }
    }

    pub fn read(&mut self, address: u16) -> (r: u8)
        requires
            old(self).wf(),
        ensures
            *final(self) == *old(self),
            r == old(self).spec_read(address),
    {
        if address < 0x2000 {
            let bank = (address / 0x400) as usize;
            let offset = (address % 0x400) as usize;
            self.cartridge.chr[self.chr_offset[bank] + offset]
        } else if address >= 0x6000 && address < 0x8000 {
            self.sram.read((address & 0x1FFF) as usize)
        } else if address >= 0x8000 {
            proof {
                assert((address & 0x7FFF) == address % 0x8000) by (bit_vector);
            }
            let a = (address & 0x7FFF) as usize;
            let bank = a / 0x2000;
            let offset = a % 0x2000;
            self.cartridge.prg[self.prg_offset[bank] + offset]
        } else {
            0
        }
    }

    /// Exactly what a processor-side write does, as a relation between the
    /// board before (`self`) and after (`post`).  Bank-select and
    /// bank-data writes additionally rederive the window offsets, which
    /// `write_register` pins per element.
    pub open spec fn spec_write_effect(self, address: u16, value: u8, post: MMC3) -> bool {
        &&& post.cartridge.header == self.cartridge.header
        &&& post.cartridge.prg == self.cartridge.prg
        &&& (address < 0x2000 ==> {
            &&& post.cartridge.chr@ == self.cartridge.chr@.update(
                self.chr_offset@[address as int / 0x400] + (address as int % 0x400),
                value,
            )
            &&& post == (MMC3 { cartridge: post.cartridge, ..self })
        })
        &&& (address >= 0x6000 && address < 0x8000 ==> {
            &&& post.sram.data@ == self.sram.data@.update((address & 0x1FFF) as int, value)
            &&& post == (MMC3 { sram: post.sram, ..self })
        })
        &&& (address >= 0x8000 ==> post.sram == self.sram && post.cartridge == self.cartridge)
        &&& (address >= 0xC000 && address < 0xE000 && address & 1 == 0 ==> post == (MMC3 {
            reload: value,
            ..self
        }))
        &&& (address >= 0xC000 && address < 0xE000 && address & 1 == 1 ==> post == (MMC3 {
            counter: 0,
            ..self
        }))
        &&& (address >= 0xE000 ==> post == (MMC3 { irq_enable: address & 1 == 1, ..self }))
        &&& (address >= 0x8000 && address < 0xC000 ==> {
            &&& post.irq_enable == self.irq_enable
            &&& post.reload == self.reload
            &&& post.counter == self.counter
        })
        &&& (address >= 0x2000 && address < 0x6000 ==> post == self)
    }

    /// Processor-side write: character RAM below 0x2000 through the
    /// selected window, save RAM in its window, and above 0x8000 the
    /// register decoder.
    pub fn write(&mut self, address: u16, value: u8)
        requires
            old(self).wf(),
        ensures
            final(self).wf(),
            old(self).spec_write_effect(address, value, *final(self)),
    {
        if address < 0x2000 {
            let bank = (address / 0x400) as usize;
            let offset = (address % 0x400) as usize;
            self.cartridge.chr[self.chr_offset[bank] + offset] = value;
        } else if address >= 0x6000 && address < 0x8000 {
            self.sram.write((address & 0x1FFF) as usize, value);
        } else if address >= 0x8000 {
            self.write_register(address, value);
        }
    }

    /// Mirroring policy: four-screen boards pass through, otherwise the
    /// mirroring register picks the mode.
    pub fn mirror_address(&self, address: u16) -> (r: u16)
        requires
            self.mirror_mode <= 1,
        ensures
            r == spec_simple_mirror(
                if self.cartridge.header.fourscreen {
                    4u8
                } else {
                    self.mirror_mode
                },
                address,
            ),
            r < 0x1000,
    {
        let mode = if self.cartridge.header.fourscreen {
            4
        } else {
            self.mirror_mode
        };
        simple_mirror_address(mode, address)
    }
}

/// With the IRQ enabled and a reload value of `n`, qualifying scanline
/// boundaries fire exactly one IRQ: the first reloads the spent counter to
/// `n`, the next `n - 1` count down silently, and boundary `n + 1` reaches
/// zero and fires.
pub proof fn lemma_scanline_irq_after_reload(m: MMC3, k: int)
    requires
        m.counter == 0,
        m.irq_enable,
        m.reload >= 1,
        1 <= k <= m.reload + 1,
    ensures
        clocked(m, k).counter == m.reload + 1 - k,
        clocked(m, k).irq_enable && clocked(m, k).reload == m.reload,
        spec_clock_fires(m, k) <==> k == m.reload + 1,
    decreases k,
{
    if k == 1 {
        reveal_with_fuel(clocked, 2);
        assert(clocked(m, 1) == m.spec_clock());
    } else {
        lemma_scanline_irq_after_reload(m, k - 1);
    }
}

/// The board state after `k` qualifying scanline boundaries.
pub open spec fn clocked(m: MMC3, k: int) -> MMC3
    decreases k,
{
    if k <= 0 {
        m
    } else {
        clocked(m, k - 1).spec_clock()
    }
}

/// Whether boundary `k` (counting from 1) fires the IRQ.
pub open spec fn spec_clock_fires(m: MMC3, k: int) -> bool {
    clocked(m, k - 1).spec_clock_irq()
}

} // verus!
