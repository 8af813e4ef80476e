//! The console: the processor plus everything it addresses, and the master
//! loop that steps one instruction and fans the elapsed cycles out to the
//! picture and audio units.

use vstd::prelude::*;
use crate::apu::{Apu, ApuSample};
use crate::bus::Bus;
use crate::cartridge::{Cartridge, LoadError};
use crate::cpu6502::{Cpu6502, Memory};
use crate::mapper::Mapper;
use crate::ppu::{spec_pos, spec_pos_step, Ppu};

verus! {

broadcast use crate::bitops::lemma_u16_and_le;

/// Everything on the far side of the processor: the picture and audio
/// units and the shared bus.  This is the address space the processor
/// runs against.
#[derive(Debug, Clone)]
pub struct NesBody {
    pub ppu: Ppu,
    pub apu: Apu,
    pub bus: Bus,
}

impl NesBody {
    pub open spec fn wf(self) -> bool {
        &&& self.ppu.wf()
        &&& self.apu.wf()
        &&& self.bus.wf()
    }

    /// Copy one 256-byte page from processor memory into the sprite
    /// attribute memory, rotated by the OAM cursor (which ends back where
    /// it started), and book the 513-cycle stall the copy costs (one more
    /// is owed when it starts on an odd cycle, which the ledger's
    /// odd-cycle mark records).  For pages in plain work RAM or cartridge
    /// space the copied bytes are pinned exactly; pages over the hardware
    /// registers read through them, side effects included.
    pub fn oam_dma(&mut self, val: u8)
        requires
            old(self).wf(),
        ensures
            final(self).wf(),
            final(self).bus.stall_cycles == if old(self).bus.stall_cycles + 513 <= u32::MAX {
                (old(self).bus.stall_cycles + 513) as u32
            } else {
                u32::MAX
            },
            final(self).bus.stall_oddcycle,
            final(self).ppu.oam_addr == old(self).ppu.oam_addr,
            final(self).clocks() == old(self).clocks(),
            val < 0x20 || val >= 0x41 ==> {
                &&& final(self).bus == (Bus {
                    stall_cycles: final(self).bus.stall_cycles,
                    stall_oddcycle: true,
                    ..old(self).bus
                })
                &&& final(self).apu == old(self).apu
                &&& final(self).ppu == (Ppu { oam: final(self).ppu.oam, ..old(self).ppu })
                &&& forall|k: int|
                    0 <= k < 256 ==> final(self).ppu.oam@[#[trigger] old(
                        self,
                    ).ppu.oam_addr.wrapping_add(k as u8) as int] == old(self).read_value(
                        ((val as u16) << 8).wrapping_add(k as u16),
                    )
            },
    {
        let ghost start = *old(self);
        let mut addr = (val as u16) << 8;
        let mut i: usize = 0;
        proof {
            assert(((val as u16) << 8) <= 0xFF00) by (bit_vector);
            assert(val < 0x20 ==> ((val as u16) << 8) <= 0x1F00) by (bit_vector);
            assert(val >= 0x41 ==> ((val as u16) << 8) >= 0x4100) by (bit_vector);
        }
        while i < 256
            invariant
                self.wf(),
                i <= 256,
                self.bus.stall_cycles == start.bus.stall_cycles,
                self.bus.stall_oddcycle == start.bus.stall_oddcycle,
                self.ppu.oam_addr == start.ppu.oam_addr.wrapping_add(i as u8),
                addr == ((val as u16) << 8).wrapping_add(i as u16),
                self.clocks() == start.clocks(),
                val < 0x20 || val >= 0x41 ==> {
                    &&& self.bus == start.bus
                    &&& self.apu == start.apu
                    &&& self.ppu == (Ppu {
                        oam: self.ppu.oam,
                        oam_addr: self.ppu.oam_addr,
                        ..start.ppu
                    })
                    &&& forall|k: int|
                        0 <= k < i ==> self.ppu.oam@[#[trigger] start.ppu.oam_addr.wrapping_add(
                            k as u8,
                        ) as int] == start.read_value(
                            ((val as u16) << 8).wrapping_add(k as u16),
                        )
                },
            decreases 256 - i,
        {
            proof {
                assert(((val as u16) << 8) <= 0xFF00) by (bit_vector);
                assert(val < 0x20 ==> ((val as u16) << 8) <= 0x1F00) by (bit_vector);
                assert(val >= 0x41 ==> ((val as u16) << 8) >= 0x4100) by (bit_vector);
                assert(i < 256 ==> ((val as u16) << 8).wrapping_add(i as u16) == ((val as u16)
                    << 8) + i) by (bit_vector)
                    requires
                        i < 0x10000,
                ;
            }
            let v = self.read(addr);
            let oam_addr = self.ppu.oam_addr as usize;
            self.ppu.oam[oam_addr] = v;
            proof {
                if val < 0x20 || val >= 0x41 {
                    let a0 = start.ppu.oam_addr;
                    assert forall|k: int|
                        0 <= k < i implies #[trigger] a0.wrapping_add(k as u8) != a0.wrapping_add(
                        i as u8,
                    ) by {
                        let ku = k as u8;
                        let iu = i as u8;
                        assert(k < 256 && ku == k && iu == i && ku != iu);
                        assert(a0.wrapping_add(ku) != a0.wrapping_add(iu)) by (bit_vector)
                            requires
                                ku != iu,
                        ;
                    }
                }
            }
            self.ppu.oam_addr = self.ppu.oam_addr.wrapping_add(1);
            addr = addr.wrapping_add(1);
            i += 1;
            proof {
                let a0 = start.ppu.oam_addr;
                let base = (val as u16) << 8;
                assert(a0.wrapping_add(((i - 1) as usize) as u8).wrapping_add(1) == a0.wrapping_add(
                    i as u8,
                )) by (bit_vector)
                    requires
                        1 <= i <= 256,
                ;
                assert(base.wrapping_add(((i - 1) as usize) as u16).wrapping_add(1)
                    == base.wrapping_add(i as u16)) by (bit_vector)
                    requires
                        1 <= i <= 256,
                ;
            }
        }
        proof {
            let a0 = start.ppu.oam_addr;
            assert(a0.wrapping_add((256usize) as u8) == a0) by (bit_vector);
        }
        self.bus.add_stall(513, true);
    }
}

impl Memory for NesBody {
    open spec fn inv(&self) -> bool {
        self.wf()
    }

    open spec fn read_value(&self, address: u16) -> u8 {
        if address < 0x2000 {
            self.bus.ram@[(address & 0x7FF) as int]
        } else if address < 0x4000 {
            let reg = address & 7;
            if reg == 2 {
                self.ppu.spec_read_status_value()
            } else if reg == 4 {
                self.ppu.oam@[self.ppu.oam_addr as int]
            } else if reg == 7 {
                self.ppu.spec_read_data_value(self.bus)
            } else {
                0
            }
        } else if address == 0x4015 {
            (if self.apu.pulse0.spec_active() {
                0x01u8
            } else {
                0u8
            } | if self.apu.pulse1.spec_active() {
                0x02u8
            } else {
                0u8
            } | if self.apu.triangle.spec_active() {
                0x04u8
            } else {
                0u8
            } | if self.apu.noise.spec_active() {
                0x08u8
            } else {
                0u8
            } | if self.apu.dmc.spec_active() {
                0x10u8
            } else {
                0u8
            })
        } else if address == 0x4016 {
            self.bus.controller0.spec_read_bit()
        } else if address == 0x4017 {
            self.bus.controller1.spec_read_bit()
        } else if address >= 0x4020 {
            self.bus.mapper.spec_read(address)
        } else {
            0
        }
    }

    open spec fn clocks(&self) -> (u64, int, u32) {
        (self.apu.cycle, spec_pos(self.ppu), self.ppu.dead)
    }

    open spec fn after_read(&self, address: u16) -> NesBody {
        if 0x2000 <= address < 0x4000 {
            let reg = address & 7;
            if reg == 2 {
                NesBody { ppu: self.ppu.spec_read_status(), ..*self }
            } else if reg == 7 {
                NesBody { ppu: self.ppu.spec_after_read_data(self.bus), ..*self }
            } else {
                *self
            }
        } else if address == 0x4016 {
            NesBody {
                bus: Bus { controller0: self.bus.controller0.spec_after_read(), ..self.bus },
                ..*self
            }
        } else if address == 0x4017 {
            NesBody {
                bus: Bus { controller1: self.bus.controller1.spec_after_read(), ..self.bus },
                ..*self
            }
        } else {
            *self
        }
    }

    /// The processor-side read dispatcher: work RAM mirrored every 2 KiB,
    /// the picture registers mirrored every 8 bytes, the audio status
    /// port, the two pad latches, and the cartridge board from 0x4020 up;
    /// unmapped addresses answer zero.
    fn read(&mut self, address: u16) -> (r: u8)
        ensures
            final(self).bus.stall_cycles == old(self).bus.stall_cycles,
            final(self).bus.stall_oddcycle == old(self).bus.stall_oddcycle,
            address < 0x2000 ==> r == old(self).bus.ram@[(address & 0x7FF) as int] && *final(self)
                == *old(self),
            0x2000 <= address < 0x4000 && address & 7 == 2 ==> r == old(
                self,
            ).ppu.spec_read_status_value(),
            address == 0x4015 ==> r == (if old(self).apu.pulse0.spec_active() {
                0x01u8
            } else {
                0u8
            } | if old(self).apu.pulse1.spec_active() {
                0x02u8
            } else {
                0u8
            } | if old(self).apu.triangle.spec_active() {
                0x04u8
            } else {
                0u8
            } | if old(self).apu.noise.spec_active() {
                0x08u8
            } else {
                0u8
            } | if old(self).apu.dmc.spec_active() {
                0x10u8
            } else {
                0u8
            }),
            address == 0x4016 ==> r == old(self).bus.controller0.spec_read_bit(),
            address == 0x4017 ==> r == old(self).bus.controller1.spec_read_bit(),
            address >= 0x4020 ==> r == old(self).bus.mapper.spec_read(address) && *final(self)
                == *old(self),
    {
        if address < 0x2000 {
            self.bus.ram[(address & 0x7FF) as usize]
        } else if address < 0x4000 {
            proof {
                assert((0x2000u16 | (address & 7)) == 0x2000 + (address & 7)) by (bit_vector);
            }
            self.ppu.read(&mut self.bus, 0x2000 | (address & 7))
        } else if address == 0x4015 {
            self.apu.read(address)
        } else if address == 0x4016 {
            self.bus.controller0.read()
        } else if address == 0x4017 {
            self.bus.controller1.read()
        } else if address >= 0x4020 {
            self.bus.mapper.read(address)
        } else {
            0
        }
    }

    open spec fn write_effect(&self, address: u16, value: u8, post: &NesBody) -> bool {
        &&& (address < 0x2000 ==> post.bus.ram@ == self.bus.ram@.update(
            (address & 0x7FF) as int,
            value,
        ) && post.ppu == self.ppu && post.apu == self.apu && post.bus == (Bus {
            ram: post.bus.ram,
            ..self.bus
        }))
        &&& (address == 0x4014 ==> post.bus.stall_oddcycle && post.ppu.oam_addr
            == self.ppu.oam_addr)
        &&& (0x2000 <= address < 0x4000 ==> {
            let reg = address & 7;
            let marked = Ppu { last_regval: value, ..self.ppu };
            &&& post.apu == self.apu
            &&& (reg == 0 ==> post.ppu == marked.spec_set_control(value) && post.bus == self.bus)
            &&& (reg == 1 ==> post.ppu == (Ppu { mask: value, ..marked }) && post.bus == self.bus)
            &&& (reg == 2 ==> post.ppu == marked && post.bus == self.bus)
            &&& (reg == 3 ==> post.ppu == (Ppu { oam_addr: value, ..marked }) && post.bus
                == self.bus)
            &&& (reg == 4 ==> post.ppu == (Ppu {
                oam: post.ppu.oam,
                oam_addr: self.ppu.oam_addr.wrapping_add(1),
                ..marked
            }) && post.ppu.oam@ == self.ppu.oam@.update(self.ppu.oam_addr as int, value)
                && post.bus == self.bus)
            &&& (reg == 5 ==> post.ppu == marked.spec_set_scroll(value) && post.bus == self.bus)
            &&& (reg == 6 ==> post.ppu == marked.spec_set_address(value) && post.bus == self.bus)
            &&& (reg == 7 ==> {
                let v = self.ppu.v;
                &&& post.ppu == (Ppu { v: v.wrapping_add(self.ppu.spec_vram_step()), ..marked })
                &&& (0x2000 <= v < 0x3F00 ==> post.bus.vram@ == self.bus.vram@.update(
                    self.bus.mapper.spec_mirror(v) as int,
                    value,
                ) && post.bus.mapper == self.bus.mapper && post.bus.pram == self.bus.pram)
                &&& (0x3F00 <= v < 0x4000 ==> post.bus.pram@ == self.bus.pram@.update(
                    crate::bus::spec_palette_addr(v),
                    value,
                ) && post.bus.mapper == self.bus.mapper && post.bus.vram == self.bus.vram)
                &&& (v >= 0x4000 ==> post.bus == self.bus)
                &&& post.bus.ram == self.bus.ram
            })
        })
        &&& (address == 0x4016 ==> *post == (NesBody {
            bus: Bus {
                controller0: self.bus.controller0.spec_after_write(value),
                controller1: self.bus.controller1.spec_after_write(value),
                ..self.bus
            },
            ..*self
        }))
        &&& (0x4000 <= address <= 0x4017 && address != 0x4014 && address != 0x4016 ==> *post
            == (NesBody { apu: self.apu.spec_write(address, value), ..*self }))
        &&& (address >= 0x4020 ==> {
            &&& post.ppu == self.ppu
            &&& post.apu == self.apu
            &&& post.bus == (Bus { mapper: post.bus.mapper, ..self.bus })
            &&& self.bus.mapper.spec_write_effect(address, value, post.bus.mapper)
        })
        &&& (0x4018 <= address < 0x4020 ==> *post == *self)
    }

    /// The processor-side write dispatcher: the mirror image of the read
    /// dispatcher, plus the DMA trigger and the strobe latch shared by
    /// both pads; unmapped addresses swallow the write.  Its whole effect
    /// is the `write_effect` relation above.
    fn write(&mut self, address: u16, value: u8)
    {
        if address < 0x2000 {
            self.bus.ram[(address & 0x7FF) as usize] = value;
        } else if address < 0x4000 {
            proof {
                assert((0x2000u16 | (address & 7)) == 0x2000 + (address & 7)) by (bit_vector);
            }
            self.ppu.write(&mut self.bus, 0x2000 | (address & 7), value);
        } else if address == 0x4014 {
            self.oam_dma(value);
        } else if address == 0x4016 {
            self.bus.controller0.write(value);
            self.bus.controller1.write(value);
        } else if address <= 0x4017 && address >= 0x4000 {
            self.apu.write(address, value);
        } else if address >= 0x4020 {
            self.bus.mapper.write(address, value);
        }
    }
}

/// A reduced dot position stays inside one frame.
proof fn lemma_pos_in_range(x: int)
    by (nonlinear_arith)
    ensures
        0 <= x % 89342 < 89342,
{
}

/// Stepping a reduced dot position is adding one modulo the frame.
proof fn lemma_pos_step_mod(x: int)
    ensures
        spec_pos_step(x % 89342) == (x + 1) % 89342,
{
    assert((x % 89342 == 89341 ==> (x + 1) % 89342 == 0) && (x % 89342 < 89341 ==> (x + 1) % 89342
        == x % 89342 + 1) && 0 <= x % 89342 < 89342) by (nonlinear_arith);
}

/// The stall an instruction pays on top of its own cycles: the booked
/// stall, plus one when an odd-cycle-sensitive stall began while the
/// processor sat on an odd cycle.
pub open spec fn spec_stall_penalty(cycle_at_start: u64, stall: u32, odd: bool) -> u32 {
    if odd && cycle_at_start % 2 != 0 && stall < 0xFFFFFFFF {
        (stall + 1) as u32
    } else {
        stall
    }
}

/// Settle a stall against the cycle parity it started on.
pub fn stall_penalty(cycle_at_start: u64, stall: u32, odd: bool) -> (r: u32)
    ensures
        r == spec_stall_penalty(cycle_at_start, stall, odd),
{
    if odd && cycle_at_start % 2 != 0 && stall < 0xFFFFFFFF {
        stall + 1
    } else {
        stall
    }
}

/// An OAM DMA books 513 cycles with the odd-cycle mark, so the processor
/// stalls 513 cycles when the transfer starts on an even cycle and 514
/// when it starts on an odd one.
pub proof fn lemma_dma_stall_cost(cycle_at_start: u64)
    ensures
        spec_stall_penalty(cycle_at_start, 513, true) == if cycle_at_start % 2 == 0 {
            513u32
        } else {
            514u32
        },
{
}

/// The whole console.
#[derive(Debug, Clone)]
pub struct Nes {
    pub cpu: Cpu6502,
    pub body: NesBody,
    pub frame: u64,
    pub pause: bool,
    pub framestep: bool,
    pub audio: Vec<ApuSample>,
}

/// The whole relation one master step (`emulate`) establishes between the
/// console before (`pre`) and after (`post`), returning `r` billed cycles.
pub open spec fn spec_emulate_rel(pre: Nes, post: Nes, r: u32) -> bool {
    &&& post.wf()
    &&& post.cpu.cycles >= pre.cpu.cycles
    &&& post.frame == pre.frame
    &&& post.pause == pre.pause && post.framestep == pre.framestep
    &&& (!pre.cpu.halted ==> r >= 1 && post.cpu.cycles > pre.cpu.cycles)
    &&& (pre.cpu.halted ==> post.cpu.halted && post.cpu.cycles == pre.cpu.cycles)
    &&& (pre.cpu.halted ==> r == if pre.body.bus.stall_cycles == 0 {
        0u32
    } else {
        spec_stall_penalty(
            pre.cpu.cycles,
            pre.body.bus.stall_cycles,
            pre.body.bus.stall_oddcycle,
        )
    })
    &&& post.audio@.len() >= pre.audio@.len()
    &&& (forall|j: int| 0 <= j < pre.audio@.len() ==> post.audio@[j] == pre.audio@[j])
    &&& post.body.apu.cycle == pre.body.apu.cycle.wrapping_add(r as u64)
    &&& (pre.body.ppu.dead == 0 && !post.body.ppu.spec_rendering() ==> spec_pos(post.body.ppu)
        == (spec_pos(pre.body.ppu) + 3 * r) % 89342)
    &&& (!pre.cpu.halted ==> exists|s: u32, odd: bool|
        r as int == {
            let delta = post.cpu.cycles - pre.cpu.cycles;
            let pen: int = if s == 0 {
                0int
            } else {
                #[trigger] spec_stall_penalty(pre.cpu.cycles, s, odd) as int
            };
            if delta + pen <= u32::MAX {
                delta + pen
            } else {
                u32::MAX as int
            }
        })
}

/// From console `pre`, after any pending single-step flag is consumed,
/// `k` master steps reach `post` as it stood before its frame counter
/// was bumped: the whole-frame loop is the master-step relation
/// iterated.
pub open spec fn spec_frame_chain(pre: Nes, post: Nes, k: nat) -> bool {
    spec_emulated_from(
        Nes { framestep: pre.framestep && !pre.pause, ..pre },
        Nes { frame: pre.frame, ..post },
        k,
    )
}

/// The console `post` is reachable from `pre` by exactly `k` master
/// steps.
pub open spec fn spec_emulated_from(pre: Nes, post: Nes, k: nat) -> bool
    decreases k,
{
    if k == 0 {
        post == pre
    } else {
        exists|mid: Nes, r: u32|
            spec_emulated_from(pre, mid, (k - 1) as nat) && #[trigger] spec_emulate_rel(
                mid,
                post,
                r,
            )
    }
}

impl Nes {
    pub open spec fn wf(self) -> bool {
        self.body.wf()
    }

    /// Build a console around a ROM image.  Fails exactly when the image
    /// does not decode or names an unsupported mapper; nothing is built in
    /// that case.  On success the board inside carries exactly the parsed
    /// cartridge — the variant its mapper id names, the decoded header,
    /// and the image's program and character bytes — around fresh, zeroed
    /// memories and an empty audio buffer.
    pub fn from_image(data: &Vec<u8>) -> (r: Result<Nes, LoadError>)
        ensures
            r is Ok ==> r->Ok_0.wf(),
            r is Ok ==> !r->Ok_0.cpu.halted && r->Ok_0.cpu.reset_pending,
            r is Ok <==> crate::cartridge::image_parses(data@) && {
                let m = crate::cartridge::spec_header(data@).mapper;
                m == 0 || m == 1 || m == 2 || m == 3 || m == 4 || m == 7
            },
            r is Ok ==> {
                let cart = r->Ok_0.body.bus.mapper.spec_cart();
                let m = crate::cartridge::spec_header(data@).mapper;
                &&& cart.header == (crate::cartridge::InesHeader {
                    chrsz: if data@[5] == 0 {
                        1u8
                    } else {
                        data@[5]
                    },
                    ..crate::cartridge::spec_header(data@)
                })
                &&& cart.prg@ == data@.subrange(16, 16 + crate::cartridge::prg_bytes(data@))
                &&& (data@[5] != 0 ==> cart.chr@ == data@.subrange(
                    16 + crate::cartridge::prg_bytes(data@),
                    16 + crate::cartridge::prg_bytes(data@) + crate::cartridge::chr_bytes(data@),
                ))
                &&& (data@[5] == 0 ==> cart.chr@ == Seq::<u8>::new(8192, |i: int| 0u8))
                &&& ((r->Ok_0.body.bus.mapper is UxROM) <==> (m == 0 || m == 2))
                &&& ((r->Ok_0.body.bus.mapper is MMC1) <==> m == 1)
                &&& ((r->Ok_0.body.bus.mapper is CNROM) <==> m == 3)
                &&& ((r->Ok_0.body.bus.mapper is MMC3) <==> m == 4)
                &&& ((r->Ok_0.body.bus.mapper is AxROM) <==> m == 7)
            },
            r is Ok ==> {
                let c = r->Ok_0;
                &&& c.body.bus.ram@ == Seq::<u8>::new(2048, |i: int| 0u8)
                &&& c.body.bus.vram@ == Seq::<u8>::new(4096, |i: int| 0u8)
                &&& c.body.bus.pram@ == Seq::<u8>::new(32, |i: int| 0u8)
                &&& c.body.bus.stall_cycles == 0 && !c.body.bus.nmi_line && !c.body.bus.irq_line
                &&& c.body.ppu.frame == 0 && c.body.ppu.cycle == 0 && c.body.ppu.scanline == 0
                &&& c.body.ppu.mask == 0 && c.body.ppu.control == 0
                &&& c.body.apu.cycle == 0 && c.body.apu.frame_period == 4
                &&& c.audio@.len() == 0 && c.frame == 0 && !c.pause && !c.framestep
            },
    {
        let cartridge = match Cartridge::from_reader(data) {
            Ok(c) => c,
            Err(e) => {
                return Err(e);
            },
        };
        let mapper = match Mapper::new(cartridge) {
            Ok(m) => m,
            Err(e) => {
                return Err(e);
            },
        };
        let mut cpu = Cpu6502::new();
        cpu.reset();
        Ok(
            Nes {
                cpu,
                body: NesBody { ppu: Ppu::new(), apu: Apu::new(), bus: Bus::new(mapper) },
                frame: 0,
                pause: false,
                framestep: false,
                audio: Vec::new(),
            },
        )
    }

    /// Latch a reset into the processor and the picture unit: the
    /// processor gets its reset pending (and any halt released), the
    /// picture unit gets its warm-up state; nothing else moves.
    pub fn reset(&mut self)
        requires
            old(self).wf(),
        ensures
            final(self).wf(),
            final(self).cpu == (Cpu6502 {
                reset_pending: true,
                halted: false,
                ..old(self).cpu
            }),
            final(self).body.apu == old(self).body.apu,
            final(self).body.bus == old(self).body.bus,
            final(self).frame == old(self).frame && final(self).pause == old(self).pause
                && final(self).framestep == old(self).framestep,
            final(self).audio == old(self).audio,
            final(self).body.ppu.dead == 2 * 262 * 341,
            final(self).body.ppu.cycle == 341 - 18,
            final(self).body.ppu.scanline == 239,
            final(self).body.ppu.frame == 0,
            final(self).body.ppu.oam_addr == 0,
            final(self).body.ppu.mask == 0 && final(self).body.ppu.control == 0,
            final(self).body.ppu.t == old(self).body.ppu.t & 0xF3FF,
            final(self).body.ppu.nmi == (crate::ppu::Nmi {
                output: false,
                previous: false,
                ..old(self).body.ppu.nmi
            }),
            final(self).body.ppu == (Ppu {
                dead: final(self).body.ppu.dead,
                cycle: final(self).body.ppu.cycle,
                scanline: final(self).body.ppu.scanline,
                frame: 0,
                oam_addr: 0,
                mask: 0,
                control: 0,
                nmi: final(self).body.ppu.nmi,
                t: final(self).body.ppu.t,
                ..old(self).body.ppu
            }),
    {
        self.cpu.reset();
        self.body.ppu.reset();
    }

    pub fn signal_nmi(&mut self)
        ensures
            *final(self) == (Nes {
                cpu: (Cpu6502 { nmi_pending: true, ..old(self).cpu }),
                ..*old(self)
            }),
    {
        self.cpu.signal_nmi();
    }

    pub fn signal_irq(&mut self)
        ensures
            *final(self) == (Nes {
                cpu: (Cpu6502 { irq_pending: true, ..old(self).cpu }),
                ..*old(self)
            }),
    {
        self.cpu.signal_irq();
    }

    /// Resolve a 5-bit palette index to an output pixel.
    pub fn palette_lookup(&self, color: u8) -> (r: u32)
        requires
            self.wf(),
            color < 32,
        ensures
            r == self.body.bus.palette@[(self.body.bus.pram@[color as int] & 0x3F) as int],
    {
        self.body.bus.palette_lookup(color)
    }

    /// Run one processor instruction and fan its cycles out: any booked
    /// DMA stall is settled against the parity of the starting cycle and
    /// added to the bill, then per billed cycle the audio unit steps once
    /// (samples landing in the audio buffer) and the picture unit and
    /// board step three times; interrupt lines pulled along the way are
    /// latched into the processor for its next instruction.  Returns the
    /// cycles billed: the instruction's own cost plus the settled stall.
    #[verifier::rlimit(100)]
    #[verifier::spinoff_prover]
    pub fn emulate(&mut self) -> (r: u32)
        requires
            old(self).wf(),
            old(self).cpu.cycles + 32 <= u64::MAX,
        ensures
            final(self).wf(),
            final(self).cpu.cycles >= old(self).cpu.cycles,
            final(self).frame == old(self).frame,
            final(self).pause == old(self).pause && final(self).framestep == old(self).framestep,
            !old(self).cpu.halted ==> r >= 1 && final(self).cpu.cycles > old(self).cpu.cycles,
            old(self).cpu.halted ==> final(self).cpu.halted && final(self).cpu.cycles == old(
                self,
            ).cpu.cycles,
            old(self).cpu.halted ==> r == if old(self).body.bus.stall_cycles == 0 {
                0u32
            } else {
                spec_stall_penalty(
                    old(self).cpu.cycles,
                    old(self).body.bus.stall_cycles,
                    old(self).body.bus.stall_oddcycle,
                )
            },
            final(self).audio@.len() >= old(self).audio@.len(),
            forall|j: int|
                0 <= j < old(self).audio@.len() ==> final(self).audio@[j] == old(self).audio@[j],
            final(self).body.apu.cycle == old(self).body.apu.cycle.wrapping_add(r as u64),
            old(self).body.ppu.dead == 0 && !final(self).body.ppu.spec_rendering() ==> spec_pos(
                final(self).body.ppu,
            ) == (spec_pos(old(self).body.ppu) + 3 * r) % 89342,
            !old(self).cpu.halted ==> exists|s: u32, odd: bool|
                r as int == {
                    let delta = final(self).cpu.cycles - old(self).cpu.cycles;
                    let pen: int = if s == 0 {
                        0int
                    } else {
                        #[trigger] spec_stall_penalty(old(self).cpu.cycles, s, odd) as int
                    };
                    if delta + pen <= u32::MAX {
                        delta + pen
                    } else {
                        u32::MAX as int
                    }
                },
            spec_emulate_rel(*old(self), *final(self), r),
    {
        let start_cycles = self.cpu.get_cycles();
        let mut n: u32 = self.cpu.execute(&mut self.body);
        let ghost stall_booked = self.body.bus.stall_cycles;
        let ghost odd_booked = self.body.bus.stall_oddcycle;
        if self.body.bus.stall_cycles != 0 {
            let penalty = stall_penalty(
                start_cycles,
                self.body.bus.stall_cycles,
                self.body.bus.stall_oddcycle,
            );
            n = if n <= u32::MAX - penalty {
                n + penalty
            } else {
                u32::MAX
            };
            self.body.bus.clear_stall();
        }
        proof {
            if !old(self).cpu.halted {
                assert(n as int == {
                    let delta = self.cpu.cycles - old(self).cpu.cycles;
                    let pen: int = if stall_booked == 0 {
                        0int
                    } else {
                        spec_stall_penalty(old(self).cpu.cycles, stall_booked, odd_booked) as int
                    };
                    if delta + pen <= u32::MAX {
                        delta + pen
                    } else {
                        u32::MAX as int
                    }
                });
            }
        }
        self.run_cycles(n);
        if self.body.bus.nmi_line {
            self.body.bus.nmi_line = false;
            self.cpu.signal_nmi();
        }
        if self.body.bus.irq_line {
            self.body.bus.irq_line = false;
            self.cpu.signal_irq();
        }
        proof {
            if !old(self).cpu.halted {
                let pen_witness = spec_stall_penalty(old(self).cpu.cycles, stall_booked, odd_booked);
                assert(n as int == {
                    let delta = self.cpu.cycles - old(self).cpu.cycles;
                    let pen: int = if stall_booked == 0 {
                        0int
                    } else {
                        pen_witness as int
                    };
                    if delta + pen <= u32::MAX {
                        delta + pen
                    } else {
                        u32::MAX as int
                    }
                });
            }
        }
        n
    }

    /// Fan `n` billed cycles out: per cycle the audio unit steps once
    /// (its cycle counter advances by exactly `n`, and every sample it
    /// hands back is appended to the audio buffer in order) and the
    /// picture unit and board step three times — so with the picture
    /// clock live and rendering off, the dot position advances by exactly
    /// `3 * n` modulo one frame.
    pub fn run_cycles(&mut self, n: u32)
        requires
            old(self).wf(),
        ensures
            final(self).wf(),
            final(self).cpu == old(self).cpu,
            final(self).frame == old(self).frame,
            final(self).pause == old(self).pause && final(self).framestep == old(self).framestep,
            final(self).body.apu.cycle == old(self).body.apu.cycle.wrapping_add(n as u64),
            final(self).audio@.len() >= old(self).audio@.len(),
            forall|j: int|
                0 <= j < old(self).audio@.len() ==> final(self).audio@[j] == old(self).audio@[j],
            final(self).body.ppu.mask == old(self).body.ppu.mask,
            old(self).body.ppu.dead == 0 && !old(self).body.ppu.spec_rendering() && 0 <= spec_pos(
                old(self).body.ppu,
            ) < 89342 ==> spec_pos(final(self).body.ppu) == (spec_pos(old(self).body.ppu) + 3 * n)
                % 89342,
    {
        let ghost cpu_snap = self.cpu;
        let ghost frame_snap = self.frame;
        let ghost audio_snap = self.audio@;
        let ghost apu_cycle_snap = self.body.apu.cycle;
        let ghost pos_snap = spec_pos(self.body.ppu);
        let ghost quiet = self.body.ppu.dead == 0 && !self.body.ppu.spec_rendering() && 0
            <= pos_snap < 89342;
        let mut i: u32 = 0;
        while i < n
            invariant
                self.body.wf(),
                self.cpu == cpu_snap,
                self.frame == frame_snap,
                self.pause == old(self).pause && self.framestep == old(self).framestep,
                i <= n,
                self.body.apu.cycle == apu_cycle_snap.wrapping_add(i as u64),
                self.audio@.len() >= audio_snap.len(),
                forall|j: int| 0 <= j < audio_snap.len() ==> self.audio@[j] == audio_snap[j],
                self.body.ppu.mask == old(self).body.ppu.mask,
                quiet ==> self.body.ppu.dead == 0 && !self.body.ppu.spec_rendering() && spec_pos(
                    self.body.ppu,
                ) == (pos_snap + 3 * i) % 89342,
            decreases n - i,
        {
            proof {
                if quiet {
                    lemma_pos_in_range(pos_snap + 3 * i);
                }
            }
            let sample = self.body.apu.emulate(&mut self.body.bus);
            if let Some(s) = sample {
                self.audio.push(s);
            }
            let mut k: u32 = 0;
            while k < 3
                invariant
                    self.body.wf(),
                    k <= 3,
                    i < n,
                    self.cpu == cpu_snap,
                    self.frame == frame_snap,
                    self.pause == old(self).pause && self.framestep == old(self).framestep,
                    self.body.apu.cycle == apu_cycle_snap.wrapping_add(i as u64).wrapping_add(1),
                    self.audio@.len() >= audio_snap.len(),
                    forall|j: int| 0 <= j < audio_snap.len() ==> self.audio@[j] == audio_snap[j],
                    self.body.ppu.mask == old(self).body.ppu.mask,
                    quiet ==> self.body.ppu.dead == 0 && !self.body.ppu.spec_rendering()
                        && spec_pos(self.body.ppu) == (pos_snap + 3 * i + k) % 89342,
                decreases 3 - k,
            {
                proof {
                    if quiet {
                        lemma_pos_in_range(pos_snap + 3 * i + k);
                        lemma_pos_step_mod(pos_snap + 3 * i + k);
                    }
                }
                self.body.ppu.emulate(&mut self.body.bus);
                let rendering = self.body.ppu.rendering_enabled();
                let irq = self.body.bus.mapper.emulate(
                    self.body.ppu.cycle,
                    self.body.ppu.scanline,
                    rendering,
                );
                if irq {
                    self.body.bus.irq_line = true;
                }
                k += 1;
            }
            i += 1;
            proof {
                let a0 = apu_cycle_snap;
                let iu = i as u64;
                assert(a0.wrapping_add((iu - 1) as u64).wrapping_add(1) == a0.wrapping_add(iu))
                    by (bit_vector)
                    requires
                        1 <= iu,
                ;
            }
        }
    }

    /// Run until the picture unit finishes the current frame.  A paused
    /// console returns at once, unchanged, unless a single-step request
    /// is pending, which is consumed.  Otherwise the frame counter
    /// advances by one, and on return either the picture unit's frame has
    /// advanced, or the processor is halted, or its cycle counter is at
    /// its ceiling.
    pub fn emulate_frame(&mut self)
        requires
            old(self).wf(),
        ensures
            final(self).wf(),
            old(self).pause && !old(self).framestep ==> *final(self) == *old(self),
            old(self).pause && old(self).framestep ==> !final(self).framestep,
            !(old(self).pause && !old(self).framestep) ==> final(self).frame == old(
                self,
            ).frame.wrapping_add(1),
            !(old(self).pause && !old(self).framestep) ==> {
                ||| final(self).body.ppu.frame != old(self).body.ppu.frame
                ||| final(self).cpu.halted
                ||| final(self).cpu.cycles + 32 > u64::MAX
            },
            !(old(self).pause && !old(self).framestep) ==> exists|k: nat|
                #[trigger] spec_frame_chain(*old(self), *final(self), k),
    {
        if self.pause {
            if self.framestep {
                self.framestep = false;
            } else {
                return ;
            }
        }
        let ghost start_state = *self;
        let ghost mut steps: nat = 0;
        let frame = self.body.ppu.frame;
        let mut done = false;
        while !done
            invariant
                self.wf(),
                frame == old(self).body.ppu.frame,
                self.pause == old(self).pause,
                self.framestep == (old(self).framestep && !old(self).pause),
                self.frame == old(self).frame,
                spec_emulated_from(start_state, *self, steps),
                done ==> self.body.ppu.frame != frame || self.cpu.halted || self.cpu.cycles + 32
                    > u64::MAX,
            decreases
                    (if done {
                        0int
                    } else {
                        1int
                    }),
                    u64::MAX - self.cpu.cycles,
        {
            if self.body.ppu.frame != frame {
                done = true;
            } else if self.cpu.get_cycles() > u64::MAX - 32 {
                done = true;
            } else {
                let ghost mid = *self;
                let stepped = self.emulate();
                proof {
                    assert(spec_emulate_rel(mid, *self, stepped));
                    assert(spec_emulated_from(start_state, *self, (steps + 1) as nat));
                    steps = (steps + 1) as nat;
                }
                if self.cpu.halted {
                    done = true;
                }
            }
        }
        let ghost exit_state = *self;
        self.frame = self.frame.wrapping_add(1);
        proof {
            assert(start_state == (Nes {
                framestep: old(self).framestep && !old(self).pause,
                ..*old(self)
            }));
            assert((Nes { frame: old(self).frame, ..*self }) == exit_state);
            assert(spec_frame_chain(*old(self), *self, steps));
        }
    }
}

} // verus!
