//! The picture processor: a state machine over a 262-scanline by
//! 341-cycle grid, advancing one dot per call, with background fetches in
//! 8-cycle groups, an 8-slot sprite evaluation per scanline, and a
//! delayed vertical-blank interrupt.

use vstd::prelude::*;
use crate::bitops::{lemma_u16_and_le, lemma_u8_and_le};
use crate::bus::Bus;
use crate::ppu_helper::{expander_left, expander_right, spec_expander_left, spec_expander_right};

verus! {

broadcast use lemma_u16_and_le, lemma_u8_and_le;

pub const CTRL_NAMETABLE: u8 = 0x03;

pub const CTRL_INCREMENT: u8 = 0x04;

pub const CTRL_SPRITETABLE: u8 = 0x08;

pub const CTRL_BGTABLE: u8 = 0x10;

pub const CTRL_SPRITESIZE: u8 = 0x20;

pub const CTRL_MASTER: u8 = 0x40;

pub const CTRL_NMI: u8 = 0x80;

pub const MASK_GRAYSCALE: u8 = 0x01;

pub const MASK_SHOWLEFTBG: u8 = 0x02;

pub const MASK_SHOWLEFTSPRITE: u8 = 0x04;

pub const MASK_SHOWBG: u8 = 0x08;

pub const MASK_SHOWSPRITES: u8 = 0x10;

pub const MASK_REDTINT: u8 = 0x20;

pub const MASK_GREENTINT: u8 = 0x40;

pub const MASK_BLUETINT: u8 = 0x80;

pub const SPRITE_OVERFLOW: u8 = 0x20;

pub const SPRITE_ZEROHIT: u8 = 0x40;

/// The vertical-blank interrupt edge detector: the blank flag, the enable
/// bit, the last level seen, and the dot countdown that models the
/// hardware latch delay.
#[derive(Debug, Clone, Copy, PartialEq, Eq, Structural)]
pub struct Nmi {
    pub delay: u32,
    pub occurred: bool,
    pub output: bool,
    pub previous: bool,
}

/// One resolved sprite slot for the current scanline.
#[derive(Debug, Clone, Copy, PartialEq, Eq, Structural)]
pub struct Sprite {
    pub pattern: u32,
    pub position: i32,
    pub priority: bool,
    pub index: u8,
}

#[derive(Debug, Clone)]
pub struct Ppu {
    pub cycle: i32,
    pub scanline: i32,
    pub frame: u64,
    pub dead: u32,
    pub v: u16,
    pub t: u16,
    pub x: u8,
    pub w: bool,
    pub f: bool,
    pub control: u8,
    pub mask: u8,
    pub status: u8,
    pub nmi: Nmi,
    pub last_regval: u8,
    pub last_data: u8,
    pub nametable: u8,
    pub attrtable: u8,
    pub low_tile: u8,
    pub high_tile: u8,
    pub tiledata: u64,
    pub oam: Vec<u8>,
    pub oam_addr: u8,
    pub sprite: Vec<Sprite>,
    pub sprite_count: usize,
    pub picture: Vec<u32>,
}

/// The dot position inside the frame as one number.
pub open spec fn spec_pos(p: Ppu) -> int {
    p.scanline * 341 + p.cycle
}

/// Where one dot advance lands: the next position, wrapping at the end of
/// the frame.
pub open spec fn spec_pos_step(p: int) -> int {
    if p >= 89341 {
        0
    } else {
        p + 1
    }
}

/// The dot position after `n` advances.
pub open spec fn spec_pos_after(p: int, n: nat) -> int
    decreases n,
{
    if n == 0 {
        p
    } else {
        spec_pos_step(spec_pos_after(p, (n - 1) as nat))
    }
}

/// How many frame boundaries `n` advances from position `p` cross.
pub open spec fn spec_frame_crossings(p: int, n: nat) -> int
    decreases n,
{
    if n == 0 {
        0
    } else {
        spec_frame_crossings(p, (n - 1) as nat) + if spec_pos_after(p, (n - 1) as nat) == 89341 {
            1int
        } else {
            0int
        }
    }
}

/// Advancing the dot clock is counting modulo one frame: after `n` dots
/// from position `p` the position is `(p + n) % 89342`, and exactly
/// `(p + n) / 89342` frame boundaries were crossed.  With rendering
/// disabled (no odd-frame skip) one `emulate` call advances exactly one
/// dot, so 341 x 262 calls from dot zero return to dot zero having
/// finished exactly one frame.
pub proof fn lemma_dot_clock_period(p: int, n: nat)
    requires
        0 <= p < 89342,
    ensures
        spec_pos_after(p, n) == (p + n) % 89342,
        spec_frame_crossings(p, n) == (p + n) / 89342,
    decreases n,
{
    if n == 0 {
        assert(p % 89342 == p) by (nonlinear_arith)
            requires
                0 <= p < 89342,
        ;
        assert(p / 89342 == 0) by (nonlinear_arith)
            requires
                0 <= p < 89342,
        ;
    } else {
        lemma_dot_clock_period(p, (n - 1) as nat);
        let q = p + n - 1;
        assert((q + 1) % 89342 == if q % 89342 == 89341 {
            0int
        } else {
            q % 89342 + 1
        } && (q + 1) / 89342 == if q % 89342 == 89341 {
            q / 89342 + 1
        } else {
            q / 89342
        }) by (nonlinear_arith)
            requires
                q >= 0,
        ;
    }
}

impl Ppu {
    /// The grid invariant: the dot stays inside the frame, the fixed
    /// arrays keep their hardware sizes, and the decoded fields stay in
    /// range.
    pub open spec fn wf(self) -> bool {
        &&& 0 <= self.cycle <= 340
        &&& 0 <= self.scanline <= 261
        &&& self.x <= 7
        &&& self.attrtable <= 3
        &&& self.oam@.len() == 256
        &&& self.sprite@.len() == 8
        &&& self.sprite_count <= 8
        &&& forall|i: int| 0 <= i < 8 ==> 0 <= (#[trigger] self.sprite@[i]).position <= 255
        &&& self.picture@.len() == 61440
    }

    /// Whether either rendering enable bit is on.
    pub open spec fn spec_rendering(self) -> bool {
        self.mask & (MASK_SHOWBG | MASK_SHOWSPRITES) != 0
    }

    pub fn rendering_enabled(&self) -> (r: bool)
        ensures
            r == self.spec_rendering(),
    {
        self.mask & (MASK_SHOWBG | MASK_SHOWSPRITES) != 0
    }

    /// A processor at dot zero of scanline zero with cleared memories.
    pub fn new() -> (r: Ppu)
        ensures
            r.wf(),
            r.cycle == 0 && r.scanline == 0 && r.frame == 0 && r.dead == 0,
            r.v == 0 && r.t == 0 && r.x == 0 && !r.w && !r.f,
            r.control == 0 && r.mask == 0 && r.status == 0,
            r.nmi == (Nmi { delay: 0, occurred: false, output: false, previous: false }),
            r.oam@ == Seq::<u8>::new(256, |i: int| 0u8),
            r.sprite_count == 0,
            r.picture@ == Seq::<u32>::new(61440, |i: int| 0u32),
    {
        let mut oam: Vec<u8> = Vec::new();
        let mut i: usize = 0;
        while i < 256
            invariant
                i <= 256,
                oam@ =~= Seq::<u8>::new(i as nat, |j: int| 0u8),
            decreases 256 - i,
        {
            oam.push(0);
            i += 1;
            proof {
                assert(oam@ =~= Seq::<u8>::new(i as nat, |j: int| 0u8));
            }
        }
        let mut sprite: Vec<Sprite> = Vec::new();
        let mut i: usize = 0;
        while i < 8
            invariant
                i <= 8,
                sprite@.len() == i,
                forall|j: int|
                    0 <= j < i ==> #[trigger] sprite@[j] == (Sprite {
                        pattern: 0,
                        position: 0,
                        priority: false,
                        index: 0,
                    }),
            decreases 8 - i,
        {
            sprite.push(Sprite { pattern: 0, position: 0, priority: false, index: 0 });
            i += 1;
        }
        let mut picture: Vec<u32> = Vec::new();
        let mut i: usize = 0;
        while i < 61440
            invariant
                i <= 61440,
                picture@ =~= Seq::<u32>::new(i as nat, |j: int| 0u32),
            decreases 61440 - i,
        {
            picture.push(0);
            i += 1;
            proof {
                assert(picture@ =~= Seq::<u32>::new(i as nat, |j: int| 0u32));
            }
        }
        Ppu {
            cycle: 0,
            scanline: 0,
            frame: 0,
            dead: 0,
            v: 0,
            t: 0,
            x: 0,
            w: false,
            f: false,
            control: 0,
            mask: 0,
            status: 0,
            nmi: Nmi { delay: 0, occurred: false, output: false, previous: false },
            last_regval: 0,
            last_data: 0,
            nametable: 0,
            attrtable: 0,
            low_tile: 0,
            high_tile: 0,
            tiledata: 0,
            oam,
            oam_addr: 0,
            sprite,
            sprite_count: 0,
            picture,
        }
    }

    /// Reset: two frames of dead dots (the warm-up the hardware needs),
    /// the dot clock parked late on the last visible scanline, and the
    /// control registers cleared.
    pub fn reset(&mut self)
        requires
            old(self).wf(),
        ensures
            final(self).wf(),
            final(self).dead == 2 * 262 * 341,
            final(self).cycle == 341 - 18,
            final(self).scanline == 239,
            final(self).frame == 0,
            final(self).oam_addr == 0,
            final(self).mask == 0,
            final(self).t == old(self).t & 0xF3FF,
            final(self).nmi == (Nmi { output: false, previous: false, ..old(self).nmi }),
            *final(self) == (Ppu {
                dead: final(self).dead,
                cycle: final(self).cycle,
                scanline: final(self).scanline,
                frame: 0,
                oam_addr: 0,
                mask: 0,
                control: 0,
                nmi: final(self).nmi,
                t: final(self).t,
                ..*old(self)
            }),
    {
        self.dead = 2 * 262 * 341;
        self.cycle = 341 - 18;
        self.scanline = 239;
        self.frame = 0;
        self.oam_addr = 0;
        self.set_control(0);
        self.mask = 0;
        proof {
            let t0 = old(self).t;
            assert(0u8 & 0x80 == 0 && 0u8 & 0x03 == 0) by (bit_vector);
            assert(((t0 & 0xF3FF) | (((0u8 & 0x03) as u16) << 10)) == (t0 & 0xF3FF))
                by (bit_vector);
        }
    }

    /// The state after a control register write: the interrupt enable and
    /// the nametable bits of the scroll latch follow the value.
    pub open spec fn spec_set_control(self, val: u8) -> Ppu {
        let s = Ppu {
            control: val,
            nmi: Nmi { output: val & CTRL_NMI != 0, ..self.nmi },
            ..self
        };
        let s = s.spec_nmi_change();
        Ppu { t: (s.t & 0xF3FF) | ((val & CTRL_NAMETABLE) as u16) << 10, ..s }
    }

    pub fn set_control(&mut self, val: u8)
        ensures
            *final(self) == old(self).spec_set_control(val),
            old(self).wf() ==> final(self).wf(),
    {
        self.control = val;
        self.nmi.output = (val & CTRL_NMI) != 0;
        self.nmi_change();
        let nt = (val & CTRL_NAMETABLE) as u16;
        self.t = (self.t & 0xF3FF) | (nt << 10);
    }

    /// A status read: the open-bus low bits, the sprite flags, and the
    /// blank flag; reading also drops the blank flag and the write toggle.
    pub open spec fn spec_read_status_value(self) -> u8 {
        (self.last_regval & 0x1F) | self.status | if self.nmi.occurred {
            0x80u8
        } else {
            0u8
        }
    }

    /// The state after a status read.
    pub open spec fn spec_read_status(self) -> Ppu {
        let s = Ppu { nmi: Nmi { occurred: false, ..self.nmi }, w: false, ..self };
        s.spec_nmi_change()
    }

    pub fn read_status(&mut self) -> (r: u8)
        ensures
            r == old(self).spec_read_status_value(),
            *final(self) == old(self).spec_read_status(),
            old(self).wf() ==> final(self).wf(),
    {
        let result = (self.last_regval & 0x1F) | self.status | if self.nmi.occurred {
            0x80u8
        } else {
            0u8
        };
        self.nmi.occurred = false;
        self.nmi_change();
        self.w = false;
        result
    }

    /// The state after a scroll write: the first write loads coarse and
    /// fine X, the second the Y bits, steered by the write toggle.
    pub open spec fn spec_set_scroll(self, val: u8) -> Ppu {
        let v = val as u16;
        if !self.w {
            Ppu { t: (self.t & 0xFFE0) | (v >> 3), x: (val & 7) as u8, w: true, ..self }
        } else {
            let t1 = (self.t & 0x8FFF) | ((v & 0x07) << 12);
            Ppu { t: (t1 & 0xFC1F) | ((v & 0xF8) << 2), w: false, ..self }
        }
    }

    pub fn set_scroll(&mut self, val: u8)
        ensures
            *final(self) == old(self).spec_set_scroll(val),
            old(self).wf() ==> final(self).wf(),
    {
        let v = val as u16;
        if !self.w {
            self.t = (self.t & 0xFFE0) | (v >> 3);
            self.x = val & 7;
            self.w = true;
        } else {
            self.t = (self.t & 0x8FFF) | ((v & 0x07) << 12);
            self.t = (self.t & 0xFC1F) | ((v & 0xF8) << 2);
            self.w = false;
        }
    }

    /// The state after an address write: high six bits first, then the low
    /// byte, the second write copying the latch into the live address.
    pub open spec fn spec_set_address(self, val: u8) -> Ppu {
        let v = val as u16;
        if !self.w {
            Ppu { t: (self.t & 0x80FF) | (v & 0x3F) << 8, w: true, ..self }
        } else {
            let t1 = (self.t & 0xFF00) | v;
            Ppu { t: t1, v: t1, w: false, ..self }
        }
    }

    pub fn set_address(&mut self, val: u8)
        ensures
            *final(self) == old(self).spec_set_address(val),
            old(self).wf() ==> final(self).wf(),
    {
        let v = val as u16;
        if !self.w {
            self.t = (self.t & 0x80FF) | (v & 0x3F) << 8;
            self.w = true;
        } else {
            self.t = (self.t & 0xFF00) | v;
            self.v = self.t;
            self.w = false;
        }
    }

    /// The address step a data access makes: 32 with the increment bit,
    /// else 1.
    pub open spec fn spec_vram_step(self) -> u16 {
        if self.control & CTRL_INCREMENT != 0 {
            32u16
        } else {
            1u16
        }
    }

    /// A data-port write: store through the video address space, then step
    /// the address.
    pub fn set_data(&mut self, bus: &mut Bus, val: u8)
        requires
            old(self).wf(),
            old(bus).wf(),
        ensures
            final(self).wf(),
            final(bus).wf(),
            *final(self) == (Ppu {
                v: old(self).v.wrapping_add(old(self).spec_vram_step()),
                ..*old(self)
            }),
            final(bus).nmi_line == old(bus).nmi_line,
            final(bus).irq_line == old(bus).irq_line,
            final(bus).stall_cycles == old(bus).stall_cycles,
            final(bus).ram == old(bus).ram,
            final(bus).controller0 == old(bus).controller0,
            final(bus).controller1 == old(bus).controller1,
            0x2000 <= old(self).v < 0x3F00 ==> final(bus).vram@ == old(bus).vram@.update(
                old(bus).mapper.spec_mirror(old(self).v) as int,
                val,
            ) && final(bus).mapper == old(bus).mapper && final(bus).pram == old(bus).pram,
            0x3F00 <= old(self).v < 0x4000 ==> final(bus).pram@ == old(bus).pram@.update(
                crate::bus::spec_palette_addr(old(self).v),
                val,
            ) && final(bus).mapper == old(bus).mapper && final(bus).vram == old(bus).vram,
            old(self).v >= 0x4000 ==> *final(bus) == *old(bus),
    {
        bus.ppu_write(self.v, val);
        self.v = self.v.wrapping_add(
            if (self.control & CTRL_INCREMENT) != 0 {
                32
            } else {
                1
            },
        );
    }

    /// The byte a data-port read returns: the stale buffer below the
    /// palette, the palette byte itself above.
    pub open spec fn spec_read_data_value(self, b: Bus) -> u8 {
        if self.v % 0x4000 < 0x3F00 {
            self.last_data
        } else {
            b.spec_read_direct_ppu(self.v)
        }
    }

    /// The state a data-port read leaves behind: the buffer refilled (from
    /// the address itself below the palette, from the nametable underneath
    /// above it) and the address stepped.
    pub open spec fn spec_after_read_data(self, b: Bus) -> Ppu {
        Ppu {
            v: self.v.wrapping_add(self.spec_vram_step()),
            last_data: if self.v % 0x4000 < 0x3F00 {
                b.spec_read_direct_ppu(self.v)
            } else {
                b.spec_read_direct_ppu(self.v.wrapping_sub(0x1000))
            },
            ..self
        }
    }

    /// A data-port read: reads below the palette go through the one-byte
    /// buffer, palette reads are direct but refresh the buffer from the
    /// nametable underneath; either way the address steps.
    pub fn read_data(&mut self, bus: &mut Bus) -> (r: u8)
        requires
            old(self).wf(),
            old(bus).wf(),
        ensures
            final(self).wf(),
            *final(bus) == *old(bus),
            final(self).v == old(self).v.wrapping_add(old(self).spec_vram_step()),
            r == old(self).spec_read_data_value(*old(bus)),
            *final(self) == old(self).spec_after_read_data(*old(bus)),
    {
        let mut val = bus.ppu_read(self.v);
        if self.v % 0x4000 < 0x3F00 {
            let buffered = self.last_data;
            self.last_data = val;
            val = buffered;
        } else {
            self.last_data = bus.ppu_read(self.v.wrapping_sub(0x1000));
        }
        self.v = self.v.wrapping_add(
            if (self.control & CTRL_INCREMENT) != 0 {
                32
            } else {
                1
            },
        );
        val
    }

    /// A register write, dispatched over the eight mirrored slots.
    pub fn write(&mut self, bus: &mut Bus, addr: u16, val: u8)
        requires
            old(self).wf(),
            old(bus).wf(),
        ensures
            final(self).wf(),
            final(bus).wf(),
            final(bus).nmi_line == old(bus).nmi_line,
            final(bus).irq_line == old(bus).irq_line,
            final(bus).stall_cycles == old(bus).stall_cycles,
            final(self).cycle == old(self).cycle && final(self).scanline == old(self).scanline
                && final(self).frame == old(self).frame && final(self).dead == old(self).dead,
            addr == 0x2002 ==> *final(self) == (Ppu { last_regval: val, ..*old(self) })
                && *final(bus) == *old(bus),
            addr == 0x2007 ==> {
                &&& *final(self) == (Ppu {
                    last_regval: val,
                    v: old(self).v.wrapping_add(old(self).spec_vram_step()),
                    ..*old(self)
                })
                &&& (0x2000 <= old(self).v < 0x3F00 ==> final(bus).vram@ == old(bus).vram@.update(
                    old(bus).mapper.spec_mirror(old(self).v) as int,
                    val,
                ) && final(bus).mapper == old(bus).mapper && final(bus).pram == old(bus).pram
                    && final(bus).ram == old(bus).ram)
                &&& (0x3F00 <= old(self).v < 0x4000 ==> final(bus).pram@ == old(bus).pram@.update(
                    crate::bus::spec_palette_addr(old(self).v),
                    val,
                ) && final(bus).mapper == old(bus).mapper && final(bus).vram == old(bus).vram
                    && final(bus).ram == old(bus).ram)
                &&& (old(self).v >= 0x4000 ==> *final(bus) == *old(bus))
                &&& final(bus).ram == old(bus).ram
                &&& final(bus).controller0 == old(bus).controller0 && final(bus).controller1
                    == old(bus).controller1
            },
            addr == 0x2000 ==> *final(self) == (Ppu {
                last_regval: val,
                ..*old(self)
            }).spec_set_control(val) && *final(bus) == *old(bus),
            addr == 0x2001 ==> *final(self) == (Ppu { last_regval: val, mask: val, ..*old(self) })
                && *final(bus) == *old(bus),
            addr == 0x2003 ==> *final(self) == (Ppu {
                last_regval: val,
                oam_addr: val,
                ..*old(self)
            }) && *final(bus) == *old(bus),
            addr == 0x2004 ==> *final(self) == (Ppu {
                last_regval: val,
                oam: final(self).oam,
                oam_addr: old(self).oam_addr.wrapping_add(1),
                ..*old(self)
            }) && final(self).oam@ == old(self).oam@.update(old(self).oam_addr as int, val)
                && *final(bus) == *old(bus),
            addr == 0x2005 ==> *final(self) == (Ppu {
                last_regval: val,
                ..*old(self)
            }).spec_set_scroll(val) && *final(bus) == *old(bus),
            addr == 0x2006 ==> *final(self) == (Ppu {
                last_regval: val,
                ..*old(self)
            }).spec_set_address(val) && *final(bus) == *old(bus),
    {
        self.last_regval = val;
        match addr {
            0x2000 => self.set_control(val),
            0x2001 => self.mask = val,
            0x2003 => self.oam_addr = val,
            0x2004 => {
                self.oam[self.oam_addr as usize] = val;
                self.oam_addr = self.oam_addr.wrapping_add(1);
            },
            0x2005 => self.set_scroll(val),
            0x2006 => self.set_address(val),
            0x2007 => self.set_data(bus, val),
            _ => {},
        }
    }

    /// A register read, dispatched over the mirrored slots; unmapped slots
    /// answer zero.
    pub fn read(&mut self, bus: &mut Bus, addr: u16) -> (r: u8)
        requires
            old(self).wf(),
            old(bus).wf(),
        ensures
            final(self).wf(),
            *final(bus) == *old(bus),
            final(self).cycle == old(self).cycle && final(self).scanline == old(self).scanline
                && final(self).frame == old(self).frame && final(self).dead == old(self).dead,
            final(self).mask == old(self).mask && final(self).control == old(self).control,
            addr == 0x2002 ==> r == old(self).spec_read_status_value() && *final(self) == old(
                self,
            ).spec_read_status(),
            addr == 0x2004 ==> r == old(self).oam@[old(self).oam_addr as int] && *final(self)
                == *old(self),
            addr == 0x2007 ==> {
                &&& r == old(self).spec_read_data_value(*old(bus))
                &&& *final(self) == old(self).spec_after_read_data(*old(bus))
            },
            addr != 0x2002 && addr != 0x2004 && addr != 0x2007 ==> r == 0 && *final(self) == *old(
                self,
            ),
    {
        match addr {
            0x2002 => self.read_status(),
            0x2004 => self.oam[self.oam_addr as usize],
            0x2007 => self.read_data(bus),
            _ => 0,
        }
    }

    /// The state after re-sampling the interrupt level: a fresh rising
    /// edge arms the 15-dot delay.
    pub open spec fn spec_nmi_change(self) -> Ppu {
        let level = self.nmi.output && self.nmi.occurred;
        Ppu {
            nmi: Nmi {
                delay: if level && !self.nmi.previous {
                    15u32
                } else {
                    self.nmi.delay
                },
                previous: level,
                ..self.nmi
            },
            ..self
        }
    }

    fn nmi_change(&mut self)
        ensures
            *final(self) == old(self).spec_nmi_change(),
    {
        let nmi = self.nmi.output && self.nmi.occurred;
        if nmi && !self.nmi.previous {
            self.nmi.delay = 15;
        }
        self.nmi.previous = nmi;
    }

    /// The state after the blank flag moves: entering or leaving vertical
    /// blank re-samples the interrupt edge.
    pub open spec fn spec_set_vertical_blank(self, value: bool) -> Ppu {
        Ppu { nmi: Nmi { occurred: value, ..self.nmi }, ..self }.spec_nmi_change()
    }

    fn set_vertical_blank(&mut self, value: bool)
        ensures
            *final(self) == old(self).spec_set_vertical_blank(value),
    {
        self.nmi.occurred = value;
        self.nmi_change();
    }

    /// Copy the horizontal scroll bits from the latch into the live
    /// address.
    pub open spec fn spec_copy_x(self) -> Ppu {
        Ppu { v: (self.v & 0xFBE0) | (self.t & 0x041F), ..self }
    }

    pub fn copy_x(&mut self)
        ensures
            *final(self) == old(self).spec_copy_x(),
    {
        self.v = (self.v & 0xFBE0) | (self.t & 0x041F);
    }

    /// Copy the vertical scroll bits from the latch into the live address.
    pub open spec fn spec_copy_y(self) -> Ppu {
        Ppu { v: (self.v & 0x841F) | (self.t & 0x7BE0), ..self }
    }

    pub fn copy_y(&mut self)
        ensures
            *final(self) == old(self).spec_copy_y(),
    {
        self.v = (self.v & 0x841F) | (self.t & 0x7BE0);
    }

    /// Step coarse X, wrapping into the horizontal nametable bit at the
    /// end of a row of tiles.
    pub open spec fn spec_increment_x(self) -> Ppu {
        if self.v & 0x001F == 0x001F {
            Ppu { v: (self.v & 0xFFE0) ^ 0x0400, ..self }
        } else {
            Ppu { v: (self.v + 1) as u16, ..self }
        }
    }

    pub fn increment_x(&mut self)
        ensures
            *final(self) == old(self).spec_increment_x(),
    {
        if (self.v & 0x001F) == 0x001F {
            self.v = (self.v & 0xFFE0) ^ 0x0400;
        } else {
            proof {
                let v = self.v;
                assert(v & 0x001F != 0x001F ==> v < 0xFFFF) by (bit_vector);
            }
            self.v = self.v + 1;
        }
    }

    /// Step fine Y, carrying into coarse Y with the documented wraparound:
    /// row 29 flips the vertical nametable, row 31 folds to zero without
    /// flipping.
    pub open spec fn spec_increment_y(self) -> Ppu {
        if self.v & 0x7000 != 0x7000 {
            Ppu { v: (self.v + 0x1000) as u16, ..self }
        } else {
            let v1 = self.v & 0x8FFF;
            let y = (v1 & 0x03E0) >> 5;
            let v2 = if y == 29 {
                v1 ^ 0x0800
            } else {
                v1
            };
            let y2: u16 = if y == 29 {
                0
            } else if y == 31 {
                0
            } else {
                (y + 1) as u16
            };
            Ppu { v: (v2 & 0xFC1F) | (y2 << 5), ..self }
        }
    }

    pub fn increment_y(&mut self)
        ensures
            *final(self) == old(self).spec_increment_y(),
    {
        if (self.v & 0x7000) != 0x7000 {
            proof {
                let v = self.v;
                assert(v & 0x7000 != 0x7000 ==> v <= 0xEFFF) by (bit_vector);
            }
            self.v = self.v + 0x1000;
        } else {
            self.v = self.v & 0x8FFF;
            let mut y = (self.v & 0x03E0) >> 5;
            if y == 29 {
                y = 0;
                self.v = self.v ^ 0x0800;
            } else if y == 31 {
                y = 0;
            } else {
                proof {
                    let v = self.v;
                    assert(((v & 0x03E0) >> 5) < 32) by (bit_vector);
                }
                y = y + 1;
            }
            self.v = (self.v & 0xFC1F) | (y << 5);
        }
    }

    /// Latch the four fetched tile bytes into the low half of the shift
    /// register, one palette-indexed nibble per pixel.
    pub open spec fn spec_store_tile_data(self) -> Ppu {
        let aa = (0x44444444u32 * self.attrtable as u32) as u32;
        let data = spec_expander_left(self.low_tile as int) | (spec_expander_left(
            self.high_tile as int,
        ) << 1);
        Ppu { tiledata: self.tiledata | (data | aa) as u64, ..self }
    }

    pub fn store_tile_data(&mut self)
        requires
            old(self).attrtable <= 3,
        ensures
            *final(self) == old(self).spec_store_tile_data(),
    {
        let aa = 0x44444444u32 * self.attrtable as u32;
        let data = expander_left(self.low_tile as usize) | expander_left(
            self.high_tile as usize,
        ) << 1;
        self.tiledata = self.tiledata | (data | aa) as u64;
    }

    /// The background palette index under the current pixel, from the high
    /// half of the shift register offset by fine X; zero with the
    /// background disabled.
    pub open spec fn spec_background_pixel(self) -> u8 {
        if self.mask & MASK_SHOWBG != 0 {
            let data = (self.tiledata >> 32) as u32;
            (((data >> (((7 - self.x) * 4) as u32)) & 0x0F) as u8)
        } else {
            0
        }
    }

    pub fn background_pixel(&self) -> (r: u8)
        requires
            self.x <= 7,
        ensures
            r == self.spec_background_pixel(),
            r <= 0x0F,
    {
        if (self.mask & MASK_SHOWBG) != 0 {
            let data = (self.tiledata >> 32) as u32;
            let sh = ((7 - self.x) * 4) as u32;
            let r = ((data >> sh) & 0x0F) as u8;
            proof {
                assert((data >> sh) & 0x0F <= 0x0F) by (bit_vector);
            }
            r
        } else {
            0
        }
    }

    /// Fetch the tile index under the live address.
    pub fn fetch_nametable_byte(&mut self, bus: &mut Bus)
        requires
            old(self).wf(),
            old(bus).wf(),
        ensures
            *final(bus) == *old(bus),
            *final(self) == (Ppu { nametable: final(self).nametable, ..*old(self) }),
            final(self).nametable == old(bus).spec_read_direct_ppu(
                0x2000 | (old(self).v & 0x0FFF),
            ),
    {
        let a = 0x2000 | (self.v & 0x0FFF);
        self.nametable = bus.ppu_read(a);
    }

    /// Fetch the two palette-group bits for the tile under the live
    /// address.
    pub fn fetch_attribute_byte(&mut self, bus: &mut Bus)
        requires
            old(self).wf(),
            old(bus).wf(),
        ensures
            *final(bus) == *old(bus),
            *final(self) == (Ppu { attrtable: final(self).attrtable, ..*old(self) }),
            final(self).attrtable <= 3,
    {
        let a = 0x23C0 | (self.v & 0x0C00) | ((self.v >> 4) & 0x38) | ((self.v >> 2) & 7);
        let shift = (((self.v >> 4) & 4) | (self.v & 2)) as u16;
        let b = bus.ppu_read(a);
        proof {
            let v = self.v;
            assert((((v >> 4) & 4) | (v & 2)) < 8) by (bit_vector);
        }
        self.attrtable = (b >> (shift as u8)) & 3;
    }

    /// The pattern table address of the fetched tile's low bitplane.
    pub open spec fn spec_tile_address(self) -> u16 {
        let bgtable: u16 = if self.control & CTRL_BGTABLE != 0 {
            0x1000
        } else {
            0
        };
        (bgtable + 16 * self.nametable as u16 + ((self.v >> 12) & 7)) as u16
    }

    /// Fetch the low bitplane of the tile row.
    pub fn fetch_low_tile_byte(&mut self, bus: &mut Bus)
        requires
            old(self).wf(),
            old(bus).wf(),
        ensures
            *final(bus) == *old(bus),
            *final(self) == (Ppu { low_tile: final(self).low_tile, ..*old(self) }),
            final(self).low_tile == old(bus).spec_read_direct_ppu(old(self).spec_tile_address()),
    {
        let bgtable: u16 = if (self.control & CTRL_BGTABLE) != 0 {
            0x1000
        } else {
            0
        };
        let a = bgtable + 16 * self.nametable as u16 + ((self.v >> 12) & 7);
        self.low_tile = bus.ppu_read(a);
    }

    /// Fetch the high bitplane of the tile row.
    pub fn fetch_high_tile_byte(&mut self, bus: &mut Bus)
        requires
            old(self).wf(),
            old(bus).wf(),
        ensures
            *final(bus) == *old(bus),
            *final(self) == (Ppu { high_tile: final(self).high_tile, ..*old(self) }),
            final(self).high_tile == old(bus).spec_read_direct_ppu(
                (old(self).spec_tile_address() + 8) as u16,
            ),
    {
        let bgtable: u16 = if (self.control & CTRL_BGTABLE) != 0 {
            0x1000
        } else {
            0
        };
        let a = bgtable + 16 * self.nametable as u16 + ((self.v >> 12) & 7);
        self.high_tile = bus.ppu_read(a + 8);
    }

    /// Slot `i` shows an opaque pixel under the current dot.
    pub open spec fn spec_sprite_hit_at(self, i: int) -> bool {
        let offset = self.cycle - 1 - self.sprite@[i].position;
        0 <= offset <= 7 && ((self.sprite@[i].pattern >> (((7 - offset) * 4) as u32)) & 0xF) % 4
            != 0
    }

    /// The first slot at or after `i` with an opaque pixel under the
    /// current dot; the slot count when none has one.
    pub open spec fn spec_first_sprite_hit_from(self, i: int) -> int
        decreases self.sprite_count - i,
    {
        if i >= self.sprite_count {
            self.sprite_count as int
        } else if self.spec_sprite_hit_at(i) {
            i
        } else {
            self.spec_first_sprite_hit_from(i + 1)
        }
    }

    /// The palette index slot `i` shows under the current dot.
    pub open spec fn spec_sprite_pixel_color(self, i: int) -> u8 {
        let offset = self.cycle - 1 - self.sprite@[i].position;
        (((self.sprite@[i].pattern >> (((7 - offset) * 4) as u32)) & 0xF) as u8)
    }

    /// What `sprite_pixel` resolves to: the first opaque slot and its
    /// color, or slot zero with a transparent color.
    pub open spec fn spec_sprite_pixel(self) -> (int, u8) {
        if self.mask & MASK_SHOWSPRITES == 0 {
            (0int, 0u8)
        } else {
            let fh = self.spec_first_sprite_hit_from(0);
            if fh == self.sprite_count {
                (0int, 0u8)
            } else {
                (fh, self.spec_sprite_pixel_color(fh))
            }
        }
    }

    /// The first resolved sprite with an opaque pixel under the current
    /// dot, with its palette index; slot zero with index zero when none
    /// hits (a transparent result).
    pub fn sprite_pixel(&self) -> (r: (usize, u8))
        requires
            self.wf(),
        ensures
            r.0 == self.spec_sprite_pixel().0 && r.1 == self.spec_sprite_pixel().1,
            r.1 <= 0x0F,
            r.1 % 4 != 0 ==> r.0 < self.sprite_count,
    {
        if (self.mask & MASK_SHOWSPRITES) != 0 {
            let mut i: usize = 0;
            while i < self.sprite_count
                invariant
                    self.wf(),
                    i <= self.sprite_count,
                    self.mask & MASK_SHOWSPRITES != 0,
                    self.spec_first_sprite_hit_from(0) == self.spec_first_sprite_hit_from(i as int),
                decreases self.sprite_count - i,
            {
                let offset: i32 = self.cycle - 1 - self.sprite[i].position;
                if offset >= 0 && offset <= 7 {
                    let sh = ((7 - offset) * 4) as u32;
                    let color = (self.sprite[i].pattern >> sh) & 0xF;
                    proof {
                        let p = self.sprite@[i as int].pattern;
                        assert((p >> sh) & 0xF <= 0xF) by (bit_vector);
                    }
                    if color % 4 != 0 {
                        proof {
                            assert(self.spec_sprite_hit_at(i as int));
                            assert(self.spec_first_sprite_hit_from(i as int) == i as int);
                        }
                        return (i, color as u8);
                    }
                }
                i += 1;
            }
            (0, 0)
        } else {
            (0, 0)
        }
    }

    /// The background pixel under the current dot after the left-edge
    /// mask.
    pub open spec fn spec_muted_background(self) -> u8 {
        if self.cycle - 1 < 8 && self.mask & MASK_SHOWLEFTBG == 0 {
            0u8
        } else {
            self.spec_background_pixel()
        }
    }

    /// The sprite pixel under the current dot after the left-edge mask.
    pub open spec fn spec_muted_sprite(self) -> u8 {
        if self.cycle - 1 < 8 && self.mask & MASK_SHOWLEFTSPRITE == 0 {
            0u8
        } else {
            self.spec_sprite_pixel().1
        }
    }

    /// The palette index the current dot composites to: the opaque pixel
    /// wins, sprite priority deciding a contested dot.
    pub open spec fn spec_composited_color(self) -> u8 {
        let bg = self.spec_muted_background();
        let sp = self.spec_muted_sprite();
        if bg % 4 == 0 {
            if sp % 4 != 0 {
                sp | 0x10
            } else {
                0u8
            }
        } else if sp % 4 == 0 {
            bg
        } else if self.sprite@[self.spec_sprite_pixel().0].priority {
            bg
        } else {
            sp | 0x10
        }
    }

    /// A contested dot from sprite slot zero, away from the last column:
    /// the zero-hit condition.
    pub open spec fn spec_zero_hit(self) -> bool {
        self.spec_muted_background() % 4 != 0 && self.spec_muted_sprite() % 4 != 0
            && self.sprite@[self.spec_sprite_pixel().0].index == 0 && self.cycle - 1 < 255
    }

    /// Composite one visible dot: background and sprite pixels are muted
    /// by the edge masks, the opaque one wins (sprite priority deciding a
    /// tie), a contested dot from sprite slot zero sets the zero-hit
    /// flag, and the palette resolves the final color into the picture.
    pub fn render_pixel(&mut self, bus: &Bus)
        requires
            old(self).wf(),
            bus.wf(),
            1 <= old(self).cycle <= 256,
            0 <= old(self).scanline < 240,
        ensures
            final(self).wf(),
            *final(self) == (Ppu {
                status: final(self).status,
                picture: final(self).picture,
                ..*old(self)
            }),
            final(self).picture@.len() == 61440,
            final(self).status == if old(self).spec_zero_hit() {
                old(self).status | SPRITE_ZEROHIT
            } else {
                old(self).status
            },
            final(self).picture@ == old(self).picture@.update(
                old(self).scanline * 256 + (old(self).cycle - 1),
                bus.palette@[(bus.pram@[old(self).spec_composited_color() as int] & 0x3F) as int],
            ),
    {
        let x = (self.cycle - 1) as usize;
        let y = self.scanline as usize;
        let mut background = self.background_pixel();
        let (i, mut sprite) = self.sprite_pixel();

        if x < 8 {
            if (self.mask & MASK_SHOWLEFTBG) == 0 {
                background = 0;
            }
            if (self.mask & MASK_SHOWLEFTSPRITE) == 0 {
                sprite = 0;
            }
        }

        let b = background % 4 != 0;
        let s = sprite % 4 != 0;
        let color: u8;

        if !b {
            color = if s {
                sprite | 0x10
            } else {
                0
            };
        } else if !s {
            color = background;
        } else {
            if self.sprite[i].index == 0 && x < 255 {
                self.status = self.status | SPRITE_ZEROHIT;
            }
            if self.sprite[i].priority {
                color = background;
            } else {
                color = sprite | 0x10;
            }
        }
        proof {
            assert(sprite <= 0x0F ==> (sprite | 0x10) < 32) by (bit_vector);
        }
        let px = bus.palette_lookup(color);
        self.picture[y * 256 + x] = px;
    }

    /// The pattern strip `fetch_sprite_pattern` resolves: a function of
    /// the object's attribute bytes and the two pattern-table reads.
    pub open spec fn spec_sprite_pattern(self, b: Bus, n: int, row: int) -> u32 {
        let tile0 = self.oam@[n * 4 + 1] as u16;
        let attr = self.oam@[n * 4 + 2];
        let big = self.control & CTRL_SPRITESIZE != 0;
        let row1: int = if attr & 0x80 != 0 {
            if big {
                15 - row
            } else {
                7 - row
            }
        } else {
            row
        };
        let table: u16 = if !big {
            if self.control & CTRL_SPRITETABLE == 0 {
                0
            } else {
                0x1000
            }
        } else {
            if tile0 & 1 == 0 {
                0
            } else {
                0x1000
            }
        };
        let tile1: u16 = if big {
            tile0 & 0xFE
        } else {
            tile0
        };
        let tile2: u16 = if big && row1 > 7 {
            (tile1 + 1) as u16
        } else {
            tile1
        };
        let row2: int = if big && row1 > 7 {
            row1 - 8
        } else {
            row1
        };
        let addr = (table + tile2 * 16 + row2) as u16;
        let lo = b.spec_read_direct_ppu(addr) as int;
        let hi = b.spec_read_direct_ppu((addr + 8) as u16) as int;
        let base = (0x11111111u32 * (((attr & 3) as u32) << 2)) as u32;
        if attr & 0x40 != 0 {
            base | spec_expander_right(lo) | (spec_expander_right(hi) << 1)
        } else {
            base | spec_expander_left(lo) | (spec_expander_left(hi) << 1)
        }
    }

    /// Resolve one sprite's pattern row into a 32-bit strip of
    /// palette-indexed nibbles, honoring the two flip bits and the two
    /// sprite heights.
    pub fn fetch_sprite_pattern(&self, bus: &mut Bus, n: usize, row: i32) -> (r: u32)
        requires
            self.wf(),
            old(bus).wf(),
            n < 64,
            0 <= row,
            self.control & CTRL_SPRITESIZE == 0 ==> row < 8,
            self.control & CTRL_SPRITESIZE != 0 ==> row < 16,
        ensures
            *final(bus) == *old(bus),
            r == self.spec_sprite_pattern(*old(bus), n as int, row as int),
    {
        let mut tile = self.oam[n * 4 + 1] as u16;
        let attr = self.oam[n * 4 + 2];
        let table: u16;
        let mut row = row;

        if (self.control & CTRL_SPRITESIZE) == 0 {
            if (attr & 0x80) != 0 {
                row = 7 - row;
            }
            table = if (self.control & CTRL_SPRITETABLE) == 0 {
                0
            } else {
                0x1000
            };
        } else {
            if (attr & 0x80) != 0 {
                row = 15 - row;
            }
            table = if (tile & 1) == 0 {
                0
            } else {
                0x1000
            };
            tile = tile & 0xFE;
            if row > 7 {
                tile = tile + 1;
                row = row - 8;
            }
        }

        let addr = table + tile * 16 + (row as u16);
        let a = (attr & 3) as u32;
        let lo = bus.ppu_read(addr) as usize;
        let hi = bus.ppu_read(addr + 8) as usize;
        proof {
            assert(((attr & 3) as u32) << 2 <= 12) by (bit_vector);
        }
        let result = 0x11111111u32 * (a << 2);
        if (attr & 0x40) != 0 {
            result | expander_right(lo) | expander_right(hi) << 1
        } else {
            result | expander_left(lo) | expander_left(hi) << 1
        }
    }

    /// Whether object `i` of the attribute memory covers scanline `sl`
    /// given the sprite height.
    pub open spec fn spec_sprite_on_line(oam: Seq<u8>, sl: int, height: int, i: int) -> bool {
        0 <= sl - oam[i * 4] < height
    }

    /// How many of the first `n` objects cover scanline `sl`.
    pub open spec fn spec_sprites_on_line(oam: Seq<u8>, sl: int, height: int, n: int) -> int
        decreases n,
    {
        if n <= 0 {
            0
        } else {
            Ppu::spec_sprites_on_line(oam, sl, height, n - 1) + if Ppu::spec_sprite_on_line(
                oam,
                sl,
                height,
                n - 1,
            ) {
                1int
            } else {
                0int
            }
        }
    }

    /// The attribute-memory index of match number `k` (counted from zero)
    /// among the objects covering scanline `sl`, searching from object
    /// `i`; 64 when there are fewer matches.
    pub open spec fn spec_nth_sprite_on_line(
        oam: Seq<u8>,
        sl: int,
        height: int,
        i: int,
        k: int,
    ) -> int
        decreases 64 - i,
    {
        if i >= 64 {
            64
        } else if Ppu::spec_sprite_on_line(oam, sl, height, i) {
            if k == 0 {
                i
            } else {
                Ppu::spec_nth_sprite_on_line(oam, sl, height, i + 1, k - 1)
            }
        } else {
            Ppu::spec_nth_sprite_on_line(oam, sl, height, i + 1, k)
        }
    }

    /// The sprite slot resolved for match number `k`: the object's pattern
    /// strip, horizontal position, priority bit and index.
    pub open spec fn spec_resolved_slot(self, b: Bus, k: int) -> Sprite {
        let n = Ppu::spec_nth_sprite_on_line(
            self.oam@,
            self.scanline as int,
            self.spec_sprite_height(),
            0,
            k,
        );
        Sprite {
            pattern: self.spec_sprite_pattern(b, n, self.scanline - self.oam@[n * 4]),
            position: self.oam@[n * 4 + 3] as i32,
            priority: self.oam@[n * 4 + 2] & 0x20 != 0,
            index: n as u8,
        }
    }

    /// The sprite height the control register selects.
    pub open spec fn spec_sprite_height(self) -> int {
        if self.control & CTRL_SPRITESIZE != 0 {
            16
        } else {
            8
        }
    }

    /// Walk all 64 objects and resolve the ones covering the current
    /// scanline into the eight sprite slots, in attribute-memory order.
    /// More than eight hits set the overflow flag and keep only the first
    /// eight; eight or fewer leave the status byte alone.
    pub fn evaluate_sprites(&mut self, bus: &mut Bus)
        requires
            old(self).wf(),
            old(bus).wf(),
        ensures
            final(self).wf(),
            *final(bus) == *old(bus),
            *final(self) == (Ppu {
                sprite: final(self).sprite,
                sprite_count: final(self).sprite_count,
                status: final(self).status,
                ..*old(self)
            }),
            final(self).sprite_count == if Ppu::spec_sprites_on_line(
                old(self).oam@,
                old(self).scanline as int,
                old(self).spec_sprite_height(),
                64,
            ) > 8 {
                8int
            } else {
                Ppu::spec_sprites_on_line(
                    old(self).oam@,
                    old(self).scanline as int,
                    old(self).spec_sprite_height(),
                    64,
                )
            },
            Ppu::spec_sprites_on_line(
                old(self).oam@,
                old(self).scanline as int,
                old(self).spec_sprite_height(),
                64,
            ) > 8 ==> final(self).status == old(self).status | SPRITE_OVERFLOW,
            Ppu::spec_sprites_on_line(
                old(self).oam@,
                old(self).scanline as int,
                old(self).spec_sprite_height(),
                64,
            ) <= 8 ==> final(self).status == old(self).status,
            forall|k: int|
                0 <= k < final(self).sprite_count ==> #[trigger] final(self).sprite@[k] == old(
                    self,
                ).spec_resolved_slot(*old(bus), k),
    {
        let height: i32 = if (self.control & CTRL_SPRITESIZE) != 0 {
            16
        } else {
            8
        };
        let mut count: usize = 0;
        let mut i: usize = 0;
        while i < 64
            invariant
                self.wf(),
                old(bus).wf(),
                bus.wf(),
                *bus == *old(bus),
                i <= 64,
                height == old(self).spec_sprite_height(),
                count == Ppu::spec_sprites_on_line(
                    old(self).oam@,
                    old(self).scanline as int,
                    old(self).spec_sprite_height(),
                    i as int,
                ),
                count <= i,
                *self == (Ppu {
                    sprite: self.sprite,
                    ..*old(self)
                }),
                forall|k: int|
                    k >= 0 ==> #[trigger] Ppu::spec_nth_sprite_on_line(
                        old(self).oam@,
                        old(self).scanline as int,
                        old(self).spec_sprite_height(),
                        0,
                        count + k,
                    ) == Ppu::spec_nth_sprite_on_line(
                        old(self).oam@,
                        old(self).scanline as int,
                        old(self).spec_sprite_height(),
                        i as int,
                        k,
                    ),
                forall|k: int|
                    0 <= k < count && k < 8 ==> #[trigger] self.sprite@[k] == old(
                        self,
                    ).spec_resolved_slot(*old(bus), k),
            decreases 64 - i,
        {
            let ghost c0 = count as int;
            let ghost oam0 = old(self).oam@;
            let ghost sl0 = old(self).scanline as int;
            let ghost h0 = old(self).spec_sprite_height();
            let y = self.oam[i * 4 + 0] as i32;
            let a = self.oam[i * 4 + 2];
            let sx = self.oam[i * 4 + 3] as i32;
            let row = self.scanline - y;

            if row >= 0 && row < height {
                if count < 8 {
                    let pattern = self.fetch_sprite_pattern(bus, i, row);
                    let slot = Sprite { pattern, position: sx, priority: (a & 0x20) != 0, index: (
                    i as u8) };
                    self.sprite[count] = slot;
                    proof {
                        assert(Ppu::spec_nth_sprite_on_line(oam0, sl0, h0, i as int, 0)
                            == i as int);
                        assert(Ppu::spec_nth_sprite_on_line(oam0, sl0, h0, 0, c0 + 0)
                            == Ppu::spec_nth_sprite_on_line(oam0, sl0, h0, i as int, 0));
                        assert(Ppu::spec_nth_sprite_on_line(oam0, sl0, h0, 0, c0) == i as int);
                        assert(self.sprite@[c0] == old(self).spec_resolved_slot(*old(bus), c0));
                    }
                }
                count += 1;
                proof {
                    assert forall|k: int|
                        k >= 0 implies #[trigger] Ppu::spec_nth_sprite_on_line(
                        oam0,
                        sl0,
                        h0,
                        0,
                        c0 + 1 + k,
                    ) == Ppu::spec_nth_sprite_on_line(oam0, sl0, h0, i + 1, k) by {
                        assert(Ppu::spec_nth_sprite_on_line(oam0, sl0, h0, 0, c0 + (k + 1))
                            == Ppu::spec_nth_sprite_on_line(oam0, sl0, h0, i as int, k + 1));
                        assert(Ppu::spec_nth_sprite_on_line(oam0, sl0, h0, i as int, k + 1)
                            == Ppu::spec_nth_sprite_on_line(oam0, sl0, h0, i + 1, k));
                    }
                }
            } else {
                proof {
                    assert forall|k: int|
                        k >= 0 implies #[trigger] Ppu::spec_nth_sprite_on_line(
                        oam0,
                        sl0,
                        h0,
                        0,
                        c0 + k,
                    ) == Ppu::spec_nth_sprite_on_line(oam0, sl0, h0, i + 1, k) by {
                        assert(Ppu::spec_nth_sprite_on_line(oam0, sl0, h0, 0, c0 + k)
                            == Ppu::spec_nth_sprite_on_line(oam0, sl0, h0, i as int, k));
                        assert(Ppu::spec_nth_sprite_on_line(oam0, sl0, h0, i as int, k)
                            == Ppu::spec_nth_sprite_on_line(oam0, sl0, h0, i + 1, k));
                    }
                }
            }
            i += 1;
        }
        if count > 8 {
            count = 8;
            self.status = self.status | SPRITE_OVERFLOW;
        }
        self.sprite_count = count;
    }

    /// One dot of the clock alone: dead dots burn off first; the
    /// interrupt delay counts down, pulling the processor's line when it
    /// runs out inside an armed blank; on an odd frame with rendering on,
    /// the last dot of the pre-render line is skipped.  Returns whether
    /// the rest of the dot's work should happen.
    pub fn tick(&mut self, bus: &mut Bus) -> (r: bool)
        requires
            old(self).wf(),
            old(bus).wf(),
        ensures
            final(self).wf(),
            final(bus).wf(),
            *final(bus) == (Bus { nmi_line: final(bus).nmi_line, ..*old(bus) }),
            final(bus).nmi_line == (old(bus).nmi_line || (old(self).dead == 0 && old(
                self,
            ).nmi.delay == 1 && old(self).nmi.occurred && old(self).nmi.output)),
            old(self).dead > 0 ==> !r && *final(self) == (Ppu {
                dead: (old(self).dead - 1) as u32,
                ..*old(self)
            }),
            old(self).dead == 0 ==> r && *final(self) == (Ppu {
                cycle: final(self).cycle,
                scanline: final(self).scanline,
                frame: final(self).frame,
                f: final(self).f,
                nmi: Nmi {
                    delay: if old(self).nmi.delay > 0 {
                        (old(self).nmi.delay - 1) as u32
                    } else {
                        0
                    },
                    ..old(self).nmi
                },
                ..*old(self)
            }),
            old(self).dead == 0 && old(self).spec_rendering() && old(self).f && old(self).scanline
                == 261 && old(self).cycle == 339 ==> {
                &&& final(self).cycle == 0 && final(self).scanline == 0
                &&& !final(self).f
                &&& final(self).frame == old(self).frame.wrapping_add(1)
            },
            old(self).dead == 0 && !(old(self).spec_rendering() && old(self).f && old(
                self,
            ).scanline == 261 && old(self).cycle == 339) ==> {
                &&& spec_pos(*final(self)) == spec_pos_step(spec_pos(*old(self)))
                &&& final(self).frame == if spec_pos(*old(self)) == 89341 {
                    old(self).frame.wrapping_add(1)
                } else {
                    old(self).frame
                }
                &&& final(self).f == if spec_pos(*old(self)) == 89341 {
                    !old(self).f
                } else {
                    old(self).f
                }
            },
    {
        if self.dead > 0 {
            self.dead = self.dead - 1;
            return false;
        }

        if self.nmi.delay > 0 {
            self.nmi.delay = self.nmi.delay - 1;
            if self.nmi.delay == 0 && self.nmi.occurred && self.nmi.output {
                bus.nmi_line = true;
            }
        }
        if (self.mask & (MASK_SHOWBG | MASK_SHOWSPRITES)) != 0 {
            if self.f && self.scanline == 261 && self.cycle == 339 {
                self.cycle = 0;
                self.scanline = 0;
                self.f = false;
                self.frame = self.frame.wrapping_add(1);
                return true;
            }
        }

        self.cycle = self.cycle + 1;
        if self.cycle > 340 {
            self.cycle = 0;
            self.scanline = self.scanline + 1;
            if self.scanline > 261 {
                self.scanline = 0;
                self.frame = self.frame.wrapping_add(1);
                self.f = !self.f;
            }
        }
        true
    }

    /// One dot of the picture processor.  Advances the clock; on a live
    /// dot it renders the visible pixel, runs the background fetch
    /// pipeline and sprite evaluation while rendering is on, raises the
    /// blank flag at dot 1 of scanline 241 and clears the status flags at
    /// dot 1 of the pre-render line.  The only mark it leaves on the rest
    /// of the console is the interrupt line, pulled when the armed blank
    /// delay runs out.  With rendering off and no dead dots, the clock
    /// advances by exactly one dot per call and the frame counter counts
    /// each wrap, so 341 x 262 calls make exactly one frame.
    #[verifier::rlimit(100)]
    #[verifier::spinoff_prover]
    pub fn emulate(&mut self, bus: &mut Bus)
        requires
            old(self).wf(),
            old(bus).wf(),
        ensures
            final(self).wf(),
            final(bus).wf(),
            *final(bus) == (Bus { nmi_line: final(bus).nmi_line, ..*old(bus) }),
            final(bus).nmi_line == (old(bus).nmi_line || (old(self).dead == 0 && old(
                self,
            ).nmi.delay == 1 && old(self).nmi.occurred && old(self).nmi.output)),
            final(self).mask == old(self).mask && final(self).control == old(self).control,
            final(self).dead == if old(self).dead > 0 {
                (old(self).dead - 1) as u32
            } else {
                0u32
            },
            old(self).dead > 0 ==> *final(self) == (Ppu {
                dead: (old(self).dead - 1) as u32,
                ..*old(self)
            }),
            old(self).dead == 0 && !old(self).spec_rendering() ==> {
                &&& spec_pos(*final(self)) == spec_pos_step(spec_pos(*old(self)))
                &&& final(self).frame == if spec_pos(*old(self)) == 89341 {
                    old(self).frame.wrapping_add(1)
                } else {
                    old(self).frame
                }
            },
            old(self).dead == 0 && final(self).scanline == 241 && final(self).cycle == 1
                ==> final(self).nmi.occurred,
            old(self).dead == 0 && final(self).scanline == 261 && final(self).cycle == 1
                ==> !final(self).nmi.occurred && final(self).status == 0,
    {
        let live = self.tick(bus);
        if live {
            self.run_dot(bus);
        }
    }

    /// The work of one live dot, after the clock has advanced (`emulate`
    /// is `tick` followed by this on live dots): render the
    /// visible pixel, and with rendering on run the background fetch
    /// pipeline, the scroll-address updates at dots 256 and 257, and the
    /// sprite evaluation at dot 257; the blank flag rises at dot 1 of
    /// scanline 241 and the status flags clear at dot 1 of the pre-render
    /// line.
    pub fn run_dot(&mut self, bus: &mut Bus)
        requires
            old(self).wf(),
            old(bus).wf(),
        ensures
            final(self).wf(),
            *final(bus) == *old(bus),
            final(self).cycle == old(self).cycle && final(self).scanline == old(self).scanline,
            final(self).frame == old(self).frame && final(self).dead == old(self).dead,
            final(self).mask == old(self).mask && final(self).control == old(self).control,
            final(self).oam == old(self).oam && final(self).oam_addr == old(self).oam_addr,
            old(self).scanline < 240 && 1 <= old(self).cycle <= 256 ==> final(self).picture@
                == old(self).picture@.update(
                old(self).scanline * 256 + (old(self).cycle - 1),
                old(bus).palette@[(old(bus).pram@[old(self).spec_composited_color() as int]
                    & 0x3F) as int],
            ),
            !(old(self).scanline < 240 && 1 <= old(self).cycle <= 256) ==> final(self).picture
                == old(self).picture,
            old(self).spec_rendering() && old(self).cycle == 257 && old(self).scanline < 240 ==> {
                let hits = Ppu::spec_sprites_on_line(
                    old(self).oam@,
                    old(self).scanline as int,
                    old(self).spec_sprite_height(),
                    64,
                );
                &&& final(self).sprite_count == if hits > 8 {
                    8int
                } else {
                    hits
                }
                &&& forall|k: int|
                    0 <= k < final(self).sprite_count ==> #[trigger] final(self).sprite@[k] == old(
                        self,
                    ).spec_resolved_slot(*old(bus), k)
            },
            old(self).spec_rendering() && old(self).cycle == 257 && 240 <= old(self).scanline < 261
                ==> final(self).sprite_count == 0,
            old(self).spec_rendering() && old(self).cycle == 257 && (old(self).scanline < 240
                || old(self).scanline == 261) ==> final(self).v == ((old(self).v & 0xFBE0) | (old(
                self,
            ).t & 0x041F)),
            old(self).spec_rendering() && old(self).cycle == 256 && (old(self).scanline < 240
                || old(self).scanline == 261) ==> final(self).v == old(
                self,
            ).spec_increment_x().spec_increment_y().v,
            old(self).scanline == 241 && old(self).cycle == 1 ==> final(self).nmi.occurred,
            old(self).scanline == 261 && old(self).cycle == 1 ==> !final(self).nmi.occurred
                && final(self).status == 0,
            !old(self).spec_rendering() ==> final(self).v == old(self).v && final(self).sprite
                == old(self).sprite && final(self).sprite_count == old(self).sprite_count
                && final(self).tiledata == old(self).tiledata,
    {
        let pre_line = self.scanline == 261;
        let visible_line = self.scanline < 240;
        let render_line = pre_line || visible_line;
        let prefetch_cycle = self.cycle >= 321 && self.cycle <= 336;
        let visible_cycle = self.cycle > 0 && self.cycle <= 256;
        let fetch_cycle = prefetch_cycle || visible_cycle;

        if visible_line && visible_cycle {
            self.render_pixel(bus);
        }
        if (self.mask & (MASK_SHOWBG | MASK_SHOWSPRITES)) != 0 {
            if render_line && fetch_cycle {
                self.tiledata = self.tiledata << 4;
                match self.cycle % 8 {
                    0 => self.store_tile_data(),
                    1 => self.fetch_nametable_byte(bus),
                    3 => self.fetch_attribute_byte(bus),
                    5 => self.fetch_low_tile_byte(bus),
                    7 => self.fetch_high_tile_byte(bus),
                    _ => {},
                }
            }
            if pre_line && self.cycle >= 280 && self.cycle <= 304 {
                self.copy_y();
            }
            if render_line {
                if fetch_cycle && self.cycle % 8 == 0 {
                    self.increment_x();
                }
                if self.cycle == 256 {
                    self.increment_y();
                }
                if self.cycle == 257 {
                    self.copy_x();
                }
            }
            if self.cycle == 257 {
                if visible_line {
                    self.evaluate_sprites(bus);
                } else {
                    self.sprite_count = 0;
                }
            }
        }
        if self.scanline == 241 && self.cycle == 1 {
            self.set_vertical_blank(true);
        }
        if pre_line && self.cycle == 1 {
            self.set_vertical_blank(false);
            self.status = 0;
        }
    }
}

} // verus!
