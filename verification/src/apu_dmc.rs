//! The delta-modulation channel: a cursor streams sample bytes straight
//! off the bus, each byte costing the processor a four-cycle stall, and a
//! one-bit delta per timer tick nudges the 7-bit output level.

use vstd::prelude::*;
use crate::bitops::lemma_u8_and_le;
use crate::bus::Bus;

verus! {

broadcast use lemma_u8_and_le;

/// Timer periods for each of the sixteen sample rates.
pub open spec fn spec_dmc_table(i: int) -> u8 {
    seq![214u8, 190, 170, 160, 143, 127, 113, 107, 95, 80, 71, 64, 53, 42, 36, 27][i]
}

/// Look one entry up in the rate table.
pub fn dmc_table(i: u8) -> (r: u8)
    requires
        i < 16,
    ensures
        r == spec_dmc_table(i as int),
{
    match i {
        0 => 214,
        1 => 190,
        2 => 170,
        3 => 160,
        4 => 143,
        5 => 127,
        6 => 113,
        7 => 107,
        8 => 95,
        9 => 80,
        10 => 71,
        11 => 64,
        12 => 53,
        13 => 42,
        14 => 36,
        _ => 27,
    }
}

#[derive(Debug, Clone, Copy, PartialEq, Eq, Structural)]
pub struct Registers {
    pub control: u8,
    pub value: u8,
    pub address: u8,
    pub length: u8,
}

#[derive(Debug, Clone, Copy, PartialEq, Eq, Structural)]
pub struct ApuDmc {
    pub enabled: bool,
    pub value: u8,
    pub sample_address: u16,
    pub sample_length: u16,
    pub current_address: u16,
    pub current_length: u16,
    pub shift_register: u8,
    pub bit_count: u8,
    pub tick_value: u8,
    pub tick_period: u8,
    pub loopit: bool,
    pub irq: bool,
    pub reg: Registers,
}

impl ApuDmc {
    /// The sample cursor stays out of the hardware register window: it
    /// either walks the board space above 0x8000, or a short run of work
    /// RAM left by an unprogrammed start address.
    pub open spec fn wf(self) -> bool {
        &&& self.value <= 127
        &&& (self.sample_address == 0 || self.sample_address >= 0xC000)
        &&& self.sample_length <= 0xFF1
        &&& (self.current_length == 0 || self.current_address >= 0x8000 || self.current_address
            + self.current_length <= 0x2000)
    }

    /// A silent channel at power-on.
    pub fn new() -> (r: ApuDmc)
        ensures
            r.wf(),
            !r.enabled && r.current_length == 0 && r.value == 0,
    {
        ApuDmc {
            enabled: false,
            value: 0,
            sample_address: 0,
            sample_length: 0,
            current_address: 0,
            current_length: 0,
            shift_register: 0,
            bit_count: 0,
            tick_value: 0,
            tick_period: 0,
            loopit: false,
            irq: false,
            reg: Registers { control: 0, value: 0, address: 0, length: 0 },
        }
    }

    /// A channel counts as active while sample bytes remain.
    pub open spec fn spec_active(self) -> bool {
        self.current_length != 0
    }

    pub fn active(&self) -> (r: bool)
        ensures
            r == self.spec_active(),
    {
        self.current_length != 0
    }

    /// Rewind the cursor to the programmed sample.
    pub open spec fn spec_restart(self) -> ApuDmc {
        ApuDmc { current_address: self.sample_address, current_length: self.sample_length, ..self }
    }

    /// Disabling the channel drops the remaining bytes at once; enabling
    /// it with a spent cursor restarts the sample.
    pub open spec fn spec_set_enabled(self, val: bool) -> ApuDmc {
        if !val {
            ApuDmc { enabled: false, current_length: 0, ..self }
        } else if self.current_length == 0 {
            ApuDmc { enabled: true, ..self }.spec_restart()
        } else {
            ApuDmc { enabled: true, ..self }
        }
    }

    pub fn set_enabled(&mut self, val: bool)
        requires
            old(self).wf(),
        ensures
            *final(self) == old(self).spec_set_enabled(val),
            final(self).wf(),
            !val ==> !final(self).spec_active(),
    {
        self.enabled = val;
        if !self.enabled {
            self.current_length = 0;
        } else if self.current_length == 0 {
            self.restart();
        }
    }

    /// A control write: IRQ and loop flags, and one of sixteen rates.
    pub open spec fn spec_set_control(self, val: u8) -> ApuDmc {
        ApuDmc {
            reg: Registers { control: val, ..self.reg },
            irq: val & 0x80 != 0,
            loopit: val & 0x40 != 0,
            tick_period: spec_dmc_table((val & 0x0F) as int),
            ..self
        }
    }

    pub fn set_control(&mut self, val: u8)
        ensures
            *final(self) == old(self).spec_set_control(val),
            old(self).wf() ==> final(self).wf(),
    {
        self.reg.control = val;
        self.irq = (val & 0x80) != 0;
        self.loopit = (val & 0x40) != 0;
        proof {
            assert(val & 0x0F < 16) by (bit_vector);
        }
        self.tick_period = dmc_table(val & 0x0F);
    }

    /// Set the 7-bit output level directly.
    pub open spec fn spec_set_value(self, val: u8) -> ApuDmc {
        ApuDmc { reg: Registers { value: val, ..self.reg }, value: val & 0x7F, ..self }
    }

    pub fn set_value(&mut self, val: u8)
        ensures
            *final(self) == old(self).spec_set_value(val),
            old(self).wf() ==> final(self).wf(),
    {
        self.reg.value = val;
        self.value = val & 0x7F;
    }

    /// Program the sample start address, spread across the top quarter of
    /// the address space in 64-byte steps.
    pub open spec fn spec_set_address(self, val: u8) -> ApuDmc {
        ApuDmc {
            reg: Registers { address: val, ..self.reg },
            sample_address: 0xC000u16 | (val as u16) << 6,
            ..self
        }
    }

    pub fn set_address(&mut self, val: u8)
        ensures
            *final(self) == old(self).spec_set_address(val),
            old(self).wf() ==> final(self).wf(),
    {
        self.reg.address = val;
        self.sample_address = 0xC000u16 | (val as u16) << 6;
        proof {
            assert(0xC000u16 | ((val as u16) << 6) >= 0xC000) by (bit_vector);
        }
    }

    /// Program the sample length in 16-byte steps plus one.
    pub open spec fn spec_set_length(self, val: u8) -> ApuDmc {
        ApuDmc {
            reg: Registers { length: val, ..self.reg },
            sample_length: 1u16 | (val as u16) << 4,
            ..self
        }
    }

    pub fn set_length(&mut self, val: u8)
        ensures
            *final(self) == old(self).spec_set_length(val),
            old(self).wf() ==> final(self).wf(),
    {
        self.reg.length = val;
        self.sample_length = 1u16 | (val as u16) << 4;
        proof {
            assert(1u16 | ((val as u16) << 4) <= 0xFF1) by (bit_vector);
        }
    }

    /// The 7-bit sample the channel puts out right now.
    pub fn internal_output(&self) -> (r: u8)
        ensures
            r == self.value,
    {
        self.value
    }

    /// Whether the next reader step fetches a byte off the bus.
    pub open spec fn spec_fetches(self) -> bool {
        self.current_length > 0 && self.bit_count == 0
    }

    /// The reader after one step against board state `b`: when the shifter
    /// is empty and bytes remain, fetch one (the cursor wraps from the top
    /// of memory back to 0x8000), and on the last byte rewind if looping.
    pub open spec fn spec_step_reader(self, b: Bus) -> ApuDmc {
        if self.spec_fetches() {
            let fetched = b.spec_read_direct(self.current_address);
            let bumped = self.current_address.wrapping_add(1);
            let s = ApuDmc {
                shift_register: fetched,
                bit_count: 8,
                current_address: if bumped == 0 {
                    0x8000u16
                } else {
                    bumped
                },
                current_length: (self.current_length - 1) as u16,
                ..self
            };
            if s.current_length == 0 && s.loopit {
                s.spec_restart()
            } else {
                s
            }
        } else {
            self
        }
    }

    /// One reader step; a fetch also books a four-cycle stall against the
    /// processor.
    pub fn step_reader(&mut self, bus: &mut Bus)
        requires
            old(self).wf(),
            old(bus).wf(),
        ensures
            *final(self) == old(self).spec_step_reader(*old(bus)),
            final(self).wf(),
            final(bus).wf(),
            old(self).spec_fetches() ==> *final(bus) == (Bus {
                stall_cycles: if old(bus).stall_cycles + 4 <= u32::MAX {
                    (old(bus).stall_cycles + 4) as u32
                } else {
                    u32::MAX
                },
                ..*old(bus)
            }),
            !old(self).spec_fetches() ==> *final(bus) == *old(bus),
    {
        if self.current_length > 0 && self.bit_count == 0 {
            bus.add_stall(4, false);
            self.shift_register = bus.read_direct(self.current_address);
            self.bit_count = 8;
            self.current_address = self.current_address.wrapping_add(1);
            if self.current_address == 0 {
                self.current_address = 0x8000;
            }
            self.current_length = self.current_length - 1;
            if self.current_length == 0 && self.loopit {
                self.restart();
            }
        }
    }

    /// One shifter step: while bits remain, the low bit nudges the output
    /// level up or down by two inside its 7-bit range.
    pub open spec fn spec_step_shifter(self) -> ApuDmc {
        if self.bit_count != 0 {
            let v = if self.shift_register & 1 == 1 {
                if self.value <= 125 {
                    (self.value + 2) as u8
                } else {
                    self.value
                }
            } else {
                if self.value >= 2 {
                    (self.value - 2) as u8
                } else {
                    self.value
                }
            };
            ApuDmc {
                value: v,
                shift_register: self.shift_register >> 1,
                bit_count: (self.bit_count - 1) as u8,
                ..self
            }
        } else {
            self
        }
    }

    pub fn step_shifter(&mut self)
        ensures
            *final(self) == old(self).spec_step_shifter(),
            old(self).wf() ==> final(self).wf(),
    {
        if self.bit_count != 0 {
            if (self.shift_register & 1) == 1 {
                if self.value <= 125 {
                    self.value = self.value + 2;
                }
            } else if self.value >= 2 {
                self.value = self.value - 2;
            }
            self.shift_register = self.shift_register >> 1;
            self.bit_count = self.bit_count - 1;
        }
    }

    /// One timer tick of an enabled channel: run the reader, then clock
    /// the shifter when the rate divider runs out.
    pub open spec fn spec_step_timer(self, b: Bus) -> ApuDmc {
        if !self.enabled {
            self
        } else {
            let s = self.spec_step_reader(b);
            if s.tick_value == 0 {
                ApuDmc { tick_value: s.tick_period, ..s }.spec_step_shifter()
            } else {
                ApuDmc { tick_value: (s.tick_value - 1) as u8, ..s }
            }
        }
    }

    pub fn step_timer(&mut self, bus: &mut Bus)
        requires
            old(self).wf(),
            old(bus).wf(),
        ensures
            *final(self) == old(self).spec_step_timer(*old(bus)),
            final(self).wf(),
            final(bus).wf(),
            old(self).enabled && old(self).spec_fetches() ==> *final(bus) == (Bus {
                stall_cycles: if old(bus).stall_cycles + 4 <= u32::MAX {
                    (old(bus).stall_cycles + 4) as u32
                } else {
                    u32::MAX
                },
                ..*old(bus)
            }),
            !(old(self).enabled && old(self).spec_fetches()) ==> *final(bus) == *old(bus),
    {
        if self.enabled {
            self.step_reader(bus);
            if self.tick_value == 0 {
                self.tick_value = self.tick_period;
                self.step_shifter();
            } else {
                self.tick_value = self.tick_value - 1;
            }
        }
    }

    /// Rewind the cursor to the programmed sample.
    fn restart(&mut self)
        ensures
            *final(self) == old(self).spec_restart(),
    {
        self.current_address = self.sample_address;
        self.current_length = self.sample_length;
    }
}

} // verus!
