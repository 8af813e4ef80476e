//! The audio processor: five channels under a shared frame sequencer,
//! producing one integer sample record per output-rate boundary.  Turning
//! the integer channel levels into floating-point audio is the front
//! end's business.

use vstd::prelude::*;
use crate::apu_dmc::ApuDmc;
use crate::apu_noise::ApuNoise;
use crate::apu_pulse::ApuPulse;
use crate::apu_triangle::ApuTriangle;
use crate::bus::Bus;

verus! {

/// The processor clock rate in Hz; the frame sequencer and the sample
/// divider tick against it.
pub const CPU_FREQUENCY: u32 = 1789773;

/// The output sample rate in Hz.
pub const SAMPLE_RATE: u32 = 48000;

/// The frame sequencer rate in Hz.
pub const FRAME_COUNTER_RATE: u32 = 240;

/// One output sample: the raw level of each channel (four bits for the
/// first four, seven for the last).
#[derive(Debug, Clone, Copy, PartialEq, Eq, Structural)]
pub struct ApuSample {
    pub pulse0: u8,
    pub pulse1: u8,
    pub triangle: u8,
    pub noise: u8,
    pub dmc: u8,
}

#[derive(Debug, Clone, Copy, PartialEq, Eq, Structural)]
pub struct Apu {
    pub cycle: u64,
    pub frame_period: u8,
    pub frame_value: u8,
    pub frame_irq: bool,
    /// Fractional progress toward the next sequencer tick, counted in
    /// 240ths of a processor cycle.
    pub frame_acc: u32,
    /// Fractional progress toward the next output sample, counted in
    /// 48000ths of a processor cycle.
    pub sample_acc: u32,
    pub pulse0: ApuPulse,
    pub pulse1: ApuPulse,
    pub triangle: ApuTriangle,
    pub noise: ApuNoise,
    pub dmc: ApuDmc,
}

impl Apu {
    /// Channel invariants hold, the sequencer mode is one of the two the
    /// hardware has, and the rate accumulators stay below one whole
    /// processor-clock period.
    pub open spec fn wf(self) -> bool {
        &&& self.pulse0.wf()
        &&& self.pulse1.wf()
        &&& self.triangle.wf()
        &&& self.dmc.wf()
        &&& self.frame_period == 4 || self.frame_period == 5
        &&& self.frame_value < 5
        &&& self.frame_acc < CPU_FREQUENCY
        &&& self.sample_acc < CPU_FREQUENCY
    }

    /// All channels silent, the sequencer in 4-step mode.
    pub fn new() -> (r: Apu)
        ensures
            r.wf(),
            r.cycle == 0 && r.frame_value == 0 && !r.frame_irq,
            r.frame_period == 4,
            !r.pulse0.spec_active() && !r.pulse1.spec_active() && !r.triangle.spec_active()
                && !r.noise.spec_active() && !r.dmc.spec_active(),
    {
        Apu {
            cycle: 0,
            frame_period: 4,
            frame_value: 0,
            frame_irq: false,
            frame_acc: 0,
            sample_acc: 0,
            pulse0: ApuPulse::new(0),
            pulse1: ApuPulse::new(1),
            triangle: ApuTriangle::new(),
            noise: ApuNoise::new(),
            dmc: ApuDmc::new(),
        }
    }

    /// Every envelope (and the triangle's linear counter) clocked once.
    pub open spec fn spec_step_envelope(self) -> Apu {
        Apu {
            pulse0: self.pulse0.spec_step_envelope(),
            pulse1: self.pulse1.spec_step_envelope(),
            triangle: self.triangle.spec_step_counter(),
            noise: self.noise.spec_step_envelope(),
            ..self
        }
    }

    fn step_envelope(&mut self)
        requires
            old(self).wf(),
        ensures
            *final(self) == old(self).spec_step_envelope(),
            final(self).wf(),
    {
        self.pulse0.step_envelope();
        self.pulse1.step_envelope();
        self.triangle.step_counter();
        self.noise.step_envelope();
    }

    /// Both sweep units clocked once.
    pub open spec fn spec_step_sweep(self) -> Apu {
        Apu { pulse0: self.pulse0.spec_step_sweep(), pulse1: self.pulse1.spec_step_sweep(), ..self }
    }

    fn step_sweep(&mut self)
        requires
            old(self).wf(),
        ensures
            *final(self) == old(self).spec_step_sweep(),
            final(self).wf(),
    {
        self.pulse0.step_sweep();
        self.pulse1.step_sweep();
    }

    /// Every length counter clocked once.
    pub open spec fn spec_step_length(self) -> Apu {
        Apu {
            pulse0: self.pulse0.spec_step_length(),
            pulse1: self.pulse1.spec_step_length(),
            triangle: self.triangle.spec_step_length(),
            noise: self.noise.spec_step_length(),
            ..self
        }
    }

    fn step_length(&mut self)
        requires
            old(self).wf(),
        ensures
            *final(self) == old(self).spec_step_length(),
            final(self).wf(),
    {
        self.pulse0.step_length();
        self.pulse1.step_length();
        self.triangle.step_length();
        self.noise.step_length();
    }

    /// One sequencer tick in 4-step mode: envelopes every step, sweeps and
    /// lengths on the odd steps.
    pub open spec fn spec_step_frame_counter(self) -> Apu {
        if self.frame_period == 4 {
            let v = ((self.frame_value + 1) % 4) as u8;
            let s = Apu { frame_value: v, ..self }.spec_step_envelope();
            if v % 2 == 1 {
                s.spec_step_sweep().spec_step_length()
            } else {
                s
            }
        } else {
            let v = ((self.frame_value + 1) % 5) as u8;
            let s = Apu { frame_value: v, ..self };
            if v != 4 {
                let s = s.spec_step_envelope();
                if v % 2 == 0 {
                    s.spec_step_sweep().spec_step_length()
                } else {
                    s
                }
            } else {
                s
            }
        }
    }

    /// Whether one sequencer tick raises the frame interrupt: the last
    /// step of 4-step mode, unless inhibited.
    pub open spec fn spec_frame_counter_irq(self) -> bool {
        self.frame_period == 4 && (self.frame_value + 1) % 4 == 3 && self.frame_irq
    }

    fn step_frame_counter(&mut self) -> (irq: bool)
        requires
            old(self).wf(),
        ensures
            *final(self) == old(self).spec_step_frame_counter(),
            final(self).wf(),
            irq == old(self).spec_frame_counter_irq(),
    {
        if self.frame_period == 4 {
            self.frame_value = (self.frame_value + 1) % 4;
            let v = self.frame_value;
            self.step_envelope();
            if v % 2 == 1 {
                self.step_sweep();
                self.step_length();
                v == 3 && self.frame_irq
            } else {
                false
            }
        } else {
            self.frame_value = (self.frame_value + 1) % 5;
            let v = self.frame_value;
            if v != 4 {
                self.step_envelope();
                if v % 2 == 0 {
                    self.step_sweep();
                    self.step_length();
                }
            }
            false
        }
    }

    /// Channel timers for one processor cycle: the triangle at full rate,
    /// the others every second cycle (keyed to the incremented counter).
    pub open spec fn spec_step_timer(self, b: Bus) -> Apu {
        let s = if self.cycle % 2 == 0 {
            Apu {
                pulse0: self.pulse0.spec_step_timer(),
                pulse1: self.pulse1.spec_step_timer(),
                noise: self.noise.spec_step_timer(),
                dmc: self.dmc.spec_step_timer(b),
                ..self
            }
        } else {
            self
        };
        Apu { triangle: s.triangle.spec_step_timer(), ..s }
    }

    fn step_timer(&mut self, bus: &mut Bus)
        requires
            old(self).wf(),
            old(bus).wf(),
        ensures
            *final(self) == old(self).spec_step_timer(*old(bus)),
            final(self).wf(),
            final(bus).wf(),
            final(bus).mapper == old(bus).mapper,
            final(bus).ram == old(bus).ram,
            final(bus).vram == old(bus).vram,
            final(bus).pram == old(bus).pram,
            final(bus).nmi_line == old(bus).nmi_line,
            final(bus).irq_line == old(bus).irq_line,
    {
        if self.cycle % 2 == 0 {
            self.pulse0.step_timer();
            self.pulse1.step_timer();
            self.noise.step_timer();
            self.dmc.step_timer(bus);
        }
        self.triangle.step_timer();
    }

    /// The five channel levels as one sample record.
    pub open spec fn spec_output(self) -> ApuSample {
        ApuSample {
            pulse0: self.pulse0.spec_internal_output(),
            pulse1: self.pulse1.spec_internal_output(),
            triangle: self.triangle.spec_internal_output(),
            noise: self.noise.spec_internal_output(),
            dmc: self.dmc.value,
        }
    }

    pub fn output(&self) -> (r: ApuSample)
        requires
            self.wf(),
        ensures
            r == self.spec_output(),
    {
        ApuSample {
            pulse0: self.pulse0.internal_output(),
            pulse1: self.pulse1.internal_output(),
            triangle: self.triangle.internal_output(),
            noise: self.noise.internal_output(),
            dmc: self.dmc.internal_output(),
        }
    }

    /// The whole state one audio cycle produces: the cycle counter bumped,
    /// the channel timers clocked, the frame sequencer ticked when its
    /// accumulator rolls over, and the sample accumulator advanced.
    pub open spec fn spec_emulate_state(self, b: Bus) -> Apu {
        let s = Apu { cycle: self.cycle.wrapping_add(1), ..self }.spec_step_timer(b);
        let s = if s.frame_acc + FRAME_COUNTER_RATE >= CPU_FREQUENCY {
            Apu {
                frame_acc: (s.frame_acc + FRAME_COUNTER_RATE - CPU_FREQUENCY) as u32,
                ..s
            }.spec_step_frame_counter()
        } else {
            Apu { frame_acc: (s.frame_acc + FRAME_COUNTER_RATE) as u32, ..s }
        };
        if s.sample_acc + SAMPLE_RATE >= CPU_FREQUENCY {
            Apu { sample_acc: (s.sample_acc + SAMPLE_RATE - CPU_FREQUENCY) as u32, ..s }
        } else {
            Apu { sample_acc: (s.sample_acc + SAMPLE_RATE) as u32, ..s }
        }
    }

    /// Whether one audio cycle pulls the processor IRQ line: the frame
    /// sequencer rolled over into its interrupt step.
    pub open spec fn spec_emulate_irq(self, b: Bus) -> bool {
        let s = Apu { cycle: self.cycle.wrapping_add(1), ..self }.spec_step_timer(b);
        s.frame_acc + FRAME_COUNTER_RATE >= CPU_FREQUENCY && s.spec_frame_counter_irq()
    }

    /// One processor cycle of audio work: bump the cycle counter, clock
    /// the channel timers, tick the frame sequencer on each 240 Hz
    /// boundary (possibly pulling the IRQ line), and hand back a sample
    /// record on each 48 kHz boundary.
    pub fn emulate(&mut self, bus: &mut Bus) -> (r: Option<ApuSample>)
        requires
            old(self).wf(),
            old(bus).wf(),
        ensures
            final(self).wf(),
            final(bus).wf(),
            *final(self) == old(self).spec_emulate_state(*old(bus)),
            final(bus).mapper == old(bus).mapper,
            final(bus).ram == old(bus).ram,
            final(bus).vram == old(bus).vram,
            final(bus).pram == old(bus).pram,
            final(bus).nmi_line == old(bus).nmi_line,
            final(bus).irq_line == (old(bus).irq_line || old(self).spec_emulate_irq(*old(bus))),
            r is Some <==> old(self).sample_acc + SAMPLE_RATE >= CPU_FREQUENCY,
            r is Some ==> r->0 == final(self).spec_output(),
    {
        self.cycle = self.cycle.wrapping_add(1);

        self.step_timer(bus);

        self.frame_acc = self.frame_acc + FRAME_COUNTER_RATE;
        if self.frame_acc >= CPU_FREQUENCY {
            self.frame_acc = self.frame_acc - CPU_FREQUENCY;
            let irq = self.step_frame_counter();
            if irq {
                bus.irq_line = true;
            }
        }

        self.sample_acc = self.sample_acc + SAMPLE_RATE;
        if self.sample_acc >= CPU_FREQUENCY {
            self.sample_acc = self.sample_acc - CPU_FREQUENCY;
            Some(self.output())
        } else {
            None
        }
    }

    /// The status read: one bit per channel still running.
    pub fn read(&mut self, address: u16) -> (r: u8)
        ensures
            *final(self) == *old(self),
            address == 0x4015 ==> r == (if old(self).pulse0.spec_active() {
                0x01u8
            } else {
                0u8
            } | if old(self).pulse1.spec_active() {
                0x02u8
            } else {
                0u8
            } | if old(self).triangle.spec_active() {
                0x04u8
            } else {
                0u8
            } | if old(self).noise.spec_active() {
                0x08u8
            } else {
                0u8
            } | if old(self).dmc.spec_active() {
                0x10u8
            } else {
                0u8
            }),
            address != 0x4015 ==> r == 0,
    {
        if address == 0x4015 {
            let b0: u8 = if self.pulse0.active() {
                0x01
            } else {
                0
            };
            let b1: u8 = if self.pulse1.active() {
                0x02
            } else {
                0
            };
            let b2: u8 = if self.triangle.active() {
                0x04
            } else {
                0
            };
            let b3: u8 = if self.noise.active() {
                0x08
            } else {
                0
            };
            let b4: u8 = if self.dmc.active() {
                0x10
            } else {
                0
            };
            b0 | b1 | b2 | b3 | b4
        } else {
            0
        }
    }

    /// The enable write: one bit per channel; clearing a bit silences the
    /// channel at once.
    pub open spec fn spec_set_control(self, val: u8) -> Apu {
        Apu {
            pulse0: self.pulse0.spec_set_enabled(val & 0x01 != 0),
            pulse1: self.pulse1.spec_set_enabled(val & 0x02 != 0),
            triangle: self.triangle.spec_set_enabled(val & 0x04 != 0),
            noise: self.noise.spec_set_enabled(val & 0x08 != 0),
            dmc: self.dmc.spec_set_enabled(val & 0x10 != 0),
            ..self
        }
    }

    /// The sequencer mode write: step count and IRQ inhibit.
    pub open spec fn spec_set_frame_counter(self, val: u8) -> Apu {
        Apu { frame_period: (4 + (val >> 7)) as u8, frame_irq: val & 0x40 == 0, ..self }
    }

    /// What any register write leaves the processor in.
    pub open spec fn spec_write(self, address: u16, val: u8) -> Apu {
        if address == 0x4000 {
            Apu { pulse0: self.pulse0.spec_set_control(val), ..self }
        } else if address == 0x4001 {
            Apu { pulse0: self.pulse0.spec_set_sweep(val), ..self }
        } else if address == 0x4002 {
            Apu { pulse0: self.pulse0.spec_set_timer_low(val), ..self }
        } else if address == 0x4003 {
            Apu { pulse0: self.pulse0.spec_set_timer_high(val), ..self }
        } else if address == 0x4004 {
            Apu { pulse1: self.pulse1.spec_set_control(val), ..self }
        } else if address == 0x4005 {
            Apu { pulse1: self.pulse1.spec_set_sweep(val), ..self }
        } else if address == 0x4006 {
            Apu { pulse1: self.pulse1.spec_set_timer_low(val), ..self }
        } else if address == 0x4007 {
            Apu { pulse1: self.pulse1.spec_set_timer_high(val), ..self }
        } else if address == 0x4008 {
            Apu { triangle: self.triangle.spec_set_control(val), ..self }
        } else if address == 0x400a {
            Apu { triangle: self.triangle.spec_set_timer_low(val), ..self }
        } else if address == 0x400b {
            Apu { triangle: self.triangle.spec_set_timer_high(val), ..self }
        } else if address == 0x400c {
            Apu { noise: self.noise.spec_set_control(val), ..self }
        } else if address == 0x400e {
            Apu { noise: self.noise.spec_set_period(val), ..self }
        } else if address == 0x400f {
            Apu { noise: self.noise.spec_set_length(val), ..self }
        } else if address == 0x4010 {
            Apu { dmc: self.dmc.spec_set_control(val), ..self }
        } else if address == 0x4011 {
            Apu { dmc: self.dmc.spec_set_value(val), ..self }
        } else if address == 0x4012 {
            Apu { dmc: self.dmc.spec_set_address(val), ..self }
        } else if address == 0x4013 {
            Apu { dmc: self.dmc.spec_set_length(val), ..self }
        } else if address == 0x4015 {
            self.spec_set_control(val)
        } else if address == 0x4017 {
            self.spec_set_frame_counter(val)
        } else {
            self
        }
    }

    /// A register write, dispatched by address.
    pub fn write(&mut self, address: u16, val: u8)
        requires
            old(self).wf(),
        ensures
            *final(self) == old(self).spec_write(address, val),
            final(self).wf(),
    {
        match address {
            0x4000 => self.pulse0.set_control(val),
            0x4001 => self.pulse0.set_sweep(val),
            0x4002 => self.pulse0.set_timer_low(val),
            0x4003 => self.pulse0.set_timer_high(val),
            0x4004 => self.pulse1.set_control(val),
            0x4005 => self.pulse1.set_sweep(val),
            0x4006 => self.pulse1.set_timer_low(val),
            0x4007 => self.pulse1.set_timer_high(val),
            0x4008 => self.triangle.set_control(val),
            0x400a => self.triangle.set_timer_low(val),
            0x400b => self.triangle.set_timer_high(val),
            0x400c => self.noise.set_control(val),
            0x400e => self.noise.set_period(val),
            0x400f => self.noise.set_length(val),
            0x4010 => self.dmc.set_control(val),
            0x4011 => self.dmc.set_value(val),
            0x4012 => self.dmc.set_address(val),
            0x4013 => self.dmc.set_length(val),
            0x4015 => {
                self.pulse0.set_enabled((val & 0x01) != 0);
                self.pulse1.set_enabled((val & 0x02) != 0);
                self.triangle.set_enabled((val & 0x04) != 0);
                self.noise.set_enabled((val & 0x08) != 0);
                self.dmc.set_enabled((val & 0x10) != 0);
            },
            0x4017 => {
                proof {
                    assert(val >> 7 <= 1) by (bit_vector);
                }
                self.frame_period = 4 + (val >> 7);
                self.frame_irq = (val & 0x40) == 0;
            },
            _ => {},
        }
    }
}

} // verus!
