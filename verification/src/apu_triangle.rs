//! The triangle channel: a 32-step triangle wave gated by a length
//! counter and a linear counter.

use vstd::prelude::*;
use crate::apu_pulse::{length_table, spec_length_table};

verus! {

/// The 32-step triangle waveform: 15 down to 0, then 0 up to 15.
pub open spec fn spec_triangle_step(i: int) -> u8 {
    if i < 16 {
        (15 - i) as u8
    } else {
        (i - 16) as u8
    }
}

#[derive(Debug, Clone, Copy, PartialEq, Eq, Structural)]
pub struct Registers {
    pub control: u8,
    pub timer_lo: u8,
    pub timer_hi: u8,
}

#[derive(Debug, Clone, Copy, PartialEq, Eq, Structural)]
pub struct ApuTriangle {
    pub enabled: bool,
    pub length_enabled: bool,
    pub length_value: u8,
    pub timer_period: u16,
    pub timer_value: u16,
    pub duty_value: u8,
    pub counter_reload: bool,
    pub counter_period: u8,
    pub counter_value: u8,
    pub reg: Registers,
}

impl ApuTriangle {
    /// The waveform step stays inside the 32-entry wave.
    pub open spec fn wf(self) -> bool {
        self.duty_value <= 31
    }

    /// A silent channel at power-on.
    pub fn new() -> (r: ApuTriangle)
        ensures
            r.wf(),
            !r.enabled && r.length_value == 0,
            r.timer_period == 0 && r.timer_value == 0 && r.duty_value == 0,
            r.counter_value == 0 && r.counter_period == 0 && !r.counter_reload,
    {
        ApuTriangle {
            enabled: false,
            length_enabled: false,
            length_value: 0,
            timer_period: 0,
            timer_value: 0,
            duty_value: 0,
            counter_reload: false,
            counter_period: 0,
            counter_value: 0,
            reg: Registers { control: 0, timer_lo: 0, timer_hi: 0 },
        }
    }

    /// A channel counts as active while its length counter runs.
    pub open spec fn spec_active(self) -> bool {
        self.length_value != 0
    }

    pub fn active(&self) -> (r: bool)
        ensures
            r == self.spec_active(),
    {
        self.length_value != 0
    }

    /// Disabling a channel silences it at once by clearing the length
    /// counter.
    pub open spec fn spec_set_enabled(self, val: bool) -> ApuTriangle {
        ApuTriangle {
            enabled: val,
            length_value: if val {
                self.length_value
            } else {
                0
            },
            ..self
        }
    }

    pub fn set_enabled(&mut self, val: bool)
        ensures
            *final(self) == old(self).spec_set_enabled(val),
            !val ==> !final(self).spec_active(),
    {
        self.enabled = val;
        if !self.enabled {
            self.length_value = 0;
        }
    }

    /// A control write: length-counter halt and the linear counter period.
    pub open spec fn spec_set_control(self, val: u8) -> ApuTriangle {
        ApuTriangle {
            reg: Registers { control: val, ..self.reg },
            length_enabled: val & 0x80 == 0,
            counter_period: val & 0x7F,
            ..self
        }
    }

    pub fn set_control(&mut self, val: u8)
        ensures
            *final(self) == old(self).spec_set_control(val),
            old(self).wf() ==> final(self).wf(),
    {
        self.reg.control = val;
        self.length_enabled = (val & 0x80) == 0;
        self.counter_period = val & 0x7F;
    }

    /// The low half of the timer period.
    pub open spec fn spec_set_timer_low(self, val: u8) -> ApuTriangle {
        ApuTriangle {
            reg: Registers { timer_lo: val, ..self.reg },
            timer_period: (self.timer_period & 0xFF00) | val as u16,
            ..self
        }
    }

    pub fn set_timer_low(&mut self, val: u8)
        ensures
            *final(self) == old(self).spec_set_timer_low(val),
            old(self).wf() ==> final(self).wf(),
    {
        self.reg.timer_lo = val;
        self.timer_period = (self.timer_period & 0xFF00) | val as u16;
    }

    /// The high half of the timer period; the write also reloads the
    /// length counter, restarts the timer and arms the linear counter.
    pub open spec fn spec_set_timer_high(self, val: u8) -> ApuTriangle {
        let period = (self.timer_period & 0x00FF) | ((val & 0x07) as u16) << 8;
        ApuTriangle {
            reg: Registers { timer_hi: val, ..self.reg },
            length_value: spec_length_table((val >> 3) as int),
            timer_period: period,
            timer_value: period,
            counter_reload: true,
            ..self
        }
    }

    pub fn set_timer_high(&mut self, val: u8)
        ensures
            *final(self) == old(self).spec_set_timer_high(val),
            old(self).wf() ==> final(self).wf(),
    {
        self.reg.timer_hi = val;
        proof {
            assert(val >> 3 < 32) by (bit_vector);
        }
        self.length_value = length_table(val >> 3);
        self.timer_period = (self.timer_period & 0x00FF) | ((val & 0x07) as u16) << 8;
        self.timer_value = self.timer_period;
        self.counter_reload = true;
    }

    /// The 4-bit sample the channel puts out right now: silent when
    /// disabled, spent, gated by the linear counter, or stuck on a zero
    /// period.
    pub open spec fn spec_internal_output(self) -> u8 {
        if !self.enabled || self.length_value == 0 || self.counter_value == 0 || (self.timer_period
            == 0 && self.timer_value == 0) {
            0
        } else {
            spec_triangle_step(self.duty_value as int)
        }
    }

    pub fn internal_output(&self) -> (r: u8)
        requires
            self.wf(),
        ensures
            r == self.spec_internal_output(),
    {
        if !self.enabled || self.length_value == 0 || self.counter_value == 0 || (self.timer_period
            == 0 && self.timer_value == 0) {
            0
        } else if self.duty_value < 16 {
            15 - self.duty_value
        } else {
            self.duty_value - 16
        }
    }

    /// One timer tick: a spent timer reloads, and advances the wave step
    /// while both counters run.
    pub open spec fn spec_step_timer(self) -> ApuTriangle {
        if self.timer_value == 0 {
            ApuTriangle {
                timer_value: self.timer_period,
                duty_value: if self.length_value > 0 && self.counter_value > 0 {
                    ((self.duty_value + 1) % 32) as u8
                } else {
                    self.duty_value
                },
                ..self
            }
        } else {
            ApuTriangle { timer_value: (self.timer_value - 1) as u16, ..self }
        }
    }

    pub fn step_timer(&mut self)
        requires
            old(self).wf(),
        ensures
            *final(self) == old(self).spec_step_timer(),
            final(self).wf(),
    {
        if self.timer_value == 0 {
            self.timer_value = self.timer_period;
            if self.length_value > 0 && self.counter_value > 0 {
                self.duty_value = (self.duty_value + 1) % 32;
            }
        } else {
            self.timer_value = self.timer_value - 1;
        }
    }

    /// One length-counter clock: counts down unless halted or spent.
    pub open spec fn spec_step_length(self) -> ApuTriangle {
        if self.length_enabled && self.length_value > 0 {
            ApuTriangle { length_value: (self.length_value - 1) as u8, ..self }
        } else {
            self
        }
    }

    pub fn step_length(&mut self)
        ensures
            *final(self) == old(self).spec_step_length(),
            old(self).wf() ==> final(self).wf(),
    {
        if self.length_enabled && self.length_value > 0 {
            self.length_value = self.length_value - 1;
        }
    }

    /// One linear-counter clock: an armed counter reloads, otherwise it
    /// counts down; the arm flag drops once the length counter is
    /// running.
    pub open spec fn spec_step_counter(self) -> ApuTriangle {
        let s = if self.counter_reload {
            ApuTriangle { counter_value: self.counter_period, ..self }
        } else if self.counter_value > 0 {
            ApuTriangle { counter_value: (self.counter_value - 1) as u8, ..self }
        } else {
            self
        };
        if s.length_enabled {
            ApuTriangle { counter_reload: false, ..s }
        } else {
            s
        }
    }

    pub fn step_counter(&mut self)
        ensures
            *final(self) == old(self).spec_step_counter(),
            old(self).wf() ==> final(self).wf(),
    {
        if self.counter_reload {
            self.counter_value = self.counter_period;
        } else if self.counter_value > 0 {
            self.counter_value = self.counter_value - 1;
        }
        if self.length_enabled {
            self.counter_reload = false;
        }
    }
}

} // verus!
