//! A pulse channel: duty-cycled square wave with an envelope, a sweep
//! unit and a length counter.

use vstd::prelude::*;
use crate::bitops::lemma_u8_and_le;

verus! {

broadcast use lemma_u8_and_le;

/// The length counter load table, indexed by the five high bits of a
/// length register write.
pub open spec fn spec_length_table(i: int) -> u8 {
    seq![
        10u8, 254, 20, 2, 40, 4, 80, 6, 160, 8, 60, 10, 14, 12, 26, 14,
        12, 16, 24, 18, 48, 20, 96, 22, 192, 24, 72, 26, 16, 28, 32, 30,
    ][i]
}

/// Look one entry up in the length counter table.
pub fn length_table(i: u8) -> (r: u8)
    requires
        i < 32,
    ensures
        r == spec_length_table(i as int),
{
    match i {
        0 => 10,
        1 => 254,
        2 => 20,
        3 => 2,
        4 => 40,
        5 => 4,
        6 => 80,
        7 => 6,
        8 => 160,
        9 => 8,
        10 => 60,
        11 => 10,
        12 => 14,
        13 => 12,
        14 => 26,
        15 => 14,
        16 => 12,
        17 => 16,
        18 => 24,
        19 => 18,
        20 => 48,
        21 => 20,
        22 => 96,
        23 => 22,
        24 => 192,
        25 => 24,
        26 => 72,
        27 => 26,
        28 => 16,
        29 => 28,
        30 => 32,
        _ => 30,
    }
}

/// One duty row as a bit mask, highest bit first.
pub open spec fn spec_duty_row(mode: int) -> u8 {
    if mode == 0 {
        0x40
    } else if mode == 1 {
        0x60
    } else if mode == 2 {
        0x78
    } else {
        0x9F
    }
}

/// The duty table entry for one mode and step.
pub open spec fn spec_duty(mode: int, value: int) -> u8 {
    (spec_duty_row(mode) >> ((7 - value) as u8)) & 1
}

/// The raw register bytes last written, kept for inspection.
#[derive(Debug, Clone, Copy, PartialEq, Eq, Structural)]
pub struct Registers {
    pub control: u8,
    pub sweep: u8,
    pub timer_lo: u8,
    pub timer_hi: u8,
}

#[derive(Debug, Clone, Copy, PartialEq, Eq, Structural)]
pub struct ApuPulse {
    pub channel: u8,
    pub enabled: bool,
    pub length_enabled: bool,
    pub length_value: u8,
    pub timer_period: u16,
    pub timer_value: u16,
    pub duty_mode: u8,
    pub duty_value: u8,
    pub sweep_enable: bool,
    pub sweep_reload: bool,
    pub sweep_negate: bool,
    pub sweep_shift: u8,
    pub sweep_period: u8,
    pub sweep_value: u8,
    pub envelope_enable: bool,
    pub envelope_start: bool,
    pub envelope_loop: bool,
    pub envelope_period: u8,
    pub envelope_value: u8,
    pub envelope_volume: u8,
    pub constant_volume: u8,
    pub reg: Registers,
}

impl ApuPulse {
    /// Decoded fields stay in the ranges their registers can express.
    pub open spec fn wf(self) -> bool {
        &&& self.duty_mode <= 3
        &&& self.duty_value <= 7
        &&& self.sweep_shift <= 7
        &&& self.envelope_volume <= 15
        &&& self.constant_volume <= 15
    }

    /// A silent channel at power-on.
    pub fn new(channel: u8) -> (r: ApuPulse)
        ensures
            r.wf(),
            r.channel == channel,
            !r.enabled && r.length_value == 0,
            r.timer_period == 0 && r.timer_value == 0 && r.duty_mode == 0 && r.duty_value == 0,
    {
        ApuPulse {
            channel,
            enabled: false,
            length_enabled: false,
            length_value: 0,
            timer_period: 0,
            timer_value: 0,
            duty_mode: 0,
            duty_value: 0,
            sweep_enable: false,
            sweep_reload: false,
            sweep_negate: false,
            sweep_shift: 0,
            sweep_period: 0,
            sweep_value: 0,
            envelope_enable: false,
            envelope_start: false,
            envelope_loop: false,
            envelope_period: 0,
            envelope_value: 0,
            envelope_volume: 0,
            constant_volume: 0,
            reg: Registers { control: 0, sweep: 0, timer_lo: 0, timer_hi: 0 },
        }
    }

    /// A channel counts as active while its length counter runs.
    pub open spec fn spec_active(self) -> bool {
        self.length_value != 0
    }

    pub fn active(&self) -> (r: bool)
        ensures
            r == self.spec_active(),
    {
        self.length_value != 0
    }

    /// Disabling a channel silences it at once by clearing the length
    /// counter.
    pub open spec fn spec_set_enabled(self, val: bool) -> ApuPulse {
        ApuPulse {
            enabled: val,
            length_value: if val {
                self.length_value
            } else {
                0
            },
            ..self
        }
    }

    pub fn set_enabled(&mut self, val: bool)
        ensures
            *final(self) == old(self).spec_set_enabled(val),
            !val ==> !final(self).spec_active(),
    {
        self.enabled = val;
        if !self.enabled {
            self.length_value = 0;
        }
    }

    /// A control write: duty mode, length-counter halt / envelope loop,
    /// envelope or constant volume.
    pub open spec fn spec_set_control(self, val: u8) -> ApuPulse {
        ApuPulse {
            reg: Registers { control: val, ..self.reg },
            duty_mode: val >> 6,
            length_enabled: val & 0x20 == 0,
            envelope_loop: val & 0x20 != 0,
            envelope_enable: val & 0x10 == 0,
            envelope_period: val & 0x0F,
            constant_volume: val & 0x0F,
            envelope_start: true,
            ..self
        }
    }

    pub fn set_control(&mut self, val: u8)
        ensures
            *final(self) == old(self).spec_set_control(val),
            old(self).wf() ==> final(self).wf(),
    {
        self.reg.control = val;
        self.duty_mode = val >> 6;
        self.length_enabled = (val & 0x20) == 0;
        self.envelope_loop = (val & 0x20) != 0;
        self.envelope_enable = (val & 0x10) == 0;
        self.envelope_period = val & 0x0F;
        self.constant_volume = val & 0x0F;
        self.envelope_start = true;
        proof {
            assert(val >> 6 <= 3) by (bit_vector);
        }
    }

    /// A sweep register write.
    pub open spec fn spec_set_sweep(self, val: u8) -> ApuPulse {
        ApuPulse {
            reg: Registers { sweep: val, ..self.reg },
            sweep_enable: val & 0x80 != 0,
            sweep_period: (val >> 4) & 0x7,
            sweep_negate: val & 0x08 != 0,
            sweep_shift: val & 0x07,
            sweep_reload: true,
            ..self
        }
    }

    pub fn set_sweep(&mut self, val: u8)
        ensures
            *final(self) == old(self).spec_set_sweep(val),
            old(self).wf() ==> final(self).wf(),
    {
        self.reg.sweep = val;
        self.sweep_enable = (val & 0x80) != 0;
        self.sweep_period = (val >> 4) & 0x7;
        self.sweep_negate = (val & 0x08) != 0;
        self.sweep_shift = val & 0x07;
        self.sweep_reload = true;
    }

    /// The low half of the timer period.
    pub open spec fn spec_set_timer_low(self, val: u8) -> ApuPulse {
        ApuPulse {
            reg: Registers { timer_lo: val, ..self.reg },
            timer_period: (self.timer_period & 0xFF00) | val as u16,
            ..self
        }
    }

    pub fn set_timer_low(&mut self, val: u8)
        ensures
            *final(self) == old(self).spec_set_timer_low(val),
            old(self).wf() ==> final(self).wf(),
    {
        self.reg.timer_lo = val;
        self.timer_period = (self.timer_period & 0xFF00) | val as u16;
    }

    /// The high half of the timer period; the write also reloads the
    /// length counter from the table, restarts the envelope and resets the
    /// duty step.
    pub open spec fn spec_set_timer_high(self, val: u8) -> ApuPulse {
        ApuPulse {
            reg: Registers { timer_hi: val, ..self.reg },
            length_value: spec_length_table((val >> 3) as int),
            timer_period: (self.timer_period & 0x00FF) | ((val & 0x07) as u16) << 8,
            envelope_start: true,
            duty_value: 0,
            ..self
        }
    }

    pub fn set_timer_high(&mut self, val: u8)
        ensures
            *final(self) == old(self).spec_set_timer_high(val),
            old(self).wf() ==> final(self).wf(),
    {
        self.reg.timer_hi = val;
        proof {
            assert(val >> 3 < 32) by (bit_vector);
        }
        self.length_value = length_table(val >> 3);
        self.timer_period = (self.timer_period & 0x00FF) | ((val & 0x07) as u16) << 8;
        self.envelope_start = true;
        self.duty_value = 0;
    }

    /// The 4-bit sample the channel puts out right now: silent when
    /// disabled, spent, on the low side of the duty wave, or when the
    /// period is out of the playable range.
    pub open spec fn spec_internal_output(self) -> u8 {
        if !self.enabled || self.length_value == 0 || spec_duty(
            self.duty_mode as int,
            self.duty_value as int,
        ) == 0 || self.timer_period < 8 || self.timer_period > 0x7FF {
            0
        } else if self.envelope_enable {
            self.envelope_volume
        } else {
            self.constant_volume
        }
    }

    pub fn internal_output(&self) -> (r: u8)
        requires
            self.wf(),
        ensures
            r == self.spec_internal_output(),
    {
        if !self.enabled || self.length_value == 0 || self.timer_period < 8 || self.timer_period
            > 0x7FF {
            0
        } else {
            let row: u8 = match self.duty_mode {
                0 => 0x40,
                1 => 0x60,
                2 => 0x78,
                _ => 0x9F,
            };
            let bit = (row >> (7 - self.duty_value)) & 1;
            if bit == 0 {
                0
            } else if self.envelope_enable {
                self.envelope_volume
            } else {
                self.constant_volume
            }
        }
    }

    /// One sweep application: the period moves by itself shifted down,
    /// downward sweeps on the first channel undershooting by one.
    pub open spec fn spec_sweep(self) -> ApuPulse {
        let delta = self.timer_period >> self.sweep_shift as u16;
        if self.sweep_negate {
            let down = (self.timer_period - delta) as u16;
            ApuPulse {
                timer_period: if self.channel == 1 {
                    down.wrapping_sub(1)
                } else {
                    down
                },
                ..self
            }
        } else {
            ApuPulse { timer_period: self.timer_period.wrapping_add(delta), ..self }
        }
    }

    pub fn sweep(&mut self)
        requires
            old(self).wf(),
        ensures
            *final(self) == old(self).spec_sweep(),
            final(self).wf(),
    {
        let delta = self.timer_period >> self.sweep_shift;
        proof {
            let p = self.timer_period;
            let s = self.sweep_shift;
            assert(s < 8 ==> (p >> (s as u16)) <= p) by (bit_vector);
        }
        if self.sweep_negate {
            self.timer_period = (self.timer_period - delta).wrapping_sub(
                if self.channel == 1 {
                    1
                } else {
                    0
                },
            );
        } else {
            self.timer_period = self.timer_period.wrapping_add(delta);
        }
    }

    /// One timer tick: a spent timer reloads and advances the duty step.
    pub open spec fn spec_step_timer(self) -> ApuPulse {
        if self.timer_value == 0 {
            ApuPulse {
                timer_value: self.timer_period,
                duty_value: ((self.duty_value + 1) % 8) as u8,
                ..self
            }
        } else {
            ApuPulse { timer_value: (self.timer_value - 1) as u16, ..self }
        }
    }

    pub fn step_timer(&mut self)
        requires
            old(self).wf(),
        ensures
            *final(self) == old(self).spec_step_timer(),
            final(self).wf(),
    {
        if self.timer_value == 0 {
            self.timer_value = self.timer_period;
            self.duty_value = (self.duty_value + 1) % 8;
        } else {
            self.timer_value = self.timer_value - 1;
        }
    }

    /// One envelope clock: a restart loads full volume, otherwise the
    /// divider counts down and on empty the volume decays (looping back to
    /// full when the loop flag is set).
    pub open spec fn spec_step_envelope(self) -> ApuPulse {
        if self.envelope_start {
            ApuPulse {
                envelope_volume: 15,
                envelope_value: self.envelope_period,
                envelope_start: false,
                ..self
            }
        } else if self.envelope_value > 0 {
            ApuPulse { envelope_value: (self.envelope_value - 1) as u8, ..self }
        } else {
            ApuPulse {
                envelope_volume: if self.envelope_volume > 0 {
                    (self.envelope_volume - 1) as u8
                } else if self.envelope_loop {
                    15u8
                } else {
                    self.envelope_volume
                },
                envelope_value: self.envelope_period,
                ..self
            }
        }
    }

    pub fn step_envelope(&mut self)
        ensures
            *final(self) == old(self).spec_step_envelope(),
            old(self).wf() ==> final(self).wf(),
    {
        if self.envelope_start {
            self.envelope_volume = 15;
            self.envelope_value = self.envelope_period;
            self.envelope_start = false;
        } else if self.envelope_value > 0 {
            self.envelope_value = self.envelope_value - 1;
        } else {
            if self.envelope_volume > 0 {
                self.envelope_volume = self.envelope_volume - 1;
            } else if self.envelope_loop {
                self.envelope_volume = 15;
            }
            self.envelope_value = self.envelope_period;
        }
    }

    /// One sweep clock: a reload restarts the divider (sweeping first if
    /// it sat at zero with the sweep enabled); otherwise the divider
    /// counts down and sweeps on empty.
    pub open spec fn spec_step_sweep(self) -> ApuPulse {
        if self.sweep_reload {
            let s = if self.sweep_enable && self.sweep_value == 0 {
                self.spec_sweep()
            } else {
                self
            };
            ApuPulse { sweep_value: s.sweep_period, sweep_reload: false, ..s }
        } else if self.sweep_value > 0 {
            ApuPulse { sweep_value: (self.sweep_value - 1) as u8, ..self }
        } else {
            let s = if self.sweep_enable {
                self.spec_sweep()
            } else {
                self
            };
            ApuPulse { sweep_value: s.sweep_period, ..s }
        }
    }

    pub fn step_sweep(&mut self)
        requires
            old(self).wf(),
        ensures
            *final(self) == old(self).spec_step_sweep(),
            final(self).wf(),
    {
        if self.sweep_reload {
            if self.sweep_enable && self.sweep_value == 0 {
                self.sweep();
            }
            self.sweep_value = self.sweep_period;
            self.sweep_reload = false;
        } else if self.sweep_value > 0 {
            self.sweep_value = self.sweep_value - 1;
        } else {
            if self.sweep_enable {
                self.sweep();
            }
            self.sweep_value = self.sweep_period;
        }
    }

    /// One length-counter clock: counts down unless halted or spent.
    pub open spec fn spec_step_length(self) -> ApuPulse {
        if self.length_enabled && self.length_value > 0 {
            ApuPulse { length_value: (self.length_value - 1) as u8, ..self }
        } else {
            self
        }
    }

    pub fn step_length(&mut self)
        ensures
            *final(self) == old(self).spec_step_length(),
            old(self).wf() ==> final(self).wf(),
    {
        if self.length_enabled && self.length_value > 0 {
            self.length_value = self.length_value - 1;
        }
    }
}

/// Disabling a pulse channel zeroes its length counter at once, so it
/// reports inactive — whatever control value (halt bit included) was
/// written before.
pub proof fn lemma_disable_silences_pulse(p: ApuPulse, control: u8)
    ensures
        !p.spec_set_control(control).spec_set_enabled(false).spec_active(),
        p.spec_set_control(control).spec_set_enabled(false).length_value == 0,
{
}

} // verus!
