//! The noise channel: a linear-feedback shift register gated by an
//! envelope and a length counter.

use vstd::prelude::*;
use crate::apu_pulse::{length_table, spec_length_table};

verus! {

/// Timer periods for each of the sixteen noise rates.
pub open spec fn spec_noise_table(i: int) -> u16 {
    seq![4u16, 8, 16, 32, 64, 96, 128, 160, 202, 254, 380, 508, 762, 1016, 2034, 4068][i]
}

/// Look one entry up in the noise period table.
pub fn noise_table(i: u8) -> (r: u16)
    requires
        i < 16,
    ensures
        r == spec_noise_table(i as int),
{
    match i {
        0 => 4,
        1 => 8,
        2 => 16,
        3 => 32,
        4 => 64,
        5 => 96,
        6 => 128,
        7 => 160,
        8 => 202,
        9 => 254,
        10 => 380,
        11 => 508,
        12 => 762,
        13 => 1016,
        14 => 2034,
        _ => 4068,
    }
}

#[derive(Debug, Clone, Copy, PartialEq, Eq, Structural)]
pub struct Registers {
    pub control: u8,
    pub period: u8,
    pub length: u8,
}

#[derive(Debug, Clone, Copy, PartialEq, Eq, Structural)]
pub struct ApuNoise {
    pub enabled: bool,
    pub mode: bool,
    pub shift_register: u16,
    pub length_enabled: bool,
    pub length_value: u8,
    pub timer_period: u16,
    pub timer_value: u16,
    pub envelope_enable: bool,
    pub envelope_start: bool,
    pub envelope_loop: bool,
    pub envelope_period: u8,
    pub envelope_value: u8,
    pub envelope_volume: u8,
    pub constant_volume: u8,
    pub reg: Registers,
}

impl ApuNoise {
    /// A silent channel at power-on; the shift register starts seeded
    /// with 1.
    pub fn new() -> (r: ApuNoise)
        ensures
            !r.enabled && r.length_value == 0,
            r.shift_register == 1,
    {
        ApuNoise {
            enabled: false,
            mode: false,
            shift_register: 1,
            length_enabled: false,
            length_value: 0,
            timer_period: 0,
            timer_value: 0,
            envelope_enable: false,
            envelope_start: false,
            envelope_loop: false,
            envelope_period: 0,
            envelope_value: 0,
            envelope_volume: 0,
            constant_volume: 0,
            reg: Registers { control: 0, period: 0, length: 0 },
        }
    }

    /// A channel counts as active while its length counter runs.
    pub open spec fn spec_active(self) -> bool {
        self.length_value != 0
    }

    pub fn active(&self) -> (r: bool)
        ensures
            r == self.spec_active(),
    {
        self.length_value != 0
    }

    /// Disabling a channel silences it at once by clearing the length
    /// counter.
    pub open spec fn spec_set_enabled(self, val: bool) -> ApuNoise {
        ApuNoise {
            enabled: val,
            length_value: if val {
                self.length_value
            } else {
                0
            },
            ..self
        }
    }

    pub fn set_enabled(&mut self, val: bool)
        ensures
            *final(self) == old(self).spec_set_enabled(val),
            !val ==> !final(self).spec_active(),
    {
        self.enabled = val;
        if !self.enabled {
            self.length_value = 0;
        }
    }

    /// A control write: length-counter halt / envelope loop, envelope or
    /// constant volume.
    pub open spec fn spec_set_control(self, val: u8) -> ApuNoise {
        ApuNoise {
            reg: Registers { control: val, ..self.reg },
            length_enabled: val & 0x20 == 0,
            envelope_loop: val & 0x20 != 0,
            envelope_enable: val & 0x10 == 0,
            envelope_period: val & 0x0F,
            constant_volume: val & 0x0F,
            envelope_start: true,
            ..self
        }
    }

    pub fn set_control(&mut self, val: u8)
        ensures
            *final(self) == old(self).spec_set_control(val),
    {
        self.reg.control = val;
        self.length_enabled = (val & 0x20) == 0;
        self.envelope_loop = (val & 0x20) != 0;
        self.envelope_enable = (val & 0x10) == 0;
        self.envelope_period = val & 0x0F;
        self.constant_volume = val & 0x0F;
        self.envelope_start = true;
    }

    /// A period write: the feedback mode bit and one of sixteen timer
    /// rates.
    pub open spec fn spec_set_period(self, val: u8) -> ApuNoise {
        ApuNoise {
            reg: Registers { period: val, ..self.reg },
            mode: val & 0x80 != 0,
            timer_period: spec_noise_table((val & 0x0F) as int),
            ..self
        }
    }

    pub fn set_period(&mut self, val: u8)
        ensures
            *final(self) == old(self).spec_set_period(val),
    {
        self.reg.period = val;
        self.mode = (val & 0x80) != 0;
        proof {
            assert(val & 0x0F < 16) by (bit_vector);
        }
        self.timer_period = noise_table(val & 0x0F);
    }

    /// A length write: reload the length counter and restart the
    /// envelope.
    pub open spec fn spec_set_length(self, val: u8) -> ApuNoise {
        ApuNoise {
            reg: Registers { length: val, ..self.reg },
            length_value: spec_length_table((val >> 3) as int),
            envelope_start: true,
            ..self
        }
    }

    pub fn set_length(&mut self, val: u8)
        ensures
            *final(self) == old(self).spec_set_length(val),
    {
        self.reg.length = val;
        proof {
            assert(val >> 3 < 32) by (bit_vector);
        }
        self.length_value = length_table(val >> 3);
        self.envelope_start = true;
    }

    /// The 4-bit sample the channel puts out right now: silent when
    /// disabled, spent, or when the feedback register's low bit is set.
    pub open spec fn spec_internal_output(self) -> u8 {
        if !self.enabled || self.length_value == 0 || self.shift_register & 1 == 1 {
            0
        } else if self.envelope_enable {
            self.envelope_volume
        } else {
            self.constant_volume
        }
    }

    pub fn internal_output(&self) -> (r: u8)
        ensures
            r == self.spec_internal_output(),
    {
        if !self.enabled || self.length_value == 0 || self.shift_register & 1 == 1 {
            0
        } else if self.envelope_enable {
            self.envelope_volume
        } else {
            self.constant_volume
        }
    }

    /// One timer tick: a spent timer reloads and clocks the feedback
    /// register, folding bit 0 with bit 1 (or bit 6 in the long mode)
    /// into the top.
    pub open spec fn spec_step_timer(self) -> ApuNoise {
        if self.timer_value == 0 {
            let shift: u16 = if self.mode {
                6
            } else {
                1
            };
            let b1 = self.shift_register & 1;
            let b2 = (self.shift_register >> shift) & 1;
            ApuNoise {
                timer_value: self.timer_period,
                shift_register: (self.shift_register >> 1) | ((b1 ^ b2) << 14),
                ..self
            }
        } else {
            ApuNoise { timer_value: (self.timer_value - 1) as u16, ..self }
        }
    }

    pub fn step_timer(&mut self)
        ensures
            *final(self) == old(self).spec_step_timer(),
    {
        if self.timer_value == 0 {
            self.timer_value = self.timer_period;
            let shift: u16 = if self.mode {
                6
            } else {
                1
            };
            let b1 = self.shift_register & 1;
            let b2 = (self.shift_register >> shift) & 1;
            self.shift_register = (self.shift_register >> 1) | ((b1 ^ b2) << 14);
        } else {
            self.timer_value = self.timer_value - 1;
        }
    }

    /// One envelope clock: a restart loads full volume, otherwise the
    /// divider counts down and on empty the volume decays (looping back
    /// to full when the loop flag is set).
    pub open spec fn spec_step_envelope(self) -> ApuNoise {
        if self.envelope_start {
            ApuNoise {
                envelope_volume: 15,
                envelope_value: self.envelope_period,
                envelope_start: false,
                ..self
            }
        } else if self.envelope_value > 0 {
            ApuNoise { envelope_value: (self.envelope_value - 1) as u8, ..self }
        } else {
            ApuNoise {
                envelope_volume: if self.envelope_volume > 0 {
                    (self.envelope_volume - 1) as u8
                } else if self.envelope_loop {
                    15u8
                } else {
                    self.envelope_volume
                },
                envelope_value: self.envelope_period,
                ..self
            }
        }
    }

    pub fn step_envelope(&mut self)
        ensures
            *final(self) == old(self).spec_step_envelope(),
    {
        if self.envelope_start {
            self.envelope_volume = 15;
            self.envelope_value = self.envelope_period;
            self.envelope_start = false;
        } else if self.envelope_value > 0 {
            self.envelope_value = self.envelope_value - 1;
        } else {
            if self.envelope_volume > 0 {
                self.envelope_volume = self.envelope_volume - 1;
            } else if self.envelope_loop {
                self.envelope_volume = 15;
            }
            self.envelope_value = self.envelope_period;
        }
    }

    /// One length-counter clock: counts down unless halted or spent.
    pub open spec fn spec_step_length(self) -> ApuNoise {
        if self.length_enabled && self.length_value > 0 {
            ApuNoise { length_value: (self.length_value - 1) as u8, ..self }
        } else {
            self
        }
    }

    pub fn step_length(&mut self)
        ensures
            *final(self) == old(self).spec_step_length(),
    {
        if self.length_enabled && self.length_value > 0 {
            self.length_value = self.length_value - 1;
        }
    }
}

} // verus!
