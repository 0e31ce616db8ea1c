use vstd::prelude::*;
use crate::apu::registers::{high_byte, hi, lo, low_byte, set_high, set_low, with_high, with_low};

verus! {

/// Square wave channel (sound 1, with sweep, or sound 2).
#[derive(Debug)]
pub struct SquareChannel {
    pub has_sweep: bool,
    pub sweep_reg: u16,
    pub duty_envelope: u16,
    pub frequency: u16,
    pub enabled: bool,
    pub phase: u32,
    pub frequency_timer: u32,
    pub envelope_volume: u8,
    pub envelope_timer: u32,
    pub sweep_timer: u32,
    pub shadow_frequency: u32,
}

/// Duty patterns (12.5 %, 25 %, 50 %, 75 %): whether step `i` of 8 is high.
pub open spec fn duty_high(duty: int, i: int) -> bool {
    if duty == 0 {
        i == 7
    } else if duty == 1 {
        i == 0 || i == 7
    } else if duty == 2 {
        i == 0 || i >= 5
    } else {
        1 <= i <= 6
    }
}

impl SquareChannel {
    /// The channel after a trigger: running from phase 0 with the initial
    /// envelope volume (bits 12-15 of the duty/envelope register).
    pub open spec fn triggered(self) -> SquareChannel {
        SquareChannel {
            enabled: true,
            phase: 0,
            envelope_volume: ((self.duty_envelope >> 12u16) as u8) & 0x0F,
            frequency_timer: 0,
            envelope_timer: 0,
            sweep_timer: 0,
            shadow_frequency: if self.has_sweep {
                (self.frequency & 0x7FF) as u32
            } else {
                self.shadow_frequency
            },
            ..self
        }
    }

    /// The sample the channel outputs: +volume on a high duty step,
    /// -volume on a low one, 0 when stopped.
    pub open spec fn sample_spec(self) -> i8 {
        if !self.enabled {
            0
        } else {
            let duty = ((self.duty_envelope >> 6u16) & 3) as int;
            let i = (self.phase % 8) as int;
            if duty_high(duty, i) {
                self.envelope_volume as i8
            } else {
                (-(self.envelope_volume as i8)) as i8
            }
        }
    }

    /// `new` is this channel after the byte write of `value` at `addr`
    /// (offsets 0 to 5 of the channel's block; writing bit 7 of byte 5
    /// triggers the channel).
    pub open spec fn written(self, addr: u32, value: u8, new: SquareChannel) -> bool {
        let off = addr & 0x0F;
        if off == 0 {
            new == SquareChannel { sweep_reg: set_low(self.sweep_reg, value), ..self }
        } else if off == 1 {
            new == SquareChannel { sweep_reg: set_high(self.sweep_reg, value), ..self }
        } else if off == 2 {
            new == SquareChannel { duty_envelope: set_low(self.duty_envelope, value), ..self }
        } else if off == 3 {
            new == SquareChannel { duty_envelope: set_high(self.duty_envelope, value), ..self }
        } else if off == 4 {
            new == SquareChannel { frequency: set_low(self.frequency, value), ..self }
        } else if off == 5 {
            let c = SquareChannel { frequency: set_high(self.frequency, value), ..self };
            new == if value & 0x80 != 0 {
                c.triggered()
            } else {
                c
            }
        } else {
            new == self
        }
    }

    /// The byte a read at `addr` gives.
    pub open spec fn read_spec(self, addr: u32) -> u8 {
        let off = addr & 0x0F;
        if off == 0 {
            low_byte(self.sweep_reg)
        } else if off == 1 {
            high_byte(self.sweep_reg)
        } else if off == 2 {
            low_byte(self.duty_envelope)
        } else if off == 3 {
            high_byte(self.duty_envelope)
        } else if off == 4 {
            low_byte(self.frequency)
        } else if off == 5 {
            high_byte(self.frequency)
        } else {
            0
        }
    }

    /// Stopped channel with cleared registers.
    pub fn new(has_sweep: bool) -> (r: Self)
        ensures
            r.has_sweep == has_sweep,
            !r.enabled,
            r.sweep_reg == 0 && r.duty_envelope == 0 && r.frequency == 0,
            r.phase == 0 && r.envelope_volume == 0,
    {
        SquareChannel {
            has_sweep,
            sweep_reg: 0,
            duty_envelope: 0,
            frequency: 0,
            enabled: false,
            phase: 0,
            frequency_timer: 0,
            envelope_volume: 0,
            envelope_timer: 0,
            sweep_timer: 0,
            shadow_frequency: 0,
        }
    }

    pub fn read_byte(&self, addr: u32) -> (r: u8)
        ensures
            r == self.read_spec(addr),
    {
        let offset = addr & 0x0F;
        if offset == 0 {
            lo(self.sweep_reg)
        } else if offset == 1 {
            hi(self.sweep_reg)
        } else if offset == 2 {
            lo(self.duty_envelope)
        } else if offset == 3 {
            hi(self.duty_envelope)
        } else if offset == 4 {
            lo(self.frequency)
        } else if offset == 5 {
            hi(self.frequency)
        } else {
            0
        }
    }

    pub fn write_byte(&mut self, addr: u32, value: u8)
        ensures
            old(self).written(addr, value, *final(self)),
            old(self).envelope_volume != 128 ==> final(self).envelope_volume != 128,
    {
        let offset = addr & 0x0F;
        if offset == 0 {
            self.sweep_reg = with_low(self.sweep_reg, value);
        } else if offset == 1 {
            self.sweep_reg = with_high(self.sweep_reg, value);
        } else if offset == 2 {
            self.duty_envelope = with_low(self.duty_envelope, value);
        } else if offset == 3 {
            self.duty_envelope = with_high(self.duty_envelope, value);
        } else if offset == 4 {
            self.frequency = with_low(self.frequency, value);
        } else if offset == 5 {
            self.frequency = with_high(self.frequency, value);
            if value & 0x80 != 0 {
                self.trigger();
            }
        }
    }

    /// Starts the channel.
    pub fn trigger(&mut self)
        ensures
            *final(self) == old(self).triggered(),
            final(self).envelope_volume <= 15,
    {
        self.enabled = true;
        self.phase = 0;
        self.envelope_volume = ((self.duty_envelope >> 12) as u8) & 0x0F;
        proof {
            crate::bits::lemma_u8_field((old(self).duty_envelope >> 12u16) as u8, 0, 0x0F);
        }
        self.frequency_timer = 0;
        self.envelope_timer = 0;
        self.sweep_timer = 0;
        if self.has_sweep {
            self.shadow_frequency = (self.frequency & 0x7FF) as u32;
        }
    }

    /// One cycle of the channel; the frequency timer, envelope and sweep
    /// are not run, so nothing changes.
    pub fn step(&mut self)
        ensures
            *final(self) == *old(self),
    {
    }

    /// The current sample (-volume or +volume by the duty pattern, 0 when
    /// stopped).
    pub fn get_sample(&self) -> (r: i8)
        requires
            self.envelope_volume != 128,
        ensures
            r == self.sample_spec(),
    {
        proof {
            crate::bits::lemma_u8_as_i8(self.envelope_volume);
        }
        if !self.enabled {
            0
        } else {
            let duty = (self.duty_envelope >> 6) & 0x03;
            let i = self.phase % 8;
            let high = if duty == 0 {
                i == 7
            } else if duty == 1 {
                i == 0 || i == 7
            } else if duty == 2 {
                i == 0 || i >= 5
            } else {
                1 <= i && i <= 6
            };
            if high {
                self.envelope_volume as i8
            } else {
                -(self.envelope_volume as i8)
            }
        }
    }

    pub fn is_enabled(&self) -> (r: bool)
        ensures
            r == self.enabled,
    {
        self.enabled
    }
}

} // verus!
