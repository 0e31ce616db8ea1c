use vstd::prelude::*;
use crate::apu::registers::{high_byte, hi, lo, low_byte, set_high, set_low, with_high, with_low};

verus! {

/// Noise channel (sound 4), driven by a linear feedback shift register.
#[derive(Debug)]
pub struct NoiseChannel {
    pub length_envelope: u16,
    pub frequency: u16,
    pub enabled: bool,
    pub lfsr: u16,
    pub frequency_timer: u32,
    pub envelope_volume: u8,
    pub envelope_timer: u32,
}

impl NoiseChannel {
    /// The channel after a trigger: running with a full shift register and
    /// the initial envelope volume (bits 12-15 of SOUND4CNT_L).
    pub open spec fn triggered(self) -> NoiseChannel {
        NoiseChannel {
            enabled: true,
            lfsr: 0x7FFF,
            envelope_volume: ((self.length_envelope >> 12u16) as u8) & 0x0F,
            frequency_timer: 0,
            envelope_timer: 0,
            ..self
        }
    }

    /// The sample: +volume when bit 0 of the shift register is set, else
    /// -volume; 0 when stopped.
    pub open spec fn sample_spec(self) -> i8 {
        if !self.enabled {
            0
        } else if self.lfsr & 1 != 0 {
            self.envelope_volume as i8
        } else {
            (-(self.envelope_volume as i8)) as i8
        }
    }

    /// The byte a read at `addr` gives (offsets 8, 9, 0xC, 0xD).
    pub open spec fn read_spec(self, addr: u32) -> u8 {
        let off = addr & 0x0F;
        if off == 8 {
            low_byte(self.length_envelope)
        } else if off == 9 {
            high_byte(self.length_envelope)
        } else if off == 0xC {
            low_byte(self.frequency)
        } else if off == 0xD {
            high_byte(self.frequency)
        } else {
            0
        }
    }

    /// `new` is this channel after the byte write of `value` at `addr`;
    /// bit 7 of byte 0xD triggers the channel.
    pub open spec fn written(self, addr: u32, value: u8, new: NoiseChannel) -> bool {
        let off = addr & 0x0F;
        if off == 8 {
            new == NoiseChannel { length_envelope: set_low(self.length_envelope, value), ..self }
        } else if off == 9 {
            new == NoiseChannel { length_envelope: set_high(self.length_envelope, value), ..self }
        } else if off == 0xC {
            new == NoiseChannel { frequency: set_low(self.frequency, value), ..self }
        } else if off == 0xD {
            let c = NoiseChannel { frequency: set_high(self.frequency, value), ..self };
            new == if value & 0x80 != 0 {
                c.triggered()
            } else {
                c
            }
        } else {
            new == self
        }
    }

    /// Stopped channel, shift register full.
    pub fn new() -> (r: Self)
        ensures
            !r.enabled,
            r.lfsr == 0x7FFF,
            r.length_envelope == 0 && r.frequency == 0 && r.envelope_volume == 0,
    {
        NoiseChannel {
            length_envelope: 0,
            frequency: 0,
            enabled: false,
            lfsr: 0x7FFF,
            frequency_timer: 0,
            envelope_volume: 0,
            envelope_timer: 0,
        }
    }

    pub fn read_byte(&self, addr: u32) -> (r: u8)
        ensures
            r == self.read_spec(addr),
    {
        let offset = addr & 0x0F;
        if offset == 8 {
            lo(self.length_envelope)
        } else if offset == 9 {
            hi(self.length_envelope)
        } else if offset == 0xC {
            lo(self.frequency)
        } else if offset == 0xD {
            hi(self.frequency)
        } else {
            0
        }
    }

    pub fn write_byte(&mut self, addr: u32, value: u8)
        ensures
            old(self).written(addr, value, *final(self)),
            old(self).envelope_volume != 128 ==> final(self).envelope_volume != 128,
    {
        let offset = addr & 0x0F;
        if offset == 8 {
            self.length_envelope = with_low(self.length_envelope, value);
        } else if offset == 9 {
            self.length_envelope = with_high(self.length_envelope, value);
        } else if offset == 0xC {
            self.frequency = with_low(self.frequency, value);
        } else if offset == 0xD {
            self.frequency = with_high(self.frequency, value);
            if value & 0x80 != 0 {
                self.trigger();
            }
        }
    }

    fn trigger(&mut self)
        ensures
            *final(self) == old(self).triggered(),
            final(self).envelope_volume <= 15,
    {
        self.enabled = true;
        self.lfsr = 0x7FFF;
        self.envelope_volume = ((self.length_envelope >> 12) as u8) & 0x0F;
        proof {
            crate::bits::lemma_u8_field((old(self).length_envelope >> 12u16) as u8, 0, 0x0F);
        }
        self.frequency_timer = 0;
        self.envelope_timer = 0;
    }

    /// One cycle of the channel; the shift register is not clocked, so
    /// nothing changes.
    pub fn step(&mut self)
        ensures
            *final(self) == *old(self),
    {
    }

    pub fn get_sample(&self) -> (r: i8)
        requires
            self.envelope_volume != 128,
        ensures
            r == self.sample_spec(),
    {
        proof {
            crate::bits::lemma_u8_as_i8(self.envelope_volume);
        }
        if !self.enabled {
            0
        } else if (self.lfsr & 1) != 0 {
            self.envelope_volume as i8
        } else {
            -(self.envelope_volume as i8)
        }
    }

    pub fn is_enabled(&self) -> (r: bool)
        ensures
            r == self.enabled,
    {
        self.enabled
    }
}

impl Default for NoiseChannel {
    fn default() -> (r: Self)
        ensures
            !r.enabled,
            r.lfsr == 0x7FFF,
    {
        Self::new()
    }
}

} // verus!
