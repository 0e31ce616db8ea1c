use vstd::prelude::*;
use crate::apu::registers::{high_byte, hi, lo, low_byte, set_high, set_low, with_high, with_low};

verus! {

/// Wave channel (sound 3): plays 4-bit samples from the 16-byte wave RAM.
#[derive(Debug)]
pub struct WaveChannel {
    pub control: u16,
    pub length_volume: u16,
    pub frequency: u16,
    pub wave_ram: [u8; 16],
    pub enabled: bool,
    pub frequency_timer: u32,
    pub sample_index: usize,
}

/// Right shift applied for a sounding volume code: 100 % (0), 50 % (1),
/// 25 % (2).
pub open spec fn volume_shift(code: u16) -> i8 {
    if code <= 1 {
        0
    } else if code == 2 {
        1
    } else {
        2
    }
}

impl WaveChannel {
    /// The sample: the 4-bit wave RAM entry at the sample index (high
    /// nibble first), made signed by subtracting 8 and shifted right by the
    /// volume code (bits 13-14 of SOUND3CNT_H); 0 when stopped or when the
    /// volume code is 0 (mute).
    pub open spec fn sample_spec(self) -> i8 {
        if !self.enabled {
            0
        } else if self.sample_index / 2 >= 16 {
            0
        } else if (self.length_volume >> 13u16) & 3 == 0 {
            0
        } else {
            let byte = self.wave_ram@[(self.sample_index / 2) as int];
            let s4 = if self.sample_index % 2 == 0 {
                (byte >> 4u8) & 0x0F
            } else {
                byte & 0x0F
            };
            ((s4 as i8 - 8) as i8) >> volume_shift((self.length_volume >> 13u16) & 3)
        }
    }

    /// The channel after a trigger: playing when bit 7 of SOUND3CNT_L is set,
    /// from the first sample.
    pub open spec fn triggered(self) -> WaveChannel {
        WaveChannel {
            enabled: (self.control >> 7u16) & 1 != 0,
            sample_index: 0,
            frequency_timer: 0,
            ..self
        }
    }

    /// The byte a read at `addr` gives (offsets 0 to 5).
    pub open spec fn read_spec(self, addr: u32) -> u8 {
        let off = addr & 0x0F;
        if off == 0 {
            low_byte(self.control)
        } else if off == 1 {
            high_byte(self.control)
        } else if off == 2 {
            low_byte(self.length_volume)
        } else if off == 3 {
            high_byte(self.length_volume)
        } else if off == 4 {
            low_byte(self.frequency)
        } else if off == 5 {
            high_byte(self.frequency)
        } else {
            0
        }
    }

    /// `new` is this channel after the byte write of `value` at `addr`;
    /// bit 7 of byte 5 triggers the channel.
    pub open spec fn written(self, addr: u32, value: u8, new: WaveChannel) -> bool {
        let off = addr & 0x0F;
        if off == 0 {
            new == WaveChannel { control: set_low(self.control, value), ..self }
        } else if off == 1 {
            new == WaveChannel { control: set_high(self.control, value), ..self }
        } else if off == 2 {
            new == WaveChannel { length_volume: set_low(self.length_volume, value), ..self }
        } else if off == 3 {
            new == WaveChannel { length_volume: set_high(self.length_volume, value), ..self }
        } else if off == 4 {
            new == WaveChannel { frequency: set_low(self.frequency, value), ..self }
        } else if off == 5 {
            let c = WaveChannel { frequency: set_high(self.frequency, value), ..self };
            new == if value & 0x80 != 0 {
                c.triggered()
            } else {
                c
            }
        } else {
            new == self
        }
    }

    /// Stopped channel with empty wave RAM.
    pub fn new() -> (r: Self)
        ensures
            !r.enabled,
            r.control == 0 && r.length_volume == 0 && r.frequency == 0,
            forall|i: int| 0 <= i < 16 ==> r.wave_ram@[i] == 0,
    {
        WaveChannel {
            control: 0,
            length_volume: 0,
            frequency: 0,
            wave_ram: [0u8; 16],
            enabled: false,
            frequency_timer: 0,
            sample_index: 0,
        }
    }

    pub fn read_byte(&self, addr: u32) -> (r: u8)
        ensures
            r == self.read_spec(addr),
    {
        let offset = addr & 0x0F;
        if offset == 0 {
            lo(self.control)
        } else if offset == 1 {
            hi(self.control)
        } else if offset == 2 {
            lo(self.length_volume)
        } else if offset == 3 {
            hi(self.length_volume)
        } else if offset == 4 {
            lo(self.frequency)
        } else if offset == 5 {
            hi(self.frequency)
        } else {
            0
        }
    }

    pub fn write_byte(&mut self, addr: u32, value: u8)
        ensures
            old(self).written(addr, value, *final(self)),
    {
        let offset = addr & 0x0F;
        if offset == 0 {
            self.control = with_low(self.control, value);
        } else if offset == 1 {
            self.control = with_high(self.control, value);
        } else if offset == 2 {
            self.length_volume = with_low(self.length_volume, value);
        } else if offset == 3 {
            self.length_volume = with_high(self.length_volume, value);
        } else if offset == 4 {
            self.frequency = with_low(self.frequency, value);
        } else if offset == 5 {
            self.frequency = with_high(self.frequency, value);
            if value & 0x80 != 0 {
                self.trigger();
            }
        }
    }

    /// Byte `addr - 0x04000090` of the wave RAM (0 past its 16 bytes).
    pub fn read_wave_ram(&self, addr: u32) -> (r: u8)
        requires
            addr >= 0x04000090,
        ensures
            r == (if addr - 0x04000090 < 16 {
                self.wave_ram@[addr - 0x04000090]
            } else {
                0
            }),
    {
        let index = (addr - 0x04000090) as usize;
        if index < 16 {
            self.wave_ram[index]
        } else {
            0
        }
    }

    /// Writes byte `addr - 0x04000090` of the wave RAM (ignored past its
    /// 16 bytes).
    pub fn write_wave_ram(&mut self, addr: u32, value: u8)
        requires
            addr >= 0x04000090,
        ensures
            final(self).wave_ram@ == (if addr - 0x04000090 < 16 {
                old(self).wave_ram@.update(addr - 0x04000090, value)
            } else {
                old(self).wave_ram@
            }),
            final(self).control == old(self).control,
            final(self).length_volume == old(self).length_volume,
            final(self).frequency == old(self).frequency,
            final(self).enabled == old(self).enabled,
            final(self).sample_index == old(self).sample_index,
            final(self).frequency_timer == old(self).frequency_timer,
    {
        let index = (addr - 0x04000090) as usize;
        if index < 16 {
            self.wave_ram[index] = value;
        }
    }

    fn trigger(&mut self)
        ensures
            *final(self) == old(self).triggered(),
    {
        self.enabled = (self.control >> 7) & 1 != 0;
        self.sample_index = 0;
        self.frequency_timer = 0;
    }

    /// One cycle of the channel; samples are not advanced, so nothing
    /// changes.
    pub fn step(&mut self)
        ensures
            *final(self) == *old(self),
    {
    }

    pub fn get_sample(&self) -> (r: i8)
        ensures
            r == self.sample_spec(),
    {
        if !self.enabled {
            0
        } else {
            let byte_index = self.sample_index / 2;
            let nibble_high = self.sample_index % 2 == 0;
            if byte_index >= 16 {
                0
            } else {
                let byte = self.wave_ram[byte_index];
                let sample_4bit = if nibble_high {
                    (byte >> 4) & 0x0F
                } else {
                    byte & 0x0F
                };
                let volume_code = (self.length_volume >> 13) & 0x03;
                if volume_code == 0 {
                    return 0;
                }
                let shift: i8 = if volume_code == 1 {
                    0
                } else if volume_code == 2 {
                    1
                } else {
                    2
                };
                proof {
                    crate::bits::lemma_u8_field(byte, 4, 0x0F);
                }
                let signed = (sample_4bit as i8) - 8;
                signed >> shift
            }
        }
    }

    pub fn is_enabled(&self) -> (r: bool)
        ensures
            r == self.enabled,
    {
        self.enabled
    }
}

impl Default for WaveChannel {
    fn default() -> (r: Self)
        ensures
            !r.enabled,
    {
        Self::new()
    }
}

} // verus!
