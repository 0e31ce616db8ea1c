use vstd::prelude::*;

verus! {

/// `r` with its low byte replaced by `v`.
pub open spec fn set_low(r: u16, v: u8) -> u16 {
    (r & 0xFF00) | (v as u16)
}

/// `r` with its high byte replaced by `v`.
pub open spec fn set_high(r: u16, v: u8) -> u16 {
    (r & 0x00FF) | ((v as u16) << 8u16)
}

/// Low byte of `r`.
pub open spec fn low_byte(r: u16) -> u8 {
    (r & 0xFF) as u8
}

/// High byte of `r`.
pub open spec fn high_byte(r: u16) -> u8 {
    (r >> 8u16) as u8
}

/// Writes byte `v` into the low half of `r`.
pub fn with_low(r: u16, v: u8) -> (x: u16)
    ensures
        x == set_low(r, v),
{
    (r & 0xFF00) | (v as u16)
}

/// Writes byte `v` into the high half of `r`.
pub fn with_high(r: u16, v: u8) -> (x: u16)
    ensures
        x == set_high(r, v),
{
    (r & 0x00FF) | ((v as u16) << 8)
}

/// Low byte of `r`.
pub fn lo(r: u16) -> (x: u8)
    ensures
        x == low_byte(r),
{
    (r & 0xFF) as u8
}

/// High byte of `r`.
pub fn hi(r: u16) -> (x: u8)
    ensures
        x == high_byte(r),
{
    (r >> 8) as u8
}

/// Sound control registers: SOUNDCNT_L (0x04000080), SOUNDCNT_H (0x82),
/// SOUNDCNT_X (0x84) and SOUNDBIAS (0x88).
#[derive(Debug)]
pub struct SoundRegisters {
    pub soundcnt_l: u16,
    pub soundcnt_h: u16,
    pub soundcnt_x: u16,
    pub soundbias: u16,
}

impl SoundRegisters {
    /// The byte a read at `addr` gives.
    pub open spec fn read_spec(self, addr: u32) -> u8 {
        if addr == 0x04000080 {
            low_byte(self.soundcnt_l)
        } else if addr == 0x04000081 {
            high_byte(self.soundcnt_l)
        } else if addr == 0x04000082 {
            low_byte(self.soundcnt_h)
        } else if addr == 0x04000083 {
            high_byte(self.soundcnt_h)
        } else if addr == 0x04000084 {
            low_byte(self.soundcnt_x)
        } else if addr == 0x04000085 {
            high_byte(self.soundcnt_x)
        } else if addr == 0x04000088 {
            low_byte(self.soundbias)
        } else if addr == 0x04000089 {
            high_byte(self.soundbias)
        } else {
            0
        }
    }

    /// `new` is these registers after the byte write of `value` at `addr`:
    /// of SOUNDCNT_X only bit 7 (master enable) is writable.
    pub open spec fn written(self, addr: u32, value: u8, new: SoundRegisters) -> bool {
        if addr == 0x04000080 {
            new == SoundRegisters { soundcnt_l: set_low(self.soundcnt_l, value), ..self }
        } else if addr == 0x04000081 {
            new == SoundRegisters { soundcnt_l: set_high(self.soundcnt_l, value), ..self }
        } else if addr == 0x04000082 {
            new == SoundRegisters { soundcnt_h: set_low(self.soundcnt_h, value), ..self }
        } else if addr == 0x04000083 {
            new == SoundRegisters { soundcnt_h: set_high(self.soundcnt_h, value), ..self }
        } else if addr == 0x04000084 {
            new == SoundRegisters { soundcnt_x: (self.soundcnt_x & 0xFF7F) | ((value as u16) & 0x80), ..self }
        } else if addr == 0x04000088 {
            new == SoundRegisters { soundbias: set_low(self.soundbias, value), ..self }
        } else if addr == 0x04000089 {
            new == SoundRegisters { soundbias: set_high(self.soundbias, value), ..self }
        } else {
            new == self
        }
    }

    /// Mixing off, sound off, bias 0x200.
    pub fn new() -> (r: Self)
        ensures
            r.soundcnt_l == 0 && r.soundcnt_h == 0 && r.soundcnt_x == 0 && r.soundbias == 0x200,
    {
        SoundRegisters { soundcnt_l: 0, soundcnt_h: 0, soundcnt_x: 0, soundbias: 0x200 }
    }

    pub fn read_byte(&self, addr: u32) -> (r: u8)
        ensures
            r == self.read_spec(addr),
    {
        if addr == 0x04000080 {
            lo(self.soundcnt_l)
        } else if addr == 0x04000081 {
            hi(self.soundcnt_l)
        } else if addr == 0x04000082 {
            lo(self.soundcnt_h)
        } else if addr == 0x04000083 {
            hi(self.soundcnt_h)
        } else if addr == 0x04000084 {
            lo(self.soundcnt_x)
        } else if addr == 0x04000085 {
            hi(self.soundcnt_x)
        } else if addr == 0x04000088 {
            lo(self.soundbias)
        } else if addr == 0x04000089 {
            hi(self.soundbias)
        } else {
            0
        }
    }

    pub fn write_byte(&mut self, addr: u32, value: u8)
        ensures
            old(self).written(addr, value, *final(self)),
    {
        if addr == 0x04000080 {
            self.soundcnt_l = with_low(self.soundcnt_l, value);
        } else if addr == 0x04000081 {
            self.soundcnt_l = with_high(self.soundcnt_l, value);
        } else if addr == 0x04000082 {
            self.soundcnt_h = with_low(self.soundcnt_h, value);
        } else if addr == 0x04000083 {
            self.soundcnt_h = with_high(self.soundcnt_h, value);
        } else if addr == 0x04000084 {
            self.soundcnt_x = (self.soundcnt_x & 0xFF7F) | ((value as u16) & 0x80);
        } else if addr == 0x04000088 {
            self.soundbias = with_low(self.soundbias, value);
        } else if addr == 0x04000089 {
            self.soundbias = with_high(self.soundbias, value);
        }
    }

    /// Whether sound is on (bit 7 of SOUNDCNT_X).
    pub fn is_master_enabled(&self) -> (r: bool)
        ensures
            r == (self.soundcnt_x & 0x80 != 0),
    {
        (self.soundcnt_x & 0x80) != 0
    }

    /// Sets or clears the status bit of channel `channel` (0 to 3) in
    /// SOUNDCNT_X; other channel numbers are ignored.
    pub fn set_channel_status(&mut self, channel: u8, enabled: bool)
        ensures
            final(self).soundcnt_l == old(self).soundcnt_l,
            final(self).soundcnt_h == old(self).soundcnt_h,
            final(self).soundbias == old(self).soundbias,
            final(self).soundcnt_x == (if channel >= 4 {
                old(self).soundcnt_x
            } else if enabled {
                old(self).soundcnt_x | (1u16 << channel as u16)
            } else {
                old(self).soundcnt_x & !(1u16 << channel as u16)
            }),
    {
        if channel < 4 {
            if enabled {
                self.soundcnt_x = self.soundcnt_x | (1u16 << (channel as u16));
            } else {
                self.soundcnt_x = self.soundcnt_x & !(1u16 << (channel as u16));
            }
        }
    }

    /// (left, right) master volumes of the GB channels: bits 4-6 and 0-2 of
    /// SOUNDCNT_L.
    pub fn get_gb_volume(&self) -> (r: (u8, u8))
        ensures
            r == (((self.soundcnt_l >> 4u16) & 7) as u8, (self.soundcnt_l & 7) as u8),
            r.0 <= 7 && r.1 <= 7,
    {
        let l = self.soundcnt_l;
        proof {
            crate::bits::lemma_u16_field(l, 4, 7);
        }
        let right = (l & 0x07) as u8;
        let left = ((l >> 4) & 0x07) as u8;
        (left, right)
    }

    /// (left, right) enables of GB channel `channel`: bits 12 + channel and
    /// 8 + channel of SOUNDCNT_L; both off for channels above 3.
    pub fn is_gb_channel_enabled(&self, channel: u8) -> (r: (bool, bool))
        ensures
            r == (if channel >= 4 {
                (false, false)
            } else {
                (
                    (self.soundcnt_l >> (12 + channel) as u16) & 1 != 0,
                    (self.soundcnt_l >> (8 + channel) as u16) & 1 != 0,
                )
            }),
    {
        if channel >= 4 {
            return (false, false);
        }
        let right = (self.soundcnt_l >> ((8 + channel) as u16)) & 1 != 0;
        let left = (self.soundcnt_l >> ((12 + channel) as u16)) & 1 != 0;
        (left, right)
    }
}

impl Default for SoundRegisters {
    fn default() -> (r: Self)
        ensures
            r.soundcnt_l == 0 && r.soundcnt_h == 0 && r.soundcnt_x == 0 && r.soundbias == 0x200,
    {
        Self::new()
    }
}

/// A byte written into a register half reads back, and the other half
/// keeps its byte.
pub proof fn lemma_byte_halves(r: u16, v: u8)
    ensures
        low_byte(set_low(r, v)) == v,
        high_byte(set_low(r, v)) == high_byte(r),
        high_byte(set_high(r, v)) == v,
        low_byte(set_high(r, v)) == low_byte(r),
{
    assert(((((r & 0xFF00) | (v as u16)) & 0xFF) as u8) == v && ((((r & 0xFF00) | (v as u16)) >> 8u16)
        as u8) == ((r >> 8u16) as u8) && ((((r & 0x00FF) | ((v as u16) << 8u16)) >> 8u16) as u8) == v
        && ((((r & 0x00FF) | ((v as u16) << 8u16)) & 0xFF) as u8) == ((r & 0xFF) as u8)) by (bit_vector);
}

} // verus!
